use toml_deps::{
    get_attribute, list_packages, remove_attribute, remove_package, set_attribute, EditError,
    Manifest, Namespace,
};

const RECORD_DOC: &str = "[vipm.dependencies]\npkg = { version = \"1.0.0\", url = \"http://x\" }\n";
const SCALAR_DOC: &str = "[vipm.dependencies]\npkg = \"1.0.0\"\n";

#[test]
fn set_version_on_empty_document_creates_tables() {
    let out = set_attribute("", "nipm", "pkg", "version", "1.2.3").unwrap();
    assert!(out.contains("[nipm.dependencies]"));
    assert!(out.contains("pkg = \"1.2.3\""));
    assert_eq!(get_attribute(&out, "nipm", "pkg", "version").unwrap(), "1.2.3");
    assert_eq!(list_packages(&out, "nipm").unwrap(), vec!["pkg".to_string()]);
}

#[test]
fn set_version_on_record_keeps_other_keys() {
    let doc = "[vipm.dependencies]\npkg = { version = \"0.0.0\", url = \"http://x\" }\n";
    let out = set_attribute(doc, "vipm", "pkg", "version", "1.2.3").unwrap();
    assert_eq!(get_attribute(&out, "vipm", "pkg", "version").unwrap(), "1.2.3");
    assert_eq!(get_attribute(&out, "vipm", "pkg", "url").unwrap(), "http://x");
    assert!(out.contains("url = \"http://x\""));
}

#[test]
fn set_other_attribute_promotes_scalar() {
    let out = set_attribute(SCALAR_DOC, "vipm", "pkg", "url", "http://x").unwrap();
    assert_eq!(
        out,
        "[vipm.dependencies]\npkg = { version = \"1.0.0\", url = \"http://x\" }\n"
    );
    assert_eq!(get_attribute(&out, "vipm", "pkg", "version").unwrap(), "1.0.0");
    assert_eq!(get_attribute(&out, "vipm", "pkg", "url").unwrap(), "http://x");
}

#[test]
fn get_missing_attribute_of_record() {
    assert_eq!(
        get_attribute(RECORD_DOC, "vipm", "pkg", "display_version"),
        Err(EditError::AttributeNotFound)
    );
}

#[test]
fn missing_namespace_fails_to_read_but_lists_nothing() {
    let doc = "[nipm.dependencies]\nother = \"2.0\"\n";
    assert_eq!(
        get_attribute(doc, "vipm", "pkg", "version"),
        Err(EditError::NamespaceNotFound)
    );
    assert_eq!(list_packages(doc, "vipm").unwrap(), Vec::<String>::new());
}

#[test]
fn remove_version_of_scalar_is_refused() {
    assert_eq!(
        remove_attribute(SCALAR_DOC, "vipm", "pkg", "version"),
        Err(EditError::AttributeNotFound)
    );
}

#[test]
fn set_then_get_version_in_each_namespace() {
    for ns in ["vipm", "nipm"] {
        let out = set_attribute("", ns, "lib", "version", "3.1").unwrap();
        assert_eq!(get_attribute(&out, ns, "lib", "version").unwrap(), "3.1");
    }
}

#[test]
fn second_set_only_changes_the_record_key() {
    let once = set_attribute(SCALAR_DOC, "vipm", "pkg", "url", "http://a").unwrap();
    let twice = set_attribute(&once, "vipm", "pkg", "url", "http://b").unwrap();
    let direct = set_attribute(SCALAR_DOC, "vipm", "pkg", "url", "http://b").unwrap();
    assert_eq!(twice, direct);
    assert_eq!(get_attribute(&twice, "vipm", "pkg", "version").unwrap(), "1.0.0");
    assert_eq!(get_attribute(&twice, "vipm", "pkg", "url").unwrap(), "http://b");
}

#[test]
fn text_round_trips_without_edits() {
    let doc = "# comment\n[package]\nname = \"x\"  # trailing\n\n[vipm.dependencies]\npkg = \"1.0.0\"\nrec = {version=\"2\",url=\"u\"}\n";
    let once = Manifest::parse(doc).unwrap().to_text();
    let twice = Manifest::parse(&once).unwrap().to_text();
    assert_eq!(once, doc);
    assert_eq!(twice, once);
}

#[test]
fn set_new_package_other_attribute_creates_record_without_version() {
    let out = set_attribute("", "vipm", "pkg", "url", "http://x").unwrap();
    assert!(out.contains("pkg = { url = \"http://x\" }"));
    assert_eq!(
        get_attribute(&out, "vipm", "pkg", "version"),
        Err(EditError::AttributeNotFound)
    );
}

#[test]
fn overwrite_scalar_version_in_place() {
    let doc = "[vipm.dependencies]\na = \"1\"\npkg = \"1.0.0\"\nz = \"2\"\n";
    let out = set_attribute(doc, "vipm", "pkg", "version", "2.0.0").unwrap();
    assert_eq!(out, "[vipm.dependencies]\na = \"1\"\npkg = \"2.0.0\"\nz = \"2\"\n");
}

#[test]
fn edits_leave_other_content_untouched() {
    let doc = "# top\n[package]\nname = \"demo\" # keep me\n\n[vipm.dependencies]\npkg = \"1.0.0\"\n";
    let out = set_attribute(doc, "vipm", "other", "version", "0.1").unwrap();
    assert!(out.starts_with("# top\n[package]\nname = \"demo\" # keep me\n"));
    assert_eq!(list_packages(&out, "vipm").unwrap(), vec!["pkg", "other"]);
}

#[test]
fn get_version_of_scalar_and_other_attribute_of_scalar() {
    assert_eq!(get_attribute(SCALAR_DOC, "vipm", "pkg", "version").unwrap(), "1.0.0");
    assert_eq!(
        get_attribute(SCALAR_DOC, "vipm", "pkg", "url"),
        Err(EditError::AttributeNotFound)
    );
}

#[test]
fn get_missing_package() {
    assert_eq!(
        get_attribute(SCALAR_DOC, "vipm", "nope", "version"),
        Err(EditError::PackageNotFound)
    );
}

#[test]
fn namespace_without_dependencies_table_is_not_found() {
    let doc = "[vipm]\nname = \"x\"\n";
    assert_eq!(
        get_attribute(doc, "vipm", "pkg", "version"),
        Err(EditError::NamespaceNotFound)
    );
    assert_eq!(
        remove_attribute(doc, "vipm", "pkg", "url"),
        Err(EditError::NamespaceNotFound)
    );
    assert_eq!(remove_package(doc, "vipm", "pkg"), Err(EditError::NamespaceNotFound));
}

#[test]
fn invalid_namespace_is_rejected() {
    assert_eq!(
        set_attribute("", "cargo", "pkg", "version", "1"),
        Err(EditError::InvalidNamespace)
    );
    assert_eq!(
        get_attribute("", "VIPM", "pkg", "version"),
        Err(EditError::InvalidNamespace)
    );
    assert_eq!(list_packages("", ""), Err(EditError::InvalidNamespace));
    assert_eq!(Namespace::from_name("nipm"), Ok(Namespace::Nipm));
    assert_eq!(Namespace::Vipm.name(), "vipm");
}

#[test]
fn malformed_text_is_a_parse_error() {
    let bad = "[vipm.dependencies\npkg = ";
    assert_eq!(
        set_attribute(bad, "vipm", "pkg", "version", "1"),
        Err(EditError::ParseError)
    );
    assert_eq!(get_attribute(bad, "vipm", "pkg", "version"), Err(EditError::ParseError));
    assert_eq!(remove_attribute(bad, "vipm", "pkg", "url"), Err(EditError::ParseError));
    assert_eq!(remove_package(bad, "vipm", "pkg"), Err(EditError::ParseError));
    assert_eq!(list_packages(bad, "vipm"), Err(EditError::ParseError));
    assert!(Manifest::parse(bad).is_err());
}

#[test]
fn remove_attribute_of_record() {
    let out = remove_attribute(RECORD_DOC, "vipm", "pkg", "url").unwrap();
    assert_eq!(get_attribute(&out, "vipm", "pkg", "version").unwrap(), "1.0.0");
    assert_eq!(
        get_attribute(&out, "vipm", "pkg", "url"),
        Err(EditError::AttributeNotFound)
    );
    assert_eq!(
        remove_attribute(RECORD_DOC, "vipm", "pkg", "license"),
        Err(EditError::AttributeNotFound)
    );
}

#[test]
fn removing_last_record_key_leaves_empty_record() {
    let doc = "[vipm.dependencies]\npkg = { url = \"http://x\" }\n";
    let out = remove_attribute(doc, "vipm", "pkg", "url").unwrap();
    assert_eq!(list_packages(&out, "vipm").unwrap(), vec!["pkg"]);
    assert!(out.contains("pkg = {"));
    assert_eq!(
        get_attribute(&out, "vipm", "pkg", "url"),
        Err(EditError::AttributeNotFound)
    );
}

#[test]
fn remove_package_of_either_form() {
    let doc = "[vipm.dependencies]\na = \"1\"\nb = { version = \"2\" }\nc = \"3\"\n";
    let out = remove_package(doc, "vipm", "a").unwrap();
    let out = remove_package(&out, "vipm", "b").unwrap();
    assert_eq!(out, "[vipm.dependencies]\nc = \"3\"\n");
    assert_eq!(remove_package(&out, "vipm", "a"), Err(EditError::PackageNotFound));
}

#[test]
fn list_keeps_table_order() {
    let doc = "[nipm.dependencies]\nzeta = \"1\"\nalpha = { version = \"2\" }\nmid = \"3\"\n";
    assert_eq!(list_packages(doc, "nipm").unwrap(), vec!["zeta", "alpha", "mid"]);
}

#[test]
fn names_are_case_sensitive() {
    let doc = "[vipm.dependencies]\nPkg = \"1\"\n";
    assert_eq!(
        get_attribute(doc, "vipm", "pkg", "version"),
        Err(EditError::PackageNotFound)
    );
    let rec = "[vipm.dependencies]\npkg = { Version = \"1\" }\n";
    assert_eq!(
        get_attribute(rec, "vipm", "pkg", "version"),
        Err(EditError::AttributeNotFound)
    );
}

#[test]
fn manifest_methods_edit_in_place() {
    let mut m = Manifest::parse(SCALAR_DOC).unwrap();
    assert_eq!(m.set_attribute(Namespace::Vipm, "pkg", "url", "http://x"), Ok(()));
    assert_eq!(m.get_attribute(Namespace::Vipm, "pkg", "url").unwrap(), "http://x");
    assert_eq!(m.remove_attribute(Namespace::Vipm, "pkg", "url"), Ok(()));
    assert_eq!(m.remove_package(Namespace::Vipm, "pkg"), Ok(()));
    assert_eq!(m.list_packages(Namespace::Vipm), Ok(Vec::<String>::new()));
    assert_eq!(m.to_text(), "[vipm.dependencies]\n");
    assert_eq!(m.list_packages(Namespace::Nipm), Ok(Vec::<String>::new()));
    assert!(m.to_text().contains("[nipm.dependencies]"));
}

#[test]
fn failed_edits_leave_the_document_unchanged() {
    let mut m = Manifest::parse(RECORD_DOC).unwrap();
    assert_eq!(
        m.remove_attribute(Namespace::Vipm, "pkg", "nope"),
        Err(EditError::AttributeNotFound)
    );
    assert_eq!(
        m.remove_package(Namespace::Nipm, "pkg"),
        Err(EditError::NamespaceNotFound)
    );
    assert_eq!(m.to_text(), RECORD_DOC);
}

const TABLE_DOC: &str = "[vipm.dependencies.pkg]\nversion = \"1.0.0\"\nurl = \"http://x\"\n";

#[test]
fn record_written_as_table_is_read() {
    assert_eq!(get_attribute(TABLE_DOC, "vipm", "pkg", "version").unwrap(), "1.0.0");
    assert_eq!(get_attribute(TABLE_DOC, "vipm", "pkg", "url").unwrap(), "http://x");
    assert_eq!(
        get_attribute(TABLE_DOC, "vipm", "pkg", "license"),
        Err(EditError::AttributeNotFound)
    );
    assert_eq!(list_packages(TABLE_DOC, "vipm").unwrap(), vec!["pkg"]);
}

#[test]
fn record_written_as_table_is_edited_in_place() {
    let out = set_attribute(TABLE_DOC, "vipm", "pkg", "version", "2.0.0").unwrap();
    assert_eq!(out, "[vipm.dependencies.pkg]\nversion = \"2.0.0\"\nurl = \"http://x\"\n");
    let out = set_attribute(&out, "vipm", "pkg", "license", "MIT").unwrap();
    assert_eq!(get_attribute(&out, "vipm", "pkg", "license").unwrap(), "MIT");
    let out = remove_attribute(&out, "vipm", "pkg", "url").unwrap();
    assert_eq!(
        out,
        "[vipm.dependencies.pkg]\nversion = \"2.0.0\"\nlicense = \"MIT\"\n"
    );
}

#[test]
fn non_string_attribute_is_not_found() {
    let doc = "[vipm.dependencies]\npkg = { version = \"1\", optional = true }\n";
    assert_eq!(
        get_attribute(doc, "vipm", "pkg", "optional"),
        Err(EditError::AttributeNotFound)
    );
    let out = remove_attribute(doc, "vipm", "pkg", "optional").unwrap();
    assert!(!out.contains("optional"));
    assert_eq!(get_attribute(&out, "vipm", "pkg", "version").unwrap(), "1");
}

#[test]
fn non_table_dependencies_are_left_alone() {
    let doc = "[vipm]\ndependencies = { pkg = \"1.0\" }\n";
    assert_eq!(
        set_attribute(doc, "vipm", "pkg", "version", "2.0"),
        Err(EditError::NamespaceNotFound)
    );
    assert_eq!(list_packages(doc, "vipm"), Err(EditError::NamespaceNotFound));
    let mut m = Manifest::parse(doc).unwrap();
    assert_eq!(
        m.set_attribute(Namespace::Vipm, "other", "url", "u"),
        Err(EditError::NamespaceNotFound)
    );
    assert_eq!(m.list_packages(Namespace::Vipm), Err(EditError::NamespaceNotFound));
    assert_eq!(m.to_text(), doc);
    let scalar_ns = "vipm = \"x\"\n";
    assert_eq!(
        set_attribute(scalar_ns, "vipm", "pkg", "version", "1"),
        Err(EditError::NamespaceNotFound)
    );
    assert_eq!(set_attribute(scalar_ns, "nipm", "pkg", "version", "1").is_ok(), true);
}
