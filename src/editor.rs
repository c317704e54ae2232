//! The dependency attribute editor.
use crate::access::{key_lines_spec, table_key_lines};
use crate::model::{
    attribute_of, child_table, deps_blocked, deps_or_empty, empty_table, ensure_deps, entry_of,
    fresh_entry, get_spec, lemma_put_again, listed, lookup_spec, packages_spec, put,
    remove_attribute_spec, remove_package_spec, set_entry, set_spec, sub_table, version_key,
    with_deps, EditError, Node,
};
use crate::tree::{
    doc_view, inline_get, inline_insert, inline_remove, inline_value, inline_view,
    item_as_inline_table, item_as_inline_table_mut, item_as_str, item_as_table,
    item_as_table_mut, item_view, key_order, inline_key_order, new_inline_table, new_table, parse_document, parsed,
    parse_error_text, render_document, rendered, root_table, root_table_mut, string_value, table_get, table_get_mut,
    table_insert, table_item, table_keys, table_node, table_remove, table_view, value_as_str,
    value_item, error_message,
};
use toml_edit::{Document, Item, Table};
use vstd::prelude::*;

verus! {

/// The two package-manager namespaces that a document can declare dependencies for.
#[derive(Debug, Clone, Copy, PartialEq, Eq, Structural)]
pub enum Namespace {
    Vipm,
    Nipm,
}

/// The namespace named by a text, if it names one.
pub open spec fn namespace_of(s: Seq<char>) -> Result<Namespace, EditError> {
    if s == "vipm"@ {
        Ok(Namespace::Vipm)
    } else if s == "nipm"@ {
        Ok(Namespace::Nipm)
    } else {
        Err(EditError::InvalidNamespace)
    }
}

impl Namespace {
    /// The name of the namespace's table.
    pub open spec fn spec_name(self) -> Seq<char> {
        match self {
            Namespace::Vipm => "vipm"@,
            Namespace::Nipm => "nipm"@,
        }
    }

    /// The name of the namespace's table.
    pub fn name(&self) -> (r: &'static str)
        ensures
            r@ == self.spec_name(),
    {
        match self {
            Namespace::Vipm => "vipm",
            Namespace::Nipm => "nipm",
        }
    }

    /// The namespace with the given name; any other name is an `InvalidNamespace` error.
    pub fn from_name(s: &str) -> (r: Result<Namespace, EditError>)
        ensures
            r == namespace_of(s@),
            r matches Ok(n) ==> n.spec_name() == s@,
    {
        if same_text(s, "vipm") {
            Ok(Namespace::Vipm)
        } else if same_text(s, "nipm") {
            Ok(Namespace::Nipm)
        } else {
            Err(EditError::InvalidNamespace)
        }
    }
}

/// Whether two texts are equal.
fn same_text(a: &str, b: &str) -> (r: bool)
    ensures
        r == (a@ == b@),
{
    a.to_owned() == b.to_owned()
}

/// The table under `key` in `t`, borrowed for change; an empty table is put
/// there first where `key` holds no table.
fn ensure_table<'a>(t: &'a mut Table, key: &str) -> (r: &'a mut Table)
    ensures
        table_node(*r) == child_table(table_node(*old(t)), key@),
        table_node(*final(t)) == put(table_node(*old(t)), key@, table_node(*final(r))),
{
    let present = match table_get(t, key) {
        Some(i) => item_as_table(i).is_some(),
        None => false,
    };
    let ghost t0 = table_node(*t);
    if !present {
        let fresh = new_table();
        proof {
            assert(table_view(fresh) =~= Map::empty());
            assert(key_order(fresh) =~= Seq::empty());
        }
        table_insert(t, key, table_item(fresh));
        proof {
            assert forall|b: Node| put(table_node(*t), key@, b) == put(t0, key@, b) by {
                lemma_put_again(t0, key@, empty_table(), b);
            }
        }
    }
    match table_get_mut(t, key) {
        Some(i) => match item_as_table_mut(i) {
            Some(s) => s,
            None => vstd::pervasive::unreached(),
        },
        None => vstd::pervasive::unreached(),
    }
}

/// A fresh entry item that holds one attribute.
fn fresh_item(attr: &str, value: &str, is_version: bool) -> (r: Item)
    requires
        is_version == (attr@ == version_key()),
    ensures
        item_view(r) == fresh_entry(attr@, value@),
{
    if is_version {
        value_item(string_value(value))
    } else {
        let mut rec = new_inline_table();
        proof {
            assert(inline_view(rec) =~= Map::empty());
            assert(inline_key_order(rec) =~= Seq::empty());
        }
        inline_insert(&mut rec, attr, string_value(value));
        value_item(inline_value(rec))
    }
}

/// Sets `attr` on an existing entry: a bare version is overwritten, a bare
/// version is promoted to an inline record for any other attribute, a record
/// (inline or a table of its own) gains or overwrites the key, and anything
/// else is replaced by a fresh entry.
fn set_in_entry(item: &mut Item, attr: &str, value: &str, is_version: bool)
    requires
        is_version == (attr@ == version_key()),
    ensures
        item_view(*final(item)) == set_entry(Some(item_view(*old(item))), attr@, value@),
{
    let cur: Option<String> = match item_as_str(&*item) {
        Some(s) => Some(s.to_owned()),
        None => None,
    };
    match cur {
        Some(cur) => {
            if is_version {
                *item = value_item(string_value(value));
            } else {
                let mut rec = new_inline_table();
                proof {
                    assert(inline_view(rec) =~= Map::empty());
                    assert(inline_key_order(rec) =~= Seq::empty());
                }
                inline_insert(&mut rec, "version", string_value(cur.as_str()));
                inline_insert(&mut rec, attr, string_value(value));
                *item = value_item(inline_value(rec));
            }
        },
        None => match item_as_inline_table_mut(item) {
            Some(rec) => inline_insert(rec, attr, string_value(value)),
            None => match item_as_table_mut(item) {
                Some(rec) => table_insert(rec, attr, value_item(string_value(value))),
                None => {
                    *item = fresh_item(attr, value, is_version);
                },
            },
        },
    }
}

/// Sets `attr` of package `pkg` in the dependencies table `d`.
fn set_in_table(d: &mut Table, pkg: &str, attr: &str, value: &str)
    ensures
        table_node(*final(d)) == put(
            table_node(*old(d)),
            pkg@,
            set_entry(entry_of(table_node(*old(d)), pkg@), attr@, value@),
        ),
{
    let is_version = same_text(attr, "version");
    match table_get_mut(d, pkg) {
        Some(item) => set_in_entry(item, attr, value, is_version),
        None => table_insert(d, pkg, fresh_item(attr, value, is_version)),
    }
}

/// Whether the namespace key, or its `dependencies` key, holds something
/// other than a table.
fn blocked(root: &Table, ns: Namespace) -> (r: bool)
    ensures
        r == deps_blocked(table_node(*root), ns.spec_name()),
{
    match table_get(root, ns.name()) {
        Some(i) => match item_as_table(i) {
            Some(n) => match table_get(n, "dependencies") {
                Some(d) => item_as_table(d).is_none(),
                None => false,
            },
            None => true,
        },
        None => false,
    }
}

/// The entry of package `pkg` in namespace `ns` under the document root `root`.
fn find_entry<'a>(root: &'a Table, ns: Namespace, pkg: &str) -> (r: Result<&'a Item, EditError>)
    ensures
        match lookup_spec(table_node(*root), ns.spec_name(), pkg@) {
            Ok(e) => r matches Ok(i) && item_view(*i) == e,
            Err(e) => r == Err::<&Item, EditError>(e),
        },
{
    let n = match table_get(root, ns.name()) {
        Some(i) => match item_as_table(i) {
            Some(t) => t,
            None => return Err(EditError::NamespaceNotFound),
        },
        None => return Err(EditError::NamespaceNotFound),
    };
    let d = match table_get(n, "dependencies") {
        Some(i) => match item_as_table(i) {
            Some(t) => t,
            None => return Err(EditError::NamespaceNotFound),
        },
        None => return Err(EditError::NamespaceNotFound),
    };
    match table_get(d, pkg) {
        Some(i) => Ok(i),
        None => Err(EditError::PackageNotFound),
    }
}

/// The value of attribute `attr` of an entry.
fn attribute_text(e: &Item, attr: &str) -> (r: Result<String, EditError>)
    ensures
        match attribute_of(item_view(*e), attr@) {
            Ok(v) => r matches Ok(s) && s@ == v,
            Err(x) => r == Err::<String, EditError>(x),
        },
{
    if let Some(s) = item_as_str(e) {
        if same_text(attr, "version") {
            Ok(s.to_owned())
        } else {
            Err(EditError::AttributeNotFound)
        }
    } else if let Some(rec) = item_as_inline_table(e) {
        match inline_get(rec, attr) {
            Some(v) => match value_as_str(v) {
                Some(s) => Ok(s.to_owned()),
                None => Err(EditError::AttributeNotFound),
            },
            None => Err(EditError::AttributeNotFound),
        }
    } else if let Some(rec) = item_as_table(e) {
        match table_get(rec, attr) {
            Some(v) => match item_as_str(v) {
                Some(s) => Ok(s.to_owned()),
                None => Err(EditError::AttributeNotFound),
            },
            None => Err(EditError::AttributeNotFound),
        }
    } else {
        Err(EditError::AttributeNotFound)
    }
}

/// A parsed TOML document whose dependency declarations can be edited.
///
/// Parts of the document that an edit does not touch keep their text.
pub struct Manifest {
    doc: Document,
}

impl View for Manifest {
    type V = Node;

    /// The root table of the document.
    closed spec fn view(&self) -> Node {
        doc_view(self.doc)
    }
}

impl Manifest {
    /// The document has a table at its root.
    pub open spec fn wf(&self) -> bool {
        self@ is Table
    }

    /// The text that the document prints as.
    pub closed spec fn text(&self) -> Seq<char> {
        rendered(self.doc)
    }

    /// Parses a document; invalid TOML is a `ParseError`.
    pub fn parse(text: &str) -> (r: Result<Manifest, EditError>)
        ensures
            r is Ok <==> parsed(text@) is Some,
            r matches Ok(m) ==> m@ == parsed(text@)->0 && m.wf(),
            r matches Err(e) ==> e == EditError::ParseError,
    {
        match parse_document(text) {
            Ok(doc) => Ok(Manifest { doc }),
            Err(_) => Err(EditError::ParseError),
        }
    }

    /// The document as text.
    pub fn to_text(&self) -> (r: String)
        requires
            self.wf(),
        ensures
            r@ == self.text(),
    {
        render_document(&self.doc)
    }

    /// The root table of the document.
    pub fn root(&self) -> (r: &Table)
        requires
            self.wf(),
        ensures
            table_node(*r) == self@,
    {
        root_table(&self.doc)
    }

    /// The top-level table named `name`, if the document has one.
    pub fn table(&self, name: &str) -> (r: Option<&Table>)
        requires
            self.wf(),
        ensures
            r is Some <==> sub_table(self@, name@) is Some,
            r matches Some(t) ==> sub_table(self@, name@) == Some(table_node(*t)),
    {
        match table_get(root_table(&self.doc), name) {
            Some(i) => item_as_table(i),
            None => None,
        }
    }

    /// Stores `item` under the top-level key `key`: a key already there keeps
    /// its place and the formatting of the key, a new key comes last.
    pub fn set_item(&mut self, key: &str, item: Item)
        requires
            old(self).wf(),
        ensures
            final(self).wf(),
            final(self)@ == put(old(self)@, key@, item_view(item)),
    {
        let root = root_table_mut(&mut self.doc);
        match table_get_mut(root, key) {
            Some(slot) => {
                *slot = item;
            },
            None => {
                table_insert(root, key, item);
            },
        }
    }

    /// The top-level keys of the document, one per line, in order.
    pub fn table_names(&self) -> (r: String)
        requires
            self.wf(),
        ensures
            r@ == key_lines_spec(listed(self@)),
    {
        table_key_lines(root_table(&self.doc))
    }

    /// The dependencies table of `ns`, borrowed for change; the namespace
    /// table and the dependencies table are created where missing.
    fn deps_mut(&mut self, ns: Namespace) -> (r: &mut Table)
        requires
            old(self).wf(),
        ensures
            table_node(*r) == deps_or_empty(old(self)@, ns.spec_name()),
            final(self)@ == with_deps(old(self)@, ns.spec_name(), table_node(*final(r))),
    {
        let root = root_table_mut(&mut self.doc);
        let n = ensure_table(root, ns.name());
        ensure_table(n, "dependencies")
    }

    /// Sets attribute `attribute` of package `package` in namespace `ns` to
    /// `value`, creating the namespace table, the dependencies table and the
    /// entry where missing. A bare version string is overwritten in place
    /// when the attribute is `version`, and otherwise turned into a record
    /// that keeps it as `version`, listed first. Where the namespace key or
    /// its `dependencies` key holds something other than a table, nothing is
    /// replaced: the document is unchanged and the error is `NamespaceNotFound`.
    pub fn set_attribute(&mut self, ns: Namespace, package: &str, attribute: &str, value: &str) -> (r:
        Result<(), EditError>)
        requires
            old(self).wf(),
        ensures
            final(self).wf(),
            deps_blocked(old(self)@, ns.spec_name()) ==> r == Err::<(), EditError>(
                EditError::NamespaceNotFound,
            ) && final(self)@ == old(self)@,
            !deps_blocked(old(self)@, ns.spec_name()) ==> r is Ok && final(self)@ == set_spec(
                old(self)@,
                ns.spec_name(),
                package@,
                attribute@,
                value@,
            ),
    {
        if blocked(root_table(&self.doc), ns) {
            return Err(EditError::NamespaceNotFound);
        }
        let d = self.deps_mut(ns);
        set_in_table(d, package, attribute, value);
        Ok(())
    }

    /// Reads attribute `attribute` of package `package` in namespace `ns`.
    pub fn get_attribute(&self, ns: Namespace, package: &str, attribute: &str) -> (r: Result<
        String,
        EditError,
    >)
        requires
            self.wf(),
        ensures
            match get_spec(self@, ns.spec_name(), package@, attribute@) {
                Ok(v) => r matches Ok(s) && s@ == v,
                Err(e) => r == Err::<String, EditError>(e),
            },
    {
        let e = find_entry(root_table(&self.doc), ns, package)?;
        attribute_text(e, attribute)
    }

    /// Removes attribute `attribute` of package `package` in namespace `ns`.
    /// Only a record (inline or a table of its own) loses attributes;
    /// removing its last one leaves an empty record. On an error the document
    /// is unchanged.
    pub fn remove_attribute(&mut self, ns: Namespace, package: &str, attribute: &str) -> (r:
        Result<(), EditError>)
        requires
            old(self).wf(),
        ensures
            final(self).wf(),
            match remove_attribute_spec(old(self)@, ns.spec_name(), package@, attribute@) {
                Ok(n) => r is Ok && final(self)@ == n,
                Err(e) => r == Err::<(), EditError>(e) && final(self)@ == old(self)@,
            },
    {
        let removable = {
            let e = find_entry(root_table(&self.doc), ns, package)?;
            match item_as_inline_table(e) {
                Some(rec) => inline_get(rec, attribute).is_some(),
                None => match item_as_table(e) {
                    Some(rec) => table_get(rec, attribute).is_some(),
                    None => false,
                },
            }
        };
        if !removable {
            return Err(EditError::AttributeNotFound);
        }
        let d = self.deps_mut(ns);
        match table_get_mut(d, package) {
            Some(item) => match item_as_inline_table_mut(item) {
                Some(rec) => inline_remove(rec, attribute),
                None => match item_as_table_mut(item) {
                    Some(rec) => table_remove(rec, attribute),
                    None => vstd::pervasive::unreached(),
                },
            },
            None => vstd::pervasive::unreached(),
        }
        Ok(())
    }

    /// Removes package `package` from namespace `ns`, whatever form its entry
    /// has. On an error the document is unchanged.
    pub fn remove_package(&mut self, ns: Namespace, package: &str) -> (r: Result<(), EditError>)
        requires
            old(self).wf(),
        ensures
            final(self).wf(),
            match remove_package_spec(old(self)@, ns.spec_name(), package@) {
                Ok(n) => r is Ok && final(self)@ == n,
                Err(e) => r == Err::<(), EditError>(e) && final(self)@ == old(self)@,
            },
    {
        find_entry(root_table(&self.doc), ns, package)?;
        let d = self.deps_mut(ns);
        table_remove(d, package);
        Ok(())
    }

    /// The package names of namespace `ns`, in the order of the table. The
    /// namespace table and the dependencies table are created where missing,
    /// so a document without them lists no package. Where the namespace key
    /// or its `dependencies` key holds something other than a table, the
    /// document is unchanged and the error is `NamespaceNotFound`.
    pub fn list_packages(&mut self, ns: Namespace) -> (r: Result<Vec<String>, EditError>)
        requires
            old(self).wf(),
        ensures
            final(self).wf(),
            deps_blocked(old(self)@, ns.spec_name()) ==> r == Err::<Vec<String>, EditError>(
                EditError::NamespaceNotFound,
            ) && final(self)@ == old(self)@,
            !deps_blocked(old(self)@, ns.spec_name()) ==> final(self)@ == ensure_deps(
                old(self)@,
                ns.spec_name(),
            ) && (r matches Ok(names) && names@.map_values(|k: String| k@) == packages_spec(
                old(self)@,
                ns.spec_name(),
            )),
    {
        if blocked(root_table(&self.doc), ns) {
            return Err(EditError::NamespaceNotFound);
        }
        let d = self.deps_mut(ns);
        Ok(table_keys(&*d))
    }
}

/// The message of the error met when parsing a text: the parser's message,
/// never empty, where the text is not valid TOML; empty where it is.
pub fn parse_error_message(text: &str) -> (r: String)
    ensures
        parsed(text@) is Some ==> r@.len() == 0,
        parsed(text@) is None ==> r@ == parse_error_text(text@) && r@.len() > 0,
{
    match parse_document(text) {
        Ok(_) => String::new(),
        Err(e) => error_message(&e),
    }
}

/// Sets an attribute of a package in a document given as text, and returns
/// the edited text. The namespace is checked first, then the text is parsed.
pub fn set_attribute(
    doc_text: &str,
    namespace: &str,
    package: &str,
    attribute: &str,
    value: &str,
) -> (r: Result<String, EditError>)
    ensures
        match namespace_of(namespace@) {
            Err(e) => r == Err::<String, EditError>(e),
            Ok(ns) => match parsed(doc_text@) {
                None => r == Err::<String, EditError>(EditError::ParseError),
                Some(root) => if deps_blocked(root, ns.spec_name()) {
                    r == Err::<String, EditError>(EditError::NamespaceNotFound)
                } else {
                    r matches Ok(t) && exists|m: Manifest|
                        m@ == set_spec(root, ns.spec_name(), package@, attribute@, value@)
                            && #[trigger] m.text() == t@
                },
            },
        },
{
    let ns = Namespace::from_name(namespace)?;
    let mut m = Manifest::parse(doc_text)?;
    m.set_attribute(ns, package, attribute, value)?;
    let t = m.to_text();
    assert(m.text() == t@);
    Ok(t)
}

/// Reads an attribute of a package from a document given as text.
pub fn get_attribute(doc_text: &str, namespace: &str, package: &str, attribute: &str) -> (r: Result<
    String,
    EditError,
>)
    ensures
        match namespace_of(namespace@) {
            Err(e) => r == Err::<String, EditError>(e),
            Ok(ns) => match parsed(doc_text@) {
                None => r == Err::<String, EditError>(EditError::ParseError),
                Some(root) => match get_spec(root, ns.spec_name(), package@, attribute@) {
                    Ok(v) => r matches Ok(s) && s@ == v,
                    Err(e) => r == Err::<String, EditError>(e),
                },
            },
        },
{
    let ns = Namespace::from_name(namespace)?;
    let m = Manifest::parse(doc_text)?;
    m.get_attribute(ns, package, attribute)
}

/// Removes an attribute of a package from a document given as text, and
/// returns the edited text.
pub fn remove_attribute(doc_text: &str, namespace: &str, package: &str, attribute: &str) -> (r:
    Result<String, EditError>)
    ensures
        match namespace_of(namespace@) {
            Err(e) => r == Err::<String, EditError>(e),
            Ok(ns) => match parsed(doc_text@) {
                None => r == Err::<String, EditError>(EditError::ParseError),
                Some(root) => match remove_attribute_spec(
                    root,
                    ns.spec_name(),
                    package@,
                    attribute@,
                ) {
                    Ok(n) => r matches Ok(t) && exists|m: Manifest| m@ == n && #[trigger] m.text()
                        == t@,
                    Err(e) => r == Err::<String, EditError>(e),
                },
            },
        },
{
    let ns = Namespace::from_name(namespace)?;
    let mut m = Manifest::parse(doc_text)?;
    m.remove_attribute(ns, package, attribute)?;
    let t = m.to_text();
    assert(m.text() == t@);
    Ok(t)
}

/// Removes a package from a document given as text, and returns the edited text.
pub fn remove_package(doc_text: &str, namespace: &str, package: &str) -> (r: Result<
    String,
    EditError,
>)
    ensures
        match namespace_of(namespace@) {
            Err(e) => r == Err::<String, EditError>(e),
            Ok(ns) => match parsed(doc_text@) {
                None => r == Err::<String, EditError>(EditError::ParseError),
                Some(root) => match remove_package_spec(root, ns.spec_name(), package@) {
                    Ok(n) => r matches Ok(t) && exists|m: Manifest| m@ == n && #[trigger] m.text()
                        == t@,
                    Err(e) => r == Err::<String, EditError>(e),
                },
            },
        },
{
    let ns = Namespace::from_name(namespace)?;
    let mut m = Manifest::parse(doc_text)?;
    m.remove_package(ns, package)?;
    let t = m.to_text();
    assert(m.text() == t@);
    Ok(t)
}

/// The package names of a namespace in a document given as text, in table
/// order; none where the namespace or its dependencies table is missing.
pub fn list_packages(doc_text: &str, namespace: &str) -> (r: Result<Vec<String>, EditError>)
    ensures
        match namespace_of(namespace@) {
            Err(e) => r == Err::<Vec<String>, EditError>(e),
            Ok(ns) => match parsed(doc_text@) {
                None => r == Err::<Vec<String>, EditError>(EditError::ParseError),
                Some(root) => if deps_blocked(root, ns.spec_name()) {
                    r == Err::<Vec<String>, EditError>(EditError::NamespaceNotFound)
                } else {
                    r matches Ok(names) && names@.map_values(|k: String| k@) == packages_spec(
                        root,
                        ns.spec_name(),
                    )
                },
            },
        },
{
    let ns = Namespace::from_name(namespace)?;
    let mut m = Manifest::parse(doc_text)?;
    m.list_packages(ns)
}

} // verus!
