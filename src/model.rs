//! The editor's rules, stated over a model of the document tree, and the
//! laws that they obey.
use vstd::prelude::*;

verus! {

/// What a node of a TOML document holds, as the editor sees it.
///
/// A table and an inline table keep their entries as a map together with the
/// order of their keys; both orders include entries that are kept in place
/// but neither found nor listed.
pub enum Node {
    /// A placeholder item that holds nothing; a table keeps its key in place
    /// but neither finds nor lists it.
    Empty,
    /// A string value.
    Str(Seq<char>),
    /// An inline table value (`{ a = "x", b = "y" }`), with its entries and
    /// the order of its keys.
    Inline(Map<Seq<char>, Node>, Seq<Seq<char>>),
    /// A table, with its entries and the order of its keys.
    Table(Map<Seq<char>, Node>, Seq<Seq<char>>),
    /// A value of another kind: an integer, a float, a boolean, a date or an array.
    Other(ValueKind),
    /// An array of tables.
    ArrayOfTables,
}

/// Errors that the editor reports.
#[derive(Debug, Clone, Copy, PartialEq, Eq, Structural)]
pub enum EditError {
    /// The document text is not valid TOML.
    ParseError,
    /// The namespace tag is not one of the recognised names.
    InvalidNamespace,
    /// The namespace table, or its `dependencies` table, is missing.
    NamespaceNotFound,
    /// The package is not a key of the dependencies table.
    PackageNotFound,
    /// The attribute is not present on the entry, or the entry cannot hold it.
    AttributeNotFound,
}

/// The variants of a document item.
#[derive(Debug, Clone, Copy, PartialEq, Eq, Structural)]
pub enum ItemKind {
    /// The placeholder item that holds nothing.
    Empty,
    Value,
    Table,
    ArrayOfTables,
}

/// The variants of a document value.
#[derive(Debug, Clone, Copy, PartialEq, Eq, Structural)]
pub enum ValueKind {
    String,
    Integer,
    Float,
    Boolean,
    Datetime,
    Array,
    InlineTable,
}

/// The key of the dependencies table inside a namespace table.
pub open spec fn deps_key() -> Seq<char> {
    "dependencies"@
}

/// The one attribute that a bare string entry stands for.
pub open spec fn version_key() -> Seq<char> {
    "version"@
}

pub open spec fn empty_table() -> Node {
    Node::Table(Map::empty(), Seq::empty())
}

pub open spec fn empty_inline() -> Node {
    Node::Inline(Map::empty(), Seq::empty())
}

/// Whether a node is a value (what an inline table can find and list).
pub open spec fn is_value(n: Node) -> bool {
    n is Str || n is Inline || n is Other
}

/// Whether a table, or an inline table, finds and lists something under `key`:
/// a table anything but a placeholder, an inline table a value.
pub open spec fn shows(t: Node, key: Seq<char>) -> bool {
    match t {
        Node::Table(m, _) => holds(m, key),
        Node::Inline(m, _) => m.contains_key(key) && is_value(m[key]),
        _ => false,
    }
}

/// Whether a table's entries hold something other than a placeholder under `key`.
pub open spec fn holds(m: Map<Seq<char>, Node>, key: Seq<char>) -> bool {
    m.contains_key(key) && !(m[key] is Empty)
}

/// The keys that a table, or an inline table, lists, in its order.
pub open spec fn listed(t: Node) -> Seq<Seq<char>> {
    match t {
        Node::Table(_, o) => o.filter(|k: Seq<char>| shows(t, k)),
        Node::Inline(_, o) => o.filter(|k: Seq<char>| shows(t, k)),
        _ => Seq::empty(),
    }
}

/// The entry of table `t` under `key`, if `t` is a table that holds the key.
pub open spec fn entry_of(t: Node, key: Seq<char>) -> Option<Node> {
    match t {
        Node::Table(m, _) => if holds(m, key) {
            Some(m[key])
        } else {
            None
        },
        _ => None,
    }
}

/// The table stored under `key` in `t`, if there is one.
pub open spec fn sub_table(t: Node, key: Seq<char>) -> Option<Node> {
    match entry_of(t, key) {
        Some(Node::Table(m, o)) => Some(Node::Table(m, o)),
        _ => None,
    }
}

/// The table stored under `key` in `t`, or a fresh empty table where there is none.
pub open spec fn child_table(t: Node, key: Seq<char>) -> Node {
    match sub_table(t, key) {
        Some(c) => c,
        None => empty_table(),
    }
}

/// The key order after storing under `key`: a key already there (a
/// placeholder included) keeps its place, a new key comes last.
pub open spec fn order_with(m: Map<Seq<char>, Node>, o: Seq<Seq<char>>, key: Seq<char>) -> Seq<
    Seq<char>,
> {
    if m.contains_key(key) {
        o
    } else {
        o.push(key)
    }
}

/// Table or inline table `t` with `child` stored under `key`.
pub open spec fn put(t: Node, key: Seq<char>, child: Node) -> Node {
    match t {
        Node::Table(m, o) => Node::Table(m.insert(key, child), order_with(m, o, key)),
        Node::Inline(m, o) => Node::Inline(m.insert(key, child), order_with(m, o, key)),
        _ => t,
    }
}

/// Table or inline table `t` without `key`; the other keys keep their order.
pub open spec fn drop_key(t: Node, key: Seq<char>) -> Node {
    match t {
        Node::Table(m, o) => Node::Table(m.remove(key), o.filter(|k: Seq<char>| k != key)),
        Node::Inline(m, o) => Node::Inline(m.remove(key), o.filter(|k: Seq<char>| k != key)),
        _ => t,
    }
}

/// The dependencies table of namespace `ns` in the document root `root`.
pub open spec fn deps_table(root: Node, ns: Seq<char>) -> Option<Node> {
    match sub_table(root, ns) {
        Some(n) => sub_table(n, deps_key()),
        None => None,
    }
}

/// The document with the dependencies table of `ns` replaced by `d`; the
/// namespace table and the dependencies table are created where missing.
pub open spec fn with_deps(root: Node, ns: Seq<char>, d: Node) -> Node {
    let n = child_table(root, ns);
    put(root, ns, put(n, deps_key(), d))
}

/// Whether the namespace key, or the `dependencies` key of the namespace
/// table, holds something other than a table. Writes leave such a document
/// alone rather than replace what the key holds.
pub open spec fn deps_blocked(root: Node, ns: Seq<char>) -> bool {
    match sub_table(root, ns) {
        Some(n) => entry_of(n, deps_key()) is Some && sub_table(n, deps_key()) is None,
        None => entry_of(root, ns) is Some,
    }
}

/// The dependencies table of `ns`, or an empty one where it is missing.
pub open spec fn deps_or_empty(root: Node, ns: Seq<char>) -> Node {
    child_table(child_table(root, ns), deps_key())
}

/// The document after the namespace table and its dependencies table have
/// been created where missing.
pub open spec fn ensure_deps(root: Node, ns: Seq<char>) -> Node {
    with_deps(root, ns, deps_or_empty(root, ns))
}

/// A fresh entry that holds one attribute: a bare string for the version,
/// a one-key record for any other attribute.
pub open spec fn fresh_entry(attr: Seq<char>, value: Seq<char>) -> Node {
    if attr == version_key() {
        Node::Str(value)
    } else {
        put(empty_inline(), attr, Node::Str(value))
    }
}

/// The record that a bare version `cur` becomes when `attr` is set to
/// `value`: `version` first, then the attribute.
pub open spec fn promoted(cur: Seq<char>, attr: Seq<char>, value: Seq<char>) -> Node {
    put(put(empty_inline(), version_key(), Node::Str(cur)), attr, Node::Str(value))
}

/// Whether an entry is in record form: an inline table, or a table of its own.
pub open spec fn is_record(e: Node) -> bool {
    e is Inline || e is Table
}

/// The entry after `attr` has been set to `value`.
pub open spec fn set_entry(e: Option<Node>, attr: Seq<char>, value: Seq<char>) -> Node {
    match e {
        Some(Node::Str(cur)) => if attr == version_key() {
            Node::Str(value)
        } else {
            promoted(cur, attr, value)
        },
        Some(Node::Inline(m, o)) => put(Node::Inline(m, o), attr, Node::Str(value)),
        Some(Node::Table(m, o)) => put(Node::Table(m, o), attr, Node::Str(value)),
        _ => fresh_entry(attr, value),
    }
}

/// The document after setting `attr` of package `pkg` in namespace `ns` to `value`.
pub open spec fn set_spec(
    root: Node,
    ns: Seq<char>,
    pkg: Seq<char>,
    attr: Seq<char>,
    value: Seq<char>,
) -> Node {
    let d = deps_or_empty(root, ns);
    with_deps(root, ns, put(d, pkg, set_entry(entry_of(d, pkg), attr, value)))
}

/// The value of attribute `attr` of entry `e`.
pub open spec fn attribute_of(e: Node, attr: Seq<char>) -> Result<Seq<char>, EditError> {
    match e {
        Node::Str(v) => if attr == version_key() {
            Ok(v)
        } else {
            Err(EditError::AttributeNotFound)
        },
        Node::Inline(m, _) => if m.contains_key(attr) && m[attr] is Str {
            Ok(m[attr]->Str_0)
        } else {
            Err(EditError::AttributeNotFound)
        },
        Node::Table(m, _) => if m.contains_key(attr) && m[attr] is Str {
            Ok(m[attr]->Str_0)
        } else {
            Err(EditError::AttributeNotFound)
        },
        _ => Err(EditError::AttributeNotFound),
    }
}

/// The entry of package `pkg` in namespace `ns`, or why there is none.
pub open spec fn lookup_spec(root: Node, ns: Seq<char>, pkg: Seq<char>) -> Result<Node, EditError> {
    match deps_table(root, ns) {
        None => Err(EditError::NamespaceNotFound),
        Some(d) => match entry_of(d, pkg) {
            None => Err(EditError::PackageNotFound),
            Some(e) => Ok(e),
        },
    }
}

/// What reading attribute `attr` of package `pkg` in namespace `ns` gives.
pub open spec fn get_spec(
    root: Node,
    ns: Seq<char>,
    pkg: Seq<char>,
    attr: Seq<char>,
) -> Result<Seq<char>, EditError> {
    match lookup_spec(root, ns, pkg) {
        Err(e) => Err(e),
        Ok(e) => attribute_of(e, attr),
    }
}

/// What removing attribute `attr` of package `pkg` in namespace `ns` gives:
/// the new document, or the error.
pub open spec fn remove_attribute_spec(
    root: Node,
    ns: Seq<char>,
    pkg: Seq<char>,
    attr: Seq<char>,
) -> Result<Node, EditError> {
    match lookup_spec(root, ns, pkg) {
        Err(e) => Err(e),
        Ok(e) => if is_record(e) && shows(e, attr) {
            let d = deps_or_empty(root, ns);
            Ok(with_deps(root, ns, put(d, pkg, drop_key(e, attr))))
        } else {
            Err(EditError::AttributeNotFound)
        },
    }
}

/// What removing package `pkg` from namespace `ns` gives: the new document,
/// or the error.
pub open spec fn remove_package_spec(root: Node, ns: Seq<char>, pkg: Seq<char>) -> Result<
    Node,
    EditError,
> {
    match lookup_spec(root, ns, pkg) {
        Err(e) => Err(e),
        Ok(_) => Ok(with_deps(root, ns, drop_key(deps_or_empty(root, ns), pkg))),
    }
}

/// The package names of namespace `ns`, in table order; none where the table is missing.
pub open spec fn packages_spec(root: Node, ns: Seq<char>) -> Seq<Seq<char>> {
    listed(deps_or_empty(root, ns))
}

/// Storing twice under one key keeps the second.
pub proof fn lemma_put_again(t: Node, key: Seq<char>, a: Node, b: Node)
    requires
        t is Table || t is Inline,
    ensures
        put(put(t, key, a), key, b) == put(t, key, b),
{
    match t {
        Node::Table(m, o) => {
            assert(m.insert(key, a).insert(key, b) =~= m.insert(key, b));
        },
        Node::Inline(m, o) => {
            assert(m.insert(key, a).insert(key, b) =~= m.insert(key, b));
        },
        _ => {},
    }
}

/// Reading a table back from where it was stored gives it back.
pub proof fn lemma_sub_table_put(t: Node, key: Seq<char>, c: Node)
    requires
        t is Table,
        c is Table,
    ensures
        sub_table(put(t, key, c), key) == Some(c),
        child_table(put(t, key, c), key) == c,
{
}

/// Replacing the dependencies table of a namespace stores it where a read finds it.
pub proof fn lemma_with_deps(root: Node, ns: Seq<char>, d: Node)
    requires
        root is Table,
        d is Table,
    ensures
        with_deps(root, ns, d) is Table,
        deps_table(with_deps(root, ns, d), ns) == Some(d),
{
    let n = child_table(root, ns);
    lemma_sub_table_put(n, deps_key(), d);
    lemma_sub_table_put(root, ns, put(n, deps_key(), d));
}

/// After setting an attribute, the dependencies table of the namespace is
/// the old one (or an empty one) with the package's entry set.
pub proof fn lemma_set_deps(root: Node, ns: Seq<char>, pkg: Seq<char>, attr: Seq<char>, value: Seq<char>)
    requires
        root is Table,
    ensures
        set_spec(root, ns, pkg, attr, value) is Table,
        deps_table(set_spec(root, ns, pkg, attr, value), ns) == Some(
            put(
                deps_or_empty(root, ns),
                pkg,
                set_entry(entry_of(deps_or_empty(root, ns), pkg), attr, value),
            ),
        ),
{
    let d = deps_or_empty(root, ns);
    lemma_with_deps(root, ns, put(d, pkg, set_entry(entry_of(d, pkg), attr, value)));
}

/// Setting the version of a package and then reading it gives the value set,
/// whatever the document held before.
pub proof fn lemma_set_version_then_get(root: Node, ns: Seq<char>, pkg: Seq<char>, v: Seq<char>)
    requires
        root is Table,
    ensures
        get_spec(set_spec(root, ns, pkg, version_key(), v), ns, pkg, version_key()) == Ok::<
            Seq<char>,
            EditError,
        >(v),
{
    lemma_set_deps(root, ns, pkg, version_key(), v);
}

/// Setting an attribute that a bare version does not hold turns the entry
/// into a record once, keeping the version; setting the attribute again only
/// changes that key of the record, and ends where a single set of the second
/// value ends.
pub proof fn lemma_promote_once(
    root: Node,
    ns: Seq<char>,
    pkg: Seq<char>,
    attr: Seq<char>,
    cur: Seq<char>,
    v1: Seq<char>,
    v2: Seq<char>,
)
    requires
        root is Table,
        lookup_spec(root, ns, pkg) == Ok::<Node, EditError>(Node::Str(cur)),
        attr != version_key(),
    ensures
        ({
            let once = set_spec(root, ns, pkg, attr, v1);
            let twice = set_spec(once, ns, pkg, attr, v2);
            &&& lookup_spec(once, ns, pkg) == Ok::<Node, EditError>(promoted(cur, attr, v1))
            &&& lookup_spec(twice, ns, pkg) == Ok::<Node, EditError>(promoted(cur, attr, v2))
            &&& twice == set_spec(root, ns, pkg, attr, v2)
        }),
{
    lemma_set_twice(root, ns, pkg, attr, v1, v2);
    lemma_set_deps(root, ns, pkg, attr, v1);
    let once = set_spec(root, ns, pkg, attr, v1);
    lemma_set_deps(once, ns, pkg, attr, v2);
    lemma_put_again(put(empty_inline(), version_key(), Node::Str(cur)), attr, Node::Str(v1), Node::Str(v2));
}

/// A promoted record lists `version` first, then the attribute, and holds
/// the old version and the new value.
pub proof fn lemma_promoted_order(cur: Seq<char>, attr: Seq<char>, value: Seq<char>)
    requires
        attr != version_key(),
    ensures
        listed(promoted(cur, attr, value)) == seq![version_key(), attr],
        attribute_of(promoted(cur, attr, value), version_key()) == Ok::<Seq<char>, EditError>(cur),
        attribute_of(promoted(cur, attr, value), attr) == Ok::<Seq<char>, EditError>(value),
{
    let p = promoted(cur, attr, value);
    let o = seq![version_key(), attr];
    assert(p->Inline_1 =~= o);
    reveal_with_fuel(Seq::filter, 3);
    assert(o.drop_last() =~= seq![version_key()]);
    assert(seq![version_key()].drop_last() =~= Seq::<Seq<char>>::empty());
    assert(o.filter(|k: Seq<char>| shows(p, k)) =~= o);
}

/// Setting one attribute twice ends where setting it once to the second value ends.
pub proof fn lemma_set_twice(
    root: Node,
    ns: Seq<char>,
    pkg: Seq<char>,
    attr: Seq<char>,
    v1: Seq<char>,
    v2: Seq<char>,
)
    requires
        root is Table,
    ensures
        set_spec(set_spec(root, ns, pkg, attr, v1), ns, pkg, attr, v2) == set_spec(
            root,
            ns,
            pkg,
            attr,
            v2,
        ),
{
    let n = child_table(root, ns);
    let d = deps_or_empty(root, ns);
    let e1 = set_entry(entry_of(d, pkg), attr, v1);
    let d1 = put(d, pkg, e1);
    let n1 = put(n, deps_key(), d1);
    let once = put(root, ns, n1);
    lemma_sub_table_put(n, deps_key(), d1);
    lemma_sub_table_put(root, ns, n1);
    assert(child_table(once, ns) == n1);
    assert(deps_or_empty(once, ns) == d1);
    let e2 = set_entry(Some(e1), attr, v2);
    let direct = set_entry(entry_of(d, pkg), attr, v2);
    assert(e2 == direct) by {
        match entry_of(d, pkg) {
            Some(Node::Str(cur)) => {
                lemma_put_again(
                    put(empty_inline(), version_key(), Node::Str(cur)),
                    attr,
                    Node::Str(v1),
                    Node::Str(v2),
                );
            },
            Some(Node::Inline(m, o)) => {
                lemma_put_again(Node::Inline(m, o), attr, Node::Str(v1), Node::Str(v2));
            },
            Some(Node::Table(m, o)) => {
                lemma_put_again(Node::Table(m, o), attr, Node::Str(v1), Node::Str(v2));
            },
            _ => {
                lemma_put_again(empty_inline(), attr, Node::Str(v1), Node::Str(v2));
            },
        }
    }
    lemma_put_again(d, pkg, e1, e2);
    lemma_put_again(n, deps_key(), d1, put(d, pkg, e2));
    lemma_put_again(root, ns, n1, put(n, deps_key(), put(d, pkg, e2)));
}

/// No edit of a single entry deletes a dependencies table: after a set, and
/// after a successful removal of an attribute or a package, the namespace has
/// its dependencies table.
pub proof fn lemma_deps_table_kept(
    root: Node,
    ns: Seq<char>,
    pkg: Seq<char>,
    attr: Seq<char>,
    value: Seq<char>,
)
    requires
        root is Table,
    ensures
        deps_table(set_spec(root, ns, pkg, attr, value), ns) is Some,
        remove_attribute_spec(root, ns, pkg, attr) matches Ok(n) ==> deps_table(n, ns) is Some,
        remove_package_spec(root, ns, pkg) matches Ok(n) ==> deps_table(n, ns) is Some,
{
    let d = deps_or_empty(root, ns);
    lemma_set_deps(root, ns, pkg, attr, value);
    if let Ok(e) = lookup_spec(root, ns, pkg) {
        lemma_with_deps(root, ns, put(d, pkg, drop_key(e, attr)));
    }
    lemma_with_deps(root, ns, drop_key(d, pkg));
}

/// An entry in record form stays a record of the same kind: setting any
/// attribute, or removing one, never turns it back into a bare version string.
pub proof fn lemma_record_stays_record(
    root: Node,
    ns: Seq<char>,
    pkg: Seq<char>,
    attr: Seq<char>,
    value: Seq<char>,
)
    requires
        root is Table,
        lookup_spec(root, ns, pkg) matches Ok(e) && is_record(e),
    ensures
        lookup_spec(set_spec(root, ns, pkg, attr, value), ns, pkg) matches Ok(e) && is_record(e),
        remove_attribute_spec(root, ns, pkg, attr) matches Ok(n) ==> (lookup_spec(n, ns, pkg) matches Ok(
            e,
        ) && is_record(e)),
{
    let d = deps_or_empty(root, ns);
    lemma_set_deps(root, ns, pkg, attr, value);
    if let Ok(e) = lookup_spec(root, ns, pkg) {
        lemma_with_deps(root, ns, put(d, pkg, drop_key(e, attr)));
    }
}

} // verus!
