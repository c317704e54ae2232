//! The calls into `toml_edit` that the editor makes, each with the contract
//! that the crate's source gives it, stated over the views below.
use crate::model::{drop_key, holds, is_value, listed, put, shows, ItemKind, Node, ValueKind};
use std::str::FromStr;
use toml_edit::{Document, InlineTable, Item, Table, TomlError, Value};
use vstd::prelude::*;

verus! {

#[verifier::external_type_specification]
#[verifier::external_body]
pub struct ExDocument(Document);

#[verifier::external_type_specification]
#[verifier::external_body]
pub struct ExTable(Table);

#[verifier::external_type_specification]
#[verifier::external_body]
pub struct ExInlineTable(InlineTable);

#[verifier::external_type_specification]
#[verifier::external_body]
pub struct ExItem(Item);

#[verifier::external_type_specification]
#[verifier::external_body]
pub struct ExValue(Value);

#[verifier::external_type_specification]
#[verifier::external_body]
pub struct ExTomlError(TomlError);

/// What the root item of a document holds.
pub uninterp spec fn doc_view(d: Document) -> Node;

/// The entries of a table, placeholders included.
pub uninterp spec fn table_view(t: Table) -> Map<Seq<char>, Node>;

/// The keys of the entries of a table, placeholders included, in the table's order.
pub uninterp spec fn key_order(t: Table) -> Seq<Seq<char>>;

/// The entries of an inline table, each the view of its item; entries that
/// are not values (placeholders) included.
pub uninterp spec fn inline_view(t: InlineTable) -> Map<Seq<char>, Node>;

/// The keys of the entries of an inline table, placeholders included, in its order.
pub uninterp spec fn inline_key_order(t: InlineTable) -> Seq<Seq<char>>;

/// What an item holds.
pub uninterp spec fn item_view(i: Item) -> Node;

/// What a value holds.
pub uninterp spec fn value_view(v: Value) -> Node;

/// The root of the document parsed from a text, if the text is valid TOML.
pub uninterp spec fn parsed(s: Seq<char>) -> Option<Node>;

/// The text that a document prints as.
pub uninterp spec fn rendered(d: Document) -> Seq<char>;

/// The text that a parse error prints as.
pub uninterp spec fn error_text(e: TomlError) -> Seq<char>;

/// The text of the error met when parsing a text that is not valid TOML.
pub uninterp spec fn parse_error_text(s: Seq<char>) -> Seq<char>;

/// A table as a node.
pub open spec fn table_node(t: Table) -> Node {
    Node::Table(table_view(t), key_order(t))
}

/// An inline table as a node.
pub open spec fn inline_node(t: InlineTable) -> Node {
    Node::Inline(inline_view(t), inline_key_order(t))
}

/// Relies on `Document::from_str`: it parses the text, and the document it
/// builds has a table at its root.
#[verifier::external_body]
pub(crate) fn parse_document(s: &str) -> (r: Result<Document, TomlError>)
    ensures
        r is Ok <==> parsed(s@) is Some,
        r matches Ok(d) ==> doc_view(d) == parsed(s@)->0 && doc_view(d) is Table,
        r matches Err(e) ==> error_text(e) == parse_error_text(s@),
{
    Document::from_str(s)
}

/// Relies on `Display for Document`, which prints the root table (it panics
/// where the root is not a table).
#[verifier::external_body]
pub(crate) fn render_document(d: &Document) -> (r: String)
    requires
        doc_view(*d) is Table,
    ensures
        r@ == rendered(*d),
{
    d.to_string()
}

/// Relies on `Document::as_table`: the root table (it panics where the root
/// is not a table).
#[verifier::external_body]
pub(crate) fn root_table(d: &Document) -> (r: &Table)
    requires
        doc_view(*d) is Table,
    ensures
        doc_view(*d) == table_node(*r),
{
    d.as_table()
}

/// Relies on `Document::as_table_mut`: the root table, borrowed for change
/// (it panics where the root is not a table).
#[verifier::external_body]
pub(crate) fn root_table_mut(d: &mut Document) -> (r: &mut Table)
    requires
        doc_view(*old(d)) is Table,
    ensures
        doc_view(*old(d)) == table_node(*r),
        doc_view(*final(d)) == table_node(*final(r)),
{
    d.as_table_mut()
}

/// Relies on `Table::get`: the item under a key, where it is not a placeholder.
#[verifier::external_body]
pub(crate) fn table_get<'a>(t: &'a Table, key: &str) -> (r: Option<&'a Item>)
    ensures
        r is Some <==> holds(table_view(*t), key@),
        r matches Some(i) ==> item_view(*i) == table_view(*t)[key@],
{
    t.get(key)
}

/// Relies on `Table::get_mut`: the item under a key, where it is not a
/// placeholder, borrowed for change in its place.
#[verifier::external_body]
pub(crate) fn table_get_mut<'a>(t: &'a mut Table, key: &str) -> (r: Option<&'a mut Item>)
    ensures
        r is Some <==> holds(table_view(*old(t)), key@),
        r matches Some(i) ==> item_view(*i) == table_view(*old(t))[key@] && table_node(*final(t))
            == put(table_node(*old(t)), key@, item_view(*final(i))),
        r is None ==> *final(t) == *old(t),
{
    t.get_mut(key)
}

/// Relies on `Table::insert`: the item goes under the key, in the key's place
/// where the key was there, last otherwise.
#[verifier::external_body]
pub(crate) fn table_insert(t: &mut Table, key: &str, item: Item)
    ensures
        table_node(*final(t)) == put(table_node(*old(t)), key@, item_view(item)),
{
    t.insert(key, item);
}

/// Relies on `Table::remove`: the key leaves the table, the others keep their order.
#[verifier::external_body]
pub(crate) fn table_remove(t: &mut Table, key: &str)
    ensures
        table_node(*final(t)) == drop_key(table_node(*old(t)), key@),
{
    t.remove(key);
}

/// Relies on `Table::iter`: the keys of the entries that are not placeholders, in order.
#[verifier::external_body]
pub(crate) fn table_keys(t: &Table) -> (r: Vec<String>)
    ensures
        r@.map_values(|k: String| k@) == listed(table_node(*t)),
{
    t.iter().map(|(k, _)| k.to_owned()).collect()
}

/// Relies on `Table::new`: an empty table.
#[verifier::external_body]
pub(crate) fn new_table() -> (r: Table)
    ensures
        table_view(r).dom().is_empty(),
        key_order(r).len() == 0,
{
    Table::new()
}

/// Relies on `Item::as_table`: the table that the item is, if it is one.
#[verifier::external_body]
pub(crate) fn item_as_table(i: &Item) -> (r: Option<&Table>)
    ensures
        r is Some <==> item_view(*i) is Table,
        r matches Some(t) ==> item_view(*i) == table_node(*t),
{
    i.as_table()
}

/// Relies on `Item::as_table_mut`: the table that the item is, borrowed for change.
#[verifier::external_body]
pub(crate) fn item_as_table_mut(i: &mut Item) -> (r: Option<&mut Table>)
    ensures
        r is Some <==> item_view(*old(i)) is Table,
        r matches Some(t) ==> item_view(*old(i)) == table_node(*t) && item_view(*final(i))
            == table_node(*final(t)),
        r is None ==> *final(i) == *old(i),
{
    i.as_table_mut()
}

/// Relies on `Item::as_str`: the text of the item, if it is a string value.
#[verifier::external_body]
pub(crate) fn item_as_str(i: &Item) -> (r: Option<&str>)
    ensures
        r is Some <==> item_view(*i) is Str,
        r matches Some(s) ==> item_view(*i) == Node::Str(s@),
{
    i.as_str()
}

/// Relies on `Item::as_inline_table`: the inline table that the item is, if it is one.
#[verifier::external_body]
pub(crate) fn item_as_inline_table(i: &Item) -> (r: Option<&InlineTable>)
    ensures
        r is Some <==> item_view(*i) is Inline,
        r matches Some(t) ==> item_view(*i) == inline_node(*t),
{
    i.as_inline_table()
}

/// Relies on `Item::as_inline_table_mut`: the inline table that the item is,
/// borrowed for change.
#[verifier::external_body]
pub(crate) fn item_as_inline_table_mut(i: &mut Item) -> (r: Option<&mut InlineTable>)
    ensures
        r is Some <==> item_view(*old(i)) is Inline,
        r matches Some(t) ==> item_view(*old(i)) == inline_node(*t) && item_view(*final(i))
            == inline_node(*final(t)),
        r is None ==> *final(i) == *old(i),
{
    i.as_inline_table_mut()
}

/// Relies on `Item::Value`: a value as an item.
#[verifier::external_body]
pub(crate) fn value_item(v: Value) -> (r: Item)
    ensures
        item_view(r) == value_view(v),
{
    Item::Value(v)
}

/// Relies on `Item::Table`: a table as an item.
#[verifier::external_body]
pub(crate) fn table_item(t: Table) -> (r: Item)
    ensures
        item_view(r) == table_node(t),
{
    Item::Table(t)
}

/// Relies on `InlineTable::new`: an empty inline table.
#[verifier::external_body]
pub(crate) fn new_inline_table() -> (r: InlineTable)
    ensures
        inline_view(r).dom().is_empty(),
        inline_key_order(r).len() == 0,
{
    InlineTable::new()
}

/// Relies on `InlineTable::get`: the value under a key, where the entry is a value.
#[verifier::external_body]
pub(crate) fn inline_get<'a>(t: &'a InlineTable, key: &str) -> (r: Option<&'a Value>)
    ensures
        r is Some <==> shows(inline_node(*t), key@),
        r matches Some(v) ==> value_view(*v) == inline_view(*t)[key@],
{
    t.get(key)
}

/// Relies on `InlineTable::insert` (an `IndexMap::insert`): the value goes
/// under the key, in the key's place where the key was there, last otherwise.
#[verifier::external_body]
pub(crate) fn inline_insert(t: &mut InlineTable, key: &str, v: Value)
    ensures
        inline_node(*final(t)) == put(inline_node(*old(t)), key@, value_view(v)),
{
    t.insert(key, v);
}

/// Relies on `InlineTable::remove` (an `IndexMap::shift_remove`): the key
/// leaves the inline table, the others keep their order.
#[verifier::external_body]
pub(crate) fn inline_remove(t: &mut InlineTable, key: &str)
    ensures
        inline_node(*final(t)) == drop_key(inline_node(*old(t)), key@),
{
    t.remove(key);
}

/// Relies on `Value::InlineTable`: an inline table as a value.
#[verifier::external_body]
pub(crate) fn inline_value(t: InlineTable) -> (r: Value)
    ensures
        value_view(r) == inline_node(t),
{
    Value::InlineTable(t)
}

/// Relies on `From<&str> for Value`: a string value with the given text.
#[verifier::external_body]
pub(crate) fn string_value(s: &str) -> (r: Value)
    ensures
        value_view(r) == Node::Str(s@),
{
    Value::from(s)
}

/// Relies on `Value::as_str`: the text of the value, if it is a string.
#[verifier::external_body]
pub(crate) fn value_as_str(v: &Value) -> (r: Option<&str>)
    ensures
        r is Some <==> value_view(*v) is Str,
        r matches Some(s) ==> value_view(*v) == Node::Str(s@),
{
    v.as_str()
}

/// Relies on `Value::as_inline_table`: the inline table that the value is, if it is one.
#[verifier::external_body]
pub(crate) fn value_as_inline_table(v: &Value) -> (r: Option<&InlineTable>)
    ensures
        r is Some <==> value_view(*v) is Inline,
        r matches Some(t) ==> value_view(*v) == inline_node(*t),
{
    v.as_inline_table()
}

/// Relies on `Item::as_value`: the value that the item is, if it is one.
#[verifier::external_body]
pub(crate) fn item_as_value(i: &Item) -> (r: Option<&Value>)
    ensures
        r is Some <==> is_value(item_view(*i)),
        r matches Some(v) ==> value_view(*v) == item_view(*i),
{
    i.as_value()
}

/// Relies on the derived `Clone for Value`: a copy of the value.
#[verifier::external_body]
pub(crate) fn copy_value(v: &Value) -> (r: Value)
    ensures
        value_view(r) == value_view(*v),
{
    v.clone()
}

/// Relies on `InlineTable::iter`: the keys of the entries that are values, in order.
#[verifier::external_body]
pub(crate) fn inline_keys(t: &InlineTable) -> (r: Vec<String>)
    ensures
        r@.map_values(|k: String| k@) == listed(inline_node(*t)),
{
    t.iter().map(|(k, _)| k.to_owned()).collect()
}

/// Relies on the variants of `Item`: which one the item is.
#[verifier::external_body]
pub(crate) fn item_kind(i: &Item) -> (r: ItemKind)
    ensures
        (r == ItemKind::Empty) == (item_view(*i) is Empty),
        (r == ItemKind::Value) == is_value(item_view(*i)),
        (r == ItemKind::Table) == (item_view(*i) is Table),
        (r == ItemKind::ArrayOfTables) == (item_view(*i) is ArrayOfTables),
{
    match i {
        Item::None => ItemKind::Empty,
        Item::Value(_) => ItemKind::Value,
        Item::Table(_) => ItemKind::Table,
        Item::ArrayOfTables(_) => ItemKind::ArrayOfTables,
    }
}

/// Relies on the variants of `Value`: which one the value is.
#[verifier::external_body]
pub(crate) fn value_kind(v: &Value) -> (r: ValueKind)
    ensures
        (r == ValueKind::String) == (value_view(*v) is Str),
        (r == ValueKind::InlineTable) == (value_view(*v) is Inline),
        r != ValueKind::String && r != ValueKind::InlineTable ==> value_view(*v) == Node::Other(r),
{
    match v {
        Value::String(_) => ValueKind::String,
        Value::Integer(_) => ValueKind::Integer,
        Value::Float(_) => ValueKind::Float,
        Value::Boolean(_) => ValueKind::Boolean,
        Value::Datetime(_) => ValueKind::Datetime,
        Value::Array(_) => ValueKind::Array,
        Value::InlineTable(_) => ValueKind::InlineTable,
    }
}

/// Relies on `Display for TomlError`, which always ends with the parser's
/// message and a line break.
#[verifier::external_body]
pub(crate) fn error_message(e: &TomlError) -> (r: String)
    ensures
        r@ == error_text(*e),
        r@.len() > 0,
{
    e.to_string()
}

} // verus!
