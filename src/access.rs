//! General accessors over the document tree: key listings, lookups,
//! removals and the names of item and value variants.
use crate::model::{drop_key, holds, is_value, listed, put, shows, ItemKind, Node, ValueKind};
use crate::tree::{
    copy_value, inline_get, inline_insert, inline_keys, inline_node, inline_remove, inline_view,
    item_as_table, item_as_value, item_kind, item_view, table_get, table_keys, table_node,
    table_remove, table_view, value_as_inline_table, value_as_str, value_kind, value_view,
};
use toml_edit::{InlineTable, Item, Table, Value};
use vstd::prelude::*;
use vstd::string::StringExecFns;

verus! {

/// Each key followed by a line break, in order.
pub open spec fn key_lines_spec(keys: Seq<Seq<char>>) -> Seq<char>
    decreases keys.len(),
{
    if keys.len() == 0 {
        Seq::empty()
    } else {
        key_lines_spec(keys.drop_last()) + keys.last() + seq!['\n']
    }
}

/// Lists keys one per line: each key followed by a line break.
pub fn key_lines(keys: &Vec<String>) -> (r: String)
    ensures
        r@ == key_lines_spec(keys@.map_values(|k: String| k@)),
{
    let ghost views = keys@.map_values(|k: String| k@);
    let mut out = String::new();
    let mut i: usize = 0;
    while i < keys.len()
        invariant
            i <= keys.len(),
            views == keys@.map_values(|k: String| k@),
            out@ == key_lines_spec(views.take(i as int)),
        decreases keys.len() - i,
    {
        proof {
            assert(views.take(i as int + 1).drop_last() =~= views.take(i as int));
        }
        out.append(keys[i].as_str());
        out.append("\n");
        proof {
            reveal_strlit("\n");
            assert(views.take(i as int + 1).last() == keys@[i as int]@);
        }
        i = i + 1;
    }
    proof {
        assert(views.take(keys.len() as int) =~= views);
    }
    out
}

/// The keys of a table, one per line, in the table's order.
pub fn table_key_lines(t: &Table) -> (r: String)
    ensures
        r@ == key_lines_spec(listed(table_node(*t))),
{
    key_lines(&table_keys(t))
}

/// The keys of an inline table, one per line, in its order.
pub fn inline_key_lines(t: &InlineTable) -> (r: String)
    ensures
        r@ == key_lines_spec(listed(inline_node(*t))),
{
    key_lines(&inline_keys(t))
}

/// Whether a table holds an item under `key`.
pub fn table_contains(t: &Table, key: &str) -> (r: bool)
    ensures
        r == holds(table_view(*t), key@),
{
    table_get(t, key).is_some()
}

/// The item of a table under `key`.
pub fn table_entry<'a>(t: &'a Table, key: &str) -> (r: Option<&'a Item>)
    ensures
        r is Some <==> holds(table_view(*t), key@),
        r matches Some(i) ==> item_view(*i) == table_view(*t)[key@],
{
    table_get(t, key)
}

/// Removes `key` from a table if it holds an item there; says whether it did.
pub fn remove_key(t: &mut Table, key: &str) -> (r: bool)
    ensures
        r == holds(table_view(*old(t)), key@),
        r ==> table_node(*final(t)) == drop_key(table_node(*old(t)), key@),
        !r ==> *final(t) == *old(t),
{
    if table_get(t, key).is_some() {
        table_remove(t, key);
        true
    } else {
        false
    }
}

/// Whether an inline table holds a value under `key`.
pub fn inline_contains(t: &InlineTable, key: &str) -> (r: bool)
    ensures
        r == shows(inline_node(*t), key@),
{
    inline_get(t, key).is_some()
}

/// Removes `key` from an inline table if it holds a value there; says whether it did.
pub fn remove_inline_key(t: &mut InlineTable, key: &str) -> (r: bool)
    ensures
        r == shows(inline_node(*old(t)), key@),
        r ==> inline_node(*final(t)) == drop_key(inline_node(*old(t)), key@),
        !r ==> *final(t) == *old(t),
{
    if inline_get(t, key).is_some() {
        inline_remove(t, key);
        true
    } else {
        false
    }
}

/// The value of an inline table under `key`.
pub fn inline_entry<'a>(t: &'a InlineTable, key: &str) -> (r: Option<&'a Value>)
    ensures
        r is Some <==> shows(inline_node(*t), key@),
        r matches Some(v) ==> value_view(*v) == inline_view(*t)[key@],
{
    inline_get(t, key)
}

/// Stores a copy of `item` under `key` in an inline table, where the item is
/// a value; says whether it did. A key already there keeps its place, a new
/// key comes last.
pub fn set_inline_value(t: &mut InlineTable, key: &str, item: &Item) -> (r: bool)
    ensures
        r == is_value(item_view(*item)),
        r ==> inline_node(*final(t)) == put(inline_node(*old(t)), key@, item_view(*item)),
        !r ==> *final(t) == *old(t),
{
    match item_as_value(item) {
        Some(v) => {
            inline_insert(t, key, copy_value(v));
            true
        },
        None => false,
    }
}

/// The text of a value, where it is a string.
pub fn value_text(v: &Value) -> (r: Option<String>)
    ensures
        r is Some <==> value_view(*v) is Str,
        r matches Some(s) ==> value_view(*v) == Node::Str(s@),
{
    match value_as_str(v) {
        Some(s) => Some(s.to_owned()),
        None => None,
    }
}

/// The inline table that a value is, if it is one.
pub fn value_inline_table(v: &Value) -> (r: Option<&InlineTable>)
    ensures
        r is Some <==> value_view(*v) is Inline,
        r matches Some(t) ==> value_view(*v) == inline_node(*t),
{
    value_as_inline_table(v)
}

/// The table that an item is, if it is one.
pub fn item_table(i: &Item) -> (r: Option<&Table>)
    ensures
        r is Some <==> item_view(*i) is Table,
        r matches Some(t) ==> item_view(*i) == table_node(*t),
{
    item_as_table(i)
}

/// The value that an item is, if it is one.
pub fn item_value(i: &Item) -> (r: Option<&Value>)
    ensures
        r is Some <==> is_value(item_view(*i)),
        r matches Some(v) ==> value_view(*v) == item_view(*i),
{
    item_as_value(i)
}

/// The boolean that a numeric code stands for: 1 is true, 0 is false, any
/// other code stands for none.
pub fn bool_from_code(code: i8) -> (r: Option<bool>)
    ensures
        r == (if code == 1 {
            Some(true)
        } else if code == 0 {
            Some(false)
        } else {
            None::<bool>
        }),
{
    if code == 1 {
        Some(true)
    } else if code == 0 {
        Some(false)
    } else {
        None
    }
}

impl ItemKind {
    /// The variant of an item.
    pub fn of(i: &Item) -> (r: ItemKind)
        ensures
            (r == ItemKind::Empty) == (item_view(*i) is Empty),
            (r == ItemKind::Value) == is_value(item_view(*i)),
            (r == ItemKind::Table) == (item_view(*i) is Table),
            (r == ItemKind::ArrayOfTables) == (item_view(*i) is ArrayOfTables),
    {
        item_kind(i)
    }

    pub open spec fn spec_label(self) -> Seq<char> {
        match self {
            ItemKind::Empty => "None"@,
            ItemKind::Value => "Value"@,
            ItemKind::Table => "Table"@,
            ItemKind::ArrayOfTables => "ArrayOfTables"@,
        }
    }

    /// The name of the variant.
    pub fn label(&self) -> (r: &'static str)
        ensures
            r@ == self.spec_label(),
    {
        match self {
            ItemKind::Empty => "None",
            ItemKind::Value => "Value",
            ItemKind::Table => "Table",
            ItemKind::ArrayOfTables => "ArrayOfTables",
        }
    }
}

impl ValueKind {
    /// The variant of a value.
    pub fn of(v: &Value) -> (r: ValueKind)
        ensures
            (r == ValueKind::String) == (value_view(*v) is Str),
            (r == ValueKind::InlineTable) == (value_view(*v) is Inline),
            r != ValueKind::String && r != ValueKind::InlineTable ==> value_view(*v) == Node::Other(
                r,
            ),
    {
        value_kind(v)
    }

    pub open spec fn spec_label(self) -> Seq<char> {
        match self {
            ValueKind::String => "String"@,
            ValueKind::Integer => "Integer"@,
            ValueKind::Float => "Float"@,
            ValueKind::Boolean => "Boolean"@,
            ValueKind::Datetime => "Datetime"@,
            ValueKind::Array => "Array"@,
            ValueKind::InlineTable => "InlineTable"@,
        }
    }

    /// The name of the variant.
    pub fn label(&self) -> (r: &'static str)
        ensures
            r@ == self.spec_label(),
    {
        match self {
            ValueKind::String => "String",
            ValueKind::Integer => "Integer",
            ValueKind::Float => "Float",
            ValueKind::Boolean => "Boolean",
            ValueKind::Datetime => "Datetime",
            ValueKind::Array => "Array",
            ValueKind::InlineTable => "InlineTable",
        }
    }
}

} // verus!
