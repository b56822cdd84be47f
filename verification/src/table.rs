//! The `toml` crate as the store sees it: the table type, the text format,
//! and the few operations on a table that the store needs. Nothing in this
//! file is proved; every contract here is taken on trust from `toml`.

use toml::{Table, Value};
use vstd::prelude::*;

verus! {

/// `toml::Value`: one value of a document. The store never looks inside one.
#[verifier::external_type_specification]
#[verifier::external_body]
pub struct ExValue(toml::Value);

/// `toml::map::Map`, of which `toml::Table` is the instance with `String`
/// keys and `Value` values.
#[verifier::external_type_specification]
#[verifier::external_body]
#[verifier::reject_recursive_types(K)]
#[verifier::reject_recursive_types(V)]
pub struct ExMap<K, V>(toml::map::Map<K, V>);

/// `toml::de::Error`: why a text is no TOML document.
#[verifier::external_type_specification]
#[verifier::external_body]
pub struct ExParseError(toml::de::Error);

/// `toml::ser::Error`: why a table cannot be written as TOML.
#[verifier::external_type_specification]
#[verifier::external_body]
pub struct ExRenderError(toml::ser::Error);

/// The entries that a table holds, by key.
pub uninterp spec fn table_entries(table: Table) -> Map<Seq<char>, Value>;

/// The entries of the table that `toml` reads from a text, or `None` where it
/// rejects the text.
pub uninterp spec fn parsed_entries(text: Seq<char>) -> Option<Map<Seq<char>, Value>>;

/// The text that `toml` writes for a table with the given entries, or `None`
/// where it cannot write one of them.
pub uninterp spec fn rendered_text(entries: Map<Seq<char>, Value>) -> Option<Seq<char>>;

/// `str::parse::<toml::Table>`, which is `toml::from_str`: reads a whole TOML
/// document. The text alone decides what is read. The contract claims only
/// that: it gives the outcome the name `parsed_entries`.
#[verifier::external_body]
pub(crate) fn parse_table(text: &str) -> (parsed: Result<Table, toml::de::Error>)
    ensures
        match parsed {
            Ok(table) => parsed_entries(text@) == Some(table_entries(table)),
            Err(_) => parsed_entries(text@).is_none(),
        },
{
    text.parse::<Table>()
}

/// `toml::to_string` on a table: writes it as a TOML document. A table keeps
/// its entries in the order of their keys, so the entries decide what is
/// written. The contract claims only that: it gives the outcome the name
/// `rendered_text`.
#[verifier::external_body]
pub(crate) fn render_table(table: &Table) -> (rendered: Result<String, toml::ser::Error>)
    ensures
        match rendered {
            Ok(text) => rendered_text(table_entries(*table)) == Some(text@),
            Err(_) => rendered_text(table_entries(*table)).is_none(),
        },
{
    toml::to_string(table)
}

/// `toml::map::Map::get` with a `str` key: a reference to the value stored
/// under the key, if there is one.
#[verifier::external_body]
pub(crate) fn table_get<'a>(table: &'a Table, key: &str) -> (found: Option<&'a Value>)
    ensures
        match found {
            Some(value) => table_entries(*table).contains_key(key@) && *value == table_entries(
                *table,
            )[key@],
            None => !table_entries(*table).contains_key(key@),
        },
{
    table.get(key)
}

/// `toml::map::Map::insert`: stores the value under the key, in place of any
/// value that was there, and hands back the value that was there.
#[verifier::external_body]
pub(crate) fn table_insert(table: &mut Table, key: String, value: Value) -> (previous: Option<
    Value,
>)
    ensures
        table_entries(*final(table)) == table_entries(*old(table)).insert(key@, value),
        previous == if table_entries(*old(table)).contains_key(key@) {
            Some(table_entries(*old(table))[key@])
        } else {
            None
        },
{
    table.insert(key, value)
}

/// `Clone::clone` of `toml::map::Map<String, Value>`: the copy holds the same
/// entries.
#[verifier::external_body]
pub(crate) fn table_clone(table: &Table) -> (copy: Table)
    ensures
        table_entries(copy) == table_entries(*table),
{
    table.clone()
}

/// `Clone::clone` of `toml::Value`, which `toml` derives: the copy is the
/// same value.
#[verifier::external_body]
pub(crate) fn value_clone(value: &Value) -> (copy: Value)
    ensures
        copy == *value,
{
    value.clone()
}

} // verus!
