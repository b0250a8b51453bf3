//! The parsed configuration document, as the `toml` crate hands it over.
//!
//! The types, names and contracts declared here are statements about that
//! crate which the verifier accepts without proof. The rest of the library
//! reads documents only through the functions below.

use vstd::prelude::*;

verus! {

/// `toml::Value`: one value of a document. Opaque to the verifier.
#[verifier::external_type_specification]
#[verifier::external_body]
pub struct ExValue(toml::Value);

/// `toml::map::Map`, of which `toml::Table` is the instance from `String`
/// to `toml::Value`. Opaque to the verifier.
#[verifier::external_type_specification]
#[verifier::external_body]
#[verifier::reject_recursive_types(K)]
#[verifier::reject_recursive_types(V)]
pub struct ExMap<K, V>(toml::map::Map<K, V>);

/// `toml::de::Error`: why a text is not a document. Opaque to the verifier.
#[verifier::external_type_specification]
#[verifier::external_body]
pub struct ExError(toml::de::Error);

/// A value of a document, as far as the configuration schema tells values
/// apart: strings, booleans, arrays and tables, and everything else
/// (integers, floats, dates and times) as one.
pub enum Node {
    Text(Seq<char>),
    Flag(bool),
    List(Seq<Node>),
    Table(Map<Seq<char>, Node>),
    Other,
}

/// What a `toml::Value` holds.
pub uninterp spec fn value_node(v: toml::Value) -> Node;

/// What a `toml::Table` holds: the value under each of its keys.
pub uninterp spec fn table_nodes(t: toml::Table) -> Map<Seq<char>, Node>;

/// The document that a text is parsed into, or `None` where the text is
/// not valid TOML.
pub uninterp spec fn document_nodes(text: Seq<char>) -> Option<Map<Seq<char>, Node>>;

/// What each item of an array holds, in order.
pub open spec fn list_nodes(items: Seq<toml::Value>) -> Seq<Node> {
    Seq::new(items.len(), |i: int| value_node(items[i]))
}

/// `toml::from_str` at `toml::Table`: parses a whole document. The result
/// depends on the text alone.
#[verifier::external_body]
pub(crate) fn parse_document(text: &str) -> (out: Result<toml::Table, toml::de::Error>)
    ensures
        match out {
            Ok(table) => document_nodes(text@) == Some(table_nodes(table)),
            Err(_) => document_nodes(text@) is None,
        },
{
    toml::from_str::<toml::Table>(text)
}

/// `Map::get` on a table: the value under `key`, if the table has that key.
#[verifier::external_body]
pub(crate) fn table_get<'a>(table: &'a toml::Table, key: &str) -> (out: Option<&'a toml::Value>)
    ensures
        match out {
            Some(value) => table_nodes(*table).contains_key(key@) && table_nodes(*table)[key@]
                == value_node(*value),
            None => !table_nodes(*table).contains_key(key@),
        },
{
    table.get(key)
}

/// `Value::as_str`: the string, if the value is one.
#[verifier::external_body]
pub(crate) fn value_as_str<'a>(value: &'a toml::Value) -> (out: Option<&'a str>)
    ensures
        match out {
            Some(text) => value_node(*value) == Node::Text(text@),
            None => !(value_node(*value) is Text),
        },
{
    value.as_str()
}

/// `Value::as_bool`: the boolean, if the value is one.
#[verifier::external_body]
pub(crate) fn value_as_bool(value: &toml::Value) -> (out: Option<bool>)
    ensures
        match out {
            Some(flag) => value_node(*value) == Node::Flag(flag),
            None => !(value_node(*value) is Flag),
        },
{
    value.as_bool()
}

/// `Value::as_array`: the items, if the value is an array.
#[verifier::external_body]
pub(crate) fn value_as_array<'a>(value: &'a toml::Value) -> (out: Option<&'a Vec<toml::Value>>)
    ensures
        match out {
            Some(items) => value_node(*value) == Node::List(list_nodes(items@)),
            None => !(value_node(*value) is List),
        },
{
    value.as_array()
}

/// `Value::as_table`: the table, if the value is one.
#[verifier::external_body]
pub(crate) fn value_as_table<'a>(value: &'a toml::Value) -> (out: Option<&'a toml::Table>)
    ensures
        match out {
            Some(table) => value_node(*value) == Node::Table(table_nodes(*table)),
            None => !(value_node(*value) is Table),
        },
{
    value.as_table()
}

} // verus!
