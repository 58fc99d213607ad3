//! The configuration document: TOML text, parsed by the `toml` crate.
//!
//! A parsed document stays in the crate's own types, which are opaque here.
//! What a document holds is described by [`Node`]; the functions of this
//! module state, without proof, how the `toml` accessors relate to it.

use vstd::prelude::*;

verus! {

/// `toml::Value`, kept opaque: what a value holds is told by [`value_node`].
#[verifier::external_type_specification]
#[verifier::external_body]
pub struct ExValue(toml::Value);

/// `toml::map::Map`, the type behind `toml::Table`, kept opaque: what a table
/// holds is told by [`table_nodes`].
#[verifier::external_type_specification]
#[verifier::external_body]
#[verifier::reject_recursive_types(K)]
#[verifier::reject_recursive_types(V)]
pub struct ExMap<K, V>(toml::map::Map<K, V>);

/// `toml::de::Error`, kept opaque: its message is told by [`error_text`].
#[verifier::external_type_specification]
#[verifier::external_body]
pub struct ExError(toml::de::Error);

/// What a TOML value holds, as far as a configuration reads it.
pub enum Node {
    /// A string, by its characters.
    String(Seq<char>),
    /// A boolean.
    Boolean(bool),
    /// An array, by its items in order.
    Array(Seq<Node>),
    /// A table, by its entries.
    Table(Map<Seq<char>, Node>),
    /// A value of any other kind: an integer, a float or a datetime.
    Other,
}

/// The content of a `toml::Value`.
pub uninterp spec fn value_node(value: toml::Value) -> Node;

/// The entries of a `toml::Table`, by key.
pub uninterp spec fn table_nodes(table: toml::Table) -> Map<Seq<char>, Node>;

/// What parsing a text gives: the document that the text denotes, or, where
/// the text is not TOML, the parser's message.
pub uninterp spec fn toml_document(text: Seq<char>) -> Result<Map<Seq<char>, Node>, Seq<char>>;

/// The message of a `toml::de::Error`.
pub uninterp spec fn error_text(error: toml::de::Error) -> Seq<char>;

/// The contents of an array's items, in order.
pub open spec fn item_nodes(items: Seq<toml::Value>) -> Seq<Node> {
    items.map_values(|item: toml::Value| value_node(item))
}

/// `str::parse::<toml::Table>`: the text is parsed as a TOML document. The
/// result is a function of the text alone: on success the table holds the
/// document that the text denotes, on failure the error carries the message
/// for that text.
#[verifier::external_body]
pub(crate) fn parse_table(text: &str) -> (parsed: Result<toml::Table, toml::de::Error>)
    ensures
        match parsed {
            Ok(table) => toml_document(text@) == Ok::<Map<Seq<char>, Node>, Seq<char>>(
                table_nodes(table),
            ),
            Err(error) => toml_document(text@) == Err::<Map<Seq<char>, Node>, Seq<char>>(
                error_text(error),
            ),
        },
{
    text.parse::<toml::Table>()
}

/// `toml::de::Error::message`: what went wrong, in the parser's words.
#[verifier::external_body]
pub(crate) fn error_message(error: &toml::de::Error) -> (message: String)
    ensures
        message@ == error_text(*error),
{
    error.message().to_owned()
}

/// `toml::Table::get`: the value stored under `key`, if there is one.
#[verifier::external_body]
pub(crate) fn table_get<'a>(table: &'a toml::Table, key: &str) -> (found: Option<&'a toml::Value>)
    ensures
        match found {
            Some(value) => table_nodes(*table).contains_key(key@) && table_nodes(*table)[key@]
                == value_node(*value),
            None => !table_nodes(*table).contains_key(key@),
        },
{
    table.get(key)
}

/// `toml::Value::as_str`: the text of a string value, `None` for any other kind.
#[verifier::external_body]
pub(crate) fn value_as_str<'a>(value: &'a toml::Value) -> (text: Option<&'a str>)
    ensures
        match text {
            Some(s) => value_node(*value) == Node::String(s@),
            None => !(value_node(*value) is String),
        },
{
    value.as_str()
}

/// `toml::Value::as_bool`: the value of a boolean, `None` for any other kind.
#[verifier::external_body]
pub(crate) fn value_as_bool(value: &toml::Value) -> (flag: Option<bool>)
    ensures
        match flag {
            Some(b) => value_node(*value) == Node::Boolean(b),
            None => !(value_node(*value) is Boolean),
        },
{
    value.as_bool()
}

/// `toml::Value::as_array`: the items of an array, `None` for any other kind.
#[verifier::external_body]
pub(crate) fn value_as_array<'a>(value: &'a toml::Value) -> (items: Option<&'a Vec<toml::Value>>)
    ensures
        match items {
            Some(a) => value_node(*value) == Node::Array(item_nodes(a@)),
            None => !(value_node(*value) is Array),
        },
{
    value.as_array()
}

/// `toml::Value::as_table`: the table of a table value, `None` for any other kind.
#[verifier::external_body]
pub(crate) fn value_as_table<'a>(value: &'a toml::Value) -> (table: Option<&'a toml::Table>)
    ensures
        match table {
            Some(t) => value_node(*value) == Node::Table(table_nodes(*t)),
            None => !(value_node(*value) is Table),
        },
{
    value.as_table()
}

} // verus!
