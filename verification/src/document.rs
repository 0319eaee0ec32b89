//! The TOML side of the library: a document is parsed by the `toml` crate, and
//! what the settings read of it is handed out as plain values.

use vstd::prelude::*;

verus! {

#[verifier::external_type_specification]
#[verifier::external_body]
#[verifier::reject_recursive_types(K)]
#[verifier::reject_recursive_types(V)]
pub struct ExTomlMap<K, V>(toml::map::Map<K, V>);

#[verifier::external_type_specification]
#[verifier::external_body]
pub struct ExTomlValue(toml::Value);

#[verifier::external_type_specification]
#[verifier::external_body]
pub struct ExTomlError(toml::de::Error);

/// What a key of a table holds, as far as the settings read it.
pub enum Item {
    /// A TOML string.
    Text(Seq<char>),
    /// A TOML integer.
    Integer(i64),
    /// A float, a boolean, a date-time, an array or a table.
    Other,
}

/// What a table gave for one key.
#[derive(Debug, Clone, PartialEq, Eq)]
pub enum Field {
    /// The table has no such key.
    Absent,
    /// The key holds a string.
    Text(String),
    /// The key holds an integer.
    Integer(i64),
    /// The key holds a value of another type.
    Other,
}

impl View for Field {
    type V = Option<Item>;

    open spec fn view(&self) -> Option<Item> {
        match self {
            Field::Absent => None,
            Field::Text(text) => Some(Item::Text(text@)),
            Field::Integer(number) => Some(Item::Integer(*number)),
            Field::Other => Some(Item::Other),
        }
    }
}

/// The top-level table that `toml` reads from a text, key by key, or `None`
/// where it refuses the text.
pub uninterp spec fn toml_document(text: Seq<char>) -> Option<Map<Seq<char>, Item>>;

/// The keys of a table, each with what it holds.
pub uninterp spec fn table_entries(table: toml::Table) -> Map<Seq<char>, Item>;

/// What `entries` holds under `key`.
pub open spec fn entry(entries: Map<Seq<char>, Item>, key: Seq<char>) -> Option<Item> {
    if entries.contains_key(key) {
        Some(entries[key])
    } else {
        None
    }
}

/// `toml::from_str`, read as a table. The contract claims that the call
/// depends on the text alone: it gives the table named by `toml_document`, and
/// fails exactly where that is `None`.
#[verifier::external_body]
pub(crate) fn parse_table(text: &str) -> (parsed: Result<toml::Table, toml::de::Error>)
    ensures
        match parsed {
            Ok(table) => toml_document(text@) == Some(table_entries(table)),
            Err(_) => toml_document(text@) is None,
        },
{
    toml::from_str::<toml::Table>(text)
}

/// `toml::map::Map::get`, with the value it finds told apart by its variant.
/// The contract claims that the result is what the table holds under `key`:
/// nothing where the key is missing, the string or the integer where the value
/// is one, and `Other` for every other kind of value.
#[verifier::external_body]
pub(crate) fn lookup(table: &toml::Table, key: &str) -> (field: Field)
    ensures
        field@ == entry(table_entries(*table), key@),
{
    match table.get(key) {
        None => Field::Absent,
        Some(toml::Value::String(text)) => Field::Text(text.clone()),
        Some(toml::Value::Integer(number)) => Field::Integer(*number),
        Some(_) => Field::Other,
    }
}

} // verus!
