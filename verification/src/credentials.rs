//! The credentials document: a user name and a password, both required.

use crate::document::{entry, lookup, parse_table, table_entries, toml_document, Item};
use crate::error::{gives, key_name, DocumentError, Fault, Key};
use crate::field::required_text;
use crate::text::{has_byte_order_mark, starts_with_byte_order_mark};
use vstd::prelude::*;
use vstd::utf8::*;

verus! {

/// A user name and a password, as a credentials file gives them.
#[derive(Debug, Clone, PartialEq, Eq)]
pub struct Credentials {
    pub username: String,
    pub password: String,
}

/// The characters of a pair of credentials.
pub struct CredentialsView {
    pub username: Seq<char>,
    pub password: Seq<char>,
}

impl View for Credentials {
    type V = CredentialsView;

    open spec fn view(&self) -> CredentialsView {
        CredentialsView { username: self.username@, password: self.password@ }
    }
}

/// The credentials that a table stands for: both keys hold a string, whatever
/// else the table holds. Where both keys are at fault, the user name's fault is
/// the one reported.
pub open spec fn credentials_of(entries: Map<Seq<char>, Item>) -> Result<CredentialsView, Fault> {
    match required_text(entry(entries, key_name(Key::Username)), Key::Username) {
        Err(fault) => Err(fault),
        Ok(username) => match required_text(
            entry(entries, key_name(Key::Password)),
            Key::Password,
        ) {
            Err(fault) => Err(fault),
            Ok(password) => Ok(CredentialsView { username, password }),
        },
    }
}

/// The credentials that a text stands for.
pub open spec fn credentials_in_text(text: Seq<char>) -> Result<CredentialsView, Fault> {
    match toml_document(text) {
        None => Err(Fault::Syntax),
        Some(entries) => credentials_of(entries),
    }
}

/// The credentials that the bytes of a file stand for. A file that begins with
/// a byte order mark is refused, though the parser would pass over the mark,
/// and so is one that is not UTF-8.
pub open spec fn credentials_in_file(bytes: Seq<u8>) -> Result<CredentialsView, Fault> {
    if has_byte_order_mark(bytes) {
        Err(Fault::ByteOrderMark)
    } else if !valid_utf8(bytes) {
        Err(Fault::InvalidUtf8)
    } else {
        credentials_in_text(decode_utf8(bytes))
    }
}

/// Two strings under the two keys are taken as they stand, whatever they hold:
/// the empty string is a user name, and a password, like any other.
pub proof fn lemma_text_is_taken_as_written(
    entries: Map<Seq<char>, Item>,
    username: Seq<char>,
    password: Seq<char>,
)
    requires
        entry(entries, key_name(Key::Username)) == Some(Item::Text(username)),
        entry(entries, key_name(Key::Password)) == Some(Item::Text(password)),
    ensures
        credentials_of(entries) == Ok::<CredentialsView, Fault>(
            CredentialsView { username, password },
        ),
{
}

/// A table that lacks one of the two keys stands for no credentials.
pub proof fn lemma_lone_field_is_refused(entries: Map<Seq<char>, Item>)
    requires
        !entries.contains_key(key_name(Key::Username)) || !entries.contains_key(
            key_name(Key::Password),
        ),
    ensures
        credentials_of(entries) is Err,
        !entries.contains_key(key_name(Key::Username)) ==> credentials_of(entries) == Err::<
            CredentialsView,
            Fault,
        >(Fault::MissingField(Key::Username)),
        entry(entries, key_name(Key::Username)) matches Some(Item::Text(_)) ==> credentials_of(
            entries,
        ) == Err::<CredentialsView, Fault>(Fault::MissingField(Key::Password)),
{
}

impl Credentials {
    /// Reads the credentials out of a parsed table.
    pub fn from_table(table: &toml::Table) -> (parsed: Result<Credentials, DocumentError>)
        ensures
            gives(parsed, credentials_of(table_entries(*table))),
    {
        let username = match lookup(table, Key::Username.name()).into_text(Key::Username) {
            Ok(text) => text,
            Err(error) => { return Err(error); },
        };
        let password = match lookup(table, Key::Password.name()).into_text(Key::Password) {
            Ok(text) => text,
            Err(error) => { return Err(error); },
        };
        Ok(Credentials { username, password })
    }

    /// Reads the credentials out of a TOML text.
    pub fn parse(text: &str) -> (parsed: Result<Credentials, DocumentError>)
        ensures
            gives(parsed, credentials_in_text(text@)),
    {
        match parse_table(text) {
            Ok(table) => Credentials::from_table(&table),
            Err(error) => Err(DocumentError::Syntax(error.to_string())),
        }
    }

    /// Reads the credentials out of the bytes of a file.
    pub fn from_bytes(bytes: &[u8]) -> (parsed: Result<Credentials, DocumentError>)
        ensures
            gives(parsed, credentials_in_file(bytes@)),
    {
        if starts_with_byte_order_mark(bytes) {
            return Err(DocumentError::ByteOrderMark);
        }
        match core::str::from_utf8(bytes) {
            Ok(text) => Credentials::parse(text),
            Err(_) => Err(DocumentError::InvalidUtf8),
        }
    }
}

} // verus!
