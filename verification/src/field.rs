//! What one key of a document must hold, and the fault where it does not.

use crate::connection::{default_refresh, DEFAULT_REFRESH};
use crate::document::{Field, Item};
use crate::error::{DocumentError, Fault, Key};
use vstd::prelude::*;

verus! {

/// The characters of a text that may be missing.
pub open spec fn text_of(text: Option<String>) -> Option<Seq<char>> {
    match text {
        Some(text) => Some(text@),
        None => None,
    }
}

/// The text under a key that must be there.
pub open spec fn required_text(item: Option<Item>, key: Key) -> Result<Seq<char>, Fault> {
    match item {
        None => Err(Fault::MissingField(key)),
        Some(Item::Text(text)) => Ok(text),
        Some(_) => Err(Fault::InvalidField(key)),
    }
}

/// The text under a key that may be missing.
pub open spec fn optional_text(item: Option<Item>, key: Key) -> Result<Option<Seq<char>>, Fault> {
    match item {
        None => Ok(None),
        Some(Item::Text(text)) => Ok(Some(text)),
        Some(_) => Err(Fault::InvalidField(key)),
    }
}

/// The cadence under a key: the default where the key is missing, and else an
/// integer that is not negative.
pub open spec fn refresh(item: Option<Item>, key: Key) -> Result<u64, Fault> {
    match item {
        None => Ok(DEFAULT_REFRESH),
        Some(Item::Integer(seconds)) => if seconds >= 0 {
            Ok(seconds as u64)
        } else {
            Err(Fault::InvalidField(key))
        },
        Some(_) => Err(Fault::InvalidField(key)),
    }
}

impl Field {
    /// Takes the text that the key must hold.
    pub fn into_text(self, key: Key) -> (taken: Result<String, DocumentError>)
        ensures
            match taken {
                Ok(text) => required_text(self@, key) == Ok::<Seq<char>, Fault>(text@),
                Err(error) => required_text(self@, key) == Err::<Seq<char>, Fault>(error@),
            },
    {
        match self {
            Field::Absent => Err(DocumentError::MissingField(key)),
            Field::Text(text) => Ok(text),
            _ => Err(DocumentError::InvalidField(key)),
        }
    }

    /// Takes the text that the key may hold.
    pub fn into_optional_text(self, key: Key) -> (taken: Result<Option<String>, DocumentError>)
        ensures
            match taken {
                Ok(text) => optional_text(self@, key) == Ok::<Option<Seq<char>>, Fault>(
                    text_of(text),
                ),
                Err(error) => optional_text(self@, key) == Err::<Option<Seq<char>>, Fault>(
                    error@,
                ),
            },
    {
        match self {
            Field::Absent => Ok(None),
            Field::Text(text) => Ok(Some(text)),
            _ => Err(DocumentError::InvalidField(key)),
        }
    }

    /// Takes the cadence that the key may hold.
    pub fn into_refresh(self, key: Key) -> (taken: Result<u64, DocumentError>)
        ensures
            match taken {
                Ok(seconds) => refresh(self@, key) == Ok::<u64, Fault>(seconds),
                Err(error) => refresh(self@, key) == Err::<u64, Fault>(error@),
            },
    {
        match self {
            Field::Absent => Ok(default_refresh()),
            Field::Integer(seconds) => {
                if seconds >= 0 {
                    Ok(seconds as u64)
                } else {
                    Err(DocumentError::InvalidField(key))
                }
            },
            _ => Err(DocumentError::InvalidField(key)),
        }
    }
}

} // verus!
