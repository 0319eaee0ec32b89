//! The address of the service: a text that the `url` crate accepts as an
//! absolute URL, kept in the form in which that crate writes it back.

use crate::document::{Field, Item};
use crate::error::{DocumentError, Fault, Key};
use crate::field::required_text;
use vstd::prelude::*;

verus! {

#[verifier::external_type_specification]
#[verifier::external_body]
pub struct ExUrlParseError(url::ParseError);

/// The serialization of the absolute URL that `url` reads from a text, or
/// `None` where it reads none.
pub uninterp spec fn url_serialization(text: Seq<char>) -> Option<Seq<char>>;

/// Whether a text is the serialization of an absolute URL.
pub open spec fn is_url(text: Seq<char>) -> bool {
    exists|source: Seq<char>| url_serialization(source) == Some(text)
}

/// `url::Url::parse`, with the URL given as its serialization (the `String`
/// that `Url` converts into). The contract claims that the call depends on the
/// text alone: it gives the serialization named by `url_serialization`, and
/// fails exactly where that is `None`.
#[verifier::external_body]
pub(crate) fn parse_url(text: &str) -> (parsed: Result<String, url::ParseError>)
    ensures
        match parsed {
            Ok(serialization) => url_serialization(text@) == Some(serialization@),
            Err(_) => url_serialization(text@) is None,
        },
{
    url::Url::parse(text).map(String::from)
}

/// The address under the key `url`: a text that parses as an absolute URL, in
/// its serialization.
pub open spec fn endpoint(item: Option<Item>) -> Result<Seq<char>, Fault> {
    match required_text(item, Key::Url) {
        Err(fault) => Err(fault),
        Ok(text) => match url_serialization(text) {
            None => Err(Fault::InvalidUrl),
            Some(serialization) => Ok(serialization),
        },
    }
}

impl Field {
    /// Takes the address that the key `url` must hold.
    pub fn into_endpoint(self) -> (taken: Result<String, DocumentError>)
        ensures
            match taken {
                Ok(url) => endpoint(self@) == Ok::<Seq<char>, Fault>(url@) && is_url(url@),
                Err(error) => endpoint(self@) == Err::<Seq<char>, Fault>(error@),
            },
    {
        let text = match self.into_text(Key::Url) {
            Ok(text) => text,
            Err(error) => { return Err(error); },
        };
        match parse_url(text.as_str()) {
            Ok(url) => Ok(url),
            Err(_) => Err(DocumentError::InvalidUrl),
        }
    }
}

} // verus!
