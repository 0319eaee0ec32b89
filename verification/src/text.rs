//! From the bytes of a file to the text that is parsed.

use vstd::prelude::*;
use vstd::utf8::*;

verus! {

#[verifier::external_type_specification]
#[verifier::external_body]
pub struct ExUtf8Error(core::str::Utf8Error);

/// `core::str::from_utf8`: the bytes read as UTF-8. The contract claims what
/// the documentation says: the text is the one that these bytes encode, and the
/// call fails exactly where the bytes are not UTF-8.
pub assume_specification[ core::str::from_utf8 ](bytes: &[u8]) -> (text: Result<
    &str,
    core::str::Utf8Error,
>)
    ensures
        match text {
            Ok(text) => valid_utf8(bytes@) && text@ == decode_utf8(bytes@),
            Err(_) => !valid_utf8(bytes@),
        },
;

/// Whether the bytes begin with the UTF-8 byte order mark.
pub open spec fn has_byte_order_mark(bytes: Seq<u8>) -> bool {
    bytes.len() >= 3 && bytes[0] == 0xEF && bytes[1] == 0xBB && bytes[2] == 0xBF
}

/// Tells whether a file begins with the UTF-8 byte order mark.
pub fn starts_with_byte_order_mark(bytes: &[u8]) -> (found: bool)
    ensures
        found == has_byte_order_mark(bytes@),
{
    bytes.len() >= 3 && bytes[0] == 0xEF && bytes[1] == 0xBB && bytes[2] == 0xBF
}

} // verus!
