//! Reading bytes as text.
use vstd::prelude::*;
use vstd::utf8::{valid_utf8, decode_utf8, encode_utf8, encode_utf8_decode_utf8};

verus! {

/// `std::str::from_utf8`: the bytes read as a string when they are valid
/// UTF-8, and no string otherwise; the string borrows exactly those bytes.
#[verifier::external_body]
pub(crate) fn utf8_str(bytes: &[u8]) -> (s: Option<&str>)
    ensures
        s is Some <==> valid_utf8(bytes@),
        s matches Some(t) ==> encode_utf8(t@) == bytes@,
{
    std::str::from_utf8(bytes).ok()
}

/// The text that a message received from the peer spells, when it is valid
/// UTF-8; `None` when it is not.
pub fn decode_text(bytes: &[u8]) -> (text: Option<String>)
    ensures
        text is Some <==> valid_utf8(bytes@),
        text matches Some(t) ==> t@ == decode_utf8(bytes@),
{
    match utf8_str(bytes) {
        Some(t) => {
            proof {
                encode_utf8_decode_utf8(t@);
            }
            Some(String::from_str(t))
        },
        None => None,
    }
}

} // verus!
