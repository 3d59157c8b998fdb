//! The greeting the foreign-function interface hands back to its caller.
use vstd::prelude::*;
use vstd::utf8::{valid_utf8, decode_utf8, encode_utf8, encode_utf8_decode_utf8, decode_utf8_encode_utf8};
use crate::utf8_text::utf8_str;

verus! {

/// The recipient named when none can be read.
pub open spec fn default_recipient() -> Seq<char> {
    seq!['t', 'h', 'e', 'r', 'e']
}

/// `Hello ` followed by the recipient: the text the bytes spell when they are
/// valid UTF-8, and `there` when they are not.
pub open spec fn greeting_spec(to: Seq<u8>) -> Seq<char> {
    seq!['H', 'e', 'l', 'l', 'o', ' '] + if valid_utf8(to) {
        decode_utf8(to)
    } else {
        default_recipient()
    }
}

/// A greeting starts with `Hello `; when the bytes are valid UTF-8, of any
/// length, what follows encodes back to exactly those bytes, and only when
/// they are not valid UTF-8 does `there` follow instead.
pub proof fn lemma_greeting_echoes_recipient(to: Seq<u8>)
    ensures
        greeting_spec(to).len() >= 6,
        greeting_spec(to).take(6) == seq!['H', 'e', 'l', 'l', 'o', ' '],
        valid_utf8(to) ==> encode_utf8(greeting_spec(to).skip(6)) == to,
        !valid_utf8(to) ==> greeting_spec(to).skip(6) == seq!['t', 'h', 'e', 'r', 'e'],
{
    let g = greeting_spec(to);
    assert(g.take(6) =~= seq!['H', 'e', 'l', 'l', 'o', ' ']);
    if valid_utf8(to) {
        assert(g.skip(6) =~= decode_utf8(to));
        decode_utf8_encode_utf8(to);
    } else {
        assert(g.skip(6) =~= seq!['t', 'h', 'e', 'r', 'e']);
    }
}

/// Greets the recipient whose name the bytes `to` spell.
pub fn greeting(to: &[u8]) -> (s: String)
    ensures
        s@ == greeting_spec(to@),
{
    proof {
        reveal_strlit("Hello ");
        reveal_strlit("there");
    }
    let recipient = match utf8_str(to) {
        Some(t) => {
            proof {
                encode_utf8_decode_utf8(t@);
            }
            t
        },
        None => "there",
    };
    let mut s = String::from_str("Hello ");
    s.append(recipient);
    s
}

} // verus!
