//! The printed form of a session's verifier, which both peers compare to
//! confirm they share a key.
use vstd::prelude::*;
use crate::decimal::digit_char;

verus! {

/// A lowercase hexadecimal digit.
pub open spec fn hex_digit(d: nat) -> char {
    if d < 10 {
        digit_char(d)
    } else if d == 10 {
        'a'
    } else if d == 11 {
        'b'
    } else if d == 12 {
        'c'
    } else if d == 13 {
        'd'
    } else if d == 14 {
        'e'
    } else {
        'f'
    }
}

/// Lowercase hexadecimal of a byte string: two digits per byte, the high
/// nibble first.
pub open spec fn hex_encode(bytes: Seq<u8>) -> Seq<char>
    decreases bytes.len(),
{
    if bytes.len() == 0 {
        Seq::<char>::empty()
    } else {
        hex_encode(bytes.drop_last()) + seq![
            hex_digit((bytes.last() / 16) as nat),
            hex_digit((bytes.last() % 16) as nat),
        ]
    }
}

/// Whether `c` is one of the sixteen lowercase hexadecimal digits.
pub open spec fn is_lower_hex(c: char) -> bool {
    ('0' <= c && c <= '9') || ('a' <= c && c <= 'f')
}

/// `hex::encode`: the crate maps each byte, in order, to the two characters
/// of its high and low nibble from the table `0123456789abcdef`.
#[verifier::external_body]
fn encode_hex(bytes: &[u8]) -> (s: String)
    ensures
        s@ == hex_encode(bytes@),
{
    hex::encode(bytes)
}

/// The line a peer prints to show its verifier: `verifier: ` and the
/// verifier in lowercase hexadecimal.
pub fn verifier_line(verifier: &[u8]) -> (line: String)
    ensures
        line@ == seq!['v', 'e', 'r', 'i', 'f', 'i', 'e', 'r', ':', ' '] + hex_encode(verifier@),
{
    let mut line = String::from_str("verifier: ");
    proof {
        reveal_strlit("verifier: ");
    }
    let hex = encode_hex(verifier);
    line.append(hex.as_str());
    line
}

/// Hexadecimal text has exactly two characters per byte, each a lowercase
/// hexadecimal digit.
pub proof fn lemma_hex_shape(bytes: Seq<u8>)
    ensures
        hex_encode(bytes).len() == 2 * bytes.len(),
        forall|i: int| 0 <= i < hex_encode(bytes).len() ==> is_lower_hex(#[trigger] hex_encode(bytes)[i]),
    decreases bytes.len(),
{
    if bytes.len() > 0 {
        let prefix = bytes.drop_last();
        lemma_hex_shape(prefix);
        let h = hex_encode(bytes);
        let hp = hex_encode(prefix);
        assert forall|i: int| 0 <= i < h.len() implies is_lower_hex(#[trigger] h[i]) by {
            if i < hp.len() {
                assert(h[i] == hp[i]);
            }
        }
    }
}

/// Distinct verifiers print differently, so two peers that see the same
/// line hold the same verifier.
pub proof fn lemma_hex_injective(a: Seq<u8>, b: Seq<u8>)
    requires
        hex_encode(a) == hex_encode(b),
    ensures
        a == b,
    decreases a.len(),
{
    lemma_hex_shape(a);
    lemma_hex_shape(b);
    if a.len() > 0 {
        let ha = hex_encode(a);
        let hb = hex_encode(b);
        let pa = hex_encode(a.drop_last());
        let pb = hex_encode(b.drop_last());
        lemma_hex_shape(a.drop_last());
        lemma_hex_shape(b.drop_last());
        assert(ha[ha.len() - 2] == hex_digit((a.last() / 16) as nat));
        assert(ha[ha.len() - 1] == hex_digit((a.last() % 16) as nat));
        assert(hb[hb.len() - 2] == hex_digit((b.last() / 16) as nat));
        assert(hb[hb.len() - 1] == hex_digit((b.last() % 16) as nat));
        assert(a.last() / 16 == b.last() / 16);
        assert(a.last() % 16 == b.last() % 16);
        assert(a.last() == b.last());
        assert(pa =~= ha.subrange(0, ha.len() - 2));
        assert(pb =~= hb.subrange(0, hb.len() - 2));
        lemma_hex_injective(a.drop_last(), b.drop_last());
        assert(a =~= a.drop_last().push(a.last()));
        assert(b =~= b.drop_last().push(b.last()));
    } else {
        assert(a =~= b);
    }
}

/// The digits are the table `0123456789abcdef`, and the text of a byte
/// string holds, for its `i`-th byte, the table's entry for the byte's high
/// nibble at `2 i` and for its low nibble at `2 i + 1`.
pub proof fn lemma_hex_table(bytes: Seq<u8>)
    ensures
        forall|d: nat| #![trigger hex_digit(d)] d < 16 ==> hex_digit(d) == seq![
            '0', '1', '2', '3', '4', '5', '6', '7', '8', '9', 'a', 'b', 'c', 'd', 'e', 'f',
        ][d as int],
        hex_encode(bytes).len() == 2 * bytes.len(),
        forall|i: int|
            0 <= i < bytes.len() ==> {
                &&& hex_encode(bytes)[2 * i] == seq![
                    '0', '1', '2', '3', '4', '5', '6', '7', '8', '9', 'a', 'b', 'c', 'd', 'e', 'f',
                ][(#[trigger] bytes[i] / 16) as int]
                &&& hex_encode(bytes)[2 * i + 1] == seq![
                    '0', '1', '2', '3', '4', '5', '6', '7', '8', '9', 'a', 'b', 'c', 'd', 'e', 'f',
                ][(bytes[i] % 16) as int]
            },
    decreases bytes.len(),
{
    let table = seq!['0', '1', '2', '3', '4', '5', '6', '7', '8', '9', 'a', 'b', 'c', 'd', 'e', 'f'];
    assert forall|d: nat| #![trigger hex_digit(d)] d < 16 implies hex_digit(d) == table[d as int] by {
    }
    lemma_hex_shape(bytes);
    if bytes.len() > 0 {
        let prefix = bytes.drop_last();
        lemma_hex_table(prefix);
        let h = hex_encode(bytes);
        let hp = hex_encode(prefix);
        assert forall|i: int| 0 <= i < bytes.len() implies {
            &&& h[2 * i] == table[(#[trigger] bytes[i] / 16) as int]
            &&& h[2 * i + 1] == table[(bytes[i] % 16) as int]
        } by {
            if i < prefix.len() {
                assert(bytes[i] == prefix[i]);
                assert(h[2 * i] == hp[2 * i]);
                assert(h[2 * i + 1] == hp[2 * i + 1]);
            } else {
                assert(bytes[i] == bytes.last());
            }
        }
    }
}

/// Appending a byte appends its two digits to the hexadecimal text.
pub proof fn lemma_hex_prefix(bytes: Seq<u8>, b: u8)
    ensures
        hex_encode(bytes.push(b)) == hex_encode(bytes) + seq![
            hex_digit((b / 16) as nat),
            hex_digit((b % 16) as nat),
        ],
{
    assert(bytes.push(b).drop_last() =~= bytes);
}

} // verus!
