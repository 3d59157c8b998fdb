//! Equality of messages: field by field, with the server's timestamp compared
//! as a 64-bit float (a NaN equals nothing, and the two zeros are equal).
use vstd::prelude::*;
use vstd::std_specs::cmp::PartialEqSpecImpl;
use crate::server_messages::{Message, Nameplate, Phase};

verus! {

/// Whether the bit pattern is a NaN: all exponent bits set, a nonzero fraction.
pub open spec fn f64_bits_is_nan(bits: u64) -> bool {
    (bits / 0x10_0000_0000_0000) % 0x800 == 0x7ff && bits % 0x10_0000_0000_0000 != 0
}

/// Whether the bit pattern is a zero of either sign.
pub open spec fn f64_bits_is_zero(bits: u64) -> bool {
    bits % 0x8000_0000_0000_0000 == 0
}

/// Whether two bit patterns hold floats that `==` calls equal.
pub open spec fn f64_bits_eq(a: u64, b: u64) -> bool {
    &&& !f64_bits_is_nan(a)
    &&& !f64_bits_is_nan(b)
    &&& (a == b || (f64_bits_is_zero(a) && f64_bits_is_zero(b)))
}

/// Whether two lists of nameplates name the same nameplates in order.
pub open spec fn nameplates_eq_spec(a: Seq<Nameplate>, b: Seq<Nameplate>) -> bool {
    &&& a.len() == b.len()
    &&& forall|i: int| 0 <= i < a.len() ==> (#[trigger] a[i]).id@ == b[i].id@
}

/// Whether two messages are equal: the same kind, with equal fields.
pub open spec fn message_eq(a: Message, b: Message) -> bool {
    match (a, b) {
        (Message::Bind { appid: x1, side: x2 }, Message::Bind { appid: y1, side: y2 }) => x1@
            == y1@ && x2@ == y2@,
        (
            Message::Welcome { server_tx: x1, welcome: x2 },
            Message::Welcome { server_tx: y1, welcome: y2 },
        ) => f64_bits_eq(x1, y1) && x2.motd@ == y2.motd@,
        (Message::List {  }, Message::List {  }) => true,
        (Message::Nameplates { nameplates: x }, Message::Nameplates { nameplates: y }) =>
            nameplates_eq_spec(x@, y@),
        (Message::Allocate {  }, Message::Allocate {  }) => true,
        (Message::Allocated { nameplate: x }, Message::Allocated { nameplate: y }) => x@ == y@,
        (Message::Claim { nameplate: x }, Message::Claim { nameplate: y }) => x@ == y@,
        (Message::Claimed { mailbox: x }, Message::Claimed { mailbox: y }) => x@ == y@,
        (Message::Release { nameplate: x }, Message::Release { nameplate: y }) => x@ == y@,
        (Message::Released {  }, Message::Released {  }) => true,
        (Message::Open { mailbox: x }, Message::Open { mailbox: y }) => x@ == y@,
        (Message::Add { phase: x1, body: x2 }, Message::Add { phase: y1, body: y2 }) => x1
            == y1 && x2@ == y2@,
        (
            Message::Message { side: x1, phase: x2, body: x3, id: x4 },
            Message::Message { side: y1, phase: y2, body: y3, id: y4 },
        ) => x1@ == y1@ && x2 == y2 && x3@ == y3@ && x4@ == y4@,
        (Message::Close { mailbox: x1, mood: x2 }, Message::Close { mailbox: y1, mood: y2 }) =>
            x1@ == y1@ && x2@ == y2@,
        (Message::Closed {  }, Message::Closed {  }) => true,
        (Message::Ack {  }, Message::Ack {  }) => true,
        (Message::Ping { ping: x }, Message::Ping { ping: y }) => x == y,
        (Message::Pong { pong: x }, Message::Pong { pong: y }) => x == y,
        _ => false,
    }
}

/// Float equality on bit patterns: it is symmetric; a bit pattern equals
/// itself unless it is a NaN (all eleven exponent bits set, some fraction bit
/// set); and two different bit patterns are equal only when they are the two
/// zeros, +0.0 and -0.0.
pub proof fn lemma_f64_bits_eq_is_float_equality(a: u64, b: u64)
    ensures
        f64_bits_eq(a, b) == f64_bits_eq(b, a),
        f64_bits_eq(a, a) <==> !((0x7ff0_0000_0000_0000 < a && a < 0x8000_0000_0000_0000)
            || 0xfff0_0000_0000_0000 < a),
        f64_bits_eq(a, b) && a != b ==> ((a == 0 && b == 0x8000_0000_0000_0000) || (a
            == 0x8000_0000_0000_0000 && b == 0)),
        f64_bits_eq(0, 0x8000_0000_0000_0000),
{
    assert((a / 0x10_0000_0000_0000) % 0x800 == 0x7ff && a % 0x10_0000_0000_0000 != 0 <==> ((
    0x7ff0_0000_0000_0000 < a && a < 0x8000_0000_0000_0000) || 0xfff0_0000_0000_0000 < a))
        by (bit_vector);
    assert(a % 0x8000_0000_0000_0000 == 0 <==> (a == 0 || a == 0x8000_0000_0000_0000))
        by (bit_vector);
    assert(b % 0x8000_0000_0000_0000 == 0 <==> (b == 0 || b == 0x8000_0000_0000_0000))
        by (bit_vector);
    assert(((0x8000_0000_0000_0000u64 / 0x10_0000_0000_0000) % 0x800 == 0x7ff
        && 0x8000_0000_0000_0000u64 % 0x10_0000_0000_0000 != 0) == false) by (bit_vector);
}

/// A number for each kind of message, in declaration order.
pub open spec fn message_kind(m: Message) -> int {
    match m {
        Message::Bind { .. } => 0,
        Message::Welcome { .. } => 1,
        Message::List {  } => 2,
        Message::Nameplates { .. } => 3,
        Message::Allocate {  } => 4,
        Message::Allocated { .. } => 5,
        Message::Claim { .. } => 6,
        Message::Claimed { .. } => 7,
        Message::Release { .. } => 8,
        Message::Released {  } => 9,
        Message::Open { .. } => 10,
        Message::Add { .. } => 11,
        Message::Message { .. } => 12,
        Message::Close { .. } => 13,
        Message::Closed {  } => 14,
        Message::Ack {  } => 15,
        Message::Ping { .. } => 16,
        Message::Pong { .. } => 17,
    }
}

/// The text a message carries, field by field in declaration order; a list
/// of nameplates contributes each nameplate's id.
pub open spec fn message_texts(m: Message) -> Seq<Seq<char>> {
    match m {
        Message::Bind { appid, side } => seq![appid@, side@],
        Message::Welcome { welcome, .. } => seq![welcome.motd@],
        Message::Nameplates { nameplates } => Seq::new(
            nameplates@.len(),
            |i: int| nameplates@[i].id@,
        ),
        Message::Allocated { nameplate } => seq![nameplate@],
        Message::Claim { nameplate } => seq![nameplate@],
        Message::Claimed { mailbox } => seq![mailbox@],
        Message::Release { nameplate } => seq![nameplate@],
        Message::Open { mailbox } => seq![mailbox@],
        Message::Add { body, .. } => seq![body@],
        Message::Message { side, body, id, .. } => seq![side@, body@, id@],
        Message::Close { mailbox, mood } => seq![mailbox@, mood@],
        _ => Seq::empty(),
    }
}

/// A phase as two numbers: which phase, and an application phase's number.
pub open spec fn phase_numbers(p: Phase) -> Seq<int> {
    match p {
        Phase::PakePhase => seq![0, 0],
        Phase::VersionPhase => seq![1, 0],
        Phase::ApplicationPhase(n) => seq![2, n as int],
    }
}

/// The whole numbers a message carries: its phase, or its ping or pong.
pub open spec fn message_numbers(m: Message) -> Seq<int> {
    match m {
        Message::Add { phase, .. } => phase_numbers(phase),
        Message::Message { phase, .. } => phase_numbers(phase),
        Message::Ping { ping } => seq![ping as int],
        Message::Pong { pong } => seq![pong as int],
        _ => Seq::empty(),
    }
}

/// Two messages are equal exactly when they are of the same kind and carry
/// the same text and the same whole numbers, and, for two welcomes, the
/// timestamps are equal as floats.
pub proof fn lemma_message_eq_is_fieldwise(a: Message, b: Message)
    ensures
        message_eq(a, b) <==> {
            &&& message_kind(a) == message_kind(b)
            &&& message_texts(a) == message_texts(b)
            &&& message_numbers(a) == message_numbers(b)
            &&& (a matches Message::Welcome { server_tx: x, .. } ==> b matches Message::Welcome {
                server_tx: y,
                ..
            } && f64_bits_eq(x, y))
        },
{
    lemma_phase_numbers_injective();
    match (a, b) {
        (Message::Nameplates { nameplates: x }, Message::Nameplates { nameplates: y }) => {
            let tx = message_texts(a);
            let ty = message_texts(b);
            if nameplates_eq_spec(x@, y@) {
                assert(tx =~= ty);
            }
            if tx == ty {
                assert forall|i: int| 0 <= i < x@.len() implies (#[trigger] x@[i]).id@
                    == y@[i].id@ by {
                    assert(tx[i] == ty[i]);
                }
            }
        },
        (Message::Bind { .. }, Message::Bind { .. }) => {
            let tx = message_texts(a);
            let ty = message_texts(b);
            if tx == ty {
                assert(tx[0] == ty[0] && tx[1] == ty[1]);
            }
        },
        (Message::Message { .. }, Message::Message { .. }) => {
            let tx = message_texts(a);
            let ty = message_texts(b);
            if tx == ty {
                assert(tx[0] == ty[0] && tx[1] == ty[1] && tx[2] == ty[2]);
            }
        },
        (Message::Close { .. }, Message::Close { .. }) => {
            let tx = message_texts(a);
            let ty = message_texts(b);
            if tx == ty {
                assert(tx[0] == ty[0] && tx[1] == ty[1]);
            }
        },
        (Message::Ping { .. }, Message::Ping { .. }) => {
            if message_numbers(a) == message_numbers(b) {
                assert(message_numbers(a)[0] == message_numbers(b)[0]);
            }
        },
        (Message::Pong { .. }, Message::Pong { .. }) => {
            if message_numbers(a) == message_numbers(b) {
                assert(message_numbers(a)[0] == message_numbers(b)[0]);
            }
        },
        _ => {
            let tx = message_texts(a);
            let ty = message_texts(b);
            if tx == ty && tx.len() > 0 {
                assert(tx[0] == ty[0]);
            }
        },
    }
}

/// Distinct phases are described by distinct numbers.
pub proof fn lemma_phase_numbers_injective()
    ensures
        forall|p: Phase, q: Phase| #[trigger] phase_numbers(p) == #[trigger] phase_numbers(q) ==> p == q,
{
    assert forall|p: Phase, q: Phase| #[trigger] phase_numbers(p) == #[trigger] phase_numbers(q) implies p == q by {
        assert(phase_numbers(p)[0] == phase_numbers(q)[0]);
        assert(phase_numbers(p)[1] == phase_numbers(q)[1]);
    }
}

/// Float equality on bit patterns.
fn f64_bits_equal(a: u64, b: u64) -> (r: bool)
    ensures
        r == f64_bits_eq(a, b),
{
    let a_nan = (a / 0x10_0000_0000_0000) % 0x800 == 0x7ff && a % 0x10_0000_0000_0000 != 0;
    let b_nan = (b / 0x10_0000_0000_0000) % 0x800 == 0x7ff && b % 0x10_0000_0000_0000 != 0;
    let zeros = a % 0x8000_0000_0000_0000 == 0 && b % 0x8000_0000_0000_0000 == 0;
    !a_nan && !b_nan && (a == b || zeros)
}

fn nameplates_equal(a: &Vec<Nameplate>, b: &Vec<Nameplate>) -> (r: bool)
    ensures
        r == nameplates_eq_spec(a@, b@),
{
    if a.len() != b.len() {
        return false;
    }
    let mut i: usize = 0;
    while i < a.len()
        invariant
            a.len() == b.len(),
            i <= a.len(),
            forall|j: int| 0 <= j < i ==> (#[trigger] a@[j]).id@ == b@[j].id@,
        decreases a.len() - i,
    {
        if a[i].id != b[i].id {
            return false;
        }
        i = i + 1;
    }
    true
}

impl PartialEq for Message {
    fn eq(&self, other: &Message) -> (r: bool) {
        match (self, other) {
            (Message::Bind { appid: x1, side: x2 }, Message::Bind { appid: y1, side: y2 }) => *x1
                == *y1 && *x2 == *y2,
            (
                Message::Welcome { server_tx: x1, welcome: x2 },
                Message::Welcome { server_tx: y1, welcome: y2 },
            ) => f64_bits_equal(*x1, *y1) && x2.motd == y2.motd,
            (Message::List {  }, Message::List {  }) => true,
            (Message::Nameplates { nameplates: x }, Message::Nameplates { nameplates: y }) =>
                nameplates_equal(x, y),
            (Message::Allocate {  }, Message::Allocate {  }) => true,
            (Message::Allocated { nameplate: x }, Message::Allocated { nameplate: y }) => *x
                == *y,
            (Message::Claim { nameplate: x }, Message::Claim { nameplate: y }) => *x == *y,
            (Message::Claimed { mailbox: x }, Message::Claimed { mailbox: y }) => *x == *y,
            (Message::Release { nameplate: x }, Message::Release { nameplate: y }) => *x == *y,
            (Message::Released {  }, Message::Released {  }) => true,
            (Message::Open { mailbox: x }, Message::Open { mailbox: y }) => *x == *y,
            (Message::Add { phase: x1, body: x2 }, Message::Add { phase: y1, body: y2 }) => *x1
                == *y1 && *x2 == *y2,
            (
                Message::Message { side: x1, phase: x2, body: x3, id: x4 },
                Message::Message { side: y1, phase: y2, body: y3, id: y4 },
            ) => *x1 == *y1 && *x2 == *y2 && *x3 == *y3 && *x4 == *y4,
            (
                Message::Close { mailbox: x1, mood: x2 },
                Message::Close { mailbox: y1, mood: y2 },
            ) => *x1 == *y1 && *x2 == *y2,
            (Message::Closed {  }, Message::Closed {  }) => true,
            (Message::Ack {  }, Message::Ack {  }) => true,
            (Message::Ping { ping: x }, Message::Ping { ping: y }) => *x == *y,
            (Message::Pong { pong: x }, Message::Pong { pong: y }) => *x == *y,
            _ => false,
        }
    }
}

impl PartialEqSpecImpl for Message {
    open spec fn obeys_eq_spec() -> bool {
        true
    }

    open spec fn eq_spec(&self, other: &Message) -> bool {
        message_eq(*self, *other)
    }
}

} // verus!
