//! The messages a client and the mailbox server exchange.
//!
//! Client only sends: bind, list, allocate, claim, release, open, add, close,
//! ping. The server sends: welcome, nameplates, allocated, claimed, released,
//! message, closed, ack, pong, error.
use vstd::prelude::*;
use crate::decimal::{
    decimal, decimal_string, digits, is_digit, lemma_decimal_first_char, lemma_decimal_injective,
    lemma_digits_read_back, lemma_digits_shape, numeral_value,
};

verus! {

/// A nameplate the server lists.
#[derive(Debug, Clone, PartialEq, Eq)]
pub struct Nameplate {
    pub id: String,
}

/// The server's greeting.
#[derive(Debug, Clone, PartialEq, Eq)]
pub struct WelcomeMsg {
    pub motd: String,
}

/// The phase of a mailbox message.
#[derive(Debug, Clone, Copy, PartialEq, Eq, Structural)]
pub enum Phase {
    PakePhase,
    VersionPhase,
    ApplicationPhase(i32),
}

/// A message between client and mailbox server.
///
/// `Welcome::server_tx` is the server's timestamp, a 64-bit float on the wire;
/// it is held here as the float's bit pattern, and `==` compares it as the
/// float (see `message_eq`).
#[derive(Debug, Clone)]
pub enum Message {
    Bind { appid: String, side: String },
    Welcome { server_tx: u64, welcome: WelcomeMsg },
    List {},
    Nameplates { nameplates: Vec<Nameplate> },
    Allocate {},
    Allocated { nameplate: String },
    Claim { nameplate: String },
    Claimed { mailbox: String },
    Release { nameplate: String },
    Released {},
    Open { mailbox: String },
    Add { phase: Phase, body: String },
    Message { side: String, phase: Phase, body: String, id: String },
    Close { mailbox: String, mood: String },
    Closed {},
    Ack {},
    Ping { ping: u32 },
    Pong { pong: u32 },
}

/// The name a phase goes by: `pake`, `version`, or the decimal numeral of an
/// application phase's number.
pub open spec fn phase_name_spec(phase: Phase) -> Seq<char> {
    match phase {
        Phase::PakePhase => seq!['p', 'a', 'k', 'e'],
        Phase::VersionPhase => seq!['v', 'e', 'r', 's', 'i', 'o', 'n'],
        Phase::ApplicationPhase(n) => decimal(n as int),
    }
}

/// Distinct phases go by distinct names, so a mailbox can tell them apart by
/// name alone.
pub proof fn lemma_phase_names_distinct(p: Phase, q: Phase)
    requires
        p != q,
    ensures
        phase_name_spec(p) != phase_name_spec(q),
{
    if let Phase::ApplicationPhase(n) = p {
        lemma_decimal_first_char(n as int);
        if let Phase::ApplicationPhase(m) = q {
            if phase_name_spec(p) == phase_name_spec(q) {
                lemma_decimal_injective(n as int, m as int);
            }
        } else {
            assert(phase_name_spec(p)[0] != phase_name_spec(q)[0]);
        }
    } else if let Phase::ApplicationPhase(m) = q {
        lemma_decimal_first_char(m as int);
        assert(phase_name_spec(p)[0] != phase_name_spec(q)[0]);
    } else {
        assert(phase_name_spec(p).len() != phase_name_spec(q).len());
    }
}

/// The name of an application phase is its number written in decimal: read
/// back as a numeral it gives the number (after a `-` for a negative one),
/// it is made of digits, and it has no superfluous leading zero. The two
/// other phases are named `pake` and `version`.
pub proof fn lemma_phase_name_reads_back(n: i32)
    ensures
        phase_name_spec(Phase::PakePhase) == seq!['p', 'a', 'k', 'e'],
        phase_name_spec(Phase::VersionPhase) == seq!['v', 'e', 'r', 's', 'i', 'o', 'n'],
        ({
            let s = phase_name_spec(Phase::ApplicationPhase(n));
            let mag = if n < 0 { s.drop_first() } else { s };
            &&& (n < 0 <==> (s.len() >= 1 && s[0] == '-'))
            &&& mag.len() >= 1
            &&& numeral_value(mag) == if n < 0 { -n } else { n as int }
            &&& forall|i: int| 0 <= i < mag.len() ==> is_digit(#[trigger] mag[i])
            &&& (mag.len() > 1 ==> mag[0] != '0')
        }),
{
    let s = phase_name_spec(Phase::ApplicationPhase(n));
    let m: nat = if n < 0 { (-n) as nat } else { n as nat };
    lemma_digits_shape(m);
    lemma_digits_read_back(m);
    if n < 0 {
        assert(s.drop_first() =~= digits(m));
    } else {
        assert(is_digit(digits(m)[0]));
    }
}

pub fn bind(appid: &str, side: &str) -> (m: Message)
    ensures
        m matches Message::Bind { appid: a, side: s } && a@ == appid@ && s@ == side@,
{
    Message::Bind { appid: String::from_str(appid), side: String::from_str(side) }
}

pub fn list() -> (m: Message)
    ensures
        m is List,
{
    Message::List {  }
}

pub fn allocate() -> (m: Message)
    ensures
        m is Allocate,
{
    Message::Allocate {  }
}

pub fn claim(nameplate: &str) -> (m: Message)
    ensures
        m matches Message::Claim { nameplate: n } && n@ == nameplate@,
{
    Message::Claim { nameplate: String::from_str(nameplate) }
}

pub fn release(nameplate: &str) -> (m: Message)
    ensures
        m matches Message::Release { nameplate: n } && n@ == nameplate@,
{
    Message::Release { nameplate: String::from_str(nameplate) }
}

pub fn open(mailbox: &str) -> (m: Message)
    ensures
        m matches Message::Open { mailbox: b } && b@ == mailbox@,
{
    Message::Open { mailbox: String::from_str(mailbox) }
}

/// The name of `phase` as it is written in a mailbox.
pub fn phase_name(phase: Phase) -> (name: String)
    ensures
        name@ == phase_name_spec(phase),
{
    match phase {
        Phase::PakePhase => {
            proof { reveal_strlit("pake"); }
            String::from_str("pake")
        },
        Phase::VersionPhase => {
            proof { reveal_strlit("version"); }
            String::from_str("version")
        },
        Phase::ApplicationPhase(n) => decimal_string(n),
    }
}

pub fn add(phase: Phase, body: &str) -> (m: Message)
    ensures
        m matches Message::Add { phase: p, body: b } && p == phase && b@ == body@,
{
    Message::Add { phase: phase, body: String::from_str(body) }
}

pub fn close(mailbox: &str, mood: &str) -> (m: Message)
    ensures
        m matches Message::Close { mailbox: b, mood: d } && b@ == mailbox@ && d@ == mood@,
{
    Message::Close { mailbox: String::from_str(mailbox), mood: String::from_str(mood) }
}

pub fn ping(nonce: u32) -> (m: Message)
    ensures
        m matches Message::Ping { ping: p } && p == nonce,
{
    Message::Ping { ping: nonce }
}

/// The server's welcome; `timestamp` is the bit pattern of the server's
/// 64-bit float clock reading.
pub fn welcome(motd: &str, timestamp: u64) -> (m: Message)
    ensures
        m matches Message::Welcome { server_tx: t, welcome: w } && t == timestamp && w.motd@
            == motd@,
{
    Message::Welcome { welcome: WelcomeMsg { motd: String::from_str(motd) }, server_tx: timestamp }
}

} // verus!
