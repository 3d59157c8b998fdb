//! Messages between the two peers of a wormhole, and what a receiver does
//! with the one it gets.
use vstd::prelude::*;

verus! {

/// What a sender offers.
///
/// A file or directory offer is acknowledged without its details being read,
/// so they are not held here.
#[derive(Debug, Clone, PartialEq, Eq)]
pub enum OfferType {
    Message(String),
    File,
    Directory,
}

/// A receiver's acknowledgement of an offer.
#[derive(Debug, Clone, PartialEq, Eq)]
pub enum AnswerType {
    MessageAck(String),
    FileAck(String),
}

/// A message from the other peer. A transit message starts a file transfer;
/// the connection hints it carries are used only by the transfer itself.
#[derive(Debug, Clone, PartialEq, Eq)]
pub enum PeerMessage {
    Offer(OfferType),
    Answer(AnswerType),
    Error(String),
    Transit,
}

/// The acknowledgement text a receiver sends back.
pub open spec fn ok_text() -> Seq<char> {
    seq!['o', 'k']
}

/// A text-message offer.
pub fn message(msg: &str) -> (m: PeerMessage)
    ensures
        m matches PeerMessage::Offer(OfferType::Message(t)) && t@ == msg@,
{
    PeerMessage::Offer(OfferType::Message(String::from_str(msg)))
}

/// The acknowledgement of a text message.
pub fn message_ack(msg: &str) -> (m: PeerMessage)
    ensures
        m matches PeerMessage::Answer(AnswerType::MessageAck(t)) && t@ == msg@,
{
    PeerMessage::Answer(AnswerType::MessageAck(String::from_str(msg)))
}

/// The acknowledgement of a file or directory offer.
pub fn file_ack(msg: &str) -> (m: PeerMessage)
    ensures
        m matches PeerMessage::Answer(AnswerType::FileAck(t)) && t@ == msg@,
{
    PeerMessage::Answer(AnswerType::FileAck(String::from_str(msg)))
}

/// What a receiver does once the peer's message has arrived: the reply it
/// sends (if any), whether it goes on to fetch a file over transit, and the
/// text it hands to its caller.
pub struct ReceiveStep {
    pub reply: Option<PeerMessage>,
    pub fetch_file: bool,
    pub text: String,
}

/// The receiver's answer to the peer's message.
///
/// A text offer is acknowledged with `ok` and its text returned; a file or
/// directory offer is acknowledged with `ok` and yields no text; an error
/// yields no text; a transit message starts the file transfer. A receiver is
/// never sent an answer (the caller refuses one before asking).
pub fn receive_step(peer: &PeerMessage) -> (step: ReceiveStep)
    requires
        !(peer is Answer),
    ensures
        match *peer {
            PeerMessage::Offer(OfferType::Message(t)) => {
                &&& step.reply matches Some(PeerMessage::Answer(AnswerType::MessageAck(a)))
                &&& a@ == ok_text()
                &&& !step.fetch_file
                &&& step.text@ == t@
            },
            PeerMessage::Offer(_) => {
                &&& step.reply matches Some(PeerMessage::Answer(AnswerType::FileAck(a)))
                &&& a@ == ok_text()
                &&& !step.fetch_file
                &&& step.text@ == Seq::<char>::empty()
            },
            PeerMessage::Transit => {
                &&& step.reply is None
                &&& step.fetch_file
                &&& step.text@ == Seq::<char>::empty()
            },
            _ => {
                &&& step.reply is None
                &&& !step.fetch_file
                &&& step.text@ == Seq::<char>::empty()
            },
        },
{
    proof {
        reveal_strlit("ok");
    }
    match peer {
        PeerMessage::Offer(offer) => match offer {
            OfferType::Message(msg) => ReceiveStep {
                reply: Some(message_ack("ok")),
                fetch_file: false,
                text: msg.clone(),
            },
            OfferType::File => ReceiveStep {
                reply: Some(file_ack("ok")),
                fetch_file: false,
                text: String::new(),
            },
            OfferType::Directory => ReceiveStep {
                reply: Some(file_ack("ok")),
                fetch_file: false,
                text: String::new(),
            },
        },
        PeerMessage::Error(_) => ReceiveStep { reply: None, fetch_file: false, text: String::new() },
        PeerMessage::Transit => ReceiveStep { reply: None, fetch_file: true, text: String::new() },
        PeerMessage::Answer(_) => ReceiveStep { reply: None, fetch_file: false, text: String::new() },
    }
}

} // verus!
