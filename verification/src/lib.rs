//! Verified core of a magic-wormhole client: the mailbox-server message
//! vocabulary, the peer-message decisions a receiver makes, and the client
//! session state that code allocation and entry drive.

pub mod decimal;
pub mod server_messages;
pub mod message_eq;
pub mod peer;
pub mod session;
pub mod verification_code;
pub mod utf8_text;
pub mod greeting;
