//! Wire-protocol message types.
//!
//! Text is carried as UTF-8 bytes throughout: the codec frames and checks
//! bytes, and the runner turns bytes into whatever its socket library wants.

use vstd::prelude::*;

verus! {

/// Outbound events a client can produce.  "Send text T" is the only
/// outbound variant in scope.
pub enum ClientMessage {
    SendMessage(Vec<u8>),
}

/// One recognized chat event decoded from an inbound frame.
pub struct Message {
    pub username: Vec<u8>,
    pub message: Vec<u8>,
    pub timestamp: Vec<u8>,
}

/// Mathematical value of a [`Message`]: its three fields as byte sequences.
pub struct MessageView {
    pub username: Seq<u8>,
    pub message: Seq<u8>,
    pub timestamp: Seq<u8>,
}

impl View for Message {
    type V = MessageView;

    open spec fn view(&self) -> MessageView {
        MessageView {
            username: self.username@,
            message: self.message@,
            timestamp: self.timestamp@,
        }
    }
}

/// Inbound server events the client recognizes.  The codec's verdict on a
/// frame carrying such an event hands the payload [`Message`] out directly;
/// any other well-formed event tag is skipped.
pub enum ServerMessage {
    Message(Message),
}

} // verus!
