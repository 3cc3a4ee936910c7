//! Peer-to-peer networking and trust core of a clipboard synchronisation
//! daemon: framing and message codec, challenge/response authentication,
//! handshake and steady-state connection machines, the connection manager
//! with its peer registry, service discovery records and the trust store.
//!
//! Everything here works on plain values. Sockets, timers, files and the
//! multicast DNS daemon are driven by the embedding program, which feeds
//! events in and carries the returned actions out.

pub mod cli;
pub mod clipboard;
pub mod config;
pub mod config_tree;
pub mod connection;
pub mod discovery;
pub mod duration_serde;
pub mod endian;
pub mod ident;
pub mod instance;
pub mod net;
pub mod network;
pub mod peer;
pub mod protocol;
pub mod simple_config_loader;
pub mod text;
pub mod trust;

pub use crate::protocol::decode_message_length;

use crate::protocol::{body_bytes, frame_bytes, parse_body, Message, MessageView, ProtocolError};
use vstd::prelude::*;

verus! {

/// A clipboard edit: the text, and the wall-clock time at which the edit
/// was seen. The time only breaks ties where edits are shown.
#[derive(Debug, Clone, PartialEq, Eq)]
pub struct ClipboardMessage {
    pub content: String,
    pub timestamp: u64,
}

impl ClipboardMessage {
    /// The wire message that carries the edit.
    pub open spec fn message(&self) -> MessageView {
        MessageView::Clipboard { content: self.content@, timestamp: self.timestamp }
    }

    /// The edit of `content` seen at `timestamp`.
    pub fn new(content: String, timestamp: u64) -> (msg: ClipboardMessage)
        ensures
            msg.content@ == content@,
            msg.timestamp == timestamp,
    {
        ClipboardMessage { content, timestamp }
    }

    /// The wire message that carries the edit.
    pub fn to_message(&self) -> (m: Message)
        ensures
            m@ == self.message(),
    {
        Message::Clipboard { content: self.content.clone(), timestamp: self.timestamp }
    }

    /// The body that carries the edit.
    pub fn to_bytes(&self) -> (out: Vec<u8>)
        ensures
            out@ == body_bytes(self.message()),
    {
        self.to_message().to_bytes()
    }

    /// Reads an edit from a body. A body that carries another message is
    /// refused like one that carries none.
    pub fn from_bytes(bytes: &[u8]) -> (r: Result<ClipboardMessage, ProtocolError>)
        ensures
            match parse_body(bytes@) {
                Some(MessageView::Clipboard { content, timestamp }) => r matches Ok(msg)
                    && msg.content@ == content && msg.timestamp == timestamp,
                _ => r == Err::<ClipboardMessage, ProtocolError>(ProtocolError::InvalidFormat),
            },
    {
        match Message::from_bytes(bytes) {
            Ok(Message::Clipboard { content, timestamp }) => Ok(
                ClipboardMessage { content, timestamp },
            ),
            Ok(_) => Err(ProtocolError::InvalidFormat),
            Err(_) => Err(ProtocolError::InvalidFormat),
        }
    }
}

/// The frame that carries a clipboard edit.
pub fn encode_message(msg: &ClipboardMessage) -> (out: Vec<u8>)
    requires
        body_bytes(msg.message()).len() <= u32::MAX,
    ensures
        out@ == frame_bytes(body_bytes(msg.message())),
{
    msg.to_message().encode()
}

} // verus!
