//! Wire protocol: the five messages, their body encoding, the
//! length-prefixed frame, and the challenge/response primitive.
//!
//! A frame is a `u32` big-endian length followed by exactly that many body
//! bytes. A body starts with a one-byte tag naming the variant:
//!
//! | tag | variant     | rest of the body                                  |
//! |-----|-------------|---------------------------------------------------|
//! | 0   | `Hello`     | id, 16 bytes big-endian; name, UTF-8 to the end   |
//! | 1   | `Auth`      | challenge, 32 bytes; response, 32 bytes           |
//! | 2   | `Clipboard` | timestamp, 8 bytes big-endian; content, UTF-8     |
//! | 3   | `Ping`      | nothing                                           |
//! | 4   | `Pong`      | nothing                                           |

use crate::endian::{
    be_bytes, be_value, lemma_be_bytes_len, lemma_be_bytes_of_value, lemma_be_value_bound,
    lemma_be_value_of_bytes, lemma_pow256_values, push_be, read_be,
};
use hmac::{Hmac, Mac};
use sha2::Sha256;
use vstd::prelude::*;
use vstd::utf8::*;

verus! {

/// Largest body length a reader accepts unless told otherwise: 16 MiB.
pub const MAX_FRAME_LEN: u32 = 16_777_216;

pub const TAG_HELLO: u8 = 0;

pub const TAG_AUTH: u8 = 1;

pub const TAG_CLIPBOARD: u8 = 2;

pub const TAG_PING: u8 = 3;

pub const TAG_PONG: u8 = 4;

#[derive(Debug, Clone, Copy, PartialEq, Eq, Structural)]
pub enum ProtocolError {
    /// A frame that is truncated, or whose declared length is over the cap.
    InvalidLength,
    /// A body that is no encoding of any message.
    InvalidFormat,
    /// The handshake saw a wrong proof or a message out of order.
    AuthFailed,
    /// The transport failed or reached its end.
    Io,
}

impl ProtocolError {
    pub fn to_string(&self) -> (s: String)
        ensures
            s@ == match *self {
                ProtocolError::InvalidLength => "invalid message length"@,
                ProtocolError::InvalidFormat => "invalid message format"@,
                ProtocolError::AuthFailed => "authentication failed"@,
                ProtocolError::Io => "io error"@,
            },
    {
        match self {
            ProtocolError::InvalidLength => "invalid message length".to_string(),
            ProtocolError::InvalidFormat => "invalid message format".to_string(),
            ProtocolError::AuthFailed => "authentication failed".to_string(),
            ProtocolError::Io => "io error".to_string(),
        }
    }
}

#[derive(Debug, Clone, PartialEq, Eq)]
pub enum Message {
    /// Identity announcement, exchanged once per connection.
    Hello { id: u128, name: String },
    /// A fresh challenge (response zeroed) or the answer to one (challenge
    /// zeroed).
    Auth { challenge: [u8; 32], response: [u8; 32] },
    /// A clipboard edit.
    Clipboard { content: String, timestamp: u64 },
    Ping,
    Pong,
}

/// What a [`Message`] is, in mathematical terms.
pub ghost enum MessageView {
    Hello { id: u128, name: Seq<char> },
    Auth { challenge: Seq<u8>, response: Seq<u8> },
    Clipboard { content: Seq<char>, timestamp: u64 },
    Ping,
    Pong,
}

impl MessageView {
    /// Both fields of an `Auth` are 32 bytes long.
    pub open spec fn wf(self) -> bool {
        self matches MessageView::Auth { challenge, response } ==> challenge.len() == 32
            && response.len() == 32
    }
}

impl View for Message {
    type V = MessageView;

    open spec fn view(&self) -> MessageView {
        match *self {
            Message::Hello { id, name } => MessageView::Hello { id, name: name@ },
            Message::Auth { challenge, response } => MessageView::Auth {
                challenge: challenge@,
                response: response@,
            },
            Message::Clipboard { content, timestamp } => MessageView::Clipboard {
                content: content@,
                timestamp,
            },
            Message::Ping => MessageView::Ping,
            Message::Pong => MessageView::Pong,
        }
    }
}

/// The body that encodes `m`.
pub open spec fn body_bytes(m: MessageView) -> Seq<u8> {
    match m {
        MessageView::Hello { id, name } => seq![TAG_HELLO] + be_bytes(id as nat, 16) + encode_utf8(
            name,
        ),
        MessageView::Auth { challenge, response } => seq![TAG_AUTH] + challenge + response,
        MessageView::Clipboard { content, timestamp } => seq![TAG_CLIPBOARD] + be_bytes(
            timestamp as nat,
            8,
        ) + encode_utf8(content),
        MessageView::Ping => seq![TAG_PING],
        MessageView::Pong => seq![TAG_PONG],
    }
}

/// The message that `body` encodes, if it encodes one.
pub open spec fn parse_body(body: Seq<u8>) -> Option<MessageView> {
    if body.len() == 0 {
        None
    } else if body[0] == TAG_HELLO {
        if body.len() >= 17 && valid_utf8(body.skip(17)) {
            Some(
                MessageView::Hello {
                    id: be_value(body.subrange(1, 17)) as u128,
                    name: decode_utf8(body.skip(17)),
                },
            )
        } else {
            None
        }
    } else if body[0] == TAG_AUTH {
        if body.len() == 65 {
            Some(
                MessageView::Auth {
                    challenge: body.subrange(1, 33),
                    response: body.subrange(33, 65),
                },
            )
        } else {
            None
        }
    } else if body[0] == TAG_CLIPBOARD {
        if body.len() >= 9 && valid_utf8(body.skip(9)) {
            Some(
                MessageView::Clipboard {
                    content: decode_utf8(body.skip(9)),
                    timestamp: be_value(body.subrange(1, 9)) as u64,
                },
            )
        } else {
            None
        }
    } else if body[0] == TAG_PING {
        if body.len() == 1 {
            Some(MessageView::Ping)
        } else {
            None
        }
    } else if body[0] == TAG_PONG {
        if body.len() == 1 {
            Some(MessageView::Pong)
        } else {
            None
        }
    } else {
        None
    }
}

/// A body with its length in front.
pub open spec fn frame_bytes(body: Seq<u8>) -> Seq<u8> {
    be_bytes(body.len(), 4) + body
}

/// The length that the first four bytes of `data` declare.
pub open spec fn declared_len(data: Seq<u8>) -> nat {
    be_value(data.subrange(0, 4))
}

/// The body of the frame at the start of `data`, for a reader that accepts
/// bodies of up to `max_len` bytes. Bytes after the frame are not looked at.
pub open spec fn unframe(data: Seq<u8>, max_len: nat) -> Result<Seq<u8>, ProtocolError> {
    if data.len() < 4 {
        Err(ProtocolError::InvalidLength)
    } else if declared_len(data) > max_len {
        Err(ProtocolError::InvalidLength)
    } else if data.len() < 4 + declared_len(data) {
        Err(ProtocolError::InvalidLength)
    } else {
        Ok(data.subrange(4, 4 + declared_len(data) as int))
    }
}

/// What a reader with cap `max_len` makes of `data`.
pub open spec fn decode_frame(data: Seq<u8>, max_len: nat) -> Result<MessageView, ProtocolError> {
    match unframe(data, max_len) {
        Err(e) => Err(e),
        Ok(body) => match parse_body(body) {
            Some(m) => Ok(m),
            None => Err(ProtocolError::InvalidFormat),
        },
    }
}

pub open spec fn view_result(r: Result<Message, ProtocolError>) -> Result<
    MessageView,
    ProtocolError,
> {
    match r {
        Ok(m) => Ok(m@),
        Err(e) => Err(e),
    }
}

/// Every message is recovered from its body.
pub proof fn lemma_parse_body_of_bytes(m: MessageView)
    requires
        m.wf(),
    ensures
        parse_body(body_bytes(m)) == Some(m),
{
    broadcast use {encode_utf8_valid_utf8, encode_utf8_decode_utf8};

    let b = body_bytes(m);
    match m {
        MessageView::Hello { id, name } => {
            lemma_be_bytes_len(id as nat, 16);
            lemma_pow256_values();
            lemma_be_value_of_bytes(id as nat, 16);
            assert(b.subrange(1, 17) =~= be_bytes(id as nat, 16));
            assert(b.skip(17) =~= encode_utf8(name));
        },
        MessageView::Auth { challenge, response } => {
            assert(b.subrange(1, 33) =~= challenge);
            assert(b.subrange(33, 65) =~= response);
        },
        MessageView::Clipboard { content, timestamp } => {
            lemma_be_bytes_len(timestamp as nat, 8);
            lemma_pow256_values();
            lemma_be_value_of_bytes(timestamp as nat, 8);
            assert(b.subrange(1, 9) =~= be_bytes(timestamp as nat, 8));
            assert(b.skip(9) =~= encode_utf8(content));
        },
        MessageView::Ping => {},
        MessageView::Pong => {},
    }
}

/// A body that parses is the one encoding of the message it parses to.
pub proof fn lemma_bytes_of_parse_body(body: Seq<u8>)
    requires
        parse_body(body) is Some,
    ensures
        parse_body(body)->0.wf(),
        body_bytes(parse_body(body)->0) == body,
{
    broadcast use decode_utf8_encode_utf8;

    let m = parse_body(body)->0;
    match m {
        MessageView::Hello { id, name } => {
            let digits = body.subrange(1, 17);
            lemma_be_bytes_of_value(digits);
            lemma_be_value_bound(digits);
            lemma_pow256_values();
        },
        MessageView::Clipboard { content, timestamp } => {
            let digits = body.subrange(1, 9);
            lemma_be_bytes_of_value(digits);
            lemma_be_value_bound(digits);
            lemma_pow256_values();
        },
        _ => {},
    }
}

/// A reader whose cap admits the body recovers every message from its
/// frame, whatever bytes follow the frame.
pub proof fn lemma_decode_frame_of_encoding(m: MessageView, max_len: nat, rest: Seq<u8>)
    requires
        m.wf(),
        body_bytes(m).len() <= max_len,
        body_bytes(m).len() <= u32::MAX,
    ensures
        decode_frame(frame_bytes(body_bytes(m)) + rest, max_len) == Ok::<
            MessageView,
            ProtocolError,
        >(m),
{
    let body = body_bytes(m);
    let data = frame_bytes(body) + rest;
    lemma_be_bytes_len(body.len(), 4);
    lemma_pow256_values();
    lemma_be_value_of_bytes(body.len(), 4);
    assert(data.subrange(0, 4) =~= be_bytes(body.len(), 4));
    assert(data.subrange(4, 4 + body.len() as int) =~= body);
    lemma_parse_body_of_bytes(m);
}

/// A frame that declares more than the cap is refused on its first four
/// bytes alone, whatever follows them.
pub proof fn lemma_oversized_frame_rejected(data: Seq<u8>, max_len: nat)
    requires
        data.len() >= 4,
        declared_len(data) > max_len,
    ensures
        decode_frame(data, max_len) == Err::<MessageView, ProtocolError>(
            ProtocolError::InvalidLength,
        ),
{
}

fn append_bytes(out: &mut Vec<u8>, data: &[u8])
    ensures
        final(out)@ == old(out)@ + data@,
{
    let n: usize = data.len();
    let mut i: usize = 0;
    while i < n
        invariant
            i <= n,
            n == data@.len(),
            out@ == old(out)@ + data@.take(i as int),
        decreases n - i,
    {
        out.push(data[i]);
        i = i + 1;
    }
}

fn array32_at(data: &[u8], start: usize) -> (out: [u8; 32])
    requires
        start + 32 <= data@.len(),
    ensures
        out@ == data@.subrange(start as int, start + 32),
{
    let total: usize = data.len();
    let mut out: [u8; 32] = [0u8; 32];
    let mut i: usize = 0;
    while i < 32
        invariant
            i <= 32,
            total == data@.len(),
            start + 32 <= total,
            out@.len() == 32,
            forall|j: int| 0 <= j < i ==> out@[j] == data@[start + j],
        decreases 32 - i,
    {
        out[i] = data[start + i];
        i = i + 1;
    }
    out
}

/// `String::from_utf8` on a copy of `bytes`. Believed, not proved: the
/// result is the text that the bytes encode when they are well-formed
/// UTF-8, and nothing otherwise.
#[verifier::external_body]
fn utf8_to_string(bytes: &[u8]) -> (r: Option<String>)
    ensures
        r is Some <==> valid_utf8(bytes@),
        r matches Some(s) ==> s@ == decode_utf8(bytes@),
{
    String::from_utf8(bytes.to_vec()).ok()
}

impl Message {
    /// Whether the body of this message is at most `max_len` bytes long:
    /// whether a reader with that cap takes the frame.
    pub fn fits(&self, max_len: u32) -> (b: bool)
        ensures
            b == (body_bytes(self@).len() <= max_len),
    {
        match self {
            Message::Hello { id, name } => {
                proof {
                    lemma_be_bytes_len(*id as nat, 16);
                }
                max_len >= 17 && name.as_str().as_bytes().len() <= (max_len - 17) as usize
            },
            Message::Auth { challenge, response } => max_len >= 65,
            Message::Clipboard { content, timestamp } => {
                proof {
                    lemma_be_bytes_len(*timestamp as nat, 8);
                }
                max_len >= 9 && content.as_str().as_bytes().len() <= (max_len - 9) as usize
            },
            Message::Ping => max_len >= 1,
            Message::Pong => max_len >= 1,
        }
    }

    /// Whether the body of this message fits the frame's 32-bit length.
    pub fn can_encode(&self) -> (b: bool)
        ensures
            b == (body_bytes(self@).len() <= u32::MAX),
    {
        self.fits(u32::MAX)
    }

    /// The body of this message, without the length in front.
    pub fn to_bytes(&self) -> (out: Vec<u8>)
        ensures
            out@ == body_bytes(self@),
    {
        let mut out: Vec<u8> = Vec::new();
        match self {
            Message::Hello { id, name } => {
                out.push(TAG_HELLO);
                push_be(&mut out, *id, 16);
                append_bytes(&mut out, name.as_str().as_bytes());
            },
            Message::Auth { challenge, response } => {
                out.push(TAG_AUTH);
                append_bytes(&mut out, challenge.as_slice());
                append_bytes(&mut out, response.as_slice());
            },
            Message::Clipboard { content, timestamp } => {
                out.push(TAG_CLIPBOARD);
                push_be(&mut out, *timestamp as u128, 8);
                append_bytes(&mut out, content.as_str().as_bytes());
            },
            Message::Ping => {
                out.push(TAG_PING);
            },
            Message::Pong => {
                out.push(TAG_PONG);
            },
        }
        out
    }

    /// The frame that carries this message. Every reader whose cap admits
    /// the body decodes the frame to this message.
    pub fn encode(&self) -> (out: Vec<u8>)
        requires
            body_bytes(self@).len() <= u32::MAX,
        ensures
            out@ == frame_bytes(body_bytes(self@)),
            forall|max_len: nat|
                body_bytes(self@).len() <= max_len ==> #[trigger] decode_frame(out@, max_len)
                    == Ok::<MessageView, ProtocolError>(self@),
    {
        let body = self.to_bytes();
        let mut out: Vec<u8> = Vec::new();
        push_be(&mut out, body.len() as u128, 4);
        append_bytes(&mut out, body.as_slice());
        assert forall|max_len: nat|
            body_bytes(self@).len() <= max_len implies #[trigger] decode_frame(out@, max_len)
            == Ok::<MessageView, ProtocolError>(self@) by {
            lemma_decode_frame_of_encoding(self@, max_len, Seq::empty());
        }
        out
    }

    /// Decodes one body.
    pub fn from_bytes(body: &[u8]) -> (r: Result<Message, ProtocolError>)
        ensures
            match parse_body(body@) {
                Some(m) => r matches Ok(x) && x@ == m,
                None => r == Err::<Message, ProtocolError>(ProtocolError::InvalidFormat),
            },
    {
        let n: usize = body.len();
        if n == 0 {
            return Err(ProtocolError::InvalidFormat);
        }
        let tag: u8 = body[0];
        if tag == TAG_HELLO {
            if n < 17 {
                return Err(ProtocolError::InvalidFormat);
            }
            let id: u128 = read_be(body, 1, 16);
            let text = vstd::slice::slice_subrange(body, 17, n);
            match utf8_to_string(text) {
                Some(name) => Ok(Message::Hello { id, name }),
                None => Err(ProtocolError::InvalidFormat),
            }
        } else if tag == TAG_AUTH {
            if n != 65 {
                return Err(ProtocolError::InvalidFormat);
            }
            let challenge = array32_at(body, 1);
            let response = array32_at(body, 33);
            Ok(Message::Auth { challenge, response })
        } else if tag == TAG_CLIPBOARD {
            if n < 9 {
                return Err(ProtocolError::InvalidFormat);
            }
            let stamp: u128 = read_be(body, 1, 8);
            let text = vstd::slice::slice_subrange(body, 9, n);
            match utf8_to_string(text) {
                Some(content) => Ok(Message::Clipboard { content, timestamp: stamp as u64 }),
                None => Err(ProtocolError::InvalidFormat),
            }
        } else if tag == TAG_PING {
            if n == 1 {
                Ok(Message::Ping)
            } else {
                Err(ProtocolError::InvalidFormat)
            }
        } else if tag == TAG_PONG {
            if n == 1 {
                Ok(Message::Pong)
            } else {
                Err(ProtocolError::InvalidFormat)
            }
        } else {
            Err(ProtocolError::InvalidFormat)
        }
    }

    /// Decodes the frame at the start of `data`, accepting bodies of up to
    /// `max_len` bytes.
    pub fn decode_with_limit(data: &[u8], max_len: u32) -> (r: Result<Message, ProtocolError>)
        ensures
            view_result(r) == decode_frame(data@, max_len as nat),
    {
        let n: usize = data.len();
        if n < 4 {
            return Err(ProtocolError::InvalidLength);
        }
        let declared: u128 = read_be(data, 0, 4);
        if declared > max_len as u128 {
            return Err(ProtocolError::InvalidLength);
        }
        if ((n - 4) as u128) < declared {
            return Err(ProtocolError::InvalidLength);
        }
        let len: usize = declared as usize;
        let body = vstd::slice::slice_subrange(data, 4, 4 + len);
        Message::from_bytes(body)
    }

    /// Decodes the frame at the start of `data` under the default cap.
    pub fn decode(data: &[u8]) -> (r: Result<Message, ProtocolError>)
        ensures
            view_result(r) == decode_frame(data@, MAX_FRAME_LEN as nat),
    {
        Message::decode_with_limit(data, MAX_FRAME_LEN)
    }
}

/// The payload of a clipboard frame.
#[derive(Debug, Clone, PartialEq, Eq)]
pub struct ClipboardUpdateMessage {
    pub content: String,
    pub timestamp: u64,
}

impl ClipboardUpdateMessage {
    /// The update of `content` seen at `timestamp`.
    pub fn new(content: String, timestamp: u64) -> (update: ClipboardUpdateMessage)
        ensures
            update.content@ == content@,
            update.timestamp == timestamp,
    {
        ClipboardUpdateMessage { content, timestamp }
    }

    /// The message that carries the update.
    pub fn into_message(self) -> (m: Message)
        ensures
            m@ == (MessageView::Clipboard {
                content: self.content@,
                timestamp: self.timestamp,
            }),
    {
        Message::Clipboard { content: self.content, timestamp: self.timestamp }
    }
}

/// The frame that carries `msg`.
pub fn encode_message(msg: &Message) -> (out: Vec<u8>)
    requires
        body_bytes(msg@).len() <= u32::MAX,
    ensures
        out@ == frame_bytes(body_bytes(msg@)),
        forall|max_len: nat|
            body_bytes(msg@).len() <= max_len ==> #[trigger] decode_frame(out@, max_len) == Ok::<
                MessageView,
                ProtocolError,
            >(msg@),
{
    msg.encode()
}

/// The body length that a frame header declares.
pub fn decode_message_length(bytes: &[u8; 4]) -> (len: u32)
    ensures
        len == be_value(bytes@),
{
    let v: u128 = read_be(bytes.as_slice(), 0, 4);
    proof {
        assert(bytes@.subrange(0, 4) =~= bytes@);
        lemma_be_value_bound(bytes@);
        lemma_pow256_values();
    }
    v as u32
}

/// What a reader does after the four header bytes and before it makes room
/// for the body: the length to read, or a refusal when the header declares
/// more than `max_len`.
pub fn accept_frame_header(header: &[u8; 4], max_len: u32) -> (r: Result<u32, ProtocolError>)
    ensures
        r == if be_value(header@) <= max_len {
            Ok::<u32, ProtocolError>(be_value(header@) as u32)
        } else {
            Err::<u32, ProtocolError>(ProtocolError::InvalidLength)
        },
{
    let len: u32 = decode_message_length(header);
    if len <= max_len {
        Ok(len)
    } else {
        Err(ProtocolError::InvalidLength)
    }
}

/// How far a reader has come in a frame.
#[derive(Debug, Clone, Copy, PartialEq, Eq, Structural)]
pub enum ReadStage {
    /// The four length bytes are not all read.
    Header,
    /// The length is read, the body is not all read.
    Body,
}

/// What it means that the stream ends at `stage`. Before a length is read
/// the peer has closed the connection, which is no error. Within a body
/// the frame is truncated.
pub fn end_of_stream(stage: ReadStage) -> (r: Result<(), ProtocolError>)
    ensures
        r == match stage {
            ReadStage::Header => Ok::<(), ProtocolError>(()),
            ReadStage::Body => Err::<(), ProtocolError>(ProtocolError::InvalidLength),
        },
{
    match stage {
        ReadStage::Header => Ok(()),
        ReadStage::Body => Err(ProtocolError::InvalidLength),
    }
}

/// The tag that `Hmac<Sha256>` computes over `message` under `key`.
pub uninterp spec fn hmac_sha256(key: Seq<u8>, message: Seq<u8>) -> Seq<u8>;

/// One HMAC-SHA256 computation with the `hmac` and `sha2` crates:
/// `new_from_slice(key)`, `update(message)`, `finalize()`. The key may have
/// any length. Believed, not proved: the tag depends on key and message
/// alone.
#[verifier::external_body]
fn hmac_sha256_tag(key: &[u8], message: &[u8]) -> (tag: [u8; 32])
    ensures
        tag@ == hmac_sha256(key@, message@),
{
    let mut mac = <Hmac<Sha256> as Mac>::new_from_slice(key).expect("any key length");
    mac.update(message);
    mac.finalize().into_bytes().into()
}

/// The proof of knowledge of `psk` for `challenge`.
pub open spec fn auth_response(psk: Seq<char>, challenge: Seq<u8>) -> Seq<u8> {
    hmac_sha256(encode_utf8(psk), challenge)
}

/// Computes the response to `challenge` under the pre-shared key.
pub fn compute_auth_response(psk: &str, challenge: &[u8; 32]) -> (response: [u8; 32])
    ensures
        response@ == auth_response(psk@, challenge@),
{
    hmac_sha256_tag(psk.as_bytes(), challenge.as_slice())
}

/// Whether `response` is the proof of knowledge of `psk` for `challenge`.
pub fn verify_auth_response(psk: &str, challenge: &[u8; 32], response: &[u8; 32]) -> (ok: bool)
    ensures
        ok == (response@ == auth_response(psk@, challenge@)),
{
    let expected = compute_auth_response(psk, challenge);
    constant_time_eq(&expected, response)
}

proof fn lemma_or_xor_zero(acc: u8, x: u8, y: u8)
    ensures
        (acc | (x ^ y)) == 0 <==> (acc == 0 && x == y),
{
    assert((acc | (x ^ y)) == 0 <==> (acc == 0 && x == y)) by (bit_vector);
}

/// Compares two 32-byte strings. Every byte pair is visited whatever the
/// contents: the differences are accumulated with XOR and OR and only the
/// accumulated value is tested, once, at the end.
pub fn constant_time_eq(a: &[u8; 32], b: &[u8; 32]) -> (same: bool)
    ensures
        same == (a@ == b@),
{
    let mut diff: u8 = 0;
    let mut i: usize = 0;
    while i < 32
        invariant
            i <= 32,
            a@.len() == 32,
            b@.len() == 32,
            diff == 0 <==> (forall|j: int| 0 <= j < i ==> a@[j] == b@[j]),
        decreases 32 - i,
    {
        proof {
            lemma_or_xor_zero(diff, a@[i as int], b@[i as int]);
        }
        diff = diff | (a[i] ^ b[i]);
        i = i + 1;
    }
    assert(diff == 0 <==> a@ =~= b@);
    diff == 0
}

} // verus!
