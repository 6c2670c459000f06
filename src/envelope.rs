//! The transport-level units exchanged with the connection worker: envelopes
//! (a kind tag, opaque payload bytes and a timestamp) and commands.

use base64::Engine;
use crate::json::{decimal, json_string_of, push_decimal, quote_json};
use vstd::prelude::*;
use vstd::string::StringExecFns;
use vstd::utf8::encode_utf8;

verus! {

/// An envelope. `mtype` tags how `payload` is to be read; `ts` is the
/// producer's clock in seconds since the epoch when it was made.
#[derive(Debug, Clone)]
pub struct WebSocketMessage {
    pub mtype: String,
    pub payload: Vec<u8>,
    pub ts: u64,
}

/// The mathematical value of an envelope.
pub struct MessageView {
    pub mtype: Seq<char>,
    pub payload: Seq<u8>,
    pub ts: u64,
}

impl View for WebSocketMessage {
    type V = MessageView;

    open spec fn view(&self) -> MessageView {
        MessageView { mtype: self.mtype@, payload: self.payload@, ts: self.ts }
    }
}

/// A request from the manager to the worker.
#[derive(Debug)]
pub enum WebSocketCommand {
    Connect(String),
    Disconnect,
    Send(WebSocketMessage),
    SendRaw(Vec<u8>),
    /// End the connection, if any, and stop the worker's loop.
    Shutdown,
}

/// The kinds of envelope the worker produces.
#[derive(Debug, Clone, Copy, PartialEq, Eq, Structural)]
pub enum MessageKind {
    ConnectionStatus,
    RawText,
    Binary,
}

/// The tag written in `mtype` for each kind.
pub open spec fn kind_tag(k: MessageKind) -> Seq<char> {
    match k {
        MessageKind::ConnectionStatus => "connection_status"@,
        MessageKind::RawText => "raw_text"@,
        MessageKind::Binary => "binary"@,
    }
}

/// The kind a tag names, if any.
pub open spec fn kind_of(tag: Seq<char>) -> Option<MessageKind> {
    if tag == kind_tag(MessageKind::ConnectionStatus) {
        Some(MessageKind::ConnectionStatus)
    } else if tag == kind_tag(MessageKind::RawText) {
        Some(MessageKind::RawText)
    } else if tag == kind_tag(MessageKind::Binary) {
        Some(MessageKind::Binary)
    } else {
        None
    }
}

impl MessageKind {
    /// The tag of this kind.
    pub fn tag(&self) -> (r: String)
        ensures
            r@ == kind_tag(*self),
    {
        match self {
            MessageKind::ConnectionStatus => String::from_str("connection_status"),
            MessageKind::RawText => String::from_str("raw_text"),
            MessageKind::Binary => String::from_str("binary"),
        }
    }
}

impl WebSocketMessage {
    /// The kind of this envelope, or `None` for a tag this library does not produce.
    pub fn kind(&self) -> (r: Option<MessageKind>)
        ensures
            r == kind_of(self.mtype@),
    {
        let cs = MessageKind::ConnectionStatus.tag();
        let rt = MessageKind::RawText.tag();
        let bi = MessageKind::Binary.tag();
        if self.mtype == cs {
            Some(MessageKind::ConnectionStatus)
        } else if self.mtype == rt {
            Some(MessageKind::RawText)
        } else if self.mtype == bi {
            Some(MessageKind::Binary)
        } else {
            None
        }
    }
}

/// An envelope of the given kind whose payload is the UTF-8 encoding of `text`.
pub open spec fn text_envelope(k: MessageKind, text: Seq<char>, ts: u64) -> MessageView {
    MessageView { mtype: kind_tag(k), payload: encode_utf8(text), ts }
}

/// Status text after a successful handshake with `url`.
pub open spec fn connected_text(url: Seq<char>) -> Seq<char> {
    "{\"status\":\"connected\",\"url\":"@ + json_string_of(url) + "}"@
}

/// Status text after a failed handshake with `url`.
pub open spec fn failed_text(url: Seq<char>, error: Seq<char>) -> Seq<char> {
    "{\"error\":"@ + json_string_of(error) + ",\"status\":\"failed\",\"url\":"@
        + json_string_of(url) + "}"@
}

/// Status text after a connection ends.
pub open spec fn disconnected_text() -> Seq<char> {
    "{\"status\":\"disconnected\"}"@
}

/// The standard base64 encoding (with padding) of some bytes.
pub uninterp spec fn base64_of(b: Seq<u8>) -> Seq<char>;

/// Text that carries a binary frame: its base64 encoding and its size.
pub open spec fn binary_text(data: Seq<u8>) -> Seq<char> {
    "{\"data\":"@ + json_string_of(base64_of(data)) + ",\"size\":"@ + decimal(data.len()) + "}"@
}

/// Relies on `base64`'s standard engine `encode`; it only panics when the
/// encoded length overflows `usize`, which the bound rules out.
#[verifier::external_body]
fn encode_base64(b: &[u8]) -> (r: String)
    requires
        b@.len() <= usize::MAX / 2,
    ensures
        r@ == base64_of(b@),
{
    base64::engine::general_purpose::STANDARD.encode(b)
}

fn text_message(k: MessageKind, text: String, ts: u64) -> (r: WebSocketMessage)
    ensures
        r@ == text_envelope(k, text@, ts),
{
    let payload = text.as_str().as_bytes_vec();
    WebSocketMessage { mtype: k.tag(), payload, ts }
}

/// The status envelope for a successful handshake with `url`.
pub fn connected_status(url: &str, ts: u64) -> (r: WebSocketMessage)
    ensures
        r@ == text_envelope(MessageKind::ConnectionStatus, connected_text(url@), ts),
{
    let mut s = String::from_str("{\"status\":\"connected\",\"url\":");
    let q = quote_json(url);
    s.append(q.as_str());
    s.append("}");
    text_message(MessageKind::ConnectionStatus, s, ts)
}

/// The status envelope for a failed handshake with `url`.
pub fn failed_status(url: &str, error: &str, ts: u64) -> (r: WebSocketMessage)
    ensures
        r@ == text_envelope(MessageKind::ConnectionStatus, failed_text(url@, error@), ts),
{
    let mut s = String::from_str("{\"error\":");
    let e = quote_json(error);
    s.append(e.as_str());
    s.append(",\"status\":\"failed\",\"url\":");
    let u = quote_json(url);
    s.append(u.as_str());
    s.append("}");
    text_message(MessageKind::ConnectionStatus, s, ts)
}

/// The status envelope for a connection that ended.
pub fn disconnected_status(ts: u64) -> (r: WebSocketMessage)
    ensures
        r@ == text_envelope(MessageKind::ConnectionStatus, disconnected_text(), ts),
{
    let s = String::from_str("{\"status\":\"disconnected\"}");
    text_message(MessageKind::ConnectionStatus, s, ts)
}

/// The envelope for a text frame that is not itself an envelope: its text, unchanged.
pub fn raw_text_message(text: String, ts: u64) -> (r: WebSocketMessage)
    ensures
        r@ == text_envelope(MessageKind::RawText, text@, ts),
{
    text_message(MessageKind::RawText, text, ts)
}

/// The envelope for a binary frame: its bytes in base64, with their count.
pub fn binary_message(data: &[u8], ts: u64) -> (r: WebSocketMessage)
    requires
        data@.len() <= usize::MAX / 2,
    ensures
        r@ == text_envelope(MessageKind::Binary, binary_text(data@), ts),
{
    let mut s = String::from_str("{\"data\":");
    let b = encode_base64(data);
    let q = quote_json(b.as_str());
    s.append(q.as_str());
    s.append(",\"size\":");
    push_decimal(&mut s, data.len() as u64);
    s.append("}");
    text_message(MessageKind::Binary, s, ts)
}

} // verus!
