//! Transport frames and the protocol messages they are classified into.

use vstd::prelude::*;
use vstd::string::*;
use vstd::utf8::*;
use crate::text::{contains_bytes, find_bytes};

verus! {

/// One frame as the WebSocket transport delivers it.
#[derive(Clone, Debug, PartialEq, Eq)]
pub enum Frame {
    Text { text: String },
    Binary { bytes: Vec<u8> },
    Ping { bytes: Vec<u8> },
    Pong { bytes: Vec<u8> },
    Close { bytes: Vec<u8> },
    /// A raw frame of a kind the transport does not name.
    Raw { bytes: Vec<u8> },
}

/// Content data, which could be a string or some bytes.
#[derive(Clone, Debug, PartialEq, Eq)]
pub enum ContentData {
    Text { string: String },
    Data { bytes: Vec<u8> },
}

/// Content type indicator.
#[derive(Clone, Copy, Debug, PartialEq, Eq)]
pub enum ContentType {
    Jpeg,
    Json,
    Png,
    Xml,
    /// A content type that is given but is none of the above.
    Unknown,
}

/// A frame classified by what it means to the protocol.
#[derive(Clone, Debug, PartialEq, Eq)]
pub enum ECPMessage {
    /// An authentication message; `response` is the reply that a challenge calls for.
    Authentication { text: String, response: Option<Frame> },
    Binary { bytes: Vec<u8> },
    /// A close, ping or pong frame.
    Control { bytes: Vec<u8> },
    Text { text: String },
    Unrecognized { bytes: Vec<u8> },
}

/// Marks a challenge: the device's "authenticate" notification.
pub const CHALLENGE_MARKER: &'static str = "{\"notify\":\"authenticate\"";

/// Marks the device's verdict on a challenge reply.
pub const VERDICT_MARKER: &'static str = "{\"response\":\"authenticate\"";

/// The UTF-8 bytes of text.
pub open spec fn utf8_of(t: Seq<char>) -> Seq<u8> {
    encode_utf8(t)
}

pub open spec fn is_challenge_text(t: Seq<char>) -> bool {
    contains_bytes(utf8_of(t), CHALLENGE_MARKER.spec_bytes(), false)
}

pub open spec fn is_verdict_text(t: Seq<char>) -> bool {
    contains_bytes(utf8_of(t), VERDICT_MARKER.spec_bytes(), false)
}

pub open spec fn is_auth_text(t: Seq<char>) -> bool {
    is_challenge_text(t) || is_verdict_text(t)
}

/// The message that a frame is classified as.
pub open spec fn classify(f: Frame) -> ECPMessage {
    match f {
        Frame::Ping { bytes } => ECPMessage::Control { bytes },
        Frame::Pong { bytes } => ECPMessage::Control { bytes },
        Frame::Close { bytes } => ECPMessage::Control { bytes },
        Frame::Binary { bytes } => ECPMessage::Binary { bytes },
        Frame::Text { text } => if is_auth_text(text@) {
            ECPMessage::Authentication { text, response: None }
        } else {
            ECPMessage::Text { text }
        },
        Frame::Raw { bytes } => ECPMessage::Unrecognized { bytes },
    }
}

/// The frame that carries a message: text stays text, all else is binary.
pub open spec fn frame_of(m: ECPMessage) -> Frame {
    match m {
        ECPMessage::Authentication { text, .. } => Frame::Text { text },
        ECPMessage::Text { text } => Frame::Text { text },
        ECPMessage::Binary { bytes } => Frame::Binary { bytes },
        ECPMessage::Control { bytes } => Frame::Binary { bytes },
        ECPMessage::Unrecognized { bytes } => Frame::Binary { bytes },
    }
}

impl ECPMessage {
    /// Classify a frame received outside the handshake.
    pub fn from_message(message: Frame) -> (r: ECPMessage)
        ensures
            r == classify(message),
    {
        match message {
            Frame::Ping { bytes } => ECPMessage::Control { bytes },
            Frame::Pong { bytes } => ECPMessage::Control { bytes },
            Frame::Close { bytes } => ECPMessage::Control { bytes },
            Frame::Binary { bytes } => ECPMessage::Binary { bytes },
            Frame::Text { text } => {
                if Self::is_auth_message(text.as_str()) {
                    ECPMessage::Authentication { text, response: None }
                } else {
                    ECPMessage::Text { text }
                }
            },
            Frame::Raw { bytes } => ECPMessage::Unrecognized { bytes },
        }
    }

    /// Consume a message and return the frame that carries it.
    pub fn into_message(self) -> (r: Frame)
        ensures
            r == frame_of(self),
    {
        match self {
            ECPMessage::Authentication { text, .. } => Frame::Text { text },
            ECPMessage::Text { text } => Frame::Text { text },
            ECPMessage::Binary { bytes } => Frame::Binary { bytes },
            ECPMessage::Control { bytes } => Frame::Binary { bytes },
            ECPMessage::Unrecognized { bytes } => Frame::Binary { bytes },
        }
    }

    /// Whether text is any authentication message.
    pub fn is_auth_message(content: &str) -> (r: bool)
        ensures
            r == is_auth_text(content@),
    {
        Self::is_auth_challenge(content) || Self::is_auth_response(content)
    }

    /// Whether text is a challenge.
    pub fn is_auth_challenge(content: &str) -> (r: bool)
        ensures
            r == is_challenge_text(content@),
    {
        find_bytes(content.as_bytes(), CHALLENGE_MARKER.as_bytes(), false)
    }

    /// Whether text is the verdict on a challenge reply.
    pub fn is_auth_response(content: &str) -> (r: bool)
        ensures
            r == is_verdict_text(content@),
    {
        find_bytes(content.as_bytes(), VERDICT_MARKER.as_bytes(), false)
    }
}

/// Classifying gives each frame exactly one message, and re-encoding a
/// classified frame and classifying it again gives back the same frame:
/// text and binary frames come back unchanged, and control and unrecognized
/// frames come back as the binary frame that carries their bytes.
pub proof fn lemma_classify_round_trip(f: Frame)
    ensures
        frame_of(classify(frame_of(classify(f)))) == frame_of(classify(f)),
        f is Text ==> frame_of(classify(f)) == f,
        f is Binary ==> frame_of(classify(f)) == f,
        f is Ping || f is Pong || f is Close ==> classify(f) is Control,
        f is Raw ==> classify(f) is Unrecognized,
{
}

} // verus!
