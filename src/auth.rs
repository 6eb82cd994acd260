//! The challenge-response handshake that opens a session.

use vstd::prelude::*;
use vstd::string::*;
use crate::codec::{base64_encode, base64_text_of, sha1_digest, sha1_of};
use crate::message::{
    ECPMessage, Frame, is_auth_text, is_challenge_text, utf8_of,
};
use crate::text::{contains_bytes, decimal, decimal_of, find_bytes};

verus! {

/// Where the base64 nonce of a challenge starts and ends, in bytes.
pub const NONCE_START: usize = 44;

pub const NONCE_END: usize = 68;

pub const REPLY_OPEN: &'static str = "{\"request\":\"authenticate\",\"request-id\":\"";

pub const REPLY_MIDDLE: &'static str = "\",\"param-response\":\"";

pub const REPLY_CLOSE: &'static str = "\"}";

/// A verdict that holds this, in any case, is a refusal.
pub const REFUSAL_MARKER: &'static str = "error";

/// A verdict that holds this, and is no refusal, is an acceptance.
pub const ACCEPTANCE_MARKER: &'static str = "200";

/// The nonce of a challenge: bytes 44 up to 68 of its text.
pub open spec fn challenge_nonce(t: Seq<char>) -> Seq<u8> {
    utf8_of(t).subrange(NONCE_START as int, NONCE_END as int)
}

/// What proves the key: the base64 text of the SHA-1 digest of the nonce
/// followed by the key.
pub open spec fn challenge_answer(nonce: Seq<u8>, key: Seq<u8>) -> Seq<char> {
    base64_text_of(sha1_of(nonce + key))
}

/// The text of the reply to a challenge.
pub open spec fn challenge_reply(t: Seq<char>, counter: i32, key: Seq<u8>) -> Seq<char> {
    REPLY_OPEN@ + decimal_of(counter as int) + REPLY_MIDDLE@ + challenge_answer(
        challenge_nonce(t),
        key,
    ) + REPLY_CLOSE@
}

/// A text frame with this text.
pub open spec fn carries_text(f: Frame, t: Seq<char>) -> bool {
    f matches Frame::Text { text } && text@ == t
}

/// A challenge long enough to hold its nonce.
pub open spec fn is_answerable_challenge(t: Seq<char>) -> bool {
    is_challenge_text(t) && utf8_of(t).len() >= NONCE_END
}

pub open spec fn is_refusal(t: Seq<char>) -> bool {
    contains_bytes(utf8_of(t), REFUSAL_MARKER.spec_bytes(), true)
}

pub open spec fn is_acceptance(t: Seq<char>) -> bool {
    contains_bytes(utf8_of(t), ACCEPTANCE_MARKER.spec_bytes(), false)
}

/// What the handshake does on receiving a frame.
#[derive(Clone, Debug, PartialEq, Eq)]
pub enum AuthAction {
    /// Send this frame and keep waiting.
    Reply { frame: Frame },
    /// Drop the frame and keep waiting.
    Wait,
    /// The handshake is over.
    Finish { authenticated: bool },
}

/// Concatenate the nonce and the key, hash and encode.
fn gen_challenge_response(received_challenge: &[u8], key: &Vec<u8>) -> (r: String)
    ensures
        r@ == challenge_answer(received_challenge@, key@),
{
    let mut data: Vec<u8> = Vec::new();
    let mut i: usize = 0;
    while i < received_challenge.len()
        invariant
            i <= received_challenge@.len(),
            data@ == received_challenge@.subrange(0, i as int),
        decreases received_challenge@.len() - i,
    {
        data.push(received_challenge[i]);
        i += 1;
    }
    let mut j: usize = 0;
    while j < key.len()
        invariant
            j <= key@.len(),
            data@ == received_challenge@ + key@.subrange(0, j as int),
        decreases key@.len() - j,
    {
        data.push(key[j]);
        j += 1;
    }
    assert(received_challenge@.subrange(0, received_challenge@.len() as int) =~= received_challenge@);
    assert(key@.subrange(0, key@.len() as int) =~= key@);
    let hash = sha1_digest(&data);
    base64_encode(&hash)
}

impl ECPMessage {
    /// The reply to a challenge.
    pub fn generate_challenge_response(message: &str, counter: i32, key: &Vec<u8>) -> (r: Frame)
        requires
            utf8_of(message@).len() >= NONCE_END,
        ensures
            r matches Frame::Text { text } && text@ == challenge_reply(message@, counter, key@),
    {
        let bytes = message.as_bytes();
        let mut nonce: Vec<u8> = Vec::new();
        let mut i: usize = NONCE_START;
        while i < NONCE_END
            invariant
                bytes@ == utf8_of(message@),
                NONCE_START <= i <= NONCE_END <= bytes@.len(),
                nonce@ == bytes@.subrange(NONCE_START as int, i as int),
            decreases NONCE_END - i,
        {
            nonce.push(bytes[i]);
            i += 1;
        }
        let answer = gen_challenge_response(nonce.as_slice(), key);
        let mut text = String::from_str(REPLY_OPEN);
        text.append(decimal(counter).as_str());
        text.append(REPLY_MIDDLE);
        text.append(answer.as_str());
        text.append(REPLY_CLOSE);
        Frame::Text { text }
    }

    /// The frame as an authentication message, with the reply that it calls
    /// for; none if it is no authentication message.
    pub fn try_from_auth_message(message: Frame, counter: i32, key: &Vec<u8>) -> (r: Option<
        ECPMessage,
    >)
        ensures
            match message {
                Frame::Text { text } => if is_answerable_challenge(text@) {
                    r matches Some(ECPMessage::Authentication { text: t, response: Some(f) }) && (t
                        == text && carries_text(f, challenge_reply(text@, counter, key@)))
                } else if is_auth_text(text@) {
                    r == Some(ECPMessage::Authentication { text, response: None })
                } else {
                    r is None
                },
                _ => r is None,
            },
    {
        match message {
            Frame::Text { text } => {
                let challenge = Self::is_auth_challenge(text.as_str());
                let long_enough = text.as_str().as_bytes().len() >= NONCE_END;
                if challenge && long_enough {
                    let response = Self::generate_challenge_response(text.as_str(), counter, key);
                    Some(ECPMessage::Authentication { text, response: Some(response) })
                } else if Self::is_auth_message(text.as_str()) {
                    Some(ECPMessage::Authentication { text, response: None })
                } else {
                    None
                }
            },
            _ => None,
        }
    }
}

/// The handshake's decision on a frame, by the text's ad hoc signals.
pub open spec fn auth_decision(message: Frame) -> AuthAction
    recommends
        !(message matches Frame::Text { text } && is_answerable_challenge(text@)),
{
    match message {
        Frame::Text { text } => if is_verdict_candidate(text@) {
            if is_refusal(text@) {
                AuthAction::Finish { authenticated: false }
            } else if is_acceptance(text@) {
                AuthAction::Finish { authenticated: true }
            } else {
                AuthAction::Wait
            }
        } else {
            AuthAction::Wait
        },
        _ => AuthAction::Wait,
    }
}

/// An authentication message that is no challenge: the device's verdict.
pub open spec fn is_verdict_candidate(t: Seq<char>) -> bool {
    is_auth_text(t) && !is_challenge_text(t)
}

/// Decide what the handshake does with a frame: a challenge is answered, a
/// verdict ends the handshake, anything else is dropped.
pub fn auth_step(message: Frame, counter: i32, key: &Vec<u8>) -> (r: AuthAction)
    ensures
        match message {
            Frame::Text { text } => if is_answerable_challenge(text@) {
                r matches AuthAction::Reply { frame: Frame::Text { text: reply } } && reply@
                    == challenge_reply(text@, counter, key@)
            } else {
                r == auth_decision(message)
            },
            _ => r == AuthAction::Wait,
        },
{
    match ECPMessage::try_from_auth_message(message, counter, key) {
        Some(ECPMessage::Authentication { text, response }) => {
            match response {
                Some(frame) => AuthAction::Reply { frame },
                None => {
                    if ECPMessage::is_auth_challenge(text.as_str()) {
                        AuthAction::Wait
                    } else if find_bytes(text.as_str().as_bytes(), REFUSAL_MARKER.as_bytes(), true) {
                        AuthAction::Finish { authenticated: false }
                    } else if find_bytes(text.as_str().as_bytes(), ACCEPTANCE_MARKER.as_bytes(), false) {
                        AuthAction::Finish { authenticated: true }
                    } else {
                        AuthAction::Wait
                    }
                },
            }
        },
        _ => AuthAction::Wait,
    }
}

/// The state of one handshake: the request id its reply carries, and
/// whether that reply has been sent.
#[derive(Clone, Copy, Debug, PartialEq, Eq)]
pub struct Handshake {
    pub counter: i32,
    pub replied: bool,
}

impl Handshake {
    /// A handshake whose reply will carry `counter`.
    pub fn new(counter: i32) -> (r: Handshake)
        ensures
            r.counter == counter,
            !r.replied,
    {
        Handshake { counter, replied: false }
    }

    /// Decide what to do with a received frame. A challenge is answered once:
    /// the first one gets the reply, later ones are dropped.
    pub fn step(&mut self, message: Frame, key: &Vec<u8>) -> (r: AuthAction)
        ensures
            final(self).counter == old(self).counter,
            match message {
                Frame::Text { text } => if is_answerable_challenge(text@) {
                    final(self).replied && if old(self).replied {
                        r == AuthAction::Wait
                    } else {
                        r matches AuthAction::Reply { frame: Frame::Text { text: reply } } && reply@
                            == challenge_reply(text@, old(self).counter, key@)
                    }
                } else {
                    r == auth_decision(message) && final(self).replied == old(self).replied
                },
                _ => r == AuthAction::Wait && final(self).replied == old(self).replied,
            },
    {
        match auth_step(message, self.counter, key) {
            AuthAction::Reply { frame } => {
                if self.replied {
                    AuthAction::Wait
                } else {
                    self.replied = true;
                    AuthAction::Reply { frame }
                }
            },
            other => other,
        }
    }
}

} // verus!
