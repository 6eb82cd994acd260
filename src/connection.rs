//! The state that a connection to one device keeps between exchanges.

use vstd::prelude::*;
use crate::message::{ECPMessage, Frame, classify};
use crate::request::{Request, request_text};
use crate::response::{Response, is_decoding_of};

verus! {

/// The ECP port of a device.
pub const DEFAULT_PORT: usize = 8060;

/// The counter of a connection that has issued no request yet.
pub const FRESH_COUNTER: i32 = -1;

/// An open session: the transport is held by its owner, the outcome of the
/// handshake here.
#[derive(Clone, Copy, Debug, PartialEq, Eq)]
pub struct Session {
    pub authenticated: bool,
}

/// A connection to one device: its address, the shared key, the request
/// sequence counter and the session once opened.
#[derive(Debug)]
pub struct Connection {
    pub ipv4: [u8; 4],
    pub port: usize,
    pub key: Vec<u8>,
    pub sync_counter: i32,
    pub session: Option<Session>,
}

/// The counter after one more request.
pub open spec fn next_sync(counter: int) -> int {
    counter + 1
}

/// The counter after `calls` more requests.
pub open spec fn sync_after(counter: int, calls: nat) -> int
    decreases calls,
{
    if calls == 0 {
        counter
    } else {
        next_sync(sync_after(counter, (calls - 1) as nat))
    }
}

/// The response, if any, that a frame received while waiting for one yields:
/// text frames that are no authentication message are decoded, all else is
/// dropped.
pub open spec fn yields_response(frame: Frame, r: Option<Response>) -> bool {
    match classify(frame) {
        ECPMessage::Text { text } => r matches Some(resp) && is_decoding_of(resp, text@),
        _ => r is None,
    }
}

impl Connection {
    /// A connection that is not open yet, on the default port.
    pub fn new(ipv4: [u8; 4], key: Vec<u8>) -> (r: Self)
        ensures
            r.ipv4 == ipv4,
            r.port == DEFAULT_PORT,
            r.key == key,
            r.sync_counter == FRESH_COUNTER,
            r.session is None,
    {
        Connection { ipv4, port: DEFAULT_PORT, key, sync_counter: FRESH_COUNTER, session: None }
    }

    /// Whether the connection has been opened.
    pub fn is_open(&self) -> (r: bool)
        ensures
            r == self.session is Some,
    {
        match &self.session {
            None => false,
            Some(_) => true,
        }
    }

    /// Whether the connection has completed authentication.
    pub fn is_authenticated(&self) -> (r: bool)
        ensures
            r == (self.session matches Some(s) && s.authenticated),
    {
        match &self.session {
            None => false,
            Some(session) => session.authenticated,
        }
    }

    /// Advance the request counter and return it.
    pub fn next_sync_number(&mut self) -> (r: i32)
        requires
            old(self).sync_counter < i32::MAX,
        ensures
            final(self).sync_counter == next_sync(old(self).sync_counter as int),
            r == final(self).sync_counter,
            final(self).ipv4 == old(self).ipv4,
            final(self).port == old(self).port,
            final(self).key == old(self).key,
            final(self).session == old(self).session,
    {
        self.sync_counter = self.sync_counter + 1;
        self.sync_counter
    }

    /// Record the session that the handshake opened, whatever its outcome.
    pub fn attach_session(&mut self, authenticated: bool)
        ensures
            final(self).session == Some(Session { authenticated }),
            final(self).ipv4 == old(self).ipv4,
            final(self).port == old(self).port,
            final(self).key == old(self).key,
            final(self).sync_counter == old(self).sync_counter,
    {
        self.session = Some(Session { authenticated });
    }

    /// The frame that sends a request on the open session, counting the
    /// request; none, and nothing changed, where the connection is not open.
    pub fn request_frame(&mut self, request: &Request) -> (r: Option<Frame>)
        requires
            old(self).session is Some ==> old(self).sync_counter < i32::MAX,
        ensures
            final(self).ipv4 == old(self).ipv4,
            final(self).port == old(self).port,
            final(self).key == old(self).key,
            final(self).session == old(self).session,
            match old(self).session {
                None => r is None && final(self).sync_counter == old(self).sync_counter,
                Some(_) => r matches Some(Frame::Text { text }) && (text@ == request_text(request@)
                    && final(self).sync_counter == next_sync(old(self).sync_counter as int)),
            },
    {
        match &self.session {
            None => None,
            Some(_) => {
                let frame = request.build().into_message();
                self.sync_counter = self.sync_counter + 1;
                Some(frame)
            },
        }
    }

    /// The response, if any, that a frame received after a request yields.
    pub fn response_from(frame: Frame) -> (r: Option<Response>)
        ensures
            yields_response(frame, r),
    {
        Response::from_message(ECPMessage::from_message(frame))
    }
}

impl Clone for Connection {
    /// A connection to the same device with the same key, not open and with a
    /// fresh counter: the transport is never shared.
    fn clone(&self) -> Self {
        Connection::new(self.ipv4, self.key.clone())
    }
}

/// On a fresh connection, successive calls of `next_sync_number` return
/// 0, 1, 2, ...: the call numbered `k`, from 0, returns `k`.
pub proof fn lemma_sync_numbers_from_fresh(n: nat)
    ensures
        forall|k: nat| k < n ==> #[trigger] sync_after(FRESH_COUNTER as int, k + 1) == k,
    decreases n,
{
    if n > 0 {
        lemma_sync_numbers_from_fresh((n - 1) as nat);
        let k = (n - 1) as nat;
        assert(sync_after(FRESH_COUNTER as int, k + 1) == next_sync(sync_after(FRESH_COUNTER as int, k)));
        if k > 0 {
            assert(sync_after(FRESH_COUNTER as int, ((k - 1) as nat) + 1) == k - 1);
            assert(((k - 1) as nat) + 1 == k);
        }
    }
}

} // verus!
