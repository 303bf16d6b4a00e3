use vstd::prelude::*;

use crate::error::Error;
use crate::protocol::{
    encode_ack_reply, encode_err_reply, encode_query_request, encode_state_reply,
    encode_switch_request, parse_request, parse_state_reply, parse_switch_reply, Request,
    SocketState, ack_reply_bytes, err_reply_bytes, query_request_bytes, request_of_bytes,
    state_reply_bytes, lemma_request_round_trip, lemma_state_reply_round_trip,
};

verus! {

/// Power a socket endpoint draws while switched on, in deciwatts.
pub const DEFAULT_POWER_DECIWATTS: u32 = 12000;

/// A socket endpoint: the device-side half of the protocol. It holds the
/// physical state of one socket and answers one framed request with one
/// framed reply. It is deterministic, so it also serves as the reference
/// behaviour a remote socket server must follow.
#[derive(Debug, Clone, Copy, PartialEq, Eq, Structural)]
pub struct SocketEndpoint {
    pub on: bool,
    pub power_deciwatts: u32,
}

impl SocketEndpoint {
    /// The state the endpoint reports: its power draw is zero while it is
    /// switched off.
    pub open spec fn state_view(self) -> SocketState {
        SocketState {
            on: self.on,
            power_deciwatts: if self.on {
                self.power_deciwatts
            } else {
                0
            },
        }
    }

    /// The endpoint after a switch command.
    pub open spec fn switched(self, on: bool) -> SocketEndpoint {
        SocketEndpoint { on, ..self }
    }

    /// A fresh endpoint: switched off, rated at the default power draw.
    pub fn new() -> (r: SocketEndpoint)
        ensures
            !r.on,
            r.power_deciwatts == DEFAULT_POWER_DECIWATTS,
    {
        SocketEndpoint { on: false, power_deciwatts: DEFAULT_POWER_DECIWATTS }
    }

    /// The endpoint's current state, as it would report it.
    pub fn current_state(&self) -> (s: SocketState)
        ensures
            s == self.state_view(),
    {
        SocketState {
            on: self.on,
            power_deciwatts: if self.on {
                self.power_deciwatts
            } else {
                0
            },
        }
    }

    /// One round trip, seen from the endpoint: a switch command switches the
    /// socket and is acknowledged; a state query is answered with the current
    /// state and changes nothing; a malformed frame is answered with the
    /// error frame and changes nothing.
    pub fn handle(&mut self, req: &Vec<u8>) -> (reply: Vec<u8>)
        ensures
            match request_of_bytes(req@) {
                Some(Request::Switch(on)) => *final(self) == old(self).switched(on) && reply@
                    == ack_reply_bytes(),
                Some(Request::QueryState) => *final(self) == *old(self) && reply@
                    == state_reply_bytes(old(self).state_view()),
                None => *final(self) == *old(self) && reply@ == err_reply_bytes(),
            },
    {
        match parse_request(req) {
            Some(Request::Switch(on)) => {
                self.on = on;
                encode_ack_reply()
            },
            Some(Request::QueryState) => {
                let s = self.current_state();
                encode_state_reply(&s)
            },
            None => encode_err_reply(),
        }
    }

    /// Answers a state query without touching the endpoint. The reply is the
    /// one `handle` would give for the same frame.
    pub fn answer_query(&self, req: &Vec<u8>) -> (reply: Vec<u8>)
        requires
            request_of_bytes(req@) == Some(Request::QueryState),
        ensures
            reply@ == state_reply_bytes(self.state_view()),
    {
        let s = self.current_state();
        encode_state_reply(&s)
    }
}

/// What a smart socket's transport is attached to: a live in-process
/// endpoint, or nothing, when the connection has been lost.
#[derive(Debug, Clone, Copy, PartialEq, Eq, Structural)]
pub enum Connection {
    Live(SocketEndpoint),
    Lost,
}

/// The client-side half of the protocol: a smart socket with its
/// connection. Every operation is one round trip — one request frame,
/// one reply frame — through the codec; a lost connection makes every
/// round trip fail with `CommunicationError`.
#[derive(Debug, Clone, Copy, PartialEq, Eq, Structural)]
pub struct SmartSocket {
    pub conn: Connection,
}

impl SmartSocket {
    /// Whether the socket still has a live connection.
    pub open spec fn is_connected(self) -> bool {
        self.conn is Live
    }

    /// The endpoint behind a live connection.
    pub open spec fn endpoint(self) -> SocketEndpoint
        recommends
            self.is_connected(),
    {
        self.conn->Live_0
    }

    /// Attaches a socket to a live endpoint.
    pub fn connect(endpoint: SocketEndpoint) -> (r: SmartSocket)
        ensures
            r.is_connected(),
            r.endpoint() == endpoint,
    {
        SmartSocket { conn: Connection::Live(endpoint) }
    }

    /// A socket whose connection has been lost: every round trip on it
    /// fails with `CommunicationError`.
    pub fn disconnected() -> (r: SmartSocket)
        ensures
            !r.is_connected(),
    {
        SmartSocket { conn: Connection::Lost }
    }

    /// Switches the socket on or off in one round trip. On a live
    /// connection the command always succeeds and the endpoint ends up
    /// switched as commanded; on a lost connection nothing changes and the
    /// round trip fails.
    pub fn switch(&mut self, on: bool) -> (r: Result<(), Error>)
        ensures
            old(self).is_connected() ==> r == Ok::<(), Error>(()) && final(self).is_connected()
                && final(self).endpoint() == old(self).endpoint().switched(on),
            !old(self).is_connected() ==> r == Err::<(), Error>(Error::CommunicationError) && *final(
            self) == *old(self),
    {
        let req = encode_switch_request(on);
        proof {
            lemma_request_round_trip(Request::Switch(on));
        }
        match &mut self.conn {
            Connection::Live(endpoint) => {
                let reply = endpoint.handle(&req);
                parse_switch_reply(&reply)
            },
            Connection::Lost => Err(Error::CommunicationError),
        }
    }

    /// Queries the socket's state in one round trip. On a live connection
    /// the query always succeeds and returns the endpoint's state; on a
    /// lost connection it fails.
    pub fn state(&self) -> (r: Result<SocketState, Error>)
        ensures
            self.is_connected() ==> r == Ok::<SocketState, Error>(self.endpoint().state_view()),
            !self.is_connected() ==> r == Err::<SocketState, Error>(Error::CommunicationError),
    {
        let req = encode_query_request();
        proof {
            lemma_request_round_trip(Request::QueryState);
        }
        match &self.conn {
            Connection::Live(endpoint) => {
                let reply = endpoint.answer_query(&req);
                proof {
                    lemma_state_reply_round_trip(endpoint.state_view());
                }
                parse_state_reply(&reply)
            },
            Connection::Lost => Err(Error::CommunicationError),
        }
    }
}

/// Switching a socket and then querying it reflects the switch: after a
/// switch command with `on`, the endpoint reports exactly `on`, whatever
/// state it was in before.
pub proof fn lemma_switch_then_query(endpoint: SocketEndpoint, on: bool)
    ensures
        endpoint.switched(on).state_view().on == on,
{
}

} // verus!
