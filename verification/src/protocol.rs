use vstd::prelude::*;

use crate::error::Error;

verus! {

/// The observable state of a smart socket: whether it is switched on, and
/// its current power draw in deciwatts (tenths of a watt).
#[derive(Debug, Clone, Copy, PartialEq, Eq, Structural)]
pub struct SocketState {
    pub on: bool,
    pub power_deciwatts: u32,
}

/// A request sent to a socket endpoint: either a command to switch the
/// socket on or off, or a query for its current state.
#[derive(Debug, Clone, Copy, PartialEq, Eq, Structural)]
pub enum Request {
    Switch(bool),
    QueryState,
}

/// Every frame on the wire is exactly this many bytes long; the first byte
/// is an opcode, the rest carry the payload (padded with zeros).
pub const FRAME_LEN: usize = 6;

/// Opcode of a switch command request.
pub const OP_SWITCH: u8 = 0x01;

/// Opcode of a state query request.
pub const OP_QUERY_STATE: u8 = 0x02;

/// Opcode of the acknowledgement reply to a switch command.
pub const OP_ACK: u8 = 0x10;

/// Opcode of the reply to a state query.
pub const OP_STATE: u8 = 0x20;

/// Opcode of the reply an endpoint gives to a malformed request.
pub const OP_ERR: u8 = 0xFF;

/// The most significant byte of the big-endian encoding of `p`.
pub open spec fn power_hi(p: u32) -> u8 {
    (p / 0x1000000) as u8
}

/// The second byte of the big-endian encoding of `p`.
pub open spec fn power_mid_hi(p: u32) -> u8 {
    ((p / 0x10000) % 0x100) as u8
}

/// The third byte of the big-endian encoding of `p`.
pub open spec fn power_mid_lo(p: u32) -> u8 {
    ((p / 0x100) % 0x100) as u8
}

/// The least significant byte of the big-endian encoding of `p`.
pub open spec fn power_lo(p: u32) -> u8 {
    (p % 0x100) as u8
}

/// The value carried by four big-endian payload bytes.
pub open spec fn power_of_bytes(a: u8, b: u8, c: u8, d: u8) -> u32 {
    (a * 0x1000000 + b * 0x10000 + c * 0x100 + d) as u32
}

/// Decomposing a power value into its four big-endian bytes and
/// reassembling them gives the value back.
pub proof fn lemma_power_round_trip(p: u32)
    ensures
        power_of_bytes(power_hi(p), power_mid_hi(p), power_mid_lo(p), power_lo(p)) == p,
{
    assert(((p / 0x1000000) as u8) * 0x1000000 + (((p / 0x10000) % 0x100) as u8) * 0x10000 + (((
    p / 0x100) % 0x100) as u8) * 0x100 + ((p % 0x100) as u8) == p) by (bit_vector);
}

/// The frame that carries a switch command.
pub open spec fn switch_request_bytes(on: bool) -> Seq<u8> {
    seq![OP_SWITCH, (if on { 1u8 } else { 0u8 }), 0u8, 0u8, 0u8, 0u8]
}

/// The frame that carries a state query.
pub open spec fn query_request_bytes() -> Seq<u8> {
    seq![OP_QUERY_STATE, 0u8, 0u8, 0u8, 0u8, 0u8]
}

/// The frame that acknowledges a switch command.
pub open spec fn ack_reply_bytes() -> Seq<u8> {
    seq![OP_ACK, 0u8, 0u8, 0u8, 0u8, 0u8]
}

/// The frame an endpoint sends back for a request it cannot parse.
pub open spec fn err_reply_bytes() -> Seq<u8> {
    seq![OP_ERR, 0u8, 0u8, 0u8, 0u8, 0u8]
}

/// The frame that carries a socket's state back to the client.
pub open spec fn state_reply_bytes(s: SocketState) -> Seq<u8> {
    seq![
        OP_STATE,
        (if s.on { 1u8 } else { 0u8 }),
        power_hi(s.power_deciwatts),
        power_mid_hi(s.power_deciwatts),
        power_mid_lo(s.power_deciwatts),
        power_lo(s.power_deciwatts),
    ]
}

/// What a frame means as a request: the request it encodes, or `None` for a
/// malformed frame.
pub open spec fn request_of_bytes(b: Seq<u8>) -> Option<Request> {
    if b == switch_request_bytes(true) {
        Some(Request::Switch(true))
    } else if b == switch_request_bytes(false) {
        Some(Request::Switch(false))
    } else if b == query_request_bytes() {
        Some(Request::QueryState)
    } else {
        None
    }
}

/// How a client reads the reply to a switch command: success exactly on the
/// acknowledgement frame.
pub open spec fn switch_reply_outcome(b: Seq<u8>) -> Result<(), Error> {
    if b == ack_reply_bytes() {
        Ok(())
    } else {
        Err(Error::CommunicationError)
    }
}

/// How a client reads the reply to a state query: the state carried by a
/// well-formed state frame, and `CommunicationError` for anything else.
pub open spec fn state_reply_outcome(b: Seq<u8>) -> Result<SocketState, Error> {
    if b.len() == FRAME_LEN && b[0] == OP_STATE && (b[1] == 0u8 || b[1] == 1u8) {
        Ok(
            SocketState {
                on: b[1] == 1u8,
                power_deciwatts: power_of_bytes(b[2], b[3], b[4], b[5]),
            },
        )
    } else {
        Err(Error::CommunicationError)
    }
}

/// Encodes a switch command as a frame.
pub fn encode_switch_request(on: bool) -> (r: Vec<u8>)
    ensures
        r@ == switch_request_bytes(on),
{
    let mut v: Vec<u8> = Vec::new();
    v.push(OP_SWITCH);
    v.push(if on { 1u8 } else { 0u8 });
    v.push(0u8);
    v.push(0u8);
    v.push(0u8);
    v.push(0u8);
    proof {
        assert(v@ =~= switch_request_bytes(on));
    }
    v
}

/// Encodes a state query as a frame.
pub fn encode_query_request() -> (r: Vec<u8>)
    ensures
        r@ == query_request_bytes(),
{
    let mut v: Vec<u8> = Vec::new();
    v.push(OP_QUERY_STATE);
    v.push(0u8);
    v.push(0u8);
    v.push(0u8);
    v.push(0u8);
    v.push(0u8);
    proof {
        assert(v@ =~= query_request_bytes());
    }
    v
}

/// Encodes the acknowledgement reply to a switch command.
pub fn encode_ack_reply() -> (r: Vec<u8>)
    ensures
        r@ == ack_reply_bytes(),
{
    let mut v: Vec<u8> = Vec::new();
    v.push(OP_ACK);
    v.push(0u8);
    v.push(0u8);
    v.push(0u8);
    v.push(0u8);
    v.push(0u8);
    proof {
        assert(v@ =~= ack_reply_bytes());
    }
    v
}

/// Encodes the reply to a request the endpoint could not parse.
pub fn encode_err_reply() -> (r: Vec<u8>)
    ensures
        r@ == err_reply_bytes(),
{
    let mut v: Vec<u8> = Vec::new();
    v.push(OP_ERR);
    v.push(0u8);
    v.push(0u8);
    v.push(0u8);
    v.push(0u8);
    v.push(0u8);
    proof {
        assert(v@ =~= err_reply_bytes());
    }
    v
}

/// Encodes a socket state as a state reply frame.
pub fn encode_state_reply(s: &SocketState) -> (r: Vec<u8>)
    ensures
        r@ == state_reply_bytes(*s),
{
    let p = s.power_deciwatts;
    let mut v: Vec<u8> = Vec::new();
    v.push(OP_STATE);
    v.push(if s.on { 1u8 } else { 0u8 });
    v.push((p / 0x1000000) as u8);
    v.push(((p / 0x10000) % 0x100) as u8);
    v.push(((p / 0x100) % 0x100) as u8);
    v.push((p % 0x100) as u8);
    proof {
        assert(v@ =~= state_reply_bytes(*s));
    }
    v
}

/// Parses a frame as a request, as an endpoint does.
pub fn parse_request(b: &Vec<u8>) -> (r: Option<Request>)
    ensures
        r == request_of_bytes(b@),
{
    if b.len() != FRAME_LEN {
        return None;
    }
    let padded = b[2] == 0u8 && b[3] == 0u8 && b[4] == 0u8 && b[5] == 0u8;
    if b[0] == OP_SWITCH && (b[1] == 0u8 || b[1] == 1u8) && padded {
        let on = b[1] == 1u8;
        proof {
            assert(b@ =~= switch_request_bytes(on));
        }
        Some(Request::Switch(on))
    } else if b[0] == OP_QUERY_STATE && b[1] == 0u8 && padded {
        proof {
            assert(b@ =~= query_request_bytes());
        }
        Some(Request::QueryState)
    } else {
        None
    }
}

/// Parses the reply to a switch command, as a client does.
pub fn parse_switch_reply(b: &Vec<u8>) -> (r: Result<(), Error>)
    ensures
        r == switch_reply_outcome(b@),
{
    if b.len() == FRAME_LEN && b[0] == OP_ACK && b[1] == 0u8 && b[2] == 0u8 && b[3] == 0u8 && b[4]
        == 0u8 && b[5] == 0u8 {
        proof {
            assert(b@ =~= ack_reply_bytes());
        }
        Ok(())
    } else {
        Err(Error::CommunicationError)
    }
}

/// Parses the reply to a state query, as a client does.
pub fn parse_state_reply(b: &Vec<u8>) -> (r: Result<SocketState, Error>)
    ensures
        r == state_reply_outcome(b@),
{
    if b.len() == FRAME_LEN && b[0] == OP_STATE && (b[1] == 0u8 || b[1] == 1u8) {
        let power = (b[2] as u32) * 0x1000000 + (b[3] as u32) * 0x10000 + (b[4] as u32) * 0x100 + (
        b[5] as u32);
        Ok(SocketState { on: b[1] == 1u8, power_deciwatts: power })
    } else {
        Err(Error::CommunicationError)
    }
}

/// Encoding a request and parsing it back yields the request: the request
/// side of the codec loses nothing.
pub proof fn lemma_request_round_trip(req: Request)
    ensures
        request_of_bytes(
            match req {
                Request::Switch(on) => switch_request_bytes(on),
                Request::QueryState => query_request_bytes(),
            },
        ) == Some(req),
{
    assert(switch_request_bytes(true)[1] == 1u8);
    assert(switch_request_bytes(false)[1] == 0u8);
    assert(query_request_bytes()[0] == OP_QUERY_STATE);
    assert(switch_request_bytes(true)[0] == OP_SWITCH);
    assert(switch_request_bytes(false)[0] == OP_SWITCH);
}

/// Encoding a socket state and parsing the frame back yields the state: the
/// reply side of the codec loses nothing.
pub proof fn lemma_state_reply_round_trip(s: SocketState)
    ensures
        state_reply_outcome(state_reply_bytes(s)) == Ok::<SocketState, Error>(s),
{
    let b = state_reply_bytes(s);
    assert(b.len() == FRAME_LEN);
    assert(b[0] == OP_STATE);
    lemma_power_round_trip(s.power_deciwatts);
    if s.on {
        assert(b[1] == 1u8);
    } else {
        assert(b[1] == 0u8);
    }
}

/// The acknowledgement frame reads back as success, and the error frame as
/// a communication failure, for both kinds of reply.
pub proof fn lemma_reply_frames_read_back()
    ensures
        switch_reply_outcome(ack_reply_bytes()) == Ok::<(), Error>(()),
        switch_reply_outcome(err_reply_bytes()) == Err::<(), Error>(Error::CommunicationError),
        state_reply_outcome(err_reply_bytes()) == Err::<SocketState, Error>(
            Error::CommunicationError,
        ),
{
    assert(ack_reply_bytes()[0] == OP_ACK);
    assert(err_reply_bytes()[0] == OP_ERR);
}

} // verus!
