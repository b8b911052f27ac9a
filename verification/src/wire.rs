//! The control-socket message protocol: tagged messages and length-prefixed
//! framing.
//!
//! A frame is a 4-byte little-endian payload length followed by the payload
//! bytes.  A declared length beyond the fixed maximum is rejected before any
//! allocation, bounding memory exposure; serializing the payloads themselves
//! is the unverified shell's work.

use vstd::prelude::*;
use crate::config::{GlobalSettings, PersistentState, Profile};
use crate::geom::CharacterSettings;
use crate::tables::NameTable;

verus! {

/// Upper bound on a message payload (10 MiB).
pub const MAX_MESSAGE_SIZE: usize = 10 * 1024 * 1024;

/// Requests an external configuration client sends to the daemon.
#[derive(Debug)]
pub enum PreviewRequest {
    /// Push a complete configuration; the daemon uses it from now on.
    SetProfile { profile: Profile, global: GlobalSettings },
    /// Query the current per-entity positions.
    GetPositions,
    /// Health check.
    Ping,
    /// Ask the daemon's control service to stop.
    Shutdown,
}

/// Responses and unsolicited events the daemon sends back.
#[derive(Debug)]
pub enum PreviewResponse {
    /// The current per-entity positions.
    Positions(NameTable<CharacterSettings>),
    /// Health check answer.
    Pong,
    /// An entity's thumbnail was dragged to a new place.
    PositionChanged { character: String, x: i16, y: i16, width: u16, height: u16 },
    /// A new entity window appeared.
    CharacterAdded { character: String, x: i16, y: i16, width: u16, height: u16 },
    /// An entity window went away.
    CharacterRemoved(String),
    /// The request was applied.
    Ready,
    /// The request failed.
    Error(String),
}

/// The four little-endian bytes of a 32-bit length.
pub open spec fn spec_le_bytes(n: u32) -> Seq<u8> {
    seq![
        (n % 256) as u8,
        ((n / 256) % 256) as u8,
        ((n / 65536) % 256) as u8,
        ((n / 16777216) % 256) as u8,
    ]
}

/// The 32-bit value the four little-endian bytes carry.
pub open spec fn spec_le_value(b0: u8, b1: u8, b2: u8, b3: u8) -> int {
    b0 + b1 * 256 + b2 * 65536 + b3 * 16777216
}

/// Little-endian encoding round-trips: decoding the four bytes of a length
/// gives the length back.
pub proof fn lemma_le_round_trip(n: u32)
    ensures
        spec_le_value(
            spec_le_bytes(n)[0],
            spec_le_bytes(n)[1],
            spec_le_bytes(n)[2],
            spec_le_bytes(n)[3],
        ) == n,
{
    assert((n % 256) + ((n / 256) % 256) * 256 + ((n / 65536) % 256) * 65536 + ((n / 16777216)
        % 256) * 16777216 == n) by (bit_vector);
}

/// Read a length prefix: the value of four little-endian bytes.
pub fn decode_length(b0: u8, b1: u8, b2: u8, b3: u8) -> (r: u32)
    ensures
        r == spec_le_value(b0, b1, b2, b3),
{
    b0 as u32 + b1 as u32 * 256 + b2 as u32 * 65536 + b3 as u32 * 16777216
}

/// Whether a declared payload length may be accepted; anything above the
/// maximum is rejected before allocation.
pub fn accept_length(len: u32) -> (r: bool)
    ensures
        r == (len <= MAX_MESSAGE_SIZE),
{
    len as usize <= MAX_MESSAGE_SIZE
}

/// Frame a serialized payload: its length as four little-endian bytes, then
/// the payload itself.  A payload over the maximum is refused.
pub fn frame_message(payload: &Vec<u8>) -> (r: Result<Vec<u8>, String>)
    ensures
        match r {
            Ok(frame) => payload@.len() <= MAX_MESSAGE_SIZE && frame@.len() == payload@.len() + 4
                && frame@.subrange(0, 4) == spec_le_bytes(payload@.len() as u32) && frame@.subrange(
                4,
                frame@.len() as int,
            ) == payload@,
            Err(e) => payload@.len() > MAX_MESSAGE_SIZE && e@
                == "message too large for the control socket"@,
        },
{
    let len = payload.len();
    if len > MAX_MESSAGE_SIZE {
        return Err("message too large for the control socket".to_owned());
    }
    let n = len as u32;
    let mut frame: Vec<u8> = Vec::new();
    frame.push((n % 256) as u8);
    frame.push(((n / 256) % 256) as u8);
    frame.push(((n / 65536) % 256) as u8);
    frame.push(((n / 16777216) % 256) as u8);
    let mut i: usize = 0;
    while i < len
        invariant
            0 <= i <= len,
            len == payload@.len(),
            len <= MAX_MESSAGE_SIZE,
            n == len as u32,
            frame@.len() == 4 + i,
            frame@.subrange(0, 4) =~= spec_le_bytes(n),
            frame@.subrange(4, frame@.len() as int) =~= payload@.take(i as int),
        decreases len - i,
    {
        frame.push(payload[i]);
        proof {
            assert(frame@.subrange(0, 4) =~= spec_le_bytes(n));
            assert(frame@.subrange(4, frame@.len() as int) =~= payload@.take(i + 1));
        }
        i = i + 1;
    }
    proof {
        assert(payload@.take(len as int) =~= payload@);
    }
    Ok(frame)
}

/// Apply one control request to the daemon state.  Returns the response to
/// send (none for a shutdown) and whether the control service should stop:
/// only a `Shutdown` request stops it.
pub fn handle_request(state: &mut PersistentState, req: PreviewRequest) -> (r: (
    Option<PreviewResponse>,
    bool,
))
    ensures
        match req {
            PreviewRequest::SetProfile { profile, global } => {
                &&& final(state).profile == profile
                &&& final(state).global == global
                &&& final(state).character_positions == old(state).character_positions
                &&& r.0 matches Some(PreviewResponse::Ready)
                &&& r.1 == false
            },
            PreviewRequest::GetPositions => {
                &&& *final(state) == *old(state)
                &&& (match r.0 {
                    Some(PreviewResponse::Positions(t)) => forall|k: Seq<char>|
                        t.spec_get(k) == old(state).character_positions.spec_get(k),
                    _ => false,
                })
                &&& r.1 == false
            },
            PreviewRequest::Ping => {
                &&& *final(state) == *old(state)
                &&& r.0 matches Some(PreviewResponse::Pong)
                &&& r.1 == false
            },
            PreviewRequest::Shutdown => {
                &&& *final(state) == *old(state)
                &&& r.0 is None
                &&& r.1 == true
            },
        },
{
    match req {
        PreviewRequest::SetProfile { profile, global } => {
            state.profile = profile;
            state.global = global;
            (Some(PreviewResponse::Ready), false)
        },
        PreviewRequest::GetPositions => {
            let positions = state.character_positions.duplicate();
            (Some(PreviewResponse::Positions(positions)), false)
        },
        PreviewRequest::Ping => (Some(PreviewResponse::Pong), false),
        PreviewRequest::Shutdown => (None, true),
    }
}

} // verus!
