//! Versioned, length-delimited relay signalling protocol.
//!
//! A frame is a big-endian `u32` length followed by that many payload bytes.
//! The length is checked against `MAX_MESSAGE_BYTES` before any buffer for the
//! payload is reserved. Turning a payload into a `Message` (JSON) is done by
//! the program around this library.
use vstd::prelude::*;

use crate::bytes::{append_bytes, be_u32_bytes, be_u32_value, lemma_be_u32_round_trip};

verus! {

/// Wire protocol revision spoken by this build.
pub const PROTOCOL_VERSION: u16 = 1;

/// Largest payload that a frame may announce.
pub const MAX_MESSAGE_BYTES: usize = 64 * 1024;

/// Signalling messages exchanged between endpoints and the relay.
/// Request and session identifiers are UUIDs, held as their 128-bit value.
#[allow(inconsistent_fields)]
#[derive(Clone, Debug, PartialEq, Eq)]
pub enum Message {
    Hello { protocol_version: u16, app_version: String },
    Challenge { nonce: Vec<u8> },
    Register { device_id: u32, public_key: Vec<u8>, signature: Vec<u8> },
    RegisterOk { device_id: u32 },
    Lookup { device_id: u32 },
    LookupResult { device_id: u32, online: bool },
    ConnectRequest { request_id: u128, from_device_id: u32, target_device_id: u32 },
    ConnectAccept { request_id: u128 },
    ConnectReject { request_id: u128, reason: RejectReason },
    SessionStart { session_id: u128 },
    SessionEnd { session_id: u128, reason: String },
    Ping { nonce: u64 },
    Pong { nonce: u64 },
    Error { code: ErrorCode, message: String },
}

/// Why a connection request was turned down.
#[derive(Clone, Copy, Debug, PartialEq, Eq)]
pub enum RejectReason {
    Expired,
    Rejected,
    TargetOffline,
    RateLimited,
}

/// Machine-readable class of an `Error` message.
#[derive(Clone, Copy, Debug, PartialEq, Eq)]
pub enum ErrorCode {
    InvalidMessage,
    IncompatibleProtocol,
    NotRegistered,
    TargetOffline,
    AuthenticationFailed,
    RateLimited,
    Internal,
}

/// Errors of the framed signalling protocol.
#[derive(Clone, Copy, Debug, PartialEq, Eq)]
pub enum ProtocolError {
    Io,
    TooLarge,
    InvalidJson,
    IncompatibleVersion,
}

/// Accepts exactly the protocol revision of this build.
pub fn require_compatible(version: u16) -> (r: Result<(), ProtocolError>)
    ensures
        r is Ok <==> version == PROTOCOL_VERSION,
        r is Err ==> r == Err::<(), ProtocolError>(ProtocolError::IncompatibleVersion),
{
    if version == PROTOCOL_VERSION {
        Ok(())
    } else {
        Err(ProtocolError::IncompatibleVersion)
    }
}

/// The ASCII text `JREMOTE/1 REGISTER` that opens every registration proof.
pub open spec fn registration_prefix() -> Seq<u8> {
    seq![74u8, 82, 69, 77, 79, 84, 69, 47, 49, 32, 82, 69, 71, 73, 83, 84, 69, 82]
}

/// The bytes that an endpoint signs to prove ownership of `device_id`
/// against the relay's challenge `nonce`.
pub open spec fn spec_registration_payload(nonce: Seq<u8>, device_id: u32) -> Seq<u8> {
    registration_prefix() + nonce + be_u32_bytes(device_id)
}

/// Builds the registration proof payload: the fixed prefix, the relay nonce,
/// then the device identifier in big-endian order.
pub fn registration_payload(nonce: &[u8], device_id: u32) -> (payload: Vec<u8>)
    ensures
        payload@ == spec_registration_payload(nonce@, device_id),
{
    // "JREMOTE/1 REGISTER" in ASCII.
    let prefix: [u8; 18] = [74, 82, 69, 77, 79, 84, 69, 47, 49, 32, 82, 69, 71, 73, 83, 84, 69, 82];
    let mut payload: Vec<u8> = Vec::new();
    append_bytes(&mut payload, prefix.as_slice());
    assert(prefix@ =~= registration_prefix());
    append_bytes(&mut payload, nonce);
    let id_bytes = crate::bytes::u32_to_be_bytes(device_id);
    append_bytes(&mut payload, id_bytes.as_slice());
    assert(payload@ =~= spec_registration_payload(nonce@, device_id));
    payload
}

/// The frame that carries `payload`.
pub open spec fn spec_frame(payload: Seq<u8>) -> Seq<u8> {
    be_u32_bytes(payload.len() as u32) + payload
}

/// Wraps an encoded message in a length-delimited frame. Payloads over the
/// protocol limit are refused before anything is written.
pub fn encode_frame(payload: &[u8]) -> (r: Result<Vec<u8>, ProtocolError>)
    ensures
        payload@.len() > MAX_MESSAGE_BYTES ==> r == Err::<Vec<u8>, ProtocolError>(
            ProtocolError::TooLarge,
        ),
        payload@.len() <= MAX_MESSAGE_BYTES ==> (r matches Ok(frame) && frame@ == spec_frame(
            payload@,
        )),
{
    if payload.len() > MAX_MESSAGE_BYTES {
        return Err(ProtocolError::TooLarge);
    }
    let length_bytes = crate::bytes::u32_to_be_bytes(payload.len() as u32);
    let mut frame: Vec<u8> = Vec::new();
    append_bytes(&mut frame, length_bytes.as_slice());
    append_bytes(&mut frame, payload);
    assert(frame@ =~= spec_frame(payload@));
    Ok(frame)
}

/// Reads the payload length announced by a frame header. A length over the
/// protocol limit is refused, so no buffer is ever reserved for it.
pub fn frame_length(header: [u8; 4]) -> (r: Result<usize, ProtocolError>)
    ensures
        be_u32_value(header@) > MAX_MESSAGE_BYTES ==> r == Err::<usize, ProtocolError>(
            ProtocolError::TooLarge,
        ),
        be_u32_value(header@) <= MAX_MESSAGE_BYTES ==> r == Ok::<usize, ProtocolError>(
            be_u32_value(header@) as usize,
        ),
{
    let length = crate::bytes::be_bytes_to_u32(header);
    if length as usize > MAX_MESSAGE_BYTES {
        Err(ProtocolError::TooLarge)
    } else {
        Ok(length as usize)
    }
}

/// A frame's header announces exactly its payload's length, and the payload
/// follows it unchanged: reading back what `encode_frame` wrote gives the
/// original payload.
pub proof fn law_frame_round_trip(payload: Seq<u8>)
    requires
        payload.len() <= MAX_MESSAGE_BYTES,
    ensures
        spec_frame(payload).len() == payload.len() + 4,
        be_u32_value(spec_frame(payload).subrange(0, 4)) == payload.len(),
        spec_frame(payload).subrange(4, spec_frame(payload).len() as int) == payload,
{
    lemma_be_u32_round_trip(payload.len() as u32);
    assert(spec_frame(payload).subrange(0, 4) =~= be_u32_bytes(payload.len() as u32));
    assert(spec_frame(payload).subrange(4, spec_frame(payload).len() as int) =~= payload);
}

/// The registration payload determines the device identifier it was built
/// for: its last four bytes are that identifier in big-endian order.
pub proof fn law_registration_payload_names_device(nonce: Seq<u8>, device_id: u32)
    ensures
        ({
            let p = spec_registration_payload(nonce, device_id);
            &&& p.len() == 22 + nonce.len()
            &&& be_u32_value(p.subrange(p.len() - 4, p.len() as int)) == device_id
        }),
{
    let p = spec_registration_payload(nonce, device_id);
    lemma_be_u32_round_trip(device_id);
    assert(p.subrange(p.len() - 4, p.len() as int) =~= be_u32_bytes(device_id));
}

} // verus!
