//! JSON payloads over the frame codec, through `serde_json`.
//!
//! Outbound: a structured value is serialized to JSON bytes and framed; a
//! value that cannot be serialized — or whose serialized form the 32-bit
//! length field cannot carry — is rejected before a single frame byte
//! exists, so a partial frame is never emitted. Inbound: a response payload
//! is parsed as one generic JSON document; the caller picks the typed shape
//! out of it. A parse failure is local to the exchange and distinct from
//! every transport failure.

use crate::codec::{encode, frame_spec};
use crate::error::IpcError;
use crate::msg::{msg_code, Msg};
use vstd::prelude::*;

verus! {

#[verifier::external_type_specification]
#[verifier::external_body]
pub struct ExJsonValue(serde_json::Value);

/// Whether a byte sequence parses as one JSON document. The outcome of the
/// parse is a function of the bytes alone.
pub uninterp spec fn json_parse_ok(b: Seq<u8>) -> bool;

/// Whether a JSON value serializes. The outcome is a function of the value
/// alone.
pub uninterp spec fn json_emit_ok(v: serde_json::Value) -> bool;

/// The bytes a JSON value serializes to. They are a function of the value
/// alone.
pub uninterp spec fn json_bytes_of(v: serde_json::Value) -> Seq<u8>;

/// Relies on serde_json::from_slice: parses the bytes as one JSON
/// document; whether they parse depends on the bytes alone.
#[verifier::external_body]
fn json_from_slice(b: &[u8]) -> (r: Option<serde_json::Value>)
    ensures
        r is Some <==> json_parse_ok(b@),
{
    serde_json::from_slice::<serde_json::Value>(b).ok()
}

/// Relies on serde_json::to_vec: serializes the value to JSON bytes;
/// whether it succeeds, and which bytes it emits, depend on the value
/// alone.
#[verifier::external_body]
fn json_to_vec(v: &serde_json::Value) -> (r: Option<Vec<u8>>)
    ensures
        r is Some <==> json_emit_ok(*v),
        r matches Some(b) ==> b@ == json_bytes_of(*v),
{
    serde_json::to_vec(v).ok()
}

/// Serializes `v` to JSON bytes and frames them as a request for `m`:
/// succeeds exactly when `v` serializes and its serialized form fits the
/// 32-bit length field, and then hands out the one complete frame carrying
/// `m`'s code and exactly those bytes. Otherwise the request is refused
/// before any frame byte is built.
pub fn build_request_json(m: Msg, v: &serde_json::Value) -> (r: Result<Vec<u8>, IpcError>)
    ensures
        r is Ok <==> json_emit_ok(*v) && json_bytes_of(*v).len() <= u32::MAX,
        r matches Ok(f) ==> f@ == frame_spec(msg_code(m), json_bytes_of(*v)),
        r matches Err(e) ==> e == IpcError::Serialization,
{
    match json_to_vec(v) {
        None => Err(IpcError::Serialization),
        Some(b) => {
            if (b.len() as u64) <= (u32::MAX as u64) {
                let code = m.code();
                let f = encode(code, b.as_slice());
                Ok(f)
            } else {
                Err(IpcError::Serialization)
            }
        },
    }
}

/// Parses a response payload as one generic JSON document: succeeds on
/// exactly the byte sequences that parse, and any failure is the decode
/// error, never a transport error.
pub fn parse_payload(b: &[u8]) -> (r: Result<serde_json::Value, IpcError>)
    ensures
        r is Ok <==> json_parse_ok(b@),
        r matches Err(e) ==> e == IpcError::Decode,
{
    match json_from_slice(b) {
        Some(v) => Ok(v),
        None => Err(IpcError::Decode),
    }
}

} // verus!
