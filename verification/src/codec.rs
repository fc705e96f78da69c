//! The frame codec: bit-exact translation between (message-type code,
//! payload bytes) and the wire byte sequence, and the reverse.
//!
//! A frame is `"i3-ipc"` (6 bytes), the payload length as 32-bit
//! little-endian, the type code as 32-bit little-endian, then exactly
//! `length` payload bytes. No maximum payload length is enforced beyond
//! what the 32-bit length field itself can carry.

use crate::error::IpcError;
use vstd::bytes::*;
use vstd::prelude::*;
use vstd::slice::*;

verus! {

/// Length of the magic prefix.
pub const MAGIC_LEN: usize = 6;

/// Length of a complete header: magic, payload length, type code.
pub const HEADER_LEN: usize = 14;

/// The six ASCII bytes of `"i3-ipc"` that begin every frame.
pub open spec fn magic_seq() -> Seq<u8> {
    seq![0x69u8, 0x33u8, 0x2du8, 0x69u8, 0x70u8, 0x63u8]
}

/// A byte sequence disagrees with the magic prefix when some position among
/// the first six both exists in it and differs from the magic byte there.
pub open spec fn magic_mismatch(b: Seq<u8>) -> bool {
    exists|i: int| 0 <= i < 6 && i < b.len() && b[i] != magic_seq()[i]
}

/// The wire bytes of one frame.
pub open spec fn frame_spec(code: u32, payload: Seq<u8>) -> Seq<u8>
    recommends
        payload.len() <= u32::MAX,
{
    magic_seq() + spec_u32_to_le_bytes(payload.len() as u32) + spec_u32_to_le_bytes(code)
        + payload
}

/// What decoding a buffer that should hold exactly one frame yields: the
/// type code and the payload, or the first error the wire rules force.
/// A bad magic prefix is fatal framing trouble; a buffer shorter than the
/// header plus the declared length means the stream closed early; trailing
/// bytes past the declared length mean the buffer is not one frame, which
/// is again a framing error.
pub open spec fn decode_spec(b: Seq<u8>) -> Result<(u32, Seq<u8>), IpcError> {
    if magic_mismatch(b) {
        Err(IpcError::Framing)
    } else if b.len() < 14 {
        Err(IpcError::UnexpectedEof)
    } else {
        let declared = spec_u32_from_le_bytes(b.subrange(6, 10)) as int;
        let code = spec_u32_from_le_bytes(b.subrange(10, 14));
        if b.len() < 14 + declared {
            Err(IpcError::UnexpectedEof)
        } else if b.len() > 14 + declared {
            Err(IpcError::Framing)
        } else {
            Ok((code, b.subrange(14, b.len() as int)))
        }
    }
}

/// Compares the start of `b` against the magic prefix, byte for byte, as
/// far as `b` reaches.
fn scan_magic(b: &[u8]) -> (ok: bool)
    ensures
        ok <==> !magic_mismatch(b@),
{
    let end: usize = if b.len() < MAGIC_LEN {
        b.len()
    } else {
        MAGIC_LEN
    };
    let mut i: usize = 0;
    while i < end
        invariant
            0 <= i <= end,
            end == if b@.len() < 6 { b@.len() as int } else { 6int },
            forall|j: int| 0 <= j < i ==> b@[j] == magic_seq()[j],
        decreases end - i,
    {
        let expected: u8 = magic_byte(i);
        if b[i] != expected {
            proof {
                assert(b@[i as int] != magic_seq()[i as int]);
            }
            return false;
        }
        i = i + 1;
    }
    true
}

/// The magic byte at position `i`.
fn magic_byte(i: usize) -> (r: u8)
    requires
        i < 6,
    ensures
        r == magic_seq()[i as int],
{
    if i == 0 {
        0x69
    } else if i == 1 {
        0x33
    } else if i == 2 {
        0x2d
    } else if i == 3 {
        0x69
    } else if i == 4 {
        0x70
    } else {
        0x63
    }
}

/// Encodes one frame: magic, little-endian payload length, little-endian
/// type code, then the payload verbatim. The declared length always equals
/// the payload's actual byte count, since both come from the same value.
pub fn encode(code: u32, payload: &[u8]) -> (frame: Vec<u8>)
    requires
        payload@.len() <= u32::MAX,
    ensures
        frame@ == frame_spec(code, payload@),
        frame@.len() == 14 + payload@.len(),
{
    let len32: u32 = payload.len() as u32;
    let mut frame: Vec<u8> = Vec::new();
    frame.push(0x69);
    frame.push(0x33);
    frame.push(0x2d);
    frame.push(0x69);
    frame.push(0x70);
    frame.push(0x63);
    let mut len_bytes = u32_to_le_bytes(len32);
    frame.append(&mut len_bytes);
    let mut code_bytes = u32_to_le_bytes(code);
    frame.append(&mut code_bytes);
    let mut body = slice_to_vec(payload);
    frame.append(&mut body);
    proof {
        lemma_auto_spec_u32_to_from_le_bytes();
        assert(len32 == payload@.len() as u32);
        assert(frame@ =~= frame_spec(code, payload@));
    }
    frame
}

/// Decodes the fixed-size header at the front of `b`: checks the magic
/// prefix and returns the declared payload length and the type code.
/// Bytes past the header are ignored.
pub fn decode_header(b: &[u8]) -> (r: Result<(u32, u32), IpcError>)
    ensures
        magic_mismatch(b@) ==> r == Err::<(u32, u32), IpcError>(IpcError::Framing),
        !magic_mismatch(b@) && b@.len() < 14 ==> r == Err::<(u32, u32), IpcError>(
            IpcError::UnexpectedEof,
        ),
        !magic_mismatch(b@) && b@.len() >= 14 ==> r == Ok::<(u32, u32), IpcError>(
            (
                spec_u32_from_le_bytes(b@.subrange(6, 10)),
                spec_u32_from_le_bytes(b@.subrange(10, 14)),
            ),
        ),
{
    if !scan_magic(b) {
        return Err(IpcError::Framing);
    }
    if b.len() < HEADER_LEN {
        return Err(IpcError::UnexpectedEof);
    }
    let declared = u32_from_le_bytes(slice_subrange(b, 6, 10));
    let code = u32_from_le_bytes(slice_subrange(b, 10, 14));
    Ok((declared, code))
}

/// Decodes a buffer that should hold exactly one complete frame, as
/// [`decode_spec`] states.
pub fn decode(b: &[u8]) -> (r: Result<(u32, Vec<u8>), IpcError>)
    ensures
        decode_spec(b@) matches Ok(p) ==> r matches Ok(q) && q.0 == p.0 && q.1@ == p.1,
        decode_spec(b@) matches Err(e) ==> r matches Err(e2) && e2 == e,
{
    let header = decode_header(b);
    match header {
        Err(e) => Err(e),
        Ok((declared, code)) => {
            let avail: usize = b.len() - HEADER_LEN;
            if (avail as u64) < (declared as u64) {
                Err(IpcError::UnexpectedEof)
            } else if (avail as u64) > (declared as u64) {
                Err(IpcError::Framing)
            } else {
                let payload = slice_to_vec(slice_subrange(b, HEADER_LEN, b.len()));
                Ok((code, payload))
            }
        },
    }
}

/// Law: the codec round-trips. An encoded frame has a clean magic prefix,
/// declares exactly the payload's byte count, and decodes back to exactly
/// the type code and payload that were encoded.
pub proof fn lemma_codec_roundtrip(code: u32, payload: Seq<u8>)
    requires
        payload.len() <= u32::MAX,
    ensures
        !magic_mismatch(frame_spec(code, payload)),
        frame_spec(code, payload).len() == 14 + payload.len(),
        spec_u32_from_le_bytes(frame_spec(code, payload).subrange(6, 10)) == payload.len(),
        spec_u32_from_le_bytes(frame_spec(code, payload).subrange(10, 14)) == code,
        decode_spec(frame_spec(code, payload)) == Ok::<(u32, Seq<u8>), IpcError>((code, payload)),
{
    lemma_auto_spec_u32_to_from_le_bytes();
    let f = frame_spec(code, payload);
    assert(f.len() == 14 + payload.len());
    assert forall|i: int| 0 <= i < 6 && i < f.len() implies f[i] == magic_seq()[i] by {
        assert(f[i] == magic_seq()[i]);
    }
    assert(!magic_mismatch(f));
    assert(f.subrange(6, 10) =~= spec_u32_to_le_bytes(payload.len() as u32));
    assert(f.subrange(10, 14) =~= spec_u32_to_le_bytes(code));
    assert(spec_u32_from_le_bytes(f.subrange(6, 10)) == payload.len() as u32);
    assert(payload.len() as u32 == payload.len());
    assert(f.subrange(14, f.len() as int) =~= payload);
}

/// Law: a buffer whose readable prefix disagrees with the magic constant
/// never decodes, whatever the remaining bytes hold; the failure is always
/// a framing error.
pub proof fn lemma_bad_magic_always_framing(b: Seq<u8>)
    requires
        magic_mismatch(b),
    ensures
        decode_spec(b) == Err::<(u32, Seq<u8>), IpcError>(IpcError::Framing),
{
}

/// Law: when the magic prefix is clean but the buffer ends before the
/// declared payload does, decoding reports the early close, never a
/// truncated success.
pub proof fn lemma_short_payload_is_eof(b: Seq<u8>)
    requires
        !magic_mismatch(b),
        b.len() >= 14,
        b.len() < 14 + spec_u32_from_le_bytes(b.subrange(6, 10)) as int,
    ensures
        decode_spec(b) == Err::<(u32, Seq<u8>), IpcError>(IpcError::UnexpectedEof),
{
}

} // verus!
