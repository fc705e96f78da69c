//! An in-memory duplex stream and the engine's primitives over it.
//!
//! [`SimStream`] models the byte channel the engine is specified against:
//! an ordered, reliable stream with one side writing requests and the other
//! delivering response bytes. The three primitives — [`write_request`],
//! [`read_response`] and the composed [`exchange`] — take the stream by
//! exclusive ownership and hand it back only on success, so a stream whose
//! framing position is indeterminate after a failure cannot be reused.
//!
//! The same round trip on a real socket is had by driving
//! [`crate::exchange::Exchange`] over that socket instead.

use crate::codec::{frame_spec, magic_mismatch, magic_seq, HEADER_LEN};
use crate::error::IpcError;
use crate::exchange::{Exchange, StreamAction, StreamEvent};
use crate::msg::{msg_code, Msg};
use vstd::bytes::spec_u32_from_le_bytes;
use vstd::prelude::*;
use vstd::slice::{slice_subrange, slice_to_vec};

verus! {

/// An in-memory duplex byte stream: everything written so far, the bytes
/// the far side will deliver, how many of them were already read, and
/// whether writes are currently delivered or fail.
#[derive(Debug)]
pub struct SimStream {
    /// Every byte written to the stream so far, in order.
    pub written: Vec<u8>,
    /// The bytes the far side delivers, in order.
    pub incoming: Vec<u8>,
    /// How many of `incoming` have already been read.
    pub consumed: usize,
    /// Whether writes are delivered; when false every write fails whole.
    pub write_ok: bool,
}

/// The bytes of `s` not yet read.
pub open spec fn unread(s: SimStream) -> Seq<u8> {
    s.incoming@.subrange(s.consumed as int, s.incoming@.len() as int)
}

/// What reading one response frame from the byte sequence `rest` yields:
/// the type code and payload of the frame at its front, or the first error
/// the read discipline hits. The header is read before anything is judged,
/// so a stream that closes inside the header reports the early close; a bad
/// magic prefix is fatal before any payload byte is asked for; and a close
/// before the declared payload count is an early close, never a truncated
/// success. Bytes past the one frame are left alone.
pub open spec fn read_outcome(rest: Seq<u8>) -> Result<(u32, Seq<u8>), IpcError> {
    if rest.len() < 14 {
        Err(IpcError::UnexpectedEof)
    } else if magic_mismatch(rest) {
        Err(IpcError::Framing)
    } else {
        let declared = spec_u32_from_le_bytes(rest.subrange(6, 10)) as int;
        if rest.len() < 14 + declared {
            Err(IpcError::UnexpectedEof)
        } else {
            Ok((spec_u32_from_le_bytes(rest.subrange(10, 14)), rest.subrange(14, 14 + declared)))
        }
    }
}

impl SimStream {
    /// The stream never claims to have read bytes it was not given.
    pub open spec fn wf(self) -> bool {
        self.consumed <= self.incoming@.len()
    }

    /// A fresh stream that will deliver `incoming` and accepts writes.
    pub fn new(incoming: Vec<u8>) -> (s: SimStream)
        ensures
            s.wf(),
            s.incoming@ == incoming@,
            s.written@ == Seq::<u8>::empty(),
            s.consumed == 0,
            s.write_ok,
    {
        SimStream { written: Vec::new(), incoming, consumed: 0, write_ok: true }
    }

    /// A stream whose writes fail whole, as over a broken transport.
    pub fn new_broken(incoming: Vec<u8>) -> (s: SimStream)
        ensures
            s.wf(),
            s.incoming@ == incoming@,
            s.written@ == Seq::<u8>::empty(),
            s.consumed == 0,
            !s.write_ok,
    {
        SimStream { written: Vec::new(), incoming, consumed: 0, write_ok: false }
    }

    /// Writes `data` in full, or fails without delivering any byte of it.
    pub fn write_all(&mut self, data: &[u8]) -> (ok: bool)
        ensures
            ok == old(self).write_ok,
            final(self).incoming@ == old(self).incoming@,
            final(self).consumed == old(self).consumed,
            final(self).write_ok == old(self).write_ok,
            ok ==> final(self).written@ == old(self).written@ + data@,
            !ok ==> final(self).written@ == old(self).written@,
    {
        if self.write_ok {
            let mut d = slice_to_vec(data);
            self.written.append(&mut d);
            true
        } else {
            false
        }
    }

    /// Reads exactly `n` bytes, or reports closure once the far side has
    /// nothing more to deliver; a closing read drains the stream.
    pub fn read_exact(&mut self, n: usize) -> (r: Option<Vec<u8>>)
        requires
            old(self).wf(),
        ensures
            final(self).wf(),
            final(self).written@ == old(self).written@,
            final(self).incoming@ == old(self).incoming@,
            final(self).write_ok == old(self).write_ok,
            old(self).consumed + n <= old(self).incoming@.len() ==> (r matches Some(b) && b@
                == old(self).incoming@.subrange(
                old(self).consumed as int,
                old(self).consumed + n,
            ) && final(self).consumed == old(self).consumed + n),
            old(self).consumed + n > old(self).incoming@.len() ==> r is None
                && final(self).consumed == old(self).incoming@.len(),
    {
        if n <= self.incoming.len() - self.consumed {
            let end: usize = self.consumed + n;
            let out = slice_to_vec(slice_subrange(self.incoming.as_slice(), self.consumed, end));
            self.consumed = end;
            Some(out)
        } else {
            self.consumed = self.incoming.len();
            None
        }
    }
}

/// Writes one request frame for `m` with `payload` fully onto the stream
/// and hands the stream back; a failed write abandons the exchange and the
/// stream with it, surfacing an I/O error.
pub fn write_request(stream: SimStream, m: Msg, payload: &[u8]) -> (r: Result<SimStream, IpcError>)
    requires
        stream.wf(),
        payload@.len() <= u32::MAX,
    ensures
        r is Ok <==> stream.write_ok,
        r matches Ok(s) ==> s.wf() && s.written@ == stream.written@ + frame_spec(
            msg_code(m),
            payload@,
        ) && s.incoming@ == stream.incoming@ && s.consumed == stream.consumed && s.write_ok,
        r matches Err(e) ==> e == IpcError::Io,
{
    let mut s = stream;
    let (ex, act) = Exchange::begin(m.code(), payload);
    match act {
        StreamAction::Write(frame) => {
            if s.write_all(frame.as_slice()) {
                Ok(s)
            } else {
                Err(IpcError::Io)
            }
        },
        _ => {
            proof {
                assert(false);
            }
            Err(IpcError::Io)
        },
    }
}

/// Reads exactly one response frame from the stream: the fixed-size header
/// first, then exactly the declared payload count, never more. On success
/// the stream comes back beside the type code and payload, positioned just
/// past the frame; on any failure the stream is abandoned.
pub fn read_response(stream: SimStream) -> (r: Result<(SimStream, u32, Vec<u8>), IpcError>)
    requires
        stream.wf(),
    ensures
        read_outcome(unread(stream)) matches Ok(p) ==> (r matches Ok(t) && t.1 == p.0 && t.2@
            == p.1 && t.0.wf() && t.0.written@ == stream.written@ && t.0.incoming@
            == stream.incoming@ && t.0.write_ok == stream.write_ok && t.0.consumed
            == stream.consumed + 14 + p.1.len()),
        read_outcome(unread(stream)) matches Err(e) ==> (r matches Err(e2) && e2 == e),
{
    let ghost rest = unread(stream);
    let mut s = stream;
    let ex0 = Exchange::AwaitingHeader;
    match s.read_exact(HEADER_LEN) {
        None => {
            let (ex1, _act1) = ex0.step(StreamEvent::Closed);
            match ex1.finish() {
                Err(e) => Err(e),
                Ok(_) => {
                    proof {
                        assert(false);
                    }
                    Err(IpcError::Io)
                },
            }
        },
        Some(h) => {
            let ghost hseq = h@;
            proof {
                assert(hseq =~= rest.subrange(0, 14));
                assert(hseq.subrange(6, 10) =~= rest.subrange(6, 10));
                assert(hseq.subrange(10, 14) =~= rest.subrange(10, 14));
                assert(magic_mismatch(rest) ==> magic_mismatch(hseq)) by {
                    if magic_mismatch(rest) {
                        let i = choose|i: int|
                            0 <= i < 6 && i < rest.len() && rest[i] != magic_seq()[i];
                        assert(0 <= i < 6 && i < hseq.len() && hseq[i] != magic_seq()[i]);
                    }
                }
                assert(magic_mismatch(hseq) ==> magic_mismatch(rest)) by {
                    if magic_mismatch(hseq) {
                        let i = choose|i: int|
                            0 <= i < 6 && i < hseq.len() && hseq[i] != magic_seq()[i];
                        assert(0 <= i < 6 && i < rest.len() && rest[i] != magic_seq()[i]);
                    }
                }
            }
            let (ex1, act1) = ex0.step(StreamEvent::Bytes(h));
            match act1 {
                StreamAction::Stop => match ex1.finish() {
                    Err(e) => Err(e),
                    Ok((code, payload)) => {
                        proof {
                            assert(payload@ =~= rest.subrange(14, 14));
                        }
                        Ok((s, code, payload))
                    },
                },
                StreamAction::Read(n) => match s.read_exact(n) {
                    None => {
                        let (ex2, _act2) = ex1.step(StreamEvent::Closed);
                        match ex2.finish() {
                            Err(e) => Err(e),
                            Ok(_) => {
                                proof {
                                    assert(false);
                                }
                                Err(IpcError::Io)
                            },
                        }
                    },
                    Some(p) => {
                        let ghost pseq = p@;
                        let (ex2, _act2) = ex1.step(StreamEvent::Bytes(p));
                        proof {
                            assert(pseq =~= rest.subrange(14, 14 + n as int));
                        }
                        match ex2.finish() {
                            Err(e) => {
                                proof {
                                    assert(false);
                                }
                                Err(e)
                            },
                            Ok((code, payload)) => Ok((s, code, payload)),
                        }
                    },
                },
                StreamAction::Write(_) => {
                    proof {
                        assert(false);
                    }
                    Err(IpcError::Io)
                },
            }
        },
    }
}

/// One full exchange: the request is written first, and only a fully
/// delivered request is followed by a read — a failed write short-circuits
/// with nothing read. On success the stream comes back for the next
/// exchange beside the response's type code and payload bytes.
pub fn exchange(stream: SimStream, m: Msg, payload: &[u8]) -> (r: Result<
    (SimStream, u32, Vec<u8>),
    IpcError,
>)
    requires
        stream.wf(),
        payload@.len() <= u32::MAX,
    ensures
        !stream.write_ok ==> (r matches Err(e) && e == IpcError::Io),
        stream.write_ok ==> ({
            match read_outcome(unread(stream)) {
                Ok(p) => r matches Ok(t) && t.1 == p.0 && t.2@ == p.1 && t.0.wf() && t.0.written@
                    == stream.written@ + frame_spec(msg_code(m), payload@) && t.0.incoming@
                    == stream.incoming@ && t.0.write_ok && t.0.consumed == stream.consumed + 14
                    + p.1.len(),
                Err(e) => r matches Err(e2) && e2 == e,
            }
        }),
{
    match write_request(stream, m, payload) {
        Err(e) => Err(e),
        Ok(s) => read_response(s),
    }
}

/// Law: a response delivered as one well-formed frame is read back
/// exactly: the read yields the very type code and payload the frame was
/// encoded from.
pub proof fn lemma_frame_read_outcome(code: u32, payload: Seq<u8>)
    requires
        payload.len() <= u32::MAX,
    ensures
        read_outcome(frame_spec(code, payload)) == Ok::<(u32, Seq<u8>), IpcError>((code, payload)),
{
    crate::codec::lemma_codec_roundtrip(code, payload);
    let f = frame_spec(code, payload);
    assert(f.subrange(14, f.len() as int) == payload);
}

/// Law: sequential exchanges on one stream never interleave on the wire.
/// After a first exchange extends the written bytes by its whole frame and
/// a second then extends them by its own, the first frame stands complete
/// before any byte of the second; no byte of the second frame is observed
/// before the first exchange has finished with the stream.
pub proof fn lemma_sequential_exchanges_ordered(w0: Seq<u8>, f1: Seq<u8>, f2: Seq<u8>)
    ensures
        ({
            let w2 = (w0 + f1) + f2;
            &&& w2.subrange(w0.len() as int, (w0.len() + f1.len()) as int) == f1
            &&& w2.subrange((w0.len() + f1.len()) as int, w2.len() as int) == f2
            &&& w2.subrange(0, (w0.len() + f1.len()) as int) == w0 + f1
        }),
{
    let w2 = (w0 + f1) + f2;
    assert(w2.subrange(w0.len() as int, (w0.len() + f1.len()) as int) =~= f1);
    assert(w2.subrange((w0.len() + f1.len()) as int, w2.len() as int) =~= f2);
    assert(w2.subrange(0, (w0.len() + f1.len()) as int) =~= w0 + f1);
}

} // verus!
