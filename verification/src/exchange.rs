//! The exchange orchestrator: one request/response round trip as a state
//! machine from stream events to stream actions.
//!
//! [`Exchange::begin`] hands out the encoded request frame together with the
//! single write action of the whole exchange; every later [`Exchange::step`]
//! asks only for reads or for nothing. The host performs each action on its
//! byte stream and feeds the outcome back as a [`StreamEvent`]. On a write
//! failure the machine stops at once without ever asking for a read, so
//! nothing coherent is ever read after a half-sent request.

use crate::codec::{decode_header, encode, frame_spec, magic_mismatch, HEADER_LEN};
use crate::error::IpcError;
use vstd::bytes::spec_u32_from_le_bytes;
use vstd::prelude::*;

verus! {

/// The phase of one request/response round trip.
#[derive(Debug)]
pub enum Exchange {
    /// The request frame has been handed out; its write result is awaited.
    Sending,
    /// The request was delivered; the fixed-size response header is awaited.
    AwaitingHeader,
    /// The header was decoded; exactly `need` payload bytes are awaited.
    AwaitingPayload { code: u32, need: u32 },
    /// The response arrived in full.
    Complete { code: u32, payload: Vec<u8> },
    /// The exchange failed; the stream must not be reused.
    Failed { error: IpcError },
}

/// What the stream reported back after the last action.
#[derive(Debug)]
pub enum StreamEvent {
    /// The whole request frame was delivered.
    WriteDone,
    /// The transport failed before the frame was fully delivered.
    WriteFailed,
    /// A read handed back exactly the requested bytes.
    Bytes(Vec<u8>),
    /// The stream closed before the requested bytes had arrived.
    Closed,
    /// The transport failed during a read.
    ReadFailed,
}

/// What the host must do next on its stream.
#[derive(Debug)]
pub enum StreamAction {
    /// Write these bytes in full.
    Write(Vec<u8>),
    /// Read exactly this many bytes.
    Read(usize),
    /// The exchange is over; take its outcome with [`Exchange::finish`].
    Stop,
}

impl Exchange {
    /// The events a phase can answer: the outcome of a write while sending,
    /// the outcome of a read (with exactly the requested byte count) while
    /// reading, and nothing once the exchange is over.
    pub open spec fn accepts(self, ev: StreamEvent) -> bool {
        match self {
            Exchange::Sending => ev is WriteDone || ev is WriteFailed,
            Exchange::AwaitingHeader => (ev matches StreamEvent::Bytes(b) && b@.len() == 14)
                || ev is Closed || ev is ReadFailed,
            Exchange::AwaitingPayload { code, need } => (ev matches StreamEvent::Bytes(b)
                && b@.len() == need) || ev is Closed || ev is ReadFailed,
            Exchange::Complete { .. } => false,
            Exchange::Failed { .. } => false,
        }
    }

    /// Whether the exchange is over, one way or the other.
    pub open spec fn done(self) -> bool {
        self is Complete || self is Failed
    }

    /// Opens an exchange: encodes the request frame and hands it out as the
    /// one write action of the whole round trip.
    pub fn begin(code: u32, payload: &[u8]) -> (r: (Exchange, StreamAction))
        requires
            payload@.len() <= u32::MAX,
        ensures
            r.0 is Sending,
            r.1 matches StreamAction::Write(f) && f@ == frame_spec(code, payload@),
    {
        let frame = encode(code, payload);
        (Exchange::Sending, StreamAction::Write(frame))
    }

    /// Answers one stream event with the next phase and the next action.
    ///
    /// A failed write ends the exchange at once: the machine never asks for
    /// a read afterwards, since nothing coherent can be read behind a
    /// half-sent request. No step ever asks for a write; the single write
    /// of an exchange is the one handed out by [`Exchange::begin`], so a
    /// second request on the same stream can only be written once this
    /// exchange has stopped and its outcome was taken.
    pub fn step(self, ev: StreamEvent) -> (r: (Exchange, StreamAction))
        requires
            self.accepts(ev),
        ensures
            !(r.1 is Write),
            r.0.done() <==> r.1 is Stop,
            ({
                match (self, ev) {
                    (Exchange::Sending, StreamEvent::WriteDone) => r.0 is AwaitingHeader && (
                    r.1 matches StreamAction::Read(n) && n == 14),
                    (Exchange::Sending, StreamEvent::WriteFailed) => (r.0 matches Exchange::Failed {
                        error,
                    } && error == IpcError::Io),
                    (Exchange::AwaitingHeader, StreamEvent::Bytes(h)) => {
                        if magic_mismatch(h@) {
                            (r.0 matches Exchange::Failed { error } && error == IpcError::Framing)
                        } else {
                            let declared = spec_u32_from_le_bytes(h@.subrange(6, 10));
                            let code = spec_u32_from_le_bytes(h@.subrange(10, 14));
                            if declared == 0 {
                                (r.0 matches Exchange::Complete { code: c, payload } && c == code
                                    && payload@ == Seq::<u8>::empty())
                            } else {
                                (r.0 matches Exchange::AwaitingPayload { code: c, need }
                                    && c == code && need == declared) && (
                                r.1 matches StreamAction::Read(n) && n == declared as usize)
                            }
                        }
                    },
                    (Exchange::AwaitingPayload { code, need }, StreamEvent::Bytes(p)) => (
                    r.0 matches Exchange::Complete { code: c, payload } && c == code && payload@
                        == p@),
                    (Exchange::AwaitingHeader, StreamEvent::Closed) => (
                    r.0 matches Exchange::Failed { error } && error == IpcError::UnexpectedEof),
                    (Exchange::AwaitingPayload { .. }, StreamEvent::Closed) => (
                    r.0 matches Exchange::Failed { error } && error == IpcError::UnexpectedEof),
                    (Exchange::AwaitingHeader, StreamEvent::ReadFailed) => (
                    r.0 matches Exchange::Failed { error } && error == IpcError::Io),
                    (Exchange::AwaitingPayload { .. }, StreamEvent::ReadFailed) => (
                    r.0 matches Exchange::Failed { error } && error == IpcError::Io),
                    _ => true,
                }
            }),
    {
        match self {
            Exchange::Sending => match ev {
                StreamEvent::WriteDone => (Exchange::AwaitingHeader, StreamAction::Read(
                    HEADER_LEN,
                )),
                _ => (Exchange::Failed { error: IpcError::Io }, StreamAction::Stop),
            },
            Exchange::AwaitingHeader => match ev {
                StreamEvent::Bytes(h) => match decode_header(h.as_slice()) {
                    Err(e) => (Exchange::Failed { error: e }, StreamAction::Stop),
                    Ok((declared, code)) => {
                        if declared == 0 {
                            (
                                Exchange::Complete { code, payload: Vec::new() },
                                StreamAction::Stop,
                            )
                        } else {
                            (
                                Exchange::AwaitingPayload { code, need: declared },
                                StreamAction::Read(declared as usize),
                            )
                        }
                    },
                },
                StreamEvent::Closed => (
                    Exchange::Failed { error: IpcError::UnexpectedEof },
                    StreamAction::Stop,
                ),
                _ => (Exchange::Failed { error: IpcError::Io }, StreamAction::Stop),
            },
            Exchange::AwaitingPayload { code, need } => match ev {
                StreamEvent::Bytes(p) => (
                    Exchange::Complete { code, payload: p },
                    StreamAction::Stop,
                ),
                StreamEvent::Closed => (
                    Exchange::Failed { error: IpcError::UnexpectedEof },
                    StreamAction::Stop,
                ),
                _ => (Exchange::Failed { error: IpcError::Io }, StreamAction::Stop),
            },
            _ => (Exchange::Failed { error: IpcError::Io }, StreamAction::Stop),
        }
    }

    /// The outcome of a finished exchange: the response's type code and
    /// payload bytes, or the error that ended it.
    pub fn finish(self) -> (r: Result<(u32, Vec<u8>), IpcError>)
        requires
            self.done(),
        ensures
            self matches Exchange::Complete { code, payload } ==> r matches Ok(p) && p.0 == code
                && p.1@ == payload@,
            self matches Exchange::Failed { error } ==> r matches Err(e) && e == error,
    {
        match self {
            Exchange::Complete { code, payload } => Ok((code, payload)),
            Exchange::Failed { error } => Err(error),
            _ => Err(IpcError::Io),
        }
    }
}

} // verus!
