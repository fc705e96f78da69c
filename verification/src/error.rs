use vstd::prelude::*;

verus! {

/// How an exchange can fail. Every failure is surfaced to the caller as a
/// typed result; nothing is retried internally.
#[derive(Clone, Copy, Debug, PartialEq, Eq, Structural)]
pub enum IpcError {
    /// The leading magic bytes of a frame did not match `"i3-ipc"`. The
    /// stream is desynchronized and must not be reused.
    Framing,
    /// A structured payload could not be serialized before the send, or its
    /// serialized form cannot be framed. No bytes were written, so the
    /// stream is still usable.
    Serialization,
    /// The payload bytes did not parse as the expected structured shape.
    /// Local to the exchange; the header/body split is still trusted.
    Decode,
    /// The underlying transport failed mid-frame.
    Io,
    /// The stream closed before a complete frame had arrived.
    UnexpectedEof,
}

} // verus!
