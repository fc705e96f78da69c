//! Transport engine for the i3 window manager's IPC protocol.
//!
//! The engine frames requests onto a duplex byte stream and decodes framed
//! responses. Every frame is the six magic bytes `"i3-ipc"`, a 32-bit
//! little-endian payload length, a 32-bit little-endian message-type code,
//! and exactly that many payload bytes.
//!
//! The pieces:
//! - [`codec`] translates between (type code, payload bytes) and the wire
//!   byte sequence, in both directions.
//! - [`msg`] is the closed set of request operation codes.
//! - [`exchange`] drives one request/response round trip as a state machine
//!   from stream events to stream actions, so that any byte transport can
//!   host it.
//! - [`transport`] runs the machine over an in-memory stream and states the
//!   engine's guarantees about what is written and read.
//! - [`json`] frames and checks JSON payloads through `serde_json`.

pub mod codec;
pub mod error;
pub mod exchange;
pub mod json;
pub mod msg;
pub mod transport;
