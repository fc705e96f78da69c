use i3_ipc::error::IpcError;
use i3_ipc::exchange::{Exchange, StreamAction, StreamEvent};
use i3_ipc::json::{build_request_json, parse_payload};
use i3_ipc::msg::Msg;
use i3_ipc::transport::{exchange, read_response, write_request, SimStream};

/// The wire bytes a frame must have, built independently of the library.
fn wire(code: u32, payload: &[u8]) -> Vec<u8> {
    let mut v = Vec::new();
    v.extend_from_slice(b"i3-ipc");
    v.extend_from_slice(&(payload.len() as u32).to_le_bytes());
    v.extend_from_slice(&code.to_le_bytes());
    v.extend_from_slice(payload);
    v
}

#[test]
fn exchange_writes_request_and_reads_response() {
    let response = wire(1, b"[{\"num\": 1}]");
    let stream = SimStream::new(response);
    let (stream, code, payload) = exchange(stream, Msg::Workspaces, b"").unwrap();
    assert_eq!(code, 1);
    assert_eq!(payload, b"[{\"num\": 1}]".to_vec());
    assert_eq!(stream.written, wire(1, b""));
    assert_eq!(stream.consumed, 14 + 12);
}

#[test]
fn write_failure_short_circuits_without_reading() {
    // The far side has a perfectly good response queued; a failed write
    // must surface the I/O error without a single read being attempted.
    let response = wire(0, b"[{\"success\": true}]");
    let mut stream = SimStream::new_broken(response);
    let r = write_request(stream, Msg::RunCommand, b"exec firefox");
    assert_eq!(r.err(), Some(IpcError::Io));

    // The same observed through the state machine: after a failed write it
    // stops at once; it never asks for a read.
    let (ex, act) = Exchange::begin(0, b"exec firefox");
    assert!(matches!(act, StreamAction::Write(_)));
    let (ex, act) = ex.step(StreamEvent::WriteFailed);
    assert!(matches!(act, StreamAction::Stop));
    assert!(matches!(ex, Exchange::Failed { error: IpcError::Io }));

    // And through the composed exchange on a fresh broken stream.
    stream = SimStream::new_broken(wire(0, b"[]"));
    assert_eq!(exchange(stream, Msg::RunCommand, b"exec firefox").err(), Some(IpcError::Io));
}

#[test]
fn sequential_exchanges_do_not_interleave() {
    let mut incoming = wire(1, b"[1]");
    incoming.extend_from_slice(&wire(4, b"{\"id\": 2}"));
    let stream = SimStream::new(incoming);

    let (stream, code1, payload1) = exchange(stream, Msg::Workspaces, b"").unwrap();
    let (stream, code2, payload2) = exchange(stream, Msg::Tree, b"").unwrap();

    assert_eq!(code1, 1);
    assert_eq!(payload1, b"[1]".to_vec());
    assert_eq!(code2, 4);
    assert_eq!(payload2, b"{\"id\": 2}".to_vec());

    // The first request frame stands complete on the wire before any byte
    // of the second.
    let f1 = wire(1, b"");
    let f2 = wire(4, b"");
    let mut expected = f1.clone();
    expected.extend_from_slice(&f2);
    assert_eq!(stream.written, expected);
    assert_eq!(&stream.written[..f1.len()], &f1[..]);
    assert_eq!(&stream.written[f1.len()..], &f2[..]);
}

#[test]
fn short_payload_on_stream_is_eof() {
    // A header claiming ten payload bytes followed by only four before the
    // stream closes: the read fails with the early close, never with a
    // four-byte result.
    let mut incoming = Vec::new();
    incoming.extend_from_slice(b"i3-ipc");
    incoming.extend_from_slice(&10u32.to_le_bytes());
    incoming.extend_from_slice(&7u32.to_le_bytes());
    incoming.extend_from_slice(b"0123");
    let stream = SimStream::new(incoming);
    assert_eq!(read_response(stream).err(), Some(IpcError::UnexpectedEof));
}

#[test]
fn closed_before_header_is_eof() {
    let stream = SimStream::new(b"i3-ip".to_vec());
    assert_eq!(read_response(stream).err(), Some(IpcError::UnexpectedEof));
}

#[test]
fn bad_magic_on_stream_is_framing_without_payload_read() {
    let mut incoming = Vec::new();
    incoming.extend_from_slice(b"X3-ipc");
    incoming.extend_from_slice(&10u32.to_le_bytes());
    incoming.extend_from_slice(&0u32.to_le_bytes());
    incoming.extend_from_slice(b"0123456789");
    let stream = SimStream::new(incoming.clone());
    assert_eq!(read_response(stream).err(), Some(IpcError::Framing));

    // Through the machine: the altered magic ends the exchange at the
    // header step; no payload read is ever asked for.
    let ex = Exchange::AwaitingHeader;
    let (ex, act) = ex.step(StreamEvent::Bytes(incoming[..14].to_vec()));
    assert!(matches!(act, StreamAction::Stop));
    assert!(matches!(ex, Exchange::Failed { error: IpcError::Framing }));
}

#[test]
fn machine_completes_full_round_trip() {
    let (ex, act) = Exchange::begin(11, b"tick");
    let frame = match act {
        StreamAction::Write(f) => f,
        _ => panic!("the first action must be the request write"),
    };
    assert_eq!(frame, wire(11, b"tick"));

    let (ex, act) = ex.step(StreamEvent::WriteDone);
    assert!(matches!(act, StreamAction::Read(14)));

    let response = wire(11, b"{\"success\": true}");
    let (ex, act) = ex.step(StreamEvent::Bytes(response[..14].to_vec()));
    assert!(matches!(act, StreamAction::Read(17)));

    let (ex, act) = ex.step(StreamEvent::Bytes(response[14..].to_vec()));
    assert!(matches!(act, StreamAction::Stop));
    let (code, payload) = ex.finish().unwrap();
    assert_eq!(code, 11);
    assert_eq!(payload, b"{\"success\": true}".to_vec());
}

#[test]
fn machine_zero_length_payload_completes_at_header() {
    let ex = Exchange::AwaitingHeader;
    let header = wire(10, b"");
    let (ex, act) = ex.step(StreamEvent::Bytes(header));
    assert!(matches!(act, StreamAction::Stop));
    let (code, payload) = ex.finish().unwrap();
    assert_eq!(code, 10);
    assert!(payload.is_empty());
}

#[test]
fn machine_closure_mid_payload_is_eof() {
    let ex = Exchange::AwaitingPayload { code: 4, need: 10 };
    let (ex, act) = ex.step(StreamEvent::Closed);
    assert!(matches!(act, StreamAction::Stop));
    assert_eq!(ex.finish().err(), Some(IpcError::UnexpectedEof));
}

#[test]
fn machine_read_failure_is_io() {
    let ex = Exchange::AwaitingHeader;
    let (ex, _act) = ex.step(StreamEvent::ReadFailed);
    assert_eq!(ex.finish().err(), Some(IpcError::Io));
}

#[test]
fn read_exact_drains_on_closure() {
    let mut s = SimStream::new(vec![1u8, 2, 3]);
    assert_eq!(s.read_exact(2), Some(vec![1u8, 2]));
    assert_eq!(s.read_exact(2), None);
    assert_eq!(s.consumed, 3);
}

#[test]
fn json_request_round_trips_through_the_codec() {
    let ids = serde_json::Value::Array(vec![
        serde_json::Value::String("bar-0".to_string()),
        serde_json::Value::String("bar-1".to_string()),
    ]);
    let frame = build_request_json(Msg::BarConfig, &ids).unwrap();
    let (code, payload) = i3_ipc::codec::decode(&frame).unwrap();
    assert_eq!(code, 6);
    let parsed = parse_payload(&payload).unwrap();
    assert_eq!(parsed, ids);
}

#[test]
fn json_request_payload_is_the_serialized_bytes() {
    let v = serde_json::Value::Array(vec![serde_json::Value::String("bar-0".to_string())]);
    let frame = build_request_json(Msg::BarConfig, &v).unwrap();
    let (code, payload) = i3_ipc::codec::decode(&frame).unwrap();
    assert_eq!(code, 6);
    assert_eq!(payload, serde_json::to_vec(&v).unwrap());
}

#[test]
fn json_parse_failure_is_decode_error() {
    assert_eq!(parse_payload(b"not json").err(), Some(IpcError::Decode));
    let v = parse_payload(b"{\"success\": true}").unwrap();
    assert_eq!(v["success"], serde_json::Value::Bool(true));
}
