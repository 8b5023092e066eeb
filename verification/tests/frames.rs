use archipelago_rs::error::ArchipelagoError;
use archipelago_rs::frame::{recv, recv_parsed, CloseReason, FrameStep, Message};
use archipelago_rs::protocol::ServerMessage;
use bytes::BytesMut;
use ratchet_rs::{Error, ErrorKind};
use serde_json::Value;

#[test]
fn pings_and_pongs_call_for_another_read() {
    let buffer = BytesMut::from(&b"[{\"cmd"[..]);
    assert!(matches!(recv(&buffer, Ok(Message::Ping(vec![1]))), FrameStep::Read));
    assert!(matches!(recv(&buffer, Ok(Message::Pong(vec![]))), FrameStep::Read));
    assert_eq!(&buffer[..], b"[{\"cmd");
}

#[test]
fn a_text_is_parsed_as_it_was_written() {
    let written = "[{\"cmd\":\"Print\",\"text\":\"gr\u{fc}n \u{2713}\"}]";
    let buffer = BytesMut::from(written.as_bytes());
    match recv(&buffer, Ok(Message::Text)) {
        FrameStep::Parse(text) => assert_eq!(text, written),
        other => panic!("{:?}", other),
    }
}

#[test]
fn an_empty_text_is_parsed_too() {
    let buffer = BytesMut::new();
    match recv(&buffer, Ok(Message::Text)) {
        FrameStep::Parse(text) => assert_eq!(text, ""),
        other => panic!("{:?}", other),
    }
}

#[test]
fn a_text_has_to_be_utf8() {
    let buffer = BytesMut::from(&[b'a', b'b', 0xff, b'c'][..]);
    match recv(&buffer, Ok(Message::Text)) {
        FrameStep::Fail(ArchipelagoError::InvalidUtf8Error(error)) => {
            assert_eq!(error.valid_up_to(), 2)
        }
        other => panic!("{:?}", other),
    }
    assert_eq!(buffer.len(), 4);
}

#[test]
fn a_close_ends_the_reading() {
    let buffer = BytesMut::new();
    let reason = CloseReason { code: 1000, description: Some("bye".to_string()) };
    assert!(matches!(
        recv(&buffer, Ok(Message::Close(Some(reason)))),
        FrameStep::Fail(ArchipelagoError::ConnectionClosed)
    ));
    assert!(matches!(
        recv(&buffer, Ok(Message::Close(None))),
        FrameStep::Fail(ArchipelagoError::ConnectionClosed)
    ));
}

#[test]
fn binary_data_ends_the_reading() {
    let buffer = BytesMut::from(&b"x"[..]);
    assert!(matches!(
        recv(&buffer, Ok(Message::Binary)),
        FrameStep::Fail(ArchipelagoError::NonTextWebsocketResult(Message::Binary))
    ));
}

#[test]
fn a_failed_read_ends_the_reading() {
    let buffer = BytesMut::new();
    match recv(&buffer, Err(Error::new(ErrorKind::Protocol))) {
        FrameStep::Fail(ArchipelagoError::WebSocketError(error)) => assert!(error.is_protocol()),
        other => panic!("{:?}", other),
    }
}

#[test]
fn a_parsed_text_leaves_the_buffer() {
    let mut buffer = BytesMut::from(&b"[]"[..]);
    let payload = recv_parsed(&mut buffer, Ok(vec![ServerMessage::Print(Value::Null)])).unwrap();
    assert_eq!(payload, vec![ServerMessage::Print(Value::Null)]);
    assert!(buffer.is_empty());
}

#[test]
fn a_text_that_is_not_parsed_stays_in_the_buffer() {
    let mut buffer = BytesMut::from(&b"[{"[..]);
    let error = serde_json::from_str::<Value>("[{").unwrap_err();
    assert!(matches!(
        recv_parsed(&mut buffer, Err(error)),
        Err(ArchipelagoError::FailedSerialize(_))
    ));
    assert_eq!(&buffer[..], b"[{");
}

#[test]
fn errors_have_words() {
    let illegal = ArchipelagoError::IllegalResponse {
        received: ServerMessage::Print(Value::Null),
        expected: "Connected",
    };
    assert_eq!(illegal.description(), "illegal response");
    assert_eq!(ArchipelagoError::ConnectionClosed.description(), "connection closed by server");
    let json = serde_json::from_str::<Value>("").unwrap_err();
    assert_eq!(ArchipelagoError::from(json).description(), "data failed to serialize");
    assert_eq!(
        ArchipelagoError::NonTextWebsocketResult(Message::Binary).description(),
        "unexpected non-text result from websocket"
    );
    let io = std::io::Error::new(std::io::ErrorKind::Other, "cable");
    assert_eq!(ArchipelagoError::from(io).description(), "network error");
    let socket = Error::new(ErrorKind::Close);
    assert_eq!(ArchipelagoError::from(socket).description(), "websocket error");
    let utf8 = std::str::from_utf8(&[0xc0]).unwrap_err();
    assert_eq!(ArchipelagoError::from(utf8).description(), "server sent invalid utf-8");
}

#[test]
fn errors_keep_their_cause() {
    let io = std::io::Error::new(std::io::ErrorKind::Other, "cable");
    assert!(matches!(ArchipelagoError::from(io), ArchipelagoError::NetworkError(_)));
    let json = serde_json::from_str::<Value>("").unwrap_err();
    assert!(matches!(ArchipelagoError::from(json), ArchipelagoError::FailedSerialize(_)));
    let socket = Error::new(ErrorKind::Close);
    assert!(matches!(ArchipelagoError::from(socket), ArchipelagoError::WebSocketError(_)));
    let utf8 = std::str::from_utf8(&[0xc0]).unwrap_err();
    assert!(matches!(ArchipelagoError::from(utf8), ArchipelagoError::InvalidUtf8Error(_)));
}
