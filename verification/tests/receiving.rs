use archipelago_rs::client::ArchipelagoClient;
use archipelago_rs::error::ArchipelagoError;
use archipelago_rs::frame::Message;
use archipelago_rs::protocol::ServerMessage;
use archipelago_rs::receiver::RecvStep;
use archipelago_rs::room::RoomInfo;
use bytes::BytesMut;
use ratchet_rs::{Error, ErrorKind};
use serde_json::Value;

fn print(text: &str) -> ServerMessage {
    ServerMessage::Print(Value::String(text.to_string()))
}

fn room() -> ServerMessage {
    let checksums = vec![("Clique".to_string(), "c1".to_string())];
    ServerMessage::RoomInfo(RoomInfo::new(checksums, Value::Bool(true)))
}

fn client(mut behind: Vec<ServerMessage>) -> ArchipelagoClient {
    let mut first = vec![room()];
    first.append(&mut behind);
    ArchipelagoClient::join(first, BytesMut::new()).unwrap()
}

fn packet(step: RecvStep) -> ServerMessage {
    match step {
        RecvStep::Done(Ok(message)) => message,
        other => panic!("{:?}", other),
    }
}

#[test]
fn a_read_is_due_when_nothing_waits() {
    let mut client = client(vec![]);
    assert!(matches!(client.recv(), RecvStep::Read));
}

#[test]
fn packets_of_a_text_come_in_order() {
    let mut client = client(vec![]);
    let step = client.recv_parsed(Ok(vec![print("a"), print("b"), print("c")]));
    assert_eq!(packet(step), print("a"));
    assert_eq!(packet(client.recv()), print("b"));
    assert_eq!(packet(client.recv()), print("c"));
    assert!(matches!(client.recv(), RecvStep::Read));
    assert_eq!(packet(client.recv_parsed(Ok(vec![print("d")]))), print("d"));
}

#[test]
fn a_text_without_packets_calls_for_another_read() {
    let mut client = client(vec![]);
    assert!(matches!(client.recv_parsed(Ok(vec![])), RecvStep::Read));
    assert_eq!(packet(client.recv_parsed(Ok(vec![print("a")]))), print("a"));
}

#[test]
fn packets_behind_the_room_come_last_first() {
    let mut client = client(vec![print("a"), print("b"), print("c")]);
    assert_eq!(packet(client.recv()), print("c"));
    assert_eq!(packet(client.recv()), print("b"));
    assert_eq!(packet(client.recv()), print("a"));
    assert!(matches!(client.recv(), RecvStep::Read));
}

#[test]
fn a_text_passes_through_the_buffer() {
    let mut client = client(vec![]);
    client.read_buffer().extend_from_slice(b"[{\"cmd\"");
    assert!(matches!(client.recv_read(Ok(Message::Ping(vec![7]))), RecvStep::Read));
    client.read_buffer().extend_from_slice(b":\"Sync\"}]");
    match client.recv_read(Ok(Message::Text)) {
        RecvStep::Parse(text) => assert_eq!(text, "[{\"cmd\":\"Sync\"}]"),
        other => panic!("{:?}", other),
    }
    assert_eq!(packet(client.recv_parsed(Ok(vec![print("a")]))), print("a"));
    assert!(client.read_buffer().is_empty());
}

#[test]
fn a_failure_leaves_the_buffer_as_it_is() {
    let mut client = client(vec![]);
    client.read_buffer().extend_from_slice(b"[x");
    let error = serde_json::from_str::<Value>("[x").unwrap_err();
    assert!(matches!(
        client.recv_parsed(Err(error)),
        RecvStep::Done(Err(ArchipelagoError::FailedSerialize(_)))
    ));
    assert_eq!(&client.read_buffer()[..], b"[x");
    client.read_buffer().extend_from_slice(&[0xff]);
    assert!(matches!(
        client.recv_read(Ok(Message::Text)),
        RecvStep::Done(Err(ArchipelagoError::InvalidUtf8Error(_)))
    ));
    assert_eq!(&client.read_buffer()[..], &[b'[', b'x', 0xff]);
    assert!(matches!(
        client.recv_read(Ok(Message::Close(None))),
        RecvStep::Done(Err(ArchipelagoError::ConnectionClosed))
    ));
    assert!(matches!(
        client.recv_read(Ok(Message::Binary)),
        RecvStep::Done(Err(ArchipelagoError::NonTextWebsocketResult(Message::Binary)))
    ));
    assert!(matches!(
        client.recv_read(Err(Error::new(ErrorKind::IO))),
        RecvStep::Done(Err(ArchipelagoError::WebSocketError(_)))
    ));
}

#[test]
fn the_room_is_known_and_stays() {
    let mut client = client(vec![]);
    packet(client.recv_parsed(Ok(vec![room(), print("a")])));
    assert_eq!(client.room_info().game_names(), vec!["Clique".to_string()]);
    assert_eq!(client.room_info().body(), &Value::Bool(true));
    assert_eq!(client.data_package(), None);
}

#[test]
fn the_receiving_side_goes_on_alone() {
    let mut client = client(vec![]);
    packet(client.recv_parsed(Ok(vec![print("a"), print("b")])));
    let (_, mut receiver) = client.split();
    assert_eq!(packet(receiver.recv()), print("b"));
    assert!(matches!(receiver.recv(), RecvStep::Read));
    receiver.read_buffer().extend_from_slice(b"[]");
    match receiver.recv_read(Ok(Message::Text)) {
        RecvStep::Parse(text) => assert_eq!(text, "[]"),
        other => panic!("{:?}", other),
    }
    assert!(matches!(receiver.recv_parsed(Ok(vec![])), RecvStep::Read));
    assert_eq!(receiver.room_info().game_names(), vec!["Clique".to_string()]);
    assert_eq!(receiver.data_package(), None);
}

#[test]
fn a_room_lists_each_game_once() {
    let pairs = vec![
        ("Clique".to_string(), "c1".to_string()),
        ("Hylics 2".to_string(), "h1".to_string()),
        ("Clique".to_string(), "c2".to_string()),
    ];
    let room = RoomInfo::new(pairs, Value::Null);
    assert_eq!(room.game_names(), vec!["Clique".to_string(), "Hylics 2".to_string()]);
    assert_eq!(
        room.datapackage_checksums(),
        &vec![
            ("Clique".to_string(), "c2".to_string()),
            ("Hylics 2".to_string(), "h1".to_string()),
        ]
    );
}

#[test]
fn a_room_may_have_no_games() {
    let room = RoomInfo::new(vec![], Value::Null);
    assert!(room.game_names().is_empty());
}
