use archipelago_rs::client::ArchipelagoClient;
use archipelago_rs::dial::url;
use archipelago_rs::error::ArchipelagoError;
use archipelago_rs::frame::Message;
use archipelago_rs::protocol::{
    ClientMessage, DataPackage, DataPackageObject, GetDataPackage, ServerMessage,
};
use archipelago_rs::receiver::RecvStep;
use archipelago_rs::room::RoomInfo;
use archipelago_rs::startup::{Fetch, Greeting, Startup};
use bytes::BytesMut;
use ratchet_rs::{Error, ErrorKind};
use serde_json::Value;

fn cable() -> std::io::Error {
    std::io::Error::new(std::io::ErrorKind::Other, "cable")
}

fn print(text: &str) -> ServerMessage {
    ServerMessage::Print(Value::String(text.to_string()))
}

fn room() -> ServerMessage {
    let checksums = vec![
        ("Clique".to_string(), "c1".to_string()),
        ("Hylics 2".to_string(), "h1".to_string()),
    ];
    ServerMessage::RoomInfo(RoomInfo::new(checksums, Value::Null))
}

fn package(text: &str) -> ServerMessage {
    let data = DataPackageObject { body: Value::String(text.to_string()) };
    ServerMessage::DataPackage(DataPackage { data })
}

fn to_handshake(start: Startup) -> Startup {
    let next = match start {
        Startup::Connect(dial) => {
            assert_eq!(dial.host(), "archipelago.gg");
            assert_eq!(dial.port(), 38281);
            dial.connected(Ok(()))
        }
        other => panic!("{:?}", other),
    };
    let next = match next {
        Startup::SetNoDelay(dial) => dial.no_delay_set(Ok(())),
        other => panic!("{:?}", other),
    };
    match next {
        Startup::BuildTls(dial) => dial.tls_built(true),
        other => panic!("{:?}", other),
    }
}

fn to_greeting(start: Startup) -> Greeting {
    let next = match to_handshake(start) {
        Startup::Handshake(dial) => dial.handshaken(true),
        other => panic!("{:?}", other),
    };
    let next = match next {
        Startup::Subscribe(upgrade) => {
            assert_eq!(upgrade.url(), "wss://archipelago.gg:38281");
            upgrade.subscribed(Ok(()))
        }
        other => panic!("{:?}", other),
    };
    match next {
        Startup::Read(greeting) => greeting,
        other => panic!("{:?}", other),
    }
}

fn to_fetch(games: Option<Vec<String>>, first: Vec<ServerMessage>) -> (Vec<ClientMessage>, Fetch) {
    let start = ArchipelagoClient::with_data_package("archipelago.gg", 38281, games);
    match to_greeting(start).parsed(Ok(first)) {
        Startup::Serialize(packets, fetch) => (packets, fetch),
        other => panic!("{:?}", other),
    }
}

fn awaiting(first: Vec<ServerMessage>) -> Startup {
    let (_, fetch) = to_fetch(None, first);
    let fetch = match fetch.serialized(Ok("[...]".to_string())) {
        Startup::Write(text, fetch) => {
            assert_eq!(text, "[...]");
            fetch
        }
        other => panic!("{:?}", other),
    };
    fetch.written(Ok(()))
}

fn fetching(next: Startup) -> Fetch {
    match next {
        Startup::FetchRead(fetch) => fetch,
        other => panic!("{:?}", other),
    }
}

fn start() -> Startup {
    ArchipelagoClient::new("archipelago.gg", 38281)
}

fn failed(next: Startup) -> ArchipelagoError {
    match next {
        Startup::Done(Err(error)) => error,
        other => panic!("{:?}", other),
    }
}

fn ready(next: Startup) -> ArchipelagoClient {
    match next {
        Startup::Done(Ok(client)) => client,
        other => panic!("{:?}", other),
    }
}

#[test]
fn addresses_name_scheme_host_and_port() {
    assert_eq!(url(true, "archipelago.gg", 38281), "wss://archipelago.gg:38281");
    assert_eq!(url(false, "localhost", 80), "ws://localhost:80");
    assert_eq!(url(false, "", 0), "ws://:0");
    assert_eq!(url(true, "h", 65535), "wss://h:65535");
    assert_eq!(url(true, "h", 9), "wss://h:9");
    assert_eq!(url(true, "h", 10), "wss://h:10");
    assert_eq!(url(true, "h", 1001), "wss://h:1001");
}

#[test]
fn a_failed_handshake_downgrades_on_a_second_stream() {
    let next = match to_handshake(start()) {
        Startup::Handshake(dial) => dial.handshaken(false),
        other => panic!("{:?}", other),
    };
    let next = match next {
        Startup::Connect(dial) => {
            assert_eq!(dial.host(), "archipelago.gg");
            assert_eq!(dial.port(), 38281);
            dial.connected(Ok(()))
        }
        other => panic!("{:?}", other),
    };
    let next = match next {
        Startup::SetNoDelay(dial) => dial.no_delay_set(Ok(())),
        other => panic!("{:?}", other),
    };
    match next {
        Startup::Subscribe(upgrade) => assert_eq!(upgrade.url(), "ws://archipelago.gg:38281"),
        other => panic!("{:?}", other),
    }
}

#[test]
fn without_tls_the_first_stream_is_used() {
    let next = match start() {
        Startup::Connect(dial) => dial.connected(Ok(())),
        other => panic!("{:?}", other),
    };
    let next = match next {
        Startup::SetNoDelay(dial) => dial.no_delay_set(Ok(())),
        other => panic!("{:?}", other),
    };
    let next = match next {
        Startup::BuildTls(dial) => dial.tls_built(false),
        other => panic!("{:?}", other),
    };
    match next {
        Startup::Subscribe(upgrade) => assert_eq!(upgrade.url(), "ws://archipelago.gg:38281"),
        other => panic!("{:?}", other),
    }
}

#[test]
fn a_stream_that_fails_ends_the_joining() {
    match start() {
        Startup::Connect(dial) => assert!(matches!(
            failed(dial.connected(Err(cable()))),
            ArchipelagoError::NetworkError(_)
        )),
        other => panic!("{:?}", other),
    }
    let next = match start() {
        Startup::Connect(dial) => dial.connected(Ok(())),
        other => panic!("{:?}", other),
    };
    match next {
        Startup::SetNoDelay(dial) => assert!(matches!(
            failed(dial.no_delay_set(Err(cable()))),
            ArchipelagoError::NetworkError(_)
        )),
        other => panic!("{:?}", other),
    }
    let next = match to_handshake(start()) {
        Startup::Handshake(dial) => dial.handshaken(false),
        other => panic!("{:?}", other),
    };
    match next {
        Startup::Connect(dial) => assert!(matches!(
            failed(dial.connected(Err(cable()))),
            ArchipelagoError::NetworkError(_)
        )),
        other => panic!("{:?}", other),
    }
}

#[test]
fn a_websocket_that_fails_ends_the_joining() {
    let next = match to_handshake(start()) {
        Startup::Handshake(dial) => dial.handshaken(true),
        other => panic!("{:?}", other),
    };
    match next {
        Startup::Subscribe(upgrade) => assert!(matches!(
            failed(upgrade.subscribed(Err(Error::new(ErrorKind::Http)))),
            ArchipelagoError::WebSocketError(_)
        )),
        other => panic!("{:?}", other),
    }
}

#[test]
fn the_greeting_is_read_into_an_empty_buffer() {
    let mut greeting = to_greeting(start());
    assert!(greeting.read_buffer().is_empty());
    greeting.read_buffer().extend_from_slice(b"[{}]");
    let greeting = match greeting.read(Ok(Message::Ping(vec![]))) {
        Startup::Read(greeting) => greeting,
        other => panic!("{:?}", other),
    };
    let greeting = match greeting.read(Ok(Message::Text)) {
        Startup::Parse(text, greeting) => {
            assert_eq!(text, "[{}]");
            greeting
        }
        other => panic!("{:?}", other),
    };
    let mut client = ready(greeting.parsed(Ok(vec![room(), print("a")])));
    assert!(client.read_buffer().is_empty());
    assert_eq!(client.room_info().game_names().len(), 2);
    assert_eq!(client.data_package(), None);
    match client.recv() {
        RecvStep::Done(Ok(message)) => assert_eq!(message, print("a")),
        other => panic!("{:?}", other),
    }
}

#[test]
fn the_greeting_has_to_come() {
    let greeting = to_greeting(start());
    assert!(matches!(
        failed(greeting.read(Ok(Message::Close(None)))),
        ArchipelagoError::ConnectionClosed
    ));
    let error = serde_json::from_str::<Value>("").unwrap_err();
    assert!(matches!(
        failed(to_greeting(start()).parsed(Err(error))),
        ArchipelagoError::FailedSerialize(_)
    ));
    assert!(matches!(
        failed(to_greeting(start()).parsed(Ok(vec![]))),
        ArchipelagoError::ConnectionClosed
    ));
}

#[test]
fn the_room_has_to_come_first() {
    match failed(to_greeting(start()).parsed(Ok(vec![print("a"), room()]))) {
        ArchipelagoError::IllegalResponse { received, expected } => {
            assert_eq!(received, print("a"));
            assert_eq!(expected, "Expected RoomInfo");
        }
        other => panic!("{:?}", other),
    }
    assert!(ArchipelagoClient::join(vec![room()], BytesMut::new()).is_ok());
}

#[test]
fn given_games_are_asked_for() {
    let games = vec!["Clique".to_string(), "Clique".to_string()];
    let (packets, _) = to_fetch(Some(games.clone()), vec![room()]);
    assert_eq!(
        packets,
        vec![ClientMessage::GetDataPackage(GetDataPackage { games: Some(games) })]
    );
    let (packets, _) = to_fetch(Some(vec![]), vec![room()]);
    assert_eq!(
        packets,
        vec![ClientMessage::GetDataPackage(GetDataPackage { games: Some(vec![]) })]
    );
}

#[test]
fn the_games_of_the_room_are_asked_for_where_none_are_given() {
    let (packets, _) = to_fetch(None, vec![room()]);
    let games = vec!["Clique".to_string(), "Hylics 2".to_string()];
    assert_eq!(
        packets,
        vec![ClientMessage::GetDataPackage(GetDataPackage { games: Some(games) })]
    );
}

#[test]
fn the_package_is_kept() {
    let mut fetch = fetching(awaiting(vec![room()]));
    fetch.read_buffer().extend_from_slice(b"[2]");
    let fetch = fetching(fetch.read(Ok(Message::Pong(vec![]))));
    let fetch = match fetch.read(Ok(Message::Text)) {
        Startup::FetchParse(text, fetch) => {
            assert_eq!(text, "[2]");
            fetch
        }
        other => panic!("{:?}", other),
    };
    let fetch = fetching(fetch.parsed(Ok(vec![])));
    let mut client = ready(fetch.parsed(Ok(vec![package("p"), print("a")])));
    let data = DataPackageObject { body: Value::String("p".to_string()) };
    assert_eq!(client.data_package(), Some(&data));
    match client.recv() {
        RecvStep::Done(Ok(message)) => assert_eq!(message, print("a")),
        other => panic!("{:?}", other),
    }
}

#[test]
fn the_package_may_come_with_the_room() {
    let client = ready(awaiting(vec![room(), package("p")]));
    assert!(client.data_package().is_some());
}

#[test]
fn the_package_has_to_come_first() {
    let fetch = fetching(awaiting(vec![room()]));
    match failed(fetch.parsed(Ok(vec![print("a"), package("p")]))) {
        ArchipelagoError::IllegalResponse { received, expected } => {
            assert_eq!(received, print("a"));
            assert_eq!(expected, "DataPackage");
        }
        other => panic!("{:?}", other),
    }
    assert!(matches!(
        failed(awaiting(vec![room(), print("a")])),
        ArchipelagoError::IllegalResponse { .. }
    ));
}

#[test]
fn a_failed_fetch_ends_the_joining() {
    let error = serde_json::from_str::<Value>("").unwrap_err();
    let (_, fetch) = to_fetch(None, vec![room()]);
    assert!(matches!(failed(fetch.serialized(Err(error))), ArchipelagoError::FailedSerialize(_)));
    let (_, fetch) = to_fetch(None, vec![room()]);
    assert!(matches!(
        failed(fetch.written(Err(Error::new(ErrorKind::IO)))),
        ArchipelagoError::WebSocketError(_)
    ));
    let fetch = fetching(awaiting(vec![room()]));
    assert!(matches!(
        failed(fetch.read(Ok(Message::Close(None)))),
        ArchipelagoError::ConnectionClosed
    ));
    let error = serde_json::from_str::<Value>("").unwrap_err();
    let fetch = fetching(awaiting(vec![room()]));
    assert!(matches!(failed(fetch.parsed(Err(error))), ArchipelagoError::FailedSerialize(_)));
}
