use archipelago_rs::client::ArchipelagoClient;
use archipelago_rs::error::ArchipelagoError;
use archipelago_rs::exchange::{Exchange, Reply, Step};
use archipelago_rs::frame::Message;
use archipelago_rs::protocol::{
    network_version, ClientMessage, Connect, Connected, DataStorageOperation, Get, LocationInfo,
    LocationScouts, ReceivedItems, Retrieved, ServerMessage, SetReply, SetValue,
};
use archipelago_rs::receiver::RecvStep;
use archipelago_rs::room::RoomInfo;
use bytes::BytesMut;
use ratchet_rs::{Error, ErrorKind};
use serde_json::Value;

fn text(text: &str) -> Value {
    Value::String(text.to_string())
}

fn print(body: &str) -> ServerMessage {
    ServerMessage::Print(text(body))
}

fn items(body: &str) -> ServerMessage {
    ServerMessage::ReceivedItems(ReceivedItems { body: text(body) })
}

fn client() -> ArchipelagoClient {
    let room = ServerMessage::RoomInfo(RoomInfo::new(vec![], Value::Null));
    ArchipelagoClient::join(vec![room], BytesMut::new()).unwrap()
}

fn sent<R: Reply>(client: &mut ArchipelagoClient, step: Step<R>) -> (ClientMessage, Step<R>) {
    let (mut packets, exchange) = match step {
        Step::Serialize(packets, exchange) => (packets, exchange),
        _ => panic!("the request is not sent"),
    };
    assert_eq!(packets.len(), 1);
    let exchange = match exchange.serialized(client, Ok("[...]".to_string())) {
        Step::Write(text, exchange) => {
            assert_eq!(text, "[...]");
            exchange
        }
        _ => panic!("the text is not written"),
    };
    (packets.remove(0), exchange.written(client, Ok(())))
}

fn reading<R: Reply>(step: Step<R>) -> Exchange<R> {
    match step {
        Step::Read(exchange) => exchange,
        _ => panic!("no read is due"),
    }
}

fn done<R: Reply>(step: Step<R>) -> Result<R, ArchipelagoError> {
    match step {
        Step::Done(result) => result,
        _ => panic!("the exchange goes on"),
    }
}

fn left(client: &mut ArchipelagoClient) -> Vec<ServerMessage> {
    let mut all = vec![];
    loop {
        match client.recv() {
            RecvStep::Done(Ok(message)) => all.push(message),
            _ => return all,
        }
    }
}

#[test]
fn sync_keeps_other_packets_in_order() {
    let mut client = client();
    let step = client.sync();
    let (request, step) = sent(&mut client, step);
    assert_eq!(request, ClientMessage::Sync);
    let step = reading(step).parsed(&mut client, Ok(vec![print("a"), print("b")]));
    let step = reading(step).parsed(&mut client, Ok(vec![]));
    let step = reading(step)
        .parsed(&mut client, Ok(vec![print("c"), items("1"), print("d"), items("2")]));
    assert_eq!(done(step).unwrap(), ReceivedItems { body: text("1") });
    assert_eq!(
        left(&mut client),
        vec![print("a"), print("b"), print("c"), print("d"), items("2")]
    );
}

#[test]
fn sync_takes_a_reply_that_waits() {
    let mut client = client();
    client.recv_parsed(Ok(vec![print("x"), print("a"), items("1"), print("b")]));
    let step = client.sync();
    let (_, step) = sent(&mut client, step);
    assert_eq!(done(step).unwrap(), ReceivedItems { body: text("1") });
    assert_eq!(left(&mut client), vec![print("a"), print("b")]);
}

#[test]
fn packets_passed_over_are_kept_when_a_read_fails() {
    let mut client = client();
    client.recv_parsed(Ok(vec![print("x"), print("a")]));
    let step = client.sync();
    let (_, step) = sent(&mut client, step);
    let step = reading(step).parsed(&mut client, Ok(vec![print("b"), print("c")]));
    let step = reading(step).parsed(&mut client, Ok(vec![print("d")]));
    let step = reading(step).read(&mut client, Ok(Message::Close(None)));
    assert!(matches!(done(step), Err(ArchipelagoError::ConnectionClosed)));
    assert_eq!(
        left(&mut client),
        vec![print("a"), print("b"), print("c"), print("d")]
    );
}

#[test]
fn packets_passed_over_are_kept_when_a_text_is_not_parsed() {
    let mut client = client();
    let step = client.get(vec!["k".to_string()]);
    let (_, step) = sent(&mut client, step);
    let step = reading(step).parsed(&mut client, Ok(vec![print("a"), items("1")]));
    let error = serde_json::from_str::<Value>("").unwrap_err();
    let step = reading(step).parsed(&mut client, Err(error));
    assert!(matches!(done(step), Err(ArchipelagoError::FailedSerialize(_))));

    // Another exchange finds among them what it awaits.
    let step = client.sync();
    let (_, step) = sent(&mut client, step);
    assert_eq!(done(step).unwrap(), ReceivedItems { body: text("1") });
    assert_eq!(left(&mut client), vec![print("a")]);
}

#[test]
fn an_exchange_reads_like_a_receive() {
    let mut client = client();
    let step = client.sync();
    let (_, step) = sent(&mut client, step);
    client.read_buffer().extend_from_slice(b"[1]");
    let step = reading(step).read(&mut client, Ok(Message::Pong(vec![])));
    let exchange = match reading(step).read(&mut client, Ok(Message::Text)) {
        Step::Parse(parse, exchange) => {
            assert_eq!(parse, "[1]");
            exchange
        }
        _ => panic!("the text is not parsed"),
    };
    let error = serde_json::from_str::<Value>("").unwrap_err();
    let step = exchange.parsed(&mut client, Err(error));
    assert!(matches!(done(step), Err(ArchipelagoError::FailedSerialize(_))));
    assert_eq!(&client.read_buffer()[..], b"[1]");
}

#[test]
fn a_request_that_is_not_sent_is_not_awaited() {
    let mut client = client();
    client.recv_parsed(Ok(vec![print("x"), items("1")]));
    let error = serde_json::from_str::<Value>("").unwrap_err();
    match client.sync() {
        Step::Serialize(_, exchange) => assert!(matches!(
            done(exchange.serialized(&mut client, Err(error))),
            Err(ArchipelagoError::FailedSerialize(_))
        )),
        _ => panic!("the request is not sent"),
    }
    match client.sync() {
        Step::Serialize(_, exchange) => assert!(matches!(
            done(exchange.written(&mut client, Err(Error::new(ErrorKind::Close)))),
            Err(ArchipelagoError::WebSocketError(_))
        )),
        _ => panic!("the request is not sent"),
    }
    assert_eq!(left(&mut client), vec![items("1")]);
}

#[test]
fn location_scouts_awaits_location_info() {
    let mut client = client();
    let step = client.location_scouts(vec![5, 6], 2);
    let (request, step) = sent(&mut client, step);
    assert_eq!(
        request,
        ClientMessage::LocationScouts(LocationScouts { locations: vec![5, 6], create_as_hint: 2 })
    );
    let info = ServerMessage::LocationInfo(LocationInfo { body: text("i") });
    let step = reading(step).parsed(&mut client, Ok(vec![items("1"), info]));
    assert_eq!(done(step).unwrap(), LocationInfo { body: text("i") });
    assert_eq!(left(&mut client), vec![items("1")]);
}

#[test]
fn get_awaits_retrieved() {
    let mut client = client();
    let step = client.get(vec!["k".to_string()]);
    let (request, step) = sent(&mut client, step);
    assert_eq!(request, ClientMessage::Get(Get { keys: vec!["k".to_string()] }));
    let retrieved = ServerMessage::Retrieved(Retrieved { body: text("v") });
    let step = reading(step).parsed(&mut client, Ok(vec![print("a"), retrieved]));
    assert_eq!(done(step).unwrap(), Retrieved { body: text("v") });
    assert_eq!(left(&mut client), vec![print("a")]);
}

#[test]
fn set_awaits_set_reply() {
    let mut client = client();
    let add = DataStorageOperation { operation: "add".to_string(), value: Value::from(1) };
    let step = client.set("k".to_string(), Value::from(0), true, vec![add]);
    let (request, step) = sent(&mut client, step);
    let add = DataStorageOperation { operation: "add".to_string(), value: Value::from(1) };
    assert_eq!(
        request,
        ClientMessage::SetValue(SetValue {
            key: "k".to_string(),
            default: Value::from(0),
            want_reply: true,
            operations: vec![add],
        })
    );
    let reply = ServerMessage::SetReply(SetReply { body: text("r") });
    let step = reading(step).parsed(&mut client, Ok(vec![print("a"), reply, print("b")]));
    assert_eq!(done(step).unwrap(), SetReply { body: text("r") });
    assert_eq!(left(&mut client), vec![print("a"), print("b")]);
}

#[test]
fn connect_asks_to_play() {
    let mut client = client();
    let tags = vec!["AP".to_string()];
    let step = client.connect("Clique", "Player", Some("pw"), Some(7), tags.clone());
    let (request, step) = sent(&mut client, step);
    assert_eq!(
        request,
        ClientMessage::Connect(Connect {
            game: "Clique".to_string(),
            name: "Player".to_string(),
            uuid: "".to_string(),
            password: Some("pw".to_string()),
            version: network_version(),
            items_handling: Some(7),
            tags,
            request_slot_data: true,
        })
    );
    let connected = ServerMessage::Connected(Connected { body: text("slot") });
    let step = reading(step).parsed(&mut client, Ok(vec![connected, print("a")]));
    assert_eq!(done(step).unwrap(), Connected { body: text("slot") });
    assert_eq!(left(&mut client), vec![print("a")]);
}

#[test]
fn connect_without_password_sends_none() {
    let mut client = client();
    let step = client.connect("Clique", "Player", None, None, vec![]);
    match sent(&mut client, step).0 {
        ClientMessage::Connect(request) => {
            assert_eq!(request.password, None);
            assert_eq!(request.items_handling, None);
        }
        other => panic!("{:?}", other),
    }
}

#[test]
fn connect_refuses_another_packet() {
    let mut client = client();
    let step = client.connect("Clique", "Player", None, None, vec![]);
    let (_, step) = sent(&mut client, step);
    let refused = ServerMessage::ConnectionRefused(text("InvalidSlot"));
    let connected = ServerMessage::Connected(Connected { body: text("slot") });
    let step = reading(step).parsed(&mut client, Ok(vec![refused, connected]));
    match done(step) {
        Err(ArchipelagoError::IllegalResponse { received, expected }) => {
            assert_eq!(received, ServerMessage::ConnectionRefused(text("InvalidSlot")));
            assert_eq!(expected, "Connected");
        }
        other => panic!("{:?}", other),
    }
    let connected = ServerMessage::Connected(Connected { body: text("slot") });
    assert_eq!(left(&mut client), vec![connected]);
}

#[test]
fn connect_refuses_a_packet_that_waits() {
    let mut client = client();
    client.recv_parsed(Ok(vec![print("x"), print("a"), print("b")]));
    let step = client.connect("Clique", "Player", None, None, vec![]);
    let (_, step) = sent(&mut client, step);
    assert!(matches!(
        done(step),
        Err(ArchipelagoError::IllegalResponse { received: ServerMessage::Print(_), .. })
    ));
    assert_eq!(left(&mut client), vec![print("b")]);
}
