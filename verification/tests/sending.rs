use archipelago_rs::client::ArchipelagoClient;
use archipelago_rs::error::ArchipelagoError;
use archipelago_rs::protocol::{
    network_version, Bounce, ClientMessage, ClientStatus, LocationChecks, NetworkVersion, Say,
    ServerMessage, SetNotify, StatusUpdate,
};
use archipelago_rs::room::RoomInfo;
use archipelago_rs::sender::SendStep;
use bytes::BytesMut;
use ratchet_rs::{Error, ErrorKind};
use serde_json::Value;

fn client() -> ArchipelagoClient {
    let room = ServerMessage::RoomInfo(RoomInfo::new(vec![], Value::Null));
    ArchipelagoClient::join(vec![room], BytesMut::new()).unwrap()
}

fn packets(step: SendStep) -> Vec<ClientMessage> {
    match step {
        SendStep::Serialize(packets) => packets,
        other => panic!("{:?}", other),
    }
}

#[test]
fn a_text_lists_one_packet() {
    let mut client = client();
    let notify = ClientMessage::SetNotify(SetNotify { keys: vec!["k".to_string()] });
    assert_eq!(
        packets(client.send(notify)),
        vec![ClientMessage::SetNotify(SetNotify { keys: vec!["k".to_string()] })]
    );
}

#[test]
fn helpers_send_their_packet() {
    let mut client = client();
    assert_eq!(
        packets(client.say("Hello, world!")),
        vec![ClientMessage::Say(Say { text: "Hello, world!".to_string() })]
    );
    assert_eq!(
        packets(client.location_checks(vec![3, -1])),
        vec![ClientMessage::LocationChecks(LocationChecks { locations: vec![3, -1] })]
    );
    assert_eq!(
        packets(client.status_update(ClientStatus::ClientGoal)),
        vec![ClientMessage::StatusUpdate(StatusUpdate { status: ClientStatus::ClientGoal })]
    );
    let tags = Some(vec!["DeathLink".to_string()]);
    assert_eq!(
        packets(client.bounce(None, None, tags.clone(), Value::Bool(true))),
        vec![ClientMessage::Bounce(Bounce {
            games: None,
            slots: None,
            tags,
            data: Value::Bool(true)
        })]
    );
}

#[test]
fn the_sending_side_has_the_same_helpers() {
    let mut whole = client();
    let (mut sender, _) = client().split();
    assert_eq!(packets(sender.say("hi")), packets(whole.say("hi")));
    assert_eq!(packets(sender.location_checks(vec![1])), packets(whole.location_checks(vec![1])));
    assert_eq!(
        packets(sender.status_update(ClientStatus::ClientReady)),
        packets(whole.status_update(ClientStatus::ClientReady))
    );
    let games = Some(vec!["Clique".to_string()]);
    let slots = Some(vec!["1".to_string()]);
    assert_eq!(
        packets(sender.bounce(games.clone(), slots.clone(), None, Value::Null)),
        packets(whole.bounce(games, slots, None, Value::Null))
    );
    assert_eq!(packets(sender.send(ClientMessage::Sync)), vec![ClientMessage::Sync]);
}

#[test]
fn the_text_is_written_as_it_is() {
    let mut client = client();
    match client.send_serialized(Ok("[{\"cmd\":\"Sync\"}]".to_string())) {
        SendStep::Write(text) => assert_eq!(text, "[{\"cmd\":\"Sync\"}]"),
        other => panic!("{:?}", other),
    }
    assert!(matches!(client.send_written(Ok(())), SendStep::Done(Ok(()))));
}

#[test]
fn nothing_is_written_without_a_text() {
    let (mut sender, _) = client().split();
    let error = serde_json::from_str::<Value>("").unwrap_err();
    assert!(matches!(
        sender.send_serialized(Err(error)),
        SendStep::Done(Err(ArchipelagoError::FailedSerialize(_)))
    ));
}

#[test]
fn a_failed_write_is_reported() {
    let (mut sender, _) = client().split();
    match sender.send_written(Err(Error::new(ErrorKind::IO))) {
        SendStep::Done(Err(ArchipelagoError::WebSocketError(error))) => assert!(error.is_io()),
        other => panic!("{:?}", other),
    }
}

#[test]
fn statuses_have_numbers() {
    assert_eq!(ClientStatus::ClientUnknown.code(), 0);
    assert_eq!(ClientStatus::ClientConnected.code(), 5);
    assert_eq!(ClientStatus::ClientReady.code(), 10);
    assert_eq!(ClientStatus::ClientPlaying.code(), 20);
    assert_eq!(ClientStatus::ClientGoal.code(), 30);
}

#[test]
fn the_version_is_announced_as_such() {
    let version = NetworkVersion { major: 0, minor: 5, build: 0, class: "Version".to_string() };
    assert_eq!(network_version(), version);
}
