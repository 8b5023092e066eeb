//! The packets of the protocol, as far as the client builds them or looks into
//! them. The body of a packet that is only passed on is kept as it arrived.
use crate::room::RoomInfo;
use serde_json::Value;
use vstd::prelude::*;

verus! {

/// The version of the protocol that a client announces.
#[derive(Debug, PartialEq)]
pub struct NetworkVersion {
    pub major: i32,
    pub minor: i32,
    pub build: i32,
    pub class: String,
}

/// Asks to play a slot.
#[derive(Debug, PartialEq)]
pub struct Connect {
    pub game: String,
    pub name: String,
    pub uuid: String,
    pub password: Option<String>,
    pub version: NetworkVersion,
    pub items_handling: Option<i32>,
    pub tags: Vec<String>,
    pub request_slot_data: bool,
}

/// Changes what was asked for on connecting.
#[derive(Debug, PartialEq)]
pub struct ConnectUpdate {
    pub items_handling: Option<i32>,
    pub tags: Vec<String>,
}

/// Reports locations that were checked.
#[derive(Debug, PartialEq)]
pub struct LocationChecks {
    pub locations: Vec<i64>,
}

/// Asks what lies at some locations.
#[derive(Debug, PartialEq)]
pub struct LocationScouts {
    pub locations: Vec<i64>,
    pub create_as_hint: i32,
}

/// How far the player has come.
#[derive(Debug, PartialEq)]
pub enum ClientStatus {
    ClientUnknown,
    ClientConnected,
    ClientReady,
    ClientPlaying,
    ClientGoal,
}

/// Reports the player's status.
#[derive(Debug, PartialEq)]
pub struct StatusUpdate {
    pub status: ClientStatus,
}

/// Sends a line of chat.
#[derive(Debug, PartialEq)]
pub struct Say {
    pub text: String,
}

/// Asks for the data packages of some games, or of all games.
#[derive(Debug, PartialEq)]
pub struct GetDataPackage {
    pub games: Option<Vec<String>>,
}

/// Has the server forward a value to other clients.
#[derive(Debug, PartialEq)]
pub struct Bounce {
    pub games: Option<Vec<String>>,
    pub slots: Option<Vec<String>>,
    pub tags: Option<Vec<String>>,
    pub data: Value,
}

/// Reads from the data storage.
#[derive(Debug, PartialEq)]
pub struct Get {
    pub keys: Vec<String>,
}

/// One operation on a value of the data storage.
#[derive(Debug, PartialEq)]
pub struct DataStorageOperation {
    pub operation: String,
    pub value: Value,
}

/// Writes to the data storage.
#[derive(Debug, PartialEq)]
pub struct SetValue {
    pub key: String,
    pub default: Value,
    pub want_reply: bool,
    pub operations: Vec<DataStorageOperation>,
}

/// Asks to be told when values of the data storage change.
#[derive(Debug, PartialEq)]
pub struct SetNotify {
    pub keys: Vec<String>,
}

/// A packet from the client to the server.
#[derive(Debug, PartialEq)]
pub enum ClientMessage {
    Connect(Connect),
    ConnectUpdate(ConnectUpdate),
    Sync,
    LocationChecks(LocationChecks),
    LocationScouts(LocationScouts),
    StatusUpdate(StatusUpdate),
    Say(Say),
    GetDataPackage(GetDataPackage),
    Bounce(Bounce),
    Get(Get),
    SetValue(SetValue),
    SetNotify(SetNotify),
}

/// The slot is now being played.
#[derive(Debug, PartialEq)]
pub struct Connected {
    pub body: Value,
}

/// Items that the slot has received.
#[derive(Debug, PartialEq)]
pub struct ReceivedItems {
    pub body: Value,
}

/// What lies at the locations that were asked for.
#[derive(Debug, PartialEq)]
pub struct LocationInfo {
    pub body: Value,
}

/// Values read from the data storage.
#[derive(Debug, PartialEq)]
pub struct Retrieved {
    pub body: Value,
}

/// A value written to the data storage.
#[derive(Debug, PartialEq)]
pub struct SetReply {
    pub body: Value,
}

/// The names and numbers of some games' items and locations.
#[derive(Debug, PartialEq)]
pub struct DataPackageObject {
    pub body: Value,
}

/// Carries a data package.
#[derive(Debug, PartialEq)]
pub struct DataPackage {
    pub data: DataPackageObject,
}

/// A packet from the server to the client.
#[derive(Debug, PartialEq)]
pub enum ServerMessage {
    RoomInfo(RoomInfo),
    ConnectionRefused(Value),
    Connected(Connected),
    ReceivedItems(ReceivedItems),
    LocationInfo(LocationInfo),
    RoomUpdate(Value),
    Print(Value),
    PrintJSON(Value),
    DataPackage(DataPackage),
    Bounced(Value),
    InvalidPacket(Value),
    Retrieved(Retrieved),
    SetReply(SetReply),
}

/// Whether a version is the one that this client speaks.
pub open spec fn is_network_version(version: NetworkVersion) -> bool {
    &&& version.major == 0
    &&& version.minor == 5
    &&& version.build == 0
    &&& version.class@ == "Version"@
}

/// The version of the protocol that this client speaks.
pub fn network_version() -> (version: NetworkVersion)
    ensures
        is_network_version(version),
{
    NetworkVersion { major: 0, minor: 5, build: 0, class: "Version".to_string() }
}

impl ClientStatus {
    /// The number that stands for a status in a packet.
    pub open spec fn number(self) -> int {
        match self {
            ClientStatus::ClientUnknown => 0,
            ClientStatus::ClientConnected => 5,
            ClientStatus::ClientReady => 10,
            ClientStatus::ClientPlaying => 20,
            ClientStatus::ClientGoal => 30,
        }
    }

    /// The number that stands for a status in a packet.
    pub fn code(&self) -> (code: u8)
        ensures
            code == self.number(),
    {
        match self {
            ClientStatus::ClientUnknown => 0,
            ClientStatus::ClientConnected => 5,
            ClientStatus::ClientReady => 10,
            ClientStatus::ClientPlaying => 20,
            ClientStatus::ClientGoal => 30,
        }
    }
}

} // verus!
