//! The client: both sides of one connection.
use crate::dial::{Dial, DialState};
use crate::error::ArchipelagoError;
use crate::exchange::{opens, Exchange, Policy, Step};
use crate::frame::{ParseResult, ReadResult};
use crate::outside::buffer_bytes;
use crate::protocol::{
    is_network_version, network_version, Bounce, ClientMessage, ClientStatus, Connect, Connected,
    DataPackageObject, DataStorageOperation, Get, LocationChecks, LocationInfo, LocationScouts,
    ReceivedItems, Retrieved, Say, ServerMessage, SetReply, SetValue, StatusUpdate,
};
use crate::receiver::{
    after_parse, after_read, hand_out, restored, ArchipelagoClientReceiver, ReceiverState, RecvStep,
};
use crate::room::RoomInfo;
use crate::sender::{
    after_serialize, after_write, says, sends, ArchipelagoClientSender, SendStep,
    SerializeResult, WriteResult,
};
use crate::startup::{joined, Package, Startup, StartupState};
use bytes::BytesMut;
use serde_json::Value;
use vstd::prelude::*;

verus! {

/// A client that has joined a room.
#[derive(Debug)]
pub struct ArchipelagoClient {
    sender: ArchipelagoClientSender,
    receiver: ArchipelagoClientReceiver,
}

impl View for ArchipelagoClient {
    type V = ReceiverState;

    closed spec fn view(&self) -> ReceiverState {
        self.receiver@
    }
}

impl ArchipelagoClient {
    /// Create an instance of the client and connect to the server on the given URL
    pub fn new(host: &str, port: u16) -> (next: Startup)
        ensures
            next@ == StartupState::Connect(
                DialState { host: host@, port, package: Package::Skip, downgraded: false },
            ),
    {
        Dial::start(host, port, Package::Skip)
    }

    /// Create an instance of the client and connect to the server, fetching the given games' Data
    /// Package
    ///
    /// If None, request the games that are part of the connected room.
    pub fn with_data_package(host: &str, port: u16, games: Option<Vec<String>>) -> (next: Startup)
        ensures
            next@ == StartupState::Connect(
                DialState { host: host@, port, package: Package::Fetch(games), downgraded: false },
            ),
    {
        Dial::start(host, port, Package::Fetch(games))
    }

    /// The client that has received the first packets of a connection.
    pub fn join(response: Vec<ServerMessage>, buf: BytesMut) -> (outcome: Result<
        ArchipelagoClient,
        ArchipelagoError,
    >)
        ensures
            match outcome {
                Ok(client) => joined(response@, buffer_bytes(buf)) == Ok::<
                    ReceiverState,
                    ArchipelagoError,
                >(client@),
                Err(error) => joined(response@, buffer_bytes(buf)) == Err::<
                    ReceiverState,
                    ArchipelagoError,
                >(error),
            },
    {
        let mut rest = response;
        if rest.len() == 0 {
            return Err(ArchipelagoError::ConnectionClosed);
        }
        let first = rest.remove(0);
        assert(rest@ =~= response@.drop_first());
        match first {
            ServerMessage::RoomInfo(room_info) => Ok(
                ArchipelagoClient {
                    sender: ArchipelagoClientSender::new(),
                    receiver: ArchipelagoClientReceiver::new(room_info, rest, buf),
                },
            ),
            received => Err(
                ArchipelagoError::IllegalResponse { received, expected: "Expected RoomInfo" },
            ),
        }
    }

    pub fn room_info(&self) -> (room: &RoomInfo)
        ensures
            *room == self@.room,
    {
        self.receiver.room_info()
    }

    pub fn data_package(&self) -> (package: Option<&DataPackageObject>)
        ensures
            match package {
                Some(data) => self@.package == Some(*data),
                None => self@.package is None,
            },
    {
        self.receiver.data_package()
    }

    pub fn send(&mut self, message: ClientMessage) -> (step: SendStep)
        ensures
            sends(step, message),
            final(self)@ == old(self)@,
    {
        self.sender.send(message)
    }

    /// Goes on after the packets were turned into a text.
    pub fn send_serialized(&mut self, serialized: SerializeResult) -> (step: SendStep)
        ensures
            step == after_serialize(serialized),
            final(self)@ == old(self)@,
    {
        self.sender.send_serialized(serialized)
    }

    /// Goes on after the text was written.
    pub fn send_written(&mut self, written: WriteResult) -> (step: SendStep)
        ensures
            step == SendStep::Done(after_write(written)),
            final(self)@ == old(self)@,
    {
        self.sender.send_written(written)
    }

    /// Read a message from the server
    ///
    /// Will buffer results locally, and return results from buffer or wait on network
    /// if buffer is empty
    pub fn recv(&mut self) -> (step: RecvStep)
        ensures
            (final(self)@, step@) == hand_out(old(self)@),
    {
        self.receiver.recv()
    }

    /// Goes on after a read from the websocket.
    pub fn recv_read(&mut self, read: ReadResult) -> (step: RecvStep)
        ensures
            (final(self)@, step@) == after_read(old(self)@, read),
    {
        self.receiver.recv_read(read)
    }

    /// Goes on after a text was parsed.
    pub fn recv_parsed(&mut self, parsed: ParseResult) -> (step: RecvStep)
        ensures
            (final(self)@, step@) == after_parse(old(self)@, parsed),
    {
        self.receiver.recv_parsed(parsed)
    }

    /// The buffer that the websocket reads into.
    pub fn read_buffer(&mut self) -> (buffer: &mut BytesMut)
        ensures
            buffer_bytes(*buffer) == old(self)@.unread,
            final(self)@ == (ReceiverState {
                unread: buffer_bytes(*final(buffer)),
                ..old(self)@
            }),
    {
        self.receiver.read_buffer()
    }

    /// Send a connect request to the Archipelago server
    ///
    /// Will attempt to read a Connected packet in response, and will return an error if
    /// another packet is found
    pub fn connect(
        &mut self,
        game: &str,
        name: &str,
        password: Option<&str>,
        items_handling: Option<i32>,
        tags: Vec<String>,
    ) -> (step: Step<Connected>)
        ensures
            step matches Step::Serialize(packets, exchange) && {
                &&& asks_to_play(packets@, game@, name@, password, items_handling, tags)
                &&& exchange.policy() == Policy::RefuseOthers("Connected")
                &&& exchange.ignored() == Seq::<ServerMessage>::empty()
            },
            final(self)@ == old(self)@,
    {
        let password: Option<String> = match password {
            Some(password) => Some(password.to_string()),
            None => None,
        };
        Exchange::open(
            self,
            ClientMessage::Connect(
                Connect {
                    game: game.to_string(),
                    name: name.to_string(),
                    uuid: "".to_string(),
                    password,
                    version: network_version(),
                    items_handling,
                    tags,
                    request_slot_data: true,
                },
            ),
            Policy::RefuseOthers("Connected"),
        )
    }

    /// Basic chat command which sends text to the server to be distributed to other clients.
    pub fn say(&mut self, message: &str) -> (step: SendStep)
        ensures
            says(step, message@),
            final(self)@ == old(self)@,
    {
        self.send(ClientMessage::Say(Say { text: message.to_string() }))
    }

    /// Sent to server to request a ReceivedItems packet to synchronize items.
    ///
    /// Will buffer any non-ReceivedItems packets returned
    pub fn sync(&mut self) -> (step: Step<ReceivedItems>)
        ensures
            opens(step, ClientMessage::Sync, Policy::KeepOthers),
            final(self)@ == old(self)@,
    {
        Exchange::open(self, ClientMessage::Sync, Policy::KeepOthers)
    }

    /// Sent to server to inform it of locations that the client has checked.
    ///
    /// Used to inform the server of new checks that are made, as well as to sync state.
    pub fn location_checks(&mut self, locations: Vec<i64>) -> (step: SendStep)
        ensures
            sends(step, ClientMessage::LocationChecks(LocationChecks { locations })),
            final(self)@ == old(self)@,
    {
        self.send(ClientMessage::LocationChecks(LocationChecks { locations }))
    }

    /// Sent to the server to inform it of locations the client has seen, but not checked.
    ///
    /// Useful in cases in which the item may appear in the game world, such as 'ledge items' in A
    /// Link to the Past. Non-LocationInfo packets will be buffered
    pub fn location_scouts(&mut self, locations: Vec<i64>, create_as_hint: i32) -> (step: Step<
        LocationInfo,
    >)
        ensures
            opens(
                step,
                ClientMessage::LocationScouts(LocationScouts { locations, create_as_hint }),
                Policy::KeepOthers,
            ),
            final(self)@ == old(self)@,
    {
        Exchange::open(
            self,
            ClientMessage::LocationScouts(LocationScouts { locations, create_as_hint }),
            Policy::KeepOthers,
        )
    }

    /// Sent to the server to update on the sender's status.
    ///
    /// Examples include readiness or goal completion. (Example: defeated Ganon in A Link to the
    /// Past)
    pub fn status_update(&mut self, status: ClientStatus) -> (step: SendStep)
        ensures
            sends(step, ClientMessage::StatusUpdate(StatusUpdate { status })),
            final(self)@ == old(self)@,
    {
        self.send(ClientMessage::StatusUpdate(StatusUpdate { status }))
    }

    /// Send this message to the server, tell it which clients should receive the message and the
    /// server will forward the message to all those targets to which any one requirement applies.
    pub fn bounce(
        &mut self,
        games: Option<Vec<String>>,
        slots: Option<Vec<String>>,
        tags: Option<Vec<String>>,
        data: Value,
    ) -> (step: SendStep)
        ensures
            sends(step, ClientMessage::Bounce(Bounce { games, slots, tags, data })),
            final(self)@ == old(self)@,
    {
        self.send(ClientMessage::Bounce(Bounce { games, slots, tags, data }))
    }

    /// Used to request a single or multiple values from the server's data storage, see the Set
    /// package for how to write values to the data storage.
    ///
    /// A Get package will be answered with a Retrieved package. Non-Retrieved responses are
    /// buffered
    pub fn get(&mut self, keys: Vec<String>) -> (step: Step<Retrieved>)
        ensures
            opens(step, ClientMessage::Get(Get { keys }), Policy::KeepOthers),
            final(self)@ == old(self)@,
    {
        Exchange::open(self, ClientMessage::Get(Get { keys }), Policy::KeepOthers)
    }

    /// Used to write data to the server's data storage, that data can then be shared across worlds
    /// or just saved for later.
    ///
    /// Values for keys in the data storage can be retrieved with a Get package, or monitored with a
    /// SetNotify package. Non-SetReply responses are buffered
    pub fn set(
        &mut self,
        key: String,
        default: Value,
        want_reply: bool,
        operations: Vec<DataStorageOperation>,
    ) -> (step: Step<SetReply>)
        ensures
            opens(
                step,
                ClientMessage::SetValue(SetValue { key, default, want_reply, operations }),
                Policy::KeepOthers,
            ),
            final(self)@ == old(self)@,
    {
        Exchange::open(
            self,
            ClientMessage::SetValue(SetValue { key, default, want_reply, operations }),
            Policy::KeepOthers,
        )
    }

    /// Parts the two sides of the connection.
    pub fn split(self) -> (sides: (ArchipelagoClientSender, ArchipelagoClientReceiver))
        ensures
            sides.1@ == self@,
    {
        (self.sender, self.receiver)
    }

    /// Keeps a data package.
    pub(crate) fn keep_data_package(&mut self, data: DataPackageObject)
        ensures
            final(self)@ == (ReceiverState { package: Some(data), ..old(self)@ }),
    {
        self.receiver.keep_data_package(data)
    }

    /// Puts packets back, to be handed out in their order before all that wait.
    pub(crate) fn put_back(&mut self, messages: Vec<ServerMessage>)
        ensures
            final(self)@ == restored(old(self)@, messages@),
    {
        self.receiver.put_back(messages)
    }
}

/// A list of one packet, which asks to play a slot.
pub open spec fn asks_to_play(
    packets: Seq<ClientMessage>,
    game: Seq<char>,
    name: Seq<char>,
    password: Option<&str>,
    items_handling: Option<i32>,
    tags: Vec<String>,
) -> bool {
    &&& packets.len() == 1
    &&& packets[0] matches ClientMessage::Connect(request)
    &&& request.game@ == game
    &&& request.name@ == name
    &&& request.uuid@ == ""@
    &&& match password {
        Some(password) => request.password matches Some(sent) && sent@ == password@,
        None => request.password is None,
    }
    &&& is_network_version(request.version)
    &&& request.items_handling == items_handling
    &&& request.tags == tags
    &&& request.request_slot_data
}

} // verus!
