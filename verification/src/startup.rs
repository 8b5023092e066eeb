//! From nothing to a client that has joined a room.
use crate::client::ArchipelagoClient;
use crate::dial::{Dial, DialState};
use crate::error::ArchipelagoError;
use crate::exchange::{Exchange, Policy, Step};
use crate::frame::{judge, FrameStep, FrameVerdict, ParseResult, ReadResult};
use crate::outside::{buffer_bytes, new_buffer};
use crate::protocol::{ClientMessage, DataPackage, GetDataPackage, ServerMessage};
use crate::receiver::{filled, ReceiverState};
use crate::room::{names_of, RoomInfo};
use crate::sender::{SerializeResult, WriteResult};
use bytes::BytesMut;
use vstd::prelude::*;

verus! {

/// Which data packages to fetch on joining.
#[derive(Debug)]
pub enum Package {
    /// None.
    Skip,
    /// Those of these games, or of the games of the room where none are given.
    Fetch(Option<Vec<String>>),
}

/// What joining a room calls for next.
#[derive(Debug)]
pub enum Startup {
    /// Open a TCP stream; then `connected`.
    Connect(Dial),
    /// Have the stream send without delay; then `no_delay_set`.
    SetNoDelay(Dial),
    /// Build a TLS connector; then `tls_built`.
    BuildTls(Dial),
    /// Shake hands over the stream; then `handshaken`.
    Handshake(Dial),
    /// Open the websocket on the stream and part its two sides; then `subscribed`.
    Subscribe(Upgrade),
    /// Read once from the websocket into the read buffer; then `read`.
    Read(Greeting),
    /// Parse this text; then `parsed`.
    Parse(String, Greeting),
    /// Turn this list of packets into one text; then `serialized`.
    Serialize(Vec<ClientMessage>, Fetch),
    /// Write this text to the websocket; then `written`.
    Write(String, Fetch),
    /// Read once from the websocket into the read buffer; then `read`.
    FetchRead(Fetch),
    /// Parse this text; then `parsed`.
    FetchParse(String, Fetch),
    /// Joining is over, with this result.
    Done(Result<ArchipelagoClient, ArchipelagoError>),
}

/// What joining a room calls for next, as it is seen from outside.
pub enum StartupState {
    Connect(DialState),
    SetNoDelay(DialState),
    BuildTls(DialState),
    Handshake(DialState),
    Subscribe(UpgradeState),
    Read(GreetingState),
    Parse(Seq<char>, GreetingState),
    Serialize(Seq<ClientMessage>, ReceiverState),
    Write(Seq<char>, ReceiverState),
    FetchRead(ReceiverState),
    FetchParse(Seq<char>, ReceiverState),
    Done(Result<ReceiverState, ArchipelagoError>),
}

impl View for Startup {
    type V = StartupState;

    open spec fn view(&self) -> StartupState {
        match *self {
            Startup::Connect(dial) => StartupState::Connect(dial@),
            Startup::SetNoDelay(dial) => StartupState::SetNoDelay(dial@),
            Startup::BuildTls(dial) => StartupState::BuildTls(dial@),
            Startup::Handshake(dial) => StartupState::Handshake(dial@),
            Startup::Subscribe(upgrade) => StartupState::Subscribe(upgrade@),
            Startup::Read(greeting) => StartupState::Read(greeting@),
            Startup::Parse(text, greeting) => StartupState::Parse(text@, greeting@),
            Startup::Serialize(packets, fetch) => StartupState::Serialize(packets@, fetch@),
            Startup::Write(text, fetch) => StartupState::Write(text@, fetch@),
            Startup::FetchRead(fetch) => StartupState::FetchRead(fetch@),
            Startup::FetchParse(text, fetch) => StartupState::FetchParse(text@, fetch@),
            Startup::Done(Ok(client)) => StartupState::Done(Ok(client@)),
            Startup::Done(Err(error)) => StartupState::Done(Err(error)),
        }
    }
}

/// A stream on which the websocket is to be opened.
#[derive(Debug)]
pub struct Upgrade {
    url: String,
    package: Package,
}

/// A stream on which the websocket is to be opened, as it is seen from outside.
pub struct UpgradeState {
    pub url: Seq<char>,
    pub package: Package,
}

impl View for Upgrade {
    type V = UpgradeState;

    closed spec fn view(&self) -> UpgradeState {
        UpgradeState { url: self.url@, package: self.package }
    }
}

/// An open websocket is read for the first packets, into an empty buffer.
pub open spec fn after_subscribe(upgrade: UpgradeState, subscribed: WriteResult) -> StartupState {
    match subscribed {
        Ok(()) => StartupState::Read(
            GreetingState { package: upgrade.package, unread: Seq::empty() },
        ),
        Err(error) => StartupState::Done(Err(ArchipelagoError::WebSocketError(error))),
    }
}

impl Upgrade {
    /// A websocket is to be opened at this address.
    pub(crate) fn new(url: String, package: Package) -> (upgrade: Upgrade)
        ensures
            upgrade@ == (UpgradeState { url: url@, package }),
    {
        Upgrade { url, package }
    }

    /// The address to ask for.
    pub fn url(&self) -> (url: &str)
        ensures
            url@ == self@.url,
    {
        self.url.as_str()
    }

    /// Goes on after the websocket was opened and parted.
    pub fn subscribed(self, subscribed: WriteResult) -> (next: Startup)
        ensures
            next@ == after_subscribe(self@, subscribed),
    {
        match subscribed {
            Ok(()) => Startup::Read(Greeting { package: self.package, buf: new_buffer() }),
            Err(error) => Startup::Done(Err(ArchipelagoError::from(error))),
        }
    }
}

/// A websocket on which the server's greeting is due.
#[derive(Debug)]
pub struct Greeting {
    package: Package,
    buf: BytesMut,
}

/// A websocket on which the greeting is due, as it is seen from outside.
pub struct GreetingState {
    pub package: Package,
    pub unread: Seq<u8>,
}

impl View for Greeting {
    type V = GreetingState;

    closed spec fn view(&self) -> GreetingState {
        GreetingState { package: self.package, unread: buffer_bytes(self.buf) }
    }
}

/// A read before the greeting calls for a parse, for another read, or it ends the
/// joining.
pub open spec fn greeting_read(greeting: GreetingState, read: ReadResult) -> StartupState {
    match judge(greeting.unread, read) {
        FrameVerdict::Read => StartupState::Read(greeting),
        FrameVerdict::Parse(text) => StartupState::Parse(text, greeting),
        FrameVerdict::Fail(error) => StartupState::Done(Err(error)),
    }
}

/// The client that has received the first packets: the very first of them tells of
/// the room, and the others wait, the last one to be handed out first.
pub open spec fn joined(payload: Seq<ServerMessage>, unread: Seq<u8>) -> Result<
    ReceiverState,
    ArchipelagoError,
> {
    if payload.len() == 0 {
        Err(ArchipelagoError::ConnectionClosed)
    } else {
        match payload[0] {
            ServerMessage::RoomInfo(room) => Ok(
                ReceiverState {
                    unread,
                    pending: payload.drop_first().reverse(),
                    room,
                    package: None,
                },
            ),
            received => Err(
                ArchipelagoError::IllegalResponse { received, expected: "Expected RoomInfo" },
            ),
        }
    }
}

/// A list of one packet, which asks for the data packages of the given games, or of
/// all games of the room, each once, where none are given.
pub open spec fn asks_for_packages(
    packets: Seq<ClientMessage>,
    games: Option<Vec<String>>,
    room: RoomInfo,
) -> bool {
    &&& packets.len() == 1
    &&& packets[0] matches ClientMessage::GetDataPackage(request)
    &&& match games {
        Some(_) => request.games == games,
        None => request.games matches Some(list) && {
            &&& names_of(list@) == room.games()
            &&& names_of(list@).no_duplicates()
            &&& names_of(list@).to_set() == room.checksums().dom()
        },
    }
}

/// What follows on joining a room.
pub open spec fn after_joining(
    package: Package,
    outcome: Result<ReceiverState, ArchipelagoError>,
    next: StartupState,
) -> bool {
    match (package, outcome) {
        (Package::Fetch(games), Ok(client)) => {
            &&& next matches StartupState::Serialize(packets, fetching)
            &&& asks_for_packages(packets, games, client.room)
            &&& fetching == client
        },
        _ => next == StartupState::Done(outcome),
    }
}

impl Greeting {
    /// The buffer that the websocket reads into.
    pub fn read_buffer(&mut self) -> (buffer: &mut BytesMut)
        ensures
            buffer_bytes(*buffer) == old(self)@.unread,
            final(self)@ == (GreetingState {
                unread: buffer_bytes(*final(buffer)),
                ..old(self)@
            }),
    {
        &mut self.buf
    }

    /// Goes on after a read from the websocket.
    pub fn read(self, read: ReadResult) -> (next: Startup)
        ensures
            next@ == greeting_read(self@, read),
    {
        match crate::frame::recv(&self.buf, read) {
            FrameStep::Read => Startup::Read(self),
            FrameStep::Parse(text) => Startup::Parse(text, self),
            FrameStep::Fail(error) => Startup::Done(Err(error)),
        }
    }

    /// Goes on after a text was parsed.
    pub fn parsed(self, parsed: ParseResult) -> (next: Startup)
        ensures
            match parsed {
                Ok(payload) => after_joining(
                    self@.package,
                    joined(payload@, Seq::empty()),
                    next@,
                ),
                Err(error) => next@ == StartupState::Done(
                    Err(ArchipelagoError::FailedSerialize(error)),
                ),
            },
    {
        let mut buf = self.buf;
        match crate::frame::recv_parsed(&mut buf, parsed) {
            Ok(payload) => match ArchipelagoClient::join(payload, buf) {
                Ok(client) => match self.package {
                    Package::Skip => Startup::Done(Ok(client)),
                    Package::Fetch(games) => Fetch::start(client, games),
                },
                Err(error) => Startup::Done(Err(error)),
            },
            Err(error) => Startup::Done(Err(error)),
        }
    }
}

/// A client that fetches a data package before it is handed over. Other packets are
/// refused meanwhile, so there is nothing to remember of the exchange.
#[derive(Debug)]
pub struct Fetch {
    client: ArchipelagoClient,
}

impl View for Fetch {
    type V = ReceiverState;

    closed spec fn view(&self) -> ReceiverState {
        self.client@
    }
}

/// What a client that awaits a data package comes to with the packets at hand: the
/// first of them has to be the package.
pub open spec fn fetched(client: ReceiverState) -> StartupState {
    if client.pending.len() == 0 {
        StartupState::FetchRead(client)
    } else {
        match client.pending[0] {
            ServerMessage::DataPackage(package) => StartupState::Done(
                Ok(
                    ReceiverState {
                        pending: client.pending.drop_first(),
                        package: Some(package.data),
                        ..client
                    },
                ),
            ),
            received => StartupState::Done(
                Err(ArchipelagoError::IllegalResponse { received, expected: "DataPackage" }),
            ),
        }
    }
}

/// The text of the request is written, or joining ends.
pub open spec fn fetch_serialized(client: ReceiverState, serialized: SerializeResult) -> StartupState {
    match serialized {
        Ok(text) => StartupState::Write(text@, client),
        Err(error) => StartupState::Done(Err(ArchipelagoError::FailedSerialize(error))),
    }
}

/// With the request written the package is awaited.
pub open spec fn fetch_written(client: ReceiverState, written: WriteResult) -> StartupState {
    match written {
        Ok(()) => fetched(client),
        Err(error) => StartupState::Done(Err(ArchipelagoError::WebSocketError(error))),
    }
}

/// A read before the package calls for a parse, for another read, or it ends the
/// joining.
pub open spec fn fetch_read(client: ReceiverState, read: ReadResult) -> StartupState {
    match judge(client.unread, read) {
        FrameVerdict::Read => StartupState::FetchRead(client),
        FrameVerdict::Parse(text) => StartupState::FetchParse(text, client),
        FrameVerdict::Fail(error) => StartupState::Done(Err(error)),
    }
}

/// The first packet of a text has to be the package.
pub open spec fn fetch_parsed(client: ReceiverState, parsed: ParseResult) -> StartupState {
    match parsed {
        Ok(payload) => fetched(filled(client, payload@)),
        Err(error) => StartupState::Done(Err(ArchipelagoError::FailedSerialize(error))),
    }
}

impl Fetch {
    /// Starts to fetch the data packages of some games, or of the games of the room.
    fn start(client: ArchipelagoClient, games: Option<Vec<String>>) -> (next: Startup)
        ensures
            after_joining(Package::Fetch(games), Ok(client@), next@),
    {
        let mut client = client;
        let list = match games {
            Some(list) => list,
            None => client.room_info().game_names(),
        };
        let request = ClientMessage::GetDataPackage(GetDataPackage { games: Some(list) });
        let step: Step<DataPackage> = Exchange::open(
            &mut client,
            request,
            Policy::RefuseOthers("DataPackage"),
        );
        Fetch { client }.lift(step)
    }

    /// The buffer that the websocket reads into.
    pub fn read_buffer(&mut self) -> (buffer: &mut BytesMut)
        ensures
            buffer_bytes(*buffer) == old(self)@.unread,
            final(self)@ == (ReceiverState {
                unread: buffer_bytes(*final(buffer)),
                ..old(self)@
            }),
    {
        self.client.read_buffer()
    }

    /// Goes on after the request was turned into a text.
    pub fn serialized(self, serialized: SerializeResult) -> (next: Startup)
        ensures
            next@ == fetch_serialized(self@, serialized),
    {
        let mut client = self.client;
        let step = awaiting().serialized(&mut client, serialized);
        Fetch { client }.lift(step)
    }

    /// Goes on after the request was written.
    pub fn written(self, written: WriteResult) -> (next: Startup)
        ensures
            next@ == fetch_written(self@, written),
    {
        let mut client = self.client;
        let step = awaiting().written(&mut client, written);
        proof {
            lemma_nothing_before(self@);
        }
        Fetch { client }.lift(step)
    }

    /// Goes on after a read from the websocket.
    pub fn read(self, read: ReadResult) -> (next: Startup)
        ensures
            next@ == fetch_read(self@, read),
    {
        let mut client = self.client;
        let step = awaiting().read(&mut client, read);
        Fetch { client }.lift(step)
    }

    /// Goes on after a text was parsed.
    pub fn parsed(self, parsed: ParseResult) -> (next: Startup)
        ensures
            next@ == fetch_parsed(self@, parsed),
    {
        let mut client = self.client;
        let step = awaiting().parsed(&mut client, parsed);
        proof {
            lemma_nothing_before(filled(self@, parsed->Ok_0@));
        }
        Fetch { client }.lift(step)
    }

    /// Takes a step of the exchange as a step of joining.
    fn lift(self, step: Step<DataPackage>) -> (next: Startup)
        ensures
            next@ == lifted(self@, step),
    {
        match step {
            Step::Serialize(packets, _) => Startup::Serialize(packets, self),
            Step::Write(text, _) => Startup::Write(text, self),
            Step::Read(_) => Startup::FetchRead(self),
            Step::Parse(text, _) => Startup::FetchParse(text, self),
            Step::Done(Ok(package)) => {
                let mut client = self.client;
                client.keep_data_package(package.data);
                Startup::Done(Ok(client))
            },
            Step::Done(Err(error)) => Startup::Done(Err(error)),
        }
    }
}

/// A step of the exchange, taken as a step of joining.
spec fn lifted(client: ReceiverState, step: Step<DataPackage>) -> StartupState {
    match step {
        Step::Serialize(packets, _) => StartupState::Serialize(packets@, client),
        Step::Write(text, _) => StartupState::Write(text@, client),
        Step::Read(_) => StartupState::FetchRead(client),
        Step::Parse(text, _) => StartupState::FetchParse(text@, client),
        Step::Done(Ok(package)) => StartupState::Done(
            Ok(ReceiverState { package: Some(package.data), ..client }),
        ),
        Step::Done(Err(error)) => StartupState::Done(Err(error)),
    }
}

/// Where nothing was passed over, nothing comes before the packets at hand.
proof fn lemma_nothing_before(client: ReceiverState)
    ensures
        Seq::<ServerMessage>::empty() + client.pending.drop_first() == client.pending.drop_first(),
        client.pending.len() == 0 ==> client == (ReceiverState { pending: Seq::empty(), ..client }),
{
    assert(Seq::<ServerMessage>::empty() + client.pending.drop_first()
        =~= client.pending.drop_first());
    if client.pending.len() == 0 {
        assert(client.pending =~= Seq::empty());
    }
}

/// An exchange that awaits a data package and refuses all else.
fn awaiting() -> (exchange: Exchange<DataPackage>)
    ensures
        exchange.policy() == Policy::RefuseOthers("DataPackage"),
        exchange.ignored() == Seq::<ServerMessage>::empty(),
{
    Exchange::new(Policy::RefuseOthers("DataPackage"))
}

} // verus!
