//! The sending side of a connection.
use crate::error::ArchipelagoError;
use crate::protocol::{
    Bounce, ClientMessage, ClientStatus, LocationChecks, Say, StatusUpdate,
};
use serde_json::Value;
use vstd::prelude::*;

verus! {

/// Once split, this struct handles the sending-side of your connection
///
/// For helper method docs, see ArchipelagoClient. Helper methods that require
/// both sending and receiving are intentionally unavailable; for those messages,
/// use `send`.
#[derive(Debug)]
pub struct ArchipelagoClientSender {}

/// What turning packets into a text came to.
pub type SerializeResult = Result<String, serde_json::Error>;

/// What writing a text to the websocket came to.
pub type WriteResult = Result<(), ratchet_rs::Error>;

/// What sending a packet calls for next.
#[derive(Debug)]
pub enum SendStep {
    /// Turn this list of packets into one text; then `send_serialized`.
    Serialize(Vec<ClientMessage>),
    /// Write this text to the websocket; then `send_written`.
    Write(String),
    /// Sending is over, with this result.
    Done(Result<(), ArchipelagoError>),
}

/// The step that sends one packet: a text lists packets, and this one lists it alone.
pub open spec fn sends(step: SendStep, message: ClientMessage) -> bool {
    step matches SendStep::Serialize(packets) && packets@ == seq![message]
}

/// The step that sends one line of chat.
pub open spec fn says(step: SendStep, text: Seq<char>) -> bool {
    &&& step matches SendStep::Serialize(packets)
    &&& packets@.len() == 1
    &&& packets@[0] matches ClientMessage::Say(say)
    &&& say.text@ == text
}

/// What follows on an attempt to turn packets into a text: the text is written, or
/// nothing is.
pub open spec fn after_serialize(serialized: SerializeResult) -> SendStep {
    match serialized {
        Ok(text) => SendStep::Write(text),
        Err(error) => SendStep::Done(Err(ArchipelagoError::FailedSerialize(error))),
    }
}

/// What a write comes to.
pub open spec fn after_write(written: WriteResult) -> Result<(), ArchipelagoError> {
    match written {
        Ok(()) => Ok(()),
        Err(error) => Err(ArchipelagoError::WebSocketError(error)),
    }
}

impl ArchipelagoClientSender {
    /// The sending side of a connection that was just opened.
    pub(crate) fn new() -> ArchipelagoClientSender {
        ArchipelagoClientSender {  }
    }

    /// Starts to send a packet.
    pub fn send(&mut self, message: ClientMessage) -> (step: SendStep)
        ensures
            sends(step, message),
    {
        let mut packets: Vec<ClientMessage> = Vec::new();
        packets.push(message);
        assert(packets@ =~= seq![message]);
        SendStep::Serialize(packets)
    }

    /// Goes on after the packets were turned into a text.
    pub fn send_serialized(&mut self, serialized: SerializeResult) -> (step: SendStep)
        ensures
            step == after_serialize(serialized),
    {
        match serialized {
            Ok(text) => SendStep::Write(text),
            Err(error) => SendStep::Done(Err(ArchipelagoError::from(error))),
        }
    }

    /// Goes on after the text was written.
    pub fn send_written(&mut self, written: WriteResult) -> (step: SendStep)
        ensures
            step == SendStep::Done(after_write(written)),
    {
        match written {
            Ok(()) => SendStep::Done(Ok(())),
            Err(error) => SendStep::Done(Err(ArchipelagoError::from(error))),
        }
    }

    pub fn say(&mut self, message: &str) -> (step: SendStep)
        ensures
            says(step, message@),
    {
        self.send(ClientMessage::Say(Say { text: message.to_string() }))
    }

    pub fn location_checks(&mut self, locations: Vec<i64>) -> (step: SendStep)
        ensures
            sends(step, ClientMessage::LocationChecks(LocationChecks { locations })),
    {
        self.send(ClientMessage::LocationChecks(LocationChecks { locations }))
    }

    pub fn status_update(&mut self, status: ClientStatus) -> (step: SendStep)
        ensures
            sends(step, ClientMessage::StatusUpdate(StatusUpdate { status })),
    {
        self.send(ClientMessage::StatusUpdate(StatusUpdate { status }))
    }

    pub fn bounce(
        &mut self,
        games: Option<Vec<String>>,
        slots: Option<Vec<String>>,
        tags: Option<Vec<String>>,
        data: Value,
    ) -> (step: SendStep)
        ensures
            sends(step, ClientMessage::Bounce(Bounce { games, slots, tags, data })),
    {
        self.send(ClientMessage::Bounce(Bounce { games, slots, tags, data }))
    }
}

} // verus!
