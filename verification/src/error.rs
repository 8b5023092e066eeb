//! The ways in which an operation of the client can fail.
use crate::frame::Message;
use crate::protocol::ServerMessage;
use vstd::prelude::*;

verus! {

/// Why an operation of the client failed.
#[derive(Debug)]
pub enum ArchipelagoError {
    /// The server sent another packet than the one that was due.
    IllegalResponse { received: ServerMessage, expected: &'static str },
    /// The server closed the connection.
    ConnectionClosed,
    /// A message could not be turned into text, or a text into messages.
    FailedSerialize(serde_json::Error),
    /// The server sent something that is no text.
    NonTextWebsocketResult(Message),
    /// The stream under the websocket failed.
    NetworkError(std::io::Error),
    /// The websocket failed.
    WebSocketError(ratchet_rs::Error),
    /// The server sent a text that is not UTF-8.
    InvalidUtf8Error(std::str::Utf8Error),
}

impl ArchipelagoError {
    /// The error in words.
    pub open spec fn words(self) -> Seq<char> {
        match self {
            ArchipelagoError::IllegalResponse { .. } => "illegal response"@,
            ArchipelagoError::ConnectionClosed => "connection closed by server"@,
            ArchipelagoError::FailedSerialize(_) => "data failed to serialize"@,
            ArchipelagoError::NonTextWebsocketResult(_) =>
                "unexpected non-text result from websocket"@,
            ArchipelagoError::NetworkError(_) => "network error"@,
            ArchipelagoError::WebSocketError(_) => "websocket error"@,
            ArchipelagoError::InvalidUtf8Error(_) => "server sent invalid utf-8"@,
        }
    }

    /// The error in words.
    pub fn description(&self) -> (text: &'static str)
        ensures
            text@ == self.words(),
    {
        match self {
            ArchipelagoError::IllegalResponse { .. } => "illegal response",
            ArchipelagoError::ConnectionClosed => "connection closed by server",
            ArchipelagoError::FailedSerialize(_) => "data failed to serialize",
            ArchipelagoError::NonTextWebsocketResult(_) =>
                "unexpected non-text result from websocket",
            ArchipelagoError::NetworkError(_) => "network error",
            ArchipelagoError::WebSocketError(_) => "websocket error",
            ArchipelagoError::InvalidUtf8Error(_) => "server sent invalid utf-8",
        }
    }
}

impl From<serde_json::Error> for ArchipelagoError {
    fn from(error: serde_json::Error) -> (r: ArchipelagoError) {
        ArchipelagoError::FailedSerialize(error)
    }
}

impl vstd::std_specs::convert::FromSpecImpl<serde_json::Error> for ArchipelagoError {
    open spec fn obeys_from_spec() -> bool {
        true
    }

    open spec fn from_spec(error: serde_json::Error) -> ArchipelagoError {
        ArchipelagoError::FailedSerialize(error)
    }
}

impl From<std::io::Error> for ArchipelagoError {
    fn from(error: std::io::Error) -> (r: ArchipelagoError) {
        ArchipelagoError::NetworkError(error)
    }
}

impl vstd::std_specs::convert::FromSpecImpl<std::io::Error> for ArchipelagoError {
    open spec fn obeys_from_spec() -> bool {
        true
    }

    open spec fn from_spec(error: std::io::Error) -> ArchipelagoError {
        ArchipelagoError::NetworkError(error)
    }
}

impl From<ratchet_rs::Error> for ArchipelagoError {
    fn from(error: ratchet_rs::Error) -> (r: ArchipelagoError) {
        ArchipelagoError::WebSocketError(error)
    }
}

impl vstd::std_specs::convert::FromSpecImpl<ratchet_rs::Error> for ArchipelagoError {
    open spec fn obeys_from_spec() -> bool {
        true
    }

    open spec fn from_spec(error: ratchet_rs::Error) -> ArchipelagoError {
        ArchipelagoError::WebSocketError(error)
    }
}

impl From<std::str::Utf8Error> for ArchipelagoError {
    fn from(error: std::str::Utf8Error) -> (r: ArchipelagoError) {
        ArchipelagoError::InvalidUtf8Error(error)
    }
}

impl vstd::std_specs::convert::FromSpecImpl<std::str::Utf8Error> for ArchipelagoError {
    open spec fn obeys_from_spec() -> bool {
        true
    }

    open spec fn from_spec(error: std::str::Utf8Error) -> ArchipelagoError {
        ArchipelagoError::InvalidUtf8Error(error)
    }
}

} // verus!
