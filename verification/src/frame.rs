//! From one read of the websocket to the packets of one text.
use crate::error::ArchipelagoError;
use crate::outside::{buffer_bytes, buffer_slice, clear_buffer, text_of, utf8_failure};
use crate::protocol::ServerMessage;
use bytes::BytesMut;
use vstd::prelude::*;
use vstd::utf8::{decode_utf8, valid_utf8};

verus! {

/// Why the peer closed the websocket.
#[derive(Debug, PartialEq)]
pub struct CloseReason {
    pub code: u16,
    pub description: Option<String>,
}

/// What one read of the websocket brought. The payload of a text or of binary
/// data is in the read buffer.
#[derive(Debug, PartialEq)]
pub enum Message {
    Text,
    Binary,
    Ping(Vec<u8>),
    Pong(Vec<u8>),
    Close(Option<CloseReason>),
}

/// What one read of the websocket came to.
pub type ReadResult = Result<Message, ratchet_rs::Error>;

/// What the parse of one text came to.
pub type ParseResult = Result<Vec<ServerMessage>, serde_json::Error>;

/// What to do after a read.
#[derive(Debug)]
pub enum FrameStep {
    /// Read once more.
    Read,
    /// Parse this text.
    Parse(String),
    /// Give up.
    Fail(ArchipelagoError),
}

/// What to do after a read, with a text as the characters that it is made of.
pub enum FrameVerdict {
    Read,
    Parse(Seq<char>),
    Fail(ArchipelagoError),
}

impl View for FrameStep {
    type V = FrameVerdict;

    open spec fn view(&self) -> FrameVerdict {
        match *self {
            FrameStep::Read => FrameVerdict::Read,
            FrameStep::Parse(text) => FrameVerdict::Parse(text@),
            FrameStep::Fail(error) => FrameVerdict::Fail(error),
        }
    }
}

/// What a read calls for while the buffer holds `unread`: a text is parsed if it
/// is UTF-8, pings and pongs are passed over, and anything else ends the reading.
pub open spec fn judge(unread: Seq<u8>, read: ReadResult) -> FrameVerdict {
    match read {
        Ok(Message::Text) => if valid_utf8(unread) {
            FrameVerdict::Parse(decode_utf8(unread))
        } else {
            FrameVerdict::Fail(ArchipelagoError::InvalidUtf8Error(utf8_failure(unread)))
        },
        Ok(Message::Ping(_)) | Ok(Message::Pong(_)) => FrameVerdict::Read,
        Ok(Message::Close(_)) => FrameVerdict::Fail(ArchipelagoError::ConnectionClosed),
        Ok(Message::Binary) => FrameVerdict::Fail(
            ArchipelagoError::NonTextWebsocketResult(Message::Binary),
        ),
        Err(error) => FrameVerdict::Fail(ArchipelagoError::WebSocketError(error)),
    }
}

/// Says what to do after a read. The buffer is left as it is: a ping may arrive
/// in the middle of a message, of which the buffer then holds the first part.
pub fn recv(buffer: &BytesMut, read: ReadResult) -> (step: FrameStep)
    ensures
        step@ == judge(buffer_bytes(*buffer), read),
{
    match read {
        Ok(Message::Text) => match text_of(buffer_slice(buffer)) {
            Ok(text) => FrameStep::Parse(text.to_string()),
            Err(error) => FrameStep::Fail(ArchipelagoError::from(error)),
        },
        Ok(Message::Ping(_)) | Ok(Message::Pong(_)) => FrameStep::Read,
        Ok(Message::Close(_)) => FrameStep::Fail(ArchipelagoError::ConnectionClosed),
        Ok(message) => FrameStep::Fail(ArchipelagoError::NonTextWebsocketResult(message)),
        Err(error) => FrameStep::Fail(ArchipelagoError::from(error)),
    }
}

/// Takes the packets that a text was parsed into. Only then is the text gone from
/// the buffer: one that could not be parsed stays there.
pub fn recv_parsed(buffer: &mut BytesMut, parsed: ParseResult) -> (packets: Result<
    Vec<ServerMessage>,
    ArchipelagoError,
>)
    ensures
        match parsed {
            Ok(payload) => packets == Ok::<Vec<ServerMessage>, ArchipelagoError>(payload)
                && buffer_bytes(*final(buffer)) == Seq::<u8>::empty(),
            Err(error) => packets == Err::<Vec<ServerMessage>, ArchipelagoError>(
                ArchipelagoError::FailedSerialize(error),
            ) && *final(buffer) == *old(buffer),
        },
{
    match parsed {
        Ok(payload) => {
            clear_buffer(buffer);
            Ok(payload)
        },
        Err(error) => Err(ArchipelagoError::from(error)),
    }
}

} // verus!
