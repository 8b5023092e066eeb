//! The receiving side of a connection.
use crate::error::ArchipelagoError;
use crate::frame::{judge, FrameStep, FrameVerdict, ParseResult, ReadResult};
use crate::outside::buffer_bytes;
use crate::protocol::{DataPackageObject, ServerMessage};
use crate::room::RoomInfo;
use bytes::BytesMut;
use vstd::prelude::*;

verus! {

/// Once split, this struct handles the receiving-side of your connection
///
/// For helper method docs, see ArchipelagoClient. Helper methods that require
/// both sending and receiving are intentionally unavailable; for those messages,
/// use `recv`.
#[derive(Debug)]
pub struct ArchipelagoClientReceiver {
    room_info: RoomInfo,
    // The packet to hand out next comes last.
    message_buffer: Vec<ServerMessage>,
    data_package: Option<DataPackageObject>,
    buf: BytesMut,
}

/// The receiving side as it is seen from outside: the bytes that were read and not
/// yet parsed, the packets that wait to be handed out, the next one first, and what
/// is known of the room.
#[verifier::ext_equal]
pub struct ReceiverState {
    pub unread: Seq<u8>,
    pub pending: Seq<ServerMessage>,
    pub room: RoomInfo,
    pub package: Option<DataPackageObject>,
}

/// What receiving a packet calls for next.
#[derive(Debug)]
pub enum RecvStep {
    /// Read once from the websocket into the read buffer; then `recv_read`.
    Read,
    /// Parse this text; then `recv_parsed`.
    Parse(String),
    /// Receiving is over, with this result.
    Done(Result<ServerMessage, ArchipelagoError>),
}

/// What receiving a packet calls for next, with a text as its characters.
pub enum RecvVerdict {
    Read,
    Parse(Seq<char>),
    Done(Result<ServerMessage, ArchipelagoError>),
}

impl View for RecvStep {
    type V = RecvVerdict;

    open spec fn view(&self) -> RecvVerdict {
        match *self {
            RecvStep::Read => RecvVerdict::Read,
            RecvStep::Parse(text) => RecvVerdict::Parse(text@),
            RecvStep::Done(result) => RecvVerdict::Done(result),
        }
    }
}

/// The first waiting packet is handed out; with none waiting, a read is due.
pub open spec fn hand_out(state: ReceiverState) -> (ReceiverState, RecvVerdict) {
    if state.pending.len() == 0 {
        (state, RecvVerdict::Read)
    } else {
        (
            ReceiverState { pending: state.pending.drop_first(), ..state },
            RecvVerdict::Done(Ok(state.pending[0])),
        )
    }
}

/// A read changes nothing by itself: it calls for a parse or for another read, or
/// it ends the receiving with an error.
pub open spec fn after_read(state: ReceiverState, read: ReadResult) -> (
    ReceiverState,
    RecvVerdict,
) {
    (
        state,
        match judge(state.unread, read) {
            FrameVerdict::Read => RecvVerdict::Read,
            FrameVerdict::Parse(text) => RecvVerdict::Parse(text),
            FrameVerdict::Fail(error) => RecvVerdict::Done(Err(error)),
        },
    )
}

/// The state in which the packets of a text wait to be handed out, in the order in
/// which the text lists them, and the text is no longer kept.
pub open spec fn filled(state: ReceiverState, payload: Seq<ServerMessage>) -> ReceiverState {
    ReceiverState { unread: Seq::empty(), pending: payload, ..state }
}

/// The state in which some packets wait once more, in their order and before all that
/// wait already.
pub open spec fn restored(state: ReceiverState, messages: Seq<ServerMessage>) -> ReceiverState {
    ReceiverState { pending: messages + state.pending, ..state }
}

/// A parsed text fills the queue, and its first packet is handed out. A text that
/// could not be parsed ends the receiving and changes nothing.
pub open spec fn after_parse(state: ReceiverState, parsed: ParseResult) -> (
    ReceiverState,
    RecvVerdict,
) {
    match parsed {
        Ok(payload) => hand_out(filled(state, payload@)),
        Err(error) => (state, RecvVerdict::Done(Err(ArchipelagoError::FailedSerialize(error)))),
    }
}

impl View for ArchipelagoClientReceiver {
    type V = ReceiverState;

    closed spec fn view(&self) -> ReceiverState {
        ReceiverState {
            unread: buffer_bytes(self.buf),
            pending: self.message_buffer@.reverse(),
            room: self.room_info,
            package: self.data_package,
        }
    }
}

impl ArchipelagoClientReceiver {
    /// A receiving side that hands out `message_buffer` from its end.
    pub(crate) fn new(room_info: RoomInfo, message_buffer: Vec<ServerMessage>, buf: BytesMut) -> (r:
        ArchipelagoClientReceiver)
        ensures
            r@ == (ReceiverState {
                unread: buffer_bytes(buf),
                pending: message_buffer@.reverse(),
                room: room_info,
                package: None,
            }),
    {
        ArchipelagoClientReceiver { room_info, message_buffer, data_package: None, buf }
    }

    /// Starts to receive a packet: one that waits is handed out at once.
    pub fn recv(&mut self) -> (step: RecvStep)
        ensures
            (final(self)@, step@) == hand_out(old(self)@),
    {
        match self.message_buffer.pop() {
            Some(message) => {
                assert(self@.pending =~= old(self)@.pending.drop_first());
                RecvStep::Done(Ok(message))
            },
            None => RecvStep::Read,
        }
    }

    /// Goes on after a read from the websocket.
    pub fn recv_read(&mut self, read: ReadResult) -> (step: RecvStep)
        ensures
            (final(self)@, step@) == after_read(old(self)@, read),
    {
        match crate::frame::recv(&self.buf, read) {
            FrameStep::Read => RecvStep::Read,
            FrameStep::Parse(text) => RecvStep::Parse(text),
            FrameStep::Fail(error) => RecvStep::Done(Err(error)),
        }
    }

    /// Goes on after a text was parsed. A text without packets calls for another
    /// read.
    pub fn recv_parsed(&mut self, parsed: ParseResult) -> (step: RecvStep)
        ensures
            (final(self)@, step@) == after_parse(old(self)@, parsed),
    {
        match crate::frame::recv_parsed(&mut self.buf, parsed) {
            Ok(payload) => {
                let ghost listed = payload@;
                self.message_buffer = reversed(payload);
                assert(self@ =~= filled(old(self)@, listed));
                self.recv()
            },
            Err(error) => RecvStep::Done(Err(error)),
        }
    }

    /// The buffer that the websocket reads into.
    pub fn read_buffer(&mut self) -> (buffer: &mut BytesMut)
        ensures
            buffer_bytes(*buffer) == old(self)@.unread,
            final(self)@ == (ReceiverState {
                unread: buffer_bytes(*final(buffer)),
                ..old(self)@
            }),
    {
        &mut self.buf
    }

    /// What the server said of the room.
    pub fn room_info(&self) -> (room: &RoomInfo)
        ensures
            *room == self@.room,
    {
        &self.room_info
    }

    /// The data package, where it was fetched.
    pub fn data_package(&self) -> (package: Option<&DataPackageObject>)
        ensures
            match package {
                Some(data) => self@.package == Some(*data),
                None => self@.package is None,
            },
    {
        self.data_package.as_ref()
    }

    /// Keeps a data package.
    pub(crate) fn keep_data_package(&mut self, data: DataPackageObject)
        ensures
            final(self)@ == (ReceiverState { package: Some(data), ..old(self)@ }),
    {
        self.data_package = Some(data);
    }

    /// Puts packets back, to be handed out in their order before all that wait.
    pub(crate) fn put_back(&mut self, messages: Vec<ServerMessage>)
        ensures
            final(self)@ == restored(old(self)@, messages@),
    {
        let mut next = reversed(messages);
        self.message_buffer.append(&mut next);
        assert(self@.pending =~= messages@ + old(self)@.pending);
    }
}

/// The same packets, the last one first.
fn reversed(messages: Vec<ServerMessage>) -> (r: Vec<ServerMessage>)
    ensures
        r@ == messages@.reverse(),
{
    let mut rest = messages;
    let mut r: Vec<ServerMessage> = Vec::new();
    while rest.len() > 0
        invariant
            rest@.len() <= messages@.len(),
            rest@ == messages@.take(rest@.len() as int),
            r@ == messages@.skip(rest@.len() as int).reverse(),
        decreases rest.len(),
    {
        let ghost left = rest@.len();
        if let Some(message) = rest.pop() {
            r.push(message);
            assert(messages@.skip(left - 1).reverse() =~= messages@.skip(
                left as int,
            ).reverse().push(message));
            assert(rest@ =~= messages@.take(left - 1));
        }
    }
    r
}

} // verus!
