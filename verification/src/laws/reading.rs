//! What one read of the websocket, and one text, come to.
use crate::error::ArchipelagoError;
use crate::frame::{judge, FrameStep, FrameVerdict, Message, ParseResult, ReadResult};
use crate::outside::utf8_failure;
use crate::protocol::ServerMessage;
use crate::receiver::{
    after_parse, after_read, filled, hand_out, restored, ReceiverState, RecvStep, RecvVerdict,
};
use vstd::prelude::*;
use vstd::std_specs::convert::FromSpec;
use vstd::utf8::{decode_utf8_encode_utf8, encode_utf8, valid_utf8};

verus! {

/// A parse is called for exactly where a text was read that is UTF-8, and what is parsed is
/// the text whose encoding the buffer holds.
pub proof fn law_only_a_text_is_parsed(unread: Seq<u8>, read: ReadResult)
    ensures
        judge(unread, read) is Parse <==> read == Ok::<Message, ratchet_rs::Error>(Message::Text)
            && valid_utf8(unread),
        judge(unread, read) matches FrameVerdict::Parse(text) ==> encode_utf8(text) == unread,
{
    if valid_utf8(unread) {
        decode_utf8_encode_utf8(unread);
    }
}

/// Another read is called for exactly after a ping or a pong.
pub proof fn law_only_control_frames_call_for_another_read(unread: Seq<u8>, read: ReadResult)
    ensures
        judge(unread, read) is Read <==> (read matches Ok(message) && (message is Ping
            || message is Pong)),
{
}

/// Reading ends with an error that tells what came: a failed read, a close for whatever
/// reason, data that is no text, or a text that is not UTF-8.
pub proof fn law_a_failed_read_tells_what_came(unread: Seq<u8>, read: ReadResult)
    ensures
        read matches Err(error) ==> {
            &&& judge(unread, read) matches FrameVerdict::Fail(
                ArchipelagoError::WebSocketError(cause),
            )
            &&& cause == error
        },
        read matches Ok(message) && message is Close ==> (judge(
            unread,
            read,
        ) matches FrameVerdict::Fail(failure) && failure is ConnectionClosed),
        read matches Ok(message) && message is Binary ==> {
            &&& judge(unread, read) matches FrameVerdict::Fail(
                ArchipelagoError::NonTextWebsocketResult(found),
            )
            &&& found is Binary
        },
        read matches Ok(message) && message is Text && !valid_utf8(unread) ==> {
            &&& judge(unread, read) matches FrameVerdict::Fail(
                ArchipelagoError::InvalidUtf8Error(cause),
            )
            &&& cause == utf8_failure(unread)
        },
{
}

/// Receiving does after a read what the read calls for, and keeps everything meanwhile.
pub proof fn law_receiving_follows_the_read(state: ReceiverState, read: ReadResult)
    ensures
        after_read(state, read).0 == state,
        match judge(state.unread, read) {
            FrameVerdict::Read => after_read(state, read).1 is Read,
            FrameVerdict::Parse(text) => {
                &&& after_read(state, read).1 matches RecvVerdict::Parse(parsed)
                &&& parsed == text
            },
            FrameVerdict::Fail(error) => {
                &&& after_read(state, read).1 matches RecvVerdict::Done(Err(cause))
                &&& cause == error
            },
        },
{
}

/// What waits is handed out, the first packet first, and nothing else changes; a read is due
/// exactly where nothing waits.
pub proof fn law_the_first_that_waits_is_handed_out(state: ReceiverState)
    ensures
        ({
            let (after, verdict) = hand_out(state);
            &&& after.unread == state.unread
            &&& after.room == state.room
            &&& after.package == state.package
            &&& verdict is Read <==> state.pending.len() == 0
            &&& verdict is Read ==> after == state
            &&& state.pending.len() > 0 ==> {
                &&& verdict matches RecvVerdict::Done(Ok(message))
                &&& seq![message] + after.pending == state.pending
            }
        }),
{
    if state.pending.len() > 0 {
        assert(seq![state.pending[0]] + state.pending.drop_first() =~= state.pending);
    }
}

/// The packets of a parsed text are, in order, the one handed out and those that wait then;
/// where the text has none, another read is due. A text that could not be parsed is reported
/// as such, and everything is as it was.
pub proof fn law_a_parsed_text_is_handed_out(state: ReceiverState, parsed: ParseResult)
    ensures
        match parsed {
            Ok(payload) => {
                let (after, verdict) = after_parse(state, parsed);
                &&& after.unread.len() == 0
                &&& after.room == state.room
                &&& after.package == state.package
                &&& payload@.len() == 0 ==> verdict is Read && after.pending.len() == 0
                &&& payload@.len() > 0 ==> {
                    &&& verdict matches RecvVerdict::Done(Ok(message))
                    &&& seq![message] + after.pending == payload@
                }
            },
            Err(error) => {
                let (after, verdict) = after_parse(state, parsed);
                &&& after == state
                &&& verdict matches RecvVerdict::Done(Err(ArchipelagoError::FailedSerialize(cause)))
                &&& cause == error
            },
        },
{
    if let Ok(payload) = parsed {
        law_the_first_that_waits_is_handed_out(filled(state, payload@));
    }
}

/// The packets of a text take the place of all that waited, and of the text nothing is left;
/// packets that are put back come before all that wait. The room and the data package stay.
pub proof fn law_the_queue_alone_is_filled(state: ReceiverState, packets: Seq<ServerMessage>)
    ensures
        filled(state, packets).pending == packets,
        filled(state, packets).unread.len() == 0,
        filled(state, packets).room == state.room,
        filled(state, packets).package == state.package,
        restored(state, packets).pending.len() == packets.len() + state.pending.len(),
        restored(state, packets).pending.take(packets.len() as int) == packets,
        restored(state, packets).pending.skip(packets.len() as int) == state.pending,
        restored(state, packets).unread == state.unread,
        restored(state, packets).room == state.room,
        restored(state, packets).package == state.package,
{
    assert(restored(state, packets).pending.take(packets.len() as int) =~= packets);
    assert(restored(state, packets).pending.skip(packets.len() as int) =~= state.pending);
}

/// What a step is seen as is what it is.
pub proof fn law_steps_of_reading_are_seen_as_they_are(frame: FrameStep, step: RecvStep)
    ensures
        frame is Read <==> frame@ is Read,
        frame matches FrameStep::Parse(text) ==> (frame@ matches FrameVerdict::Parse(seen) && seen
            == text@),
        frame matches FrameStep::Fail(error) ==> (frame@ matches FrameVerdict::Fail(seen) && seen
            == error),
        step is Read <==> step@ is Read,
        step matches RecvStep::Parse(text) ==> (step@ matches RecvVerdict::Parse(seen) && seen
            == text@),
        step matches RecvStep::Done(result) ==> (step@ matches RecvVerdict::Done(seen) && seen
            == result),
{
}

/// A cause becomes the error that names its kind, and stays with it.
pub proof fn law_an_error_keeps_its_cause(
    json: serde_json::Error,
    stream: std::io::Error,
    socket: ratchet_rs::Error,
    utf8: std::str::Utf8Error,
)
    ensures
        <ArchipelagoError as FromSpec<serde_json::Error>>::from_spec(json)
            == ArchipelagoError::FailedSerialize(json),
        <ArchipelagoError as FromSpec<std::io::Error>>::from_spec(stream)
            == ArchipelagoError::NetworkError(stream),
        <ArchipelagoError as FromSpec<ratchet_rs::Error>>::from_spec(socket)
            == ArchipelagoError::WebSocketError(socket),
        <ArchipelagoError as FromSpec<std::str::Utf8Error>>::from_spec(utf8)
            == ArchipelagoError::InvalidUtf8Error(utf8),
{
}

/// An error is put in the words of its kind, whatever caused it.
pub proof fn law_an_error_has_the_words_of_its_kind(error: ArchipelagoError)
    ensures
        error is IllegalResponse ==> error.words() == "illegal response"@,
        error is ConnectionClosed ==> error.words() == "connection closed by server"@,
        error is FailedSerialize ==> error.words() == "data failed to serialize"@,
        error is NonTextWebsocketResult ==> error.words()
            == "unexpected non-text result from websocket"@,
        error is NetworkError ==> error.words() == "network error"@,
        error is WebSocketError ==> error.words() == "websocket error"@,
        error is InvalidUtf8Error ==> error.words() == "server sent invalid utf-8"@,
{
}

} // verus!
