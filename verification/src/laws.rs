//! What holds of the client over more than one step.
use crate::dial::{
    after_connect, after_handshake, after_no_delay, after_tls_built, on_stream, DialState,
    StreamResult,
};
use crate::error::ArchipelagoError;
use crate::exchange::{
    first_reply, lemma_first_reply, lemma_no_reply, settle, shows, Policy, Reply, Settled, Step,
};
use crate::frame::{Message, ParseResult, ReadResult};
use crate::protocol::ServerMessage;
use crate::receiver::{
    after_parse, after_read, filled, hand_out, restored, ReceiverState, RecvVerdict,
};
use crate::startup::{fetched, joined, StartupState};
use vstd::prelude::*;
use vstd::utf8::{encode_utf8, encode_utf8_decode_utf8, encode_utf8_valid_utf8};

pub mod dialing;
pub mod exchanging;
pub mod joining;
pub mod reading;
pub mod sending;

verus! {

/// All packets that a client hands out which first has those that wait in `state` and
/// then reads `texts`, when it receives until nothing is left.
pub open spec fn received(state: ReceiverState, texts: Seq<Vec<ServerMessage>>) -> Seq<ServerMessage>
    decreases texts.len(), state.pending.len(),
{
    if state.pending.len() > 0 {
        let (rest, verdict) = hand_out(state);
        seq![verdict->Done_0->Ok_0] + received(rest, texts)
    } else if texts.len() > 0 {
        match after_parse(state, Ok(texts[0])) {
            (rest, RecvVerdict::Done(Ok(message))) => seq![message] + received(
                rest,
                texts.drop_first(),
            ),
            (rest, _) => received(rest, texts.drop_first()),
        }
    } else {
        Seq::empty()
    }
}

/// The packets of each of some texts.
pub open spec fn contents(texts: Seq<Vec<ServerMessage>>) -> Seq<Seq<ServerMessage>> {
    Seq::new(texts.len(), |i: int| texts[i]@)
}

/// Packets are handed out once each, in the order in which they came: first those that
/// wait, then those of each text as the text lists them. Texts without packets are
/// passed over.
pub proof fn law_packets_are_received_in_order(
    state: ReceiverState,
    texts: Seq<Vec<ServerMessage>>,
)
    ensures
        received(state, texts) == state.pending + contents(texts).flatten(),
    decreases texts.len(), state.pending.len(),
{
    if state.pending.len() > 0 {
        let rest = ReceiverState { pending: state.pending.drop_first(), ..state };
        law_packets_are_received_in_order(rest, texts);
        assert(seq![state.pending[0]] + (rest.pending + contents(texts).flatten())
            =~= state.pending + contents(texts).flatten());
    } else if texts.len() > 0 {
        let next = filled(state, texts[0]@);
        assert(contents(texts).drop_first() =~= contents(texts.drop_first()));
        if texts[0]@.len() > 0 {
            let rest = ReceiverState { pending: next.pending.drop_first(), ..next };
            law_packets_are_received_in_order(rest, texts.drop_first());
            assert(seq![next.pending[0]] + (rest.pending + contents(texts.drop_first()).flatten())
                =~= state.pending + contents(texts).flatten());
        } else {
            law_packets_are_received_in_order(next, texts.drop_first());
            assert(next.pending + contents(texts.drop_first()).flatten() =~= state.pending
                + contents(texts).flatten());
        }
    } else {
        assert(received(state, texts) =~= state.pending + contents(texts).flatten());
    }
}

/// How far an exchange gets that has passed over `ignored`, finds `pending` at hand, and
/// reads `texts` one after the other as long as it waits; and the texts that it leaves
/// unread.
pub open spec fn exchanged<R: Reply>(
    policy: Policy,
    ignored: Seq<ServerMessage>,
    pending: Seq<ServerMessage>,
    texts: Seq<Seq<ServerMessage>>,
) -> (Settled<R>, Seq<Seq<ServerMessage>>)
    decreases texts.len(),
{
    match settle::<R>(policy, ignored, pending) {
        Settled::Waiting { ignored } => if texts.len() == 0 {
            (Settled::Waiting { ignored }, texts)
        } else {
            exchanged::<R>(policy, ignored, texts[0], texts.drop_first())
        },
        over => (over, texts),
    }
}

/// An exchange that keeps other packets answers with the first reply that arrives. All
/// other packets, those that waited before, those passed over, and those that came with
/// the reply or after it, remain to be received, each once and in the order in which
/// they came. Without a reply the exchange goes on waiting and holds every packet.
pub proof fn law_an_exchange_keeps_all_other_packets<R: Reply>(
    pending: Seq<ServerMessage>,
    texts: Seq<Seq<ServerMessage>>,
)
    ensures
        ({
            let all = pending + texts.flatten();
            let at = first_reply::<R>(all);
            match exchanged::<R>(Policy::KeepOthers, Seq::empty(), pending, texts) {
                (Settled::Waiting { ignored }, unread) => {
                    &&& at == all.len()
                    &&& ignored == all
                    &&& unread.len() == 0
                },
                (Settled::Over { result, pending: left }, unread) => {
                    &&& at < all.len()
                    &&& result == Ok::<R, ArchipelagoError>(R::content(all[at]))
                    &&& left + unread.flatten() == all.remove(at)
                },
            }
        }),
{
    lemma_exchanged::<R>(Seq::empty(), pending, texts);
    assert(Seq::<ServerMessage>::empty() + pending =~= pending);
}

proof fn lemma_exchanged<R: Reply>(
    ignored: Seq<ServerMessage>,
    pending: Seq<ServerMessage>,
    texts: Seq<Seq<ServerMessage>>,
)
    requires
        forall|j: int| 0 <= j < ignored.len() ==> !R::answers(#[trigger] ignored[j]),
    ensures
        ({
            let all = ignored + pending + texts.flatten();
            let at = first_reply::<R>(all);
            match exchanged::<R>(Policy::KeepOthers, ignored, pending, texts) {
                (Settled::Waiting { ignored }, unread) => {
                    &&& at == all.len()
                    &&& ignored == all
                    &&& unread.len() == 0
                },
                (Settled::Over { result, pending: left }, unread) => {
                    &&& at < all.len()
                    &&& result == Ok::<R, ArchipelagoError>(R::content(all[at]))
                    &&& left + unread.flatten() == all.remove(at)
                },
            }
        }),
    decreases texts.len(),
{
    let all = ignored + pending + texts.flatten();
    let here = first_reply::<R>(pending);
    lemma_first_reply_is_first::<R>(pending);
    if here < pending.len() {
        let at = ignored.len() + here;
        assert(all[at] == pending[here]);
        assert forall|j: int| 0 <= j < at implies !R::answers(#[trigger] all[j]) by {
            if j < ignored.len() {
                assert(all[j] == ignored[j]);
            } else {
                assert(all[j] == pending[j - ignored.len()]);
            }
        }
        lemma_first_reply::<R>(all, at);
        assert(ignored + pending.remove(here) + texts.flatten() =~= all.remove(at));
    } else {
        let passed = ignored + pending;
        assert forall|j: int| 0 <= j < passed.len() implies !R::answers(#[trigger] passed[j]) by {
            if j < ignored.len() {
                assert(passed[j] == ignored[j]);
            } else {
                assert(passed[j] == pending[j - ignored.len()]);
            }
        }
        if texts.len() == 0 {
            assert(all =~= passed);
            lemma_no_reply::<R>(all);
        } else {
            let later = texts.drop_first();
            lemma_exchanged::<R>(passed, texts[0], later);
            assert(passed + texts[0] + later.flatten() =~= all);
        }
    }
}

/// Before the first reply there is none, and it is one.
pub(crate) proof fn lemma_first_reply_is_first<R: Reply>(packets: Seq<ServerMessage>)
    ensures
        ({
            let at = first_reply::<R>(packets);
            &&& 0 <= at <= packets.len()
            &&& at < packets.len() ==> R::answers(packets[at])
            &&& forall|j: int| 0 <= j < at ==> !R::answers(#[trigger] packets[j])
        }),
    decreases packets.len(),
{
    if packets.len() > 0 && !R::answers(packets[0]) {
        let rest = packets.drop_first();
        lemma_first_reply_is_first::<R>(rest);
        let at = first_reply::<R>(packets);
        assert forall|j: int| 0 <= j < at implies !R::answers(#[trigger] packets[j]) by {
            if j > 0 {
                assert(packets[j] == rest[j - 1]);
            }
        }
    }
}

/// A packet never makes an exchange fail that keeps other packets.
pub proof fn law_kept_packets_cause_no_failure<R: Reply>(
    ignored: Seq<ServerMessage>,
    pending: Seq<ServerMessage>,
)
    ensures
        settle::<R>(Policy::KeepOthers, ignored, pending) matches Settled::Over {
            result,
            pending: left,
        } ==> result is Ok,
{
}

/// An exchange that refuses other packets is decided by the first packet that arrives:
/// it is the answer, or it is the packet that the error reports together with what was
/// due. All later packets remain to be received, in the order in which they came.
pub proof fn law_the_first_packet_decides<R: Reply>(
    expected: &'static str,
    pending: Seq<ServerMessage>,
    texts: Seq<Seq<ServerMessage>>,
)
    ensures
        ({
            let all = pending + texts.flatten();
            match exchanged::<R>(Policy::RefuseOthers(expected), Seq::empty(), pending, texts) {
                (Settled::Waiting { ignored }, unread) => {
                    &&& all.len() == 0
                    &&& ignored == all
                    &&& unread.len() == 0
                },
                (Settled::Over { result, pending: left }, unread) => {
                    &&& all.len() > 0
                    &&& result == if R::answers(all[0]) {
                        Ok(R::content(all[0]))
                    } else {
                        Err(ArchipelagoError::IllegalResponse { received: all[0], expected })
                    }
                    &&& left + unread.flatten() == all.drop_first()
                },
            }
        }),
    decreases texts.len(),
{
    let all = pending + texts.flatten();
    if pending.len() > 0 {
        assert(all[0] == pending[0]);
        assert(pending.drop_first() + texts.flatten() =~= all.drop_first());
        assert(Seq::<ServerMessage>::empty() + pending.drop_first() =~= pending.drop_first());
    } else if texts.len() > 0 {
        let later = texts.drop_first();
        law_the_first_packet_decides::<R>(expected, texts[0], later);
        assert(texts[0] + later.flatten() =~= all);
    } else {
        assert(all =~= Seq::empty());
    }
}

/// An exchange that fails while it waits for the reply loses nothing: all packets that it
/// has met, those that waited before and those of each text, are received afterwards, each
/// once and in the order in which they came, and then those of `later` texts. Here `step`
/// is what the exchange shows once it has read `texts`, and `waiting` is the client then.
pub proof fn law_a_failed_exchange_keeps_all_packets<R: Reply>(
    policy: Policy,
    pending: Seq<ServerMessage>,
    texts: Seq<Seq<ServerMessage>>,
    before: ReceiverState,
    waiting: ReceiverState,
    step: Step<R>,
    later: Seq<Vec<ServerMessage>>,
)
    requires
        shows(
            exchanged::<R>(policy, Seq::empty(), pending, texts).0,
            policy,
            before,
            waiting,
            step,
        ),
        step is Read,
    ensures
        received(restored(waiting, step->Read_0.ignored()), later) == pending + texts.flatten()
            + contents(later).flatten(),
{
    match policy {
        Policy::KeepOthers => law_an_exchange_keeps_all_other_packets::<R>(pending, texts),
        Policy::RefuseOthers(expected) => law_the_first_packet_decides::<R>(
            expected,
            pending,
            texts,
        ),
    }
    let state = restored(waiting, step->Read_0.ignored());
    law_packets_are_received_in_order(state, later);
    assert(state.pending =~= pending + texts.flatten());
}

/// A ping or a pong changes nothing and calls for another read, whatever the buffer
/// holds of a message that is under way.
pub proof fn law_control_frames_are_passed_over(state: ReceiverState, control: Message)
    requires
        control is Ping || control is Pong,
    ensures
        after_read(state, Ok(control)) == (state, RecvVerdict::Read),
{
}

/// A text that was written as UTF-8 is parsed as that very text.
pub proof fn law_a_text_is_read_as_it_was_written(state: ReceiverState, text: Seq<char>)
    requires
        state.unread == encode_utf8(text),
    ensures
        after_read(state, Ok(Message::Text)) == (state, RecvVerdict::Parse(text)),
{
    encode_utf8_valid_utf8(text);
    encode_utf8_decode_utf8(text);
}

/// What ends the receiving with an error leaves everything as it was: the packets that
/// wait, what is known of the room, and the bytes that were read.
pub proof fn law_a_failure_changes_nothing(
    state: ReceiverState,
    read: ReadResult,
    parsed: ParseResult,
)
    ensures
        after_read(state, read).0 == state,
        after_parse(state, parsed).1 matches RecvVerdict::Done(Err(_)) ==> after_parse(
            state,
            parsed,
        ).0 == state,
{
}

/// Once a text has been parsed, none of it is left in the buffer.
pub proof fn law_a_parsed_text_is_used_up(state: ReceiverState, payload: Vec<ServerMessage>)
    ensures
        after_parse(state, Ok(payload)).0.unread == Seq::<u8>::empty(),
{
}

/// Receiving never changes what is known of the room, nor the data package.
pub proof fn law_receiving_keeps_the_room(
    state: ReceiverState,
    read: ReadResult,
    parsed: ParseResult,
)
    ensures
        hand_out(state).0.room == state.room,
        hand_out(state).0.package == state.package,
        after_read(state, read).0.room == state.room,
        after_read(state, read).0.package == state.package,
        after_parse(state, parsed).0.room == state.room,
        after_parse(state, parsed).0.package == state.package,
{
}

/// A client joins if and only if the first packet of the first text tells of the room,
/// and then has no data package. The packets that come with it remain to be received, the
/// last one first; a single one is thus the next to be received.
pub proof fn law_the_room_comes_first(payload: Seq<ServerMessage>, unread: Seq<u8>)
    ensures
        joined(payload, unread) is Ok <==> payload.len() > 0 && payload[0] is RoomInfo,
        joined(payload, unread) matches Ok(client) ==> {
            &&& client.room == payload[0]->RoomInfo_0
            &&& client.package is None
            &&& client.pending == payload.drop_first().reverse()
            &&& payload.len() <= 2 ==> client.pending == payload.drop_first()
        },
{
    if payload.len() > 0 && payload.len() <= 2 {
        assert(payload.drop_first().reverse() =~= payload.drop_first());
    }
}

/// What a client that awaits a data package comes to when it reads `texts` one after the
/// other as long as it waits; and the texts that it leaves unread.
pub open spec fn fetched_from(client: ReceiverState, texts: Seq<Seq<ServerMessage>>) -> (
    StartupState,
    Seq<Seq<ServerMessage>>,
)
    decreases texts.len(),
{
    match fetched(client) {
        StartupState::FetchRead(waiting) => if texts.len() == 0 {
            (StartupState::FetchRead(waiting), texts)
        } else {
            fetched_from(filled(waiting, texts[0]), texts.drop_first())
        },
        over => (over, texts),
    }
}

/// A client is handed over with a data package if and only if the package is the first
/// packet to arrive after the room was joined; it then holds that package, the room is as
/// it was, and all later packets remain to be received. Any other packet ends the joining,
/// and is reported.
pub proof fn law_the_package_has_to_come_first(
    client: ReceiverState,
    texts: Seq<Seq<ServerMessage>>,
)
    ensures
        ({
            let all = client.pending + texts.flatten();
            match fetched_from(client, texts) {
                (StartupState::FetchRead(waiting), unread) => {
                    &&& all.len() == 0
                    &&& waiting.room == client.room
                    &&& unread.len() == 0
                },
                (StartupState::Done(Ok(ready)), unread) => {
                    &&& all.len() > 0
                    &&& all[0] matches ServerMessage::DataPackage(package)
                    &&& ready.package == Some(package.data)
                    &&& ready.room == client.room
                    &&& ready.pending + unread.flatten() == all.drop_first()
                },
                (StartupState::Done(Err(error)), _) => {
                    &&& all.len() > 0
                    &&& !(all[0] is DataPackage)
                    &&& error == ArchipelagoError::IllegalResponse {
                        received: all[0],
                        expected: "DataPackage",
                    }
                },
                _ => false,
            }
        }),
    decreases texts.len(),
{
    let all = client.pending + texts.flatten();
    if client.pending.len() > 0 {
        assert(client.pending.drop_first() + texts.flatten() =~= all.drop_first());
    } else if texts.len() > 0 {
        law_the_package_has_to_come_first(filled(client, texts[0]), texts.drop_first());
        assert(texts[0] + texts.drop_first().flatten() =~= all);
    }
}

/// How everything turns out that is tried on the way to a stream.
pub struct Fortune {
    pub first: StreamResult,
    pub first_no_delay: StreamResult,
    pub tls: bool,
    pub handshake: bool,
    pub second: StreamResult,
    pub second_no_delay: StreamResult,
}

/// One more thing is tried on the way to a stream.
pub open spec fn dialed(state: StartupState, fortune: Fortune) -> StartupState {
    match state {
        StartupState::Connect(dial) => after_connect(
            dial,
            if dial.downgraded {
                fortune.second
            } else {
                fortune.first
            },
        ),
        StartupState::SetNoDelay(dial) => after_no_delay(
            dial,
            if dial.downgraded {
                fortune.second_no_delay
            } else {
                fortune.first_no_delay
            },
        ),
        StartupState::BuildTls(dial) => after_tls_built(dial, fortune.tls),
        StartupState::Handshake(dial) => after_handshake(dial, fortune.handshake),
        other => other,
    }
}

/// So many things are tried on the way to a stream.
pub open spec fn dialed_times(state: StartupState, fortune: Fortune, times: nat) -> StartupState
    decreases times,
{
    if times == 0 {
        state
    } else {
        dialed_times(dialed(state, fortune), fortune, (times - 1) as nat)
    }
}

/// The way to a stream ends after six things tried at the most. It leads to a websocket
/// over TLS where the handshake succeeds, and to a plain one where TLS cannot be had:
/// at once where this machine has no TLS, on a second stream where the handshake fails.
/// It fails only where a stream cannot be opened or set up, never for the want of TLS.
pub proof fn law_tls_is_preferred_and_never_required(dial: DialState, fortune: Fortune)
    requires
        !dial.downgraded,
    ensures
        dialed_times(StartupState::Connect(dial), fortune, 6) == match (
            fortune.first,
            fortune.first_no_delay,
        ) {
            (Err(error), _) => StartupState::Done(Err(ArchipelagoError::NetworkError(error))),
            (Ok(()), Err(error)) => StartupState::Done(
                Err(ArchipelagoError::NetworkError(error)),
            ),
            (Ok(()), Ok(())) => if !fortune.tls {
                on_stream(dial, false)
            } else if fortune.handshake {
                on_stream(dial, true)
            } else {
                match (fortune.second, fortune.second_no_delay) {
                    (Err(error), _) => StartupState::Done(
                        Err(ArchipelagoError::NetworkError(error)),
                    ),
                    (Ok(()), Err(error)) => StartupState::Done(
                        Err(ArchipelagoError::NetworkError(error)),
                    ),
                    (Ok(()), Ok(())) => on_stream(dial, false),
                }
            },
        },
{
    reveal_with_fuel(dialed_times, 7);
}

} // verus!
