//! What goes out to the server, packet by packet.
use crate::client::asks_to_play;
use crate::error::ArchipelagoError;
use crate::exchange::{opens, Policy, Reply, Step};
use crate::protocol::{
    is_network_version, Bounce, ClientMessage, ClientStatus, LocationChecks, NetworkVersion,
    ServerMessage, StatusUpdate,
};
use crate::sender::{
    after_serialize, after_write, says, sends, SendStep, SerializeResult, WriteResult,
};
use vstd::prelude::*;

verus! {

/// A step that sends a packet lists that packet, as it is, and no other.
pub proof fn law_a_packet_is_sent_as_it_is(step: SendStep, message: ClientMessage)
    ensures
        sends(step, message) <==> {
            &&& step matches SendStep::Serialize(packets)
            &&& packets@.len() == 1
            &&& packets@[0] == message
        },
{
    if let SendStep::Serialize(packets) = step {
        if packets@.len() == 1 && packets@[0] == message {
            assert(packets@ =~= seq![message]);
        }
    }
}

/// One step never sends two different packets.
pub proof fn law_a_step_sends_one_packet(
    step: SendStep,
    message: ClientMessage,
    other: ClientMessage,
)
    requires
        sends(step, message),
        sends(step, other),
    ensures
        message == other,
{
    law_a_packet_is_sent_as_it_is(step, message);
    law_a_packet_is_sent_as_it_is(step, other);
}

/// However many locations were checked, all of them are reported, in the order given.
pub proof fn law_all_checked_locations_are_reported(step: SendStep, locations: Vec<i64>)
    requires
        sends(step, ClientMessage::LocationChecks(LocationChecks { locations })),
    ensures
        ({
            &&& step matches SendStep::Serialize(packets)
            &&& packets@.len() == 1
            &&& packets@[0] matches ClientMessage::LocationChecks(sent)
            &&& sent.locations@.len() == locations@.len()
            &&& forall|i: int|
                0 <= i < locations@.len() ==> #[trigger] sent.locations@[i] == locations@[i]
        }),
{
    law_a_packet_is_sent_as_it_is(step, ClientMessage::LocationChecks(LocationChecks { locations }));
}

/// The status that is reported is the one given.
pub proof fn law_the_status_is_reported(step: SendStep, status: ClientStatus)
    requires
        sends(step, ClientMessage::StatusUpdate(StatusUpdate { status })),
    ensures
        ({
            &&& step matches SendStep::Serialize(packets)
            &&& packets@.len() == 1
            &&& packets@[0] matches ClientMessage::StatusUpdate(sent)
            &&& sent.status == status
        }),
{
    law_a_packet_is_sent_as_it_is(step, ClientMessage::StatusUpdate(StatusUpdate { status }));
}

/// A bounce goes to the games, slots and tags given, with the value given.
pub proof fn law_a_bounce_is_addressed_as_given(step: SendStep, bounce: Bounce)
    requires
        sends(step, ClientMessage::Bounce(bounce)),
    ensures
        ({
            &&& step matches SendStep::Serialize(packets)
            &&& packets@.len() == 1
            &&& packets@[0] matches ClientMessage::Bounce(sent)
            &&& sent.games == bounce.games
            &&& sent.slots == bounce.slots
            &&& sent.tags == bounce.tags
            &&& sent.data == bounce.data
        }),
{
    law_a_packet_is_sent_as_it_is(step, ClientMessage::Bounce(bounce));
}

/// A line of chat is sent in one packet and word for word; so a step says one line only.
pub proof fn law_a_line_is_said_word_for_word(step: SendStep, text: Seq<char>, other: Seq<char>)
    ensures
        says(step, text) <==> {
            &&& step matches SendStep::Serialize(packets)
            &&& packets@.len() == 1
            &&& packets@[0] matches ClientMessage::Say(say)
            &&& say.text@.len() == text.len()
            &&& forall|i: int| 0 <= i < text.len() ==> #[trigger] say.text@[i] == text[i]
        },
        says(step, text) && says(step, other) ==> text == other,
{
    if let SendStep::Serialize(packets) = step {
        if packets@.len() == 1 {
            if let ClientMessage::Say(say) = packets@[0] {
                if say.text@.len() == text.len() && (forall|i: int|
                    0 <= i < text.len() ==> #[trigger] say.text@[i] == text[i]) {
                    assert(say.text@ =~= text);
                }
            }
        }
    }
}

/// The text that the packets were turned into is written as it is, and without one nothing
/// is written. Sending succeeds exactly where the write does, and a failure keeps its cause.
pub proof fn law_sending_succeeds_when_the_text_is_written(
    serialized: SerializeResult,
    written: WriteResult,
)
    ensures
        match serialized {
            Ok(text) => {
                &&& after_serialize(serialized) matches SendStep::Write(out)
                &&& out == text
            },
            Err(error) => {
                &&& after_serialize(serialized) matches SendStep::Done(
                    Err(ArchipelagoError::FailedSerialize(cause)),
                )
                &&& cause == error
            },
        },
        after_write(written) is Ok <==> written is Ok,
        written matches Err(error) ==> {
            &&& after_write(written) matches Err(ArchipelagoError::WebSocketError(cause))
            &&& cause == error
        },
{
}

/// An exchange starts with one packet, the request as it is; it has passed over nothing, and
/// treats other packets as it was told to.
pub proof fn law_an_exchange_starts_with_its_request<R: Reply>(
    step: Step<R>,
    request: ClientMessage,
    policy: Policy,
)
    ensures
        opens(step, request, policy) <==> {
            &&& step matches Step::Serialize(packets, exchange)
            &&& packets@.len() == 1
            &&& packets@[0] == request
            &&& exchange.policy() == policy
            &&& exchange.ignored().len() == 0
        },
{
    if let Step::Serialize(packets, exchange) = step {
        if packets@.len() == 1 && packets@[0] == request {
            assert(packets@ =~= seq![request]);
        }
        if exchange.ignored().len() == 0 {
            assert(exchange.ignored() =~= Seq::<ServerMessage>::empty());
        }
    }
}

/// Who asks to play does so in one packet, which names the game and the slot and carries the
/// password, the handling of items and every tag as they were given. It asks for the slot's
/// data and leaves the identifier of the client empty.
pub proof fn law_a_request_to_play_carries_what_was_given(
    packets: Seq<ClientMessage>,
    game: Seq<char>,
    name: Seq<char>,
    password: Option<&str>,
    items_handling: Option<i32>,
    tags: Vec<String>,
)
    requires
        asks_to_play(packets, game, name, password, items_handling, tags),
    ensures
        ({
            &&& packets.len() == 1
            &&& packets[0] matches ClientMessage::Connect(request)
            &&& request.game@ == game
            &&& request.name@ == name
            &&& request.uuid@.len() == 0
            &&& request.password is Some <==> password is Some
            &&& password matches Some(word) ==> request.password->Some_0@ == word@
            &&& request.items_handling == items_handling
            &&& request.tags@.len() == tags@.len()
            &&& forall|i: int| 0 <= i < tags@.len() ==> #[trigger] request.tags@[i] == tags@[i]
            &&& request.request_slot_data
            &&& is_network_version(request.version)
        }),
{
    reveal_strlit("");
}

/// Requests to play that differ in anything that was given are different packets.
pub proof fn law_requests_to_play_differ(
    packets: Seq<ClientMessage>,
    game: Seq<char>,
    name: Seq<char>,
    password: Option<&str>,
    items_handling: Option<i32>,
    tags: Vec<String>,
    other_game: Seq<char>,
    other_name: Seq<char>,
    other_password: Option<&str>,
    other_items_handling: Option<i32>,
    other_tags: Vec<String>,
)
    requires
        asks_to_play(packets, game, name, password, items_handling, tags),
        asks_to_play(
            packets,
            other_game,
            other_name,
            other_password,
            other_items_handling,
            other_tags,
        ),
    ensures
        game == other_game,
        name == other_name,
        password is Some <==> other_password is Some,
        password is Some ==> password->Some_0@ == other_password->Some_0@,
        items_handling == other_items_handling,
        tags@ == other_tags@,
{
    law_a_request_to_play_carries_what_was_given(
        packets,
        game,
        name,
        password,
        items_handling,
        tags,
    );
    law_a_request_to_play_carries_what_was_given(
        packets,
        other_game,
        other_name,
        other_password,
        other_items_handling,
        other_tags,
    );
    assert(tags@ =~= other_tags@);
}

/// Only one version is announced.
pub proof fn law_one_version_is_announced(version: NetworkVersion, other: NetworkVersion)
    requires
        is_network_version(version),
        is_network_version(other),
    ensures
        version.major == other.major == 0,
        version.minor == other.minor == 5,
        version.build == other.build == 0,
        version.class@ == other.class@,
        version.class@ == seq!['V', 'e', 'r', 's', 'i', 'o', 'n'],
{
    reveal_strlit("Version");
    assert(version.class@ =~= seq!['V', 'e', 'r', 's', 'i', 'o', 'n']);
}

/// Each status has a number of its own, and the further the player has come the higher it is.
pub proof fn law_statuses_are_told_apart(status: ClientStatus, other: ClientStatus)
    ensures
        status.number() == other.number() <==> status == other,
        ClientStatus::ClientUnknown.number() == 0,
        ClientStatus::ClientConnected.number() == 5,
        ClientStatus::ClientReady.number() == 10,
        ClientStatus::ClientPlaying.number() == 20,
        ClientStatus::ClientGoal.number() == 30,
        0 <= status.number() <= 30,
{
}

} // verus!
