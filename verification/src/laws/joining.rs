//! What a client is made of when it joins a room, and what it asks for.
use crate::error::ArchipelagoError;
use crate::frame::{judge, FrameVerdict, ParseResult, ReadResult};
use crate::laws::contents;
use crate::protocol::{ClientMessage, ServerMessage};
use crate::receiver::ReceiverState;
use crate::room::{entered, first_seen, names, names_of, RoomInfo};
use crate::sender::{SerializeResult, WriteResult};
use crate::startup::{
    after_joining, after_subscribe, asks_for_packages, fetch_parsed, fetch_read, fetch_serialized,
    fetch_written, greeting_read, joined, GreetingState, Package, Startup, StartupState,
    UpgradeState,
};
use vstd::prelude::*;

verus! {

/// An open websocket is read with nothing in the buffer, and what to fetch is not forgotten;
/// one that could not be opened ends the joining with its cause.
pub proof fn law_an_open_websocket_is_read(upgrade: UpgradeState, subscribed: WriteResult)
    ensures
        match subscribed {
            Ok(()) => {
                &&& after_subscribe(upgrade, subscribed) matches StartupState::Read(greeting)
                &&& greeting.unread.len() == 0
                &&& greeting.package == upgrade.package
            },
            Err(error) => {
                &&& after_subscribe(upgrade, subscribed) matches StartupState::Done(
                    Err(ArchipelagoError::WebSocketError(cause)),
                )
                &&& cause == error
            },
        },
{
}

/// Before the greeting, and before a data package, joining does after a read what the read
/// calls for, and keeps everything meanwhile.
pub proof fn law_joining_follows_the_read(
    greeting: GreetingState,
    client: ReceiverState,
    read: ReadResult,
)
    ensures
        match judge(greeting.unread, read) {
            FrameVerdict::Read => {
                &&& greeting_read(greeting, read) matches StartupState::Read(next)
                &&& next == greeting
            },
            FrameVerdict::Parse(text) => {
                &&& greeting_read(greeting, read) matches StartupState::Parse(parse, next)
                &&& parse == text
                &&& next == greeting
            },
            FrameVerdict::Fail(error) => {
                &&& greeting_read(greeting, read) matches StartupState::Done(Err(cause))
                &&& cause == error
            },
        },
        match judge(client.unread, read) {
            FrameVerdict::Read => {
                &&& fetch_read(client, read) matches StartupState::FetchRead(next)
                &&& next == client
            },
            FrameVerdict::Parse(text) => {
                &&& fetch_read(client, read) matches StartupState::FetchParse(parse, next)
                &&& parse == text
                &&& next == client
            },
            FrameVerdict::Fail(error) => {
                &&& fetch_read(client, read) matches StartupState::Done(Err(cause))
                &&& cause == error
            },
        },
{
}

/// The first packet of the first text is the room or it ends the joining: without packets the
/// connection counts as closed, and another packet is reported with what was due. A client
/// that joins knows that room, has no data package, has the bytes that were not parsed, and
/// receives every other packet of the text.
pub proof fn law_the_first_packet_is_the_room(payload: Seq<ServerMessage>, unread: Seq<u8>)
    ensures
        payload.len() == 0 ==> (joined(payload, unread) matches Err(error)
            && error is ConnectionClosed),
        payload.len() > 0 && !(payload[0] is RoomInfo) ==> {
            &&& joined(payload, unread) matches Err(ArchipelagoError::IllegalResponse {
                received,
                expected,
            })
            &&& received == payload[0]
            &&& expected == "Expected RoomInfo"
        },
        payload.len() > 0 && payload[0] is RoomInfo ==> {
            &&& joined(payload, unread) matches Ok(client)
            &&& ServerMessage::RoomInfo(client.room) == payload[0]
            &&& client.package is None
            &&& client.unread == unread
            &&& client.pending.len() == payload.len() - 1
            &&& forall|i: int|
                0 <= i < client.pending.len() ==> #[trigger] client.pending[i]
                    == payload[payload.len() - 1 - i]
        },
{
}

/// Without data packages to fetch, joining is over once the greeting came. With some, a
/// client that joined asks for them first, unchanged; one that could not join does not.
pub proof fn law_packages_are_asked_for_once_joined(
    package: Package,
    outcome: Result<ReceiverState, ArchipelagoError>,
    next: StartupState,
)
    requires
        after_joining(package, outcome, next),
    ensures
        package is Skip || outcome is Err ==> next == StartupState::Done(outcome),
        package is Fetch && outcome is Ok ==> {
            &&& next matches StartupState::Serialize(packets, client)
            &&& Ok::<ReceiverState, ArchipelagoError>(client) == outcome
            &&& asks_for_packages(packets, package->Fetch_0, client.room)
        },
{
}

/// The request for data packages is one packet. It names the games that were given, as they
/// were given; where none were given, it names every game of the room, none of them twice,
/// and no other.
pub proof fn law_the_right_packages_are_asked_for(
    packets: Seq<ClientMessage>,
    games: Option<Vec<String>>,
    room: RoomInfo,
)
    requires
        asks_for_packages(packets, games, room),
    ensures
        ({
            &&& packets.len() == 1
            &&& packets[0] matches ClientMessage::GetDataPackage(request)
            &&& request.games matches Some(list)
            &&& games matches Some(given) ==> list@ == given@
            &&& games is None ==> {
                &&& list@.len() == room.listing().len()
                &&& forall|i: int|
                    0 <= i < list@.len() ==> (#[trigger] list@[i])@ == room.listing()[i].0@
                &&& forall|i: int, j: int|
                    0 <= i < j < list@.len() ==> (#[trigger] list@[i])@ != (#[trigger] list@[j])@
                &&& forall|i: int|
                    0 <= i < list@.len() ==> room.checksums().contains_key(
                        (#[trigger] list@[i])@,
                    )
                &&& forall|game: Seq<char>| #[trigger]
                    room.checksums().contains_key(game) ==> exists|i: int|
                        0 <= i < list@.len() && (#[trigger] list@[i])@ == game
            }
        }),
{
    if games is None {
        let list = packets[0]->GetDataPackage_0.games->Some_0;
        let asked = names_of(list@);
        law_names_are_listed_one_by_one(room, list@);
        assert forall|i: int, j: int| 0 <= i < j < list@.len() implies (#[trigger] list@[i])@ != (
        #[trigger] list@[j])@ by {
            assert(asked[i] != asked[j]);
        }
        assert forall|i: int| 0 <= i < list@.len() implies room.checksums().contains_key(
            (#[trigger] list@[i])@,
        ) by {
            assert(asked[i] == list@[i]@);
            assert(asked.to_set().contains(asked[i]));
        }
        assert forall|game: Seq<char>| #[trigger]
            room.checksums().contains_key(game) implies exists|i: int|
            0 <= i < list@.len() && (#[trigger] list@[i])@ == game by {
            assert(asked.to_set().contains(game));
            let i = choose|i: int| 0 <= i < asked.len() && asked[i] == game;
            assert(list@[i]@ == game);
        }
    }
}

/// The names of some strings, and the games of a room, are those listed, one by one.
pub proof fn law_names_are_listed_one_by_one(room: RoomInfo, strings: Seq<String>)
    ensures
        names_of(strings).len() == strings.len(),
        forall|i: int| 0 <= i < strings.len() ==> #[trigger] names_of(strings)[i] == strings[i]@,
        room.games().len() == room.listing().len(),
        forall|i: int|
            0 <= i < room.listing().len() ==> #[trigger] room.games()[i] == room.listing()[i].0@,
        room.games() == names(room.listing()),
        room.checksums() == entered(room.listing()),
{
}

/// A name is known exactly where some pair gives it.
pub proof fn law_a_name_is_known_when_it_is_given(pairs: Seq<(String, String)>, name: Seq<char>)
    ensures
        entered(pairs).contains_key(name) <==> exists|i: int|
            0 <= i < pairs.len() && (#[trigger] pairs[i]).0@ == name,
    decreases pairs.len(),
{
    if pairs.len() > 0 {
        let shorter = pairs.drop_last();
        law_a_name_is_known_when_it_is_given(shorter, name);
        if pairs.last().0@ == name {
            assert(pairs[pairs.len() - 1].0@ == name);
        } else if entered(shorter).contains_key(name) {
            let i = choose|i: int| 0 <= i < shorter.len() && (#[trigger] shorter[i]).0@ == name;
            assert(pairs[i].0@ == name);
        } else if exists|i: int| 0 <= i < pairs.len() && (#[trigger] pairs[i]).0@ == name {
            let i = choose|i: int| 0 <= i < pairs.len() && (#[trigger] pairs[i]).0@ == name;
            assert(shorter[i].0@ == name);
        }
    }
}

/// The value of a name is that of the last pair that gives it.
pub proof fn law_the_last_value_of_a_name_counts(pairs: Seq<(String, String)>, at: int)
    requires
        0 <= at < pairs.len(),
        forall|j: int| at < j < pairs.len() ==> (#[trigger] pairs[j]).0@ != pairs[at].0@,
    ensures
        entered(pairs).contains_key(pairs[at].0@),
        entered(pairs)[pairs[at].0@] == pairs[at].1@,
    decreases pairs.len(),
{
    if at < pairs.len() - 1 {
        assert(pairs[pairs.len() - 1].0@ != pairs[at].0@);
        law_the_last_value_of_a_name_counts(pairs.drop_last(), at);
    }
}

/// Names without repetition are the same names, none of them twice; names that come later
/// leave the earlier ones in their places.
pub proof fn law_names_keep_their_first_place(all: Seq<Seq<char>>, name: Seq<char>)
    ensures
        first_seen(all).no_duplicates(),
        first_seen(all).contains(name) <==> all.contains(name),
        first_seen(all).len() <= all.len(),
        all.no_duplicates() ==> first_seen(all) == all,
        all.len() > 0 ==> first_seen(all.drop_last()) == first_seen(all).take(
            first_seen(all.drop_last()).len() as int,
        ),
    decreases all.len(),
{
    if all.len() > 0 {
        let shorter = all.drop_last();
        let earlier = first_seen(shorter);
        law_names_keep_their_first_place(shorter, name);
        law_names_keep_their_first_place(shorter, all.last());
        assert(all =~= shorter.push(all.last()));
        assert(shorter.contains(name) ==> all.contains(name)) by {
            if shorter.contains(name) {
                let i = choose|i: int| 0 <= i < shorter.len() && shorter[i] == name;
                assert(all[i] == name);
            }
        }
        assert(all[all.len() - 1] == all.last());
        assert(all.contains(name) ==> shorter.contains(name) || name == all.last()) by {
            if all.contains(name) {
                let i = choose|i: int| 0 <= i < all.len() && all[i] == name;
                if i < shorter.len() {
                    assert(shorter[i] == name);
                }
            }
        }
        let seen = first_seen(all);
        assert(seen.take(earlier.len() as int) =~= earlier);
        if !earlier.contains(all.last()) {
            assert(seen[earlier.len() as int] == all.last());
            if earlier.contains(name) {
                let i = choose|i: int| 0 <= i < earlier.len() && earlier[i] == name;
                assert(seen[i] == name);
            }
            if seen.contains(name) {
                let i = choose|i: int| 0 <= i < seen.len() && seen[i] == name;
                if i < earlier.len() {
                    assert(earlier[i] == name);
                }
            }
        }
        if all.no_duplicates() {
            assert(shorter.no_duplicates());
            if shorter.contains(all.last()) {
                let i = choose|i: int| 0 <= i < shorter.len() && shorter[i] == all.last();
                assert(all[i] == all[all.len() - 1]);
            }
            assert(seen =~= all);
        }
    }
}

/// The text of the request for data packages is written as it is; a failure to turn it into
/// a text, or to write it, ends the joining with its cause.
pub proof fn law_a_request_that_fails_ends_the_joining(
    client: ReceiverState,
    serialized: SerializeResult,
    written: WriteResult,
)
    ensures
        match serialized {
            Ok(text) => {
                &&& fetch_serialized(client, serialized) matches StartupState::Write(out, next)
                &&& out == text@
                &&& next == client
            },
            Err(error) => {
                &&& fetch_serialized(client, serialized) matches StartupState::Done(
                    Err(ArchipelagoError::FailedSerialize(cause)),
                )
                &&& cause == error
            },
        },
        written matches Err(error) ==> {
            &&& fetch_written(client, written) matches StartupState::Done(
                Err(ArchipelagoError::WebSocketError(cause)),
            )
            &&& cause == error
        },
{
}

/// Once a text was parsed while a data package is due, its first packet is that package, and
/// the client is handed over with it and with the other packets of the text to receive; or
/// it is another packet, which is reported with what was due. A text without packets calls
/// for another read, and one that could not be parsed ends the joining with its cause.
pub proof fn law_a_text_brings_the_package_or_ends_the_joining(
    client: ReceiverState,
    parsed: ParseResult,
)
    ensures
        match parsed {
            Ok(payload) => {
                let next = fetch_parsed(client, parsed);
                &&& payload@.len() == 0 ==> {
                    &&& next matches StartupState::FetchRead(waiting)
                    &&& waiting.pending.len() == 0
                    &&& waiting.unread.len() == 0
                    &&& waiting.room == client.room
                    &&& waiting.package == client.package
                }
                &&& payload@.len() > 0 && payload@[0] is DataPackage ==> {
                    &&& next matches StartupState::Done(Ok(ready))
                    &&& ready.package == Some(payload@[0]->DataPackage_0.data)
                    &&& ready.pending == payload@.skip(1)
                    &&& ready.unread.len() == 0
                    &&& ready.room == client.room
                }
                &&& payload@.len() > 0 && !(payload@[0] is DataPackage) ==> {
                    &&& next matches StartupState::Done(
                        Err(ArchipelagoError::IllegalResponse { received, expected }),
                    )
                    &&& received == payload@[0]
                    &&& expected == "DataPackage"
                }
            },
            Err(error) => {
                &&& fetch_parsed(client, parsed) matches StartupState::Done(
                    Err(ArchipelagoError::FailedSerialize(cause)),
                )
                &&& cause == error
            },
        },
{
    if let Ok(payload) = parsed {
        if payload@.len() > 0 {
            assert(payload@.drop_first() =~= payload@.skip(1));
        }
    }
}

/// Once the request was written, a package that waits already is taken, another packet that
/// waits is reported, and without either a read is due.
pub proof fn law_a_package_that_waits_is_taken(client: ReceiverState)
    ensures
        ({
            let next = fetch_written(client, Ok(()));
            &&& client.pending.len() == 0 ==> {
                &&& next matches StartupState::FetchRead(waiting)
                &&& waiting == client
            }
            &&& client.pending.len() > 0 && client.pending[0] is DataPackage ==> {
                &&& next matches StartupState::Done(Ok(ready))
                &&& ready.package == Some(client.pending[0]->DataPackage_0.data)
                &&& ready.pending == client.pending.skip(1)
                &&& ready.unread == client.unread
                &&& ready.room == client.room
            }
            &&& client.pending.len() > 0 && !(client.pending[0] is DataPackage) ==> {
                &&& next matches StartupState::Done(
                    Err(ArchipelagoError::IllegalResponse { received, expected }),
                )
                &&& received == client.pending[0]
                &&& expected == "DataPackage"
            }
        }),
{
    if client.pending.len() > 0 {
        assert(client.pending.drop_first() =~= client.pending.skip(1));
    }
}

/// What joining comes to from `state` on when, as long as a data package is due, it parses
/// `texts` one after the other; and the texts that it leaves.
pub open spec fn fetching(state: StartupState, texts: Seq<Vec<ServerMessage>>) -> (
    StartupState,
    Seq<Vec<ServerMessage>>,
)
    decreases texts.len(),
{
    match state {
        StartupState::FetchRead(client) if texts.len() > 0 => fetching(
            fetch_parsed(client, Ok(texts[0])),
            texts.drop_first(),
        ),
        other => (other, texts),
    }
}

/// From the written request on, over however many texts: the client is handed over with the
/// package that the first packet to arrive carries, in the room that it joined, with all
/// later packets to receive; it fails exactly where that first packet is another one.
pub proof fn law_a_client_is_handed_over_with_its_package(
    client: ReceiverState,
    texts: Seq<Vec<ServerMessage>>,
)
    ensures
        ({
            let all = client.pending + contents(texts).flatten();
            let (end, left) = fetching(fetch_written(client, Ok(())), texts);
            &&& all.len() == 0 ==> end is FetchRead && left.len() == 0
            &&& all.len() > 0 && all[0] is DataPackage ==> {
                &&& end matches StartupState::Done(Ok(ready))
                &&& ready.package == Some(all[0]->DataPackage_0.data)
                &&& ready.room == client.room
                &&& ready.pending + contents(left).flatten() == all.skip(1)
            }
            &&& all.len() > 0 && !(all[0] is DataPackage) ==> {
                &&& end matches StartupState::Done(
                    Err(ArchipelagoError::IllegalResponse { received, expected }),
                )
                &&& received == all[0]
                &&& expected == "DataPackage"
            }
        }),
{
    law_a_package_that_waits_is_taken(client);
    let all = client.pending + contents(texts).flatten();
    if client.pending.len() == 0 {
        assert(all =~= contents(texts).flatten());
        lemma_fetching(client, texts);
    } else {
        assert(all[0] == client.pending[0]);
        assert(client.pending.skip(1) + contents(texts).flatten() =~= all.skip(1));
    }
}

proof fn lemma_fetching(client: ReceiverState, texts: Seq<Vec<ServerMessage>>)
    ensures
        ({
            let all = contents(texts).flatten();
            let (end, left) = fetching(StartupState::FetchRead(client), texts);
            &&& all.len() == 0 ==> end is FetchRead && left.len() == 0
            &&& all.len() > 0 && all[0] is DataPackage ==> {
                &&& end matches StartupState::Done(Ok(ready))
                &&& ready.package == Some(all[0]->DataPackage_0.data)
                &&& ready.room == client.room
                &&& ready.pending + contents(left).flatten() == all.skip(1)
            }
            &&& all.len() > 0 && !(all[0] is DataPackage) ==> {
                &&& end matches StartupState::Done(
                    Err(ArchipelagoError::IllegalResponse { received, expected }),
                )
                &&& received == all[0]
                &&& expected == "DataPackage"
            }
        }),
    decreases texts.len(),
{
    reveal_with_fuel(fetching, 2);
    let all = contents(texts).flatten();
    if texts.len() == 0 {
        assert(all =~= Seq::empty());
    } else {
        let later = texts.drop_first();
        let parsed: ParseResult = Ok(texts[0]);
        law_a_text_brings_the_package_or_ends_the_joining(client, parsed);
        assert(contents(texts).drop_first() =~= contents(later));
        assert(all =~= texts[0]@ + contents(later).flatten());
        if texts[0]@.len() == 0 {
            assert(all =~= contents(later).flatten());
            let next = fetch_parsed(client, parsed);
            lemma_fetching(next->FetchRead_0, later);
        } else {
            assert(all[0] == texts[0]@[0]);
            assert(texts[0]@.skip(1) + contents(later).flatten() =~= all.skip(1));
        }
    }
}

/// What a step of joining is seen as is what it is.
pub proof fn law_steps_of_joining_are_seen_as_they_are(step: Startup)
    ensures
        match step {
            Startup::Connect(dial) => step@ == StartupState::Connect(dial@),
            Startup::SetNoDelay(dial) => step@ == StartupState::SetNoDelay(dial@),
            Startup::BuildTls(dial) => step@ == StartupState::BuildTls(dial@),
            Startup::Handshake(dial) => step@ == StartupState::Handshake(dial@),
            Startup::Subscribe(upgrade) => step@ == StartupState::Subscribe(upgrade@),
            Startup::Read(greeting) => step@ == StartupState::Read(greeting@),
            Startup::Parse(text, greeting) => step@ == StartupState::Parse(text@, greeting@),
            Startup::Serialize(packets, fetch) => step@ == StartupState::Serialize(
                packets@,
                fetch@,
            ),
            Startup::Write(text, fetch) => step@ == StartupState::Write(text@, fetch@),
            Startup::FetchRead(fetch) => step@ == StartupState::FetchRead(fetch@),
            Startup::FetchParse(text, fetch) => step@ == StartupState::FetchParse(text@, fetch@),
            Startup::Done(Ok(client)) => {
                &&& step@ matches StartupState::Done(Ok(seen))
                &&& seen == client@
            },
            Startup::Done(Err(error)) => {
                &&& step@ matches StartupState::Done(Err(seen))
                &&& seen == error
            },
        },
{
}

} // verus!
