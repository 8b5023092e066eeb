//! Which packet answers which request, and what a single step of an exchange does.
use crate::error::ArchipelagoError;
use crate::exchange::{
    first_reply, lemma_first_reply, lemma_no_reply, settle, shows, Policy, Reply, Settled, Step,
};
use crate::laws::{
    exchanged, law_an_exchange_keeps_all_other_packets, law_the_first_packet_decides,
    lemma_first_reply_is_first,
};
use crate::protocol::{
    Connected, DataPackage, LocationInfo, ReceivedItems, Retrieved, ServerMessage, SetReply,
};
use crate::receiver::ReceiverState;
use vstd::prelude::*;

verus! {

/// A reply is taken from the packet of its own name and from no other, and it is what that
/// packet carries.
pub proof fn law_a_reply_comes_in_its_own_packet(message: ServerMessage)
    ensures
        message matches ServerMessage::Connected(reply) ==> Connected::content(message) == reply,
        message matches ServerMessage::DataPackage(reply) ==> DataPackage::content(message) == reply,
        message matches ServerMessage::ReceivedItems(reply) ==> ReceivedItems::content(message) == reply,
        message matches ServerMessage::LocationInfo(reply) ==> LocationInfo::content(message) == reply,
        message matches ServerMessage::Retrieved(reply) ==> Retrieved::content(message) == reply,
        message matches ServerMessage::SetReply(reply) ==> SetReply::content(message) == reply,
        Connected::answers(message) <==> message is Connected,
        DataPackage::answers(message) <==> message is DataPackage,
        ReceivedItems::answers(message) <==> message is ReceivedItems,
        LocationInfo::answers(message) <==> message is LocationInfo,
        Retrieved::answers(message) <==> message is Retrieved,
        SetReply::answers(message) <==> message is SetReply,
{
}

/// No packet answers two kinds of request.
pub proof fn law_a_packet_answers_one_kind_of_request(message: ServerMessage)
    ensures
        ReceivedItems::answers(message) ==> !LocationInfo::answers(message)
            && !Retrieved::answers(message) && !SetReply::answers(message) && !Connected::answers(
            message,
        ) && !DataPackage::answers(message),
        LocationInfo::answers(message) ==> !Retrieved::answers(message) && !SetReply::answers(
            message,
        ) && !Connected::answers(message) && !DataPackage::answers(message),
        Retrieved::answers(message) ==> !SetReply::answers(message) && !Connected::answers(message)
            && !DataPackage::answers(message),
        SetReply::answers(message) ==> !Connected::answers(message) && !DataPackage::answers(
            message,
        ),
        Connected::answers(message) ==> !DataPackage::answers(message),
{
}

/// With the packets at hand, an exchange that keeps others ends with the first reply among
/// them and no other, and leaves all the rest to be received: those passed over before, then
/// those around the reply. Without a reply it calls for a read and holds every packet.
/// Neither touches the bytes that were read, the room or the data package.
pub proof fn law_one_step_keeps_all_but_the_first_reply<R: Reply>(
    ignored: Seq<ServerMessage>,
    packets: Seq<ServerMessage>,
    before: ReceiverState,
    after: ReceiverState,
    step: Step<R>,
)
    requires
        shows(
            settle::<R>(Policy::KeepOthers, ignored, packets),
            Policy::KeepOthers,
            before,
            after,
            step,
        ),
    ensures
        after.unread == before.unread,
        after.room == before.room,
        after.package == before.package,
        forall|at: int|
            0 <= at < packets.len() && R::answers(#[trigger] packets[at]) && (forall|j: int|
                0 <= j < at ==> !R::answers(#[trigger] packets[j])) ==> {
                &&& step == Step::Done(Ok(R::content(packets[at])))
                &&& after.pending == ignored + packets.take(at) + packets.skip(at + 1)
            },
        (forall|j: int| 0 <= j < packets.len() ==> !R::answers(#[trigger] packets[j])) ==> {
            &&& step matches Step::Read(exchange)
            &&& exchange.policy() is KeepOthers
            &&& exchange.ignored() == ignored + packets
            &&& after.pending.len() == 0
        },
{
    assert forall|at: int|
        0 <= at < packets.len() && R::answers(#[trigger] packets[at]) && (forall|j: int|
            0 <= j < at ==> !R::answers(#[trigger] packets[j])) implies {
        &&& step == Step::Done(Ok(R::content(packets[at])))
        &&& after.pending == ignored + packets.take(at) + packets.skip(at + 1)
    } by {
        lemma_first_reply::<R>(packets, at);
        assert(ignored + packets.remove(at) =~= ignored + packets.take(at) + packets.skip(at + 1));
    }
    if forall|j: int| 0 <= j < packets.len() ==> !R::answers(#[trigger] packets[j]) {
        lemma_no_reply::<R>(packets);
    }
}

/// With the packets at hand, an exchange that refuses others ends with the first of them,
/// which is the reply or is reported with what was due, and leaves the rest to be received.
/// Without packets it calls for a read. Neither touches the bytes that were read, the room
/// or the data package.
pub proof fn law_one_step_takes_or_refuses_the_first_packet<R: Reply>(
    expected: &'static str,
    ignored: Seq<ServerMessage>,
    packets: Seq<ServerMessage>,
    before: ReceiverState,
    after: ReceiverState,
    step: Step<R>,
)
    requires
        shows(
            settle::<R>(Policy::RefuseOthers(expected), ignored, packets),
            Policy::RefuseOthers(expected),
            before,
            after,
            step,
        ),
    ensures
        after.unread == before.unread,
        after.room == before.room,
        after.package == before.package,
        packets.len() == 0 ==> {
            &&& step matches Step::Read(exchange)
            &&& exchange.policy() == Policy::RefuseOthers(expected)
            &&& exchange.ignored() == ignored
            &&& after.pending.len() == 0
        },
        packets.len() > 0 ==> after.pending == ignored + packets.skip(1),
        packets.len() > 0 && R::answers(packets[0]) ==> step == Step::Done(
            Ok(R::content(packets[0])),
        ),
        packets.len() > 0 && !R::answers(packets[0]) ==> {
            &&& step matches Step::Done(
                Err(ArchipelagoError::IllegalResponse { received, expected: due }),
            )
            &&& received == packets[0]
            &&& due == expected
        },
{
    if packets.len() > 0 {
        assert(packets.drop_first() =~= packets.skip(1));
    }
}

/// `sync` answers with the items of the first ReceivedItems packet that arrives, and every
/// other packet remains to be received in its place; as long as none arrives it waits.
pub proof fn law_sync_answers_with_the_first_received_items(
    pending: Seq<ServerMessage>,
    texts: Seq<Seq<ServerMessage>>,
)
    ensures
        ({
            let all = pending + texts.flatten();
            match exchanged::<ReceivedItems>(Policy::KeepOthers, Seq::empty(), pending, texts) {
                (Settled::Waiting { ignored }, unread) => {
                    &&& forall|j: int| 0 <= j < all.len() ==> !(#[trigger] all[j] is ReceivedItems)
                    &&& ignored == all
                    &&& unread.len() == 0
                },
                (Settled::Over { result, pending: left }, unread) => exists|at: int|
                    {
                        &&& 0 <= at < all.len()
                        &&& #[trigger] all[at] matches ServerMessage::ReceivedItems(reply)
                        &&& result == Ok::<ReceivedItems, ArchipelagoError>(reply)
                        &&& forall|j: int| 0 <= j < at ==> !(#[trigger] all[j] is ReceivedItems)
                        &&& left + unread.flatten() == all.take(at) + all.skip(at + 1)
                    },
            }
        }),
{
    let all = pending + texts.flatten();
    let at = first_reply::<ReceivedItems>(all);
    law_an_exchange_keeps_all_other_packets::<ReceivedItems>(pending, texts);
    lemma_first_reply_is_first::<ReceivedItems>(all);
    assert forall|j: int| 0 <= j < at implies !(#[trigger] all[j] is ReceivedItems) by {
        law_a_reply_comes_in_its_own_packet(all[j]);
    }
    if at < all.len() {
        law_a_reply_comes_in_its_own_packet(all[at]);
        assert(all.remove(at) =~= all.take(at) + all.skip(at + 1));
        assert(all[at] == ServerMessage::ReceivedItems(ReceivedItems::content(all[at])));
    }
}

/// `location_scouts` answers with the first LocationInfo packet that arrives, and every other
/// packet remains to be received in its place; as long as none arrives it waits.
pub proof fn law_location_scouts_answers_with_the_first_location_info(
    pending: Seq<ServerMessage>,
    texts: Seq<Seq<ServerMessage>>,
)
    ensures
        ({
            let all = pending + texts.flatten();
            match exchanged::<LocationInfo>(Policy::KeepOthers, Seq::empty(), pending, texts) {
                (Settled::Waiting { ignored }, unread) => {
                    &&& forall|j: int| 0 <= j < all.len() ==> !(#[trigger] all[j] is LocationInfo)
                    &&& ignored == all
                    &&& unread.len() == 0
                },
                (Settled::Over { result, pending: left }, unread) => exists|at: int|
                    {
                        &&& 0 <= at < all.len()
                        &&& #[trigger] all[at] matches ServerMessage::LocationInfo(reply)
                        &&& result == Ok::<LocationInfo, ArchipelagoError>(reply)
                        &&& forall|j: int| 0 <= j < at ==> !(#[trigger] all[j] is LocationInfo)
                        &&& left + unread.flatten() == all.take(at) + all.skip(at + 1)
                    },
            }
        }),
{
    let all = pending + texts.flatten();
    let at = first_reply::<LocationInfo>(all);
    law_an_exchange_keeps_all_other_packets::<LocationInfo>(pending, texts);
    lemma_first_reply_is_first::<LocationInfo>(all);
    assert forall|j: int| 0 <= j < at implies !(#[trigger] all[j] is LocationInfo) by {
        law_a_reply_comes_in_its_own_packet(all[j]);
    }
    if at < all.len() {
        law_a_reply_comes_in_its_own_packet(all[at]);
        assert(all.remove(at) =~= all.take(at) + all.skip(at + 1));
        assert(all[at] == ServerMessage::LocationInfo(LocationInfo::content(all[at])));
    }
}

/// `get` answers with the first Retrieved packet that arrives, and every other packet remains
/// to be received in its place; as long as none arrives it waits.
pub proof fn law_get_answers_with_the_first_retrieved(
    pending: Seq<ServerMessage>,
    texts: Seq<Seq<ServerMessage>>,
)
    ensures
        ({
            let all = pending + texts.flatten();
            match exchanged::<Retrieved>(Policy::KeepOthers, Seq::empty(), pending, texts) {
                (Settled::Waiting { ignored }, unread) => {
                    &&& forall|j: int| 0 <= j < all.len() ==> !(#[trigger] all[j] is Retrieved)
                    &&& ignored == all
                    &&& unread.len() == 0
                },
                (Settled::Over { result, pending: left }, unread) => exists|at: int|
                    {
                        &&& 0 <= at < all.len()
                        &&& #[trigger] all[at] matches ServerMessage::Retrieved(reply)
                        &&& result == Ok::<Retrieved, ArchipelagoError>(reply)
                        &&& forall|j: int| 0 <= j < at ==> !(#[trigger] all[j] is Retrieved)
                        &&& left + unread.flatten() == all.take(at) + all.skip(at + 1)
                    },
            }
        }),
{
    let all = pending + texts.flatten();
    let at = first_reply::<Retrieved>(all);
    law_an_exchange_keeps_all_other_packets::<Retrieved>(pending, texts);
    lemma_first_reply_is_first::<Retrieved>(all);
    assert forall|j: int| 0 <= j < at implies !(#[trigger] all[j] is Retrieved) by {
        law_a_reply_comes_in_its_own_packet(all[j]);
    }
    if at < all.len() {
        law_a_reply_comes_in_its_own_packet(all[at]);
        assert(all.remove(at) =~= all.take(at) + all.skip(at + 1));
        assert(all[at] == ServerMessage::Retrieved(Retrieved::content(all[at])));
    }
}

/// `set` answers with the first SetReply packet that arrives, and every other packet remains
/// to be received in its place; as long as none arrives it waits.
pub proof fn law_set_answers_with_the_first_set_reply(
    pending: Seq<ServerMessage>,
    texts: Seq<Seq<ServerMessage>>,
)
    ensures
        ({
            let all = pending + texts.flatten();
            match exchanged::<SetReply>(Policy::KeepOthers, Seq::empty(), pending, texts) {
                (Settled::Waiting { ignored }, unread) => {
                    &&& forall|j: int| 0 <= j < all.len() ==> !(#[trigger] all[j] is SetReply)
                    &&& ignored == all
                    &&& unread.len() == 0
                },
                (Settled::Over { result, pending: left }, unread) => exists|at: int|
                    {
                        &&& 0 <= at < all.len()
                        &&& #[trigger] all[at] matches ServerMessage::SetReply(reply)
                        &&& result == Ok::<SetReply, ArchipelagoError>(reply)
                        &&& forall|j: int| 0 <= j < at ==> !(#[trigger] all[j] is SetReply)
                        &&& left + unread.flatten() == all.take(at) + all.skip(at + 1)
                    },
            }
        }),
{
    let all = pending + texts.flatten();
    let at = first_reply::<SetReply>(all);
    law_an_exchange_keeps_all_other_packets::<SetReply>(pending, texts);
    lemma_first_reply_is_first::<SetReply>(all);
    assert forall|j: int| 0 <= j < at implies !(#[trigger] all[j] is SetReply) by {
        law_a_reply_comes_in_its_own_packet(all[j]);
    }
    if at < all.len() {
        law_a_reply_comes_in_its_own_packet(all[at]);
        assert(all.remove(at) =~= all.take(at) + all.skip(at + 1));
        assert(all[at] == ServerMessage::SetReply(SetReply::content(all[at])));
    }
}

/// `connect` succeeds exactly where the next packet to arrive is Connected, with what that
/// packet carries; any other packet is reported, with what was due. All later packets remain
/// to be received.
pub proof fn law_connect_succeeds_with_the_next_packet_only(
    expected: &'static str,
    pending: Seq<ServerMessage>,
    texts: Seq<Seq<ServerMessage>>,
)
    ensures
        ({
            let all = pending + texts.flatten();
            match exchanged::<Connected>(
                Policy::RefuseOthers(expected),
                Seq::empty(),
                pending,
                texts,
            ) {
                (Settled::Waiting { ignored }, unread) => {
                    &&& all.len() == 0
                    &&& ignored.len() == 0
                    &&& unread.len() == 0
                },
                (Settled::Over { result, pending: left }, unread) => {
                    &&& all.len() > 0
                    &&& left + unread.flatten() == all.skip(1)
                    &&& match result {
                        Ok(connected) => all[0] == ServerMessage::Connected(connected),
                        Err(error) => {
                            &&& !(all[0] is Connected)
                            &&& error matches ArchipelagoError::IllegalResponse {
                                received,
                                expected: due,
                            }
                            &&& received == all[0]
                            &&& due == expected
                        },
                    }
                },
            }
        }),
{
    let all = pending + texts.flatten();
    law_the_first_packet_decides::<Connected>(expected, pending, texts);
    if all.len() > 0 {
        law_a_reply_comes_in_its_own_packet(all[0]);
        assert(all.skip(1) =~= all.drop_first());
    }
}

} // verus!
