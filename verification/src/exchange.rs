//! A request to the server and the wait for its reply.
use crate::client::ArchipelagoClient;
use crate::error::ArchipelagoError;
use crate::frame::{judge, FrameVerdict, ParseResult, ReadResult};
use crate::protocol::{
    ClientMessage, Connected, DataPackage, LocationInfo, ReceivedItems, Retrieved, ServerMessage,
    SetReply,
};
use crate::receiver::{filled, hand_out, restored, ReceiverState, RecvStep};
use crate::sender::{SendStep, SerializeResult, WriteResult};
use std::marker::PhantomData;
use vstd::prelude::*;

verus! {

/// A packet that answers a request.
pub trait Reply: Sized {
    /// Whether a packet is such an answer.
    spec fn answers(message: ServerMessage) -> bool;

    /// What the answer is, where the packet is one.
    spec fn content(message: ServerMessage) -> Self;

    /// Takes the answer out of a packet, or hands the packet back.
    fn take(message: ServerMessage) -> (taken: Result<Self, ServerMessage>)
        ensures
            match taken {
                Ok(content) => Self::answers(message) && content == Self::content(message),
                Err(same) => !Self::answers(message) && same == message,
            },
    ;
}

impl Reply for Connected {
    open spec fn answers(message: ServerMessage) -> bool {
        message is Connected
    }

    open spec fn content(message: ServerMessage) -> Connected {
        message->Connected_0
    }

    fn take(message: ServerMessage) -> (taken: Result<Connected, ServerMessage>) {
        match message {
            ServerMessage::Connected(connected) => Ok(connected),
            other => Err(other),
        }
    }
}

impl Reply for DataPackage {
    open spec fn answers(message: ServerMessage) -> bool {
        message is DataPackage
    }

    open spec fn content(message: ServerMessage) -> DataPackage {
        message->DataPackage_0
    }

    fn take(message: ServerMessage) -> (taken: Result<DataPackage, ServerMessage>) {
        match message {
            ServerMessage::DataPackage(package) => Ok(package),
            other => Err(other),
        }
    }
}

impl Reply for ReceivedItems {
    open spec fn answers(message: ServerMessage) -> bool {
        message is ReceivedItems
    }

    open spec fn content(message: ServerMessage) -> ReceivedItems {
        message->ReceivedItems_0
    }

    fn take(message: ServerMessage) -> (taken: Result<ReceivedItems, ServerMessage>) {
        match message {
            ServerMessage::ReceivedItems(items) => Ok(items),
            other => Err(other),
        }
    }
}

impl Reply for LocationInfo {
    open spec fn answers(message: ServerMessage) -> bool {
        message is LocationInfo
    }

    open spec fn content(message: ServerMessage) -> LocationInfo {
        message->LocationInfo_0
    }

    fn take(message: ServerMessage) -> (taken: Result<LocationInfo, ServerMessage>) {
        match message {
            ServerMessage::LocationInfo(items) => Ok(items),
            other => Err(other),
        }
    }
}

impl Reply for Retrieved {
    open spec fn answers(message: ServerMessage) -> bool {
        message is Retrieved
    }

    open spec fn content(message: ServerMessage) -> Retrieved {
        message->Retrieved_0
    }

    fn take(message: ServerMessage) -> (taken: Result<Retrieved, ServerMessage>) {
        match message {
            ServerMessage::Retrieved(items) => Ok(items),
            other => Err(other),
        }
    }
}

impl Reply for SetReply {
    open spec fn answers(message: ServerMessage) -> bool {
        message is SetReply
    }

    open spec fn content(message: ServerMessage) -> SetReply {
        message->SetReply_0
    }

    fn take(message: ServerMessage) -> (taken: Result<SetReply, ServerMessage>) {
        match message {
            ServerMessage::SetReply(items) => Ok(items),
            other => Err(other),
        }
    }
}

/// What becomes of packets that arrive before the reply.
#[derive(Debug, Clone, Copy)]
pub enum Policy {
    /// They are kept, and handed out after the exchange.
    KeepOthers,
    /// The first of them ends the exchange with an error, which says what was due.
    RefuseOthers(&'static str),
}

/// An exchange that is under way. It holds the packets that arrived before the reply;
/// where the exchange fails they are put back, to be handed out before all others.
#[derive(Debug)]
pub struct Exchange<R> {
    policy: Policy,
    ignored: Vec<ServerMessage>,
    reply: PhantomData<R>,
}

/// What an exchange calls for next.
#[derive(Debug)]
pub enum Step<R> {
    /// Turn this list of packets into one text; then `serialized`.
    Serialize(Vec<ClientMessage>, Exchange<R>),
    /// Write this text to the websocket; then `written`.
    Write(String, Exchange<R>),
    /// Read once from the websocket into the client's read buffer; then `read`.
    Read(Exchange<R>),
    /// Parse this text; then `parsed`.
    Parse(String, Exchange<R>),
    /// The exchange is over, with this result.
    Done(Result<R, ArchipelagoError>),
}

/// How far an exchange gets with the packets at hand.
pub enum Settled<R> {
    /// The reply is not among them.
    Waiting { ignored: Seq<ServerMessage> },
    /// The exchange is over, and these packets wait to be handed out.
    Over { result: Result<R, ArchipelagoError>, pending: Seq<ServerMessage> },
}

/// The place of the first reply among some packets; their number where there is none.
pub open spec fn first_reply<R: Reply>(packets: Seq<ServerMessage>) -> int
    decreases packets.len(),
{
    if packets.len() == 0 || R::answers(packets[0]) {
        0
    } else {
        1 + first_reply::<R>(packets.drop_first())
    }
}

/// How far an exchange gets that has passed over `ignored`, when `pending` are the
/// packets at hand. Where others are kept, the first reply is taken out and all
/// other packets stay in the order in which they came. Where others are refused,
/// the first packet at hand decides.
pub open spec fn settle<R: Reply>(
    policy: Policy,
    ignored: Seq<ServerMessage>,
    pending: Seq<ServerMessage>,
) -> Settled<R> {
    let at = first_reply::<R>(pending);
    match policy {
        Policy::KeepOthers => if at < pending.len() {
            Settled::Over {
                result: Ok(R::content(pending[at])),
                pending: ignored + pending.remove(at),
            }
        } else {
            Settled::Waiting { ignored: ignored + pending }
        },
        Policy::RefuseOthers(expected) => if pending.len() == 0 {
            Settled::Waiting { ignored }
        } else if R::answers(pending[0]) {
            Settled::Over {
                result: Ok(R::content(pending[0])),
                pending: ignored + pending.drop_first(),
            }
        } else {
            Settled::Over {
                result: Err(ArchipelagoError::IllegalResponse { received: pending[0], expected }),
                pending: ignored + pending.drop_first(),
            }
        },
    }
}

/// The step by which an exchange starts with a request.
pub open spec fn opens<R: Reply>(step: Step<R>, request: ClientMessage, policy: Policy) -> bool {
    &&& step matches Step::Serialize(packets, exchange)
    &&& packets@ == seq![request]
    &&& exchange.policy() == policy
    &&& exchange.ignored() == Seq::<ServerMessage>::empty()
}

/// The step, and the state of the client after it, that go with how far an exchange
/// got from the state `before`.
pub open spec fn shows<R: Reply>(
    settled: Settled<R>,
    policy: Policy,
    before: ReceiverState,
    after: ReceiverState,
    step: Step<R>,
) -> bool {
    match settled {
        Settled::Waiting { ignored } => {
            &&& after == ReceiverState { pending: Seq::empty(), ..before }
            &&& step matches Step::Read(exchange)
            &&& exchange.policy() == policy
            &&& exchange.ignored() == ignored
        },
        Settled::Over { result, pending } => {
            &&& after == ReceiverState { pending, ..before }
            &&& step == Step::Done(result)
        },
    }
}

impl<R: Reply> Exchange<R> {
    /// What becomes of other packets than the reply.
    pub closed spec fn policy(&self) -> Policy {
        self.policy
    }

    /// The packets that arrived before the reply, in the order in which they came.
    pub closed spec fn ignored(&self) -> Seq<ServerMessage> {
        self.ignored@
    }

    /// An exchange that has passed over no packet yet.
    pub(crate) fn new(policy: Policy) -> (exchange: Exchange<R>)
        ensures
            exchange.policy() == policy,
            exchange.ignored() == Seq::<ServerMessage>::empty(),
    {
        Exchange { policy, ignored: Vec::new(), reply: PhantomData }
    }

    /// Starts an exchange with the step that sends the request.
    pub(crate) fn open(client: &mut ArchipelagoClient, request: ClientMessage, policy: Policy) -> (step:
        Step<R>)
        ensures
            opens(step, request, policy),
            final(client)@ == old(client)@,
    {
        let exchange: Exchange<R> = Exchange::new(policy);
        let sending = client.send(request);
        exchange.after_sending(client, sending)
    }

    /// Goes on after the request was turned into a text.
    pub fn serialized(self, client: &mut ArchipelagoClient, serialized: SerializeResult) -> (step:
        Step<R>)
        ensures
            match serialized {
                Ok(text) => final(client)@ == old(client)@ && step == Step::Write(text, self),
                Err(error) => final(client)@ == restored(old(client)@, self.ignored()) && step
                    == Step::<R>::Done(Err(ArchipelagoError::FailedSerialize(error))),
            },
    {
        let sending = client.send_serialized(serialized);
        self.after_sending(client, sending)
    }

    /// Goes on after the request was written. The reply may already be among the
    /// packets that wait to be handed out.
    pub fn written(self, client: &mut ArchipelagoClient, written: WriteResult) -> (step: Step<R>)
        ensures
            match written {
                Ok(()) => shows(
                    settle::<R>(self.policy(), self.ignored(), old(client)@.pending),
                    self.policy(),
                    old(client)@,
                    final(client)@,
                    step,
                ),
                Err(error) => final(client)@ == restored(old(client)@, self.ignored()) && step
                    == Step::<R>::Done(Err(ArchipelagoError::WebSocketError(error))),
            },
    {
        let sending = client.send_written(written);
        self.after_sending(client, sending)
    }

    /// Goes on after a read from the websocket.
    pub fn read(self, client: &mut ArchipelagoClient, read: ReadResult) -> (step: Step<R>)
        ensures
            match judge(old(client)@.unread, read) {
                FrameVerdict::Read => final(client)@ == old(client)@ && step == Step::Read(self),
                FrameVerdict::Parse(text) => final(client)@ == old(client)@ && (step matches
                    Step::Parse(parse, exchange) && parse@ == text && exchange == self),
                FrameVerdict::Fail(error) => final(client)@ == restored(
                    old(client)@,
                    self.ignored(),
                ) && step == Step::<R>::Done(Err(error)),
            },
    {
        match client.recv_read(read) {
            // A read by itself hands out no packet.
            RecvStep::Read | RecvStep::Done(Ok(_)) => Step::Read(self),
            RecvStep::Parse(text) => Step::Parse(text, self),
            RecvStep::Done(Err(error)) => self.fail(client, error),
        }
    }

    /// Goes on after a text was parsed.
    pub fn parsed(self, client: &mut ArchipelagoClient, parsed: ParseResult) -> (step: Step<R>)
        ensures
            match parsed {
                Ok(payload) => shows(
                    settle::<R>(self.policy(), self.ignored(), payload@),
                    self.policy(),
                    filled(old(client)@, payload@),
                    final(client)@,
                    step,
                ),
                Err(error) => final(client)@ == restored(old(client)@, self.ignored()) && step
                    == Step::<R>::Done(Err(ArchipelagoError::FailedSerialize(error))),
            },
    {
        let ghost before = filled(client@, parsed->Ok_0@);
        match client.recv_parsed(parsed) {
            RecvStep::Done(Err(error)) => self.fail(client, error),
            next => self.take_up(client, next, Ghost(before)),
        }
    }

    /// Ends the exchange with an error. The packets that it has passed over are put back.
    fn fail(self, client: &mut ArchipelagoClient, error: ArchipelagoError) -> (step: Step<R>)
        ensures
            final(client)@ == restored(old(client)@, self.ignored()),
            step == Step::<R>::Done(Err(error)),
    {
        client.put_back(self.ignored);
        Step::Done(Err(error))
    }

    /// Goes on with sending the request; once it is sent, receives.
    fn after_sending(self, client: &mut ArchipelagoClient, sending: SendStep) -> (step: Step<R>)
        ensures
            match sending {
                SendStep::Serialize(packets) => final(client)@ == old(client)@ && step
                    == Step::Serialize(packets, self),
                SendStep::Write(text) => final(client)@ == old(client)@ && step == Step::Write(
                    text,
                    self,
                ),
                SendStep::Done(Err(error)) => final(client)@ == restored(
                    old(client)@,
                    self.ignored(),
                ) && step == Step::<R>::Done(Err(error)),
                SendStep::Done(Ok(())) => shows(
                    settle::<R>(self.policy(), self.ignored(), old(client)@.pending),
                    self.policy(),
                    old(client)@,
                    final(client)@,
                    step,
                ),
            },
    {
        match sending {
            SendStep::Serialize(packets) => Step::Serialize(packets, self),
            SendStep::Write(text) => Step::Write(text, self),
            SendStep::Done(Err(error)) => self.fail(client, error),
            SendStep::Done(Ok(())) => {
                let ghost before = client@;
                let next = client.recv();
                self.take_up(client, next, Ghost(before))
            },
        }
    }

    /// Goes through the packets that wait in the state `before`, of which `first` has
    /// already been handed out, up to the reply or to the last.
    fn take_up(
        self,
        client: &mut ArchipelagoClient,
        first: RecvStep,
        Ghost(before): Ghost<ReceiverState>,
    ) -> (step: Step<R>)
        requires
            (old(client)@, first@) == hand_out(before),
        ensures
            shows(
                settle::<R>(self.policy(), self.ignored(), before.pending),
                self.policy(),
                before,
                final(client)@,
                step,
            ),
    {
        let policy = self.policy;
        let mut ignored = self.ignored;
        let mut next = first;
        let ghost mut at: int = 0;
        let ghost packets = before.pending;
        assert(packets.skip(0) =~= packets);
        assert(packets.take(0) =~= Seq::empty());
        loop
            invariant
                0 <= at <= packets.len(),
                packets == before.pending,
                policy == self.policy,
                policy is RefuseOthers ==> at == 0,
                (client@, next@) == hand_out(
                    ReceiverState { pending: packets.skip(at), ..before },
                ),
                ignored@ == self.ignored@ + packets.take(at),
                forall|j: int| 0 <= j < at ==> !R::answers(#[trigger] packets[j]),
            decreases packets.len() - at,
        {
            match next {
                RecvStep::Done(Ok(message)) => {
                    assert(message == packets[at]);
                    assert(client@.pending =~= packets.skip(at + 1));
                    match R::take(message) {
                        Ok(content) => {
                            proof {
                                lemma_first_reply::<R>(packets, at);
                                assert(packets.take(at) + packets.skip(at + 1) =~= packets.remove(
                                    at,
                                ));
                            }
                            client.put_back(ignored);
                            assert(client@.pending =~= self.ignored@ + packets.remove(at));
                            assert(packets.remove(0) =~= packets.drop_first());
                            return Step::Done(Ok(content));
                        },
                        Err(other) => match policy {
                            Policy::KeepOthers => {
                                ignored.push(other);
                                next = client.recv();
                                proof {
                                    assert(packets.take(at + 1) =~= packets.take(at).push(
                                        packets[at],
                                    ));
                                    at = at + 1;
                                }
                            },
                            Policy::RefuseOthers(expected) => {
                                client.put_back(ignored);
                                assert(client@.pending =~= self.ignored@ + packets.drop_first());
                                return Step::Done(
                                    Err(
                                        ArchipelagoError::IllegalResponse {
                                            received: other,
                                            expected,
                                        },
                                    ),
                                );
                            },
                        },
                    }
                },
                RecvStep::Done(Err(error)) => {
                    return Step::Done(Err(error));
                },
                RecvStep::Parse(text) => {
                    return Step::Parse(
                        text,
                        Exchange { policy, ignored, reply: PhantomData },
                    );
                },
                RecvStep::Read => {
                    proof {
                        assert(at == packets.len());
                        lemma_no_reply::<R>(packets);
                        assert(packets.take(at) =~= packets);
                        assert(client@.pending =~= Seq::empty());
                        if policy is RefuseOthers {
                            assert(ignored@ =~= self.ignored@);
                        }
                    }
                    return Step::Read(Exchange { policy, ignored, reply: PhantomData });
                },
            }
        }
    }
}

/// The first reply stands where a reply stands and none before it.
pub proof fn lemma_first_reply<R: Reply>(packets: Seq<ServerMessage>, at: int)
    requires
        0 <= at < packets.len(),
        R::answers(packets[at]),
        forall|j: int| 0 <= j < at ==> !R::answers(#[trigger] packets[j]),
    ensures
        first_reply::<R>(packets) == at,
    decreases packets.len(),
{
    if at > 0 {
        assert(!R::answers(packets[0]));
        assert forall|j: int| 0 <= j < at - 1 implies !R::answers(
            #[trigger] packets.drop_first()[j],
        ) by {
            assert(packets.drop_first()[j] == packets[j + 1]);
        }
        lemma_first_reply::<R>(packets.drop_first(), at - 1);
    }
}

/// Where no packet is a reply there is no first reply.
pub proof fn lemma_no_reply<R: Reply>(packets: Seq<ServerMessage>)
    requires
        forall|j: int| 0 <= j < packets.len() ==> !R::answers(#[trigger] packets[j]),
    ensures
        first_reply::<R>(packets) == packets.len(),
    decreases packets.len(),
{
    if packets.len() > 0 {
        assert(!R::answers(packets[0]));
        assert forall|j: int| 0 <= j < packets.len() - 1 implies !R::answers(
            #[trigger] packets.drop_first()[j],
        ) by {
            assert(packets.drop_first()[j] == packets[j + 1]);
        }
        lemma_no_reply::<R>(packets.drop_first());
    }
}

} // verus!
