//! The dispatch channel: the ordered path on which the locations of
//! exported files travel from the listener to the consumer.

use crate::names::names_of;
use std::collections::VecDeque;
use vstd::prelude::*;

verus! {

/// A channel as contracts see it.
pub struct ChannelView {
    /// The paths that wait for the consumer, oldest first.
    pub queued: Seq<Seq<char>>,
    /// Whether the producer has terminated.
    pub closed: bool,
}

/// What the consumer gets when it asks the channel for the next path.
#[derive(Debug, PartialEq, Eq)]
pub enum Delivery {
    /// The location of one exported file.
    Artifact(String),
    /// Nothing waits, and the producer may still emit.
    Empty,
    /// Nothing waits and the producer has terminated: the end of the
    /// stream.
    Closed,
}

/// A delivery as contracts see it.
pub enum DeliveryView {
    Artifact(Seq<char>),
    Empty,
    Closed,
}

impl View for Delivery {
    type V = DeliveryView;

    open spec fn view(&self) -> DeliveryView {
        match self {
            Delivery::Artifact(path) => DeliveryView::Artifact(path@),
            Delivery::Empty => DeliveryView::Empty,
            Delivery::Closed => DeliveryView::Closed,
        }
    }
}

/// A new channel: nothing queued, the producer alive.
pub open spec fn opened() -> ChannelView {
    ChannelView { queued: Seq::empty(), closed: false }
}

/// Whether `channel` takes what the producer emits.
pub open spec fn takes(channel: ChannelView) -> bool {
    !channel.closed
}

/// `channel` after the producer emitted `path`: the path joins the end of
/// the queue, unless the channel is closed.
pub open spec fn emit(channel: ChannelView, path: Seq<char>) -> ChannelView {
    if takes(channel) {
        ChannelView { queued: channel.queued.push(path), ..channel }
    } else {
        channel
    }
}

/// `channel` after the producer terminated.
pub open spec fn shut(channel: ChannelView) -> ChannelView {
    ChannelView { closed: true, ..channel }
}

/// What the consumer is handed from `channel`: the oldest path queued;
/// where none is queued, the end of the stream if the producer has
/// terminated, and nothing yet if it has not.
pub open spec fn delivery(channel: ChannelView) -> DeliveryView {
    if channel.queued.len() > 0 {
        DeliveryView::Artifact(channel.queued[0])
    } else if channel.closed {
        DeliveryView::Closed
    } else {
        DeliveryView::Empty
    }
}

/// `channel` after the consumer asked for the next path: the oldest path
/// has left the queue.
pub open spec fn take(channel: ChannelView) -> ChannelView {
    if channel.queued.len() > 0 {
        ChannelView { queued: channel.queued.drop_first(), ..channel }
    } else {
        channel
    }
}

/// One operation on a channel, by its producer or by its consumer.
pub enum Operation {
    /// The producer emits a path.
    Send(Seq<char>),
    /// The producer terminates.
    Close,
    /// The consumer asks for the next path.
    Receive,
}

/// `channel` after one operation.
pub open spec fn after(channel: ChannelView, operation: Operation) -> ChannelView {
    match operation {
        Operation::Send(path) => emit(channel, path),
        Operation::Close => shut(channel),
        Operation::Receive => take(channel),
    }
}

/// `channel` after `operations`, one after the other.
pub open spec fn after_all(channel: ChannelView, operations: Seq<Operation>) -> ChannelView
    decreases operations.len(),
{
    if operations.len() == 0 {
        channel
    } else {
        after(after_all(channel, operations.drop_last()), operations.last())
    }
}

/// The paths that `channel` took from its producer in the course of
/// `operations`, in the order of emission.
pub open spec fn emitted(channel: ChannelView, operations: Seq<Operation>) -> Seq<Seq<char>>
    decreases operations.len(),
{
    if operations.len() == 0 {
        Seq::empty()
    } else {
        let before = after_all(channel, operations.drop_last());
        match operations.last() {
            Operation::Send(path) if takes(before) => emitted(channel, operations.drop_last()).push(path),
            _ => emitted(channel, operations.drop_last()),
        }
    }
}

/// The paths that `channel` handed to its consumer in the course of
/// `operations`, in the order of delivery.
pub open spec fn received(channel: ChannelView, operations: Seq<Operation>) -> Seq<Seq<char>>
    decreases operations.len(),
{
    if operations.len() == 0 {
        Seq::empty()
    } else {
        let before = after_all(channel, operations.drop_last());
        match (operations.last(), delivery(before)) {
            (Operation::Receive, DeliveryView::Artifact(path)) => received(
                channel,
                operations.drop_last(),
            ).push(path),
            _ => received(channel, operations.drop_last()),
        }
    }
}

/// The channel keeps the order of emission. However the producer's sends
/// and the consumer's receives alternate, what the consumer has received,
/// followed by what still waits, is what waited at first followed by what
/// the producer has emitted since: the paths come out in the order in
/// which they went in, none twice and none left out. A closed channel
/// takes nothing more.
pub proof fn law_channel_order(channel: ChannelView, operations: Seq<Operation>)
    ensures
        received(channel, operations) + after_all(channel, operations).queued == channel.queued + emitted(
            channel,
            operations,
        ),
        channel.closed ==> after_all(channel, operations).closed && emitted(channel, operations).len() == 0,
    decreases operations.len(),
{
    if operations.len() == 0 {
        assert(received(channel, operations) + after_all(channel, operations).queued =~= channel.queued
            + emitted(channel, operations));
    } else {
        let front = operations.drop_last();
        law_channel_order(channel, front);
        let before = after_all(channel, front);
        assert(received(channel, front) + before.queued == channel.queued + emitted(
            channel,
            front,
        ));
        match operations.last() {
            Operation::Send(path) => {
                if takes(before) {
                    assert(received(channel, front) + before.queued.push(path) =~= (received(
                        channel,
                        front,
                    ) + before.queued).push(path));
                    assert(channel.queued + emitted(channel, front).push(path) =~= (channel.queued
                        + emitted(channel, front)).push(path));
                }
            },
            Operation::Close => {},
            Operation::Receive => {
                if before.queued.len() > 0 {
                    assert(received(channel, front).push(before.queued[0])
                        + before.queued.drop_first() =~= received(channel, front) + before.queued);
                }
            },
        }
    }
}

/// The stream ends only when nothing is left. The consumer is told of the
/// end of the stream exactly if the producer has terminated and every path
/// has been received.
pub proof fn law_end_of_stream(channel: ChannelView)
    ensures
        delivery(channel) is Closed <==> channel.closed && channel.queued.len() == 0,
        delivery(channel) is Empty <==> !channel.closed && channel.queued.len() == 0,
{
}

/// An unbounded first-in, first-out channel for one producer and one
/// consumer. The producer is never held up: emitting a path only queues
/// it. The consumer receives the paths in the order of emission, each
/// once, and learns of the end of the stream only after it has received
/// every path emitted before the producer terminated.
pub struct DispatchChannel {
    queue: VecDeque<String>,
    closed: bool,
}

impl View for DispatchChannel {
    type V = ChannelView;

    closed spec fn view(&self) -> ChannelView {
        ChannelView { queued: names_of(self.queue@), closed: self.closed }
    }
}

impl DispatchChannel {
    /// A new channel: nothing queued, the producer alive.
    pub fn new() -> (channel: DispatchChannel)
        ensures
            channel@ == opened(),
    {
        let channel = DispatchChannel { queue: VecDeque::new(), closed: false };
        assert(channel@.queued =~= Seq::<Seq<char>>::empty());
        channel
    }

    /// Emits one path. The path joins the end of the queue unless the
    /// channel is closed; a closed channel drops it. Returns whether the
    /// path was taken.
    pub fn send(&mut self, path: String) -> (taken: bool)
        ensures
            taken == takes(old(self)@),
            final(self)@ == emit(old(self)@, path@),
    {
        if self.closed {
            return false;
        }
        assert(names_of(self.queue@.push(path)) =~= names_of(self.queue@).push(path@));
        self.queue.push_back(path);
        true
    }

    /// Marks the end of the stream: the producer has terminated. What is
    /// queued stays queued.
    pub fn close(&mut self)
        ensures
            final(self)@ == shut(old(self)@),
    {
        self.closed = true;
    }

    /// Hands the consumer the oldest path that it has not received yet.
    /// Where nothing waits, the answer tells whether more may come.
    pub fn recv(&mut self) -> (handed: Delivery)
        ensures
            handed@ == delivery(old(self)@),
            final(self)@ == take(old(self)@),
    {
        let ghost before = self.queue@;
        assert(names_of(before).len() == before.len());
        match self.queue.pop_front() {
            Some(path) => {
                assert(names_of(before)[0] == path@);
                assert(names_of(self.queue@) =~= names_of(before).drop_first());
                Delivery::Artifact(path)
            },
            None => {
                if self.closed {
                    Delivery::Closed
                } else {
                    Delivery::Empty
                }
            },
        }
    }

    /// The number of paths that wait for the consumer.
    pub fn len(&self) -> (n: usize)
        ensures
            n == self@.queued.len(),
    {
        self.queue.len()
    }

    /// Whether the producer has terminated.
    pub fn is_closed(&self) -> (closed: bool)
        ensures
            closed == self@.closed,
    {
        self.closed
    }
}

} // verus!
