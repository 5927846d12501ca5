//! The event queue: a bounded queue that hands every message to every subscriber.
//!
//! The queue keeps the last [`EVENT_QUEUE_CAPACITY`] messages.  Messages are
//! numbered in the order in which they were sent, starting at zero.  A
//! subscriber starts at the number of the next message to be sent and reads
//! forward from there.  A subscriber that has fallen behind the oldest
//! message still kept is told how many messages it missed and goes on with
//! the oldest one.  A message that is sent while nobody has subscribed is
//! dropped.

use vstd::prelude::*;
use std::collections::VecDeque;
use crate::events::RconEvent;
use crate::exporting::messages::{
    ServerWsMessage,
    ServerWsMessageView,
    ServerWsResponse,
};

verus! {

/// The number of messages that the queue keeps.
pub const EVENT_QUEUE_CAPACITY: usize = 1000;

/// Mathematical model of an [`EventSender`].
pub struct EventSenderView {
    /// The number of messages accepted so far, which is the number of the next one.
    pub sent: nat,
    /// The messages still kept, oldest first.
    pub retained: Seq<ServerWsMessageView>,
    /// The number of messages that are kept at most.
    pub capacity: nat,
    /// The number of subscribers.
    pub receivers: nat,
}

/// The last `n` elements of `s`, or all of `s` where it has fewer.
pub open spec fn last_n<A>(s: Seq<A>, n: nat) -> Seq<A> {
    if s.len() > n {
        s.skip(s.len() - n)
    } else {
        s
    }
}

impl EventSenderView {
    /// The invariant of the queue.
    pub open spec fn well_formed(self) -> bool {
        &&& 0 < self.capacity
        &&& self.retained.len() <= self.capacity
        &&& self.retained.len() <= self.sent <= u64::MAX
    }

    /// The number of the oldest message still kept.
    pub open spec fn first(self) -> int {
        self.sent - self.retained.len()
    }

    /// The message with the number `number`, which must still be kept.
    pub open spec fn message(self, number: int) -> ServerWsMessageView {
        self.retained[number - self.first()]
    }

    /// Whether a message sent now is taken in: somebody listens, and the
    /// numbers have not run out.
    pub open spec fn accepts(self) -> bool {
        self.receivers > 0 && self.sent < u64::MAX
    }

    /// The queue after `message` was sent.
    pub open spec fn after_send(self, message: ServerWsMessageView) -> EventSenderView {
        if self.accepts() {
            EventSenderView {
                sent: self.sent + 1,
                retained: last_n(self.retained.push(message), self.capacity),
                ..self
            }
        } else {
            self
        }
    }

    /// The queue after the messages of `batch` were sent in order.
    pub open spec fn after_sends(self, batch: Seq<ServerWsMessageView>) -> EventSenderView
        decreases batch.len(),
    {
        if batch.len() == 0 {
            self
        } else {
            self.after_sends(batch.drop_last()).after_send(batch.last())
        }
    }

    /// What a subscriber that stands at `next` receives, and where it stands after.
    pub open spec fn delivery(self, next: nat) -> (DeliveryView, nat) {
        if next < self.first() {
            (DeliveryView::Lagged((self.first() - next) as u64), self.first() as nat)
        } else if next < self.sent {
            (DeliveryView::Message(self.message(next as int)), next + 1)
        } else {
            (DeliveryView::Empty, next)
        }
    }
}

/// What a subscriber gets when it asks for the next message.
#[derive(Debug, PartialEq, Eq)]
pub enum Delivery {
    /// The next message.
    Message(ServerWsMessage),
    /// The subscriber fell behind and missed this many messages; it goes on
    /// with the oldest message still kept.
    Lagged(u64),
    /// There is no message that the subscriber has not seen.
    Empty,
}

/// Mathematical model of a [`Delivery`].
pub enum DeliveryView {
    Message(ServerWsMessageView),
    Lagged(u64),
    Empty,
}

impl View for Delivery {
    type V = DeliveryView;

    open spec fn view(&self) -> DeliveryView {
        match self {
            Delivery::Message(message) => DeliveryView::Message(message@),
            Delivery::Lagged(missed) => DeliveryView::Lagged(*missed),
            Delivery::Empty => DeliveryView::Empty,
        }
    }
}

/// Sending keeps the queue well formed, and keeps the number of every
/// message that is still kept.
pub proof fn lemma_send_keeps_numbers(queue: EventSenderView, message: ServerWsMessageView)
    requires
        queue.well_formed(),
    ensures
        queue.after_send(message).well_formed(),
        queue.after_send(message).first() >= queue.first(),
        forall|number: int|
            queue.after_send(message).first() <= number < queue.sent ==> queue.after_send(
                message,
            ).message(number) == queue.message(number),
        queue.accepts() ==> queue.after_send(message).message(queue.sent as int) == message,
{
}

/// After a batch was sent to a queue with subscribers, the queue keeps the
/// last messages of what it kept before and the batch, as many as it has room for.
pub proof fn lemma_after_sends(queue: EventSenderView, batch: Seq<ServerWsMessageView>)
    requires
        queue.well_formed(),
        queue.receivers > 0,
        queue.sent + batch.len() <= u64::MAX,
    ensures
        queue.after_sends(batch).well_formed(),
        queue.after_sends(batch).sent == queue.sent + batch.len(),
        queue.after_sends(batch).capacity == queue.capacity,
        queue.after_sends(batch).receivers == queue.receivers,
        queue.after_sends(batch).retained == last_n(queue.retained + batch, queue.capacity),
    decreases batch.len(),
{
    if !(batch.len() == 0) {
        lemma_after_sends(queue, batch.drop_last());
    }
}

/// A subscriber sees the messages sent after it subscribed in the order in
/// which they were sent: after a batch, the message with the number of the
/// `k`-th of the batch is that message, as long as it is still kept.  A
/// subscriber that read nothing while a batch longer than the capacity was
/// sent is told by how much the batch exceeds the capacity, and goes on with
/// the oldest message kept.
pub proof fn lemma_subscriber_sees_batch_in_order(
    queue: EventSenderView,
    batch: Seq<ServerWsMessageView>,
    k: int,
)
    requires
        queue.well_formed(),
        queue.receivers > 0,
        queue.sent + batch.len() <= u64::MAX,
        0 <= k < batch.len(),
    ensures
        batch.len() - k <= queue.capacity ==> queue.after_sends(batch).delivery(
            (queue.sent + k) as nat,
        ) == (DeliveryView::Message(batch[k]), (queue.sent + k + 1) as nat),
        batch.len() > queue.capacity ==> queue.after_sends(batch).delivery(queue.sent) == (
            DeliveryView::Lagged((batch.len() - queue.capacity) as u64),
            (queue.sent + batch.len() - queue.capacity) as nat,
        ),
{
    lemma_after_sends(queue, batch);
}

/// The sending side of the event queue, which is also the queue itself.
#[derive(Debug)]
pub struct EventSender {
    buffer: VecDeque<ServerWsMessage>,
    sent: u64,
    capacity: usize,
    receivers: usize,
}

impl View for EventSender {
    type V = EventSenderView;

    closed spec fn view(&self) -> EventSenderView {
        EventSenderView {
            sent: self.sent as nat,
            retained: self.buffer.deep_view(),
            capacity: self.capacity as nat,
            receivers: self.receivers as nat,
        }
    }
}

/// A subscriber's place in the event queue.
#[derive(Debug, PartialEq, Eq)]
pub struct EventReceiver {
    next: u64,
}

impl View for EventReceiver {
    type V = nat;

    /// The number of the next message that the subscriber reads.
    closed spec fn view(&self) -> nat {
        self.next as nat
    }
}

impl EventSender {
    /// An empty queue of the usual capacity, without subscribers.
    pub fn new() -> (queue: Self)
        ensures
            queue@.well_formed(),
            queue@ == (EventSenderView {
                sent: 0,
                retained: Seq::empty(),
                capacity: EVENT_QUEUE_CAPACITY as nat,
                receivers: 0,
            }),
    {
        let queue = Self {
            buffer: VecDeque::new(),
            sent: 0,
            capacity: EVENT_QUEUE_CAPACITY,
            receivers: 0,
        };
        assert(queue@.retained =~= Seq::<ServerWsMessageView>::empty());
        queue
    }

    /// An empty queue that keeps `capacity` messages, or one message where `capacity` is zero.
    pub fn with_capacity(capacity: usize) -> (queue: Self)
        ensures
            queue@.well_formed(),
            queue@ == (EventSenderView {
                sent: 0,
                retained: Seq::empty(),
                capacity: if capacity == 0 {
                    1
                } else {
                    capacity as nat
                },
                receivers: 0,
            }),
    {
        let queue = Self {
            buffer: VecDeque::new(),
            sent: 0,
            capacity: if capacity == 0 {
                1
            } else {
                capacity
            },
            receivers: 0,
        };
        assert(queue@.retained =~= Seq::<ServerWsMessageView>::empty());
        queue
    }

    /// Subscribes: the subscriber receives the messages sent from now on.
    ///
    /// A queue that already has as many subscribers as can be counted takes no more.
    pub fn receiver(&mut self) -> (subscriber: Option<EventReceiver>)
        requires
            old(self)@.well_formed(),
        ensures
            final(self)@.well_formed(),
            match subscriber {
                Some(s) => {
                    &&& old(self)@.receivers < usize::MAX
                    &&& s@ == old(self)@.sent
                    &&& final(self)@ == (EventSenderView {
                        receivers: old(self)@.receivers + 1,
                        ..old(self)@
                    })
                },
                None => old(self)@.receivers == usize::MAX && final(self)@ == old(self)@,
            },
    {
        if self.receivers == usize::MAX {
            return None;
        }
        self.receivers = self.receivers + 1;
        Some(EventReceiver { next: self.sent })
    }

    /// Ends a subscription.
    pub fn unsubscribe(&mut self, subscriber: EventReceiver)
        requires
            old(self)@.well_formed(),
        ensures
            final(self)@.well_formed(),
            final(self)@ == (EventSenderView {
                receivers: if old(self)@.receivers > 0 {
                    (old(self)@.receivers - 1) as nat
                } else {
                    0
                },
                ..old(self)@
            }),
    {
        if self.receivers > 0 {
            self.receivers = self.receivers - 1;
        }
    }

    /// Sends a message to every subscriber.  Without subscribers the message is dropped.
    pub fn send(&mut self, message: ServerWsMessage)
        requires
            old(self)@.well_formed(),
        ensures
            final(self)@.well_formed(),
            final(self)@ == old(self)@.after_send(message@),
    {
        if self.receivers == 0 || self.sent == u64::MAX {
            return ;
        }
        self.buffer.push_back(message);
        assert(self.buffer.deep_view() =~= old(self).buffer.deep_view().push(message@));
        if self.buffer.len() > self.capacity {
            self.buffer.pop_front();
            assert(self.buffer.deep_view() =~= old(self).buffer.deep_view().push(message@).skip(1));
        }
        self.sent = self.sent + 1;
    }

    /// Sends the answer to the request with the given id.
    pub fn send_response(&mut self, id: String, value: ServerWsResponse)
        requires
            old(self)@.well_formed(),
        ensures
            final(self)@.well_formed(),
            final(self)@ == old(self)@.after_send(
                ServerWsMessageView::Response { id: id@, value: value@ },
            ),
    {
        self.send(ServerWsMessage::Response { id, value });
    }

    /// Sends an event of the game server.
    pub fn send_rcon(&mut self, event: RconEvent)
        requires
            old(self)@.well_formed(),
        ensures
            final(self)@.well_formed(),
            final(self)@ == old(self)@.after_send(ServerWsMessageView::Rcon(event@)),
    {
        self.send(ServerWsMessage::Rcon(event));
    }

    /// Sends the events of `events` in order.
    pub fn send_all(&mut self, events: Vec<RconEvent>)
        requires
            old(self)@.well_formed(),
        ensures
            final(self)@.well_formed(),
            final(self)@ == old(self)@.after_sends(
                events.deep_view().map_values(|e| ServerWsMessageView::Rcon(e)),
            ),
    {
        let ghost batch = events.deep_view().map_values(|e| ServerWsMessageView::Rcon(e));
        for event in it: events
            invariant
                self@.well_formed(),
                it.seq().len() == batch.len(),
                forall|k: int|
                    0 <= k < batch.len() ==> ServerWsMessageView::Rcon((#[trigger] it.seq()[k])@)
                        == batch[k],
                self@ == old(self)@.after_sends(batch.take(it.index() as int)),
        {
            proof {
                assert(batch.take(it.index() + 1).drop_last() =~= batch.take(it.index() as int));
            }
            self.send_rcon(event);
        }
        assert(batch.take(batch.len() as int) =~= batch);
    }
}

impl EventReceiver {
    /// Takes the next message off the queue, if there is one.
    pub fn receive(&mut self, queue: &EventSender) -> (delivery: Delivery)
        requires
            queue@.well_formed(),
        ensures
            (delivery@, final(self)@) == queue@.delivery(old(self)@),
    {
        let first = queue.sent - queue.buffer.len() as u64;
        if self.next < first {
            let missed = first - self.next;
            self.next = first;
            Delivery::Lagged(missed)
        } else if self.next < queue.sent {
            let index = (self.next - first) as usize;
            let message = queue.buffer[index].clone();
            self.next = self.next + 1;
            Delivery::Message(message)
        } else {
            Delivery::Empty
        }
    }
}

} // verus!
