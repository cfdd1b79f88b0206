//! The event bus: a broadcast primitive that fans status messages out to any
//! number of subscribers, with a bounded backlog per subscriber.
//!
//! The bus keeps the full publication history; a subscription is a position
//! into that history. A subscriber that falls more than the capacity behind
//! loses the oldest unread messages (a non-fatal skip), never the stream; a
//! closed bus is observed as a clean end of stream once the backlog is
//! drained.

use vstd::prelude::*;
use crate::message::StatusMessage;

verus! {

/// The outcome of one receive attempt on a subscription.
pub enum RecvOutcome {
    /// The next unread message, in publication order.
    Message(StatusMessage),
    /// The subscriber fell behind by more than the bus capacity; the count
    /// of messages skipped is reported and delivery resumes afterwards.
    Lagged(usize),
    /// Nothing to read yet and the bus is still open; a live consumer would
    /// wait and try again.
    Pending,
    /// The bus was closed and every published message has been read: a
    /// normal end of stream, not an error.
    Closed,
}

/// The broadcast bus. Every subscriber that attaches before a message is
/// published can receive it at most once, in publish order; one that
/// attaches later never sees it.
pub struct EventBus {
    log: Vec<StatusMessage>,
    capacity: usize,
    closed: bool,
}

/// A handle held by exactly one consumer: a cursor into the bus history.
pub struct Subscription {
    cursor: usize,
}

/// The position a cursor moves to in one receive step against a history of
/// length `len` on a bus of capacity `cap`: skip forward when the backlog
/// exceeds the capacity, advance past one message when one is unread, and
/// stay put otherwise.
pub open spec fn next_pos(len: int, cap: int, c: int) -> int {
    if len - c > cap {
        len - cap
    } else if c < len {
        c + 1
    } else {
        c
    }
}

/// The cursor position after a sequence of receive steps, one against each
/// history length in `lens`.
pub open spec fn pos_after(lens: Seq<int>, cap: int, c0: int) -> int
    decreases lens.len(),
{
    if lens.len() == 0 {
        c0
    } else {
        pos_after(lens.drop_first(), cap, next_pos(lens[0], cap, c0))
    }
}

impl EventBus {
    /// The full sequence of messages ever published on this bus.
    pub closed spec fn history(&self) -> Seq<StatusMessage> {
        self.log@
    }

    /// The bound on a subscriber's unread backlog.
    pub closed spec fn cap(&self) -> int {
        self.capacity as int
    }

    pub closed spec fn is_closed(&self) -> bool {
        self.closed
    }

    pub open spec fn wf(&self) -> bool {
        self.cap() >= 1
    }

    pub fn new(capacity: usize) -> (r: EventBus)
        requires
            capacity >= 1,
        ensures
            r.wf(),
            r.history() == Seq::<StatusMessage>::empty(),
            r.cap() == capacity,
            !r.is_closed(),
    {
        EventBus { log: Vec::new(), capacity, closed: false }
    }

    /// Publish one message. Never blocks and never fails on account of slow
    /// or absent subscribers: the message is appended to the history, and
    /// each subscriber picks it up, or skips it, at its own pace.
    pub fn publish(&mut self, m: StatusMessage)
        requires
            old(self).wf(),
            !old(self).is_closed(),
        ensures
            final(self).wf(),
            final(self).history() == old(self).history().push(m),
            final(self).cap() == old(self).cap(),
            !final(self).is_closed(),
    {
        self.log.push(m);
    }

    /// Attach a new consumer. The handle starts at the current end of the
    /// history: messages already published are never replayed.
    pub fn subscribe(&self) -> (s: Subscription)
        ensures
            s.pos() == self.history().len(),
    {
        Subscription { cursor: self.log.len() }
    }

    /// Close the bus. The history stays readable; once a subscriber drains
    /// it, receiving reports a clean end of stream.
    pub fn close(&mut self)
        requires
            old(self).wf(),
        ensures
            final(self).wf(),
            final(self).history() == old(self).history(),
            final(self).cap() == old(self).cap(),
            final(self).is_closed(),
    {
        self.closed = true;
    }
}

impl Subscription {
    /// The index into the bus history of the next message this consumer
    /// would read.
    pub closed spec fn pos(&self) -> int {
        self.cursor as int
    }

    /// A subscription is attached to a bus when its cursor lies within the
    /// bus history; `subscribe` establishes this and `recv` preserves it.
    pub open spec fn attached(&self, bus: &EventBus) -> bool {
        0 <= self.pos() <= bus.history().len()
    }

    /// One receive attempt. The cursor moves exactly as `next_pos` says, and
    /// the outcome names which of the four conditions held: a backlog beyond
    /// the bus capacity is skipped and reported, an unread message is
    /// delivered in publication order, an empty backlog on an open bus asks
    /// the consumer to wait, and an empty backlog on a closed bus is the end
    /// of the stream.
    pub fn recv(&mut self, bus: &EventBus) -> (r: RecvOutcome)
        requires
            bus.wf(),
            old(self).attached(bus),
        ensures
            final(self).attached(bus),
            final(self).pos() == next_pos(bus.history().len() as int, bus.cap(), old(self).pos()),
            old(self).pos() <= final(self).pos(),
            bus.history().len() - old(self).pos() > bus.cap() ==> r == RecvOutcome::Lagged(
                (bus.history().len() - bus.cap() - old(self).pos()) as usize,
            ),
            bus.history().len() - old(self).pos() <= bus.cap() && old(self).pos()
                < bus.history().len() ==> r == RecvOutcome::Message(
                bus.history()[old(self).pos()],
            ),
            old(self).pos() == bus.history().len() && bus.is_closed() ==> r == RecvOutcome::Closed,
            old(self).pos() == bus.history().len() && !bus.is_closed() ==> r
                == RecvOutcome::Pending,
    {
        let len = bus.log.len();
        if len - self.cursor > bus.capacity {
            let resume = len - bus.capacity;
            let skipped = resume - self.cursor;
            self.cursor = resume;
            RecvOutcome::Lagged(skipped)
        } else if self.cursor < len {
            let m = bus.log[self.cursor].duplicate();
            self.cursor = self.cursor + 1;
            RecvOutcome::Message(m)
        } else if bus.closed {
            RecvOutcome::Closed
        } else {
            RecvOutcome::Pending
        }
    }
}

/// What a live event-stream gateway does with one receive outcome, once the
/// surrounding shutdown signal has been consulted.
pub enum StreamAction {
    /// Deliver this message to the connected client.
    Forward(StatusMessage),
    /// Deliver nothing and receive again: the subscriber lagged, or nothing
    /// is ready yet.
    Skip,
    /// End the client's stream cleanly.
    End,
}

/// The gateway's per-outcome decision: a shutdown signal or a closed bus
/// ends the stream cleanly — never an error — a lagged or empty backlog is
/// a non-fatal skip, and a delivered message is forwarded unchanged.
pub fn gateway_step(r: RecvOutcome, shutdown: bool) -> (a: StreamAction)
    ensures
        shutdown ==> a == StreamAction::End,
        !shutdown ==> match r {
            RecvOutcome::Message(m) => a == StreamAction::Forward(m),
            RecvOutcome::Lagged(_) => a == StreamAction::Skip,
            RecvOutcome::Pending => a == StreamAction::Skip,
            RecvOutcome::Closed => a == StreamAction::End,
        },
{
    if shutdown {
        StreamAction::End
    } else {
        match r {
            RecvOutcome::Message(m) => StreamAction::Forward(m),
            RecvOutcome::Lagged(_) => StreamAction::Skip,
            RecvOutcome::Pending => StreamAction::Skip,
            RecvOutcome::Closed => StreamAction::End,
        }
    }
}

/// No replay: a receive step never moves a cursor backwards, and the message
/// it delivers, if any, sits at the cursor's old position. Hence a
/// subscriber attached when the history had length `a` — as `subscribe`
/// guarantees — only ever receives messages with index at least `a`, however
/// many messages are published in between.
pub proof fn lemma_no_replay_step(len: int, cap: int, c: int, a: int)
    requires
        cap >= 1,
        0 <= a <= c <= len,
    ensures
        a <= c,
        a <= next_pos(len, cap, c) <= len,
{
}

/// No replay, over a whole run of receive steps: against any nondecreasing
/// sequence of history lengths, a cursor that starts at `c0` never drops
/// below `c0`, and never runs past the history.
pub proof fn lemma_no_replay_run(lens: Seq<int>, cap: int, c0: int)
    requires
        cap >= 1,
        0 <= c0,
        forall|i: int| 0 <= i < lens.len() ==> c0 <= #[trigger] lens[i],
        forall|i: int, j: int| #![trigger lens[i], lens[j]] 0 <= i <= j < lens.len() ==> lens[i]
            <= lens[j],
    ensures
        c0 <= pos_after(lens, cap, c0),
        lens.len() > 0 ==> pos_after(lens, cap, c0) <= lens.last(),
    decreases lens.len(),
{
    if lens.len() > 0 {
        let c1 = next_pos(lens[0], cap, c0);
        assert(c0 <= c1 <= lens[0]);
        let rest = lens.drop_first();
        assert(forall|i: int| 0 <= i < rest.len() ==> #[trigger] rest[i] == lens[i + 1]);
        assert(forall|i: int| 0 <= i < rest.len() ==> c1 <= #[trigger] rest[i]) by {
            assert(forall|i: int| 0 <= i < rest.len() ==> lens[0] <= #[trigger] lens[i + 1]);
        }
        assert(forall|i: int, j: int|
            #![trigger rest[i], rest[j]]
            0 <= i <= j < rest.len() ==> rest[i] <= rest[j]);
        lemma_no_replay_run(rest, cap, c1);
        if rest.len() > 0 {
            assert(rest.last() == lens.last());
        }
    }
}

/// At-most-once, in-order delivery: a step that delivers the message at
/// index `c` leaves the cursor exactly one past `c`. With
/// `lemma_no_replay_run` — no later step moves the cursor backwards — every
/// later delivery therefore has a strictly larger index: no message is
/// received twice, and messages are received in publish order.
pub proof fn lemma_in_order_delivery(len: int, cap: int, c: int)
    requires
        cap >= 1,
        0 <= c < len,
        len - c <= cap,
    ensures
        next_pos(len, cap, c) == c + 1,
{
}

/// Lag recovery: when the unread backlog exceeds the capacity, the receive
/// step skips forward to exactly `capacity` messages before the end of the
/// history and delivery resumes — the very next receive against the same
/// history finds an unread message, and neither the bus nor the producer is
/// terminated by the stall.
pub proof fn lemma_lag_recovery(len: int, cap: int, c: int)
    requires
        cap >= 1,
        0 <= c <= len,
        len - c > cap,
    ensures
        next_pos(len, cap, c) == len - cap,
        next_pos(len, cap, c) < len,
        len - next_pos(len, cap, c) <= cap,
{
}

/// Clean shutdown: on a closed bus a cursor short of the end still advances
/// through the remaining messages, and once it reaches the end it stays
/// there — together with `recv`'s contract, every later receive reports
/// `Closed`, an end-of-stream signal rather than an error.
pub proof fn lemma_close_unblocks(len: int, cap: int, c: int)
    requires
        cap >= 1,
        0 <= c <= len,
    ensures
        c == len ==> next_pos(len, cap, c) == c,
        c < len ==> c < next_pos(len, cap, c),
{
}

} // verus!
