//! The broadcast bus: a capacity-bounded, multi-subscriber distribution
//! point, and the subscription cursors that read from it.
//!
//! The bus keeps a single ring of the most recently published messages
//! together with a monotonic sequence counter. Every subscription is an
//! independent cursor into that stream: publishing never waits for a slow
//! consumer, and a consumer that falls more than `capacity` messages
//! behind loses exactly its oldest unread messages, nobody else's.

use vstd::prelude::*;

use crate::message::{Message, MessageView};

verus! {

/// Bus capacity used when none is chosen explicitly.
pub const DEFAULT_CAPACITY: usize = 1024;

/// The error `publish` returns once the bus has been permanently closed.
/// Publishing never fails for any other reason.
#[derive(Debug, PartialEq, Eq, Clone, Copy)]
pub struct BusClosed;

/// What one call to [`Subscription::receive`] can yield once something is
/// available.
#[derive(Debug, PartialEq, Eq)]
pub enum Outcome {
    /// The next message of the stream, in publish order.
    Message(Message),
    /// The consumer fell behind and exactly this many messages were
    /// dropped for it; the stream resumes at the oldest retained message.
    Lagged(u64),
    /// The bus was closed; no further messages will ever arrive.
    Closed,
}

/// Model of a receive outcome, with `Pending` for "nothing available yet".
pub enum OutcomeView {
    Pending,
    Message(MessageView),
    Lagged(int),
    Closed,
}

/// Mathematical model of the bus: the full publish history, the fixed
/// capacity, whether it has been closed, and how many subscriptions are
/// active. What is actually retained is the suffix of `history` starting
/// at [`start_of`].
#[verifier::ext_equal]
pub struct BusView {
    pub capacity: int,
    pub closed: bool,
    pub subscribers: int,
    pub history: Seq<MessageView>,
}

/// Index of the oldest message the bus still retains: everything published
/// earlier has been dropped to keep at most `capacity` outstanding.
pub open spec fn start_of(b: BusView) -> int {
    if b.history.len() <= b.capacity {
        0
    } else {
        b.history.len() - b.capacity
    }
}

/// The bounds every reachable bus state satisfies.
pub open spec fn bus_inv(b: BusView) -> bool {
    &&& b.capacity >= 1
    &&& 0 <= b.subscribers <= usize::MAX
    &&& b.history.len() <= u64::MAX
}

/// What publishing does to the model when the bus is open: the message is
/// appended to the history, and nothing else changes.
pub open spec fn publish_model(b: BusView, m: MessageView) -> BusView {
    BusView { history: b.history.push(m), ..b }
}

/// What closing does to the model.
pub open spec fn close_model(b: BusView) -> BusView {
    BusView { closed: true, ..b }
}

/// What one receive yields for a subscription whose cursor is `cursor`:
/// the outcome and the cursor afterwards. A closed bus always answers
/// `Closed`; a cursor behind the retained window reports exactly how many
/// messages it lost and jumps to the oldest retained one; a cursor inside
/// the window reads the next message in publish order; a caught-up cursor
/// has nothing yet.
pub open spec fn receive_model(b: BusView, cursor: int) -> (OutcomeView, int) {
    if b.closed {
        (OutcomeView::Closed, cursor)
    } else if cursor < start_of(b) {
        (OutcomeView::Lagged(start_of(b) - cursor), start_of(b))
    } else if cursor < b.history.len() {
        (OutcomeView::Message(b.history[cursor]), cursor + 1)
    } else {
        (OutcomeView::Pending, cursor)
    }
}

/// Model of an executable receive result.
pub open spec fn outcome_view(r: Option<Outcome>) -> OutcomeView {
    match r {
        None => OutcomeView::Pending,
        Some(Outcome::Message(m)) => OutcomeView::Message(m@),
        Some(Outcome::Lagged(n)) => OutcomeView::Lagged(n as int),
        Some(Outcome::Closed) => OutcomeView::Closed,
    }
}

/// One listener's independent cursor into the bus's stream. Created by
/// [`Bus::subscribe`]; never shared between listeners.
pub struct Subscription {
    cursor: u64,
}

impl View for Subscription {
    type V = int;

    closed spec fn view(&self) -> int {
        self.cursor as int
    }
}

/// The process-wide broadcast distribution point. Holds the ring of
/// retained messages; the sequence number of the oldest retained message;
/// the fixed capacity; whether it has been closed; and the count of active
/// subscriptions.
pub struct Bus {
    capacity: usize,
    closed: bool,
    subscribers: usize,
    start: u64,
    ring: Vec<Message>,
    hist: Ghost<Seq<MessageView>>,
}

impl View for Bus {
    type V = BusView;

    closed spec fn view(&self) -> BusView {
        BusView {
            capacity: self.capacity as int,
            closed: self.closed,
            subscribers: self.subscribers as int,
            history: self.hist@,
        }
    }
}

impl Bus {
    /// The ring is exactly the retained suffix of the history.
    pub closed spec fn ring_ok(&self) -> bool {
        &&& self.start as int == start_of(self@)
        &&& self.ring@.len() == self.hist@.len() - start_of(self@)
        &&& forall|i: int|
            0 <= i < self.ring@.len() ==> (#[trigger] self.ring@[i])@ == self.hist@[self.start
                + i]
    }

    /// Every bus reachable through this interface is well formed.
    pub open spec fn wf(&self) -> bool {
        &&& bus_inv(self@)
        &&& self.ring_ok()
    }

    /// Builds an open bus of the given capacity with no subscribers and
    /// nothing published yet.
    pub fn new(capacity: usize) -> (b: Bus)
        requires
            capacity >= 1,
        ensures
            b.wf(),
            b@ == (BusView {
                capacity: capacity as int,
                closed: false,
                subscribers: 0,
                history: Seq::<MessageView>::empty(),
            }),
    {
        Bus {
            capacity,
            closed: false,
            subscribers: 0,
            start: 0,
            ring: Vec::new(),
            hist: Ghost(Seq::empty()),
        }
    }

    /// How many messages have ever been published to this bus.
    pub fn published(&self) -> (r: u64)
        requires
            self.wf(),
        ensures
            r == self@.history.len(),
    {
        self.start + (self.ring.len() as u64)
    }

    /// Whether the bus has been permanently closed.
    pub fn is_closed(&self) -> (r: bool)
        ensures
            r == self@.closed,
    {
        self.closed
    }

    /// How many subscriptions are currently active.
    pub fn subscriber_count(&self) -> (r: usize)
        ensures
            r == self@.subscribers,
    {
        self.subscribers
    }

    /// The fixed capacity this bus was built with.
    pub fn capacity(&self) -> (r: usize)
        ensures
            r == self@.capacity,
    {
        self.capacity
    }

    /// Delivers `msg` to every active subscription and reports how many
    /// there were. Never blocks and never fails while the bus is open —
    /// zero subscribers is a normal state and the message is simply
    /// dropped. Fails exactly when the bus has been closed, leaving it
    /// unchanged. A full ring drops its oldest message to make room.
    pub fn publish(&mut self, msg: Message) -> (r: Result<usize, BusClosed>)
        requires
            old(self).wf(),
            old(self)@.history.len() < u64::MAX,
        ensures
            final(self).wf(),
            old(self)@.closed ==> r == Err::<usize, BusClosed>(BusClosed) && final(self)@ == old(
                self,
            )@,
            !old(self)@.closed ==> (r matches Ok(n) && n == old(self)@.subscribers),
            !old(self)@.closed ==> final(self)@ == publish_model(old(self)@, msg@),
    {
        if self.closed {
            return Err(BusClosed);
        }
        if self.ring.len() == self.capacity {
            self.ring.remove(0);
            self.start = self.start + 1;
        }
        self.ring.push(msg);
        proof {
            self.hist@ = self.hist@.push(msg@);
        }
        Ok(self.subscribers)
    }

    /// Creates a subscription whose cursor starts at "now": it will see
    /// exactly the messages published after this call.
    pub fn subscribe(&mut self) -> (s: Subscription)
        requires
            old(self).wf(),
            old(self)@.subscribers < usize::MAX,
        ensures
            final(self).wf(),
            final(self)@ == (BusView { subscribers: old(self)@.subscribers + 1, ..old(self)@ }),
            s@ == old(self)@.history.len(),
    {
        self.subscribers = self.subscribers + 1;
        let s = Subscription { cursor: self.start + (self.ring.len() as u64) };
        s
    }

    /// Permanently closes the bus: publishing fails from now on and every
    /// subscription's next receive observes `Closed`.
    pub fn close(&mut self)
        requires
            old(self).wf(),
        ensures
            final(self).wf(),
            final(self)@ == close_model(old(self)@),
    {
        self.closed = true;
    }

    /// Retires a subscription when its listener disconnects, so the bus's
    /// count of active consumers stays accurate. Call it once per
    /// outstanding subscription.
    pub fn unsubscribe(&mut self, _sub: Subscription)
        requires
            old(self).wf(),
            old(self)@.subscribers >= 1,
        ensures
            final(self).wf(),
            final(self)@ == (BusView { subscribers: old(self)@.subscribers - 1, ..old(self)@ }),
    {
        self.subscribers = self.subscribers - 1;
    }
}

impl Subscription {
    /// The only read primitive. `None` means nothing is available yet: the
    /// caller suspends and retries once the bus moves — it must never
    /// busy-poll. Once something is available the result and the new
    /// cursor are exactly [`receive_model`]; in particular messages come
    /// out in publish order, with gaps only where this subscription
    /// lagged.
    pub fn receive(&mut self, bus: &Bus) -> (r: Option<Outcome>)
        requires
            bus.wf(),
        ensures
            outcome_view(r) == receive_model(bus@, old(self)@).0,
            final(self)@ == receive_model(bus@, old(self)@).1,
    {
        if bus.closed {
            return Some(Outcome::Closed);
        }
        if self.cursor < bus.start {
            let skipped = bus.start - self.cursor;
            self.cursor = bus.start;
            return Some(Outcome::Lagged(skipped));
        }
        let offset = self.cursor - bus.start;
        if offset < bus.ring.len() as u64 {
            let msg = bus.ring[offset as usize].clone();
            self.cursor = self.cursor + 1;
            return Some(Outcome::Message(msg));
        }
        None
    }
}

} // verus!
