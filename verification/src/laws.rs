//! The bus's guarantees, stated and proved over the model: fan-out to
//! every caught-up subscription, isolation of slow consumers, bounded
//! loss without blocking, shutdown propagation, and cancellation.

use vstd::prelude::*;

use crate::bus::{
    bus_inv, close_model, publish_model, receive_model, start_of, BusView, Outcome, OutcomeView,
};
use crate::emitter::{step_model, EmitterAction, EmitterEvent, EmitterState};
use crate::message::MessageView;

verus! {

/// The bus after publishing each message of `ms` in turn, left to right.
pub open spec fn publish_all(b: BusView, ms: Seq<MessageView>) -> BusView
    decreases ms.len(),
{
    if ms.len() == 0 {
        b
    } else {
        publish_all(publish_model(b, ms[0]), ms.drop_first())
    }
}

/// Publishing a run of messages appends exactly that run to the history
/// and touches nothing else of the bus.
pub proof fn lemma_publish_all_history(b: BusView, ms: Seq<MessageView>)
    ensures
        publish_all(b, ms).history == b.history + ms,
        publish_all(b, ms).capacity == b.capacity,
        publish_all(b, ms).closed == b.closed,
        publish_all(b, ms).subscribers == b.subscribers,
    decreases ms.len(),
{
    if ms.len() == 0 {
        assert(b.history + ms =~= b.history);
    } else {
        let b1 = publish_model(b, ms[0]);
        lemma_publish_all_history(b1, ms.drop_first());
        assert(b1.history + ms.drop_first() =~= b.history + ms);
    }
}

/// Fan-out: a message published on an open bus is the very next thing
/// every caught-up subscription receives, and its cursor moves past it.
/// The cursor is universally quantified, so this holds for each of the
/// subscriptions active at publish time at once.
pub proof fn lemma_fanout(b: BusView, m: MessageView, cursor: int)
    requires
        bus_inv(b),
        !b.closed,
        cursor == b.history.len(),
    ensures
        receive_model(publish_model(b, m), cursor) == (
            OutcomeView::Message(m),
            cursor + 1,
        ),
{
}

/// Every caught-up consumer sees the whole stream: while a run of
/// messages is published, a subscription that receives after each publish
/// gets exactly the published messages, in publish order, and never a lag
/// — however many other subscriptions exist or how far behind they are.
pub proof fn lemma_kept_up_receives_all(b: BusView, ms: Seq<MessageView>, i: int)
    requires
        bus_inv(b),
        !b.closed,
        b.history.len() + ms.len() <= u64::MAX,
        0 <= i < ms.len(),
    ensures
        receive_model(publish_all(b, ms.take(i + 1)), b.history.len() + i) == (
            OutcomeView::Message(ms[i]),
            b.history.len() + i + 1,
        ),
{
    lemma_publish_all_history(b, ms.take(i + 1));
}

/// The messages a subscription at `cursor` obtains from `k` successive
/// receives, while nothing else happens to the bus.
pub open spec fn drained(b: BusView, cursor: int, k: nat) -> Seq<MessageView>
    decreases k,
{
    if k == 0 {
        Seq::empty()
    } else {
        match receive_model(b, cursor) {
            (OutcomeView::Message(m), c2) => seq![m] + drained(b, c2, (k - 1) as nat),
            _ => Seq::empty(),
        }
    }
}

/// No reordering: as long as a subscription stays inside the retained
/// window, successive receives hand back exactly the published stream
/// from its cursor on — the same messages, in the same relative order,
/// with no gaps.
pub proof fn lemma_no_reordering(b: BusView, cursor: int, k: nat)
    requires
        bus_inv(b),
        !b.closed,
        start_of(b) <= cursor,
        cursor + k <= b.history.len(),
    ensures
        drained(b, cursor, k) == b.history.subrange(cursor, cursor + k),
    decreases k,
{
    if k == 0 {
        assert(drained(b, cursor, 0) =~= b.history.subrange(cursor, cursor));
    } else {
        lemma_no_reordering(b, cursor + 1, (k - 1) as nat);
        assert(drained(b, cursor, k) =~= b.history.subrange(cursor, cursor + k));
    }
}

/// Isolation: a subscription that lags loses messages only for itself.
/// Whatever position a slow cursor has fallen to, publishing still
/// appends the message for everyone, a caught-up subscription still
/// receives it immediately, and the loss is reported to the slow
/// subscription alone.
pub proof fn lemma_isolation(b: BusView, m: MessageView, slow: int, fast: int)
    requires
        bus_inv(b),
        !b.closed,
        0 <= slow < start_of(b),
        fast == b.history.len(),
    ensures
        publish_model(b, m).history == b.history.push(m),
        receive_model(publish_model(b, m), fast) == (
            OutcomeView::Message(m),
            fast + 1,
        ),
        receive_model(b, slow).0 == OutcomeView::Lagged(start_of(b) - slow),
{
}

/// Bounded loss, not blocking: once more than `capacity` messages lie
/// beyond a subscription's cursor, its next receive is a lag notice
/// counting exactly the dropped messages — never a block and never a
/// failure — and the receive after that resumes at the oldest retained
/// message.
pub proof fn lemma_bounded_loss(b: BusView, cursor: int)
    requires
        bus_inv(b),
        !b.closed,
        0 <= cursor,
        b.history.len() - cursor > b.capacity,
    ensures
        cursor < start_of(b),
        receive_model(b, cursor) == (
            OutcomeView::Lagged(start_of(b) - cursor),
            start_of(b),
        ),
        receive_model(b, start_of(b)) == (
            OutcomeView::Message(b.history[start_of(b)]),
            start_of(b) + 1,
        ),
{
}

/// Shutdown propagation: after the bus closes, every subscription's very
/// next receive yields `Closed`, wherever its cursor stands, and an
/// emitter fed that outcome terminates.
pub proof fn lemma_shutdown(b: BusView, cursor: int)
    ensures
        receive_model(close_model(b), cursor) == (OutcomeView::Closed, cursor),
        step_model(EmitterState::Running, EmitterEvent::Received(Outcome::Closed)) == (
            EmitterState::Terminated,
            EmitterAction::Stop,
        ),
{
}

/// Cancellation responsiveness: the cancellation signal terminates an
/// emitter in one step, whatever state it is in and without consulting
/// the bus — so it fires even while no messages are flowing, and no other
/// emitter's state enters into it.
pub proof fn lemma_cancellation(state: EmitterState)
    ensures
        step_model(state, EmitterEvent::Cancelled) == (
            EmitterState::Terminated,
            EmitterAction::Stop,
        ),
{
}

} // verus!
