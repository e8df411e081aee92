//! A bounded, multi-subscriber broadcast bus for short chat messages, with
//! the per-connection emitter state machine that drains it.
//!
//! The bus fans every published message out to all active subscriptions.
//! Each subscription is an independent cursor into a shared ring of the
//! most recently published messages; a slow consumer loses its oldest
//! unread messages rather than slowing anyone else down.

use vstd::prelude::*;

pub mod bus;
pub mod emitter;
pub mod laws;
pub mod message;

verus! {

use crate::bus::{publish_model, Bus, BusView, DEFAULT_CAPACITY};
use crate::message::{Message, MessageView};

/// Builds the process-wide bus the service runs on, with the default
/// capacity, ready to be shared by every connection handler and the
/// gateway. Everything else the process mounts around it is transport.
pub fn rocket() -> (b: Bus)
    ensures
        b.wf(),
        b@ == (BusView {
            capacity: DEFAULT_CAPACITY as int,
            closed: false,
            subscribers: 0,
            history: Seq::<MessageView>::empty(),
        }),
{
    Bus::new(DEFAULT_CAPACITY)
}

/// Accepts one already-validated message from the gateway and broadcasts
/// it to every receiver. The subscriber count (and, on a closed bus, the
/// failure) is deliberately discarded: to the gateway, posting into an
/// empty room and posting during shutdown look the same.
pub fn post(bus: &mut Bus, form: Message)
    requires
        old(bus).wf(),
        old(bus)@.history.len() < u64::MAX,
    ensures
        final(bus).wf(),
        old(bus)@.closed ==> final(bus)@ == old(bus)@,
        !old(bus)@.closed ==> final(bus)@ == publish_model(old(bus)@, form@),
{
    let _res = bus.publish(form);
}

} // verus!
