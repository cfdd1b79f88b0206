//! The heartbeat variant of the service: with no real hosts configured, a
//! fixed informational message is published once a second for a bounded
//! number of rounds — a degenerate single-purpose producer on the same
//! event bus. The pacing between rounds belongs to the caller; the engine
//! owns the message and the bound.

use vstd::prelude::*;
use crate::bus::EventBus;
use crate::message::{msg_matches, MessageSpec, Severity, StatusMessage};
use crate::message::now_timestamp;

verus! {

/// How many heartbeat messages one status check emits.
pub const HEARTBEAT_ROUNDS: u32 = 5;

pub open spec fn heartbeat_text() -> Seq<char> {
    "Trying to connect to host"@
}

/// The one fixed message the heartbeat producer publishes.
pub open spec fn heartbeat_msg() -> MessageSpec {
    MessageSpec { severity: Some(Severity::Info), text: heartbeat_text() }
}

/// Build the fixed heartbeat message.
pub fn heartbeat_message() -> (r: StatusMessage)
    ensures
        msg_matches(r, heartbeat_msg()),
{
    StatusMessage::new(now_timestamp(), Some(Severity::Info), "Trying to connect to host".to_owned())
}

/// Publish one heartbeat round: exactly one fixed informational message is
/// appended to the bus history.
pub fn heartbeat_tick(bus: &mut EventBus)
    requires
        old(bus).wf(),
        !old(bus).is_closed(),
    ensures
        final(bus).wf(),
        !final(bus).is_closed(),
        final(bus).cap() == old(bus).cap(),
        final(bus).history().len() == old(bus).history().len() + 1,
        forall|j: int|
            0 <= j < old(bus).history().len() ==> final(bus).history()[j] == old(
                bus,
            ).history()[j],
        msg_matches(final(bus).history().last(), heartbeat_msg()),
{
    let m = heartbeat_message();
    bus.publish(m);
}

} // verus!
