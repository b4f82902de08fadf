//! What passes between a block and the scheduler that polls it.

use vstd::prelude::*;
use vstd::std_specs::convert::FromSpecImpl;
use crossbeam_channel::Sender;
use crate::interval::Interval;

verus! {

/// `crossbeam_channel::Sender`, the sending end of a channel. A block keeps
/// the one that it was built with, to reach the scheduler; nothing is
/// claimed of it and nothing inside it is read.
#[verifier::external_type_specification]
#[verifier::external_body]
#[verifier::reject_recursive_types(T)]
pub struct ExSender<T>(Sender<T>);

/// A request to poll the block with this identity out of turn. The
/// scheduler merges the requests that name the same block.
#[derive(Debug, Clone, PartialEq, Eq)]
pub struct Task {
    pub id: String,
}

/// What a block tells the scheduler after a poll.
#[derive(Debug, Clone, Copy, PartialEq, Eq, Structural)]
pub enum Update {
    /// Poll again when this much time has passed.
    RescheduleAfter(Interval),
    /// Do not poll again.
    NoFurtherUpdates,
}

impl From<Interval> for Update {
    fn from(interval: Interval) -> (update: Update) {
        Update::RescheduleAfter(interval)
    }
}

impl FromSpecImpl<Interval> for Update {
    open spec fn obeys_from_spec() -> bool {
        true
    }

    open spec fn from_spec(interval: Interval) -> Update {
        Update::RescheduleAfter(interval)
    }
}

} // verus!
