//! The consuming end of the channel that background probes write to.

use crate::tui::WorktreeUpdate;
use tokio::sync::mpsc::UnboundedReceiver;
use vstd::prelude::*;

verus! {

/// The receiving half of an unbounded channel of `tokio`.
#[verifier::external_type_specification]
#[verifier::external_body]
#[verifier::reject_recursive_types(T)]
pub struct ExUnboundedReceiver<T>(UnboundedReceiver<T>);

/// `tokio::sync::mpsc::UnboundedReceiver::try_recv`: the next value that a
/// sender has put into the channel, or `None` where the channel is empty,
/// whether or not senders are left. The call does not wait for a value to be
/// sent, only for a send that is under way to finish. What comes back
/// depends on what other threads have sent, so nothing is said of it.
#[verifier::external_body]
pub(crate) fn try_receive(updates: &mut UnboundedReceiver<WorktreeUpdate>) -> (r: Option<
    WorktreeUpdate,
>) {
    updates.try_recv().ok()
}

} // verus!
