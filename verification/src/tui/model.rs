//! The update pipeline as mathematics: what one update does to one row, what
//! a sequence of updates does to the list, and how many rows are still waiting.

use crate::git::WorktreeStatus;
use crate::tui::{ItemView, SummaryView, UpdateView};
use vstd::prelude::*;

verus! {

/// Position of a summary state along `Absent`, `Queued`, `Summarizing`, `Done`.
pub open spec fn summary_rank(summary: SummaryView) -> nat {
    match summary {
        SummaryView::Absent => 0,
        SummaryView::Queued => 1,
        SummaryView::Summarizing => 2,
        SummaryView::Done(_) => 3,
    }
}

/// A summary that has been promised and has not arrived.
pub open spec fn summary_in_flight(summary: SummaryView) -> bool {
    summary is Queued || summary is Summarizing
}

/// The row after a status probe has come back. The status is taken over; a
/// summary is queued if the status asks for one and none was asked for before.
pub open spec fn item_after_status(item: ItemView, status: WorktreeStatus) -> ItemView {
    ItemView {
        branch: item.branch,
        status: Some(status),
        summary: if status.spec_needs_summary() && item.summary is Absent {
            SummaryView::Queued
        } else {
            item.summary
        },
    }
}

/// The row after its summary probe has started: a queued summary is now being
/// written, every other row is left alone.
pub open spec fn item_after_summary_started(item: ItemView) -> ItemView {
    if item.summary is Queued {
        ItemView { branch: item.branch, status: item.status, summary: SummaryView::Summarizing }
    } else {
        item
    }
}

/// The row after a summary text has come back: a summary in flight is done,
/// every other row is left alone.
pub open spec fn item_after_summary(item: ItemView, text: Seq<char>) -> ItemView {
    if summary_in_flight(item.summary) {
        ItemView { branch: item.branch, status: item.status, summary: SummaryView::Done(text) }
    } else {
        item
    }
}

/// The row an update is about.
pub open spec fn update_index(update: UpdateView) -> usize {
    match update {
        UpdateView::Status { index, .. } => index,
        UpdateView::SummaryStarted { index } => index,
        UpdateView::Summary { index, .. } => index,
    }
}

/// The row after `update`, given that the update is about this row.
pub open spec fn item_after(item: ItemView, update: UpdateView) -> ItemView {
    match update {
        UpdateView::Status { status, .. } => item_after_status(item, status),
        UpdateView::SummaryStarted { .. } => item_after_summary_started(item),
        UpdateView::Summary { summary, .. } => item_after_summary(item, summary),
    }
}

/// The list after `update`. An update for a row that does not exist changes nothing.
pub open spec fn apply_update(items: Seq<ItemView>, update: UpdateView) -> Seq<ItemView> {
    let index = update_index(update) as int;
    if index < items.len() {
        items.update(index, item_after(items[index], update))
    } else {
        items
    }
}

/// The list after every update of `updates`, applied in order.
pub open spec fn apply_all(items: Seq<ItemView>, updates: Seq<UpdateView>) -> Seq<ItemView>
    decreases updates.len(),
{
    if updates.len() == 0 {
        items
    } else {
        apply_update(apply_all(items, updates.drop_last()), updates.last())
    }
}

/// Number of rows whose status is not known yet.
pub open spec fn count_unknown_status(items: Seq<ItemView>) -> nat
    decreases items.len(),
{
    if items.len() == 0 {
        0
    } else {
        count_unknown_status(items.drop_last()) + if items.last().status is None {
            1nat
        } else {
            0nat
        }
    }
}

/// Number of rows whose summary is in flight.
pub open spec fn count_summaries_in_flight(items: Seq<ItemView>) -> nat
    decreases items.len(),
{
    if items.len() == 0 {
        0
    } else {
        count_summaries_in_flight(items.drop_last()) + if summary_in_flight(
            items.last().summary,
        ) {
            1nat
        } else {
            0nat
        }
    }
}

/// Neither count exceeds the number of rows.
pub proof fn lemma_counts_bounded(items: Seq<ItemView>)
    ensures
        count_unknown_status(items) <= items.len(),
        count_summaries_in_flight(items) <= items.len(),
    decreases items.len(),
{
    if items.len() > 0 {
        lemma_counts_bounded(items.drop_last());
    }
}

/// Replacing one row moves each count by what that row contributed before and after.
pub proof fn lemma_counts_after_replace(items: Seq<ItemView>, index: int, item: ItemView)
    requires
        0 <= index < items.len(),
    ensures
        count_unknown_status(items.update(index, item)) + (if items[index].status is None {
            1nat
        } else {
            0nat
        }) == count_unknown_status(items) + (if item.status is None {
            1nat
        } else {
            0nat
        }),
        count_summaries_in_flight(items.update(index, item)) + (if summary_in_flight(
            items[index].summary,
        ) {
            1nat
        } else {
            0nat
        }) == count_summaries_in_flight(items) + (if summary_in_flight(item.summary) {
            1nat
        } else {
            0nat
        }),
    decreases items.len(),
{
    let replaced = items.update(index, item);
    if index == items.len() - 1 {
        assert(replaced.drop_last() == items.drop_last());
    } else {
        lemma_counts_after_replace(items.drop_last(), index, item);
        assert(replaced.drop_last() == items.drop_last().update(index, item));
    }
}

/// An update keeps the number of rows and every branch name.
pub proof fn lemma_apply_update_keeps_shape(items: Seq<ItemView>, update: UpdateView)
    ensures
        apply_update(items, update).len() == items.len(),
        forall|i: int|
            0 <= i < items.len() ==> (#[trigger] apply_update(items, update)[i]).branch
                == items[i].branch,
        forall|i: int|
            0 <= i < items.len() && i != update_index(update) ==> #[trigger] apply_update(
                items,
                update,
            )[i] == items[i],
{
}

/// A sequence of updates keeps the number of rows and every branch name.
pub proof fn lemma_apply_all_keeps_shape(items: Seq<ItemView>, updates: Seq<UpdateView>)
    ensures
        apply_all(items, updates).len() == items.len(),
        forall|i: int|
            0 <= i < items.len() ==> (#[trigger] apply_all(items, updates)[i]).branch
                == items[i].branch,
    decreases updates.len(),
{
    if updates.len() > 0 {
        lemma_apply_all_keeps_shape(items, updates.drop_last());
        lemma_apply_update_keeps_shape(apply_all(items, updates.drop_last()), updates.last());
    }
}

/// Applying one more update after `updates` is applying it to what they left.
pub proof fn lemma_apply_all_push(items: Seq<ItemView>, updates: Seq<UpdateView>, last: UpdateView)
    ensures
        apply_all(items, updates.push(last)) == apply_update(apply_all(items, updates), last),
{
    assert(updates.push(last).drop_last() =~= updates);
}

} // verus!
