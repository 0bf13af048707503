//! What holds of the update pipeline whatever the probes send, in whatever order.

use crate::tui::model::{
    apply_all, apply_update, count_summaries_in_flight, count_unknown_status,
    lemma_apply_all_keeps_shape, lemma_counts_after_replace, summary_in_flight, summary_rank,
    update_index,
};
use crate::tui::{ItemView, UpdateView};
use vstd::prelude::*;

verus! {

/// The update at position `k` reports a status for row `row`.
pub open spec fn reports_status(updates: Seq<UpdateView>, k: int, row: int) -> bool {
    updates[k] is Status && update_index(updates[k]) == row
}

/// The update at position `k` is the first to report a status for its row,
/// the row exists, and its status was unknown at the start.
pub open spec fn first_status_report(
    items: Seq<ItemView>,
    updates: Seq<UpdateView>,
    k: int,
) -> bool {
    let row = update_index(updates[k]) as int;
    &&& updates[k] is Status
    &&& row < items.len()
    &&& items[row].status is None
    &&& forall|j: int| 0 <= j < k ==> !reports_status(updates, j, row)
}

/// After the first `k` updates, the status of a row is unknown exactly when
/// it was unknown at the start and none of those updates reported one for it.
pub proof fn lemma_status_unknown_until_reported(
    items: Seq<ItemView>,
    updates: Seq<UpdateView>,
    k: int,
    row: int,
)
    requires
        0 <= k <= updates.len(),
        0 <= row < items.len(),
    ensures
        apply_all(items, updates.take(k)).len() == items.len(),
        apply_all(items, updates.take(k))[row].status is None <==> (items[row].status is None
            && forall|j: int| 0 <= j < k ==> !reports_status(updates, j, row)),
    decreases k,
{
    lemma_apply_all_keeps_shape(items, updates.take(k));
    if k > 0 {
        lemma_status_unknown_until_reported(items, updates, k - 1, row);
        lemma_apply_all_keeps_shape(items, updates.take(k - 1));
        assert(updates.take(k).drop_last() == updates.take(k - 1));
        assert(updates.take(k).last() == updates[k - 1]);
        if items[row].status is None && forall|j: int|
            0 <= j < k - 1 ==> !reports_status(updates, j, row) {
            if !reports_status(updates, k - 1, row) {
                assert forall|j: int| 0 <= j < k implies !reports_status(updates, j, row) by {}
            }
        } else if items[row].status is None {
            let j = choose|j: int| 0 <= j < k - 1 && reports_status(updates, j, row);
            assert(reports_status(updates, j, row));
        }
    }
}

/// The count of rows with unknown status falls by exactly one when a row's
/// status is reported for the first time, and is left alone by every other
/// update: a second report for the same row, a report for a row that does not
/// exist, or an update about a summary.
pub proof fn law_pending_status_falls_once_per_row(
    items: Seq<ItemView>,
    updates: Seq<UpdateView>,
    k: int,
)
    requires
        0 <= k < updates.len(),
    ensures
        count_unknown_status(apply_all(items, updates.take(k + 1))) == count_unknown_status(
            apply_all(items, updates.take(k)),
        ) - (if first_status_report(items, updates, k) {
            1int
        } else {
            0int
        }),
{
    let before = apply_all(items, updates.take(k));
    let update = updates[k];
    let row = update_index(update) as int;
    assert(updates.take(k + 1).drop_last() == updates.take(k));
    assert(updates.take(k + 1).last() == update);
    lemma_apply_all_keeps_shape(items, updates.take(k));
    if row < items.len() {
        lemma_status_unknown_until_reported(items, updates, k, row);
        lemma_counts_after_replace(before, row, apply_update(before, update)[row]);
    }
}

/// Reporting a status twice for one row moves the count of rows with unknown
/// status no further than reporting it once.
pub proof fn law_second_status_report_keeps_count(
    items: Seq<ItemView>,
    first: UpdateView,
    second: UpdateView,
)
    requires
        first is Status,
        second is Status,
        update_index(first) == update_index(second),
    ensures
        count_unknown_status(apply_update(apply_update(items, first), second))
            == count_unknown_status(apply_update(items, first)),
{
    let row = update_index(first) as int;
    if row < items.len() {
        let once = apply_update(items, first);
        lemma_counts_after_replace(once, row, apply_update(once, second)[row]);
    }
}

/// No update moves the summary of any row backwards.
pub proof fn law_summary_moves_forward(items: Seq<ItemView>, update: UpdateView, row: int)
    requires
        0 <= row < items.len(),
    ensures
        apply_update(items, update).len() == items.len(),
        summary_rank(apply_update(items, update)[row].summary) >= summary_rank(
            items[row].summary,
        ),
{
}

/// No sequence of updates moves the summary of any row backwards.
pub proof fn law_summary_moves_forward_all(
    items: Seq<ItemView>,
    updates: Seq<UpdateView>,
    row: int,
)
    requires
        0 <= row < items.len(),
    ensures
        apply_all(items, updates).len() == items.len(),
        summary_rank(apply_all(items, updates)[row].summary) >= summary_rank(items[row].summary),
    decreases updates.len(),
{
    if updates.len() > 0 {
        law_summary_moves_forward_all(items, updates.drop_last(), row);
        law_summary_moves_forward(apply_all(items, updates.drop_last()), updates.last(), row);
    }
}

/// A summary that is done stays as it is, whatever arrives afterwards.
pub proof fn law_done_summary_is_final(items: Seq<ItemView>, updates: Seq<UpdateView>, row: int)
    requires
        0 <= row < items.len(),
        items[row].summary is Done,
    ensures
        apply_all(items, updates).len() == items.len(),
        apply_all(items, updates)[row].summary == items[row].summary,
    decreases updates.len(),
{
    if updates.len() > 0 {
        law_done_summary_is_final(items, updates.drop_last(), row);
    }
}

/// The update at position `k` reports, for row `row`, a status that asks for a summary.
pub open spec fn asks_for_summary(updates: Seq<UpdateView>, k: int, row: int) -> bool {
    updates[k] matches UpdateView::Status { index, status } && index == row
        && status.spec_needs_summary()
}

/// A row without a summary keeps none as long as no status asks for one:
/// word of a summary started or finished is ignored for such a row.
pub proof fn law_unasked_summary_stays_absent(
    items: Seq<ItemView>,
    updates: Seq<UpdateView>,
    row: int,
)
    requires
        0 <= row < items.len(),
        items[row].summary is Absent,
        forall|k: int| 0 <= k < updates.len() ==> !asks_for_summary(updates, k, row),
    ensures
        apply_all(items, updates).len() == items.len(),
        apply_all(items, updates)[row].summary is Absent,
    decreases updates.len(),
{
    if updates.len() > 0 {
        let earlier = updates.drop_last();
        assert forall|k: int| 0 <= k < earlier.len() implies !asks_for_summary(earlier, k, row) by {
            assert(!asks_for_summary(updates, k, row));
        }
        law_unasked_summary_stays_absent(items, earlier, row);
        assert(!asks_for_summary(updates, updates.len() - 1, row));
    }
}

/// `update` reports, for a row that exists and has no summary, a status that asks for one.
pub open spec fn queues_summary(items: Seq<ItemView>, update: UpdateView) -> bool {
    let row = update_index(update) as int;
    &&& row < items.len()
    &&& update matches UpdateView::Status { status, .. }
    &&& status.spec_needs_summary()
    &&& items[row].summary is Absent
}

/// `update` brings the summary of a row that exists and has one in flight.
pub open spec fn completes_summary(items: Seq<ItemView>, update: UpdateView) -> bool {
    let row = update_index(update) as int;
    &&& row < items.len()
    &&& update is Summary
    &&& summary_in_flight(items[row].summary)
}

/// The count of summaries in flight rises by one when a status first asks for
/// a summary, falls by one when a summary in flight arrives, and is left
/// alone by every other update.
pub proof fn law_summaries_in_flight_step(items: Seq<ItemView>, update: UpdateView)
    ensures
        count_summaries_in_flight(apply_update(items, update)) == count_summaries_in_flight(items)
            + (if queues_summary(items, update) {
            1int
        } else {
            0int
        }) - (if completes_summary(items, update) {
            1int
        } else {
            0int
        }),
{
    let row = update_index(update) as int;
    if row < items.len() {
        lemma_counts_after_replace(items, row, apply_update(items, update)[row]);
    }
}

/// It makes no difference in how many batches updates are taken in: taking
/// in `first` and then `rest` leaves what taking in both at once leaves.
pub proof fn law_batches_compose(
    items: Seq<ItemView>,
    first: Seq<UpdateView>,
    rest: Seq<UpdateView>,
)
    ensures
        apply_all(items, first + rest) == apply_all(apply_all(items, first), rest),
    decreases rest.len(),
{
    if rest.len() == 0 {
        assert(first + rest == first);
    } else {
        law_batches_compose(items, first, rest.drop_last());
        assert((first + rest).drop_last() == first + rest.drop_last());
        assert((first + rest).last() == rest.last());
    }
}

} // verus!
