//! What a background probe tells the selection about one row, and in what order.

use crate::git::{Worktree, WorktreeStatus};
use crate::tui::model::{apply_all, lemma_apply_all_push};
use crate::tui::{
    update_views, ItemView, SummaryState, SummaryView, UpdateView, WorktreeItem, WorktreeUpdate,
};
use vstd::prelude::*;

verus! {

/// The rows a selection starts with: one per worktree, in the order given,
/// with nothing known yet.
pub open spec fn fresh_items(branches: Seq<Seq<char>>) -> Seq<ItemView> {
    Seq::new(
        branches.len(),
        |i: int| ItemView { branch: branches[i], status: None, summary: SummaryView::Absent },
    )
}

/// The rows a selection over `worktrees` starts with.
pub fn initial_items(worktrees: &Vec<Worktree>) -> (r: Vec<WorktreeItem>)
    ensures
        crate::tui::item_views(r@) == fresh_items(
            Seq::new(worktrees.len() as nat, |i: int| worktrees[i].branch@),
        ),
{
    let ghost branches = Seq::new(worktrees.len() as nat, |i: int| worktrees[i].branch@);
    let mut items: Vec<WorktreeItem> = Vec::new();
    let mut i: usize = 0;
    while i < worktrees.len()
        invariant
            i <= worktrees.len(),
            branches == Seq::new(worktrees.len() as nat, |k: int| worktrees[k].branch@),
            crate::tui::item_views(items@) == fresh_items(branches).take(i as int),
        decreases worktrees.len() - i,
    {
        let item = WorktreeItem {
            branch: worktrees[i].branch.clone(),
            status: None,
            summary_state: SummaryState::Absent,
        };
        let ghost shown = item@;
        let ghost before = crate::tui::item_views(items@);
        items.push(item);
        assert(crate::tui::item_views(items@) =~= before.push(shown));
        assert(before.push(shown) =~= fresh_items(branches).take(i + 1));
        i = i + 1;
    }
    assert(fresh_items(branches).take(worktrees.len() as int) =~= fresh_items(branches));
    items
}

/// What a probe reports once it knows the status of row `index`: the status,
/// and that a summary is being written if the status asks for one.
pub open spec fn status_reports(index: usize, status: WorktreeStatus) -> Seq<UpdateView> {
    if status.spec_needs_summary() {
        seq![UpdateView::Status { index, status }, UpdateView::SummaryStarted { index }]
    } else {
        seq![UpdateView::Status { index, status }]
    }
}

/// What a probe reports once the summary of row `index` has come back, if
/// one has.
pub open spec fn summary_reports(index: usize, summary: Option<Seq<char>>) -> Seq<UpdateView> {
    match summary {
        Some(text) => seq![UpdateView::Summary { index, summary: text }],
        None => Seq::empty(),
    }
}

/// The updates to send once the status of row `index` is known. The summary
/// is to be asked for exactly when the second update is there.
pub fn updates_after_status(index: usize, status: WorktreeStatus) -> (r: Vec<WorktreeUpdate>)
    ensures
        update_views(r@) == status_reports(index, status),
        r.len() == 2 <==> status.spec_needs_summary(),
{
    let mut updates: Vec<WorktreeUpdate> = Vec::new();
    updates.push(WorktreeUpdate::Status { index, status });
    if status.needs_summary() {
        updates.push(WorktreeUpdate::SummaryStarted { index });
    }
    assert(update_views(updates@) =~= status_reports(index, status));
    updates
}

/// The update to send once the summary probe of row `index` is back: the
/// text if there is one, nothing otherwise.
pub fn update_after_summary(index: usize, summary: Option<String>) -> (r: Option<WorktreeUpdate>)
    ensures
        match summary {
            Some(text) => r matches Some(update) && update@ == (UpdateView::Summary {
                index,
                summary: text@,
            }),
            None => r is None,
        },
{
    match summary {
        Some(text) => Some(WorktreeUpdate::Summary { index, summary: text }),
        None => None,
    }
}

/// A row with nothing known, once its probe has reported a status and the
/// summary that came back, holds that status; its summary is the text if the
/// status asked for one, and absent otherwise.
pub proof fn law_probe_reports_settle(
    items: Seq<ItemView>,
    index: usize,
    status: WorktreeStatus,
    text: Seq<char>,
)
    requires
        index < items.len(),
        items[index as int].status is None,
        items[index as int].summary is Absent,
    ensures
        ({
            let reports = status_reports(index, status) + summary_reports(index, Some(text));
            let after = apply_all(items, reports);
            &&& after.len() == items.len()
            &&& after[index as int].status == Some(status)
            &&& after[index as int].branch == items[index as int].branch
            &&& after[index as int].summary == (if status.spec_needs_summary() {
                SummaryView::Done(text)
            } else {
                SummaryView::Absent
            })
            &&& forall|i: int| 0 <= i < items.len() && i != index ==> after[i] == items[i]
        }),
{
    let reports = status_reports(index, status) + summary_reports(index, Some(text));
    let u0 = UpdateView::Status { index, status };
    let u1 = UpdateView::SummaryStarted { index };
    let u2 = UpdateView::Summary { index, summary: text };
    let none = Seq::<UpdateView>::empty();
    lemma_apply_all_push(items, none, u0);
    if status.spec_needs_summary() {
        lemma_apply_all_push(items, none.push(u0), u1);
        lemma_apply_all_push(items, none.push(u0).push(u1), u2);
        assert(reports =~= none.push(u0).push(u1).push(u2));
    } else {
        lemma_apply_all_push(items, none.push(u0), u2);
        assert(reports =~= none.push(u0).push(u2));
    }
}

} // verus!
