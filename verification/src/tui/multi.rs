//! Picking several rows: each row has a check mark, Enter takes the marked rows.

use crate::git::WorktreeStatus;
use crate::tui::keys::{multi_action, multi_action_of, Action, KeyPress, Step};
use crate::tui::model::{
    apply_all, apply_update, count_summaries_in_flight, count_unknown_status,
    lemma_apply_all_keeps_shape,
};
use crate::tui::render::{
    build_title, build_worktree_list_item, row_lines, title_text, Row, SegmentView,
};
use crate::tui::selection::{
    moved_down, moved_up, ticked, valid_view, with_items, ModelView, SelectionModel,
    SPINNER_FRAMES,
};
use crate::tui::{item_views, update_views, UpdateView, WorktreeItem, WorktreeUpdate};
use tokio::sync::mpsc::UnboundedReceiver;
use vstd::prelude::*;

verus! {

/// The title of the list while several rows are being picked.
pub const MULTI_TITLE: &'static str =
    " Select worktrees (Space toggle, a all, n none, Enter confirm, q quit)";

/// What a `MultiSelectApp` stands for: the shared session and one mark per row.
pub struct MultiView {
    pub model: ModelView,
    pub selected: Seq<bool>,
}

/// The session is in good order and every row has its mark.
pub open spec fn valid_multi(v: MultiView) -> bool {
    &&& valid_view(v.model)
    &&& v.selected.len() == v.model.items.len()
}

/// The marked rows, in ascending order.
pub open spec fn selected_indices(selected: Seq<bool>) -> Seq<usize>
    decreases selected.len(),
{
    if selected.len() == 0 {
        Seq::empty()
    } else if selected.last() {
        selected_indices(selected.drop_last()).push((selected.len() - 1) as usize)
    } else {
        selected_indices(selected.drop_last())
    }
}

/// What Enter gives: the marked rows in ascending order, or nothing at all
/// if no row is marked.
pub open spec fn multi_confirmed(v: MultiView) -> Option<Seq<usize>> {
    if selected_indices(v.selected).len() == 0 {
        None
    } else {
        Some(selected_indices(v.selected))
    }
}

/// What turning the selection down gives.
pub open spec fn multi_cancelled() -> Option<Seq<usize>> {
    None
}

/// The marks with the one under the cursor turned over.
pub open spec fn toggled(v: MultiView) -> MultiView {
    MultiView {
        model: v.model,
        selected: match v.model.cursor {
            Some(row) => if row < v.selected.len() {
                v.selected.update(row as int, !v.selected[row as int])
            } else {
                v.selected
            },
            None => v.selected,
        },
    }
}

/// Every row marked, or every row unmarked.
pub open spec fn all_marked(v: MultiView, mark: bool) -> MultiView {
    MultiView { model: v.model, selected: Seq::new(v.selected.len(), |i: int| mark) }
}

/// The same marks over a changed session.
pub open spec fn with_model(v: MultiView, model: ModelView) -> MultiView {
    MultiView { model, selected: v.selected }
}

/// The result of a finished selection as a mathematical value.
pub open spec fn result_view(result: Option<Vec<usize>>) -> Option<Seq<usize>> {
    match result {
        Some(rows) => Some(rows@),
        None => None,
    }
}

/// Where a selection stands after a key press, as a mathematical value.
pub open spec fn step_view(step: Step<Option<Vec<usize>>>) -> Step<Option<Seq<usize>>> {
    match step {
        Step::Continue => Step::Continue,
        Step::Finish(result) => Step::Finish(result_view(result)),
    }
}

/// The session after a key press, and whether it goes on.
pub open spec fn multi_step(v: MultiView, press: KeyPress) -> (
    MultiView,
    Step<Option<Seq<usize>>>,
) {
    match multi_action_of(press) {
        Action::MoveUp => (with_model(v, moved_up(v.model)), Step::Continue),
        Action::MoveDown => (with_model(v, moved_down(v.model)), Step::Continue),
        Action::ToggleCurrent => (toggled(v), Step::Continue),
        Action::SelectAll => (all_marked(v, true), Step::Continue),
        Action::DeselectAll => (all_marked(v, false), Step::Continue),
        Action::Confirm => (v, Step::Finish(multi_confirmed(v))),
        Action::Cancel => (v, Step::Finish(multi_cancelled())),
        Action::Ignore => (v, Step::Continue),
    }
}

/// The rows of a list with check boxes, as they are drawn.
pub open spec fn multi_rows(v: MultiView) -> Seq<Seq<Seq<SegmentView>>> {
    Seq::new(
        v.model.items.len(),
        |i: int|
            row_lines(
                v.model.items[i].branch,
                v.model.items[i].status,
                v.model.items[i].summary,
                v.selected[i],
                true,
                v.model.cursor == Some(i as usize),
                SPINNER_FRAMES@[v.model.frame as int],
            ),
    )
}

/// The marked rows are exactly the rows that carry a mark, each once, and
/// they come in ascending order.
pub proof fn lemma_selected_indices(selected: Seq<bool>)
    requires
        selected.len() <= usize::MAX,
    ensures
        selected_indices(selected).len() <= selected.len(),
        forall|k: int|
            0 <= k < selected_indices(selected).len() ==> (#[trigger] selected_indices(
                selected,
            )[k]) < selected.len() && selected[selected_indices(selected)[k] as int],
        forall|j: int, k: int|
            0 <= j < k < selected_indices(selected).len() ==> selected_indices(selected)[j]
                < selected_indices(selected)[k],
        forall|i: int|
            0 <= i < selected.len() && selected[i] ==> exists|k: int|
                0 <= k < selected_indices(selected).len() && #[trigger] selected_indices(
                    selected,
                )[k] == i,
    decreases selected.len(),
{
    if selected.len() > 0 {
        let front = selected.drop_last();
        lemma_selected_indices(front);
        let all = selected_indices(selected);
        let before = selected_indices(front);
        assert forall|i: int| 0 <= i < selected.len() && selected[i] implies exists|k: int|
            0 <= k < all.len() && #[trigger] all[k] == i by {
            if i < selected.len() - 1 {
                assert(front[i]);
                let k = choose|k: int| 0 <= k < before.len() && #[trigger] before[k] == i;
                assert(all[k] == i);
            } else {
                assert(all[all.len() - 1] == i);
            }
        }
        assert forall|k: int| 0 <= k < all.len() implies (#[trigger] all[k]) < selected.len()
            && selected[all[k] as int] by {
            if k < before.len() {
                assert(before[k] < front.len());
                assert(front[before[k] as int]);
            }
        }
        assert forall|j: int, k: int| 0 <= j < k < all.len() implies all[j] < all[k] by {
            if k < before.len() {
                assert(before[j] < before[k]);
            } else {
                assert(before[j] < front.len());
            }
        }
    }
}

/// With every row marked, the marked rows are all the rows, first to last.
pub proof fn law_select_all_yields_every_row(n: nat)
    requires
        n <= usize::MAX,
    ensures
        selected_indices(Seq::new(n, |i: int| true)) == Seq::new(n, |i: int| i as usize),
    decreases n,
{
    let marks = Seq::new(n, |i: int| true);
    if n > 0 {
        law_select_all_yields_every_row((n - 1) as nat);
        assert(marks.drop_last() =~= Seq::new((n - 1) as nat, |i: int| true));
    }
    assert(selected_indices(marks) =~= Seq::new(n, |i: int| i as usize));
}

/// After marking every row, Enter gives all the rows in ascending order,
/// whatever was marked before; over no rows it gives nothing.
pub proof fn law_confirm_after_select_all(v: MultiView)
    requires
        valid_multi(v),
        v.selected.len() <= usize::MAX,
    ensures
        multi_confirmed(all_marked(v, true)) == (if v.model.items.len() == 0 {
            None
        } else {
            Some(Seq::new(v.model.items.len(), |i: int| i as usize))
        }),
{
    law_select_all_yields_every_row(v.selected.len());
}

/// With no row marked there are no marked rows.
pub proof fn lemma_none_selected(selected: Seq<bool>)
    requires
        forall|i: int| 0 <= i < selected.len() ==> !selected[i],
    ensures
        selected_indices(selected).len() == 0,
    decreases selected.len(),
{
    if selected.len() > 0 {
        lemma_none_selected(selected.drop_last());
    }
}

/// Enter with no row marked gives what turning the selection down gives.
pub proof fn law_empty_confirm_is_cancel(v: MultiView)
    requires
        forall|i: int| 0 <= i < v.selected.len() ==> !v.selected[i],
    ensures
        multi_confirmed(v) == multi_cancelled(),
{
    lemma_none_selected(v.selected);
}

/// Enter gives nothing exactly when no row is marked.
pub proof fn law_confirm_is_none_iff_unmarked(v: MultiView)
    requires
        v.selected.len() <= usize::MAX,
    ensures
        multi_confirmed(v) is None <==> forall|i: int|
            0 <= i < v.selected.len() ==> !v.selected[i],
{
    lemma_selected_indices(v.selected);
    if forall|i: int| 0 <= i < v.selected.len() ==> !v.selected[i] {
        lemma_none_selected(v.selected);
    }
}

/// The state of a session in which several rows are picked.
pub struct MultiSelectApp {
    model: SelectionModel,
    selected: Vec<bool>,
}

impl View for MultiSelectApp {
    type V = MultiView;

    closed spec fn view(&self) -> MultiView {
        MultiView { model: self.model@, selected: self.selected@ }
    }
}

impl MultiSelectApp {
    /// The invariant of the session.
    pub closed spec fn wf(&self) -> bool {
        &&& self.model.wf()
        &&& self.selected.len() == self.model@.items.len()
    }

    /// A session in good order has one mark per row and a cursor on a row
    /// exactly when there is one.
    pub proof fn lemma_wf_view(&self)
        requires
            self.wf(),
        ensures
            valid_multi(self@),
    {
    }

    /// A session over `items` with no row marked and the cursor on the first
    /// row if there is one.
    pub fn new(items: Vec<WorktreeItem>) -> (r: Self)
        ensures
            r.wf(),
            r@.model.items == item_views(items@),
            r@.model.cursor == (if items.len() > 0 {
                Some(0usize)
            } else {
                None
            }),
            r@.model.frame == 0,
            r@.selected == Seq::new(items.len() as nat, |i: int| false),
    {
        let len = items.len();
        let mut selected: Vec<bool> = Vec::new();
        let mut i: usize = 0;
        while i < len
            invariant
                i <= len,
                selected@ == Seq::new(i as nat, |k: int| false),
            decreases len - i,
        {
            selected.push(false);
            assert(selected@ =~= Seq::new((i + 1) as nat, |k: int| false));
            i = i + 1;
        }
        MultiSelectApp { model: SelectionModel::new(items), selected }
    }

    /// The rows, in their fixed order.
    pub fn items(&self) -> (r: &Vec<WorktreeItem>)
        ensures
            item_views(r@) == self@.model.items,
    {
        self.model.items()
    }

    /// The marks, one per row.
    pub fn marks(&self) -> (r: &Vec<bool>)
        ensures
            r@ == self@.selected,
    {
        &self.selected
    }

    /// The row under the cursor.
    pub fn cursor(&self) -> (r: Option<usize>)
        requires
            self.wf(),
        ensures
            r == self@.model.cursor,
            r is Some <==> self@.model.items.len() > 0,
            r matches Some(row) ==> row < self@.model.items.len(),
    {
        self.model.selected()
    }

    /// Number of rows whose status is not known yet.
    pub fn pending_status(&self) -> (r: usize)
        requires
            self.wf(),
        ensures
            r == count_unknown_status(self@.model.items),
    {
        self.model.pending_status()
    }

    /// Number of rows whose summary is in flight.
    pub fn pending_summaries(&self) -> (r: usize)
        requires
            self.wf(),
        ensures
            r == count_summaries_in_flight(self@.model.items),
    {
        self.model.pending_summaries()
    }

    /// Moves the animation one frame on.
    pub fn tick(&mut self)
        requires
            old(self).wf(),
        ensures
            final(self).wf(),
            final(self)@ == with_model(old(self)@, ticked(old(self)@.model)),
    {
        self.model.tick();
    }

    /// The glyph of the current animation frame.
    pub fn spinner_char(&self) -> (r: char)
        requires
            self.wf(),
        ensures
            r == SPINNER_FRAMES@[self@.model.frame as int],
    {
        self.model.spinner_char()
    }

    /// Takes in the status of the row at `index`; does nothing if there is no such row.
    pub fn update_status(&mut self, index: usize, status: WorktreeStatus)
        requires
            old(self).wf(),
        ensures
            final(self).wf(),
            final(self)@ == with_model(
                old(self)@,
                with_items(
                    old(self)@.model,
                    apply_update(old(self)@.model.items, UpdateView::Status { index, status }),
                ),
            ),
    {
        self.model.update_status(index, status);
    }

    /// Notes that the summary of the row at `index` is being written.
    pub fn update_summary_started(&mut self, index: usize)
        requires
            old(self).wf(),
        ensures
            final(self).wf(),
            final(self)@ == with_model(
                old(self)@,
                with_items(
                    old(self)@.model,
                    apply_update(old(self)@.model.items, UpdateView::SummaryStarted { index }),
                ),
            ),
    {
        self.model.update_summary_started(index);
    }

    /// Takes in the summary of the row at `index`.
    pub fn update_summary(&mut self, index: usize, summary: String)
        requires
            old(self).wf(),
        ensures
            final(self).wf(),
            final(self)@ == with_model(
                old(self)@,
                with_items(
                    old(self)@.model,
                    apply_update(
                        old(self)@.model.items,
                        UpdateView::Summary { index, summary: summary@ },
                    ),
                ),
            ),
    {
        self.model.update_summary(index, summary);
    }

    /// Takes in one update, whatever its kind.
    pub fn apply(&mut self, update: WorktreeUpdate)
        requires
            old(self).wf(),
        ensures
            final(self).wf(),
            final(self)@ == with_model(
                old(self)@,
                with_items(old(self)@.model, apply_update(old(self)@.model.items, update@)),
            ),
    {
        self.model.apply(update);
    }

    /// Takes in a batch of updates in the order given.
    pub fn apply_all(&mut self, updates: Vec<WorktreeUpdate>)
        requires
            old(self).wf(),
        ensures
            final(self).wf(),
            final(self)@ == with_model(
                old(self)@,
                with_items(
                    old(self)@.model,
                    apply_all(old(self)@.model.items, update_views(updates@)),
                ),
            ),
    {
        proof {
            lemma_apply_all_keeps_shape(self.model@.items, update_views(updates@));
        }
        self.model.apply_all(updates);
    }

    /// Takes in the updates that are waiting in the channel, in the order
    /// they were sent, without waiting for more; stops after `limit` of
    /// them. Returns how many were taken in. The marks stay as they are.
    pub fn drain(&mut self, updates: &mut UnboundedReceiver<WorktreeUpdate>, limit: usize) -> (n:
        usize)
        requires
            old(self).wf(),
        ensures
            final(self).wf(),
            n <= limit,
            exists|received: Seq<UpdateView>|
                received.len() == n && final(self)@ == #[trigger] with_model(
                    old(self)@,
                    with_items(old(self)@.model, apply_all(old(self)@.model.items, received)),
                ),
    {
        let n = self.model.drain(updates, limit);
        proof {
            let received = choose|received: Seq<UpdateView>|
                received.len() == n && self.model@ == #[trigger] with_items(
                    old(self).model@,
                    apply_all(old(self).model@.items, received),
                );
            lemma_apply_all_keeps_shape(old(self).model@.items, received);
            assert(self@ == with_model(
                old(self)@,
                with_items(old(self)@.model, apply_all(old(self)@.model.items, received)),
            ));
        }
        n
    }

    /// Moves the cursor one row up; it stays on the first row.
    pub fn move_up(&mut self)
        requires
            old(self).wf(),
        ensures
            final(self).wf(),
            final(self)@ == with_model(old(self)@, moved_up(old(self)@.model)),
    {
        self.model.move_up();
    }

    /// Moves the cursor one row down; it stays on the last row.
    pub fn move_down(&mut self)
        requires
            old(self).wf(),
        ensures
            final(self).wf(),
            final(self)@ == with_model(old(self)@, moved_down(old(self)@.model)),
    {
        self.model.move_down();
    }

    /// Turns the mark of the row under the cursor over; does nothing on an empty list.
    pub fn toggle_current(&mut self)
        requires
            old(self).wf(),
        ensures
            final(self).wf(),
            final(self)@ == toggled(old(self)@),
    {
        match self.model.selected() {
            Some(row) => {
                let mark = self.selected[row];
                self.selected.set(row, !mark);
            },
            None => {},
        }
    }

    /// Sets every mark to `mark`.
    fn mark_all(&mut self, mark: bool)
        requires
            old(self).wf(),
        ensures
            final(self).wf(),
            final(self)@ == all_marked(old(self)@, mark),
    {
        let len = self.selected.len();
        let mut i: usize = 0;
        while i < len
            invariant
                i <= len,
                self.selected.len() == len,
                self.model == old(self).model,
                forall|k: int| 0 <= k < i ==> self.selected@[k] == mark,
            decreases len - i,
        {
            self.selected.set(i, mark);
            i = i + 1;
        }
        assert(self.selected@ =~= Seq::new(len as nat, |k: int| mark));
    }

    /// Marks every row.
    pub fn select_all(&mut self)
        requires
            old(self).wf(),
        ensures
            final(self).wf(),
            final(self)@ == all_marked(old(self)@, true),
    {
        self.mark_all(true);
    }

    /// Takes the mark off every row.
    pub fn deselect_all(&mut self)
        requires
            old(self).wf(),
        ensures
            final(self).wf(),
            final(self)@ == all_marked(old(self)@, false),
    {
        self.mark_all(false);
    }

    /// The marked rows, in ascending order.
    pub fn get_selected_indices(&self) -> (r: Vec<usize>)
        ensures
            r@ == selected_indices(self@.selected),
    {
        let mut rows: Vec<usize> = Vec::new();
        let mut i: usize = 0;
        while i < self.selected.len()
            invariant
                i <= self.selected.len(),
                rows@ == selected_indices(self.selected@.take(i as int)),
            decreases self.selected.len() - i,
        {
            proof {
                let next = self.selected@.take(i + 1);
                assert(next.drop_last() =~= self.selected@.take(i as int));
            }
            if self.selected[i] {
                rows.push(i);
            }
            i = i + 1;
        }
        assert(self.selected@.take(self.selected.len() as int) =~= self.selected@);
        rows
    }

    /// What Enter gives: the marked rows in ascending order, or `None` if no
    /// row is marked.
    pub fn confirm(&self) -> (r: Option<Vec<usize>>)
        ensures
            result_view(r) == multi_confirmed(self@),
    {
        let rows = self.get_selected_indices();
        if rows.len() == 0 {
            None
        } else {
            Some(rows)
        }
    }

    /// What turning the selection down gives: `None`.
    pub fn cancel(&self) -> (r: Option<Vec<usize>>)
        ensures
            result_view(r) == multi_cancelled(),
    {
        None
    }

    /// Takes in a key press: the cursor or a mark moves, or the session ends
    /// with its result.
    pub fn handle_key(&mut self, press: KeyPress) -> (r: Step<Option<Vec<usize>>>)
        requires
            old(self).wf(),
        ensures
            final(self).wf(),
            (final(self)@, step_view(r)) == multi_step(old(self)@, press),
    {
        match multi_action(press) {
            Action::MoveUp => {
                self.move_up();
                Step::Continue
            },
            Action::MoveDown => {
                self.move_down();
                Step::Continue
            },
            Action::ToggleCurrent => {
                self.toggle_current();
                Step::Continue
            },
            Action::SelectAll => {
                self.select_all();
                Step::Continue
            },
            Action::DeselectAll => {
                self.deselect_all();
                Step::Continue
            },
            Action::Confirm => Step::Finish(self.confirm()),
            Action::Cancel => Step::Finish(self.cancel()),
            Action::Ignore => Step::Continue,
        }
    }

    /// The rows as they are drawn: each with its check box, the row under the
    /// cursor marked out.
    pub fn build_list_items(&self) -> (r: Vec<Row>)
        requires
            self.wf(),
        ensures
            r@.map_values(|row: Row| row@) == multi_rows(self@),
    {
        let items = self.model.items();
        let cursor = self.model.selected();
        let spinner = self.model.spinner_char();
        let mut rows: Vec<Row> = Vec::new();
        let mut i: usize = 0;
        while i < items.len()
            invariant
                i <= items.len(),
                items.len() == self.selected.len(),
                item_views(items@) == self@.model.items,
                cursor == self@.model.cursor,
                spinner == SPINNER_FRAMES@[self@.model.frame as int],
                rows@.map_values(|row: Row| row@) == multi_rows(self@).take(i as int),
            decreases items.len() - i,
        {
            let is_selected = match cursor {
                Some(c) => c == i,
                None => false,
            };
            let row = build_worktree_list_item(
                items[i].branch.as_str(),
                items[i].status,
                &items[i].summary_state,
                self.selected[i],
                true,
                is_selected,
                spinner,
            );
            let ghost shown = row@;
            let ghost before = rows@.map_values(|row: Row| row@);
            proof {
                assert(item_views(items@)[i as int] == items@[i as int]@);
                assert(shown == multi_rows(self@)[i as int]);
            }
            rows.push(row);
            assert(rows@.map_values(|row: Row| row@) =~= before.push(shown));
            assert(before.push(shown) =~= multi_rows(self@).take(i + 1));
            i = i + 1;
        }
        assert(multi_rows(self@).take(items.len() as int) =~= multi_rows(self@));
        rows
    }

    /// The title of the list, with what is still being loaded.
    pub fn build_title(&self) -> (r: String)
        requires
            self.wf(),
        ensures
            r@ == title_text(
                MULTI_TITLE@,
                count_unknown_status(self@.model.items),
                count_summaries_in_flight(self@.model.items),
            ),
    {
        build_title(MULTI_TITLE, self.model.pending_status(), self.model.pending_summaries())
    }
}

} // verus!
