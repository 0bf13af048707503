//! Picking one row: the cursor moves, Enter takes the row under it.

use crate::git::WorktreeStatus;
use crate::tui::keys::{single_action, single_action_of, Action, KeyPress, Step};
use crate::tui::model::{
    apply_all, apply_update, count_summaries_in_flight, count_unknown_status,
};
use crate::tui::render::{build_title, build_worktree_list_item, row_lines, title_text, Row};
use crate::tui::selection::{
    moved_down, moved_up, ticked, valid_view, with_items, ModelView, SelectionModel,
    SPINNER_FRAMES,
};
use crate::tui::{item_views, update_views, UpdateView, WorktreeItem, WorktreeUpdate};
use tokio::sync::mpsc::UnboundedReceiver;
use vstd::prelude::*;

verus! {

/// How a single selection ended.
#[derive(Clone, Copy, Debug, PartialEq, Eq, Structural)]
pub enum SingleOutcome {
    /// Enter was pressed on this row.
    Chosen(usize),
    /// Enter was pressed and there was no row to take.
    NothingToChoose,
    /// The user turned the selection down.
    Declined,
}

impl SingleOutcome {
    /// The row to act on, if any: only an outcome that chose a row has one.
    pub open spec fn spec_index(self) -> Option<usize> {
        match self {
            SingleOutcome::Chosen(row) => Some(row),
            SingleOutcome::NothingToChoose => None,
            SingleOutcome::Declined => None,
        }
    }

    /// The row to act on, if any.
    #[verifier::when_used_as_spec(spec_index)]
    pub fn index(self) -> (r: Option<usize>)
        ensures
            r == self.spec_index(),
    {
        match self {
            SingleOutcome::Chosen(row) => Some(row),
            SingleOutcome::NothingToChoose => None,
            SingleOutcome::Declined => None,
        }
    }
}

/// The title of the list while one row is being picked.
pub const SINGLE_TITLE: &'static str =
    " Select a session (\u{2191}/\u{2193} navigate, Enter select, q quit)";

/// What Enter gives: the row under the cursor, or word that there is none.
pub open spec fn confirmed(v: ModelView) -> SingleOutcome {
    match v.cursor {
        Some(row) => SingleOutcome::Chosen(row),
        None => SingleOutcome::NothingToChoose,
    }
}

/// The session after a key press, and whether it goes on.
pub open spec fn single_step(v: ModelView, press: KeyPress) -> (ModelView, Step<SingleOutcome>) {
    match single_action_of(press) {
        Action::MoveUp => (moved_up(v), Step::Continue),
        Action::MoveDown => (moved_down(v), Step::Continue),
        Action::Confirm => (v, Step::Finish(confirmed(v))),
        Action::Cancel => (v, Step::Finish(SingleOutcome::Declined)),
        _ => (v, Step::Continue),
    }
}

/// The rows of a list without check boxes, as they are drawn.
pub open spec fn single_rows(v: ModelView) -> Seq<Seq<Seq<crate::tui::render::SegmentView>>> {
    Seq::new(
        v.items.len(),
        |i: int|
            row_lines(
                v.items[i].branch,
                v.items[i].status,
                v.items[i].summary,
                false,
                false,
                v.cursor == Some(i as usize),
                SPINNER_FRAMES@[v.frame as int],
            ),
    )
}

/// The state of a session in which one row is picked.
pub struct SingleSelectApp {
    model: SelectionModel,
}

impl View for SingleSelectApp {
    type V = ModelView;

    closed spec fn view(&self) -> ModelView {
        self.model@
    }
}

impl SingleSelectApp {
    /// The invariant of the session.
    pub closed spec fn wf(&self) -> bool {
        self.model.wf()
    }

    /// A session in good order has a cursor on a row exactly when there is one.
    pub proof fn lemma_wf_view(&self)
        requires
            self.wf(),
        ensures
            valid_view(self@),
    {
    }

    /// A session over `items`, with the cursor on the first row if there is one.
    pub fn new(items: Vec<WorktreeItem>) -> (r: Self)
        ensures
            r.wf(),
            r@.items == item_views(items@),
            r@.cursor == (if items.len() > 0 {
                Some(0usize)
            } else {
                None
            }),
            r@.frame == 0,
    {
        SingleSelectApp { model: SelectionModel::new(items) }
    }

    /// The rows, in their fixed order.
    pub fn items(&self) -> (r: &Vec<WorktreeItem>)
        ensures
            item_views(r@) == self@.items,
    {
        self.model.items()
    }

    /// Number of rows whose status is not known yet.
    pub fn pending_status(&self) -> (r: usize)
        requires
            self.wf(),
        ensures
            r == count_unknown_status(self@.items),
    {
        self.model.pending_status()
    }

    /// Number of rows whose summary is in flight.
    pub fn pending_summaries(&self) -> (r: usize)
        requires
            self.wf(),
        ensures
            r == count_summaries_in_flight(self@.items),
    {
        self.model.pending_summaries()
    }

    /// Moves the animation one frame on.
    pub fn tick(&mut self)
        requires
            old(self).wf(),
        ensures
            final(self).wf(),
            final(self)@ == ticked(old(self)@),
    {
        self.model.tick();
    }

    /// The glyph of the current animation frame.
    pub fn spinner_char(&self) -> (r: char)
        requires
            self.wf(),
        ensures
            r == SPINNER_FRAMES@[self@.frame as int],
    {
        self.model.spinner_char()
    }

    /// Takes in the status of the row at `index`; does nothing if there is no such row.
    pub fn update_status(&mut self, index: usize, status: WorktreeStatus)
        requires
            old(self).wf(),
        ensures
            final(self).wf(),
            final(self)@ == with_items(
                old(self)@,
                apply_update(old(self)@.items, UpdateView::Status { index, status }),
            ),
    {
        self.model.update_status(index, status);
    }

    /// Notes that the summary of the row at `index` is being written.
    pub fn update_summary_started(&mut self, index: usize)
        requires
            old(self).wf(),
        ensures
            final(self).wf(),
            final(self)@ == with_items(
                old(self)@,
                apply_update(old(self)@.items, UpdateView::SummaryStarted { index }),
            ),
    {
        self.model.update_summary_started(index);
    }

    /// Takes in the summary of the row at `index`.
    pub fn update_summary(&mut self, index: usize, summary: String)
        requires
            old(self).wf(),
        ensures
            final(self).wf(),
            final(self)@ == with_items(
                old(self)@,
                apply_update(
                    old(self)@.items,
                    UpdateView::Summary { index, summary: summary@ },
                ),
            ),
    {
        self.model.update_summary(index, summary);
    }

    /// Takes in one update, whatever its kind.
    pub fn apply(&mut self, update: WorktreeUpdate)
        requires
            old(self).wf(),
        ensures
            final(self).wf(),
            final(self)@ == with_items(old(self)@, apply_update(old(self)@.items, update@)),
    {
        self.model.apply(update);
    }

    /// Takes in a batch of updates in the order given.
    pub fn apply_all(&mut self, updates: Vec<WorktreeUpdate>)
        requires
            old(self).wf(),
        ensures
            final(self).wf(),
            final(self)@ == with_items(
                old(self)@,
                apply_all(old(self)@.items, update_views(updates@)),
            ),
    {
        self.model.apply_all(updates);
    }

    /// Takes in the updates that are waiting in the channel, in the order
    /// they were sent, without waiting for more; stops after `limit` of
    /// them. Returns how many were taken in.
    pub fn drain(&mut self, updates: &mut UnboundedReceiver<WorktreeUpdate>, limit: usize) -> (n:
        usize)
        requires
            old(self).wf(),
        ensures
            final(self).wf(),
            n <= limit,
            exists|received: Seq<UpdateView>|
                received.len() == n && final(self)@ == #[trigger] with_items(
                    old(self)@,
                    apply_all(old(self)@.items, received),
                ),
    {
        self.model.drain(updates, limit)
    }

    /// Moves the cursor one row up; it stays on the first row.
    pub fn move_up(&mut self)
        requires
            old(self).wf(),
        ensures
            final(self).wf(),
            final(self)@ == moved_up(old(self)@),
    {
        self.model.move_up();
    }

    /// Moves the cursor one row down; it stays on the last row.
    pub fn move_down(&mut self)
        requires
            old(self).wf(),
        ensures
            final(self).wf(),
            final(self)@ == moved_down(old(self)@),
    {
        self.model.move_down();
    }

    /// The row under the cursor.
    pub fn selected(&self) -> (r: Option<usize>)
        requires
            self.wf(),
        ensures
            r == self@.cursor,
            r is Some <==> self@.items.len() > 0,
            r matches Some(row) ==> row < self@.items.len(),
    {
        self.model.selected()
    }

    /// What Enter gives: the row under the cursor, or word that the list is empty.
    pub fn confirm(&self) -> (r: SingleOutcome)
        requires
            self.wf(),
        ensures
            r == confirmed(self@),
            self@.items.len() == 0 <==> r == SingleOutcome::NothingToChoose,
            r matches SingleOutcome::Chosen(row) ==> row < self@.items.len(),
            r != SingleOutcome::Declined,
    {
        match self.model.selected() {
            Some(row) => SingleOutcome::Chosen(row),
            None => SingleOutcome::NothingToChoose,
        }
    }

    /// What turning the selection down gives.
    pub fn cancel(&self) -> (r: SingleOutcome)
        ensures
            r == SingleOutcome::Declined,
    {
        SingleOutcome::Declined
    }

    /// Takes in a key press: the cursor moves, or the session ends with its outcome.
    pub fn handle_key(&mut self, press: KeyPress) -> (r: Step<SingleOutcome>)
        requires
            old(self).wf(),
        ensures
            final(self).wf(),
            (final(self)@, r) == single_step(old(self)@, press),
    {
        match single_action(press) {
            Action::MoveUp => {
                self.model.move_up();
                Step::Continue
            },
            Action::MoveDown => {
                self.model.move_down();
                Step::Continue
            },
            Action::Confirm => Step::Finish(self.confirm()),
            Action::Cancel => Step::Finish(self.cancel()),
            _ => Step::Continue,
        }
    }

    /// The rows as they are drawn: no check boxes, the row under the cursor marked.
    pub fn build_list_items(&self) -> (r: Vec<Row>)
        requires
            self.wf(),
        ensures
            r@.map_values(|row: Row| row@) == single_rows(self@),
    {
        let items = self.model.items();
        let cursor = self.model.selected();
        let spinner = self.model.spinner_char();
        let mut rows: Vec<Row> = Vec::new();
        let mut i: usize = 0;
        while i < items.len()
            invariant
                i <= items.len(),
                item_views(items@) == self@.items,
                cursor == self@.cursor,
                spinner == SPINNER_FRAMES@[self@.frame as int],
                rows@.map_values(|row: Row| row@) == single_rows(self@).take(i as int),
            decreases items.len() - i,
        {
            let is_selected = match cursor {
                Some(c) => c == i,
                None => false,
            };
            let row = build_worktree_list_item(
                items[i].branch.as_str(),
                items[i].status,
                &items[i].summary_state,
                false,
                false,
                is_selected,
                spinner,
            );
            let ghost shown = row@;
            let ghost before = rows@.map_values(|row: Row| row@);
            proof {
                assert(item_views(items@)[i as int] == items@[i as int]@);
                assert(shown == single_rows(self@)[i as int]);
            }
            rows.push(row);
            assert(rows@.map_values(|row: Row| row@) =~= before.push(shown));
            assert(before.push(shown) =~= single_rows(self@).take(i + 1));
            i = i + 1;
        }
        assert(single_rows(self@).take(items.len() as int) =~= single_rows(self@));
        rows
    }

    /// The title of the list, with what is still being loaded.
    pub fn build_title(&self) -> (r: String)
        requires
            self.wf(),
        ensures
            r@ == title_text(
                SINGLE_TITLE@,
                count_unknown_status(self@.items),
                count_summaries_in_flight(self@.items),
            ),
    {
        build_title(SINGLE_TITLE, self.model.pending_status(), self.model.pending_summaries())
    }
}

/// A selection over no rows never yields a row, whatever key ends it.
pub proof fn law_empty_list_yields_nothing(v: ModelView, press: KeyPress)
    requires
        valid_view(v),
        v.items.len() == 0,
    ensures
        single_step(v, press).0 == v,
        single_step(v, press).1 matches Step::Finish(outcome) ==> outcome.spec_index() is None,
{
}

/// Turning a selection down is told apart from confirming one, whatever the list.
pub proof fn law_declined_is_not_confirmed(v: ModelView)
    ensures
        confirmed(v) != SingleOutcome::Declined,
{
}

} // verus!
