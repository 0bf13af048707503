//! The state both selection modes share: the rows in their fixed order, the
//! cursor, the animation frame and the two counts of rows still waiting.

use crate::git::WorktreeStatus;
use crate::tui::channel::try_receive;
use crate::tui::model::{
    apply_all, apply_update, count_summaries_in_flight, count_unknown_status,
    lemma_apply_all_push, lemma_counts_after_replace, lemma_counts_bounded,
};
use crate::tui::{
    item_views, update_views, ItemView, SummaryState, UpdateView, WorktreeItem, WorktreeUpdate,
};
use tokio::sync::mpsc::UnboundedReceiver;
use vstd::prelude::*;

verus! {

/// The frames of the waiting animation, in the order they are shown.
pub const SPINNER_FRAMES: [char; 10] = [
    '\u{280b}',
    '\u{2819}',
    '\u{2839}',
    '\u{2838}',
    '\u{283c}',
    '\u{2834}',
    '\u{2826}',
    '\u{2827}',
    '\u{2807}',
    '\u{280f}',
];

/// Rows, cursor and counters of one selection session.
pub struct SelectionModel {
    items: Vec<WorktreeItem>,
    cursor: Option<usize>,
    pending_status: usize,
    pending_summaries: usize,
    frame: usize,
}

/// What a `SelectionModel` stands for. The counters are not part of it: they
/// are the two counts of `crate::tui::model` taken over `items`.
pub struct ModelView {
    pub items: Seq<ItemView>,
    pub cursor: Option<usize>,
    pub frame: usize,
}

/// The cursor is on a row exactly when there is one, and the frame is one of
/// the animation's.
pub open spec fn valid_view(v: ModelView) -> bool {
    &&& v.frame < SPINNER_FRAMES@.len()
    &&& v.cursor is Some <==> v.items.len() > 0
    &&& v.cursor matches Some(c) ==> c < v.items.len()
}

/// The cursor one row up, stopping at the first row.
pub open spec fn moved_up(v: ModelView) -> ModelView {
    ModelView {
        items: v.items,
        cursor: if v.items.len() == 0 {
            v.cursor
        } else {
            match v.cursor {
                Some(c) => Some(
                    if c > 0 {
                        (c - 1) as usize
                    } else {
                        0usize
                    },
                ),
                None => Some(0usize),
            }
        },
        frame: v.frame,
    }
}

/// The cursor one row down, stopping at the last row.
pub open spec fn moved_down(v: ModelView) -> ModelView {
    ModelView {
        items: v.items,
        cursor: if v.items.len() == 0 {
            v.cursor
        } else {
            match v.cursor {
                Some(c) => Some(
                    if c + 1 < v.items.len() {
                        (c + 1) as usize
                    } else {
                        (v.items.len() - 1) as usize
                    },
                ),
                None => Some(0usize),
            }
        },
        frame: v.frame,
    }
}

/// The animation one frame on, starting over after the last frame.
pub open spec fn ticked(v: ModelView) -> ModelView {
    ModelView {
        items: v.items,
        cursor: v.cursor,
        frame: if v.frame + 1 < SPINNER_FRAMES@.len() {
            (v.frame + 1) as usize
        } else {
            0usize
        },
    }
}

/// The same session with its rows replaced.
pub open spec fn with_items(v: ModelView, items: Seq<ItemView>) -> ModelView {
    ModelView { items, cursor: v.cursor, frame: v.frame }
}

impl View for SelectionModel {
    type V = ModelView;

    closed spec fn view(&self) -> ModelView {
        ModelView { items: item_views(self.items@), cursor: self.cursor, frame: self.frame }
    }
}

impl SelectionModel {
    /// Each counter holds the count it stands for.
    pub closed spec fn counters_agree(&self) -> bool {
        &&& self.pending_status == count_unknown_status(item_views(self.items@))
        &&& self.pending_summaries == count_summaries_in_flight(item_views(self.items@))
    }

    /// The invariant of a session.
    pub open spec fn wf(&self) -> bool {
        &&& self.counters_agree()
        &&& valid_view(self@)
    }

    /// A session over `items`, in the order given, with the cursor on the
    /// first row if there is one.
    pub fn new(items: Vec<WorktreeItem>) -> (r: Self)
        ensures
            r.wf(),
            r@.items == item_views(items@),
            r@.cursor == (if items.len() > 0 {
                Some(0usize)
            } else {
                None
            }),
            r@.frame == 0,
    {
        let mut pending_status: usize = 0;
        let mut pending_summaries: usize = 0;
        let mut i: usize = 0;
        while i < items.len()
            invariant
                i <= items.len(),
                pending_status == count_unknown_status(item_views(items@).take(i as int)),
                pending_summaries == count_summaries_in_flight(item_views(items@).take(i as int)),
                pending_status <= i,
                pending_summaries <= i,
            decreases items.len() - i,
        {
            proof {
                let next = item_views(items@).take(i + 1);
                assert(next.drop_last() == item_views(items@).take(i as int));
                assert(next.last() == items@[i as int]@);
            }
            if items[i].status.is_none() {
                pending_status = pending_status + 1;
            }
            match items[i].summary_state {
                SummaryState::Queued => {
                    pending_summaries = pending_summaries + 1;
                },
                SummaryState::Summarizing => {
                    pending_summaries = pending_summaries + 1;
                },
                _ => {},
            }
            i = i + 1;
        }
        proof {
            assert(item_views(items@).take(items.len() as int) == item_views(items@));
        }
        let cursor = if items.len() > 0 {
            Some(0usize)
        } else {
            None
        };
        SelectionModel { items, cursor, pending_status, pending_summaries, frame: 0 }
    }

    /// The rows, in their fixed order.
    pub fn items(&self) -> (r: &Vec<WorktreeItem>)
        ensures
            item_views(r@) == self@.items,
    {
        &self.items
    }

    /// Number of rows.
    pub fn len(&self) -> (r: usize)
        ensures
            r == self@.items.len(),
    {
        self.items.len()
    }

    /// The row the cursor is on.
    pub fn selected(&self) -> (r: Option<usize>)
        ensures
            r == self@.cursor,
    {
        self.cursor
    }

    /// The current animation frame.
    pub fn frame(&self) -> (r: usize)
        ensures
            r == self@.frame,
    {
        self.frame
    }

    /// Number of rows whose status is not known yet.
    pub fn pending_status(&self) -> (r: usize)
        requires
            self.wf(),
        ensures
            r == count_unknown_status(self@.items),
    {
        self.pending_status
    }

    /// Number of rows whose summary is in flight.
    pub fn pending_summaries(&self) -> (r: usize)
        requires
            self.wf(),
        ensures
            r == count_summaries_in_flight(self@.items),
    {
        self.pending_summaries
    }

    /// Moves the animation one frame on.
    pub fn tick(&mut self)
        requires
            old(self).wf(),
        ensures
            final(self).wf(),
            final(self)@ == ticked(old(self)@),
    {
        self.frame = if self.frame + 1 < SPINNER_FRAMES.len() {
            self.frame + 1
        } else {
            0
        };
    }

    /// The glyph of the current animation frame.
    pub fn spinner_char(&self) -> (r: char)
        requires
            self.wf(),
        ensures
            r == SPINNER_FRAMES@[self@.frame as int],
    {
        SPINNER_FRAMES[self.frame]
    }

    /// Takes in the status of the row at `index`; does nothing if there is no such row.
    pub fn update_status(&mut self, index: usize, status: WorktreeStatus)
        requires
            old(self).wf(),
        ensures
            final(self).wf(),
            final(self)@ == with_items(
                old(self)@,
                apply_update(old(self)@.items, UpdateView::Status { index, status }),
            ),
    {
        if index < self.items.len() {
            let ghost before = item_views(self.items@);
            let ghost after = apply_update(before, UpdateView::Status { index, status });
            proof {
                lemma_counts_after_replace(before, index as int, after[index as int]);
                lemma_counts_bounded(before);
                lemma_counts_bounded(after);
            }
            let queue = status.needs_summary() && match self.items[index].summary_state {
                SummaryState::Absent => true,
                _ => false,
            };
            if queue {
                self.items[index].summary_state = SummaryState::Queued;
                self.pending_summaries = self.pending_summaries + 1;
            }
            if self.items[index].status.is_none() {
                self.pending_status = self.pending_status - 1;
            }
            self.items[index].status = Some(status);
            assert(item_views(self.items@) == after);
        }
    }

    /// Notes that the summary of the row at `index` is being written. Only a
    /// queued summary moves on; anything else is left as it is.
    pub fn update_summary_started(&mut self, index: usize)
        requires
            old(self).wf(),
        ensures
            final(self).wf(),
            final(self)@ == with_items(
                old(self)@,
                apply_update(old(self)@.items, UpdateView::SummaryStarted { index }),
            ),
    {
        if index < self.items.len() {
            let ghost before = item_views(self.items@);
            let ghost after = apply_update(before, UpdateView::SummaryStarted { index });
            proof {
                lemma_counts_after_replace(before, index as int, after[index as int]);
            }
            let queued = match self.items[index].summary_state {
                SummaryState::Queued => true,
                _ => false,
            };
            if queued {
                self.items[index].summary_state = SummaryState::Summarizing;
            }
            assert(item_views(self.items@) == after);
        }
    }

    /// Takes in the summary of the row at `index`. Only a summary in flight
    /// is completed; anything else is left as it is.
    pub fn update_summary(&mut self, index: usize, summary: String)
        requires
            old(self).wf(),
        ensures
            final(self).wf(),
            final(self)@ == with_items(
                old(self)@,
                apply_update(
                    old(self)@.items,
                    UpdateView::Summary { index, summary: summary@ },
                ),
            ),
    {
        if index < self.items.len() {
            let ghost before = item_views(self.items@);
            let ghost after = apply_update(
                before,
                UpdateView::Summary { index, summary: summary@ },
            );
            proof {
                lemma_counts_after_replace(before, index as int, after[index as int]);
                lemma_counts_bounded(before);
            }
            let in_flight = match self.items[index].summary_state {
                SummaryState::Queued => true,
                SummaryState::Summarizing => true,
                _ => false,
            };
            if in_flight {
                self.pending_summaries = self.pending_summaries - 1;
                self.items[index].summary_state = SummaryState::Done(summary);
            }
            assert(item_views(self.items@) == after);
        }
    }

    /// Takes in one update, whatever its kind.
    pub fn apply(&mut self, update: WorktreeUpdate)
        requires
            old(self).wf(),
        ensures
            final(self).wf(),
            final(self)@ == with_items(old(self)@, apply_update(old(self)@.items, update@)),
    {
        match update {
            WorktreeUpdate::Status { index, status } => self.update_status(index, status),
            WorktreeUpdate::SummaryStarted { index } => self.update_summary_started(index),
            WorktreeUpdate::Summary { index, summary } => self.update_summary(index, summary),
        }
    }

    /// Takes in a batch of updates in the order given.
    pub fn apply_all(&mut self, updates: Vec<WorktreeUpdate>)
        requires
            old(self).wf(),
        ensures
            final(self).wf(),
            final(self)@ == with_items(
                old(self)@,
                apply_all(old(self)@.items, update_views(updates@)),
            ),
    {
        let ghost all = updates@;
        for update in it: updates
            invariant
                self.wf(),
                it.seq() == all,
                self@ == with_items(
                    old(self)@,
                    apply_all(old(self)@.items, update_views(all.take(it.index() as int))),
                ),
        {
            proof {
                let next = update_views(all.take(it.index() + 1));
                assert(next.drop_last() == update_views(all.take(it.index() as int)));
                assert(next.last() == update@);
            }
            self.apply(update);
        }
        proof {
            assert(all.take(all.len() as int) == all);
        }
    }

    /// Takes in the updates that are waiting in the channel, in the order
    /// they were sent, without waiting for more; stops after `limit` of
    /// them. Returns how many were taken in.
    pub fn drain(&mut self, updates: &mut UnboundedReceiver<WorktreeUpdate>, limit: usize) -> (n:
        usize)
        requires
            old(self).wf(),
        ensures
            final(self).wf(),
            n <= limit,
            exists|received: Seq<UpdateView>|
                received.len() == n && final(self)@ == #[trigger] with_items(
                    old(self)@,
                    apply_all(old(self)@.items, received),
                ),
    {
        let ghost start = self@;
        let ghost mut received: Seq<UpdateView> = Seq::empty();
        let mut n: usize = 0;
        assert(self@ == with_items(start, apply_all(start.items, received)));
        while n < limit
            invariant
                self.wf(),
                n <= limit,
                received.len() == n,
                start == old(self)@,
                self@ == with_items(start, apply_all(start.items, received)),
            decreases limit - n,
        {
            match try_receive(updates) {
                Some(update) => {
                    proof {
                        lemma_apply_all_push(start.items, received, update@);
                        received = received.push(update@);
                    }
                    self.apply(update);
                    n = n + 1;
                },
                None => {
                    return n;
                },
            }
        }
        n
    }

    /// Moves the cursor one row up; it stays on the first row.
    pub fn move_up(&mut self)
        requires
            old(self).wf(),
        ensures
            final(self).wf(),
            final(self)@ == moved_up(old(self)@),
    {
        if self.items.len() == 0 {
            return ;
        }
        let row: usize = match self.cursor {
            Some(c) => if c > 0 {
                c - 1
            } else {
                0
            },
            None => 0,
        };
        self.cursor = Some(row);
    }

    /// Moves the cursor one row down; it stays on the last row.
    pub fn move_down(&mut self)
        requires
            old(self).wf(),
        ensures
            final(self).wf(),
            final(self)@ == moved_down(old(self)@),
    {
        if self.items.len() == 0 {
            return ;
        }
        let last: usize = self.items.len() - 1;
        let row: usize = match self.cursor {
            Some(c) => if c < last {
                c + 1
            } else {
                last
            },
            None => 0,
        };
        self.cursor = Some(row);
    }
}

} // verus!
