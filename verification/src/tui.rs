//! The selection engine: the rows of the picker, the updates that background
//! probes feed into them, and the two selection modes built on top.

use crate::git::WorktreeStatus;
use vstd::prelude::*;

pub mod channel;
pub mod keys;
pub mod laws;
pub mod model;
pub mod multi;
pub mod probe;
pub mod render;
pub mod selection;
pub mod single;

verus! {

/// Where the summary of a row's uncommitted work stands.
///
/// A state only ever moves forward: `Absent`, `Queued`, `Summarizing`, `Done`.
#[derive(Clone, Debug, PartialEq, Eq)]
pub enum SummaryState {
    /// No summary is needed, or none has been asked for yet.
    Absent,
    /// A summary will be asked for.
    Queued,
    /// The summary is being written.
    Summarizing,
    /// The summary is there.
    Done(String),
}

/// `SummaryState` with its text as a sequence of characters.
pub enum SummaryView {
    Absent,
    Queued,
    Summarizing,
    Done(Seq<char>),
}

impl View for SummaryState {
    type V = SummaryView;

    open spec fn view(&self) -> SummaryView {
        match self {
            SummaryState::Absent => SummaryView::Absent,
            SummaryState::Queued => SummaryView::Queued,
            SummaryState::Summarizing => SummaryView::Summarizing,
            SummaryState::Done(text) => SummaryView::Done(text@),
        }
    }
}

/// One row of the picker: a session branch, its last known status and the
/// state of its summary.
#[derive(Clone, Debug, PartialEq, Eq)]
pub struct WorktreeItem {
    pub branch: String,
    /// `None` until the first status probe has come back.
    pub status: Option<WorktreeStatus>,
    pub summary_state: SummaryState,
}

/// `WorktreeItem` as a mathematical value.
pub struct ItemView {
    pub branch: Seq<char>,
    pub status: Option<WorktreeStatus>,
    pub summary: SummaryView,
}

impl View for WorktreeItem {
    type V = ItemView;

    open spec fn view(&self) -> ItemView {
        ItemView { branch: self.branch@, status: self.status, summary: self.summary_state@ }
    }
}

/// One fact a background probe has learned about the row at `index`.
#[derive(Clone, Debug, PartialEq, Eq)]
pub enum WorktreeUpdate {
    /// The status probe has come back.
    Status { index: usize, status: WorktreeStatus },
    /// The summary probe has started.
    SummaryStarted { index: usize },
    /// The summary probe has come back with a text.
    Summary { index: usize, summary: String },
}

/// `WorktreeUpdate` as a mathematical value.
pub enum UpdateView {
    Status { index: usize, status: WorktreeStatus },
    SummaryStarted { index: usize },
    Summary { index: usize, summary: Seq<char> },
}

impl View for WorktreeUpdate {
    type V = UpdateView;

    open spec fn view(&self) -> UpdateView {
        match self {
            WorktreeUpdate::Status { index, status } => UpdateView::Status {
                index: *index,
                status: *status,
            },
            WorktreeUpdate::SummaryStarted { index } => UpdateView::SummaryStarted {
                index: *index,
            },
            WorktreeUpdate::Summary { index, summary } => UpdateView::Summary {
                index: *index,
                summary: summary@,
            },
        }
    }
}

/// The views of a vector of rows.
pub open spec fn item_views(items: Seq<WorktreeItem>) -> Seq<ItemView> {
    items.map_values(|item: WorktreeItem| item@)
}

/// The views of a vector of updates.
pub open spec fn update_views(updates: Seq<WorktreeUpdate>) -> Seq<UpdateView> {
    updates.map_values(|update: WorktreeUpdate| update@)
}

} // verus!
