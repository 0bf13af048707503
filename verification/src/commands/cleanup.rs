//! Cleaning up: which worktrees go without asking, and what has to be asked
//! before the ones the user picked go.

use crate::git::WorktreeStatus;
use crate::text::{decimal, labelled_number, push_decimal};
use crate::tui::render::Tone;
use vstd::prelude::*;

verus! {

/// What has been learned about a worktree that is up for automatic cleanup.
#[derive(Clone, Copy, Debug, PartialEq, Eq, Structural)]
pub enum CleanupEvent {
    /// Its status.
    Status(WorktreeStatus),
    /// Whether it is level with the remote.
    Synced(bool),
    /// Whether nothing was done in it.
    Unused(bool),
}

/// What to do next with a worktree that is up for automatic cleanup.
#[derive(Clone, Copy, Debug, PartialEq, Eq, Structural)]
pub enum CleanupAction {
    /// Remove it: its directory is missing.
    RemoveOrphaned,
    /// Remove it: the remote has all of it.
    RemoveSynced,
    /// Remove it: nothing was done in it.
    RemoveUnused,
    /// Keep it: it has commits the remote lacks.
    KeepHasCommits,
    /// Keep it: it has uncommitted work.
    KeepLocalChanges,
    /// Find out whether it is level with the remote.
    ProbeSynced,
    /// Find out whether anything was done in it.
    ProbeUnused,
}

impl CleanupAction {
    /// The worktree is to be removed.
    pub open spec fn spec_removes(self) -> bool {
        self == CleanupAction::RemoveOrphaned || self == CleanupAction::RemoveSynced || self
            == CleanupAction::RemoveUnused
    }

    /// Whether the worktree is to be removed.
    #[verifier::when_used_as_spec(spec_removes)]
    pub fn removes(self) -> (r: bool)
        ensures
            r == self.spec_removes(),
    {
        match self {
            CleanupAction::RemoveOrphaned => true,
            CleanupAction::RemoveSynced => true,
            CleanupAction::RemoveUnused => true,
            _ => false,
        }
    }

    /// The worktree is done with: removed or kept.
    pub open spec fn spec_is_final(self) -> bool {
        self != CleanupAction::ProbeSynced && self != CleanupAction::ProbeUnused
    }

    /// Whether the worktree is done with.
    #[verifier::when_used_as_spec(spec_is_final)]
    pub fn is_final(self) -> (r: bool)
        ensures
            r == self.spec_is_final(),
    {
        match self {
            CleanupAction::ProbeSynced => false,
            CleanupAction::ProbeUnused => false,
            _ => true,
        }
    }
}

/// The step that follows an event: a missing directory goes at once, unsafe
/// work stays at once, and a safe worktree is probed, first for being level
/// with the remote, then for being unused.
pub open spec fn cleanup_step(event: CleanupEvent) -> CleanupAction {
    match event {
        CleanupEvent::Status(status) => if status.is_orphaned {
            CleanupAction::RemoveOrphaned
        } else if status.spec_is_safe_to_delete() {
            CleanupAction::ProbeSynced
        } else {
            CleanupAction::KeepLocalChanges
        },
        CleanupEvent::Synced(synced) => if synced {
            CleanupAction::RemoveSynced
        } else {
            CleanupAction::ProbeUnused
        },
        CleanupEvent::Unused(unused) => if unused {
            CleanupAction::RemoveUnused
        } else {
            CleanupAction::KeepHasCommits
        },
    }
}

/// Where automatic cleanup ends for a worktree with this status and these
/// answers from the probes.
pub open spec fn cleanup_verdict(status: WorktreeStatus, synced: bool, unused: bool) -> CleanupAction {
    let first = cleanup_step(CleanupEvent::Status(status));
    if first != CleanupAction::ProbeSynced {
        first
    } else {
        let second = cleanup_step(CleanupEvent::Synced(synced));
        if second != CleanupAction::ProbeUnused {
            second
        } else {
            cleanup_step(CleanupEvent::Unused(unused))
        }
    }
}

/// What to do next with a worktree, given what was just learned about it.
pub fn next_cleanup_action(event: CleanupEvent) -> (r: CleanupAction)
    ensures
        r == cleanup_step(event),
{
    match event {
        CleanupEvent::Status(status) => if status.is_orphaned {
            CleanupAction::RemoveOrphaned
        } else if status.is_safe_to_delete() {
            CleanupAction::ProbeSynced
        } else {
            CleanupAction::KeepLocalChanges
        },
        CleanupEvent::Synced(synced) => if synced {
            CleanupAction::RemoveSynced
        } else {
            CleanupAction::ProbeUnused
        },
        CleanupEvent::Unused(unused) => if unused {
            CleanupAction::RemoveUnused
        } else {
            CleanupAction::KeepHasCommits
        },
    }
}

/// Automatic cleanup always ends, and it removes a worktree exactly when its
/// directory is missing, or when it is safe to delete and either level with
/// the remote or unused.
pub proof fn law_automatic_cleanup(status: WorktreeStatus, synced: bool, unused: bool)
    ensures
        cleanup_verdict(status, synced, unused).spec_is_final(),
        cleanup_verdict(status, synced, unused).spec_removes() <==> (status.is_orphaned || (
        status.spec_is_safe_to_delete() && (synced || unused))),
{
}

/// Automatic cleanup never removes a worktree with uncommitted work whose
/// directory is there.
pub proof fn law_uncommitted_work_is_kept(status: WorktreeStatus, synced: bool, unused: bool)
    requires
        status.has_uncommitted,
        !status.is_orphaned,
    ensures
        cleanup_verdict(status, synced, unused) == CleanupAction::KeepLocalChanges,
{
}

/// How an action that is done with a worktree is told: a glyph, its tone and
/// the words behind the branch name.
pub fn describe(action: CleanupAction) -> (r: Option<(&'static str, Tone, &'static str)>)
    ensures
        r is Some <==> action.spec_is_final(),
        r matches Some(told) ==> told.0@ == (match action {
            CleanupAction::RemoveOrphaned => "\u{2717}"@,
            CleanupAction::RemoveSynced => "\u{2713}"@,
            CleanupAction::RemoveUnused => "\u{2713}"@,
            CleanupAction::KeepHasCommits => "-"@,
            _ => "!"@,
        }) && told.1 == (match action {
            CleanupAction::RemoveOrphaned => Tone::Danger,
            CleanupAction::RemoveSynced => Tone::Clean,
            CleanupAction::RemoveUnused => Tone::Clean,
            CleanupAction::KeepHasCommits => Tone::Dim,
            _ => Tone::Uncommitted,
        }) && told.2@ == (match action {
            CleanupAction::RemoveOrphaned => " orphaned (directory missing), removing..."@,
            CleanupAction::RemoveSynced => " synced, removing..."@,
            CleanupAction::RemoveUnused => " unused, removing..."@,
            CleanupAction::KeepHasCommits => " keeping (has commits)"@,
            _ => " keeping (has local changes)"@,
        }),
{
    match action {
        CleanupAction::RemoveOrphaned => Some(
            ("\u{2717}", Tone::Danger, " orphaned (directory missing), removing..."),
        ),
        CleanupAction::RemoveSynced => Some(("\u{2713}", Tone::Clean, " synced, removing...")),
        CleanupAction::RemoveUnused => Some(("\u{2713}", Tone::Clean, " unused, removing...")),
        CleanupAction::KeepHasCommits => Some(("-", Tone::Dim, " keeping (has commits)")),
        CleanupAction::KeepLocalChanges => Some(
            ("!", Tone::Uncommitted, " keeping (has local changes)"),
        ),
        CleanupAction::ProbeSynced => None,
        CleanupAction::ProbeUnused => None,
    }
}

/// A status that was just probed shows work that deleting would lose.
pub open spec fn at_risk(status: Option<WorktreeStatus>) -> bool {
    status matches Some(s) && s.spec_has_local_changes()
}

/// The positions, in ascending order, of the statuses that show work at risk.
pub open spec fn positions_at_risk(statuses: Seq<Option<WorktreeStatus>>) -> Seq<usize>
    decreases statuses.len(),
{
    if statuses.len() == 0 {
        Seq::empty()
    } else if at_risk(statuses.last()) {
        positions_at_risk(statuses.drop_last()).push((statuses.len() - 1) as usize)
    } else {
        positions_at_risk(statuses.drop_last())
    }
}

/// Which of the picked worktrees would lose work: `statuses` holds, for each
/// picked worktree in order, the status probed after the selection (`None`
/// where the probe failed); the result holds the positions to ask about.
pub fn worktrees_with_changes(statuses: &Vec<Option<WorktreeStatus>>) -> (r: Vec<usize>)
    ensures
        r@ == positions_at_risk(statuses@),
        r.len() > 0 <==> exists|k: int| 0 <= k < statuses.len() && at_risk(#[trigger] statuses[k]),
{
    let mut flagged: Vec<usize> = Vec::new();
    let mut i: usize = 0;
    while i < statuses.len()
        invariant
            i <= statuses.len(),
            flagged@ == positions_at_risk(statuses@.take(i as int)),
            flagged.len() > 0 <==> exists|k: int| 0 <= k < i && at_risk(#[trigger] statuses[k]),
        decreases statuses.len() - i,
    {
        proof {
            assert(statuses@.take(i + 1).drop_last() =~= statuses@.take(i as int));
        }
        let risky = match statuses[i] {
            Some(status) => status.has_local_changes(),
            None => false,
        };
        if risky {
            flagged.push(i);
            assert(at_risk(statuses[i as int]));
        }
        i = i + 1;
    }
    assert(statuses@.take(statuses.len() as int) =~= statuses@);
    flagged
}

/// The picked worktrees may be deleted: none of them would lose work, or the
/// user said yes to losing it. Any other answer keeps all of them.
pub open spec fn deletion_allowed(at_risk_count: nat, said_yes: bool) -> bool {
    at_risk_count == 0 || said_yes
}

/// Whether the user has to be asked before the picked worktrees are deleted.
pub fn needs_confirmation(flagged: &Vec<usize>) -> (r: bool)
    ensures
        r == (flagged.len() > 0),
{
    flagged.len() > 0
}

/// Whether the picked worktrees may be deleted, given the answer to the
/// question; where nothing had to be asked the answer does not count.
pub fn may_proceed(flagged: &Vec<usize>, said_yes: bool) -> (r: bool)
    ensures
        r == deletion_allowed(flagged.len() as nat, said_yes),
{
    flagged.len() == 0 || said_yes
}

/// How many deletions went well and how many did not.
#[derive(Clone, Copy, Debug, PartialEq, Eq, Structural)]
pub struct Tally {
    pub deleted: usize,
    pub failed: usize,
}

impl Tally {
    /// The tally before the first deletion.
    pub fn new() -> (r: Tally)
        ensures
            r == (Tally { deleted: 0, failed: 0 }),
    {
        Tally { deleted: 0, failed: 0 }
    }

    /// The tally after one more deletion. A failure is counted and stops nothing.
    pub fn record(self, succeeded: bool) -> (r: Tally)
        requires
            self.deleted + self.failed < usize::MAX,
        ensures
            r.deleted == self.deleted + (if succeeded {
                1int
            } else {
                0int
            }),
            r.failed == self.failed + (if succeeded {
                0int
            } else {
                1int
            }),
    {
        if succeeded {
            Tally { deleted: self.deleted + 1, failed: self.failed }
        } else {
            Tally { deleted: self.deleted, failed: self.failed + 1 }
        }
    }
}

/// A selection in which some worktree would lose work is never deleted on
/// anything but an explicit yes.
pub proof fn law_gate_blocks_without_yes(at_risk_count: nat)
    requires
        at_risk_count > 0,
    ensures
        !deletion_allowed(at_risk_count, false),
        deletion_allowed(at_risk_count, true),
{
}

/// What is said before the question: how many of the picked worktrees would
/// lose work.
pub fn gate_heading(flagged: &Vec<usize>) -> (r: String)
    ensures
        r@ == " "@ + decimal(flagged.len() as nat)
            + " worktree(s) have uncommitted or unpushed changes:"@,
{
    let mut out = labelled_number(" ", flagged.len() as u128);
    out.append(" worktree(s) have uncommitted or unpushed changes:");
    out
}

/// The counts that tell what a worktree would lose: files modified, files
/// untracked and commits ahead of the remote.
pub open spec fn risk_counts_text(status: WorktreeStatus) -> Seq<char> {
    decimal(status.modified_files as nat) + " modified, "@ + decimal(
        status.untracked_files as nat,
    ) + " untracked, "@ + decimal(status.commits_ahead as nat) + " ahead"@
}

/// How one worktree that would lose work is named before the question: its
/// branch and, in brackets, its counts of modified files, untracked files
/// and commits ahead.
pub fn gate_entry(branch: &str, status: &WorktreeStatus) -> (r: String)
    ensures
        r@ == "  - "@ + branch@ + " ("@ + risk_counts_text(*status) + ")"@,
{
    let mut counts = String::new();
    push_decimal(&mut counts, status.modified_files as u128);
    counts.append(" modified, ");
    push_decimal(&mut counts, status.untracked_files as u128);
    counts.append(" untracked, ");
    push_decimal(&mut counts, status.commits_ahead as u128);
    counts.append(" ahead");
    assert(counts@ =~= risk_counts_text(*status));
    let mut out = String::from_str("  - ");
    out.append(branch);
    out.append(" (");
    out.append(counts.as_str());
    out.append(")");
    out
}

} // verus!
