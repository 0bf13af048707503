use vibe::commands::cleanup::{
    gate_entry, gate_heading, may_proceed, needs_confirmation, worktrees_with_changes,
};
use vibe::git::WorktreeStatus;
use vibe::tui::keys::{Key, KeyPress, Step};
use vibe::tui::multi::MultiSelectApp;
use vibe::tui::{SummaryState, WorktreeItem};

fn rows(n: usize) -> Vec<WorktreeItem> {
    (0..n)
        .map(|i| WorktreeItem {
            branch: format!("session/{}", i),
            status: None,
            summary_state: SummaryState::Absent,
        })
        .collect()
}

fn press(k: Key) -> KeyPress {
    KeyPress { key: k, ctrl: false }
}

#[test]
fn select_all_then_confirm_returns_every_index_in_order() {
    for n in 1..6usize {
        let mut app = MultiSelectApp::new(rows(n));
        app.move_down();
        app.toggle_current();
        app.select_all();
        assert_eq!(app.confirm(), Some((0..n).collect::<Vec<usize>>()));
    }
}

#[test]
fn confirm_is_ascending_whatever_the_order_of_toggling() {
    let mut app = MultiSelectApp::new(rows(5));
    app.move_down();
    app.move_down();
    app.move_down();
    app.toggle_current();
    app.move_up();
    app.move_up();
    app.toggle_current();
    app.move_down();
    app.move_down();
    app.move_down();
    app.toggle_current();
    assert_eq!(app.get_selected_indices(), vec![1, 3, 4]);
    assert_eq!(app.confirm(), Some(vec![1, 3, 4]));
}

#[test]
fn confirm_with_nothing_selected_is_the_same_as_cancel() {
    let mut app = MultiSelectApp::new(rows(3));
    assert_eq!(app.confirm(), None);
    assert_eq!(app.confirm(), app.cancel());
    app.toggle_current();
    app.toggle_current();
    assert_eq!(app.confirm(), app.cancel());
    app.select_all();
    app.deselect_all();
    assert_eq!(app.handle_key(press(Key::Enter)), Step::Finish(None));
    assert_eq!(app.handle_key(press(Key::Esc)), Step::Finish(None));
    let mut empty = MultiSelectApp::new(Vec::new());
    empty.select_all();
    empty.toggle_current();
    assert_eq!(empty.confirm(), None);
    assert_eq!(empty.cursor(), None);
}

#[test]
fn toggling_zero_and_two_of_four_returns_both_and_fires_the_gate() {
    let mut app = MultiSelectApp::new(rows(4));
    assert_eq!(app.handle_key(press(Key::Char(' '))), Step::Continue);
    assert_eq!(app.handle_key(press(Key::Down)), Step::Continue);
    assert_eq!(app.handle_key(press(Key::Down)), Step::Continue);
    assert_eq!(app.handle_key(press(Key::Char(' '))), Step::Continue);
    assert_eq!(app.marks(), &vec![true, false, true, false]);
    let result = app.handle_key(press(Key::Enter));
    assert_eq!(result, Step::Finish(Some(vec![0, 2])));

    let clean = WorktreeStatus::default();
    let dirty = WorktreeStatus {
        has_uncommitted: true,
        modified_files: 2,
        ..WorktreeStatus::default()
    };
    let fresh = vec![Some(clean), Some(dirty)];
    let flagged = worktrees_with_changes(&fresh);
    assert_eq!(flagged, vec![1]);
    assert!(needs_confirmation(&flagged));
    assert!(!may_proceed(&flagged, false));
    assert!(may_proceed(&flagged, true));
    assert_eq!(gate_heading(&flagged), " 1 worktree(s) have uncommitted or unpushed changes:");
    let shown = WorktreeStatus { untracked_files: 14, commits_ahead: 1, ..dirty };
    assert_eq!(
        gate_entry("session/2", &shown),
        "  - session/2 (2 modified, 14 untracked, 1 ahead)"
    );
    assert_eq!(
        gate_entry("session/2", &clean),
        "  - session/2 (0 modified, 0 untracked, 0 ahead)"
    );
}

#[test]
fn gate_stays_shut_when_nothing_is_at_risk() {
    let unpushed = WorktreeStatus { has_unpushed: true, commits_ahead: 2, ..WorktreeStatus::default() };
    let fresh = vec![Some(WorktreeStatus::default()), None, Some(unpushed)];
    let flagged = worktrees_with_changes(&fresh);
    assert!(flagged.is_empty());
    assert!(!needs_confirmation(&flagged));
    assert!(may_proceed(&flagged, false));
}

#[test]
fn multi_keys_mark_and_unmark() {
    let mut app = MultiSelectApp::new(rows(3));
    assert_eq!(app.handle_key(press(Key::Char('a'))), Step::Continue);
    assert_eq!(app.marks(), &vec![true, true, true]);
    assert_eq!(app.handle_key(press(Key::Char('j'))), Step::Continue);
    assert_eq!(app.cursor(), Some(1));
    assert_eq!(app.handle_key(press(Key::Char(' '))), Step::Continue);
    assert_eq!(app.marks(), &vec![true, false, true]);
    assert_eq!(app.handle_key(press(Key::Char('n'))), Step::Continue);
    assert_eq!(app.marks(), &vec![false, false, false]);
    assert_eq!(app.handle_key(press(Key::Char('z'))), Step::Continue);
    assert_eq!(app.handle_key(KeyPress { key: Key::Char('c'), ctrl: true }), Step::Finish(None));
}

#[test]
fn multi_select_tracks_pending_counts() {
    let mut app = MultiSelectApp::new(rows(2));
    assert_eq!(app.pending_status(), 2);
    let dirty = WorktreeStatus { has_uncommitted: true, ..WorktreeStatus::default() };
    app.update_status(0, dirty);
    app.update_status(0, dirty);
    assert_eq!(app.pending_status(), 1);
    assert_eq!(app.pending_summaries(), 1);
    app.update_summary_started(0);
    app.update_summary(0, "text".to_string());
    assert_eq!(app.pending_summaries(), 0);
    assert_eq!(app.items()[0].summary_state, SummaryState::Done("text".to_string()));
    let base = " Select worktrees (Space toggle, a all, n none, Enter confirm, q quit)";
    assert_eq!(app.build_title(), format!("{} [Loading: 1] ", base));
    app.tick();
    assert_eq!(app.spinner_char(), '\u{2819}');
}
