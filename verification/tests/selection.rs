use vibe::git::WorktreeStatus;
use vibe::tui::keys::{
    confirm_answer, multi_action, single_action, Action, Key, KeyPress, Step,
};
use vibe::tui::probe::{initial_items, update_after_summary, updates_after_status};
use vibe::tui::single::{SingleOutcome, SingleSelectApp};
use vibe::tui::{SummaryState, WorktreeItem, WorktreeUpdate};

fn item(branch: &str) -> WorktreeItem {
    WorktreeItem {
        branch: branch.to_string(),
        status: None,
        summary_state: SummaryState::Absent,
    }
}

fn items(n: usize) -> Vec<WorktreeItem> {
    (0..n).map(|i| item(&format!("session/{}", i))).collect()
}

fn clean() -> WorktreeStatus {
    WorktreeStatus::default()
}

fn uncommitted() -> WorktreeStatus {
    WorktreeStatus {
        has_uncommitted: true,
        modified_files: 1,
        lines_added: 3,
        ..WorktreeStatus::default()
    }
}

fn key(k: Key) -> KeyPress {
    KeyPress { key: k, ctrl: false }
}

#[test]
fn three_clean_units_resolve_one_by_one() {
    let mut app = SingleSelectApp::new(items(3));
    assert_eq!(app.pending_status(), 3);
    assert_eq!(app.pending_summaries(), 0);
    for i in 0..3 {
        app.update_status(i, clean());
        assert_eq!(app.pending_status(), 2 - i);
        assert_eq!(app.pending_summaries(), 0);
    }
    assert_eq!(app.pending_status(), 0);
    for it in app.items() {
        assert_eq!(it.status, Some(clean()));
        assert_eq!(it.summary_state, SummaryState::Absent);
    }
}

#[test]
fn uncommitted_unit_goes_through_the_summary_states() {
    let mut app = SingleSelectApp::new(items(1));
    assert_eq!(app.pending_summaries(), 0);
    app.apply(WorktreeUpdate::Status { index: 0, status: uncommitted() });
    assert_eq!(app.pending_status(), 0);
    assert_eq!(app.pending_summaries(), 1);
    assert_eq!(app.items()[0].summary_state, SummaryState::Queued);
    app.apply(WorktreeUpdate::SummaryStarted { index: 0 });
    assert_eq!(app.items()[0].summary_state, SummaryState::Summarizing);
    assert_eq!(app.pending_summaries(), 1);
    app.apply(WorktreeUpdate::Summary { index: 0, summary: "refactor auth".to_string() });
    assert_eq!(
        app.items()[0].summary_state,
        SummaryState::Done("refactor auth".to_string())
    );
    assert_eq!(app.pending_summaries(), 0);
}

#[test]
fn duplicate_status_does_not_decrement_twice() {
    let mut app = SingleSelectApp::new(items(2));
    app.update_status(1, clean());
    assert_eq!(app.pending_status(), 1);
    app.update_status(1, uncommitted());
    assert_eq!(app.pending_status(), 1);
    assert_eq!(app.items()[1].status, Some(uncommitted()));
    assert_eq!(app.pending_summaries(), 1);
    app.update_status(1, uncommitted());
    assert_eq!(app.pending_status(), 1);
    assert_eq!(app.pending_summaries(), 1);
}

#[test]
fn update_for_unknown_index_is_dropped() {
    let mut app = SingleSelectApp::new(items(2));
    app.update_status(2, clean());
    app.update_summary_started(7);
    app.update_summary(usize::MAX, "x".to_string());
    assert_eq!(app.pending_status(), 2);
    assert_eq!(app.pending_summaries(), 0);
    assert_eq!(app.items()[0], item("session/0"));
    assert_eq!(app.items()[1], item("session/1"));
}

#[test]
fn done_summary_is_never_changed() {
    let mut app = SingleSelectApp::new(items(1));
    app.update_status(0, uncommitted());
    app.update_summary(0, "first".to_string());
    assert_eq!(app.items()[0].summary_state, SummaryState::Done("first".to_string()));
    app.update_summary(0, "second".to_string());
    assert_eq!(app.items()[0].summary_state, SummaryState::Done("first".to_string()));
    app.update_summary_started(0);
    assert_eq!(app.items()[0].summary_state, SummaryState::Done("first".to_string()));
    app.update_status(0, uncommitted());
    assert_eq!(app.items()[0].summary_state, SummaryState::Done("first".to_string()));
    assert_eq!(app.pending_summaries(), 0);
}

#[test]
fn summary_for_a_clean_unit_is_ignored() {
    let mut app = SingleSelectApp::new(items(1));
    app.update_status(0, clean());
    app.update_summary_started(0);
    assert_eq!(app.items()[0].summary_state, SummaryState::Absent);
    app.update_summary(0, "stray".to_string());
    assert_eq!(app.items()[0].summary_state, SummaryState::Absent);
    assert_eq!(app.pending_summaries(), 0);
}

#[test]
fn orphaned_unit_never_queues_a_summary() {
    let mut app = SingleSelectApp::new(items(1));
    let status = WorktreeStatus { is_orphaned: true, has_uncommitted: true, ..clean() };
    app.update_status(0, status);
    assert_eq!(app.items()[0].summary_state, SummaryState::Absent);
    assert_eq!(app.pending_summaries(), 0);
}

#[test]
fn queued_summary_may_finish_without_being_started() {
    let mut app = SingleSelectApp::new(items(1));
    app.update_status(0, uncommitted());
    app.update_summary(0, "quick".to_string());
    assert_eq!(app.items()[0].summary_state, SummaryState::Done("quick".to_string()));
    assert_eq!(app.pending_summaries(), 0);
}

#[test]
fn new_counts_what_is_already_pending() {
    let mut list = items(4);
    list[0].status = Some(clean());
    list[1].summary_state = SummaryState::Queued;
    list[2].summary_state = SummaryState::Summarizing;
    list[3].summary_state = SummaryState::Done("d".to_string());
    let app = SingleSelectApp::new(list);
    assert_eq!(app.pending_status(), 3);
    assert_eq!(app.pending_summaries(), 2);
}

#[test]
fn apply_all_equals_applying_one_by_one() {
    let updates = vec![
        WorktreeUpdate::Status { index: 0, status: uncommitted() },
        WorktreeUpdate::SummaryStarted { index: 0 },
        WorktreeUpdate::Status { index: 1, status: clean() },
        WorktreeUpdate::Summary { index: 0, summary: "s".to_string() },
        WorktreeUpdate::Status { index: 9, status: clean() },
    ];
    let mut batch = SingleSelectApp::new(items(3));
    batch.apply_all(updates.clone());
    let mut single = SingleSelectApp::new(items(3));
    for u in updates {
        single.apply(u);
    }
    assert_eq!(batch.items(), single.items());
    assert_eq!(batch.pending_status(), 1);
    assert_eq!(batch.pending_summaries(), 0);
    assert_eq!(batch.items()[0].summary_state, SummaryState::Done("s".to_string()));
}

#[test]
fn single_select_on_empty_list_returns_nothing() {
    let mut app = SingleSelectApp::new(Vec::new());
    assert_eq!(app.selected(), None);
    assert_eq!(app.handle_key(key(Key::Down)), Step::Continue);
    assert_eq!(app.handle_key(key(Key::Up)), Step::Continue);
    assert_eq!(app.selected(), None);
    let step = app.handle_key(key(Key::Enter));
    assert_eq!(step, Step::Finish(SingleOutcome::NothingToChoose));
    assert_eq!(SingleOutcome::NothingToChoose.index(), None);
    let quit = app.handle_key(key(Key::Char('q')));
    assert_eq!(quit, Step::Finish(SingleOutcome::Declined));
    assert_eq!(SingleOutcome::Declined.index(), None);
}

#[test]
fn cursor_moves_and_stops_at_both_ends() {
    let mut app = SingleSelectApp::new(items(3));
    assert_eq!(app.selected(), Some(0));
    app.move_up();
    assert_eq!(app.selected(), Some(0));
    app.move_down();
    assert_eq!(app.selected(), Some(1));
    app.move_down();
    assert_eq!(app.selected(), Some(2));
    app.move_down();
    assert_eq!(app.selected(), Some(2));
    app.move_up();
    assert_eq!(app.selected(), Some(1));
}

#[test]
fn enter_returns_the_row_under_the_cursor() {
    let mut app = SingleSelectApp::new(items(3));
    assert_eq!(app.handle_key(key(Key::Char('j'))), Step::Continue);
    assert_eq!(app.handle_key(key(Key::Down)), Step::Continue);
    assert_eq!(app.handle_key(key(Key::Char('k'))), Step::Continue);
    assert_eq!(app.handle_key(key(Key::Char('x'))), Step::Continue);
    assert_eq!(app.confirm(), SingleOutcome::Chosen(1));
    assert_eq!(app.handle_key(key(Key::Enter)), Step::Finish(SingleOutcome::Chosen(1)));
    assert_eq!(SingleOutcome::Chosen(1).index(), Some(1));
    assert_eq!(app.cancel(), SingleOutcome::Declined);
}

#[test]
fn keys_map_to_actions() {
    assert_eq!(single_action(key(Key::Up)), Action::MoveUp);
    assert_eq!(single_action(key(Key::Char('k'))), Action::MoveUp);
    assert_eq!(single_action(key(Key::Down)), Action::MoveDown);
    assert_eq!(single_action(key(Key::Char('j'))), Action::MoveDown);
    assert_eq!(single_action(key(Key::Enter)), Action::Confirm);
    assert_eq!(single_action(key(Key::Esc)), Action::Cancel);
    assert_eq!(single_action(key(Key::Char('q'))), Action::Cancel);
    assert_eq!(single_action(key(Key::Char('c'))), Action::Ignore);
    assert_eq!(single_action(KeyPress { key: Key::Char('c'), ctrl: true }), Action::Cancel);
    assert_eq!(single_action(key(Key::Char(' '))), Action::Ignore);
    assert_eq!(single_action(key(Key::Char('a'))), Action::Ignore);
    assert_eq!(single_action(key(Key::Other)), Action::Ignore);
    assert_eq!(multi_action(key(Key::Char(' '))), Action::ToggleCurrent);
    assert_eq!(multi_action(key(Key::Char('a'))), Action::SelectAll);
    assert_eq!(multi_action(key(Key::Char('n'))), Action::DeselectAll);
    assert_eq!(multi_action(key(Key::Char('k'))), Action::MoveUp);
    assert_eq!(multi_action(key(Key::Enter)), Action::Confirm);
    assert_eq!(multi_action(KeyPress { key: Key::Char('c'), ctrl: true }), Action::Cancel);
    assert_eq!(multi_action(key(Key::Other)), Action::Ignore);
}

#[test]
fn only_an_explicit_yes_confirms() {
    assert_eq!(confirm_answer(Key::Char('y')), Some(true));
    assert_eq!(confirm_answer(Key::Char('Y')), Some(true));
    assert_eq!(confirm_answer(Key::Char('n')), Some(false));
    assert_eq!(confirm_answer(Key::Char('N')), Some(false));
    assert_eq!(confirm_answer(Key::Char('q')), Some(false));
    assert_eq!(confirm_answer(Key::Esc), Some(false));
    assert_eq!(confirm_answer(Key::Enter), Some(false));
    assert_eq!(confirm_answer(Key::Char('x')), None);
    assert_eq!(confirm_answer(Key::Up), None);
    assert_eq!(confirm_answer(Key::Other), None);
}

#[test]
fn spinner_wraps_after_the_last_frame() {
    let mut app = SingleSelectApp::new(items(1));
    let first = app.spinner_char();
    assert_eq!(first, '\u{280b}');
    app.tick();
    assert_eq!(app.spinner_char(), '\u{2819}');
    for _ in 0..8 {
        app.tick();
    }
    assert_eq!(app.spinner_char(), '\u{280f}');
    app.tick();
    assert_eq!(app.spinner_char(), first);
}

#[test]
fn title_tells_what_is_pending() {
    let mut app = SingleSelectApp::new(items(12));
    let base = " Select a session (\u{2191}/\u{2193} navigate, Enter select, q quit)";
    assert_eq!(app.build_title(), format!("{} [Loading: 12] ", base));
    for i in 0..12 {
        app.update_status(i, if i < 2 { uncommitted() } else { clean() });
    }
    assert_eq!(app.build_title(), format!("{} [Summarizing: 2] ", base));
    app.update_summary(0, "a".to_string());
    app.update_summary(1, "b".to_string());
    assert_eq!(app.build_title(), format!("{} ", base));
    let mut both = SingleSelectApp::new(items(3));
    both.update_status(0, uncommitted());
    assert_eq!(both.build_title(), format!("{} [Loading: 2, Summarizing: 1] ", base));
}

#[test]
fn probe_reports_follow_the_protocol() {
    let worktrees = vec![vibe::git::Worktree {
        path: "/w/a".to_string(),
        branch: "session/a".to_string(),
    }];
    let list = initial_items(&worktrees);
    assert_eq!(list, vec![item("session/a")]);
    assert_eq!(
        updates_after_status(0, clean()),
        vec![WorktreeUpdate::Status { index: 0, status: clean() }]
    );
    assert_eq!(
        updates_after_status(4, uncommitted()),
        vec![
            WorktreeUpdate::Status { index: 4, status: uncommitted() },
            WorktreeUpdate::SummaryStarted { index: 4 },
        ]
    );
    assert_eq!(update_after_summary(0, None), None);
    assert_eq!(
        update_after_summary(2, Some("t".to_string())),
        Some(WorktreeUpdate::Summary { index: 2, summary: "t".to_string() })
    );
    let mut app = SingleSelectApp::new(list);
    app.apply_all(updates_after_status(0, uncommitted()));
    if let Some(u) = update_after_summary(0, Some("done".to_string())) {
        app.apply(u);
    }
    assert_eq!(app.items()[0].summary_state, SummaryState::Done("done".to_string()));
    assert_eq!(app.pending_status(), 0);
    assert_eq!(app.pending_summaries(), 0);
}
