use tokio::sync::mpsc::unbounded_channel;
use vibe::git::WorktreeStatus;
use vibe::tui::multi::MultiSelectApp;
use vibe::tui::single::SingleSelectApp;
use vibe::tui::{SummaryState, WorktreeItem, WorktreeUpdate};

fn rows(n: usize) -> Vec<WorktreeItem> {
    (0..n)
        .map(|i| WorktreeItem {
            branch: format!("session/{}", i),
            status: None,
            summary_state: SummaryState::Absent,
        })
        .collect()
}

fn dirty() -> WorktreeStatus {
    WorktreeStatus { has_uncommitted: true, modified_files: 1, ..WorktreeStatus::default() }
}

#[test]
fn drain_takes_in_everything_that_waits() {
    let (tx, mut rx) = unbounded_channel();
    let mut app = SingleSelectApp::new(rows(3));
    assert_eq!(app.drain(&mut rx, usize::MAX), 0);
    assert_eq!(app.pending_status(), 3);
    tx.send(WorktreeUpdate::Status { index: 1, status: dirty() }).unwrap();
    tx.send(WorktreeUpdate::SummaryStarted { index: 1 }).unwrap();
    tx.send(WorktreeUpdate::Status { index: 0, status: WorktreeStatus::default() }).unwrap();
    assert_eq!(app.drain(&mut rx, usize::MAX), 3);
    assert_eq!(app.pending_status(), 1);
    assert_eq!(app.pending_summaries(), 1);
    assert_eq!(app.items()[1].summary_state, SummaryState::Summarizing);
    tx.send(WorktreeUpdate::Summary { index: 1, summary: "text".to_string() }).unwrap();
    drop(tx);
    assert_eq!(app.drain(&mut rx, usize::MAX), 1);
    assert_eq!(app.items()[1].summary_state, SummaryState::Done("text".to_string()));
    assert_eq!(app.drain(&mut rx, usize::MAX), 0);
}

#[test]
fn drain_stops_at_the_limit_and_goes_on_later() {
    let (tx, mut rx) = unbounded_channel();
    let mut app = MultiSelectApp::new(rows(4));
    app.toggle_current();
    for i in 0..4 {
        tx.send(WorktreeUpdate::Status { index: i, status: WorktreeStatus::default() }).unwrap();
    }
    assert_eq!(app.drain(&mut rx, 0), 0);
    assert_eq!(app.pending_status(), 4);
    assert_eq!(app.drain(&mut rx, 3), 3);
    assert_eq!(app.pending_status(), 1);
    assert_eq!(app.items()[3].status, None);
    assert_eq!(app.drain(&mut rx, 3), 1);
    assert_eq!(app.pending_status(), 0);
    assert_eq!(app.marks(), &vec![true, false, false, false]);
}
