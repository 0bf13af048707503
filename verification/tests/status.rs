use vibe::git::status::{get_worktree_status, parse_count, read_changes, StatusProbe};
use vibe::git::WorktreeStatus;

fn probe(exists: bool, short: &str, changes: &str, ahead: &str) -> StatusProbe {
    StatusProbe {
        exists,
        short_status: short.to_string(),
        changes: changes.to_string(),
        commits_ahead: ahead.to_string(),
    }
}

#[test]
fn status_is_read_off_the_probe() {
    let p = probe(
        true,
        " M a.rs\n?? new.txt\nA  b.rs\n",
        "10\t2\ta.rs\n-\t-\timg.png\n3\t0\tb.rs\n",
        "2\n",
    );
    assert_eq!(
        get_worktree_status(&p),
        WorktreeStatus {
            is_orphaned: false,
            has_uncommitted: true,
            has_unpushed: true,
            modified_files: 2,
            untracked_files: 1,
            lines_added: 13,
            lines_deleted: 2,
            commits_ahead: 2,
        }
    );
}

#[test]
fn missing_directory_is_orphaned_and_nothing_else() {
    let p = probe(false, " M a.rs\n", "1\t1\ta.rs\n", "5");
    assert_eq!(
        get_worktree_status(&p),
        WorktreeStatus { is_orphaned: true, ..WorktreeStatus::default() }
    );
}

#[test]
fn empty_probe_is_a_clean_status() {
    assert_eq!(get_worktree_status(&probe(true, "", "", "")), WorktreeStatus::default());
    assert_eq!(get_worktree_status(&probe(true, "\n", "\n", "0\n")), WorktreeStatus::default());
    let unpushed = get_worktree_status(&probe(true, "", "", " 7 \n"));
    assert_eq!(
        unpushed,
        WorktreeStatus { has_unpushed: true, commits_ahead: 7, ..WorktreeStatus::default() }
    );
    let garbage = get_worktree_status(&probe(true, "", "", "fatal: no upstream\n"));
    assert_eq!(garbage, WorktreeStatus::default());
}

#[test]
fn counts_are_read_digit_by_digit() {
    let c = |s: &str| parse_count(&s.chars().collect());
    assert_eq!(c("0"), 0);
    assert_eq!(c("7"), 7);
    assert_eq!(c("120"), 120);
    assert_eq!(c("007"), 7);
    assert_eq!(c(""), 0);
    assert_eq!(c("-"), 0);
    assert_eq!(c("12a"), 0);
    assert_eq!(c("+3"), 0);
    assert_eq!(c(" 3"), 0);
    assert_eq!(c(&usize::MAX.to_string()), usize::MAX);
    assert_eq!(c(&format!("{}0", usize::MAX)), usize::MAX);
    assert_eq!(c("99999999999999999999999999"), usize::MAX);
    assert_eq!(c("99999999999999999999999999x"), 0);
    assert_eq!(c("18446744073709551616"), usize::MAX);
}

#[test]
fn changes_add_up_per_column() {
    assert_eq!(read_changes(""), (0, 0));
    assert_eq!(read_changes("1\t2\tf"), (1, 2));
    assert_eq!(read_changes("1\t2\tf\n30\t40\tg\r\n"), (31, 42));
    assert_eq!(read_changes("5\n\t6\tx\nnot a line\n"), (5, 6));
    let big = format!("{}\t1\tf\n1\t1\tg\n", usize::MAX);
    assert_eq!(read_changes(&big), (usize::MAX, 2));
}
