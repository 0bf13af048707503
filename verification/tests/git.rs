use vibe::git::{
    ahead_range, find_worktree, get_bare_repo_info, get_worktree_branch, is_worktree_synced,
    is_worktree_unused, is_zero_count, parse_main_branch, parse_worktree_list, remote_ref,
    require_bare_repo, BareRepoInfo, GitDirProbe, GitError, Severity, SyncProbe, UnusedProbe,
    Worktree, WorktreeStatus,
};

fn wt(path: &str, branch: &str) -> Worktree {
    Worktree { path: path.to_string(), branch: branch.to_string() }
}

fn flags(orphaned: bool, uncommitted: bool, unpushed: bool) -> WorktreeStatus {
    WorktreeStatus {
        is_orphaned: orphaned,
        has_uncommitted: uncommitted,
        has_unpushed: unpushed,
        ..WorktreeStatus::default()
    }
}

#[test]
fn severity_follows_the_priority_order() {
    assert_eq!(flags(false, false, false).severity(), Severity::Clean);
    assert_eq!(flags(false, false, true).severity(), Severity::Unpushed);
    assert_eq!(flags(false, true, false).severity(), Severity::Uncommitted);
    assert_eq!(flags(false, true, true).severity(), Severity::UncommittedAndUnpushed);
    for u in [false, true] {
        for p in [false, true] {
            assert_eq!(flags(true, u, p).severity(), Severity::Orphaned);
            assert!(flags(true, u, p).severity().rank() > flags(false, true, true).severity().rank());
        }
    }
    assert_eq!(Severity::Clean.rank(), 0);
    assert_eq!(Severity::Unpushed.rank(), 1);
    assert_eq!(Severity::Uncommitted.rank(), 2);
    assert_eq!(Severity::UncommittedAndUnpushed.rank(), 3);
    assert_eq!(Severity::Orphaned.rank(), 4);
}

#[test]
fn severity_depends_on_the_flags_alone() {
    let a = WorktreeStatus { lines_added: 9, commits_ahead: 4, ..flags(false, true, false) };
    let b = flags(false, true, false);
    assert_eq!(a.severity(), b.severity());
    assert_eq!(a.severity(), a.severity());
}

#[test]
fn status_predicates() {
    let d = WorktreeStatus::default();
    assert!(!d.has_local_changes());
    assert!(d.is_safe_to_delete());
    assert!(!d.needs_summary());
    assert!(WorktreeStatus { modified_files: 1, ..d }.has_local_changes());
    assert!(WorktreeStatus { untracked_files: 1, ..d }.has_local_changes());
    assert!(WorktreeStatus { lines_added: 1, ..d }.has_local_changes());
    assert!(WorktreeStatus { lines_deleted: 1, ..d }.has_local_changes());
    assert!(!WorktreeStatus { commits_ahead: 1, has_unpushed: true, ..d }.has_local_changes());
    assert!(WorktreeStatus { has_unpushed: true, ..d }.is_safe_to_delete());
    assert!(!WorktreeStatus { has_uncommitted: true, ..d }.is_safe_to_delete());
    assert!(!WorktreeStatus { is_orphaned: true, ..d }.is_safe_to_delete());
    assert!(WorktreeStatus { has_uncommitted: true, ..d }.needs_summary());
    assert!(!WorktreeStatus { has_uncommitted: true, is_orphaned: true, ..d }.needs_summary());
}

#[test]
fn worktree_list_keeps_the_session_branches() {
    let listing = "worktree /repo/.bare\nbare\n\nworktree /repo/s1\nHEAD abc\nbranch refs/heads/session/s1\n\nworktree /repo/main\nHEAD def\nbranch refs/heads/main\n\nworktree /repo/s2\nHEAD 123\nbranch refs/heads/session/s2\n";
    assert_eq!(
        parse_worktree_list(listing, "session/"),
        vec![wt("/repo/s1", "session/s1"), wt("/repo/s2", "session/s2")]
    );
    assert_eq!(
        parse_worktree_list(listing, "main"),
        vec![wt("/repo/main", "main")]
    );
    assert_eq!(parse_worktree_list("", "session/"), Vec::<Worktree>::new());
}

#[test]
fn worktree_list_handles_a_missing_final_newline_and_carriage_returns() {
    let listing = "worktree /a\r\nbranch refs/heads/session/a\r\n\r\nworktree /b\nbranch refs/heads/session/b";
    assert_eq!(
        parse_worktree_list(listing, "session/"),
        vec![wt("/a", "session/a"), wt("/b", "session/b")]
    );
}

#[test]
fn worktree_list_skips_entries_without_a_branch() {
    let listing = "worktree /detached\nHEAD abc\ndetached\n\nbranch refs/heads/session/x\n\nworktree /ok\nbranch refs/heads/session/ok\n\n";
    assert_eq!(parse_worktree_list(listing, "session/"), vec![wt("/ok", "session/ok")]);
}

#[test]
fn main_branch_is_read_from_the_remote_description() {
    let out = "* remote origin\n  Fetch URL: x\n  HEAD branch: develop\n  Remote branches:\n";
    assert_eq!(parse_main_branch(out), "develop");
    assert_eq!(parse_main_branch("nothing of interest\n"), "main");
    assert_eq!(parse_main_branch(""), "main");
    assert_eq!(parse_main_branch("  HEAD branch: trunk  \r\n  HEAD branch: other\n"), "trunk");
    assert_eq!(parse_main_branch("HEAD branch"), "branch");
}

#[test]
fn branch_name_is_trimmed() {
    assert_eq!(get_worktree_branch("session/abc\n"), "session/abc");
    assert_eq!(get_worktree_branch("  \t x y \r\n"), "x y");
    assert_eq!(get_worktree_branch("\n"), "");
    assert_eq!(get_worktree_branch("\u{a0}z\u{3000}"), "z");
}

#[test]
fn find_worktree_matches_path_or_branch() {
    let list = vec![wt("/w/alpha", "session/one"), wt("/w/beta", "session/two"), wt("/w/two", "x")];
    assert_eq!(find_worktree(list.clone(), "two"), Some(wt("/w/beta", "session/two")));
    assert_eq!(find_worktree(list.clone(), "alpha"), Some(wt("/w/alpha", "session/one")));
    assert_eq!(find_worktree(list.clone(), "/w/"), Some(wt("/w/alpha", "session/one")));
    assert_eq!(find_worktree(list.clone(), ""), Some(wt("/w/alpha", "session/one")));
    assert_eq!(find_worktree(list.clone(), "gamma"), None);
    assert_eq!(find_worktree(Vec::new(), "a"), None);
    assert_eq!(find_worktree(list, "x"), Some(wt("/w/two", "x")));
}

fn probe(found: bool, bare: bool, parent: Option<&str>, file: bool) -> GitDirProbe {
    GitDirProbe {
        found,
        git_dir: "/repo/.bare".to_string(),
        ends_with_bare: bare,
        parent: parent.map(|p| p.to_string()),
        git_file_present: file,
    }
}

#[test]
fn bare_repo_is_recognised() {
    let info = BareRepoInfo { bare_path: "/repo/.bare".to_string(), workspace_root: "/repo".to_string() };
    assert_eq!(get_bare_repo_info(probe(true, true, Some("/repo"), true)), Ok(Some(info.clone())));
    assert_eq!(get_bare_repo_info(probe(false, true, Some("/repo"), true)), Ok(None));
    assert_eq!(get_bare_repo_info(probe(true, false, Some("/repo"), true)), Ok(None));
    assert_eq!(get_bare_repo_info(probe(true, true, Some("/repo"), false)), Ok(None));
    assert_eq!(
        get_bare_repo_info(probe(true, true, None, false)),
        Err(GitError::InvalidBareStructure)
    );
    assert_eq!(get_bare_repo_info(probe(true, false, None, false)), Ok(None));

    assert_eq!(require_bare_repo(true, Ok(Some(info.clone()))), Ok(info.clone()));
    assert_eq!(require_bare_repo(false, Ok(Some(info))), Err(GitError::NotAGitRepository));
    assert_eq!(require_bare_repo(true, Ok(None)), Err(GitError::NotABareSetup));
    assert_eq!(
        require_bare_repo(true, Err(GitError::InvalidBareStructure)),
        Err(GitError::InvalidBareStructure)
    );
    assert_eq!(GitError::NotAGitRepository.message(), "Not in a git repository");
    assert_eq!(GitError::InvalidBareStructure.message(), "Invalid bare repo structure");
    assert!(GitError::NotABareSetup.message().starts_with("This command requires a bare repository"));
    assert!(GitError::NotABareSetup.message().ends_with("to a bare setup."));
}

#[test]
fn synced_means_same_commit_on_both_sides() {
    let p = |on_remote: bool, local: &str, known: bool, remote: &str| SyncProbe {
        branch_on_remote: on_remote,
        local_head: local.to_string(),
        remote_known: known,
        remote_head: remote.to_string(),
    };
    assert!(is_worktree_synced(&p(true, "abc\n", true, "abc\n")));
    assert!(is_worktree_synced(&p(true, " abc", true, "abc \n")));
    assert!(!is_worktree_synced(&p(true, "abc\n", true, "abd\n")));
    assert!(!is_worktree_synced(&p(false, "abc\n", true, "abc\n")));
    assert!(!is_worktree_synced(&p(true, "abc\n", false, "abc\n")));
    assert_eq!(remote_ref("session/x"), "origin/session/x");
    assert_eq!(ahead_range("main", "session/x"), "origin/main..session/x");
}

#[test]
fn unused_means_no_changes_and_no_commits() {
    let p = |diff: bool, staged: bool, untracked: &str, ahead: &str| UnusedProbe {
        diff_clean: diff,
        staged_clean: staged,
        untracked: untracked.to_string(),
        commits_ahead: ahead.to_string(),
    };
    assert!(is_worktree_unused(&p(true, true, "", "0\n"), ".agent/"));
    assert!(is_worktree_unused(&p(true, true, ".agent/settings.json\n.agent/x\n", "0\n"), ".agent/"));
    assert!(!is_worktree_unused(&p(true, true, ".agent/x\nnotes.txt\n", "0\n"), ".agent/"));
    assert!(!is_worktree_unused(&p(true, true, "\n", "0\n"), ".agent/"));
    assert!(!is_worktree_unused(&p(false, true, "", "0\n"), ".agent/"));
    assert!(!is_worktree_unused(&p(true, false, "", "0\n"), ".agent/"));
    assert!(!is_worktree_unused(&p(true, true, "", "1\n"), ".agent/"));
    assert!(!is_worktree_unused(&p(true, true, "", ""), ".agent/"));
    assert!(!is_worktree_unused(&p(true, true, "", "fatal: bad revision\n"), ".agent/"));
    assert!(is_worktree_unused(&p(true, true, "", " 000 "), ".agent/"));
}

#[test]
fn zero_count_reads_like_an_integer_zero() {
    let z = |s: &str| is_zero_count(&s.chars().collect());
    for s in ["0", "00", "+0", "-0", "-000"] {
        assert_eq!(s.parse::<i32>().unwrap_or(1) == 0, z(s), "{}", s);
        assert!(z(s));
    }
    for s in ["", "+", "-", "1", "10", "01", "0x", " 0", "0 ", "++0", "zero", "0.0"] {
        assert_eq!(s.parse::<i32>().unwrap_or(1) == 0, z(s), "{}", s);
        assert!(!z(s));
    }
}
