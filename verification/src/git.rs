//! Repository state of a session worktree and the decisions derived from it.

use crate::text::{
    char_views, chars_of, contains, contains_chars, has_at, last_word, last_word_of, lines_of,
    split_lines, starts_with, string_of, trim, trim_chars, trim_str,
};
use vstd::prelude::*;

pub mod status;

verus! {

/// A session worktree: where it lies and the branch it has checked out.
#[derive(Clone, Debug, PartialEq, Eq)]
pub struct Worktree {
    pub path: String,
    pub branch: String,
}

/// `Worktree` as a mathematical value.
pub struct WorktreeView {
    pub path: Seq<char>,
    pub branch: Seq<char>,
}

impl View for Worktree {
    type V = WorktreeView;

    open spec fn view(&self) -> WorktreeView {
        WorktreeView { path: self.path@, branch: self.branch@ }
    }
}

/// A bare repository laid out for worktrees.
#[derive(Clone, Debug, PartialEq, Eq)]
pub struct BareRepoInfo {
    /// The `.bare` directory that holds the repository itself.
    pub bare_path: String,
    /// The directory that holds `.bare` and the `.git` file pointing to it.
    pub workspace_root: String,
}

/// `BareRepoInfo` as a mathematical value.
pub struct BareRepoView {
    pub bare_path: Seq<char>,
    pub workspace_root: Seq<char>,
}

impl View for BareRepoInfo {
    type V = BareRepoView;

    open spec fn view(&self) -> BareRepoView {
        BareRepoView { bare_path: self.bare_path@, workspace_root: self.workspace_root@ }
    }
}

/// Why the repository cannot be worked with.
#[derive(Clone, Copy, Debug, PartialEq, Eq, Structural)]
pub enum GitError {
    /// The current directory is in no git repository.
    NotAGitRepository,
    /// The repository is not laid out as a bare repository with worktrees.
    NotABareSetup,
    /// The repository directory has no parent to be the workspace.
    InvalidBareStructure,
}

impl GitError {
    /// The message shown to the user.
    pub fn message(&self) -> (r: &'static str)
        ensures
            r@ == (match *self {
                GitError::NotAGitRepository => "Not in a git repository"@,
                GitError::NotABareSetup =>
                    "This command requires a bare repository setup with worktree support.\nUse 'vibe clone <url>' to clone a repository with the correct structure,\nor convert an existing repository to a bare setup."@,
                GitError::InvalidBareStructure => "Invalid bare repo structure"@,
            }),
    {
        match self {
            GitError::NotAGitRepository => "Not in a git repository",
            GitError::NotABareSetup =>
                "This command requires a bare repository setup with worktree support.\nUse 'vibe clone <url>' to clone a repository with the correct structure,\nor convert an existing repository to a bare setup.",
            GitError::InvalidBareStructure => "Invalid bare repo structure",
        }
    }
}

/// What was found out about the git directory of the current directory.
#[derive(Clone, Debug, PartialEq, Eq)]
pub struct GitDirProbe {
    /// Whether git could name a git directory at all.
    pub found: bool,
    /// The git directory, as an absolute path.
    pub git_dir: String,
    /// Whether the last component of `git_dir` is `.bare`.
    pub ends_with_bare: bool,
    /// The directory that holds `git_dir`, if there is one.
    pub parent: Option<String>,
    /// Whether `parent` holds a regular file named `.git`.
    pub git_file_present: bool,
}

/// Whether the probe shows a bare repository laid out for worktrees.
pub open spec fn is_bare_setup(probe: GitDirProbe) -> bool {
    probe.found && probe.ends_with_bare && probe.parent is Some && probe.git_file_present
}

/// The bare repository that a probe of the git directory shows, if it shows
/// one. A `.bare` directory without a parent is an error; everything else
/// that is no bare setup is `None`.
pub fn get_bare_repo_info(probe: GitDirProbe) -> (r: Result<Option<BareRepoInfo>, GitError>)
    ensures
        r is Err <==> probe.found && probe.ends_with_bare && probe.parent is None,
        r matches Err(e) ==> e == GitError::InvalidBareStructure,
        r matches Ok(info) ==> (info is Some <==> is_bare_setup(probe)),
        r matches Ok(Some(info)) ==> info.bare_path@ == probe.git_dir@ && info.workspace_root@
            == probe.parent->0@,
{
    if !probe.found || !probe.ends_with_bare {
        return Ok(None);
    }
    match probe.parent {
        None => Err(GitError::InvalidBareStructure),
        Some(root) => {
            if !probe.git_file_present {
                Ok(None)
            } else {
                Ok(Some(BareRepoInfo { bare_path: probe.git_dir, workspace_root: root }))
            }
        },
    }
}

/// The bare repository to work in, or why there is none: outside a git
/// repository nothing else is looked at; inside one, a failed or empty probe
/// is an error.
pub fn require_bare_repo(
    is_git_repo: bool,
    info: Result<Option<BareRepoInfo>, GitError>,
) -> (r: Result<BareRepoInfo, GitError>)
    ensures
        r is Ok <==> is_git_repo && info matches Ok(Some(_)),
        r matches Ok(found) ==> info matches Ok(Some(given)) && found == given,
        r matches Err(e) ==> e == (if !is_git_repo {
            GitError::NotAGitRepository
        } else {
            match info {
                Err(cause) => cause,
                _ => GitError::NotABareSetup,
            }
        }),
{
    if !is_git_repo {
        return Err(GitError::NotAGitRepository);
    }
    match info {
        Err(cause) => Err(cause),
        Ok(None) => Err(GitError::NotABareSetup),
        Ok(Some(found)) => Ok(found),
    }
}

/// The views of a vector of worktrees.
pub open spec fn worktree_views(worktrees: Seq<Worktree>) -> Seq<WorktreeView> {
    worktrees.map_values(|w: Worktree| w@)
}

/// `name` occurs in the path or in the branch of the worktree.
pub open spec fn worktree_matches(worktree: WorktreeView, name: Seq<char>) -> bool {
    contains(worktree.path, name) || contains(worktree.branch, name)
}

/// The first worktree in whose path or branch `name` occurs.
pub fn find_worktree(worktrees: Vec<Worktree>, name: &str) -> (r: Option<Worktree>)
    ensures
        r is None <==> forall|i: int|
            0 <= i < worktrees.len() ==> !worktree_matches(
                #[trigger] worktree_views(worktrees@)[i],
                name@,
            ),
        r matches Some(found) ==> exists|i: int|
            0 <= i < worktrees.len() && #[trigger] worktree_views(worktrees@)[i] == found@
                && worktree_matches(found@, name@) && forall|j: int|
                0 <= j < i ==> !worktree_matches(#[trigger] worktree_views(worktrees@)[j], name@),
{
    let mut rest = worktrees;
    let pattern = chars_of(name);
    let mut i: usize = 0;
    while i < rest.len()
        invariant
            i <= rest.len(),
            rest@ == worktrees@,
            pattern@ == name@,
            forall|j: int|
                0 <= j < i ==> !worktree_matches(#[trigger] worktree_views(worktrees@)[j], name@),
        decreases rest.len() - i,
    {
        let path = chars_of(rest[i].path.as_str());
        let branch = chars_of(rest[i].branch.as_str());
        if contains_chars(&path, &pattern) || contains_chars(&branch, &pattern) {
            assert(worktree_matches(worktree_views(worktrees@)[i as int], name@));
            let found = rest.remove(i);
            return Some(found);
        }
        i = i + 1;
    }
    None
}

/// Snapshot of one worktree's repository state.
#[derive(Clone, Copy, Debug, PartialEq, Eq, Structural)]
pub struct WorktreeStatus {
    /// The backing directory is missing; the counters below carry no meaning then.
    pub is_orphaned: bool,
    pub has_uncommitted: bool,
    pub has_unpushed: bool,
    pub modified_files: usize,
    pub untracked_files: usize,
    pub lines_added: usize,
    pub lines_deleted: usize,
    pub commits_ahead: usize,
}

impl WorktreeStatus {
    /// Whether any change counter of the working copy is non-zero.
    pub open spec fn spec_has_local_changes(&self) -> bool {
        self.modified_files > 0 || self.untracked_files > 0 || self.lines_added > 0
            || self.lines_deleted > 0
    }

    /// Whether the worktree can be removed without losing uncommitted work.
    pub open spec fn spec_is_safe_to_delete(&self) -> bool {
        !self.has_uncommitted && !self.is_orphaned
    }

    /// Whether a summary of the uncommitted work is worth asking for.
    pub open spec fn spec_needs_summary(&self) -> bool {
        self.has_uncommitted && !self.is_orphaned
    }

    #[verifier::when_used_as_spec(spec_has_local_changes)]
    pub fn has_local_changes(&self) -> (r: bool)
        ensures
            r == self.spec_has_local_changes(),
    {
        self.modified_files > 0 || self.untracked_files > 0 || self.lines_added > 0
            || self.lines_deleted > 0
    }

    #[verifier::when_used_as_spec(spec_is_safe_to_delete)]
    pub fn is_safe_to_delete(&self) -> (r: bool)
        ensures
            r == self.spec_is_safe_to_delete(),
    {
        !self.has_uncommitted && !self.is_orphaned
    }

    #[verifier::when_used_as_spec(spec_needs_summary)]
    pub fn needs_summary(&self) -> (r: bool)
        ensures
            r == self.spec_needs_summary(),
    {
        self.has_uncommitted && !self.is_orphaned
    }
}

/// How much attention a worktree asks for, from least to most.
#[derive(Clone, Copy, Debug, PartialEq, Eq, Structural)]
pub enum Severity {
    /// Nothing uncommitted, nothing unpushed.
    Clean,
    /// Commits that the remote does not have, and nothing uncommitted.
    Unpushed,
    /// Uncommitted changes, and nothing unpushed.
    Uncommitted,
    /// Uncommitted changes and unpushed commits.
    UncommittedAndUnpushed,
    /// The backing directory is missing.
    Orphaned,
}

impl Severity {
    /// Position in the order of severities; a higher rank outranks a lower one.
    pub open spec fn spec_rank(self) -> nat {
        match self {
            Severity::Clean => 0,
            Severity::Unpushed => 1,
            Severity::Uncommitted => 2,
            Severity::UncommittedAndUnpushed => 3,
            Severity::Orphaned => 4,
        }
    }

    /// Position in the order of severities; a higher rank outranks a lower one.
    pub fn rank(self) -> (r: u8)
        ensures
            r == self.spec_rank(),
    {
        match self {
            Severity::Clean => 0,
            Severity::Unpushed => 1,
            Severity::Uncommitted => 2,
            Severity::UncommittedAndUnpushed => 3,
            Severity::Orphaned => 4,
        }
    }
}

/// The severity that three observations amount to. A missing directory
/// decides alone; otherwise uncommitted work weighs more than unpushed commits.
pub open spec fn classify(is_orphaned: bool, has_uncommitted: bool, has_unpushed: bool) -> Severity {
    if is_orphaned {
        Severity::Orphaned
    } else if has_uncommitted && has_unpushed {
        Severity::UncommittedAndUnpushed
    } else if has_uncommitted {
        Severity::Uncommitted
    } else if has_unpushed {
        Severity::Unpushed
    } else {
        Severity::Clean
    }
}

impl WorktreeStatus {
    /// The severity of this status. It depends on the three flags alone.
    pub fn severity(&self) -> (r: Severity)
        ensures
            r == classify(self.is_orphaned, self.has_uncommitted, self.has_unpushed),
    {
        if self.is_orphaned {
            Severity::Orphaned
        } else if self.has_uncommitted && self.has_unpushed {
            Severity::UncommittedAndUnpushed
        } else if self.has_uncommitted {
            Severity::Uncommitted
        } else if self.has_unpushed {
            Severity::Unpushed
        } else {
            Severity::Clean
        }
    }
}

/// Two statuses with the same three flags have the same severity, whatever
/// their counters say.
pub proof fn law_severity_depends_on_flags_alone(a: WorktreeStatus, b: WorktreeStatus)
    requires
        a.is_orphaned == b.is_orphaned,
        a.has_uncommitted == b.has_uncommitted,
        a.has_unpushed == b.has_unpushed,
    ensures
        classify(a.is_orphaned, a.has_uncommitted, a.has_unpushed) == classify(
            b.is_orphaned,
            b.has_uncommitted,
            b.has_unpushed,
        ),
{
}

/// A missing directory outranks every severity that a present one can have,
/// whatever the other two flags say on either side.
pub proof fn law_orphaned_outranks_all(
    uncommitted: bool,
    unpushed: bool,
    other_uncommitted: bool,
    other_unpushed: bool,
)
    ensures
        classify(true, uncommitted, unpushed) == Severity::Orphaned,
        classify(true, uncommitted, unpushed).spec_rank() > classify(
            false,
            other_uncommitted,
            other_unpushed,
        ).spec_rank(),
{
}

/// Among worktrees whose directory is there, the severities come in one line:
/// both flags, then uncommitted only, then unpushed only, then neither.
pub proof fn law_severity_order()
    ensures
        classify(false, true, true).spec_rank() > classify(false, true, false).spec_rank(),
        classify(false, true, false).spec_rank() > classify(false, false, true).spec_rank(),
        classify(false, false, true).spec_rank() > classify(false, false, false).spec_rank(),
{
}

/// A worktree is safe to delete exactly when its severity is `Clean` or `Unpushed`.
pub proof fn law_safe_split(status: WorktreeStatus)
    ensures
        status.spec_is_safe_to_delete() <==> classify(
            status.is_orphaned,
            status.has_uncommitted,
            status.has_unpushed,
        ).spec_rank() <= Severity::Unpushed.spec_rank(),
{
}

impl Default for WorktreeStatus {
    /// The status assumed when a probe yields nothing: present, clean, all counters zero.
    fn default() -> (r: Self)
        ensures
            r == (WorktreeStatus {
                is_orphaned: false,
                has_uncommitted: false,
                has_unpushed: false,
                modified_files: 0,
                untracked_files: 0,
                lines_added: 0,
                lines_deleted: 0,
                commits_ahead: 0,
            }),
    {
        WorktreeStatus {
            is_orphaned: false,
            has_uncommitted: false,
            has_unpushed: false,
            modified_files: 0,
            untracked_files: 0,
            lines_added: 0,
            lines_deleted: 0,
            commits_ahead: 0,
        }
    }
}

/// What a listing of worktrees has told so far: the path and branch of the
/// entry being read, and the session worktrees of the entries before it.
pub struct Listing {
    pub path: Option<Seq<char>>,
    pub branch: Option<Seq<char>>,
    pub found: Seq<WorktreeView>,
}

/// The listing at the end of an entry: the entry counts if it named both a
/// path and a branch and the branch begins with `prefix`.
pub open spec fn entry_closed(listing: Listing, prefix: Seq<char>) -> Listing {
    Listing {
        path: None,
        branch: None,
        found: if listing.path is Some && listing.branch is Some && starts_with(
            listing.branch->0,
            prefix,
        ) {
            listing.found.push(
                WorktreeView { path: listing.path->0, branch: listing.branch->0 },
            )
        } else {
            listing.found
        },
    }
}

/// The listing after one more line: a path, a branch, the empty line that
/// ends an entry, or a line of no interest.
pub open spec fn line_read(listing: Listing, line: Seq<char>, prefix: Seq<char>) -> Listing {
    if starts_with(line, "worktree "@) {
        Listing {
            path: Some(line.skip("worktree "@.len() as int)),
            branch: listing.branch,
            found: listing.found,
        }
    } else if starts_with(line, "branch refs/heads/"@) {
        Listing {
            path: listing.path,
            branch: Some(line.skip("branch refs/heads/"@.len() as int)),
            found: listing.found,
        }
    } else if line.len() == 0 {
        entry_closed(listing, prefix)
    } else {
        listing
    }
}

/// The listing after all of `lines`, read in order.
pub open spec fn lines_read(lines: Seq<Seq<char>>, prefix: Seq<char>) -> Listing
    decreases lines.len(),
{
    if lines.len() == 0 {
        Listing { path: None, branch: None, found: Seq::empty() }
    } else {
        line_read(lines_read(lines.drop_last(), prefix), lines.last(), prefix)
    }
}

/// The session worktrees that a porcelain listing names: the entries whose
/// branch begins with `prefix`, in the order listed. The last entry counts
/// whether or not an empty line follows it.
pub open spec fn listed_worktrees(listing: Seq<char>, prefix: Seq<char>) -> Seq<WorktreeView> {
    entry_closed(lines_read(split_lines(listing), prefix), prefix).found
}

/// Ends the entry being read; see `entry_closed`.
fn close_entry(
    found: &mut Vec<Worktree>,
    path: Option<Vec<char>>,
    branch: Option<Vec<char>>,
    prefix: &Vec<char>,
    Ghost(listing): Ghost<Listing>,
)
    requires
        worktree_views(old(found)@) == listing.found,
        listing.path == (match path {
            Some(p) => Some(p@),
            None => None,
        }),
        listing.branch == (match branch {
            Some(b) => Some(b@),
            None => None,
        }),
    ensures
        worktree_views(final(found)@) == entry_closed(listing, prefix@).found,
{
    match (path, branch) {
        (Some(p), Some(b)) => {
            if has_at(&b, 0, prefix) {
                let worktree = Worktree { path: string_of(&p), branch: string_of(&b) };
                let ghost shown = worktree@;
                found.push(worktree);
                assert(worktree_views(found@) =~= worktree_views(old(found)@).push(shown));
            }
        },
        _ => {},
    }
}

/// The session worktrees named in the output of `git worktree list --porcelain`.
pub fn parse_worktree_list(listing: &str, prefix: &str) -> (r: Vec<Worktree>)
    ensures
        worktree_views(r@) == listed_worktrees(listing@, prefix@),
{
    let chars = chars_of(listing);
    let lines = lines_of(&chars);
    let prefix_chars = chars_of(prefix);
    let path_mark = chars_of("worktree ");
    let branch_mark = chars_of("branch refs/heads/");
    let mut found: Vec<Worktree> = Vec::new();
    let mut path: Option<Vec<char>> = None;
    let mut branch: Option<Vec<char>> = None;
    let ghost mut state = Listing { path: None, branch: None, found: Seq::empty() };
    let mut i: usize = 0;
    proof {
        assert(worktree_views(found@) =~= state.found);
    }
    while i < lines.len()
        invariant
            i <= lines.len(),
            char_views(lines@) == split_lines(listing@),
            prefix_chars@ == prefix@,
            path_mark@ == "worktree "@,
            branch_mark@ == "branch refs/heads/"@,
            state == lines_read(char_views(lines@).take(i as int), prefix@),
            worktree_views(found@) == state.found,
            state.path == (match path {
                Some(p) => Some(p@),
                None => None,
            }),
            state.branch == (match branch {
                Some(b) => Some(b@),
                None => None,
            }),
        decreases lines.len() - i,
    {
        let line = &lines[i];
        proof {
            let next = char_views(lines@).take(i + 1);
            assert(next.drop_last() =~= char_views(lines@).take(i as int));
            assert(next.last() == line@);
        }
        if has_at(line, 0, &path_mark) {
            let mut rest: Vec<char> = Vec::new();
            let mut k: usize = path_mark.len();
            while k < line.len()
                invariant
                    path_mark.len() <= k <= line.len(),
                    rest@ == line@.subrange(path_mark.len() as int, k as int),
                decreases line.len() - k,
            {
                rest.push(line[k]);
                assert(rest@ =~= line@.subrange(path_mark.len() as int, k + 1));
                k = k + 1;
            }
            assert(rest@ =~= line@.skip(path_mark.len() as int));
            path = Some(rest);
        } else if has_at(line, 0, &branch_mark) {
            let mut rest: Vec<char> = Vec::new();
            let mut k: usize = branch_mark.len();
            while k < line.len()
                invariant
                    branch_mark.len() <= k <= line.len(),
                    rest@ == line@.subrange(branch_mark.len() as int, k as int),
                decreases line.len() - k,
            {
                rest.push(line[k]);
                assert(rest@ =~= line@.subrange(branch_mark.len() as int, k + 1));
                k = k + 1;
            }
            assert(rest@ =~= line@.skip(branch_mark.len() as int));
            branch = Some(rest);
        } else if line.len() == 0 {
            close_entry(&mut found, path, branch, &prefix_chars, Ghost(state));
            path = None;
            branch = None;
        }
        proof {
            state = line_read(state, line@, prefix@);
        }
        i = i + 1;
    }
    proof {
        assert(char_views(lines@).take(lines.len() as int) =~= char_views(lines@));
    }
    close_entry(&mut found, path, branch, &prefix_chars, Ghost(state));
    found
}

/// The branch that the remote calls its head: the last word of the first
/// line that speaks of the head branch, or `main` if no line does.
pub open spec fn main_branch_in(lines: Seq<Seq<char>>) -> Seq<char>
    decreases lines.len(),
{
    if lines.len() == 0 {
        "main"@
    } else if contains(lines[0], "HEAD branch"@) && last_word(lines[0]).len() > 0 {
        last_word(lines[0])
    } else {
        main_branch_in(lines.skip(1))
    }
}

/// The main branch named in the output of `git remote show origin`.
pub fn parse_main_branch(output: &str) -> (r: String)
    ensures
        r@ == main_branch_in(split_lines(output@)),
{
    let chars = chars_of(output);
    let lines = lines_of(&chars);
    let mark = chars_of("HEAD branch");
    let mut i: usize = 0;
    proof {
        assert(char_views(lines@).skip(0) =~= char_views(lines@));
    }
    while i < lines.len()
        invariant
            i <= lines.len(),
            mark@ == "HEAD branch"@,
            char_views(lines@) == split_lines(output@),
            main_branch_in(char_views(lines@)) == main_branch_in(
                char_views(lines@).skip(i as int),
            ),
        decreases lines.len() - i,
    {
        let ghost rest = char_views(lines@).skip(i as int);
        proof {
            assert(rest[0] == lines@[i as int]@);
            assert(rest.skip(1) =~= char_views(lines@).skip(i + 1));
        }
        if contains_chars(&lines[i], &mark) {
            let word = last_word_of(&lines[i]);
            if word.len() > 0 {
                return string_of(&word);
            }
        }
        i = i + 1;
    }
    String::from_str("main")
}

/// The branch named in the output of `git rev-parse --abbrev-ref HEAD`: the
/// output without the white space around it.
pub fn get_worktree_branch(output: &str) -> (r: String)
    ensures
        r@ == trim(output@),
{
    let chars = chars_of(output);
    let trimmed = trim_chars(&chars);
    string_of(&trimmed)
}

/// The name under which the remote's copy of `branch` is known locally.
pub fn remote_ref(branch: &str) -> (r: String)
    ensures
        r@ == "origin/"@ + branch@,
{
    let mut out = String::from_str("origin/");
    out.append(branch);
    out
}

/// The commits that `branch` has and the remote's `main_branch` lacks, as a range.
pub fn ahead_range(main_branch: &str, branch: &str) -> (r: String)
    ensures
        r@ == "origin/"@ + main_branch@ + ".."@ + branch@,
{
    let mut out = String::from_str("origin/");
    out.append(main_branch);
    out.append("..");
    out.append(branch);
    out
}

/// What was found out about a worktree and its branch on the remote.
#[derive(Clone, Debug, PartialEq, Eq)]
pub struct SyncProbe {
    /// Whether the remote has a branch of that name.
    pub branch_on_remote: bool,
    /// What git printed for the local head commit.
    pub local_head: String,
    /// Whether the remote's head commit could be named.
    pub remote_known: bool,
    /// What git printed for the remote's head commit.
    pub remote_head: String,
}

/// Whether the worktree is level with the remote: the branch is there, its
/// head could be named, and the two heads are the same commit.
pub fn is_worktree_synced(probe: &SyncProbe) -> (r: bool)
    ensures
        r == (probe.branch_on_remote && probe.remote_known && trim(probe.local_head@) == trim(
            probe.remote_head@,
        )),
{
    if !probe.branch_on_remote || !probe.remote_known {
        return false;
    }
    let local = trim_str(probe.local_head.as_str());
    let remote = trim_str(probe.remote_head.as_str());
    local == remote
}

/// `s` without the sign in front of it, if it has one.
pub open spec fn without_sign(s: Seq<char>) -> Seq<char> {
    if s.len() > 0 && (s[0] == '+' || s[0] == '-') {
        s.skip(1)
    } else {
        s
    }
}

/// `digits` is one or more digits `0`.
pub open spec fn all_zeros(digits: Seq<char>) -> bool {
    digits.len() > 0 && forall|k: int| 0 <= k < digits.len() ==> digits[k] == '0'
}

/// `s` is a zero in decimal notation: one or more digits `0`, with or
/// without a sign in front.
pub open spec fn denotes_zero(s: Seq<char>) -> bool {
    all_zeros(without_sign(s))
}

/// Whether `chars` is a zero in decimal notation.
pub fn is_zero_count(chars: &Vec<char>) -> (r: bool)
    ensures
        r == denotes_zero(chars@),
{
    let first: usize = if chars.len() > 0 && (chars[0] == '+' || chars[0] == '-') {
        1
    } else {
        0
    };
    if first == chars.len() {
        return false;
    }
    let ghost digits = chars@.skip(first as int);
    proof {
        assert(chars@.skip(0) =~= chars@);
    }
    let mut k: usize = first;
    while k < chars.len()
        invariant
            first <= k <= chars.len(),
            first < chars.len(),
            digits == chars@.skip(first as int),
            digits == without_sign(chars@),
            forall|j: int| 0 <= j < k - first ==> digits[j] == '0',
        decreases chars.len() - k,
    {
        if chars[k] != '0' {
            assert(digits[k - first] != '0');
            return false;
        }
        k = k + 1;
    }
    true
}

/// A file that git does not track is named in `lines` and lies outside `ignored`.
pub open spec fn has_untracked(lines: Seq<Seq<char>>, ignored: Seq<char>) -> bool {
    exists|k: int| 0 <= k < lines.len() && !starts_with(#[trigger] lines[k], ignored)
}

/// What was found out about the work in a worktree.
#[derive(Clone, Debug, PartialEq, Eq)]
pub struct UnusedProbe {
    /// Whether the working copy equals the head commit.
    pub diff_clean: bool,
    /// Whether the index equals the head commit.
    pub staged_clean: bool,
    /// The files that git does not track, one per line.
    pub untracked: String,
    /// What git printed for the number of commits beyond the main branch.
    pub commits_ahead: String,
}

/// Whether nothing was done in the worktree: no change in the working copy
/// or the index, no untracked file outside the directory `ignored`, and a
/// count of commits beyond the main branch that reads as zero.
pub fn is_worktree_unused(probe: &UnusedProbe, ignored: &str) -> (r: bool)
    ensures
        r == (probe.diff_clean && probe.staged_clean && !has_untracked(
            split_lines(probe.untracked@),
            ignored@,
        ) && denotes_zero(trim(probe.commits_ahead@))),
{
    if !probe.diff_clean || !probe.staged_clean {
        return false;
    }
    let chars = chars_of(probe.untracked.as_str());
    let lines = lines_of(&chars);
    let prefix = chars_of(ignored);
    let mut i: usize = 0;
    while i < lines.len()
        invariant
            i <= lines.len(),
            prefix@ == ignored@,
            char_views(lines@) == split_lines(probe.untracked@),
            forall|k: int| 0 <= k < i ==> starts_with(#[trigger] char_views(lines@)[k], ignored@),
        decreases lines.len() - i,
    {
        assert(char_views(lines@)[i as int] == lines@[i as int]@);
        if !has_at(&lines[i], 0, &prefix) {
            return false;
        }
        i = i + 1;
    }
    let count = chars_of(probe.commits_ahead.as_str());
    let trimmed = trim_chars(&count);
    is_zero_count(&trimmed)
}

} // verus!
