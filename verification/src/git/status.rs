//! Reading a worktree's status off what git prints.

use crate::git::WorktreeStatus;
use crate::text::{
    char_views, chars_of, has_at, lines_of, split_lines, starts_with, trim, trim_chars,
};
use vstd::prelude::*;

verus! {

/// The value of a decimal digit.
pub open spec fn digit_value(c: char) -> Option<nat> {
    if '0' <= c <= '9' {
        Some((c as u8 - 48) as nat)
    } else {
        None
    }
}

/// The number that `s` writes in decimal digits; `None` if `s` is empty or
/// holds anything but digits.
pub open spec fn number_of(s: Seq<char>) -> Option<nat>
    decreases s.len(),
{
    if s.len() == 0 {
        None
    } else if s.len() == 1 {
        digit_value(s[0])
    } else {
        match (number_of(s.drop_last()), digit_value(s.last())) {
            (Some(n), Some(d)) => Some(n * 10 + d),
            _ => None,
        }
    }
}

/// The number that `s` writes, as far as a count can hold it: a number that
/// is too large counts as the largest there is, anything that is no number
/// counts as zero.
pub open spec fn count_of(s: Seq<char>) -> usize {
    match number_of(s) {
        Some(n) => if n <= usize::MAX {
            n as usize
        } else {
            usize::MAX
        },
        None => 0,
    }
}

/// A number is no smaller than what any of its beginnings writes, and every
/// beginning of a number is a number.
proof fn lemma_number_grows(s: Seq<char>, k: int)
    requires
        0 < k <= s.len(),
        number_of(s) is Some,
    ensures
        number_of(s.take(k)) is Some,
        number_of(s.take(k))->0 <= number_of(s)->0,
    decreases s.len(),
{
    if k == s.len() {
        assert(s.take(k) =~= s);
    } else {
        assert(s.len() > 1);
        lemma_number_grows(s.drop_last(), k);
        assert(s.drop_last().take(k) =~= s.take(k));
    }
}

/// A beginning that is no number makes the whole no number.
proof fn lemma_number_needs_digits(s: Seq<char>, k: int)
    requires
        0 < k <= s.len(),
        number_of(s.take(k)) is None,
    ensures
        number_of(s) is None,
{
    if number_of(s) is Some {
        lemma_number_grows(s, k);
    }
}

/// The count that `chars` writes; see `count_of`.
pub fn parse_count(chars: &Vec<char>) -> (r: usize)
    ensures
        r == count_of(chars@),
{
    if chars.len() == 0 {
        return 0;
    }
    let mut value: usize = 0;
    let mut i: usize = 0;
    while i < chars.len()
        invariant
            i <= chars.len(),
            chars.len() > 0,
            i > 0 ==> number_of(chars@.take(i as int)) == Some(value as nat),
            i == 0 ==> value == 0,
        decreases chars.len() - i,
    {
        let c = chars[i];
        proof {
            let next = chars@.take(i + 1);
            assert(next.drop_last() =~= chars@.take(i as int));
            assert(next.last() == c);
        }
        if !('0' <= c && c <= '9') {
            proof {
                lemma_number_needs_digits(chars@, i + 1);
            }
            return 0;
        }
        let digit: usize = (c as u8 - 48) as usize;
        if value > (usize::MAX - digit) / 10 {
            proof {
                let next = chars@.take(i + 1);
                assert(number_of(next) == Some((value * 10 + digit) as nat));
            }
            let mut k: usize = i + 1;
            while k < chars.len()
                invariant
                    i < k <= chars.len(),
                    number_of(chars@.take(k as int)) matches Some(n) && n > usize::MAX,
                decreases chars.len() - k,
            {
                let d = chars[k];
                proof {
                    let next = chars@.take(k + 1);
                    assert(next.drop_last() =~= chars@.take(k as int));
                    assert(next.last() == d);
                }
                if !('0' <= d && d <= '9') {
                    proof {
                        lemma_number_needs_digits(chars@, k + 1);
                    }
                    return 0;
                }
                k = k + 1;
            }
            assert(chars@.take(chars.len() as int) =~= chars@);
            return usize::MAX;
        }
        value = value * 10 + digit;
        i = i + 1;
    }
    assert(chars@.take(chars.len() as int) =~= chars@);
    value
}

/// How many of `lines` are not empty and tell of a file git tracks (`false`)
/// or does not track (`true`): the lines of git's short status that begin
/// with two question marks tell of untracked files.
pub open spec fn status_lines(lines: Seq<Seq<char>>, untracked: bool) -> nat
    decreases lines.len(),
{
    if lines.len() == 0 {
        0
    } else {
        status_lines(lines.drop_last(), untracked) + (if lines.last().len() > 0 && starts_with(
            lines.last(),
            "??"@,
        ) == untracked {
            1nat
        } else {
            0nat
        })
    }
}

/// `s` up to its first tab; all of `s` if it has none.
pub open spec fn before_tab(s: Seq<char>) -> Seq<char>
    decreases s.len(),
{
    if s.len() == 0 || s[0] == '\t' {
        Seq::empty()
    } else {
        seq![s[0]] + before_tab(s.skip(1))
    }
}

/// What follows the first tab of `s`; nothing if it has none.
pub open spec fn after_tab(s: Seq<char>) -> Seq<char>
    decreases s.len(),
{
    if s.len() == 0 {
        Seq::empty()
    } else if s[0] == '\t' {
        s.skip(1)
    } else {
        after_tab(s.skip(1))
    }
}

/// The first tab of `s` is at `k`, given that none comes before.
proof fn lemma_first_tab(s: Seq<char>, k: int)
    requires
        0 <= k <= s.len(),
        forall|j: int| 0 <= j < k ==> s[j] != '\t',
        k < s.len() ==> s[k] == '\t',
    ensures
        before_tab(s) == s.take(k),
        after_tab(s) == (if k < s.len() {
            s.skip(k + 1)
        } else {
            Seq::empty()
        }),
    decreases s.len(),
{
    if k > 0 {
        lemma_first_tab(s.skip(1), k - 1);
        assert(seq![s[0]] + s.skip(1).take(k - 1) =~= s.take(k));
        if k < s.len() {
            assert(s.skip(1).skip(k) =~= s.skip(k + 1));
        }
    } else {
        assert(s.take(0) =~= Seq::<char>::empty());
    }
}

/// `chars` up to its first tab, and what follows that tab.
fn cut_at_tab(chars: &Vec<char>) -> (r: (Vec<char>, Vec<char>))
    ensures
        r.0@ == before_tab(chars@),
        r.1@ == after_tab(chars@),
{
    let mut before: Vec<char> = Vec::new();
    let mut k: usize = 0;
    while k < chars.len() && chars[k] != '\t'
        invariant
            k <= chars.len(),
            before@ == chars@.take(k as int),
            forall|j: int| 0 <= j < k ==> chars@[j] != '\t',
        decreases chars.len() - k,
    {
        before.push(chars[k]);
        assert(before@ =~= chars@.take(k + 1));
        k = k + 1;
    }
    proof {
        lemma_first_tab(chars@, k as int);
    }
    let mut after: Vec<char> = Vec::new();
    if k < chars.len() {
        let mut j: usize = k + 1;
        while j < chars.len()
            invariant
                k < j <= chars.len(),
                after@ == chars@.subrange(k + 1, j as int),
            decreases chars.len() - j,
        {
            after.push(chars[j]);
            assert(after@ =~= chars@.subrange(k + 1, j + 1));
            j = j + 1;
        }
        assert(after@ =~= chars@.skip(k + 1));
    }
    (before, after)
}

/// The sum of two counts, held at the largest count there is.
pub open spec fn capped_sum(a: usize, b: usize) -> usize {
    if a + b <= usize::MAX {
        (a + b) as usize
    } else {
        usize::MAX
    }
}

/// The lines added and the lines deleted that a per-file listing of changes
/// adds up to: each line holds the two counts and the file, with tabs
/// between; a count that is no number, as for a binary file, counts as zero.
pub open spec fn change_totals(lines: Seq<Seq<char>>) -> (usize, usize)
    decreases lines.len(),
{
    if lines.len() == 0 {
        (0usize, 0usize)
    } else {
        let before = change_totals(lines.drop_last());
        (
            capped_sum(before.0, count_of(before_tab(lines.last()))),
            capped_sum(before.1, count_of(before_tab(after_tab(lines.last())))),
        )
    }
}

/// The sum of `a` and `b`; see `capped_sum`.
fn add_capped(a: usize, b: usize) -> (r: usize)
    ensures
        r == capped_sum(a, b),
{
    if a > usize::MAX - b {
        usize::MAX
    } else {
        a + b
    }
}

/// What git printed about one worktree.
#[derive(Clone, Debug, PartialEq, Eq)]
pub struct StatusProbe {
    /// Whether the worktree's directory is there.
    pub exists: bool,
    /// The short status, one file per line.
    pub short_status: String,
    /// The changes against the head commit: per file, lines added, lines
    /// deleted and the file's name, with tabs between.
    pub changes: String,
    /// The count of commits that the remote lacks.
    pub commits_ahead: String,
}

/// The status that a probe amounts to. A missing directory is orphaned and
/// nothing else is looked at; otherwise files are counted off the short
/// status, lines are added up over the changes, and the count of commits is
/// read with the white space around it cut off.
pub open spec fn status_of_probe(probe: StatusProbe) -> WorktreeStatus {
    if !probe.exists {
        WorktreeStatus {
            is_orphaned: true,
            has_uncommitted: false,
            has_unpushed: false,
            modified_files: 0,
            untracked_files: 0,
            lines_added: 0,
            lines_deleted: 0,
            commits_ahead: 0,
        }
    } else {
        let lines = split_lines(probe.short_status@);
        let modified = status_lines(lines, false);
        let untracked = status_lines(lines, true);
        let ahead = count_of(trim(probe.commits_ahead@));
        let totals = change_totals(split_lines(probe.changes@));
        WorktreeStatus {
            is_orphaned: false,
            has_uncommitted: modified + untracked > 0,
            has_unpushed: ahead > 0,
            modified_files: modified as usize,
            untracked_files: untracked as usize,
            lines_added: totals.0,
            lines_deleted: totals.1,
            commits_ahead: ahead,
        }
    }
}

/// The count that `text` writes once the white space around it is cut off.
fn read_count(text: &str) -> (r: usize)
    ensures
        r == count_of(trim(text@)),
{
    let chars = chars_of(text);
    let trimmed = trim_chars(&chars);
    parse_count(&trimmed)
}

/// The lines added and deleted in `changes`; see `change_totals`.
pub fn read_changes(changes: &str) -> (r: (usize, usize))
    ensures
        r == change_totals(split_lines(changes@)),
{
    let chars = chars_of(changes);
    let lines = lines_of(&chars);
    let mut added: usize = 0;
    let mut deleted: usize = 0;
    let mut i: usize = 0;
    while i < lines.len()
        invariant
            i <= lines.len(),
            char_views(lines@) == split_lines(changes@),
            (added, deleted) == change_totals(char_views(lines@).take(i as int)),
        decreases lines.len() - i,
    {
        proof {
            let next = char_views(lines@).take(i + 1);
            assert(next.drop_last() =~= char_views(lines@).take(i as int));
            assert(next.last() == lines@[i as int]@);
        }
        let (first, rest) = cut_at_tab(&lines[i]);
        let (second, _) = cut_at_tab(&rest);
        added = add_capped(added, parse_count(&first));
        deleted = add_capped(deleted, parse_count(&second));
        i = i + 1;
    }
    assert(char_views(lines@).take(lines.len() as int) =~= char_views(lines@));
    (added, deleted)
}

/// The status that `probe` amounts to; see `status_of_probe`.
pub fn get_worktree_status(probe: &StatusProbe) -> (r: WorktreeStatus)
    ensures
        r == status_of_probe(*probe),
{
    if !probe.exists {
        return WorktreeStatus {
            is_orphaned: true,
            has_uncommitted: false,
            has_unpushed: false,
            modified_files: 0,
            untracked_files: 0,
            lines_added: 0,
            lines_deleted: 0,
            commits_ahead: 0,
        };
    }
    let chars = chars_of(probe.short_status.as_str());
    let lines = lines_of(&chars);
    let mark = chars_of("??");
    let mut modified: usize = 0;
    let mut untracked: usize = 0;
    let mut i: usize = 0;
    while i < lines.len()
        invariant
            i <= lines.len(),
            mark@ == "??"@,
            char_views(lines@) == split_lines(probe.short_status@),
            modified == status_lines(char_views(lines@).take(i as int), false),
            untracked == status_lines(char_views(lines@).take(i as int), true),
            modified <= i,
            untracked <= i,
        decreases lines.len() - i,
    {
        proof {
            let next = char_views(lines@).take(i + 1);
            assert(next.drop_last() =~= char_views(lines@).take(i as int));
            assert(next.last() == lines@[i as int]@);
        }
        if lines[i].len() > 0 {
            if has_at(&lines[i], 0, &mark) {
                untracked = untracked + 1;
            } else {
                modified = modified + 1;
            }
        }
        i = i + 1;
    }
    assert(char_views(lines@).take(lines.len() as int) =~= char_views(lines@));
    let ahead = read_count(probe.commits_ahead.as_str());
    let (added, deleted) = read_changes(probe.changes.as_str());
    WorktreeStatus {
        is_orphaned: false,
        has_uncommitted: modified > 0 || untracked > 0,
        has_unpushed: ahead > 0,
        modified_files: modified,
        untracked_files: untracked,
        lines_added: added,
        lines_deleted: deleted,
        commits_ahead: ahead,
    }
}

} // verus!
