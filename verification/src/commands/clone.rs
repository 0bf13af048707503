//! Cloning a repository: where it goes when no directory is named.

use crate::text::{chars_of, ends_with, has_at, string_of_range};
use vstd::prelude::*;

verus! {

/// `s` without the slashes at its end.
pub open spec fn trim_end_slashes(s: Seq<char>) -> Seq<char>
    decreases s.len(),
{
    if s.len() > 0 && s.last() == '/' {
        trim_end_slashes(s.drop_last())
    } else {
        s
    }
}

/// What follows the last slash of `s`; all of `s` if it has none.
pub open spec fn after_last_slash(s: Seq<char>) -> Seq<char>
    decreases s.len(),
{
    if s.len() == 0 || s.last() == '/' {
        Seq::empty()
    } else {
        after_last_slash(s.drop_last()).push(s.last())
    }
}

/// `s` without `suffix` at its end, if it ends with it.
pub open spec fn without_suffix(s: Seq<char>, suffix: Seq<char>) -> Seq<char> {
    if ends_with(s, suffix) {
        s.subrange(0, s.len() - suffix.len())
    } else {
        s
    }
}

/// The name a repository URL ends in: what follows the last slash, once the
/// slashes at the end and one `.git` are gone.
pub open spec fn repo_name(url: Seq<char>) -> Seq<char> {
    without_suffix(after_last_slash(trim_end_slashes(url)), ".git"@)
}

/// Cutting the slashes at the end of `s` leaves `s[..end]`, given that `end`
/// is where the last run of slashes begins.
proof fn lemma_trim(s: Seq<char>, end: int)
    requires
        0 <= end <= s.len(),
        forall|k: int| end <= k < s.len() ==> s[k] == '/',
        end > 0 ==> s[end - 1] != '/',
    ensures
        trim_end_slashes(s) == s.subrange(0, end),
    decreases s.len(),
{
    if end < s.len() {
        lemma_trim(s.drop_last(), end);
        assert(s.drop_last().subrange(0, end) =~= s.subrange(0, end));
    } else {
        assert(s.subrange(0, end) =~= s);
    }
}

/// What follows the last slash of `s` is `s[start..]`, given that `start` is
/// just behind the last slash.
proof fn lemma_after_last_slash(s: Seq<char>, start: int)
    requires
        0 <= start <= s.len(),
        forall|k: int| start <= k < s.len() ==> s[k] != '/',
        start > 0 ==> s[start - 1] == '/',
    ensures
        after_last_slash(s) == s.subrange(start, s.len() as int),
    decreases s.len(),
{
    if start < s.len() {
        lemma_after_last_slash(s.drop_last(), start);
        assert(s.drop_last().subrange(start, s.len() - 1).push(s.last()) =~= s.subrange(
            start,
            s.len() as int,
        ));
    } else {
        assert(s.subrange(start, s.len() as int) =~= Seq::<char>::empty());
    }
}

/// The directory a clone of `url` goes to when none is named: the name the
/// URL ends in, or `None` if that name is empty.
pub fn extract_repo_name(url: &str) -> (r: Option<String>)
    ensures
        repo_name(url@).len() == 0 <==> r is None,
        r matches Some(name) ==> name@ == repo_name(url@),
{
    let chars = chars_of(url);
    let mut end: usize = chars.len();
    while end > 0 && chars[end - 1] == '/'
        invariant
            end <= chars.len(),
            forall|k: int| end <= k < chars.len() ==> chars@[k] == '/',
        decreases end,
    {
        end = end - 1;
    }
    let mut start: usize = end;
    while start > 0 && chars[start - 1] != '/'
        invariant
            start <= end <= chars.len(),
            forall|k: int| start <= k < end ==> chars@[k] != '/',
        decreases start,
    {
        start = start - 1;
    }
    let ghost trimmed = chars@.subrange(0, end as int);
    let ghost name = chars@.subrange(start as int, end as int);
    proof {
        lemma_trim(chars@, end as int);
        lemma_after_last_slash(trimmed, start as int);
        assert(trimmed.subrange(start as int, end as int) =~= name);
    }
    let suffix = chars_of(".git");
    let cut: usize = if end - start >= suffix.len() && has_at(
        &chars,
        end - suffix.len(),
        &suffix,
    ) {
        end - suffix.len()
    } else {
        end
    };
    proof {
        let at = name.len() - suffix@.len();
        if at >= 0 {
            assert(name.subrange(at, at + suffix@.len()) =~= chars@.subrange(
                end - suffix@.len(),
                end as int,
            ));
        }
        assert(chars@.subrange(start as int, cut as int) =~= without_suffix(name, ".git"@));
    }
    if start == cut {
        None
    } else {
        Some(string_of_range(&chars, start, cut))
    }
}

/// The directory a clone goes to: the one that was named, or else the name
/// the URL ends in; `None` if neither gives a name.
pub fn target_directory(url: &str, directory: Option<String>) -> (r: Option<String>)
    ensures
        match directory {
            Some(named) => r == Some(named),
            None => (r is None <==> repo_name(url@).len() == 0) && (r matches Some(name)
                ==> name@ == repo_name(url@)),
        },
{
    match directory {
        Some(named) => Some(named),
        None => extract_repo_name(url),
    }
}

} // verus!
