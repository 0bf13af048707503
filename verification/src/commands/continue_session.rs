//! Going back into a session: which image belongs to its branch.

use crate::profile::session_image;
use crate::text::{chars_of, has_at, starts_with, string_of_range};
use vstd::prelude::*;

verus! {

/// The name of the session on `branch`: the branch without `prefix` in front,
/// or all of the branch if it does not begin with it.
pub open spec fn session_of(branch: Seq<char>, prefix: Seq<char>) -> Seq<char> {
    if starts_with(branch, prefix) {
        branch.skip(prefix.len() as int)
    } else {
        branch
    }
}

/// The name of the session on `branch`.
pub fn session_name(branch: &str, prefix: &str) -> (r: String)
    ensures
        r@ == session_of(branch@, prefix@),
{
    let chars = chars_of(branch);
    let mark = chars_of(prefix);
    if has_at(&chars, 0, &mark) {
        let rest = string_of_range(&chars, mark.len(), chars.len());
        assert(chars@.subrange(mark.len() as int, chars.len() as int) =~= chars@.skip(
            mark.len() as int,
        ));
        rest
    } else {
        String::from_str(branch)
    }
}

/// The image of the session on `branch`, where session branches begin with
/// the agent's name and a slash.
pub fn image_for_branch(agent: &str, branch: &str) -> (r: String)
    ensures
        r@ == agent@ + "-vibe-"@ + session_of(branch@, agent@ + "/"@),
{
    let prefix = crate::profile::worktree_prefix(agent);
    let session = session_name(branch, prefix.as_str());
    session_image(agent, session.as_str())
}

} // verus!
