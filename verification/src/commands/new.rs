//! A new session: its random name, and the branch and image named after it.

use crate::profile::{session_image, worktree_prefix};
use rand::Rng;
use vstd::prelude::*;

verus! {

/// The characters a session name is made of.
pub const CHARSET: [char; 36] = [
    'a', 'b', 'c', 'd', 'e', 'f', 'g', 'h', 'i', 'j', 'k', 'l', 'm', 'n', 'o', 'p', 'q', 'r',
    's', 't', 'u', 'v', 'w', 'x', 'y', 'z', '0', '1', '2', '3', '4', '5', '6', '7', '8', '9',
];

/// Length of a session name.
pub const NAME_LENGTH: usize = 8;

/// `rand::Rng::random_range` over `0..bound` on the generator of the current
/// thread, `rand::rng()`. The call panics on an empty range, so `bound` must
/// not be zero; whatever is drawn lies in the range.
#[verifier::external_body]
fn random_below(bound: usize) -> (r: usize)
    requires
        bound > 0,
    ensures
        r < bound,
{
    rand::rng().random_range(0..bound)
}

/// The name that a sequence of draws spells: one character of `CHARSET` per draw.
pub open spec fn spelled(draws: Seq<usize>) -> Seq<char> {
    Seq::new(draws.len(), |i: int| CHARSET@[draws[i] as int])
}

/// Every character of `name` is a lower-case letter or a digit of `CHARSET`.
pub open spec fn is_session_name(name: Seq<char>) -> bool {
    forall|i: int| 0 <= i < name.len() ==> CHARSET@.contains(#[trigger] name[i])
}

/// The name that `draws` spells.
pub fn name_from_draws(draws: &Vec<usize>) -> (r: String)
    requires
        forall|i: int| 0 <= i < draws.len() ==> draws[i] < CHARSET@.len(),
    ensures
        r@ == spelled(draws@),
        is_session_name(r@),
{
    let mut out = String::new();
    let mut i: usize = 0;
    while i < draws.len()
        invariant
            i <= draws.len(),
            forall|k: int| 0 <= k < draws.len() ==> draws[k] < CHARSET@.len(),
            out@ == spelled(draws@).take(i as int),
        decreases draws.len() - i,
    {
        out.push(CHARSET[draws[i]]);
        assert(out@ =~= spelled(draws@).take(i + 1));
        i = i + 1;
    }
    assert(spelled(draws@).take(draws.len() as int) =~= spelled(draws@));
    assert forall|k: int| 0 <= k < out@.len() implies CHARSET@.contains(#[trigger] out@[k]) by {
        assert(CHARSET@[draws[k] as int] == out@[k]);
    }
    out
}

/// A random name of `length` characters, each drawn from `CHARSET`.
pub fn generate_random_name(length: usize) -> (r: String)
    ensures
        r@.len() == length,
        is_session_name(r@),
{
    let mut draws: Vec<usize> = Vec::new();
    let mut i: usize = 0;
    while i < length
        invariant
            i <= length,
            draws.len() == i,
            forall|k: int| 0 <= k < draws.len() ==> draws[k] < CHARSET@.len(),
        decreases length - i,
    {
        let draw = random_below(CHARSET.len());
        draws.push(draw);
        i = i + 1;
    }
    name_from_draws(&draws)
}

/// The branch and the image of a new session.
#[derive(Clone, Debug, PartialEq, Eq)]
pub struct SessionNames {
    pub worktree_name: String,
    pub image_name: String,
}

/// The names of the session called `session`: its branch carries the agent's
/// prefix, its image the agent's image prefix.
pub fn session_names(agent: &str, session: &str) -> (r: SessionNames)
    ensures
        r.worktree_name@ == agent@ + "/"@ + session@,
        r.image_name@ == agent@ + "-vibe-"@ + session@,
{
    let mut worktree_name = worktree_prefix(agent);
    worktree_name.append(session);
    SessionNames { worktree_name, image_name: session_image(agent, session) }
}

} // verus!
