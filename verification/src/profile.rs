//! The names a deployment derives from the command-line agent it runs: every
//! session branch, image and configuration directory carries the agent's name.

use vstd::prelude::*;

verus! {

/// The prefix of every session branch: the agent's name and a slash.
pub fn worktree_prefix(agent: &str) -> (r: String)
    ensures
        r@ == agent@ + "/"@,
{
    let mut out = String::from_str(agent);
    out.append("/");
    out
}

/// The image that is there for every project.
pub fn default_image(agent: &str) -> (r: String)
    ensures
        r@ == "sirsedev/"@ + agent@ + "-vibe"@,
{
    let mut out = String::from_str("sirsedev/");
    out.append(agent);
    out.append("-vibe");
    out
}

/// The name of the image built for one session, or for setting a project up.
pub fn session_image(agent: &str, session: &str) -> (r: String)
    ensures
        r@ == agent@ + "-vibe-"@ + session@,
{
    let mut out = String::from_str(agent);
    out.append("-vibe-");
    out.append(session);
    out
}

/// The directory inside a worktree that belongs to the agent and not to the
/// work: a dot, the agent's name and a slash.
pub fn agent_directory(agent: &str) -> (r: String)
    ensures
        r@ == "."@ + agent@ + "/"@,
{
    let mut out = String::from_str(".");
    out.append(agent);
    out.append("/");
    out
}

/// The session name under which a project is set up.
pub const SETUP_SESSION: &'static str = "setup";

/// What the agent is asked to do when a project is set up: write an image
/// description on top of `base_image`, which already holds `product`.
pub open spec fn setup_prompt_text(base_image: Seq<char>, product: Seq<char>) -> Seq<char> {
    "Analyze this project and create a Dockerfile.vibes file that includes all necessary dependencies and tools for development. The Dockerfile should be based on "@
        + base_image + " as the base image (which already includes "@ + product
        + "). Add any project-specific dependencies needed to build and run this project. Please examine the project structure, dependencies, and build system to determine the requirements."@
}

/// The prompt for setting a project up; see `setup_prompt_text`.
pub fn setup_prompt(base_image: &str, product: &str) -> (r: String)
    ensures
        r@ == setup_prompt_text(base_image@, product@),
{
    let mut out = String::from_str(
        "Analyze this project and create a Dockerfile.vibes file that includes all necessary dependencies and tools for development. The Dockerfile should be based on ",
    );
    out.append(base_image);
    out.append(" as the base image (which already includes ");
    out.append(product);
    out.append(
        "). Add any project-specific dependencies needed to build and run this project. Please examine the project structure, dependencies, and build system to determine the requirements.",
    );
    out
}

} // verus!
