//! Session manager core: the selection engine behind the interactive
//! worktree picker, the status model it displays, and the decisions the
//! commands take around it. Every function is proved against its contract;
//! the few calls into other crates are marked as such and say what is taken
//! on trust. Terminal, process and file access live with the caller.

pub mod commands;
pub mod docker;
pub mod git;
pub mod profile;
pub mod text;
pub mod tui;
