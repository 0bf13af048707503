//! The decisions each command takes once the outside world has answered.

pub mod cleanup;
pub mod clone;
pub mod continue_session;
pub mod new;
pub mod status;
