//! Drives a container toolchain through a build, start, test and stop cycle
//! of a dotfiles environment, and guarantees the teardown of the container
//! whatever step fails.
//!
//! A [`session::Session`] holds the decisions: it names the next action, and
//! takes in what the outside world reports of it. Running the actions is left
//! to the caller.

pub mod command;
pub mod laws;
pub mod mode;
pub mod notice;
pub mod session;
