//! A verified session controller for a terminal-multiplexer "scratch"
//! popup: it decides, from the multiplexer's reported state, whether to
//! create, attach, detach, or do nothing, and builds the exact argument
//! vectors for each multiplexer command.  All subprocess plumbing lives
//! outside the library; the controller is a pure state machine driven by
//! the answers those subprocesses return.

pub mod cmd;
pub mod controller;
pub mod model;
pub mod text;
