//! A dashboard core for several interactive shell sessions shown side by side.
//!
//! Each session captures the output of its shell, line by line, in a bounded
//! buffer that a renderer samples at a fixed cadence. This crate holds the
//! data model and every decision of that system: what a buffer keeps, which
//! sessions count as active, what each pane shows, how the screen is divided,
//! and how a session runner and the render loop move from step to step. The
//! terminal, the pseudo-terminals and the threads live with the caller.

pub mod buffer;
pub mod command;
pub mod control;
pub mod dashboard;
pub mod frame;
pub mod layout;
pub mod observer;
pub mod pane;
pub mod runner;
pub mod session;
pub mod shared;
pub mod text;
