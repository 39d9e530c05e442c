//! Scheduling and run-mode core of an interactive physics harness.
//!
//! The crate holds the decisions of the harness as verified functions on plain
//! values: how many physics steps are due at a given instant, how key presses
//! move the run mode, what the builder accepts, how large a frame's buffers
//! are, and how status codes of the virtual file system read. Threads, locks,
//! windows and the physics engine itself live with the caller, which performs
//! what these functions decide.
//!
//! Instants are whole nanoseconds from an origin of the caller's choice, and
//! frame rates are thousandths of a frame per second.

pub mod builder;
pub mod frame;
pub mod harness;
pub mod input;
pub mod mode;
pub mod scheduler;
pub mod vfs;
