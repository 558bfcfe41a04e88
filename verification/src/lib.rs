//! A supervision library for a single long-running external process.
//!
//! The library holds the decision logic of a process watcher: a log
//! classifier that turns output lines into severities, a shared state
//! store with a bounded log ring, and the supervisor state machine that
//! decides when the watched process is spawned, restarted or stopped.
//! The surrounding runtime (spawning, stream reading, timers, HTTP) is
//! expected to drive these functions and perform the side effects they
//! prescribe.

pub mod api;
pub mod auth;
pub mod backup;
pub mod classify;
pub mod config;
pub mod console;
pub mod notify;
pub mod state;
pub mod supervisor;
pub mod text;
pub mod timer;
