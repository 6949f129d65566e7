//! Keeps a login session's `LockedHint` asserted while a screen locker runs.
//!
//! The library holds the decisions: which invocation the command line asks
//! for, how the session's properties are read, and the supervisor that orders
//! the bus calls and the locker's life so that the hint is cleared only after
//! the locker exited cleanly.
pub mod cli;
pub mod error;
pub mod session;
pub mod supervisor;
pub mod runs;
