//! Process isolation for tests: the decisions behind running each test body
//! in a child process of its own and judging it by how that process ended.
//!
//! A launch is driven from outside: the caller creates files, spawns and
//! waits, and reports back; the state machines in `launch` and
//! `supervisor` decide what happens next. `protocol` and `traces` state
//! what holds of them over whole runs.

pub mod attribute;
pub mod command;
pub mod context;
pub mod error;
pub mod identity;
pub mod launch;
pub mod marker;
pub mod protocol;
pub mod selection;
pub mod supervisor;
pub mod traces;
pub mod verdict;
