//! Memoized command execution.
//!
//! The library holds the logic of a command memoizer: the cache key of an
//! invocation, the layout and naming of cache entries and staging
//! directories, the decisions of the atomic-publish protocol and of the
//! orphan sweep, the bookkeeping of the dual-destination output writer, and
//! the coordinator that ties them together as a state machine. The program
//! around it performs the file-system, process and console work.

pub mod error;
pub mod digest;
pub mod text;
pub mod cache;
pub mod executor;
pub mod memo;
pub mod coordinator;
