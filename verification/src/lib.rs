//! Generation plans for shell completion scripts and manual pages of a
//! command-line tool, described by a `CommandNode` hierarchy.
//!
//! The library computes, for a given command hierarchy, which files the two
//! generators produce (their names and their rendered contents); writing the
//! files to an output directory is left to the caller.

pub mod completions;
pub mod dialect;
pub mod error;
pub mod hierarchy;
pub mod manpages;
pub mod render;

pub use dialect::ShellDialect;
pub use error::Error;
pub use hierarchy::CommandNode;
