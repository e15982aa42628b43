//! Crate index management: where the index keeps each crate's records, and what is read
//! from and written to them.

/// The 'command-line' crate index management strategy.
pub mod cli;
/// The 'git2' crate index management strategy.
pub mod git2;
/// A file of records kept as a map ordered by version.
pub mod file;
/// The records stored in the crate index.
pub mod models;
/// The layout of the index: the path of each crate's record file.
pub mod path;
/// Selecting, checking and altering the records of one crate.
pub mod records;
/// The index tree, where each crate has a file of records.
pub mod tree;

pub use models::{CrateDependency, CrateDependencyKind, CrateVersion};
