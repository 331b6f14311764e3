//! Extract a subdirectory of a git repository into a repository of its own,
//! keeping its history, and optionally remove it from the source afterwards.

pub mod branch;
pub mod cli;
pub mod error;
pub mod laws;
pub mod split;
