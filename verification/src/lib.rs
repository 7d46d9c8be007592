//! An in-memory, read-only storage backend: an immutable index of
//! directory and file entries, opened into cursor-bearing file handles
//! that support bounded reads and relative/absolute seeks, plus
//! per-entry metadata (kind, length, modification time).

pub mod backend;
pub mod error;
pub mod file;
pub mod index;
pub mod laws;
pub mod metadata;
