//! Metadata snapshots: the kind, byte length and modification time of
//! one resolved entry, derived on demand. Directories report length 0
//! and never carry a modification time.

use crate::error::{IoError, IoErrorKind};
use crate::index::EntryModel;
use vstd::prelude::*;
use vstd::string::StringExecFns;

verus! {

/// A resolved entry's kind as metadata records it: a file with its
/// byte length and optional modification timestamp (seconds), or a
/// directory.
#[derive(Clone, Copy, Debug)]
pub enum EntryKind {
    File { len: u64, modified: Option<u64> },
    Dir,
}

/// The metadata kind an index entry gives rise to.
pub open spec fn kind_of_entry(e: EntryModel) -> EntryKind {
    match e {
        EntryModel::File { contents, modified } => EntryKind::File {
            len: contents.len() as u64,
            modified,
        },
        EntryModel::Dir => EntryKind::Dir,
    }
}

/// Whether a kind is a directory.
pub open spec fn spec_is_dir(k: EntryKind) -> bool {
    k is Dir
}

/// The length a kind reports: a file's byte count, 0 for a directory.
pub open spec fn spec_len(k: EntryKind) -> u64 {
    match k {
        EntryKind::File { len, .. } => len,
        EntryKind::Dir => 0,
    }
}

/// The modification time a kind reports: a file's stored timestamp if
/// any; directories never have one.
pub open spec fn spec_modified(k: EntryKind) -> Option<u64> {
    match k {
        EntryKind::File { modified, .. } => modified,
        EntryKind::Dir => None,
    }
}

/// An immutable snapshot of one resolved entry: its path and kind.
#[derive(Debug)]
pub struct IncludeDirMetadata {
    path: String,
    kind: EntryKind,
}

impl IncludeDirMetadata {
    pub closed spec fn kind_spec(&self) -> EntryKind {
        self.kind
    }

    pub closed spec fn path_spec(&self) -> Seq<char> {
        self.path@
    }

    pub(crate) fn from_parts(path: String, kind: EntryKind) -> (r: IncludeDirMetadata)
        ensures
            r.kind_spec() == kind,
            r.path_spec() == path@,
    {
        IncludeDirMetadata { path, kind }
    }

    /// True iff the entry this snapshot was taken of is a directory.
    pub fn is_dir(&self) -> (r: bool)
        ensures
            r == spec_is_dir(self.kind_spec()),
    {
        match self.kind {
            EntryKind::Dir => true,
            EntryKind::File { .. } => false,
        }
    }

    /// The stored modification time of a file entry; `NotFound` for a
    /// directory or a file without one.
    pub fn modified(&self) -> (r: Result<u64, IoError>)
        ensures
            match spec_modified(self.kind_spec()) {
                Some(t) => r matches Ok(x) && x == t,
                None => r matches Err(e) && e.kind_spec() == IoErrorKind::NotFound
                    && e.message_spec() == "cannot access metadata for "@ + self.path_spec(),
            },
    {
        match self.kind {
            EntryKind::File { modified: Some(t), .. } => Ok(t),
            _ => Err(
                IoError::not_found(
                    String::from_str("cannot access metadata for ").concat(self.path.as_str()),
                ),
            ),
        }
    }

    /// The entry's byte length: a file's content length, 0 for a
    /// directory.
    pub fn len(&self) -> (r: u64)
        ensures
            r == spec_len(self.kind_spec()),
    {
        match self.kind {
            EntryKind::File { len, .. } => len,
            EntryKind::Dir => 0,
        }
    }
}

} // verus!
