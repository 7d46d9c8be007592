//! The backend adapter: resolves paths against the resource index,
//! opening files into cursor-bearing handles and deriving metadata
//! snapshots, turning missing entries into `NotFound` errors.

use crate::error::{IoError, IoErrorKind};
use crate::file::IncludeDirFile;
use crate::index::{Entry, EntryModel, ResourceIndex};
use crate::metadata::{kind_of_entry, IncludeDirMetadata};
use vstd::prelude::*;
use vstd::string::StringExecFns;

verus! {

/// A lightweight handle on a shared, immutable resource index. Every
/// open file and metadata snapshot is derived from the index it
/// references; the backend itself carries no other state.
#[derive(Clone, Copy)]
pub struct IncludeDirBackend<'a> {
    inner: &'a ResourceIndex,
}

impl<'a> IncludeDirBackend<'a> {
    /// What this backend's index resolves `path` to, if anything.
    pub closed spec fn spec_lookup(&self, path: Seq<char>) -> Option<EntryModel> {
        self.inner.spec_lookup(path)
    }

    /// A backend serving the given index.
    pub fn new(inner: &'a ResourceIndex) -> (r: IncludeDirBackend<'a>)
        ensures
            forall|p: Seq<char>| #[trigger] r.spec_lookup(p) == inner.spec_lookup(p),
    {
        IncludeDirBackend { inner }
    }

    /// Open `path` as a file. Succeeds iff the path resolves to a
    /// file entry, handing back a handle over that file's bytes with
    /// the cursor at 0; a missing path, or one resolving to a
    /// directory, fails with `NotFound`.
    pub fn open(&self, path: &String) -> (r: Result<IncludeDirFile, IoError>)
        ensures
            match self.spec_lookup(path@) {
                Some(EntryModel::File { contents, modified }) => r matches Ok(f)
                    && f.contents_spec() == contents && f.modified_spec() == modified
                    && f.cursor() == 0 && f.path_spec() == path@,
                _ => r matches Err(e) && e.kind_spec() == IoErrorKind::NotFound
                    && e.message_spec() == path@ + " is not a file."@,
            },
    {
        match self.inner.lookup_entry(path) {
            Some(Entry::File { contents, modified }) => Ok(
                IncludeDirFile::from_parts(copy_bytes(contents), *modified, path.clone()),
            ),
            _ => Err(IoError::not_found(path.clone().concat(" is not a file."))),
        }
    }

    /// Resolve `path` to a metadata snapshot of whatever entry it
    /// names, file or directory. A missing path fails with
    /// `NotFound`.
    pub fn metadata(&self, path: &String) -> (r: Result<IncludeDirMetadata, IoError>)
        ensures
            match self.spec_lookup(path@) {
                Some(e) => r matches Ok(m) && m.kind_spec() == kind_of_entry(e) && m.path_spec()
                    == path@,
                None => r matches Err(e) && e.kind_spec() == IoErrorKind::NotFound
                    && e.message_spec() == path@ + " not found."@,
            },
    {
        match self.inner.lookup_entry(path) {
            Some(entry) => {
                let kind = match entry {
                    Entry::File { contents, modified } => crate::metadata::EntryKind::File {
                        len: contents.len() as u64,
                        modified: *modified,
                    },
                    Entry::Dir => crate::metadata::EntryKind::Dir,
                };
                Ok(IncludeDirMetadata::from_parts(path.clone(), kind))
            },
            None => Err(IoError::not_found(path.clone().concat(" not found."))),
        }
    }
}

/// A fresh copy of a byte vector, element for element.
fn copy_bytes(src: &Vec<u8>) -> (r: Vec<u8>)
    ensures
        r@ == src@,
{
    let mut out: Vec<u8> = Vec::new();
    let mut i: usize = 0;
    while i < src.len()
        invariant
            0 <= i <= src.len(),
            out@ == src@.subrange(0, i as int),
        decreases src.len() - i,
    {
        out.push(src[i]);
        proof {
            assert(out@ =~= src@.subrange(0, i as int + 1));
        }
        i += 1;
    }
    proof {
        assert(src@.subrange(0, src@.len() as int) =~= src@);
    }
    out
}

} // verus!
