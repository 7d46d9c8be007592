//! An open file handle: the resolved file's bytes plus a cursor.
//! Reads copy from the cursor forward, bounded by the caller's buffer
//! capacity and the remaining content; seeks reposition the cursor by
//! absolute, from-end or from-current addressing with checked
//! arithmetic. The cursor may legally sit past the end of the
//! content; reads there yield nothing.

use crate::error::IoError;
use crate::metadata::{EntryKind, IncludeDirMetadata};
use vstd::prelude::*;

verus! {

/// An addressing mode for a seek: an absolute offset, an offset from
/// the end of the content, or an offset from the current cursor.
#[derive(Clone, Copy, Debug)]
pub enum SeekFrom {
    Start(u64),
    End(i64),
    Current(i64),
}

/// How many bytes a read yields: none past the end of the content,
/// otherwise the remaining content bounded by the buffer capacity.
pub open spec fn read_len(contents: Seq<u8>, index: int, max: int) -> int {
    if index >= contents.len() || max <= 0 {
        0
    } else if max <= contents.len() - index {
        max
    } else {
        contents.len() - index
    }
}

/// The bytes a read yields: the content slice starting at the cursor,
/// of length `read_len`.
pub open spec fn read_result(contents: Seq<u8>, index: int, max: int) -> Seq<u8> {
    if 0 <= index <= contents.len() {
        contents.subrange(index, index + read_len(contents, index, max))
    } else {
        Seq::empty()
    }
}

/// Where the cursor stands after a read: advanced by the bytes
/// yielded.
pub open spec fn cursor_after_read(contents: Seq<u8>, index: int, max: int) -> int {
    index + read_len(contents, index, max)
}

/// Where a seek puts the cursor, or `None` when the arithmetic would
/// go negative or overflow the representable offset range.
pub open spec fn seek_target(len: int, index: int, pos: SeekFrom) -> Option<int> {
    match pos {
        SeekFrom::Start(o) => Some(o as int),
        SeekFrom::End(d) => if 0 <= len + d <= u64::MAX {
            Some(len + d)
        } else {
            None
        },
        SeekFrom::Current(d) => if 0 <= index + d <= u64::MAX {
            Some(index + d)
        } else {
            None
        },
    }
}

/// One open file: its byte content, its path and optional
/// modification timestamp as resolved at open time, and the read
/// cursor.
#[derive(Debug)]
pub struct IncludeDirFile {
    index: u64,
    contents: Vec<u8>,
    modified: Option<u64>,
    path: String,
}

impl IncludeDirFile {
    /// The cursor's current byte offset.
    pub closed spec fn cursor(&self) -> int {
        self.index as int
    }

    /// The file's byte content.
    pub closed spec fn contents_spec(&self) -> Seq<u8> {
        self.contents@
    }

    /// The file's stored modification timestamp, if any.
    pub closed spec fn modified_spec(&self) -> Option<u64> {
        self.modified
    }

    /// The path the file was opened under.
    pub closed spec fn path_spec(&self) -> Seq<char> {
        self.path@
    }

    pub(crate) fn from_parts(contents: Vec<u8>, modified: Option<u64>, path: String) -> (r:
        IncludeDirFile)
        ensures
            r.cursor() == 0,
            r.contents_spec() == contents@,
            r.modified_spec() == modified,
            r.path_spec() == path@,
    {
        IncludeDirFile { index: 0, contents, modified, path }
    }

    /// The cursor's position, as a consumer querying "where am I now"
    /// sees it.
    pub fn position(&self) -> (r: u64)
        ensures
            r == self.cursor(),
    {
        self.index
    }

    /// Read up to `max` bytes from the cursor forward. Yields the
    /// remaining content bounded by `max` and advances the cursor by
    /// exactly the bytes yielded; at or past the end of the content it
    /// yields nothing and leaves the cursor alone.
    pub fn read(&mut self, max: usize) -> (r: Vec<u8>)
        ensures
            final(self).contents_spec() == old(self).contents_spec(),
            final(self).modified_spec() == old(self).modified_spec(),
            final(self).path_spec() == old(self).path_spec(),
            r@ == read_result(old(self).contents_spec(), old(self).cursor(), max as int),
            final(self).cursor() == cursor_after_read(
                old(self).contents_spec(),
                old(self).cursor(),
                max as int,
            ),
    {
        let mut out: Vec<u8> = Vec::new();
        if self.index >= self.contents.len() as u64 {
            return out;
        }
        let start: usize = self.index as usize;
        let remaining: usize = self.contents.len() - start;
        let n: usize = if max < remaining {
            max
        } else {
            remaining
        };
        let mut k: usize = 0;
        while k < n
            invariant
                0 <= k <= n,
                start + n <= self.contents.len(),
                out@ == self.contents@.subrange(start as int, start as int + k as int),
            decreases n - k,
        {
            out.push(self.contents[start + k]);
            proof {
                assert(out@ =~= self.contents@.subrange(start as int, start as int + k as int + 1));
            }
            k += 1;
        }
        self.index = self.index + n as u64;
        out
    }

    /// Reposition the cursor. On success the cursor moves to the
    /// computed target and the new position is returned; on a
    /// negative or overflowing target the cursor is left unchanged
    /// and `InvalidSeek` is reported.
    pub fn seek(&mut self, pos: SeekFrom) -> (r: Result<u64, IoError>)
        ensures
            final(self).contents_spec() == old(self).contents_spec(),
            final(self).modified_spec() == old(self).modified_spec(),
            final(self).path_spec() == old(self).path_spec(),
            match seek_target(
                old(self).contents_spec().len() as int,
                old(self).cursor(),
                pos,
            ) {
                Some(t) => r matches Ok(p) && p == t && final(self).cursor() == t,
                None => r matches Err(e)
                    && e.kind_spec() == crate::error::IoErrorKind::InvalidSeek
                    && e.message_spec() == "invalid seek to a negative or overflowing position"@
                    && final(self).cursor() == old(self).cursor(),
            },
    {
        match pos {
            SeekFrom::Start(o) => {
                self.index = o;
                Ok(self.index)
            },
            SeekFrom::End(d) => {
                match (self.contents.len() as u64).checked_add_signed(d) {
                    Some(t) => {
                        self.index = t;
                        Ok(t)
                    },
                    None => Err(IoError::invalid_seek()),
                }
            },
            SeekFrom::Current(d) => {
                match self.index.checked_add_signed(d) {
                    Some(t) => {
                        self.index = t;
                        Ok(t)
                    },
                    None => Err(IoError::invalid_seek()),
                }
            },
        }
    }

    /// A metadata snapshot of the open file itself: always a
    /// file-kind entry carrying this handle's length and timestamp.
    pub fn metadata(&self) -> (r: Result<IncludeDirMetadata, IoError>)
        ensures
            r matches Ok(m) && m.kind_spec() == (EntryKind::File {
                len: self.contents_spec().len() as u64,
                modified: self.modified_spec(),
            }) && m.path_spec() == self.path_spec(),
    {
        let kind = EntryKind::File { len: self.contents.len() as u64, modified: self.modified };
        Ok(IncludeDirMetadata::from_parts(self.path.clone(), kind))
    }
}

} // verus!
