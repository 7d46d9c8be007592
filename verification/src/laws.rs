//! Library-wide laws, stated over the spec functions that the
//! contracts of `open`, `read`, `seek` and the metadata accessors
//! speak of, and proved once for all inputs.

use crate::file::{cursor_after_read, read_result, seek_target, SeekFrom};
use crate::index::EntryModel;
use crate::metadata::{kind_of_entry, spec_is_dir, spec_len, spec_modified};
use vstd::prelude::*;

verus! {

/// A path resolving to a directory yields a metadata snapshot that
/// reports a directory, length 0, and no modification time.
pub proof fn lemma_directory_metadata(e: EntryModel)
    requires
        e is Dir,
    ensures
        spec_is_dir(kind_of_entry(e)),
        spec_len(kind_of_entry(e)) == 0,
        spec_modified(kind_of_entry(e)) is None,
{
}

/// Where the cursor stands after a sequence of reads with the given
/// buffer capacities.
pub open spec fn cursor_after_reads(contents: Seq<u8>, index: int, maxes: Seq<int>) -> int
    decreases maxes.len(),
{
    if maxes.len() == 0 {
        index
    } else {
        cursor_after_reads(
            contents,
            cursor_after_read(contents, index, maxes[0]),
            maxes.drop_first(),
        )
    }
}

/// Everything a sequence of reads with the given buffer capacities
/// yields, in order.
pub open spec fn reads_concat(contents: Seq<u8>, index: int, maxes: Seq<int>) -> Seq<u8>
    decreases maxes.len(),
{
    if maxes.len() == 0 {
        Seq::empty()
    } else {
        read_result(contents, index, maxes[0]) + reads_concat(
            contents,
            cursor_after_read(contents, index, maxes[0]),
            maxes.drop_first(),
        )
    }
}

/// Sequential reads yield a contiguous run of the content: their
/// concatenation is exactly the content between the starting cursor
/// and the final cursor, which never passes the end.
pub proof fn lemma_reads_are_contiguous(contents: Seq<u8>, index: int, maxes: Seq<int>)
    requires
        0 <= index <= contents.len(),
    ensures
        index <= cursor_after_reads(contents, index, maxes) <= contents.len(),
        reads_concat(contents, index, maxes) == contents.subrange(
            index,
            cursor_after_reads(contents, index, maxes),
        ),
    decreases maxes.len(),
{
    if maxes.len() == 0 {
        assert(contents.subrange(index, index) =~= Seq::<u8>::empty());
    } else {
        let next = cursor_after_read(contents, index, maxes[0]);
        lemma_reads_are_contiguous(contents, next, maxes.drop_first());
        let fin = cursor_after_reads(contents, next, maxes.drop_first());
        assert(contents.subrange(index, next) + contents.subrange(next, fin) =~= contents.subrange(
            index,
            fin,
        ));
    }
}

/// Repeated reads of a freshly opened handle, once the cursor has
/// consumed the whole content, concatenate to exactly that content:
/// every byte, in order, none twice.
pub proof fn lemma_reads_exhaust_content(contents: Seq<u8>, maxes: Seq<int>)
    requires
        cursor_after_reads(contents, 0, maxes) == contents.len(),
    ensures
        reads_concat(contents, 0, maxes) == contents,
{
    lemma_reads_are_contiguous(contents, 0, maxes);
    assert(contents.subrange(0, contents.len() as int) =~= contents);
}

/// A read with any positive buffer capacity makes progress while
/// content remains: repeated reads reach the end of the content.
pub proof fn lemma_read_progress(contents: Seq<u8>, index: int, max: int)
    requires
        0 <= index < contents.len(),
        max >= 1,
    ensures
        cursor_after_read(contents, index, max) > index,
{
}

/// At or past the end of the content a read yields nothing and
/// leaves the cursor alone: end-of-stream is idempotent.
pub proof fn lemma_read_at_end(contents: Seq<u8>, index: int, max: int)
    requires
        index >= contents.len(),
    ensures
        read_result(contents, index, max) == Seq::<u8>::empty(),
        cursor_after_read(contents, index, max) == index,
{
    if index <= contents.len() {
        assert(contents.subrange(index, index) =~= Seq::<u8>::empty());
    }
}

/// Seeking absolute to an offset within the content then reading the
/// remainder yields exactly the content's suffix from that offset;
/// seeking absolute past the end then reading yields nothing, with
/// no error anywhere.
pub proof fn lemma_seek_then_read(contents: Seq<u8>, index: int, o: u64, max: int)
    ensures
        seek_target(contents.len() as int, index, SeekFrom::Start(o)) == Some(o as int),
        o <= contents.len() && max >= contents.len() - o ==> read_result(contents, o as int, max)
            == contents.subrange(o as int, contents.len() as int),
        o >= contents.len() ==> read_result(contents, o as int, max) == Seq::<u8>::empty(),
{
    if o as int == contents.len() as int {
        assert(contents.subrange(o as int, o as int) =~= Seq::<u8>::empty());
    }
}

/// A from-end seek by a non-positive offset `d` lands on
/// `len + d` (that is, `len - k` for `d == -k`) whenever `-d <= len`,
/// and fails with an invalid-seek error whenever `-d > len`.
pub proof fn lemma_seek_from_end(len: int, index: int, d: i64)
    requires
        0 <= len <= u64::MAX,
        d <= 0,
    ensures
        -d <= len ==> seek_target(len, index, SeekFrom::End(d)) == Some(len + d),
        -d > len ==> seek_target(len, index, SeekFrom::End(d)) is None,
{
}

/// A from-current seek by `+d` followed by one by `-d` returns the
/// cursor to where it started, whenever the first seek succeeds.
pub proof fn lemma_seek_current_reversible(len: int, index: int, d: i64, back: i64)
    requires
        0 <= index <= u64::MAX,
        back + d == 0,
        seek_target(len, index, SeekFrom::Current(d)) is Some,
    ensures
        seek_target(
            len,
            seek_target(len, index, SeekFrom::Current(d)).unwrap(),
            SeekFrom::Current(back),
        ) == Some(index),
{
}

} // verus!
