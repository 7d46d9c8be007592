//! The resource index: an immutable, flat collection of path-keyed
//! entries, each a file (byte content plus an optional modification
//! timestamp) or a directory. Built once, then only looked up.

use vstd::prelude::*;

verus! {

/// The mathematical model of one index entry.
pub enum EntryModel {
    File { contents: Seq<u8>, modified: Option<u64> },
    Dir,
}

/// One index entry as stored: a file's bytes and optional
/// modification timestamp (seconds), or a directory marker.
#[derive(Debug)]
pub enum Entry {
    File { contents: Vec<u8>, modified: Option<u64> },
    Dir,
}

impl View for Entry {
    type V = EntryModel;

    open spec fn view(&self) -> EntryModel {
        match self {
            Entry::File { contents, modified } => EntryModel::File {
                contents: contents@,
                modified: *modified,
            },
            Entry::Dir => EntryModel::Dir,
        }
    }
}

#[derive(Debug)]
struct IndexEntry {
    path: String,
    data: Entry,
}

/// An immutable tree of directory and file entries, keyed by path.
/// Lookup returns the first entry whose path matches.
#[derive(Debug)]
pub struct ResourceIndex {
    entries: Vec<IndexEntry>,
}

spec fn lookup_seq(entries: Seq<IndexEntry>, path: Seq<char>) -> Option<EntryModel>
    decreases entries.len(),
{
    if entries.len() == 0 {
        None
    } else if entries[0].path@ == path {
        Some(entries[0].data@)
    } else {
        lookup_seq(entries.drop_first(), path)
    }
}

proof fn lemma_lookup_push(entries: Seq<IndexEntry>, e: IndexEntry, path: Seq<char>)
    ensures
        lookup_seq(entries.push(e), path) == (if lookup_seq(entries, path) is Some {
            lookup_seq(entries, path)
        } else if e.path@ == path {
            Some(e.data@)
        } else {
            None::<EntryModel>
        }),
    decreases entries.len(),
{
    if entries.len() == 0 {
        assert(entries.push(e)[0] == e);
        assert(entries.push(e).drop_first() =~= Seq::<IndexEntry>::empty());
        assert(lookup_seq(Seq::<IndexEntry>::empty(), path) is None);
    } else {
        assert(entries.push(e)[0] == entries[0]);
        assert(entries.push(e).drop_first() =~= entries.drop_first().push(e));
        lemma_lookup_push(entries.drop_first(), e, path);
    }
}

impl ResourceIndex {
    /// What the index resolves `path` to, if anything.
    pub closed spec fn spec_lookup(&self, path: Seq<char>) -> Option<EntryModel> {
        lookup_seq(self.entries@, path)
    }

    /// An index with no entries: every lookup fails.
    pub fn new() -> (r: ResourceIndex)
        ensures
            forall|p: Seq<char>| #[trigger] r.spec_lookup(p) is None,
    {
        ResourceIndex { entries: Vec::new() }
    }

    /// Add a file entry. Paths already present keep their earlier
    /// binding; a fresh path now resolves to the new file.
    pub fn push_file(&mut self, path: String, contents: Vec<u8>, modified: Option<u64>)
        ensures
            forall|q: Seq<char>|
                #[trigger] final(self).spec_lookup(q) == (if old(self).spec_lookup(q) is Some {
                    old(self).spec_lookup(q)
                } else if q == path@ {
                    Some(EntryModel::File { contents: contents@, modified })
                } else {
                    None::<EntryModel>
                }),
    {
        let ghost prior = self.entries@;
        let entry = IndexEntry { path, data: Entry::File { contents, modified } };
        let ghost snapshot = entry;
        self.entries.push(entry);
        proof {
            assert forall|q: Seq<char>|
                #[trigger] self.spec_lookup(q) == (if lookup_seq(prior, q) is Some {
                    lookup_seq(prior, q)
                } else if q == snapshot.path@ {
                    Some(snapshot.data@)
                } else {
                    None::<EntryModel>
                }) by {
                lemma_lookup_push(prior, snapshot, q);
            }
        }
    }

    /// Add a directory entry. Paths already present keep their earlier
    /// binding; a fresh path now resolves to the new directory.
    pub fn push_dir(&mut self, path: String)
        ensures
            forall|q: Seq<char>|
                #[trigger] final(self).spec_lookup(q) == (if old(self).spec_lookup(q) is Some {
                    old(self).spec_lookup(q)
                } else if q == path@ {
                    Some(EntryModel::Dir)
                } else {
                    None::<EntryModel>
                }),
    {
        let ghost prior = self.entries@;
        let entry = IndexEntry { path, data: Entry::Dir };
        let ghost snapshot = entry;
        self.entries.push(entry);
        proof {
            assert forall|q: Seq<char>|
                #[trigger] self.spec_lookup(q) == (if lookup_seq(prior, q) is Some {
                    lookup_seq(prior, q)
                } else if q == snapshot.path@ {
                    Some(snapshot.data@)
                } else {
                    None::<EntryModel>
                }) by {
                lemma_lookup_push(prior, snapshot, q);
            }
        }
    }

    /// Resolve a path to its entry, if the index holds one.
    pub fn lookup_entry(&self, path: &String) -> (r: Option<&Entry>)
        ensures
            match r {
                Some(e) => self.spec_lookup(path@) == Some(e@),
                None => self.spec_lookup(path@) is None,
            },
    {
        let mut i: usize = 0;
        proof {
            assert(self.entries@.skip(0) =~= self.entries@);
        }
        while i < self.entries.len()
            invariant
                0 <= i <= self.entries.len(),
                lookup_seq(self.entries@, path@) == lookup_seq(
                    self.entries@.skip(i as int),
                    path@,
                ),
            decreases self.entries.len() - i,
        {
            if self.entries[i].path == *path {
                proof {
                    assert(self.entries@.skip(i as int)[0] == self.entries@[i as int]);
                }
                return Some(&self.entries[i].data);
            }
            proof {
                assert(self.entries@.skip(i as int)[0] == self.entries@[i as int]);
                assert(self.entries@.skip(i as int).drop_first() =~= self.entries@.skip(
                    i as int + 1,
                ));
            }
            i += 1;
        }
        proof {
            assert(self.entries@.skip(self.entries@.len() as int) =~= Seq::<IndexEntry>::empty());
        }
        None
    }
}

} // verus!
