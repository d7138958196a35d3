//! The repository scanner: turns a listing of the repository root's children
//! into repository entries, one per child directory.

use crate::errors::ScanError;
use vstd::prelude::*;

verus! {

/// One discovered repository: the directory's base name (display label and
/// URL segment) and its path text.
#[derive(Debug)]
pub struct RepositoryEntry {
    pub name: String,
    pub path: String,
}

/// The mathematical model of one entry: its name and path texts.
pub struct EntryModel {
    pub name: Seq<char>,
    pub path: Seq<char>,
}

impl RepositoryEntry {
    pub open spec fn model(&self) -> EntryModel {
        EntryModel { name: self.name@, path: self.path@ }
    }

    /// An entry's invariant: its name is non-empty.
    pub open spec fn wf(&self) -> bool {
        self.name@.len() > 0
    }
}

/// One child of the repository root as the filesystem reported it: its path
/// text, its base name where one could be decoded, and whether it is a
/// directory where its metadata could be read.
pub struct DirChild {
    pub path: String,
    pub name: Option<String>,
    pub is_dir: Option<bool>,
}

/// What listing the repository root produced.
pub enum DirListing {
    /// The root does not exist.
    Missing,
    /// The root exists but is not a directory.
    NotDirectory,
    /// The root could not be read.
    Unreadable,
    /// The root's immediate children, in filesystem order.
    Entries(Vec<DirChild>),
}

/// Whether a child becomes an entry: it is a directory and its base name
/// could be decoded and is non-empty.
pub open spec fn keeps(c: DirChild) -> bool {
    c.is_dir == Some(true) && c.name is Some && c.name->0@.len() > 0
}

/// The model of the entry one kept child yields: the child's own name and
/// path.
pub open spec fn child_entry(c: DirChild) -> EntryModel {
    EntryModel { name: c.name->0@, path: c.path@ }
}

/// The entries a listing's children yield, in listing order: exactly one per
/// child that `keeps` admits, none for the others.
pub open spec fn scan_model(cs: Seq<DirChild>) -> Seq<EntryModel>
    decreases cs.len(),
{
    if cs.len() == 0 {
        Seq::empty()
    } else {
        scan_model(cs.drop_last()) + (if keeps(cs.last()) {
            seq![child_entry(cs.last())]
        } else {
            Seq::empty()
        })
    }
}

/// The directory children of a listing, in order, each as the entry it
/// should yield — one per child that is a directory, none for any other.
pub open spec fn directory_entries(cs: Seq<DirChild>) -> Seq<EntryModel>
    decreases cs.len(),
{
    if cs.len() == 0 {
        Seq::empty()
    } else {
        directory_entries(cs.drop_last()) + (if cs.last().is_dir == Some(true) {
            seq![child_entry(cs.last())]
        } else {
            Seq::empty()
        })
    }
}

/// Exactly one entry per immediate subdirectory: where every directory
/// child's name decoded non-empty (undecodable names are the one exclusion
/// the entry invariant makes), the scan's entries are exactly the directory
/// children, in listing order, each under its own name and path — none
/// missing, none duplicated, and none for any non-directory child.
pub proof fn lemma_one_entry_per_directory_child(cs: Seq<DirChild>)
    requires
        forall|i: int|
            0 <= i < cs.len() ==> ((#[trigger] cs[i].is_dir) == Some(true) ==> cs[i].name is Some
                && cs[i].name->0@.len() > 0),
    ensures
        scan_model(cs) == directory_entries(cs),
    decreases cs.len(),
{
    if cs.len() == 0 {
        assert(scan_model(cs) =~= directory_entries(cs));
    } else {
        let prefix = cs.drop_last();
        let last = cs.last();
        assert(forall|i: int| 0 <= i < prefix.len() ==> prefix[i] == cs[i]);
        lemma_one_entry_per_directory_child(prefix);
        if last.is_dir == Some(true) {
            assert(keeps(last));
        } else {
            assert(!keeps(last));
        }
        assert(scan_model(cs) =~= directory_entries(cs));
    }
}

/// The models of a vector of entries, in order.
pub open spec fn entries_model(v: Seq<RepositoryEntry>) -> Seq<EntryModel> {
    v.map_values(|e: RepositoryEntry| e.model())
}

/// Whether some child's metadata could not be read.
pub open spec fn some_child_unreadable(cs: Seq<DirChild>) -> bool {
    exists|i: int| 0 <= i < cs.len() && cs[i].is_dir is None
}

/// Builds the repository entries from a listing of the root.
///
/// A missing, non-directory or unreadable root fails with the matching
/// `ScanError`; so does a listing with any child whose metadata could not be
/// read (the whole scan aborts). Otherwise the result holds exactly one entry
/// per child directory with a decodable non-empty name, in listing order, and
/// no entry for any other child; an empty listing yields an empty vector, not
/// an error.
pub fn scan(listing: &DirListing) -> (r: Result<Vec<RepositoryEntry>, ScanError>)
    ensures
        match *listing {
            DirListing::Missing => r == Err::<Vec<RepositoryEntry>, ScanError>(
                ScanError::RootMissing,
            ),
            DirListing::NotDirectory => r == Err::<Vec<RepositoryEntry>, ScanError>(
                ScanError::RootNotDirectory,
            ),
            DirListing::Unreadable => r == Err::<Vec<RepositoryEntry>, ScanError>(
                ScanError::RootUnreadable,
            ),
            DirListing::Entries(cs) => {
                if some_child_unreadable(cs@) {
                    r == Err::<Vec<RepositoryEntry>, ScanError>(ScanError::ChildUnreadable)
                } else {
                    &&& r is Ok
                    &&& entries_model(r->Ok_0@) == scan_model(cs@)
                    &&& forall|j: int| 0 <= j < r->Ok_0@.len() ==> (#[trigger] r->Ok_0@[j]).wf()
                }
            },
        },
{
    match listing {
        DirListing::Missing => Err(ScanError::RootMissing),
        DirListing::NotDirectory => Err(ScanError::RootNotDirectory),
        DirListing::Unreadable => Err(ScanError::RootUnreadable),
        DirListing::Entries(cs) => {
            let mut out: Vec<RepositoryEntry> = Vec::new();
            let mut i: usize = 0;
            proof {
                assert(entries_model(out@) =~= scan_model(cs@.take(0)));
            }
            while i < cs.len()
                invariant
                    *listing == DirListing::Entries(*cs),
                    i <= cs.len(),
                    forall|j: int| 0 <= j < i ==> (#[trigger] cs@[j].is_dir) is Some,
                    entries_model(out@) == scan_model(cs@.take(i as int)),
                    forall|j: int| 0 <= j < out@.len() ==> (#[trigger] out@[j]).wf(),
                decreases cs.len() - i,
            {
                let ghost prev_out: Seq<RepositoryEntry> = out@;
                match cs[i].is_dir {
                    None => {
                        proof {
                            assert(cs@[i as int].is_dir is None);
                            assert(some_child_unreadable(cs@)) by {
                                let w: int = i as int;
                                assert(0 <= w < cs@.len() && cs@[w].is_dir is None);
                            }
                        }
                        return Err(ScanError::ChildUnreadable);
                    },
                    Some(true) => {
                        match &cs[i].name {
                            Some(n) => {
                                if !n.as_str().is_empty() {
                                    out.push(
                                        RepositoryEntry { name: n.clone(), path: cs[i].path.clone() },
                                    );
                                }
                            },
                            None => {},
                        }
                    },
                    Some(false) => {},
                }
                proof {
                    assert(cs@.take(i + 1).drop_last() =~= cs@.take(i as int));
                    assert(cs@.take(i + 1).last() == cs@[i as int]);
                    if keeps(cs@[i as int]) {
                        assert(out@ =~= prev_out.push(out@.last()));
                        assert(entries_model(out@) =~= entries_model(prev_out) + seq![
                            out@.last().model(),
                        ]);
                        assert(entries_model(out@) =~= scan_model(cs@.take(i + 1)));
                    } else {
                        assert(out@ == prev_out);
                        assert(entries_model(out@) =~= scan_model(cs@.take(i + 1)));
                    }
                }
                i += 1;
            }
            proof {
                assert(cs@.take(cs@.len() as int) =~= cs@);
            }
            Ok(out)
        },
    }
}

} // verus!
