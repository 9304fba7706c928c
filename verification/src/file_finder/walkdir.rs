//! The finder for the reports of a generic recursive directory walk.

use vstd::prelude::*;
use crate::dir_entry::WalkdirDirEntry;
use crate::file_finder::{filter_entries, FileFinderTrait};

verus! {

/// The entries that a walk could read, in the order of the report.
pub open spec fn readable_entries<E>(reported: Seq<Result<WalkdirDirEntry, E>>) -> Seq<
    WalkdirDirEntry,
> {
    reported.filter_map(
        |node: Result<WalkdirDirEntry, E>|
            match node {
                Ok(entry) => Some(entry),
                Err(_) => None,
            },
    )
}

/// The finder for the reports of a generic recursive directory walk.
#[derive(Clone)]
pub struct FileFinder {}

impl FileFinder {
    /// A finder.
    pub fn new() -> Self {
        FileFinder {  }
    }

    /// The entries of a report. What the walk could not read is passed over in silence: one
    /// unreadable directory or broken link does not end a scan.
    pub fn collect_dir_entries<E>(reported: Vec<Result<WalkdirDirEntry, E>>) -> (entries: Vec<
        WalkdirDirEntry,
    >)
        ensures
            entries@ == readable_entries(reported@),
    {
        let ghost all = reported@;
        let mut entries: Vec<WalkdirDirEntry> = Vec::new();
        proof {
            reveal(Seq::filter_map);
            assert(all.take(0) =~= Seq::<Result<WalkdirDirEntry, E>>::empty());
        }
        for node in it: reported
            invariant
                it.seq() == all,
                entries@ == readable_entries(all.take(it.index() as int)),
        {
            let ghost n = it.index() as int;
            let ghost before = entries@;
            proof {
                reveal(Seq::filter_map);
                assert(all.take(n + 1).drop_last() =~= all.take(n));
                assert(all.take(n + 1).last() == node);
            }
            match node {
                Ok(entry) => {
                    entries.push(entry);
                    assert(entries@ =~= before + seq![entry]);
                },
                Err(_) => {},
            }
        }
        proof {
            assert(all.take(all.len() as int) =~= all);
        }
        entries
    }
}

impl FileFinderTrait for FileFinder {
    type DirEntry = WalkdirDirEntry;

    fn walk_dir<F: Fn(&Self::DirEntry) -> bool>(
        &self,
        walked: Vec<Self::DirEntry>,
        filter: F,
    ) -> (kept: Vec<Self::DirEntry>) {
        filter_entries(walked, filter)
    }
}

} // verus!
