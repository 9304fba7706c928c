//! The finder for the reports of the native depth-first walks `ftw` and `nftw`.
//!
//! The native walks hand each node to one callback and have no place for the caller's own
//! data. The entries are therefore gathered in a buffer that the caller keeps per thread.
//! Every collection starts by clearing that buffer, so that nothing of an earlier walk is
//! seen again.

use vstd::prelude::*;
use crate::dir_entry::{entry_views, DirEntryTrait, EntryView, StandaloneDirEntry};
use crate::file_finder::{filter_entries, FileFinderTrait};
use crate::fs::constants::FTW_F;
use crate::fs::file_type::StandaloneFileType;

verus! {

/// The entry that `ftw` reports with a path and a type flag.
pub open spec fn ftw_entry(node: (String, i32)) -> EntryView {
    EntryView { path: node.0@, file_type: StandaloneFileType::spec_from_ftw(node.1 as int) }
}

/// The entries that a walk with `ftw` gives: one for each node.
pub open spec fn ftw_entries(reported: Seq<(String, i32)>) -> Seq<EntryView> {
    reported.map_values(|node: (String, i32)| ftw_entry(node))
}

/// The entries that a walk with `nftw` gives: one for each node that is a regular file.
pub open spec fn nftw_entries(reported: Seq<(String, i32)>) -> Seq<EntryView> {
    reported.filter(|node: (String, i32)| node.1 == FTW_F).map_values(
        |node: (String, i32)| ftw_entry(node),
    )
}

/// Adding a node at the end of a report adds its entry at the end, if it is a regular file.
pub proof fn lemma_nftw_entries_push(reported: Seq<(String, i32)>, node: (String, i32))
    ensures
        nftw_entries(reported.push(node)) == (if node.1 == FTW_F {
            nftw_entries(reported).push(ftw_entry(node))
        } else {
            nftw_entries(reported)
        }),
{
    reveal(Seq::filter);
    assert(reported.push(node).drop_last() =~= reported);
    let regular = reported.filter(|node: (String, i32)| node.1 == FTW_F);
    if node.1 == FTW_F {
        assert(regular.push(node).map_values(|node: (String, i32)| ftw_entry(node))
            =~= nftw_entries(reported).push(ftw_entry(node)));
    }
}

/// Callback for `ftw`: takes every node into the buffer and lets the walk go on.
pub fn ftw_collector(found: &mut Vec<StandaloneDirEntry>, fpath: &str, typeflag: i32) -> (status:
    i32)
    ensures
        status == 0,
        entry_views(final(found)@) == entry_views(old(found)@).push(
            EntryView { path: fpath@, file_type: StandaloneFileType::spec_from_ftw(typeflag as int) },
        ),
{
    let dir_entry = StandaloneDirEntry::from_path_with_file_type(
        fpath,
        StandaloneFileType::from_ftw(typeflag),
    );
    found.push(dir_entry);
    assert(entry_views(found@) =~= entry_views(old(found)@).push(
        EntryView { path: fpath@, file_type: StandaloneFileType::spec_from_ftw(typeflag as int) },
    ));
    0
}

/// Callback for `nftw`: takes a node into the buffer if it is a regular file, and lets the
/// walk go on.
pub fn nftw_collector(found: &mut Vec<StandaloneDirEntry>, fpath: &str, typeflag: i32) -> (status:
    i32)
    ensures
        status == 0,
        typeflag == FTW_F ==> entry_views(final(found)@) == entry_views(old(found)@).push(
            EntryView { path: fpath@, file_type: StandaloneFileType::spec_from_ftw(typeflag as int) },
        ),
        typeflag != FTW_F ==> *final(found) == *old(found),
{
    if typeflag == FTW_F {
        let dir_entry = StandaloneDirEntry::from_path_with_file_type(
            fpath,
            StandaloneFileType::from_ftw(typeflag),
        );
        found.push(dir_entry);
        assert(entry_views(found@) =~= entry_views(old(found)@).push(
            EntryView {
                path: fpath@,
                file_type: StandaloneFileType::spec_from_ftw(typeflag as int),
            },
        ));
    }
    0
}

/// Empties the buffer.
pub fn clear_entries(found: &mut Vec<StandaloneDirEntry>)
    ensures
        final(found)@.len() == 0,
{
    found.clear();
}

/// A copy of the entries in the buffer.
pub fn copy_entries(found: &Vec<StandaloneDirEntry>) -> (copy: Vec<StandaloneDirEntry>)
    ensures
        entry_views(copy@) == entry_views(found@),
{
    let mut copy: Vec<StandaloneDirEntry> = Vec::with_capacity(found.len());
    let mut i: usize = 0;
    while i < found.len()
        invariant
            i <= found@.len(),
            copy@.len() == i,
            forall|k: int|
                0 <= k < i ==> (#[trigger] copy@[k]).spec_path() == found@[k].spec_path()
                    && copy@[k].spec_file_type() == found@[k].spec_file_type(),
        decreases found@.len() - i,
    {
        copy.push(found[i].clone());
        i += 1;
    }
    assert(entry_views(copy@) =~= entry_views(found@));
    copy
}

/// The entries of a walk with `ftw`, given the nodes that the walk reported.
///
/// Whatever the buffer held before, afterwards it holds the entries of this walk, and a
/// copy of them is returned.
pub fn collect_dir_entries_ftw(found: &mut Vec<StandaloneDirEntry>, reported: &[(String, i32)]) -> (entries:
    Vec<StandaloneDirEntry>)
    ensures
        entry_views(entries@) == ftw_entries(reported@),
        entry_views(final(found)@) == ftw_entries(reported@),
{
    clear_entries(found);
    let mut i: usize = 0;
    assert(entry_views(found@) =~= ftw_entries(reported@.take(0)));
    while i < reported.len()
        invariant
            i <= reported@.len(),
            entry_views(found@) == ftw_entries(reported@.take(i as int)),
        decreases reported@.len() - i,
    {
        let ghost before = entry_views(found@);
        ftw_collector(found, reported[i].0.as_str(), reported[i].1);
        assert(ftw_entries(reported@.take(i + 1)) =~= before.push(ftw_entry(reported@[i as int])));
        i += 1;
    }
    assert(reported@.take(reported@.len() as int) =~= reported@);
    copy_entries(found)
}

/// The entries of a walk with `nftw`, given the nodes that the walk reported.
///
/// Whatever the buffer held before, afterwards it holds the entries of this walk, and a
/// copy of them is returned.
pub fn collect_dir_entries_nftw(found: &mut Vec<StandaloneDirEntry>, reported: &[(String, i32)]) -> (entries:
    Vec<StandaloneDirEntry>)
    ensures
        entry_views(entries@) == nftw_entries(reported@),
        entry_views(final(found)@) == nftw_entries(reported@),
{
    clear_entries(found);
    let mut i: usize = 0;
    assert(entry_views(found@) =~= nftw_entries(reported@.take(0)));
    while i < reported.len()
        invariant
            i <= reported@.len(),
            entry_views(found@) == nftw_entries(reported@.take(i as int)),
        decreases reported@.len() - i,
    {
        proof {
            assert(reported@.take(i + 1) =~= reported@.take(i as int).push(reported@[i as int]));
            lemma_nftw_entries_push(reported@.take(i as int), reported@[i as int]);
        }
        nftw_collector(found, reported[i].0.as_str(), reported[i].1);
        i += 1;
    }
    assert(reported@.take(reported@.len() as int) =~= reported@);
    copy_entries(found)
}

/// The finder for the reports of the native depth-first walk.
#[derive(Clone)]
pub struct FileFinder {}

impl FileFinder {
    /// A finder.
    pub fn new() -> Self {
        FileFinder {  }
    }
}

impl FileFinderTrait for FileFinder {
    type DirEntry = StandaloneDirEntry;

    fn walk_dir<F: Fn(&Self::DirEntry) -> bool>(
        &self,
        walked: Vec<Self::DirEntry>,
        filter: F,
    ) -> (kept: Vec<Self::DirEntry>) {
        filter_entries(walked, filter)
    }
}

} // verus!
