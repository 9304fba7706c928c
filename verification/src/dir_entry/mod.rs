//! Directory entries: one path of the file system with its kind.
//!
//! An entry holds plain values. Whoever walks the file system makes entries from what it
//! finds there.

pub mod standalone;
pub mod validation_dir_entry;
pub mod walkdir_impl;

use vstd::prelude::*;
use crate::fs::file_type::StandaloneFileType;

verus! {

/// What every kind of entry can say about itself.
pub trait DirEntryTrait {
    /// The full path that this entry represents.
    spec fn spec_path(&self) -> Seq<char>;

    /// The kind of file that this entry points to.
    spec fn spec_file_type(&self) -> StandaloneFileType;

    /// Whether this entry was created from a symbolic link.
    spec fn spec_path_is_symlink(&self) -> bool;

    /// The full path that this entry represents.
    fn path(&self) -> (path: &str)
        ensures
            path@ == self.spec_path(),
    ;

    /// Return `true` if and only if this entry was created from a symbolic link.
    fn path_is_symlink(&self) -> (answer: bool)
        ensures
            answer == self.spec_path_is_symlink(),
    ;

    /// Return the file kind for the file that this entry points to.
    fn file_type(&self) -> (kind: StandaloneFileType)
        ensures
            kind == self.spec_file_type(),
    ;
}

/// What the rules can see of an entry: its path and the kind of file.
pub struct EntryView {
    pub path: Seq<char>,
    pub file_type: StandaloneFileType,
}

/// What the rules can see of an entry.
pub open spec fn entry_view<D: DirEntryTrait>(entry: D) -> EntryView {
    EntryView { path: entry.spec_path(), file_type: entry.spec_file_type() }
}

/// What the rules can see of a list of entries.
pub open spec fn entry_views<D: DirEntryTrait>(entries: Seq<D>) -> Seq<EntryView> {
    entries.map_values(|entry: D| entry_view(entry))
}

/// The entry that a recursive directory walk produces.
pub type WalkdirDirEntry = walkdir_impl::DirEntry;

/// The entry for a path whose kind is known.
pub type StandaloneDirEntry = standalone::DirEntry;

/// The entry for a path that may not exist.
pub type ValidationDirEntry = validation_dir_entry::DirEntry;

} // verus!
