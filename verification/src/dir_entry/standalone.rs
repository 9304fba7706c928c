//! An entry made from a path whose kind is known.

use vstd::prelude::*;
use crate::dir_entry::DirEntryTrait;
use crate::fs::file_type::{FileTypeTrait, StandaloneFileType};

verus! {

/// An entry for a path together with the kind of file found there.
#[derive(Debug)]
pub struct DirEntry {
    raw: String,
    file_type: StandaloneFileType,
}

impl DirEntry {
    /// The entry for a path that was looked up in the file system.
    ///
    /// `looked_up` is what the look-up gave: the kind of file at the path, or the reason why
    /// there is none to tell. The entry exists exactly if the look-up succeeded.
    pub fn from_path<E>(raw: &str, looked_up: Result<StandaloneFileType, E>) -> (entry: Result<
        DirEntry,
        E,
    >)
        ensures
            looked_up matches Ok(kind) ==> (entry matches Ok(e) && e.spec_path() == raw@
                && e.spec_file_type() == kind),
            looked_up matches Err(reason) ==> (entry matches Err(r) && r == reason),
    {
        match looked_up {
            Ok(file_type) => Ok(DirEntry::from_path_with_file_type(raw, file_type)),
            Err(reason) => Err(reason),
        }
    }

    /// The entry for a path and a file kind.
    pub fn from_path_with_file_type(raw: &str, file_type: StandaloneFileType) -> (entry: DirEntry)
        ensures
            entry.spec_path() == raw@,
            entry.spec_file_type() == file_type,
    {
        DirEntry { raw: raw.to_owned(), file_type }
    }
}

impl Clone for DirEntry {
    fn clone(&self) -> (copy: DirEntry)
        ensures
            copy.spec_path() == self.spec_path(),
            copy.spec_file_type() == self.spec_file_type(),
    {
        DirEntry { raw: self.raw.clone(), file_type: self.file_type }
    }
}

impl DirEntryTrait for DirEntry {
    closed spec fn spec_path(&self) -> Seq<char> {
        self.raw@
    }

    closed spec fn spec_file_type(&self) -> StandaloneFileType {
        self.file_type
    }

    open spec fn spec_path_is_symlink(&self) -> bool {
        self.spec_file_type().spec_is_symlink()
    }

    fn path(&self) -> (path: &str) {
        self.raw.as_str()
    }

    fn path_is_symlink(&self) -> (answer: bool) {
        self.file_type.is_symlink()
    }

    fn file_type(&self) -> (kind: StandaloneFileType) {
        self.file_type
    }
}

} // verus!
