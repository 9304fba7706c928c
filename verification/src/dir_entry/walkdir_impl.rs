//! An entry that a recursive directory walk produced.

use vstd::prelude::*;
use crate::dir_entry::DirEntryTrait;
use crate::fs::file_type::StandaloneFileType;

verus! {

/// An entry as a recursive directory walk reports it.
#[derive(Debug)]
pub struct DirEntry {
    path: String,
    file_type: StandaloneFileType,
    path_is_symlink: bool,
    depth: usize,
}

impl DirEntry {
    /// The entry for what the walk reported: the path, the kind of file, whether the path
    /// itself is a symbolic link, and the depth below the root of the walk.
    pub fn from_dir_entry(
        path: &str,
        file_type: StandaloneFileType,
        path_is_symlink: bool,
        depth: usize,
    ) -> (entry: DirEntry)
        ensures
            entry.spec_path() == path@,
            entry.spec_file_type() == file_type,
            entry.spec_path_is_symlink() == path_is_symlink,
            entry.spec_depth() == depth,
    {
        DirEntry { path: path.to_owned(), file_type, path_is_symlink, depth }
    }

    /// The depth at which this entry was found, relative to the root of the walk.
    pub closed spec fn spec_depth(&self) -> usize {
        self.depth
    }

    /// Return the depth at which this entry was created relative to the root.
    pub fn depth(&self) -> (depth: usize)
        ensures
            depth == self.spec_depth(),
    {
        self.depth
    }
}

impl Clone for DirEntry {
    fn clone(&self) -> (copy: DirEntry)
        ensures
            copy.spec_path() == self.spec_path(),
            copy.spec_file_type() == self.spec_file_type(),
            copy.spec_path_is_symlink() == self.spec_path_is_symlink(),
            copy.spec_depth() == self.spec_depth(),
    {
        DirEntry {
            path: self.path.clone(),
            file_type: self.file_type,
            path_is_symlink: self.path_is_symlink,
            depth: self.depth,
        }
    }
}

impl DirEntryTrait for DirEntry {
    closed spec fn spec_path(&self) -> Seq<char> {
        self.path@
    }

    closed spec fn spec_file_type(&self) -> StandaloneFileType {
        self.file_type
    }

    closed spec fn spec_path_is_symlink(&self) -> bool {
        self.path_is_symlink
    }

    fn path(&self) -> (path: &str) {
        self.path.as_str()
    }

    fn path_is_symlink(&self) -> (answer: bool) {
        self.path_is_symlink
    }

    fn file_type(&self) -> (kind: StandaloneFileType) {
        self.file_type
    }
}

} // verus!
