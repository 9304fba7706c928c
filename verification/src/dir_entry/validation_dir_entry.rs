//! An entry for a path that may not exist.

use vstd::prelude::*;
use crate::dir_entry::DirEntryTrait;
use crate::fs::file_type::{FileTypeTrait, StandaloneFileType};

verus! {

/// An entry for a path that is only checked against the rules.
#[derive(Debug)]
pub struct DirEntry {
    path_buf: String,
    file_type: StandaloneFileType,
}

impl DirEntry {
    /// The entry for a path that was looked up in the file system, whether or not anything
    /// was found there.
    pub fn from_path_str(raw: &str, looked_up: Option<StandaloneFileType>) -> (entry: DirEntry)
        ensures
            entry.spec_path() == raw@,
            entry.spec_file_type() == DirEntry::spec_detect_file_type(looked_up),
    {
        let file_type = DirEntry::detect_file_type(looked_up);
        DirEntry { path_buf: raw.to_owned(), file_type }
    }

    /// The kind of an entry: what the look-up found, `Unknown` if it found nothing.
    pub open spec fn spec_detect_file_type(looked_up: Option<StandaloneFileType>) -> StandaloneFileType {
        match looked_up {
            Some(kind) => kind,
            None => StandaloneFileType::Unknown,
        }
    }

    /// The kind of an entry: what the look-up found, `Unknown` if it found nothing.
    pub fn detect_file_type(looked_up: Option<StandaloneFileType>) -> (kind: StandaloneFileType)
        ensures
            kind == DirEntry::spec_detect_file_type(looked_up),
    {
        if let Some(file_type) = looked_up {
            file_type
        } else {
            StandaloneFileType::Unknown
        }
    }
}

impl Clone for DirEntry {
    fn clone(&self) -> (copy: DirEntry)
        ensures
            copy.spec_path() == self.spec_path(),
            copy.spec_file_type() == self.spec_file_type(),
    {
        DirEntry { path_buf: self.path_buf.clone(), file_type: self.file_type }
    }
}

impl DirEntryTrait for DirEntry {
    closed spec fn spec_path(&self) -> Seq<char> {
        self.path_buf@
    }

    closed spec fn spec_file_type(&self) -> StandaloneFileType {
        self.file_type
    }

    open spec fn spec_path_is_symlink(&self) -> bool {
        self.spec_file_type().spec_is_symlink()
    }

    fn path(&self) -> (path: &str) {
        self.path_buf.as_str()
    }

    fn path_is_symlink(&self) -> (answer: bool) {
        self.file_type.is_symlink()
    }

    fn file_type(&self) -> (kind: StandaloneFileType) {
        self.file_type
    }
}

} // verus!
