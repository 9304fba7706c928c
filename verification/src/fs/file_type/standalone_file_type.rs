//! A file kind that stands on its own, without a handle into the file system.

use vstd::prelude::*;
use crate::fs::constants::{FTW_D, FTW_DNR, FTW_DP, FTW_F, FTW_NS, FTW_SL, FTW_SLN};
use crate::fs::file_type::FileTypeTrait;

verus! {

/// The kind of a file.
#[derive(Debug, Copy, Clone, PartialEq, Eq, Structural)]
pub enum FileType {
    File,
    Directory,
    Symlink,
    Unknown,
}

impl FileType {
    /// The file kind that a type flag of `ftw` or `nftw` stands for.
    pub open spec fn spec_from_ftw(ftw: int) -> FileType {
        if ftw == FTW_F {
            FileType::File
        } else if ftw == FTW_D || ftw == FTW_DNR || ftw == FTW_DP {
            FileType::Directory
        } else if ftw == FTW_SL || ftw == FTW_SLN {
            FileType::Symlink
        } else {
            FileType::Unknown
        }
    }

    /// The file kind that a type flag of `ftw` or `nftw` stands for.
    ///
    /// `FTW_F` is a file. A directory is a directory, whether the walk reports it before its
    /// contents (`FTW_D`), after them (`FTW_DP`) or could not read it (`FTW_DNR`). `FTW_SL`
    /// and `FTW_SLN` are symbolic links. A node of which the walk could tell nothing
    /// (`FTW_NS`), and every other number, is `Unknown`.
    pub fn from_ftw(ftw: i32) -> (kind: FileType)
        ensures
            kind == FileType::spec_from_ftw(ftw as int),
    {
        if ftw == FTW_F {
            FileType::File
        } else if ftw == FTW_D {
            FileType::Directory
        } else if ftw == FTW_DNR {
            FileType::Directory
        } else if ftw == FTW_DP {
            FileType::Directory
        } else if ftw == FTW_SL {
            FileType::Symlink
        } else if ftw == FTW_SLN {
            FileType::Symlink
        } else if ftw == FTW_NS {
            FileType::Unknown
        } else {
            FileType::Unknown
        }
    }

    /// The three questions answered for a type flag: it is a file exactly for `FTW_F`, a
    /// directory exactly for the three directory flags, and a symbolic link exactly for the
    /// two link flags.
    pub proof fn lemma_from_ftw_kinds(ftw: int)
        ensures
            FileType::spec_from_ftw(ftw).spec_is_file() <==> ftw == FTW_F,
            FileType::spec_from_ftw(ftw).spec_is_dir() <==> (ftw == FTW_D || ftw == FTW_DNR || ftw
                == FTW_DP),
            FileType::spec_from_ftw(ftw).spec_is_symlink() <==> (ftw == FTW_SL || ftw == FTW_SLN),
    {
    }

    /// The file kind for the answers that the file system gave to the three questions.
    pub open spec fn spec_from_file_type(is_file: bool, is_dir: bool, is_symlink: bool) -> FileType {
        if is_file {
            FileType::File
        } else if is_dir {
            FileType::Directory
        } else if is_symlink {
            FileType::Symlink
        } else {
            FileType::Unknown
        }
    }

    /// The file kind for the answers that the file system gave to the three questions; the
    /// first question that was answered with yes decides.
    pub fn from_file_type(is_file: bool, is_dir: bool, is_symlink: bool) -> (kind: FileType)
        ensures
            kind == FileType::spec_from_file_type(is_file, is_dir, is_symlink),
    {
        if is_file {
            FileType::File
        } else if is_dir {
            FileType::Directory
        } else if is_symlink {
            FileType::Symlink
        } else {
            FileType::Unknown
        }
    }
}

impl FileTypeTrait for FileType {
    open spec fn spec_is_dir(&self) -> bool {
        *self == FileType::Directory
    }

    open spec fn spec_is_file(&self) -> bool {
        *self == FileType::File
    }

    open spec fn spec_is_symlink(&self) -> bool {
        *self == FileType::Symlink
    }

    fn is_dir(&self) -> (answer: bool) {
        match self {
            FileType::File => false,
            FileType::Directory => true,
            FileType::Symlink => false,
            FileType::Unknown => false,
        }
    }

    fn is_file(&self) -> (answer: bool) {
        match self {
            FileType::File => true,
            FileType::Directory => false,
            FileType::Symlink => false,
            FileType::Unknown => false,
        }
    }

    fn is_symlink(&self) -> (answer: bool) {
        match self {
            FileType::File => false,
            FileType::Directory => false,
            FileType::Symlink => true,
            FileType::Unknown => false,
        }
    }
}

} // verus!
