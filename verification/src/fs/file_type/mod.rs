//! What kind of file an entry is.

pub mod standalone_file_type;

use vstd::prelude::*;

pub use self::standalone_file_type::FileType as StandaloneFileType;

verus! {

/// The questions that can be asked of a file kind.
pub trait FileTypeTrait {
    /// Whether this file kind is a directory.
    spec fn spec_is_dir(&self) -> bool;

    /// Whether this file kind is a regular file.
    spec fn spec_is_file(&self) -> bool;

    /// Whether this file kind is a symbolic link.
    spec fn spec_is_symlink(&self) -> bool;

    /// Test whether this file kind represents a directory.
    fn is_dir(&self) -> (answer: bool)
        ensures
            answer == self.spec_is_dir(),
    ;

    /// Test whether this file kind represents a regular file.
    fn is_file(&self) -> (answer: bool)
        ensures
            answer == self.spec_is_file(),
    ;

    /// Test whether this file kind represents a symbolic link.
    fn is_symlink(&self) -> (answer: bool)
        ensures
            answer == self.spec_is_symlink(),
    ;
}

} // verus!
