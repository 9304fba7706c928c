//! Type flags and walk flags of `ftw` and `nftw` on Linux.

use vstd::prelude::*;

verus! {

/// Regular file.
pub const FTW_F: i32 = 0;

/// Directory.
pub const FTW_D: i32 = 1;

/// Unreadable directory.
pub const FTW_DNR: i32 = 2;

/// Unstatable file.
pub const FTW_NS: i32 = 3;

/// Symbolic link.
pub const FTW_SL: i32 = 4;

/// Directory, all subdirectories have been visited. Only `nftw` passes this flag.
pub const FTW_DP: i32 = 5;

/// Symbolic link naming a non-existing file. Only `nftw` passes this flag.
pub const FTW_SLN: i32 = 6;

/// Perform a physical walk, ignore symbolic links.
pub const FTW_PHYS: i32 = 1;

/// Report only files on the same file system as the argument.
pub const FTW_MOUNT: i32 = 2;

/// Change to the current directory while processing it.
pub const FTW_CHDIR: i32 = 4;

/// Report files in a directory before the directory itself.
pub const FTW_DEPTH: i32 = 8;

} // verus!
