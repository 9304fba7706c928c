//! Type flags and walk flags of `ftw` and `nftw` on the BSD family.

use vstd::prelude::*;

verus! {

/// File.
pub const FTW_F: i32 = 0;

/// Directory.
pub const FTW_D: i32 = 1;

/// Directory without read permission.
pub const FTW_DNR: i32 = 2;

/// Directory with subdirectories visited.
pub const FTW_DP: i32 = 3;

/// Unknown type; `stat` failed.
pub const FTW_NS: i32 = 4;

/// Symbolic link.
pub const FTW_SL: i32 = 5;

/// Symbolic link that names a nonexistent file.
pub const FTW_SLN: i32 = 6;

/// Physical walk, don't follow symbolic links.
pub const FTW_PHYS: i32 = 0x01;

/// The walk does not cross a mount point.
pub const FTW_MOUNT: i32 = 0x02;

/// Subdirectories are visited before the directory itself.
pub const FTW_DEPTH: i32 = 0x04;

/// Change to a directory before reading it.
pub const FTW_CHDIR: i32 = 0x08;

} // verus!
