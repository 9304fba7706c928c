//! The numbers that the native tree walks use, by platform.
//!
//! The numbering of Linux is the one that the library itself goes by.

pub mod constants_linux;
pub mod constants_unix;

pub use self::constants_linux::{
    FTW_CHDIR,
    FTW_D,
    FTW_DEPTH,
    FTW_DNR,
    FTW_DP,
    FTW_F,
    FTW_MOUNT,
    FTW_NS,
    FTW_PHYS,
    FTW_SL,
    FTW_SLN,
};
