//! File kinds and the type flags of the native tree walks.

pub mod constants;
pub mod file_type;

pub use self::file_type::{FileTypeTrait, StandaloneFileType};
