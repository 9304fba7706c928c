//! Scans file paths and contents against suspicious-pattern rules and rates the findings.
//!
//! A scan has three steps. The candidate search ([`file_finder`]) keeps, of the entries that
//! a walk of the file system reported, those on whose path some rule may fire. The
//! classification ([`classifier`]) holds each candidate against every rule, by path and, where
//! a rule asks for it, by content, and lists the violations. The rating ([`rating`]) sums the
//! severities of the violations of each file, sorts the files and counts them by bucket.
//!
//! The library does not touch the file system. Whoever uses it walks the directory tree and
//! reads the leading bytes of the files whose content a rule asks for, and hands both over as
//! plain values.
//!
//! Regular expressions are compiled and matched by the `regex` crate. What it answers is
//! named in the contracts by [`rule::regex_cache::regex_new`] and
//! [`rule::regex_cache::regex_is_match`]; nothing more is assumed of it.

pub mod classifier;
pub mod dir_entry;
pub mod errors;
pub mod file_finder;
pub mod fs;
pub mod join;
pub mod matcher;
pub mod rating;
pub mod rule;
pub mod severity;
pub mod severity_order;
pub mod text;
pub mod ui;

pub use crate::classifier::{
    classify_entries,
    classify_entry,
    needs_content,
    ContentClassificationError,
    Violation,
};
pub use crate::dir_entry::{DirEntryTrait, StandaloneDirEntry, ValidationDirEntry, WalkdirDirEntry};
pub use crate::errors::{ErrorKind, ErrorKindView, ScanError};
pub use crate::rule::{
    get_builtin_rules,
    get_merged_rules,
    InlineRule,
    PatternRule,
    RawPath,
    RawRule,
    RegexCache,
    Rule,
    RulePath,
    RuleTrait,
    RuleView,
};
pub use crate::file_finder::find_files;
pub use crate::join::join_violations;
pub use crate::rating::{
    rate_entries,
    rate_entry,
    sort_ratings,
    Rating,
    RatingView,
    Summary,
    SummaryView,
};
pub use crate::severity::Severity;
