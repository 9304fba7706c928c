//! The two predicates that decide whether a rule fires.

use vstd::prelude::*;
use crate::dir_entry::DirEntryTrait;
use crate::rule::regex_cache::regex_matches;
use crate::rule::Rule;
use crate::text::{chars_of, contains_chars};

verus! {

/// Stateless matching of paths and content against rules.
pub struct Matcher {}

impl Matcher {
    /// Check if the entry's path matches the given rule.
    pub fn match_entry_path<D: DirEntryTrait>(rule: &Rule, entry: &D) -> (matched: bool)
        ensures
            matched == rule@.path_matches(entry.spec_path()),
    {
        Matcher::match_path_str(rule, entry.path())
    }

    /// Check if the given path matches the given rule: a literal must occur in the path, a
    /// regular expression must match somewhere in it.
    pub fn match_path_str(rule: &Rule, path_as_string: &str) -> (matched: bool)
        ensures
            matched == rule@.path_matches(path_as_string@),
    {
        match rule.compiled_path() {
            Some(r) => regex_matches(r, path_as_string),
            None => {
                let path = chars_of(path_as_string);
                contains_chars(&path, rule.literal_path())
            },
        }
    }

    /// Check if the content matches the given rule: `false` if the rule has no content
    /// pattern, else whether the pattern matches somewhere in the content.
    pub fn match_entry_content(rule: &Rule, content: &str) -> (matched: bool)
        ensures
            matched == rule@.content_matches(content@),
    {
        match rule.compiled_content() {
            Some(content_pattern) => regex_matches(content_pattern, content),
            None => false,
        }
    }
}

} // verus!
