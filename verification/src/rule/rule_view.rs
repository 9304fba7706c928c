//! What a rule says, as a mathematical value.

use vstd::prelude::*;
use crate::rule::regex_cache::{case_insensitive, compiles, regex_is_match};
use crate::severity::Severity;
use crate::text::is_substring;

verus! {

/// A rule as data: its name, its path specifier, its optional content pattern and the
/// severity that a match contributes.
pub struct RuleView {
    pub name: Seq<char>,
    pub path: Seq<char>,
    pub is_regex_path: bool,
    pub content: Option<Seq<char>>,
    pub severity: Severity,
}

impl RuleView {
    /// The rule with the given name, severity, path specifier and content pattern.
    pub open spec fn of_parts(
        name: Seq<char>,
        severity: Severity,
        path: Seq<char>,
        is_regex_path: bool,
        content: Option<Seq<char>>,
    ) -> RuleView {
        RuleView { name, path, is_regex_path, content, severity }
    }

    /// Whether the rule looks at the content of a file.
    pub open spec fn has_content(self) -> bool {
        self.content is Some
    }

    /// Whether every pattern of the rule that is a regular expression is accepted by the
    /// expression engine.
    pub open spec fn compiles(self) -> bool {
        &&& self.is_regex_path ==> compiles(self.path)
        &&& self.content matches Some(pattern) ==> compiles(pattern)
    }

    /// Whether a path satisfies the rule's path specifier: a literal must occur in the path,
    /// a regular expression must match somewhere in it, without regard to case.
    pub open spec fn path_matches(self, path: Seq<char>) -> bool {
        if self.is_regex_path {
            regex_is_match(case_insensitive(self.path), path)
        } else {
            is_substring(self.path, path)
        }
    }

    /// Whether a text satisfies the rule's content pattern. A rule without a content pattern
    /// is satisfied by no text.
    pub open spec fn content_matches(self, text: Seq<char>) -> bool {
        match self.content {
            Some(pattern) => regex_is_match(case_insensitive(pattern), text),
            None => false,
        }
    }
}

} // verus!
