//! The path specifier of a rule as it is written down.

use vstd::prelude::*;

verus! {

/// What a raw path specifier says: a pattern, and whether it is a regular expression.
pub struct RawPathView {
    pub pattern: Seq<char>,
    pub is_regex: bool,
}

/// A path specifier: either a literal that must occur in a path, or a regular expression.
#[derive(Debug, PartialEq)]
pub struct RawPath {
    pattern: String,
    is_regex: bool,
}

impl View for RawPath {
    type V = RawPathView;

    closed spec fn view(&self) -> RawPathView {
        RawPathView { pattern: self.pattern@, is_regex: self.is_regex }
    }
}

impl RawPath {
    /// A path specifier with the given pattern.
    pub fn new(pattern: &str, is_regex: bool) -> (path: RawPath)
        ensures
            path@.pattern == pattern@,
            path@.is_regex == is_regex,
    {
        RawPath { pattern: pattern.to_owned(), is_regex }
    }

    /// A path specifier that is a regular expression.
    pub fn with_regex(pattern: &str) -> (path: RawPath)
        ensures
            path@.pattern == pattern@,
            path@.is_regex,
    {
        RawPath { pattern: pattern.to_owned(), is_regex: true }
    }

    /// A path specifier that is a literal.
    pub fn with_path(pattern: &str) -> (path: RawPath)
        ensures
            path@.pattern == pattern@,
            !path@.is_regex,
    {
        RawPath { pattern: pattern.to_owned(), is_regex: false }
    }

    /// The pattern.
    pub fn as_str(&self) -> (pattern: &str)
        ensures
            pattern@ == self@.pattern,
    {
        self.pattern.as_str()
    }

    /// Whether the pattern is a regular expression.
    pub fn is_regex(&self) -> (is_regex: bool)
        ensures
            is_regex == self@.is_regex,
    {
        self.is_regex
    }

}

impl Clone for RawPath {
    fn clone(&self) -> (copy: RawPath)
        ensures
            copy@ == self@,
    {
        RawPath { pattern: self.pattern.clone(), is_regex: self.is_regex }
    }
}

impl std::str::FromStr for RawPath {
    type Err = ();

    /// A bare string stands for a literal path.
    fn from_str(s: &str) -> (parsed: Result<Self, Self::Err>)
        ensures
            parsed matches Ok(path) && path@.pattern == s@ && !path@.is_regex,
    {
        Ok(RawPath::with_path(s))
    }
}

} // verus!
