//! The path specifier of a compiled rule.

use vstd::prelude::*;
use regex::Regex;
use crate::rule::regex_cache::{clone_regex, compiles_to, regex_source};

verus! {

/// A path specifier ready for matching: a compiled regular expression or a literal.
#[derive(Debug)]
pub enum RulePath {
    Regex(Regex),
    String(String),
}

impl Clone for RulePath {
    fn clone(&self) -> (copy: RulePath)
        ensures
            self matches RulePath::Regex(re) ==> copy == RulePath::Regex(*re),
            self matches RulePath::String(p) ==> (copy matches RulePath::String(q) && q@ == p@),
    {
        match self {
            RulePath::Regex(re) => RulePath::Regex(clone_regex(re)),
            RulePath::String(p) => RulePath::String(p.clone()),
        }
    }
}

impl RulePath {
    /// Whether this is the regular expression compiled from `pattern`.
    pub open spec fn is_compiled_from(self, pattern: Seq<char>) -> bool {
        self matches RulePath::Regex(re) && compiles_to(pattern, re)
    }

    /// The regular expression of a path specifier that is one.
    pub fn regex(&self) -> (re: &Regex)
        requires
            self is Regex,
        ensures
            *self == RulePath::Regex(*re),
    {
        match self {
            RulePath::Regex(r) => r,
            RulePath::String(_) => unreached(),
        }
    }

    /// The literal of a path specifier that is one.
    pub fn path_str(&self) -> (literal: &str)
        requires
            self is String,
        ensures
            self matches RulePath::String(p) && p@ == literal@,
    {
        match self {
            RulePath::String(s) => s.as_str(),
            RulePath::Regex(_) => unreached(),
        }
    }

    /// The specifier as text: the literal, or the pattern that the expression was compiled
    /// from.
    pub fn to_text(&self) -> (text: String)
        ensures
            self matches RulePath::String(p) ==> text@ == p@,
            forall|pattern: Seq<char>| #[trigger]
                self.is_compiled_from(pattern) ==> text@ == pattern,
    {
        match self {
            RulePath::Regex(regex) => regex_source(regex).to_owned(),
            RulePath::String(string) => string.clone(),
        }
    }
}

} // verus!
