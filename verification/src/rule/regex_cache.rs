//! Compiled regular expressions and the cache that shares them between rules.

use vstd::prelude::*;
use vstd::hash_map::StringHashMap;
use vstd::string::StringExecFns;
use regex::Regex;
use crate::errors::{ErrorKind, ScanError};

verus! {

/// `regex::Regex`, a compiled regular expression. Nothing of its inside is known here: an
/// expression is only carried from where it is compiled to where it is matched.
#[verifier::external_type_specification]
#[verifier::external_body]
pub struct ExRegex(regex::Regex);

/// `regex::Error`, the reason why a pattern was refused. Nothing of its inside is known here.
#[verifier::external_type_specification]
#[verifier::external_body]
pub struct ExRegexError(regex::Error);

/// What `regex::Regex::new` returns for a pattern.
pub uninterp spec fn regex_new(pattern: Seq<char>) -> Result<regex::Regex, regex::Error>;

/// Whether the regular expression written as `pattern` has a match somewhere in `haystack`.
pub uninterp spec fn regex_is_match(pattern: Seq<char>, haystack: Seq<char>) -> bool;

/// Whether compiling `pattern` succeeds and gives `re`.
pub open spec fn compiles_to(pattern: Seq<char>, re: regex::Regex) -> bool {
    regex_new(pattern) matches Ok(compiled) && compiled == re
}

/// `regex::Regex::new` parses and compiles a pattern. Whether it succeeds, and what it gives,
/// depends on the pattern alone; the contract only names that result.
#[verifier::external_body]
pub(crate) fn compile_regex(pattern: &str) -> (compiled: Result<Regex, regex::Error>)
    ensures
        compiled == regex_new(pattern@),
{
    Regex::new(pattern)
}

/// `regex::Regex::is_match` says whether the expression has a match anywhere in the haystack.
/// For an expression that came from compiling a pattern, the contract names that answer by
/// the pattern and the haystack.
#[verifier::external_body]
pub(crate) fn regex_matches(re: &Regex, haystack: &str) -> (found: bool)
    ensures
        forall|pattern: Seq<char>| #[trigger]
            compiles_to(pattern, *re) ==> found == regex_is_match(pattern, haystack@),
{
    re.is_match(haystack)
}

/// `regex::Regex::as_str` hands back the pattern that the expression was compiled from.
#[verifier::external_body]
pub(crate) fn regex_source(re: &Regex) -> (source: &str)
    ensures
        forall|pattern: Seq<char>| #[trigger] compiles_to(pattern, *re) ==> source@ == pattern,
{
    re.as_str()
}

/// Cloning a `regex::Regex` gives the same expression.
#[verifier::external_body]
pub(crate) fn clone_regex(re: &Regex) -> (copy: Regex)
    ensures
        copy == *re,
{
    re.clone()
}

/// The pattern that is compiled for `pattern`: the same expression, matched without regard
/// to the case of letters.
pub open spec fn case_insensitive(pattern: Seq<char>) -> Seq<char> {
    "(?i)"@ + pattern
}

/// Whether `pattern`, taken without regard to case, is accepted by the expression engine.
pub open spec fn compiles(pattern: Seq<char>) -> bool {
    regex_new(case_insensitive(pattern)) is Ok
}

/// The patterns of a cache after it was asked for `pattern`: a pattern that compiles is in
/// the cache afterwards, and nothing else changes.
pub open spec fn after_building(patterns: Set<Seq<char>>, pattern: Seq<char>) -> Set<Seq<char>> {
    if compiles(pattern) {
        patterns.insert(pattern)
    } else {
        patterns
    }
}

/// Compiled expressions by pattern.
///
/// The cache only grows: a pattern is compiled when it is first asked for, and every later
/// request for the same pattern gets a copy of that expression.
pub struct RegexCache {
    map: StringHashMap<Regex>,
}

impl RegexCache {
    #[verifier::type_invariant]
    spec fn well_formed(self) -> bool {
        forall|pattern: Seq<char>| #[trigger]
            self.map@.contains_key(pattern) ==> compiles_to(
                case_insensitive(pattern),
                self.map@[pattern],
            )
    }

    /// The patterns that have been compiled.
    pub closed spec fn patterns(self) -> Set<Seq<char>> {
        self.map@.dom()
    }

    /// An empty cache.
    pub fn new() -> (cache: RegexCache)
        ensures
            cache.patterns() == Set::<Seq<char>>::empty(),
    {
        let cache = RegexCache { map: StringHashMap::new() };
        assert(cache.patterns() =~= Set::<Seq<char>>::empty());
        cache
    }

    /// The number of patterns in the cache.
    pub fn len(&self) -> (n: usize)
        ensures
            n == self.patterns().len(),
    {
        self.map.len()
    }

    /// Whether the cache holds the expression for `pattern`.
    pub fn contains(&self, pattern: &str) -> (held: bool)
        ensures
            held == self.patterns().contains(pattern@),
    {
        self.map.contains_key(pattern)
    }

    /// The expression for `pattern`, compiled without regard to case.
    ///
    /// A pattern that the cache holds is not compiled again. A pattern that it does not hold
    /// is compiled and, if the engine accepts it, added.
    pub fn build(&mut self, pattern: &str) -> (built: Result<Regex, ScanError>)
        ensures
            built is Ok <==> compiles(pattern@),
            built matches Ok(re) ==> compiles_to(case_insensitive(pattern@), re),
            built matches Err(e) ==> e@ is Regex,
            final(self).patterns() == after_building(old(self).patterns(), pattern@),
    {
        proof {
            use_type_invariant(&*self);
        }
        if let Some(regex) = self.map.get(pattern) {
            assert(self.patterns().insert(pattern@) =~= self.patterns());
            return Ok(clone_regex(regex));
        }
        let mut source = "(?i)".to_owned();
        source.append(pattern);
        match compile_regex(source.as_str()) {
            Ok(re) => {
                let mut taken = RegexCache { map: StringHashMap::new() };
                core::mem::swap(self, &mut taken);
                let mut map = taken.map;
                map.insert(pattern.to_owned(), clone_regex(&re));
                *self = RegexCache { map };
                assert(self.patterns() =~= old(self).patterns().insert(pattern@));
                Ok(re)
            },
            Err(e) => Err(ScanError::from_kind(ErrorKind::Regex(e.to_string()))),
        }
    }
}

} // verus!
