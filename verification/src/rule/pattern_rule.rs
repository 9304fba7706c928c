//! Rules with their regular expressions compiled.

use vstd::prelude::*;
use vstd::std_specs::cmp::PartialEqSpecImpl;
use regex::Regex;
use crate::errors::ScanError;
use crate::rule::raw_path::RawPath;
use crate::rule::raw_rule::{raw_rule_views, RawRule};
use crate::matcher::Matcher;
use crate::rule::regex_cache::{
    after_building,
    case_insensitive,
    clone_regex,
    compiles,
    compiles_to,
    RegexCache,
};
use crate::rule::rule_path::RulePath;
use crate::rule::rule_trait::RuleTrait;
use crate::rule::rule_view::RuleView;
use crate::severity::Severity;
use crate::text::{chars_of, option_view, str_eq};

verus! {

/// A rule whose regular expressions are compiled.
///
/// A path specifier that is a literal is never compiled: it is searched for as it stands.
/// A path specifier that is a regular expression, and a content pattern, are compiled once,
/// when the rule is made, without regard to the case of letters.
#[derive(Debug)]
pub struct Rule {
    name: String,
    path: String,
    is_regex_path: bool,
    /// The characters of a path specifier that is a literal.
    literal: Vec<char>,
    path_regex: Option<Regex>,
    content_pattern: Option<String>,
    content: Option<Regex>,
    severity: Severity,
}

/// The name under which a compiled rule is also known.
pub type PatternRule = Rule;

impl View for Rule {
    type V = RuleView;

    closed spec fn view(&self) -> RuleView {
        RuleView {
            name: self.name@,
            path: self.path@,
            is_regex_path: self.is_regex_path,
            content: option_view(self.content_pattern),
            severity: self.severity,
        }
    }
}

/// What a list of compiled rules says.
pub open spec fn rule_views(rules: Seq<Rule>) -> Seq<RuleView> {
    rules.map_values(|rule: Rule| rule@)
}

/// The rules of a list that compile, in their order.
pub open spec fn compiling_rules(rules: Seq<RuleView>) -> Seq<RuleView> {
    rules.filter(|rule: RuleView| rule.compiles())
}

impl Rule {
    #[verifier::type_invariant]
    spec fn well_formed(self) -> bool {
        &&& self.is_regex_path <==> self.path_regex is Some
        &&& !self.is_regex_path ==> self.literal@ == self.path@
        &&& self.path_regex matches Some(re) ==> compiles_to(case_insensitive(self.path@), re)
        &&& self.content_pattern is Some <==> self.content is Some
        &&& self.content matches Some(re) ==> compiles_to(
            case_insensitive(self.content_pattern->Some_0@),
            re,
        )
    }

    /// The patterns of a cache after a rule was compiled with it, the content pattern first:
    /// if the content pattern is refused, the path specifier is not looked at.
    pub open spec fn cache_after(patterns: Set<Seq<char>>, rule: RuleView) -> Set<Seq<char>> {
        let with_content = match rule.content {
            Some(pattern) => after_building(patterns, pattern),
            None => patterns,
        };
        if rule.content matches Some(pattern) && !compiles(pattern) {
            patterns
        } else if rule.is_regex_path {
            after_building(with_content, rule.path)
        } else {
            with_content
        }
    }

    /// The patterns of a cache after the rules of a list were compiled with it, one after the
    /// other.
    pub open spec fn cache_after_all(patterns: Set<Seq<char>>, rules: Seq<RuleView>) -> Set<
        Seq<char>,
    >
        decreases rules.len(),
    {
        if rules.len() == 0 {
            patterns
        } else {
            Rule::cache_after(Rule::cache_after_all(patterns, rules.drop_last()), rules.last())
        }
    }

    /// The patterns of a cache after a rule was compiled with it from its parts, the path
    /// specifier first: if the path specifier is refused, the content pattern is not looked
    /// at.
    pub open spec fn cache_after_parts(patterns: Set<Seq<char>>, rule: RuleView) -> Set<Seq<char>> {
        let with_path = if rule.is_regex_path {
            after_building(patterns, rule.path)
        } else {
            patterns
        };
        if rule.is_regex_path && !compiles(rule.path) {
            patterns
        } else {
            match rule.content {
                Some(pattern) => after_building(with_path, pattern),
                None => with_path,
            }
        }
    }

    /// Compiles a rule with the help of a cache, the content pattern first.
    ///
    /// The rule is made if and only if each of its patterns that is a regular expression is
    /// accepted by the expression engine. A pattern that the cache holds is not compiled
    /// again; a pattern that it does not hold is added to it once it is compiled.
    pub fn from_raw_rule(cache: &mut RegexCache, rule: &RawRule) -> (compiled: Result<
        Rule,
        ScanError,
    >)
        ensures
            compiled is Ok <==> rule@.compiles(),
            compiled matches Ok(r) ==> r@ == rule@,
            compiled matches Err(e) ==> e@ is Regex,
            final(cache).patterns() == Rule::cache_after(old(cache).patterns(), rule@),
    {
        let content_pattern = rule.content();
        let content = match &content_pattern {
            None => None,
            Some(pattern) => {
                match cache.build(pattern.as_str()) {
                    Ok(re) => Some(re),
                    Err(e) => {
                        return Err(e);
                    },
                }
            },
        };
        if rule.is_regex_path() {
            match cache.build(rule.path_ref()) {
                Ok(re) => Ok(
                    Rule {
                        name: rule.name().to_owned(),
                        path: rule.path_ref().to_owned(),
                        is_regex_path: true,
                        literal: Vec::new(),
                        path_regex: Some(re),
                        content_pattern,
                        content,
                        severity: rule.severity(),
                    },
                ),
                Err(e) => Err(e),
            }
        } else {
            Ok(
                Rule {
                    name: rule.name().to_owned(),
                    path: rule.path_ref().to_owned(),
                    is_regex_path: false,
                    literal: chars_of(rule.path_ref()),
                    path_regex: None,
                    content_pattern,
                    content,
                    severity: rule.severity(),
                },
            )
        }
    }

    /// Compiles a rule.
    ///
    /// The rule is made if and only if each of its patterns that is a regular expression is
    /// accepted by the expression engine.
    pub fn from_rule(rule: &RawRule) -> (compiled: Result<Rule, ScanError>)
        ensures
            compiled is Ok <==> rule@.compiles(),
            compiled matches Ok(r) ==> r@ == rule@,
            compiled matches Err(e) ==> e@ is Regex,
    {
        let mut cache = RegexCache::new();
        Rule::from_raw_rule(&mut cache, rule)
    }

    /// Compiles a list of rules. A rule that does not compile is dropped: it never fails the
    /// list, so that the result is always the list of the rules that compile, in their
    /// order.
    ///
    /// All rules share one cache, so that a pattern that several rules use is compiled once.
    pub fn from_raw_rules(raw: Vec<RawRule>) -> (compiled: Result<Vec<Rule>, ScanError>)
        ensures
            compiled matches Ok(rules) && rule_views(rules@) == compiling_rules(
                raw_rule_views(raw@),
            ),
    {
        Ok(Rule::from_rules_filtered(&raw))
    }

    /// Compiles each rule of a list on its own.
    pub fn from_rules(rules: &Vec<RawRule>) -> (compiled: Vec<Result<Rule, ScanError>>)
        ensures
            compiled@.len() == rules@.len(),
            forall|i: int|
                0 <= i < rules@.len() ==> ((#[trigger] compiled@[i]) is Ok <==> rules@[i]@.compiles()),
            forall|i: int|
                0 <= i < rules@.len() ==> ((#[trigger] compiled@[i]) matches Ok(r) ==> r@
                    == rules@[i]@),
            forall|i: int|
                0 <= i < rules@.len() ==> ((#[trigger] compiled@[i]) matches Err(e)
                    ==> e@ is Regex),
    {
        let mut cache = RegexCache::new();
        let mut compiled: Vec<Result<Rule, ScanError>> = Vec::with_capacity(rules.len());
        let mut i: usize = 0;
        while i < rules.len()
            invariant
                i <= rules@.len(),
                compiled@.len() == i,
                forall|k: int|
                    0 <= k < i ==> ((#[trigger] compiled@[k]) is Ok <==> rules@[k]@.compiles()),
                forall|k: int|
                    0 <= k < i ==> ((#[trigger] compiled@[k]) matches Ok(r) ==> r@ == rules@[k]@),
                forall|k: int|
                    0 <= k < i ==> ((#[trigger] compiled@[k]) matches Err(e)
                        ==> e@ is Regex),
            decreases rules@.len() - i,
        {
            let one = Rule::from_raw_rule(&mut cache, &rules[i]);
            compiled.push(one);
            i += 1;
        }
        compiled
    }

    /// Compiles the rules of a list and drops those that do not compile.
    ///
    /// What is left are the rules that compile, in their order.
    pub fn from_rules_filtered(rules: &Vec<RawRule>) -> (compiled: Vec<Rule>)
        ensures
            rule_views(compiled@) == compiling_rules(raw_rule_views(rules@)),
    {
        let mut cache = RegexCache::new();
        Rule::from_rules_filtered_with_cache(&mut cache, rules)
    }

    /// Compiles the rules of a list with the help of a cache and drops those that do not
    /// compile.
    ///
    /// What is left are the rules that compile, in their order. The cache is used for one
    /// rule after the other, so that a pattern that it holds, from this list or from an
    /// earlier one, is not compiled again.
    pub fn from_rules_filtered_with_cache(cache: &mut RegexCache, rules: &Vec<RawRule>) -> (compiled:
        Vec<Rule>)
        ensures
            rule_views(compiled@) == compiling_rules(raw_rule_views(rules@)),
            final(cache).patterns() == Rule::cache_after_all(
                old(cache).patterns(),
                raw_rule_views(rules@),
            ),
    {
        let mut compiled: Vec<Rule> = Vec::new();
        let mut i: usize = 0;
        assert(raw_rule_views(rules@).take(0) =~= Seq::<RuleView>::empty());
        while i < rules.len()
            invariant
                i <= rules@.len(),
                rule_views(compiled@) == compiling_rules(raw_rule_views(rules@).take(i as int)),
                cache.patterns() == Rule::cache_after_all(
                    old(cache).patterns(),
                    raw_rule_views(rules@).take(i as int),
                ),
            decreases rules@.len() - i,
        {
            let ghost before = raw_rule_views(rules@).take(i as int);
            let ghost kept = rule_views(compiled@);
            proof {
                let all = raw_rule_views(rules@);
                assert(all.take(i + 1) =~= before.push(all[i as int]));
                assert(all.take(i + 1).drop_last() =~= before);
                lemma_compiling_rules_push(before, all[i as int]);
            }
            match Rule::from_raw_rule(cache, &rules[i]) {
                Ok(rule) => {
                    compiled.push(rule);
                    assert(rule_views(compiled@) =~= kept.push(rules@[i as int]@));
                },
                Err(_) => {},
            }
            i += 1;
        }
        assert(raw_rule_views(rules@).take(rules@.len() as int) =~= raw_rule_views(rules@));
        compiled
    }

    /// Compiles a rule from its parts, the path specifier first.
    pub fn new(name: &str, severity: Severity, raw_path: RawPath, content: Option<String>) -> (compiled:
        Result<Rule, ScanError>)
        ensures
            compiled is Ok <==> RuleView::of_parts(
                name@,
                severity,
                raw_path@.pattern,
                raw_path@.is_regex,
                option_view(content),
            ).compiles(),
            compiled matches Ok(r) ==> r@ == RuleView::of_parts(
                name@,
                severity,
                raw_path@.pattern,
                raw_path@.is_regex,
                option_view(content),
            ),
            compiled matches Err(e) ==> e@ is Regex,
    {
        let mut cache = RegexCache::new();
        Rule::with_cache(&mut cache, name, severity, raw_path, content)
    }

    /// Compiles a rule from its parts with the help of a cache, the path specifier first.
    ///
    /// A pattern that the cache holds is not compiled again; a pattern that it does not hold
    /// is added to it once it is compiled.
    pub fn with_cache(
        cache: &mut RegexCache,
        name: &str,
        severity: Severity,
        raw_path: RawPath,
        content: Option<String>,
    ) -> (compiled: Result<Rule, ScanError>)
        ensures
            compiled is Ok <==> RuleView::of_parts(
                name@,
                severity,
                raw_path@.pattern,
                raw_path@.is_regex,
                option_view(content),
            ).compiles(),
            compiled matches Ok(r) ==> r@ == RuleView::of_parts(
                name@,
                severity,
                raw_path@.pattern,
                raw_path@.is_regex,
                option_view(content),
            ),
            compiled matches Err(e) ==> e@ is Regex,
            final(cache).patterns() == Rule::cache_after_parts(
                old(cache).patterns(),
                RuleView::of_parts(
                    name@,
                    severity,
                    raw_path@.pattern,
                    raw_path@.is_regex,
                    option_view(content),
                ),
            ),
    {
        let is_regex_path = raw_path.is_regex();
        let path_regex = if is_regex_path {
            match cache.build(raw_path.as_str()) {
                Ok(re) => Some(re),
                Err(e) => {
                    return Err(e);
                },
            }
        } else {
            None
        };
        let compiled_content = match &content {
            Some(c) => {
                match cache.build(c.as_str()) {
                    Ok(re) => Some(re),
                    Err(e) => {
                        return Err(e);
                    },
                }
            },
            None => None,
        };
        let literal = if is_regex_path {
            Vec::new()
        } else {
            chars_of(raw_path.as_str())
        };
        Ok(
            Rule {
                name: name.to_owned(),
                path: raw_path.as_str().to_owned(),
                is_regex_path,
                literal,
                path_regex,
                content_pattern: content,
                content: compiled_content,
                severity,
            },
        )
    }

    /// Compiles a rule that looks at paths only.
    pub fn with_path(name: &str, severity: Severity, raw_path: RawPath) -> (compiled: Result<
        Rule,
        ScanError,
    >)
        ensures
            compiled is Ok <==> RuleView::of_parts(
                name@,
                severity,
                raw_path@.pattern,
                raw_path@.is_regex,
                None,
            ).compiles(),
            compiled matches Ok(r) ==> r@ == RuleView::of_parts(
                name@,
                severity,
                raw_path@.pattern,
                raw_path@.is_regex,
                None,
            ),
            compiled matches Err(e) ==> e@ is Regex,
    {
        Rule::new(name, severity, raw_path, None)
    }

    /// Compiles a rule that looks at paths and content.
    pub fn with_path_and_content(
        name: &str,
        severity: Severity,
        raw_path: RawPath,
        content: &str,
    ) -> (compiled: Result<Rule, ScanError>)
        ensures
            compiled is Ok <==> RuleView::of_parts(
                name@,
                severity,
                raw_path@.pattern,
                raw_path@.is_regex,
                Some(content@),
            ).compiles(),
            compiled matches Ok(r) ==> r@ == RuleView::of_parts(
                name@,
                severity,
                raw_path@.pattern,
                raw_path@.is_regex,
                Some(content@),
            ),
            compiled matches Err(e) ==> e@ is Regex,
    {
        Rule::new(name, severity, raw_path, Some(content.to_owned()))
    }

    /// The name of the rule.
    pub fn name(&self) -> (name: &str)
        ensures
            name@ == self@.name,
    {
        self.name.as_str()
    }

    /// The pattern of the path specifier, as it was written.
    pub fn path_pattern(&self) -> (pattern: &str)
        ensures
            pattern@ == self@.path,
    {
        self.path.as_str()
    }

    /// The path specifier, ready for matching.
    pub fn path(&self) -> (path: RulePath)
        ensures
            self@.is_regex_path ==> path.is_compiled_from(case_insensitive(self@.path)),
            !self@.is_regex_path ==> (path matches RulePath::String(p) && p@ == self@.path),
    {
        proof {
            use_type_invariant(self);
        }
        match &self.path_regex {
            Some(p) => RulePath::Regex(clone_regex(p)),
            None => RulePath::String(self.path.clone()),
        }
    }

    /// The compiled content pattern, if the rule has one.
    pub fn content(&self) -> (content: Option<Regex>)
        ensures
            content is Some <==> self@.has_content(),
            content matches Some(re) ==> compiles_to(case_insensitive(self@.content->Some_0), re),
    {
        proof {
            use_type_invariant(self);
        }
        match &self.content {
            Some(re) => Some(clone_regex(re)),
            None => None,
        }
    }

    /// The severity that a match contributes.
    pub fn severity(&self) -> (severity: Severity)
        ensures
            severity == self@.severity,
    {
        self.severity
    }

    /// Whether the rule looks at the content of a file.
    pub fn has_content(&self) -> (has: bool)
        ensures
            has == self@.has_content(),
    {
        self.content_pattern.is_some()
    }

    /// Whether the path specifier is a regular expression.
    pub fn is_regex_path(&self) -> (is_regex: bool)
        ensures
            is_regex == self@.is_regex_path,
    {
        self.is_regex_path
    }

    /// The compiled path specifier, if it is a regular expression.
    pub(crate) fn compiled_path(&self) -> (compiled: Option<&Regex>)
        ensures
            compiled is Some <==> self@.is_regex_path,
            compiled matches Some(re) ==> compiles_to(case_insensitive(self@.path), *re),
    {
        proof {
            use_type_invariant(self);
        }
        self.path_regex.as_ref()
    }

    /// The characters of the path specifier, if it is a literal.
    pub(crate) fn literal_path(&self) -> (literal: &Vec<char>)
        ensures
            !self@.is_regex_path ==> literal@ == self@.path,
    {
        proof {
            use_type_invariant(self);
        }
        &self.literal
    }

    /// The compiled content pattern, if the rule has one.
    pub(crate) fn compiled_content(&self) -> (compiled: Option<&Regex>)
        ensures
            compiled is Some <==> self@.has_content(),
            compiled matches Some(re) ==> compiles_to(
                case_insensitive(self@.content->Some_0),
                *re,
            ),
    {
        proof {
            use_type_invariant(self);
        }
        self.content.as_ref()
    }

    /// Whether a path satisfies the path specifier.
    pub fn matches_path(&self, path: &str) -> (found: bool)
        ensures
            found == self@.path_matches(path@),
    {
        Matcher::match_path_str(self, path)
    }

    /// Whether a text matches the content pattern; `false` for a rule without one.
    pub fn matches_content(&self, text: &str) -> (found: bool)
        ensures
            found == self@.content_matches(text@),
    {
        Matcher::match_entry_content(self, text)
    }
}

/// Filtering a list that grew by one rule: the rule is kept exactly if it compiles.
pub proof fn lemma_compiling_rules_push(rules: Seq<RuleView>, rule: RuleView)
    ensures
        compiling_rules(rules.push(rule)) == (if rule.compiles() {
            compiling_rules(rules).push(rule)
        } else {
            compiling_rules(rules)
        }),
{
    reveal(Seq::filter);
    assert(rules.push(rule).drop_last() =~= rules);
}

impl RuleTrait<Regex> for Rule {
    open spec fn spec_rule(&self) -> RuleView {
        self@
    }

    open spec fn spec_path_is_compiled(&self) -> bool {
        self@.is_regex_path
    }

    fn name(&self) -> (name: &str) {
        Rule::name(self)
    }

    fn path(&self) -> (path: RulePath) {
        Rule::path(self)
    }

    fn content(&self) -> (content: Option<Regex>) {
        Rule::content(self)
    }

    fn severity(&self) -> (severity: Severity) {
        Rule::severity(self)
    }

    /// Return if the rule's path is a regular expression.
    fn is_regex_path(&self) -> (is_regex: bool) {
        Rule::is_regex_path(self)
    }
}

impl Clone for Rule {
    fn clone(&self) -> (copy: Rule)
        ensures
            copy@ == self@,
    {
        proof {
            use_type_invariant(self);
        }
        Rule {
            name: self.name.clone(),
            path: self.path.clone(),
            is_regex_path: self.is_regex_path,
            literal: self.literal.clone(),
            path_regex: match &self.path_regex {
                Some(re) => Some(clone_regex(re)),
                None => None,
            },
            content_pattern: match &self.content_pattern {
                Some(c) => Some(c.clone()),
                None => None,
            },
            content: match &self.content {
                Some(re) => Some(clone_regex(re)),
                None => None,
            },
            severity: self.severity,
        }
    }
}

impl PartialEq for Rule {
    /// Two compiled rules are equal if they say the same: the expressions are not looked at,
    /// since they follow from the patterns.
    fn eq(&self, other: &Self) -> (equal: bool) {
        if !str_eq(self.name.as_str(), other.name.as_str()) {
            return false;
        }
        if !str_eq(self.path.as_str(), other.path.as_str()) {
            return false;
        }
        if self.is_regex_path != other.is_regex_path {
            return false;
        }
        if self.severity != other.severity {
            return false;
        }
        match (&self.content_pattern, &other.content_pattern) {
            (Some(a), Some(b)) => str_eq(a.as_str(), b.as_str()),
            (None, None) => true,
            _ => false,
        }
    }
}

impl PartialEqSpecImpl for Rule {
    open spec fn obeys_eq_spec() -> bool {
        true
    }

    open spec fn eq_spec(&self, other: &Rule) -> bool {
        self@ == other@
    }
}

} // verus!
