//! A rule as it is written down, before its patterns are compiled.

use vstd::prelude::*;
use crate::rule::raw_path::RawPath;
use crate::rule::rule_path::RulePath;
use crate::rule::rule_trait::RuleTrait;
use crate::rule::rule_view::RuleView;
use crate::severity::Severity;
use crate::text::option_view;

verus! {

/// A rule record as a rule source gives it.
#[derive(Debug, PartialEq)]
pub struct RawRule {
    name: String,
    path: RawPath,
    content: Option<String>,
    severity: Severity,
}

impl View for RawRule {
    type V = RuleView;

    closed spec fn view(&self) -> RuleView {
        RuleView {
            name: self.name@,
            path: self.path@.pattern,
            is_regex_path: self.path@.is_regex,
            content: option_view(self.content),
            severity: self.severity,
        }
    }
}

/// What a list of rule records says.
pub open spec fn raw_rule_views(rules: Seq<RawRule>) -> Seq<RuleView> {
    rules.map_values(|rule: RawRule| rule@)
}

impl RawRule {
    /// A rule record.
    pub fn new(
        name: String,
        score: Severity,
        path: String,
        is_regex_path: bool,
        content: Option<String>,
    ) -> (rule: RawRule)
        ensures
            rule@ == RuleView::of_parts(name@, score, path@, is_regex_path, option_view(content)),
    {
        RawRule { name, path: RawPath::new(path.as_str(), is_regex_path), content, severity: score }
    }

    /// A rule record that looks at paths only.
    pub fn with_path(name: &str, severity: Severity, path: &str, is_pattern: bool) -> (rule:
        RawRule)
        ensures
            rule@ == RuleView::of_parts(name@, severity, path@, is_pattern, None),
    {
        RawRule::new(name.to_owned(), severity, path.to_owned(), is_pattern, None)
    }

    /// A rule record that looks at paths and content.
    pub fn with_path_and_content(
        name: &str,
        severity: Severity,
        path: &str,
        is_pattern: bool,
        content: &str,
    ) -> (rule: RawRule)
        ensures
            rule@ == RuleView::of_parts(name@, severity, path@, is_pattern, Some(content@)),
    {
        RawRule::new(
            name.to_owned(),
            severity,
            path.to_owned(),
            is_pattern,
            Some(content.to_owned()),
        )
    }

    /// A rule record from a path specifier.
    pub fn with_raw_path(name: &str, severity: Severity, path: RawPath, content: Option<String>) -> (rule:
        RawRule)
        ensures
            rule@ == RuleView::of_parts(
                name@,
                severity,
                path@.pattern,
                path@.is_regex,
                option_view(content),
            ),
    {
        RawRule { name: name.to_owned(), path, content, severity }
    }

    /// Whether the path specifier is a regular expression.
    pub fn is_regex_path(&self) -> (is_regex: bool)
        ensures
            is_regex == self@.is_regex_path,
    {
        self.path.is_regex()
    }

    /// The pattern of the path specifier.
    pub fn path_ref(&self) -> (path: &str)
        ensures
            path@ == self@.path,
    {
        self.path.as_str()
    }

    /// The name of the rule.
    pub fn name(&self) -> (name: &str)
        ensures
            name@ == self@.name,
    {
        self.name.as_str()
    }

    /// The pattern of the path specifier as written, whatever its kind.
    pub fn path(&self) -> (path: RulePath)
        ensures
            path matches RulePath::String(p) && p@ == self@.path,
    {
        RulePath::String(self.path.as_str().to_owned())
    }

    /// The content pattern, if the rule has one.
    pub fn content(&self) -> (content: Option<String>)
        ensures
            option_view(content) == self@.content,
    {
        match &self.content {
            Some(c) => Some(c.clone()),
            None => None,
        }
    }

    /// The severity that a match contributes.
    pub fn severity(&self) -> (severity: Severity)
        ensures
            severity == self@.severity,
    {
        self.severity
    }
}

impl Clone for RawRule {
    fn clone(&self) -> (copy: RawRule)
        ensures
            copy@ == self@,
    {
        RawRule {
            name: self.name.clone(),
            path: self.path.clone(),
            content: match &self.content {
                Some(c) => Some(c.clone()),
                None => None,
            },
            severity: self.severity,
        }
    }
}

impl RuleTrait<String> for RawRule {
    open spec fn spec_rule(&self) -> RuleView {
        self@
    }

    /// A raw rule hands out its path specifier as it is written, whatever its kind.
    open spec fn spec_path_is_compiled(&self) -> bool {
        false
    }

    fn name(&self) -> (name: &str) {
        RawRule::name(self)
    }

    fn path(&self) -> (path: RulePath) {
        RawRule::path(self)
    }

    fn content(&self) -> (content: Option<String>) {
        RawRule::content(self)
    }

    fn severity(&self) -> (severity: Severity) {
        RawRule::severity(self)
    }
}

} // verus!
