//! A rule that is made on the fly and may lack a path or a content pattern.

use vstd::prelude::*;
use crate::rule::raw_rule::RawRule;
use crate::rule::rule_view::RuleView;
use crate::severity::Severity;
use crate::text::option_view;

verus! {

/// An inline rule as a mathematical value.
pub struct InlineRuleView {
    pub name: Seq<char>,
    pub path: Option<Seq<char>>,
    pub content: Option<Seq<char>>,
    pub severity: Severity,
}

impl InlineRuleView {
    /// The rule record that an inline rule stands for, if it has a path: its path is a
    /// regular expression.
    pub open spec fn raw_rule(self) -> Option<RuleView> {
        match self.path {
            Some(path) => Some(
                RuleView {
                    name: self.name,
                    path,
                    is_regex_path: true,
                    content: self.content,
                    severity: self.severity,
                },
            ),
            None => None,
        }
    }
}

/// "inline" on-the-fly rule.
#[derive(Debug)]
pub struct InlineRule {
    name: String,
    path: Option<String>,
    content: Option<String>,
    severity: Severity,
}

impl View for InlineRule {
    type V = InlineRuleView;

    closed spec fn view(&self) -> InlineRuleView {
        InlineRuleView {
            name: self.name@,
            path: option_view(self.path),
            content: option_view(self.content),
            severity: self.severity,
        }
    }
}

/// A copy of an optional text.
fn clone_text(text: &Option<String>) -> (copy: Option<String>)
    ensures
        option_view(copy) == option_view(*text),
{
    match text {
        Some(t) => Some(t.clone()),
        None => None,
    }
}

impl InlineRule {
    /// Build a new rule.
    pub fn new(name: String, score: Severity, path: Option<String>, content: Option<String>) -> (rule:
        InlineRule)
        ensures
            rule@.name == name@,
            rule@.severity == score,
            rule@.path == option_view(path),
            rule@.content == option_view(content),
    {
        InlineRule { name, path, content, severity: score }
    }

    /// The rule record that this rule stands for.
    ///
    /// Every rule that can fire has a path specifier: a file is first held against the path
    /// of a rule, and only then against its content. An inline rule without a path stands for
    /// no rule record.
    pub fn to_raw_rule(&self) -> (raw: Option<RawRule>)
        ensures
            self@.raw_rule() matches Some(expected) ==> (raw matches Some(r) && r@ == expected),
            self@.raw_rule() is None ==> raw is None,
    {
        match &self.path {
            Some(path) => Some(
                RawRule::new(
                    self.name.clone(),
                    self.severity,
                    path.clone(),
                    true,
                    clone_text(&self.content),
                ),
            ),
            None => None,
        }
    }

    /// The name of the rule.
    pub fn name(&self) -> (name: &String)
        ensures
            name@ == self@.name,
    {
        &self.name
    }

    /// The path pattern, if the rule has one.
    pub fn path(&self) -> (path: Option<String>)
        ensures
            option_view(path) == self@.path,
    {
        clone_text(&self.path)
    }

    /// The content pattern, if the rule has one.
    pub fn content(&self) -> (content: Option<String>)
        ensures
            option_view(content) == self@.content,
    {
        clone_text(&self.content)
    }

    /// The severity that a match contributes.
    pub fn severity(&self) -> (severity: Severity)
        ensures
            severity == self@.severity,
    {
        self.severity
    }
}

} // verus!
