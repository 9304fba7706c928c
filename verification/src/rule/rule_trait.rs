//! What raw and compiled rules have in common.

use vstd::prelude::*;
use crate::rule::regex_cache::case_insensitive;
use crate::rule::rule_path::RulePath;
use crate::rule::rule_view::RuleView;
use crate::severity::Severity;

verus! {

/// Generic trait for rule functions. `T` is the form in which a rule holds its content
/// pattern.
pub trait RuleTrait<T> {
    /// What the rule says.
    spec fn spec_rule(&self) -> RuleView;

    /// Whether the rule hands out its path specifier as a compiled regular expression.
    spec fn spec_path_is_compiled(&self) -> bool;

    /// Return the name.
    fn name(&self) -> (name: &str)
        ensures
            name@ == self.spec_rule().name,
    ;

    /// Return the path(-pattern).
    fn path(&self) -> (path: RulePath)
        ensures
            self.spec_path_is_compiled() ==> path.is_compiled_from(
                case_insensitive(self.spec_rule().path),
            ),
            !self.spec_path_is_compiled() ==> (path matches RulePath::String(p) && p@
                == self.spec_rule().path),
    ;

    /// Return the content to check against.
    fn content(&self) -> (content: Option<T>)
        ensures
            content is Some <==> self.spec_rule().has_content(),
    ;

    /// Return the severity.
    fn severity(&self) -> (severity: Severity)
        ensures
            severity == self.spec_rule().severity,
    ;

    /// Return if the rule has a content to check against.
    fn has_content(&self) -> (has: bool)
        ensures
            has == self.spec_rule().has_content(),
    {
        self.content().is_some()
    }

    /// Return if the rule's path is handed out as a regular expression.
    fn is_regex_path(&self) -> (is_regex: bool)
        ensures
            is_regex == self.spec_path_is_compiled(),
    {
        if let RulePath::Regex(_) = self.path() {
            true
        } else {
            false
        }
    }
}

} // verus!
