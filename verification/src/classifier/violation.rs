//! Evidence that a rule fired against a file.

use vstd::prelude::*;
use crate::classifier::content_classifier::error::{
    ContentClassificationError,
    ContentClassificationErrorKind,
    ContentClassificationErrorView,
};
use crate::errors::ScanError;
use crate::rule::{Rule, RuleView};
use crate::severity::Severity;

verus! {

/// A violation as a mathematical value.
pub struct ViolationView {
    pub name: Seq<char>,
    pub severity: Severity,
}

impl ViolationView {
    /// The violation of a rule that fired: the rule's name and severity.
    pub open spec fn of_rule(rule: RuleView) -> ViolationView {
        ViolationView { name: rule.name, severity: rule.severity }
    }

    /// The violation that makes a failed content read visible, if it is to be visible: a
    /// file that does not exist is passed over in silence, every other failure is a notice
    /// that carries the failure's description.
    pub open spec fn of_io_error(error: ContentClassificationErrorView) -> Option<ViolationView> {
        if error.kind == ContentClassificationErrorKind::NotExists {
            None
        } else {
            Some(ViolationView { name: error.description(), severity: Severity::NOTICE })
        }
    }
}

/// The name and the severity of a rule that fired, or of a failure that is reported in a
/// rule's place. A violation does not hold on to its rule.
#[derive(Debug)]
pub struct Violation {
    name: String,
    severity: Severity,
}

impl View for Violation {
    type V = ViolationView;

    closed spec fn view(&self) -> ViolationView {
        ViolationView { name: self.name@, severity: self.severity }
    }
}

/// What a list of violations says.
pub open spec fn violation_views(violations: Seq<Violation>) -> Seq<ViolationView> {
    violations.map_values(|violation: Violation| violation@)
}

impl Violation {
    /// The violation of a rule that fired.
    pub fn with_rule(rule: Rule) -> (violation: Violation)
        ensures
            violation@ == ViolationView::of_rule(rule@),
    {
        let severity = rule.severity();
        let name = rule.name().to_owned();
        Violation { name, severity }
    }

    /// The violation of a rule that fired; the rule is left as it is.
    pub fn from_rule(rule: &Rule) -> (violation: Violation)
        ensures
            violation@ == ViolationView::of_rule(rule@),
    {
        Violation { name: rule.name().to_owned(), severity: rule.severity() }
    }

    /// The notice that makes an error visible in a report: it is named by the error's text.
    pub fn from_error(error: &ScanError) -> (violation: Violation)
        ensures
            violation@.name == error@.message(),
            violation@.severity == Severity::NOTICE,
    {
        Violation { name: error.message(), severity: Severity::NOTICE }
    }

    /// A violation with the given name and severity.
    pub fn with_name_and_severity(name: String, severity: Severity) -> (violation: Violation)
        ensures
            violation@.name == name@,
            violation@.severity == severity,
    {
        Violation { name, severity }
    }

    /// The violation that stands for a failed read of the content of a file.
    ///
    /// There is none if the file does not exist. Every other failure gives a notice that is
    /// named by the failure's description.
    pub fn with_file_io_error(error: &ContentClassificationError) -> (violation: Option<
        Violation,
    >)
        ensures
            ViolationView::of_io_error(error@) matches Some(expected) ==> (violation matches Some(v)
                && v@ == expected),
            ViolationView::of_io_error(error@) is None ==> violation is None,
    {
        if error.kind() == ContentClassificationErrorKind::NotExists {
            return None;
        }
        let severity = Severity::NOTICE;
        let name = error.description();

        Some(Violation { name, severity })
    }

    /// The violation that stands for a failed read of the content that `rule` asked for.
    ///
    /// There is none if the file does not exist. Every other failure gives a notice that is
    /// named by the failure's description, not by the rule.
    pub fn with_rule_and_file_io_error(rule: Rule, error: &ContentClassificationError) -> (violation:
        Option<Violation>)
        ensures
            ViolationView::of_io_error(error@) matches Some(expected) ==> (violation matches Some(v)
                && v@ == expected),
            ViolationView::of_io_error(error@) is None ==> violation is None,
    {
        Violation::with_file_io_error(error)
    }

    /// Return the name describing the violation (e.g. the name of the violated rule).
    pub fn name(&self) -> (name: &String)
        ensures
            name@ == self@.name,
    {
        &self.name
    }

    /// Return the severity of the violation (e.g. the severity of the violated rule).
    pub fn severity(&self) -> (severity: Severity)
        ensures
            severity == self@.severity,
    {
        self.severity
    }
}

impl Clone for Violation {
    fn clone(&self) -> (copy: Violation)
        ensures
            copy@ == self@,
    {
        Violation { name: self.name.clone(), severity: self.severity }
    }
}

} // verus!
