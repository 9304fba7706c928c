//! The outcome of holding one file against one rule.

use vstd::prelude::*;
use crate::classifier::violation::{Violation, ViolationView};
use crate::rule::{Rule, RuleView};

verus! {

/// An outcome as a mathematical value.
pub enum ClassificationView {
    Empty,
    NotApplicable,
    NoMatch,
    Match(ViolationView),
    Error(ViolationView),
}

impl ClassificationView {
    /// The outcome for a rule of which it is known whether it matched: a rule that matched
    /// fires, a rule that did not match does not.
    pub open spec fn of_match(rule: RuleView, matched: bool) -> ClassificationView {
        if matched {
            ClassificationView::Match(ViolationView::of_rule(rule))
        } else {
            ClassificationView::NoMatch
        }
    }

    /// The violation that an outcome contributes to the list of a file, if any.
    pub open spec fn violation(self) -> Option<ViolationView> {
        match self {
            ClassificationView::Match(violation) => Some(violation),
            ClassificationView::Error(violation) => Some(violation),
            _ => None,
        }
    }
}

/// What came of holding one file against one rule.
pub enum Classification {
    Empty,
    NotApplicable,
    /// The rule did not fire.
    NoMatch,
    /// The rule fired.
    Match(Violation),
    /// The rule could not be decided, and the failure is reported in its place.
    Error(Violation),
}

impl View for Classification {
    type V = ClassificationView;

    open spec fn view(&self) -> ClassificationView {
        match self {
            Classification::Empty => ClassificationView::Empty,
            Classification::NotApplicable => ClassificationView::NotApplicable,
            Classification::NoMatch => ClassificationView::NoMatch,
            Classification::Match(violation) => ClassificationView::Match(violation@),
            Classification::Error(violation) => ClassificationView::Error(violation@),
        }
    }
}

impl Classification {
    /// The outcome for a rule of which it is known whether it matched.
    pub fn of_match(rule: &Rule, matched: bool) -> (outcome: Classification)
        ensures
            outcome@ == ClassificationView::of_match(rule@, matched),
    {
        if matched {
            Classification::Match(Violation::from_rule(rule))
        } else {
            Classification::NoMatch
        }
    }

    /// The name of an outcome.
    pub open spec fn spec_description(self) -> Seq<char> {
        match self {
            Classification::NotApplicable => "NotApplicable"@,
            Classification::Empty => "Empty"@,
            Classification::NoMatch => "NoMatch"@,
            Classification::Match(_) => "Match"@,
            Classification::Error(_) => "Error"@,
        }
    }

    /// The name of an outcome, as it is shown when an outcome is printed.
    pub fn description(&self) -> (text: &'static str)
        ensures
            text@ == self.spec_description(),
    {
        match self {
            Classification::NotApplicable => "NotApplicable",
            Classification::Empty => "Empty",
            Classification::NoMatch => "NoMatch",
            Classification::Match(_) => "Match",
            Classification::Error(_) => "Error",
        }
    }

    /// The violation that this outcome contributes, if any.
    pub fn into_violation(self) -> (violation: Option<Violation>)
        ensures
            self@.violation() matches Some(expected) ==> (violation matches Some(v) && v@
                == expected),
            self@.violation() is None ==> violation is None,
    {
        match self {
            Classification::NoMatch => None,
            Classification::Match(violation) => Some(violation),
            Classification::Error(violation) => Some(violation),
            Classification::Empty => None,
            Classification::NotApplicable => None,
        }
    }
}

} // verus!
