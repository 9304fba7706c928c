//! Classification by path.

use vstd::prelude::*;
use crate::classifier::classification::{Classification, ClassificationView};
use crate::dir_entry::DirEntryTrait;
use crate::matcher::Matcher;
use crate::rule::{Rule, RuleView};

verus! {

/// The outcome by path alone: the rule fires if the path satisfies its path specifier.
pub open spec fn classify_path(rule: RuleView, path: Seq<char>) -> ClassificationView {
    ClassificationView::of_match(rule, rule.path_matches(path))
}

/// Holds the path of an entry against the path specifier of a rule.
pub struct PathClassifier {}

impl PathClassifier {
    /// A classifier for the given entry.
    pub fn new<D: DirEntryTrait>(_entry: &D) -> PathClassifier {
        PathClassifier {  }
    }

    /// Holds the entry's path against the rule.
    pub fn classify<D: DirEntryTrait>(&mut self, entry: &D, rule: &Rule) -> (outcome:
        Classification)
        ensures
            outcome@ == classify_path(rule@, entry.spec_path()),
    {
        Classification::of_match(rule, Matcher::match_entry_path(rule, entry))
    }
}

} // verus!
