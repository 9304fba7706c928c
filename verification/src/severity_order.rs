//! The order of severities.

use vstd::prelude::*;
use vstd::std_specs::cmp::PartialOrdSpecImpl;
use core::cmp::Ordering;
use crate::severity::Severity;

verus! {

/// How two integers compare.
pub open spec fn compare_values(left: int, right: int) -> Ordering {
    if left < right {
        Ordering::Less
    } else if left == right {
        Ordering::Equal
    } else {
        Ordering::Greater
    }
}

impl PartialOrd for Severity {
    /// Severities are ordered as the integers that they stand for.
    fn partial_cmp(&self, other: &Severity) -> (order: Option<Ordering>) {
        let left = self.value();
        let right = other.value();
        if left < right {
            Some(Ordering::Less)
        } else if left == right {
            Some(Ordering::Equal)
        } else {
            Some(Ordering::Greater)
        }
    }
}

impl PartialOrdSpecImpl for Severity {
    open spec fn obeys_partial_cmp_spec() -> bool {
        true
    }

    open spec fn partial_cmp_spec(&self, other: &Severity) -> Option<Ordering> {
        Some(compare_values(self.spec_value(), other.spec_value()))
    }
}

} // verus!
