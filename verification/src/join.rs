//! The names of violations as one line of text.

use vstd::prelude::*;
use vstd::string::StringExecFns;
use crate::classifier::violation::{violation_views, Violation, ViolationView};

verus! {

/// Texts joined by a comma and a blank.
pub open spec fn join_names(names: Seq<Seq<char>>) -> Seq<char>
    decreases names.len(),
{
    if names.len() == 0 {
        Seq::empty()
    } else if names.len() == 1 {
        names[0]
    } else {
        join_names(names.drop_last()) + ", "@ + names.last()
    }
}

/// The names of a list of violations.
pub open spec fn violation_names(violations: Seq<ViolationView>) -> Seq<Seq<char>> {
    violations.map_values(|violation: ViolationView| violation.name)
}

/// The names of the violations, in their order, separated by a comma and a blank.
pub fn join_violations(violations: &[Violation]) -> (joined: String)
    ensures
        joined@ == join_names(violation_names(violation_views(violations@))),
{
    let ghost names = violation_names(violation_views(violations@));
    let mut joined = String::new();
    let mut i: usize = 0;
    proof {
        assert(names.take(0) =~= Seq::<Seq<char>>::empty());
    }
    while i < violations.len()
        invariant
            i <= violations@.len(),
            names == violation_names(violation_views(violations@)),
            joined@ == join_names(names.take(i as int)),
        decreases violations@.len() - i,
    {
        proof {
            assert(names.take(i + 1).drop_last() =~= names.take(i as int));
            assert(names.take(i + 1).last() == violations@[i as int]@.name);
        }
        if i > 0 {
            joined.append(", ");
        } else {
            assert(joined@ + violations@[i as int]@.name =~= violations@[i as int]@.name);
        }
        joined.append(violations[i].name().as_str());
        i += 1;
    }
    assert(names.take(violations@.len() as int) =~= names);
    joined
}

} // verus!
