//! Sorting by rating.
//!
//! What is sorted are keys: pairs of a rating and the place that the rating has in a list.

use vstd::prelude::*;
use vstd::seq_lib::{lemma_multiset_commutative, to_multiset_build, to_multiset_contains, to_multiset_remove};

verus! {

/// Whether the keys are in descending order of their ratings.
pub open spec fn descending(keys: Seq<(isize, usize)>) -> bool {
    forall|i: int, j: int| 0 <= i < j < keys.len() ==> keys[i].0 >= keys[j].0
}

/// The part of a list of keys from `from` up to, but not including, `to`.
fn copy_range(keys: &Vec<(isize, usize)>, from: usize, to: usize) -> (part: Vec<(isize, usize)>)
    requires
        from <= to <= keys@.len(),
    ensures
        part@ == keys@.subrange(from as int, to as int),
{
    let mut part: Vec<(isize, usize)> = Vec::with_capacity(to - from);
    let mut i: usize = from;
    while i < to
        invariant
            from <= i <= to <= keys@.len(),
            part@ == keys@.subrange(from as int, i as int),
        decreases to - i,
    {
        part.push(keys[i]);
        assert(part@ =~= keys@.subrange(from as int, i + 1));
        i += 1;
    }
    part
}

/// Merges two lists of keys that are in descending order into one.
fn merge(left: &Vec<(isize, usize)>, right: &Vec<(isize, usize)>) -> (merged: Vec<(isize, usize)>)
    requires
        descending(left@),
        descending(right@),
        left@.len() + right@.len() <= usize::MAX,
    ensures
        descending(merged@),
        merged@.to_multiset() == left@.to_multiset().add(right@.to_multiset()),
{
    let mut merged: Vec<(isize, usize)> = Vec::with_capacity(left.len() + right.len());
    let mut i: usize = 0;
    let mut j: usize = 0;
    assert(left@.take(0) =~= Seq::<(isize, usize)>::empty());
    assert(right@.take(0) =~= Seq::<(isize, usize)>::empty());
    proof {
        let nothing = Seq::<(isize, usize)>::empty();
        nothing.to_multiset_ensures();
        vstd::multiset::lemma_multiset_empty_len(nothing.to_multiset());
        assert(merged@ =~= nothing);
        assert(merged@.to_multiset() =~= nothing.to_multiset().add(nothing.to_multiset()));
    }
    while i < left.len() || j < right.len()
        invariant
            i <= left@.len(),
            j <= right@.len(),
            descending(left@),
            descending(right@),
            descending(merged@),
            merged@.to_multiset() == left@.take(i as int).to_multiset().add(
                right@.take(j as int).to_multiset(),
            ),
            forall|k: int|
                0 <= k < merged@.len() && i < left@.len() ==> (#[trigger] merged@[k]).0
                    >= left@[i as int].0,
            forall|k: int|
                0 <= k < merged@.len() && j < right@.len() ==> (#[trigger] merged@[k]).0
                    >= right@[j as int].0,
        decreases left@.len() - i + right@.len() - j,
    {
        let ghost before = merged@;
        if j == right.len() || (i < left.len() && left[i].0 >= right[j].0) {
            let key = left[i];
            merged.push(key);
            proof {
                assert(left@.take(i + 1) =~= left@.take(i as int).push(key));
                to_multiset_build(left@.take(i as int), key);
                to_multiset_build(before, key);
                assert(merged@.to_multiset() =~= left@.take(i + 1).to_multiset().add(
                    right@.take(j as int).to_multiset(),
                ));
            }
            i += 1;
        } else {
            let key = right[j];
            merged.push(key);
            proof {
                assert(right@.take(j + 1) =~= right@.take(j as int).push(key));
                to_multiset_build(right@.take(j as int), key);
                to_multiset_build(before, key);
                assert(merged@.to_multiset() =~= left@.take(i as int).to_multiset().add(
                    right@.take(j + 1).to_multiset(),
                ));
            }
            j += 1;
        }
    }
    assert(left@.take(left@.len() as int) =~= left@);
    assert(right@.take(right@.len() as int) =~= right@);
    merged
}

/// Sorts keys into descending order of their ratings.
///
/// What comes out holds the keys that went in, each as often as it went in.
pub fn sort_keys(keys: &Vec<(isize, usize)>) -> (sorted: Vec<(isize, usize)>)
    ensures
        descending(sorted@),
        sorted@.to_multiset() == keys@.to_multiset(),
    decreases keys@.len(),
{
    if keys.len() <= 1 {
        let sorted = copy_range(keys, 0, keys.len());
        assert(sorted@ =~= keys@);
        return sorted;
    }
    let middle = keys.len() / 2;
    let left = copy_range(keys, 0, middle);
    let right = copy_range(keys, middle, keys.len());
    proof {
        assert(keys@ =~= left@ + right@);
        lemma_multiset_commutative(left@, right@);
    }
    let left_sorted = sort_keys(&left);
    let right_sorted = sort_keys(&right);
    proof {
        left_sorted@.to_multiset_ensures();
        right_sorted@.to_multiset_ensures();
        left@.to_multiset_ensures();
        right@.to_multiset_ensures();
    }
    merge(&left_sorted, &right_sorted)
}

/// Two lists that hold the same items as often hold the same items as often after each
/// item has been replaced by what a function makes of it.
pub proof fn lemma_map_keeps_multiset<A, B>(first: Seq<A>, second: Seq<A>, f: spec_fn(A) -> B)
    requires
        first.to_multiset() == second.to_multiset(),
    ensures
        first.map_values(f).to_multiset() == second.map_values(f).to_multiset(),
    decreases first.len(),
{
    first.to_multiset_ensures();
    second.to_multiset_ensures();
    if first.len() == 0 {
        assert(first.map_values(f) =~= second.map_values(f));
    } else {
        let x = first.last();
        let rest = first.drop_last();
        assert(first =~= rest.push(x));
        to_multiset_build(rest, x);
        to_multiset_contains(second, x);
        assert(second.contains(x));
        let i = choose|i: int| 0 <= i < second.len() && second[i] == x;
        let others = second.remove(i);
        to_multiset_remove(second, i);
        assert(others.to_multiset() =~= rest.to_multiset());
        lemma_map_keeps_multiset(rest, others, f);
        assert(first.map_values(f) =~= rest.map_values(f).push(f(x)));
        to_multiset_build(rest.map_values(f), f(x));
        assert(second.map_values(f).remove(i) =~= others.map_values(f));
        to_multiset_remove(second.map_values(f), i);
        to_multiset_contains(second.map_values(f), f(x));
        assert(second.map_values(f)[i] == f(x));
        assert(second.map_values(f).contains(f(x)));
        assert(second.map_values(f).to_multiset() =~= others.map_values(f).to_multiset().insert(
            f(x),
        ));
    }
}

} // verus!
