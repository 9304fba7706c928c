//! Ratings: the summed severity of the violations of a file.

pub mod sorting;
pub mod summary;



use vstd::prelude::*;
use vstd::seq_lib::{to_multiset_build, to_multiset_contains, to_multiset_remove};
use vstd::string::StringExecFns;
use crate::classifier::violation::{violation_views, Violation, ViolationView};
use crate::classifier::{
    classify,
    classify_entry,
    content_view,
    content_views,
    entry_paths,
    ContentClassificationError,
    ContentView,
};
use crate::dir_entry::DirEntryTrait;
use crate::join::{join_names, join_violations, violation_names};
use crate::rule::pattern_rule::rule_views;
use crate::rule::{Rule, RuleView};
use crate::rating::sorting::{descending, lemma_map_keeps_multiset, sort_keys};
use crate::severity::Severity;

pub use self::summary::{bucket_of, count_bucket, Summary, SummaryView};



verus! {

/// The sum of the severities of a list of violations.
pub open spec fn total_severity(violations: Seq<ViolationView>) -> int
    decreases violations.len(),
{
    if violations.len() == 0 {
        0
    } else {
        total_severity(violations.drop_last()) + violations.last().severity.spec_value()
    }
}

/// The name of the bucket that a rating falls into: the highest positive point of the
/// severity scale that the rating reaches, `CLEAN` if it reaches none.
pub open spec fn bucket_name(rating: int) -> Seq<char> {
    if rating >= Severity::CRITICAL.spec_value() {
        "CRITICAL"@
    } else if rating >= Severity::MAJOR.spec_value() {
        "MAJOR"@
    } else if rating >= Severity::MINOR.spec_value() {
        "MINOR"@
    } else if rating >= Severity::NOTICE.spec_value() {
        "NOTICE"@
    } else {
        "CLEAN"@
    }
}

/// A rating as a mathematical value.
pub struct RatingView {
    pub path: Seq<char>,
    pub rating: int,
    pub violations: Seq<ViolationView>,
}

impl RatingView {
    /// The rating of a file with the given path and content under a set of rules: its
    /// violations, and the sum of their severities.
    pub open spec fn of(rules: Seq<RuleView>, path: Seq<char>, content: ContentView) -> RatingView {
        let violations = classify(rules, path, content);
        RatingView { path, rating: total_severity(violations), violations }
    }

    /// The line that describes a rating.
    pub open spec fn description(self) -> Seq<char> {
        "["@ + bucket_name(self.rating) + "] "@ + self.path + " (Rules: "@ + join_names(
            violation_names(self.violations),
        ) + ")"@
    }
}

/// One entry with the sum of the severities of its violations, and the violations.
pub struct Rating<'a, D: DirEntryTrait> {
    entry: &'a D,
    rating: isize,
    violations: Vec<Violation>,
}

impl<'a, D: DirEntryTrait> View for Rating<'a, D> {
    type V = RatingView;

    closed spec fn view(&self) -> RatingView {
        RatingView {
            path: self.entry.spec_path(),
            rating: self.rating as int,
            violations: violation_views(self.violations@),
        }
    }
}

/// What a list of ratings says.
pub open spec fn rating_views<'a, D: DirEntryTrait>(ratings: Seq<Rating<'a, D>>) -> Seq<RatingView> {
    ratings.map_values(|rating: Rating<'a, D>| rating@)
}

/// The rating of each file of a list.
pub open spec fn rate_all(
    rules: Seq<RuleView>,
    paths: Seq<Seq<char>>,
    contents: Seq<ContentView>,
) -> Seq<RatingView>
    recommends
        paths.len() == contents.len(),
{
    Seq::new(paths.len(), |i: int| RatingView::of(rules, paths[i], contents[i]))
}

/// A sum of severities stays within 250 times the number of its terms.
pub proof fn lemma_total_severity_bounds(violations: Seq<ViolationView>)
    ensures
        -250 * violations.len() <= total_severity(violations) <= 250 * violations.len(),
    decreases violations.len(),
{
    if violations.len() > 0 {
        lemma_total_severity_bounds(violations.drop_last());
    }
}

/// The sum of the severities of two lists of violations, one after the other, is the sum of
/// their sums.
pub proof fn lemma_total_severity_add(first: Seq<ViolationView>, second: Seq<ViolationView>)
    ensures
        total_severity(first + second) == total_severity(first) + total_severity(second),
    decreases second.len(),
{
    if second.len() == 0 {
        assert(first + second =~= first);
    } else {
        assert((first + second).drop_last() =~= first + second.drop_last());
        lemma_total_severity_add(first, second.drop_last());
    }
}

/// The sum of the severities does not depend on the order of the violations.
pub proof fn lemma_total_severity_any_order(first: Seq<ViolationView>, second: Seq<ViolationView>)
    requires
        first.to_multiset() == second.to_multiset(),
    ensures
        total_severity(first) == total_severity(second),
    decreases first.len(),
{
    first.to_multiset_ensures();
    second.to_multiset_ensures();
    if first.len() > 0 {
        let x = first.last();
        let rest = first.drop_last();
        assert(first =~= rest.push(x));
        to_multiset_contains(second, x);
        let i = choose|i: int| 0 <= i < second.len() && second[i] == x;
        let others = second.remove(i);
        to_multiset_remove(second, i);
        to_multiset_build(rest, x);
        assert(others.to_multiset() =~= rest.to_multiset());
        lemma_total_severity_any_order(rest, others);
        lemma_total_severity_remove(second, i);
    }
}

/// Taking one violation out of a list takes its severity out of the sum.
pub proof fn lemma_total_severity_remove(violations: Seq<ViolationView>, at: int)
    requires
        0 <= at < violations.len(),
    ensures
        total_severity(violations) == total_severity(violations.remove(at))
            + violations[at].severity.spec_value(),
{
    let x = violations[at];
    let front = violations.subrange(0, at);
    let back = violations.subrange(at + 1, violations.len() as int);
    assert(violations =~= front + seq![x] + back);
    assert(violations.remove(at) =~= front + back);
    lemma_total_severity_add(front, back);
    lemma_total_severity_add(front, seq![x]);
    lemma_total_severity_add(front + seq![x], back);
    assert(seq![x].drop_last() =~= Seq::<ViolationView>::empty());
    assert(total_severity(Seq::<ViolationView>::empty()) == 0);
    assert(seq![x].last() == x);
}

/// A whitelist violation cancels the other violations of a file as long as they sum to less
/// than 270: the rating then reaches no bucket. The cancellation is a matter of the sum
/// alone, so that heavier violations outweigh it.
pub proof fn lemma_whitelist_cancels(violations: Seq<ViolationView>, at: int)
    requires
        0 <= at < violations.len(),
        violations[at].severity == Severity::WHITELIST,
        total_severity(violations.remove(at)) < 270,
    ensures
        total_severity(violations) == total_severity(violations.remove(at)) - 250,
        bucket_of(total_severity(violations)) == Severity::NONE,
        bucket_name(total_severity(violations)) == "CLEAN"@,
{
    lemma_total_severity_remove(violations, at);
}

/// A file has at most as many violations as there are rules.
pub proof fn lemma_classify_len(rules: Seq<RuleView>, path: Seq<char>, content: ContentView)
    ensures
        classify(rules, path, content).len() <= rules.len(),
    decreases rules.len(),
{
    reveal(Seq::filter_map);
    if rules.len() > 0 {
        lemma_classify_len(rules.drop_last(), path, content);
    }
}

/// Whether a file can be rated under so many rules: the sum of as many severities as there
/// are rules must fit into the machine's signed integer, whatever the severities are.
pub open spec fn rateable(rules: nat) -> bool {
    rules * 250 <= isize::MAX
}

/// Whether files can be rated under the rules.
pub fn can_be_rated(rules: &[Rule]) -> (ok: bool)
    ensures
        ok == rateable(rules@.len()),
{
    rules.len() <= (isize::MAX as usize) / 250
}

/// The sum of the severities of the violations.
pub fn sum_severities(violations: &[Violation]) -> (sum: isize)
    requires
        rateable(violations@.len()),
    ensures
        sum == total_severity(violation_views(violations@)),
{
    let ghost views = violation_views(violations@);
    let mut sum: isize = 0;
    let mut i: usize = 0;
    proof {
        assert(views.take(0) =~= Seq::<ViolationView>::empty());
    }
    while i < violations.len()
        invariant
            i <= violations@.len(),
            rateable(violations@.len()),
            views == violation_views(violations@),
            sum == total_severity(views.take(i as int)),
        decreases violations@.len() - i,
    {
        proof {
            lemma_total_severity_bounds(views.take(i as int));
            assert(views.take(i + 1).drop_last() =~= views.take(i as int));
            assert(views.take(i + 1).last() == violations@[i as int]@);
        }
        sum = sum + violations[i].severity().value();
        i += 1;
    }
    assert(views.take(violations@.len() as int) =~= views);
    sum
}

/// Rates one entry: classifies it and sums the severities of its violations.
///
/// `content` is what reading the entry's file gave; see [`classify_entry`].
pub fn rate_entry<'a, D: DirEntryTrait>(
    entry: &'a D,
    rules: &[Rule],
    content: &Result<Vec<u8>, ContentClassificationError>,
) -> (rating: Rating<'a, D>)
    requires
        rateable(rules@.len()),
    ensures
        rating@ == RatingView::of(rule_views(rules@), entry.spec_path(), content_view(*content)),
        *rating.spec_entry() == *entry,
{
    let violations: Vec<Violation> = classify_entry(entry, rules, content);
    proof {
        lemma_classify_len(rule_views(rules@), entry.spec_path(), content_view(*content));
    }
    let rating = sum_severities(violations.as_slice());
    Rating::new(entry, rating, violations)
}

/// Rates each entry of a list, in the order of the entries.
///
/// `contents[i]` is what reading the file of `entries[i]` gave.
pub fn rate_entries<'a, D: DirEntryTrait>(
    entries: &'a [D],
    rules: &[Rule],
    contents: &[Result<Vec<u8>, ContentClassificationError>],
) -> (ratings: Vec<Rating<'a, D>>)
    requires
        entries@.len() == contents@.len(),
        rateable(rules@.len()),
    ensures
        rating_views(ratings@) == rate_all(
            rule_views(rules@),
            entry_paths(entries@),
            content_views(contents@),
        ),
{
    let mut ratings: Vec<Rating<'a, D>> = Vec::with_capacity(entries.len());
    let mut i: usize = 0;
    while i < entries.len()
        invariant
            i <= entries@.len(),
            entries@.len() == contents@.len(),
            rateable(rules@.len()),
            ratings@.len() == i,
            forall|k: int|
                0 <= k < i ==> (#[trigger] ratings@[k])@ == RatingView::of(
                    rule_views(rules@),
                    entries@[k].spec_path(),
                    content_view(contents@[k]),
                ),
        decreases entries@.len() - i,
    {
        let rating = rate_entry(&entries[i], rules, &contents[i]);
        ratings.push(rating);
        i += 1;
    }
    assert(rating_views(ratings@) =~= rate_all(
        rule_views(rules@),
        entry_paths(entries@),
        content_views(contents@),
    ));
    ratings
}

/// Whether the ratings are in descending order.
pub open spec fn ratings_descending(ratings: Seq<RatingView>) -> bool {
    forall|i: int, j: int| 0 <= i < j < ratings.len() ==> ratings[i].rating >= ratings[j].rating
}

/// The ratings sorted by their summed severity, the highest first.
///
/// The sorted list holds copies of the ratings that were given: it says the same as often.
/// Among ratings with the same sum no order is promised.
pub fn sort_ratings<'a, D: DirEntryTrait>(ratings: &[Rating<'a, D>]) -> (sorted: Vec<Rating<'a, D>>)
    ensures
        ratings_descending(rating_views(sorted@)),
        rating_views(sorted@).to_multiset() == rating_views(ratings@).to_multiset(),
{
    let ghost views = rating_views(ratings@);
    let mut keys: Vec<(isize, usize)> = Vec::with_capacity(ratings.len());
    let mut i: usize = 0;
    while i < ratings.len()
        invariant
            i <= ratings@.len(),
            keys@.len() == i,
            forall|k: int|
                0 <= k < i ==> (#[trigger] keys@[k]).0 == ratings@[k]@.rating && keys@[k].1 == k,
        decreases ratings@.len() - i,
    {
        keys.push((ratings[i].rating(), i));
        i += 1;
    }
    let order = sort_keys(&keys);
    proof {
        order@.to_multiset_ensures();
        keys@.to_multiset_ensures();
        assert forall|k: int| 0 <= k < order@.len() implies (#[trigger] order@[k]).1
            < ratings@.len() && order@[k].0 == ratings@[order@[k].1 as int]@.rating by {
            to_multiset_contains(order@, order@[k]);
            to_multiset_contains(keys@, order@[k]);
            assert(order@.contains(order@[k]));
            let at = choose|at: int| 0 <= at < keys@.len() && keys@[at] == order@[k];
            assert(keys@[at].1 == at);
        }
    }
    let mut sorted: Vec<Rating<'a, D>> = Vec::with_capacity(order.len());
    let mut k: usize = 0;
    while k < order.len()
        invariant
            k <= order@.len(),
            order@.len() == ratings@.len(),
            sorted@.len() == k,
            forall|m: int|
                0 <= m < order@.len() ==> (#[trigger] order@[m]).1 < ratings@.len() && order@[m].0
                    == ratings@[order@[m].1 as int]@.rating,
            forall|m: int| 0 <= m < k ==> (#[trigger] sorted@[m])@ == ratings@[order@[m].1 as int]@,
        decreases order@.len() - k,
    {
        let index = order[k].1;
        sorted.push(ratings[index].clone());
        k += 1;
    }
    proof {
        let pick = |key: (isize, usize)| views[key.1 as int];
        assert(order@.map_values(pick) =~= rating_views(sorted@));
        assert(keys@.map_values(pick) =~= views);
        lemma_map_keeps_multiset(order@, keys@, pick);
        assert forall|a: int, b: int| 0 <= a < b < sorted@.len() implies rating_views(sorted@)[a].rating
            >= rating_views(sorted@)[b].rating by {
            assert(order@[a].0 >= order@[b].0);
            assert(sorted@[a]@ == ratings@[order@[a].1 as int]@);
            assert(sorted@[b]@ == ratings@[order@[b].1 as int]@);
        }
    }
    sorted
}

impl<'a, D: DirEntryTrait> Rating<'a, D> {
    /// The entry that was rated.
    pub closed spec fn spec_entry(&self) -> &'a D {
        self.entry
    }

    /// A rating made of its parts.
    pub fn new(entry: &'a D, rating: isize, violations: Vec<Violation>) -> (made: Rating<'a, D>)
        ensures
            made@.path == entry.spec_path(),
            made@.rating == rating,
            made@.violations == violation_views(violations@),
            *made.spec_entry() == *entry,
    {
        Rating { entry, rating, violations }
    }

    /// The entry that was rated.
    pub fn entry(&self) -> (entry: &'a D)
        ensures
            entry == self.spec_entry(),
            entry.spec_path() == self@.path,
    {
        self.entry
    }

    /// The violations of the entry.
    pub fn violations(&self) -> (violations: &Vec<Violation>)
        ensures
            violation_views(violations@) == self@.violations,
    {
        &self.violations
    }

    /// The summed severity.
    pub fn rating(&self) -> (rating: isize)
        ensures
            rating == self@.rating,
    {
        self.rating
    }

    /// The name of the bucket that the rating falls into.
    pub fn rating_description(&self) -> (name: &'static str)
        ensures
            name@ == bucket_name(self@.rating),
    {
        if self.rating >= Severity::CRITICAL.value() {
            "CRITICAL"
        } else if self.rating >= Severity::MAJOR.value() {
            "MAJOR"
        } else if self.rating >= Severity::MINOR.value() {
            "MINOR"
        } else if self.rating >= Severity::NOTICE.value() {
            "NOTICE"
        } else {
            "CLEAN"
        }
    }

    /// The line that describes the rating: the bucket, the path and the names of the rules.
    pub fn description(&self) -> (text: String)
        ensures
            text@ == self@.description(),
    {
        let mut text = "[".to_owned();
        text.append(self.rating_description());
        text.append("] ");
        text.append(self.entry.path());
        text.append(" (Rules: ");
        text.append(join_violations(self.violations.as_slice()).as_str());
        text.append(")");
        text
    }
}

impl<'a, D: DirEntryTrait> Clone for Rating<'a, D> {
    fn clone(&self) -> (copy: Rating<'a, D>)
        ensures
            copy@ == self@,
            copy.spec_entry() == self.spec_entry(),
    {
        let mut violations: Vec<Violation> = Vec::with_capacity(self.violations.len());
        let mut i: usize = 0;
        while i < self.violations.len()
            invariant
                i <= self.violations@.len(),
                violations@.len() == i,
                forall|k: int| 0 <= k < i ==> (#[trigger] violations@[k])@ == self.violations@[k]@,
            decreases self.violations@.len() - i,
        {
            violations.push(self.violations[i].clone());
            i += 1;
        }
        assert(violation_views(violations@) =~= violation_views(self.violations@));
        Rating { entry: self.entry, rating: self.rating, violations }
    }
}

} // verus!
