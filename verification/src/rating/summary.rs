//! The number of ratings in each bucket.

use vstd::prelude::*;
use vstd::seq_lib::{to_multiset_build, to_multiset_contains, to_multiset_remove};
use crate::dir_entry::DirEntryTrait;
use crate::rating::{rating_views, Rating, RatingView};
use crate::severity::Severity;

verus! {

/// The bucket that a rating falls into: the highest positive point of the severity scale
/// that the rating reaches, `NONE` if it reaches none. A rating below zero is as clean as a
/// rating of zero.
pub open spec fn bucket_of(rating: int) -> Severity {
    if rating >= Severity::CRITICAL.spec_value() {
        Severity::CRITICAL
    } else if rating >= Severity::MAJOR.spec_value() {
        Severity::MAJOR
    } else if rating >= Severity::MINOR.spec_value() {
        Severity::MINOR
    } else if rating >= Severity::NOTICE.spec_value() {
        Severity::NOTICE
    } else {
        Severity::NONE
    }
}

/// The number of ratings that fall into a bucket.
pub open spec fn count_bucket(ratings: Seq<RatingView>, bucket: Severity) -> int
    decreases ratings.len(),
{
    if ratings.len() == 0 {
        0
    } else {
        count_bucket(ratings.drop_last(), bucket) + if bucket_of(ratings.last().rating) == bucket {
            1int
        } else {
            0int
        }
    }
}

/// A summary as a mathematical value.
pub struct SummaryView {
    pub critical: int,
    pub major: int,
    pub minor: int,
    pub notice: int,
    pub clean: int,
}

impl SummaryView {
    /// The summary of a list of ratings.
    pub open spec fn of(ratings: Seq<RatingView>) -> SummaryView {
        SummaryView {
            critical: count_bucket(ratings, Severity::CRITICAL),
            major: count_bucket(ratings, Severity::MAJOR),
            minor: count_bucket(ratings, Severity::MINOR),
            notice: count_bucket(ratings, Severity::NOTICE),
            clean: count_bucket(ratings, Severity::NONE),
        }
    }

    /// The number of ratings in the bucket of `severity` and in the buckets above it. For a
    /// severity below `MINOR` these are all ratings that are not clean.
    pub open spec fn ratings_above(self, severity: Severity) -> int {
        match severity {
            Severity::CRITICAL => self.critical,
            Severity::MAJOR => self.critical + self.major,
            Severity::MINOR => self.critical + self.major + self.minor,
            _ => self.critical + self.major + self.minor + self.notice,
        }
    }
}

/// Every rating falls into exactly one bucket.
pub proof fn lemma_buckets_partition(ratings: Seq<RatingView>)
    ensures
        0 <= count_bucket(ratings, Severity::CRITICAL),
        0 <= count_bucket(ratings, Severity::MAJOR),
        0 <= count_bucket(ratings, Severity::MINOR),
        0 <= count_bucket(ratings, Severity::NOTICE),
        0 <= count_bucket(ratings, Severity::NONE),
        count_bucket(ratings, Severity::CRITICAL) + count_bucket(ratings, Severity::MAJOR)
            + count_bucket(ratings, Severity::MINOR) + count_bucket(ratings, Severity::NOTICE)
            + count_bucket(ratings, Severity::NONE) == ratings.len(),
    decreases ratings.len(),
{
    if ratings.len() > 0 {
        lemma_buckets_partition(ratings.drop_last());
    }
}

/// Taking one rating out of a list takes it out of the count of its bucket.
pub proof fn lemma_count_bucket_remove(ratings: Seq<RatingView>, at: int, bucket: Severity)
    requires
        0 <= at < ratings.len(),
    ensures
        count_bucket(ratings, bucket) == count_bucket(ratings.remove(at), bucket) + (if bucket_of(
            ratings[at].rating,
        ) == bucket {
            1int
        } else {
            0int
        }),
    decreases ratings.len(),
{
    if at == ratings.len() - 1 {
        assert(ratings.remove(at) =~= ratings.drop_last());
    } else {
        lemma_count_bucket_remove(ratings.drop_last(), at, bucket);
        assert(ratings.remove(at).drop_last() =~= ratings.drop_last().remove(at));
        assert(ratings.remove(at).last() == ratings.last());
    }
}

/// The counts do not depend on the order of the ratings: sorting a list of ratings does not
/// change its summary.
pub proof fn lemma_summary_any_order(first: Seq<RatingView>, second: Seq<RatingView>)
    requires
        first.to_multiset() == second.to_multiset(),
    ensures
        SummaryView::of(first) == SummaryView::of(second),
    decreases first.len(),
{
    first.to_multiset_ensures();
    second.to_multiset_ensures();
    if first.len() > 0 {
        let x = first.last();
        let rest = first.drop_last();
        assert(first =~= rest.push(x));
        to_multiset_contains(second, x);
        let i = choose|i: int| 0 <= i < second.len() && second[i] == x;
        let others = second.remove(i);
        to_multiset_remove(second, i);
        to_multiset_build(rest, x);
        assert(others.to_multiset() =~= rest.to_multiset());
        lemma_summary_any_order(rest, others);
        lemma_count_bucket_remove(second, i, Severity::CRITICAL);
        lemma_count_bucket_remove(second, i, Severity::MAJOR);
        lemma_count_bucket_remove(second, i, Severity::MINOR);
        lemma_count_bucket_remove(second, i, Severity::NOTICE);
        lemma_count_bucket_remove(second, i, Severity::NONE);
    }
}

/// The counts of the ratings of a scan, by bucket.
pub struct Summary {
    critical: isize,
    major: isize,
    minor: isize,
    notice: isize,
    clean: isize,
}

impl View for Summary {
    type V = SummaryView;

    closed spec fn view(&self) -> SummaryView {
        SummaryView {
            critical: self.critical as int,
            major: self.major as int,
            minor: self.minor as int,
            notice: self.notice as int,
            clean: self.clean as int,
        }
    }
}

impl Summary {
    #[verifier::type_invariant]
    spec fn well_formed(self) -> bool {
        &&& 0 <= self.critical
        &&& 0 <= self.major
        &&& 0 <= self.minor
        &&& 0 <= self.notice
        &&& 0 <= self.clean
        &&& self.critical + self.major + self.minor + self.notice + self.clean <= isize::MAX
    }

    /// Build a summary of the overall ratings.
    pub fn build<'a, D: DirEntryTrait>(ratings: &Vec<Rating<'a, D>>) -> (summary: Summary)
        requires
            ratings@.len() <= isize::MAX,
        ensures
            summary@ == SummaryView::of(rating_views(ratings@)),
    {
        let ghost views = rating_views(ratings@);
        let mut critical: isize = 0;
        let mut major: isize = 0;
        let mut minor: isize = 0;
        let mut notice: isize = 0;
        let mut clean: isize = 0;
        let mut i: usize = 0;
        proof {
            assert(views.take(0) =~= Seq::<RatingView>::empty());
        }
        while i < ratings.len()
            invariant
                i <= ratings@.len(),
                ratings@.len() <= isize::MAX,
                views == rating_views(ratings@),
                critical == count_bucket(views.take(i as int), Severity::CRITICAL),
                major == count_bucket(views.take(i as int), Severity::MAJOR),
                minor == count_bucket(views.take(i as int), Severity::MINOR),
                notice == count_bucket(views.take(i as int), Severity::NOTICE),
                clean == count_bucket(views.take(i as int), Severity::NONE),
            decreases ratings@.len() - i,
        {
            proof {
                lemma_buckets_partition(views.take(i as int));
                assert(views.take(i + 1).drop_last() =~= views.take(i as int));
                assert(views.take(i + 1).last() == ratings@[i as int]@);
            }
            let r = ratings[i].rating();
            if r >= Severity::CRITICAL.value() {
                critical += 1;
            } else if r >= Severity::MAJOR.value() {
                major += 1;
            } else if r >= Severity::MINOR.value() {
                minor += 1;
            } else if r >= Severity::NOTICE.value() {
                notice += 1;
            } else {
                clean += 1;
            }
            i += 1;
        }
        proof {
            assert(views.take(ratings@.len() as int) =~= views);
            lemma_buckets_partition(views);
        }
        Summary { critical, major, minor, notice, clean }
    }

    /// The number of ratings in the bucket `CRITICAL`.
    pub fn critical(&self) -> (count: isize)
        ensures
            count == self@.critical,
    {
        self.critical
    }

    /// The number of ratings in the bucket `MAJOR`.
    pub fn major(&self) -> (count: isize)
        ensures
            count == self@.major,
    {
        self.major
    }

    /// The number of ratings in the bucket `MINOR`.
    pub fn minor(&self) -> (count: isize)
        ensures
            count == self@.minor,
    {
        self.minor
    }

    /// The number of ratings in the bucket `NOTICE`.
    pub fn notice(&self) -> (count: isize)
        ensures
            count == self@.notice,
    {
        self.notice
    }

    /// The number of ratings that reach no bucket.
    pub fn clean(&self) -> (count: isize)
        ensures
            count == self@.clean,
    {
        self.clean
    }

    /// Return the number of ratings including and greater than the `severity`.
    pub fn ratings_above(&self, severity: Severity) -> (count: isize)
        ensures
            count == self@.ratings_above(severity),
    {
        proof {
            use_type_invariant(self);
        }
        match severity {
            Severity::CRITICAL => self.critical,
            Severity::MAJOR => self.critical + self.major,
            Severity::MINOR => self.critical + self.major + self.minor,
            _ => self.critical + self.major + self.minor + self.notice,
        }
    }
}

} // verus!
