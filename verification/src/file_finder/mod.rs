//! Finding the candidate files of a scan.
//!
//! Walking the file system is left to the caller. What the walk reports is handed to one of
//! the finders, which keeps the entries that the rules may fire on. Content plays no part
//! here: the candidates are classified afterwards.

pub mod fts;
pub mod ftw;
pub mod walkdir;

use vstd::prelude::*;
use crate::classifier::{classify, ContentView, ViolationView};
use crate::dir_entry::{DirEntryTrait, WalkdirDirEntry};
use crate::fs::file_type::{FileTypeTrait, StandaloneFileType};
use crate::matcher::Matcher;
use crate::rule::pattern_rule::rule_views;
use crate::rule::{Rule, RuleView};
use crate::severity::Severity;

verus! {

/// Whether some rule is satisfied by the path.
pub open spec fn some_rule_matches(rules: Seq<RuleView>, path: Seq<char>) -> bool {
    exists|i: int| 0 <= i < rules.len() && (#[trigger] rules[i]).path_matches(path)
}

/// Whether some whitelist rule is satisfied by the path.
pub open spec fn whitelisted(rules: Seq<RuleView>, path: Seq<char>) -> bool {
    exists|i: int|
        0 <= i < rules.len() && (#[trigger] rules[i]).path_matches(path) && rules[i].severity
            == Severity::WHITELIST
}

/// Whether an entry is a candidate: it is neither a directory nor a symbolic link, some rule
/// is satisfied by its path, and no whitelist rule is.
pub open spec fn is_candidate(rules: Seq<RuleView>, path: Seq<char>, kind: StandaloneFileType) -> bool {
    &&& !kind.spec_is_dir()
    &&& !kind.spec_is_symlink()
    &&& some_rule_matches(rules, path)
    &&& !whitelisted(rules, path)
}

/// The items of a list for which the flag at the same place is set, in their order.
pub open spec fn select<T>(items: Seq<T>, keep: Seq<bool>) -> Seq<T>
    recommends
        items.len() == keep.len(),
    decreases items.len(),
{
    if items.len() == 0 {
        items
    } else {
        let rest = select(items.drop_last(), keep.drop_last());
        if keep.last() {
            rest.push(items.last())
        } else {
            rest
        }
    }
}

/// Whether `kept` is what is left of `entries` after `filter` was asked about each of them:
/// there is one answer of the filter for each entry, and the entries with the answer `true`
/// are kept, in their order.
pub open spec fn filtered_by<D, F: Fn(&D) -> bool>(filter: F, entries: Seq<D>, kept: Seq<D>) -> bool {
    exists|keep: Seq<bool>|
        {
            &&& keep.len() == entries.len()
            &&& forall|i: int|
                0 <= i < entries.len() ==> call_ensures(filter, (&entries[i],), #[trigger] keep[i])
            &&& kept == select(entries, keep)
        }
}

/// The candidates among the entries, in their order.
pub open spec fn candidates<D: DirEntryTrait>(rules: Seq<RuleView>, entries: Seq<D>) -> Seq<D> {
    entries.filter(|entry: D| is_candidate(rules, entry.spec_path(), entry.spec_file_type()))
}

/// Selecting by flags that say what a predicate says is filtering by the predicate.
pub proof fn lemma_select_is_filter<T>(items: Seq<T>, keep: Seq<bool>, pred: spec_fn(T) -> bool)
    requires
        keep.len() == items.len(),
        forall|i: int| 0 <= i < items.len() ==> #[trigger] keep[i] == pred(items[i]),
    ensures
        select(items, keep) == items.filter(pred),
    decreases items.len(),
{
    reveal(Seq::filter);
    if items.len() > 0 {
        lemma_select_is_filter(items.drop_last(), keep.drop_last(), pred);
    }
}

/// Finding the candidates in the same report under rules that say the same finds the same
/// entries, however often it is done.
pub proof fn lemma_find_files_repeatable<D: DirEntryTrait>(
    rules: Seq<Rule>,
    again: Seq<Rule>,
    walked: Seq<D>,
    first: Seq<D>,
    second: Seq<D>,
)
    requires
        rule_views(rules) == rule_views(again),
        first == candidates(rule_views(rules), walked),
        second == candidates(rule_views(again), walked),
    ensures
        first == second,
{
}

/// The candidates among the candidates are the candidates.
pub proof fn lemma_candidates_of_candidates<D: DirEntryTrait>(rules: Seq<RuleView>, walked: Seq<D>)
    ensures
        candidates(rules, candidates(rules, walked)) == candidates(rules, walked),
    decreases walked.len(),
{
    reveal(Seq::filter);
    let keep = |entry: D| is_candidate(rules, entry.spec_path(), entry.spec_file_type());
    if walked.len() > 0 {
        let rest = walked.drop_last();
        lemma_candidates_of_candidates(rules, rest);
        if keep(walked.last()) {
            assert(candidates(rules, walked) == candidates(rules, rest).push(walked.last()));
            assert(candidates(rules, rest).push(walked.last()).drop_last() =~= candidates(
                rules,
                rest,
            ));
        }
    }
}

/// The candidate search drops no file that a rule fires on: a file on whose path no rule is
/// satisfied has no violations, whatever its content. What the search leaves out besides
/// are directories, symbolic links and the files that a whitelist rule exonerates by their
/// path.
pub proof fn lemma_no_match_no_violation(
    rules: Seq<RuleView>,
    path: Seq<char>,
    content: ContentView,
)
    requires
        !some_rule_matches(rules, path),
    ensures
        classify(rules, path, content) == Seq::<ViolationView>::empty(),
    decreases rules.len(),
{
    reveal(Seq::filter_map);
    if rules.len() > 0 {
        let rest = rules.drop_last();
        assert(!some_rule_matches(rest, path)) by {
            if some_rule_matches(rest, path) {
                let i = choose|i: int| 0 <= i < rest.len() && (#[trigger] rest[i]).path_matches(path);
                assert(rules[i].path_matches(path));
            }
        }
        lemma_no_match_no_violation(rest, path, content);
        assert(!rules[rules.len() - 1].path_matches(path));
    }
}

/// The paths of the entries that are neither a directory nor a symbolic link.
pub open spec fn regular_paths<D: DirEntryTrait>(entries: Seq<D>) -> Set<Seq<char>> {
    Set::new(
        |path: Seq<char>|
            exists|i: int|
                0 <= i < entries.len() && (#[trigger] entries[i]).spec_path() == path
                    && !entries[i].spec_file_type().spec_is_dir()
                    && !entries[i].spec_file_type().spec_is_symlink(),
    )
}

/// The paths of the candidates among the entries.
pub open spec fn candidate_paths<D: DirEntryTrait>(rules: Seq<RuleView>, entries: Seq<D>) -> Set<
    Seq<char>,
> {
    Set::new(
        |path: Seq<char>|
            exists|i: int|
                0 <= i < candidates(rules, entries).len() && (#[trigger] candidates(
                    rules,
                    entries,
                )[i]).spec_path() == path,
    )
}

/// An entry is among the candidates exactly if it is among the entries and is a candidate.
pub proof fn lemma_candidates_contains<D: DirEntryTrait>(
    rules: Seq<RuleView>,
    entries: Seq<D>,
    entry: D,
)
    ensures
        candidates(rules, entries).contains(entry) <==> entries.contains(entry) && is_candidate(
            rules,
            entry.spec_path(),
            entry.spec_file_type(),
        ),
    decreases entries.len(),
{
    reveal(Seq::filter);
    let keep = |entry: D| is_candidate(rules, entry.spec_path(), entry.spec_file_type());
    if entries.len() > 0 {
        let rest = entries.drop_last();
        let last = entries.last();
        lemma_candidates_contains(rules, rest, entry);
        assert(entries =~= rest.push(last));
        if entries.contains(entry) {
            let i = choose|i: int| 0 <= i < entries.len() && entries[i] == entry;
            if i < rest.len() {
                assert(rest[i] == entry);
            }
        }
        if rest.contains(entry) {
            let i = choose|i: int| 0 <= i < rest.len() && rest[i] == entry;
            assert(entries[i] == entry);
        }
        if keep(last) {
            let found = candidates(rules, rest);
            assert(candidates(rules, entries) == found.push(last));
            if found.push(last).contains(entry) {
                let i = choose|i: int| 0 <= i < found.push(last).len() && found.push(last)[i] == entry;
                if i < found.len() {
                    assert(found[i] == entry);
                }
            }
            if found.contains(entry) {
                let i = choose|i: int| 0 <= i < found.len() && found[i] == entry;
                assert(found.push(last)[i] == entry);
            }
            if entry == last {
                assert(found.push(last)[found.len() as int] == entry);
            }
        }
    }
}

/// The paths of the candidates are the paths of the regular entries on which the rules may
/// fire.
pub proof fn lemma_candidate_paths<D: DirEntryTrait>(rules: Seq<RuleView>, entries: Seq<D>)
    ensures
        forall|path: Seq<char>|
            #[trigger] candidate_paths(rules, entries).contains(path) <==> regular_paths(
                entries,
            ).contains(path) && some_rule_matches(rules, path) && !whitelisted(rules, path),
{
    let found = candidates(rules, entries);
    assert forall|path: Seq<char>| #[trigger]
        candidate_paths(rules, entries).contains(path) <==> regular_paths(entries).contains(path)
            && some_rule_matches(rules, path) && !whitelisted(rules, path) by {
        if candidate_paths(rules, entries).contains(path) {
            let i = choose|i: int| 0 <= i < found.len() && (#[trigger] found[i]).spec_path() == path;
            assert(found.contains(found[i]));
            lemma_candidates_contains(rules, entries, found[i]);
            let j = choose|j: int| 0 <= j < entries.len() && entries[j] == found[i];
            assert(entries[j].spec_path() == path);
        }
        if regular_paths(entries).contains(path) && some_rule_matches(rules, path) && !whitelisted(
            rules,
            path,
        ) {
            let j = choose|j: int|
                0 <= j < entries.len() && (#[trigger] entries[j]).spec_path() == path
                    && !entries[j].spec_file_type().spec_is_dir()
                    && !entries[j].spec_file_type().spec_is_symlink();
            assert(entries.contains(entries[j]));
            lemma_candidates_contains(rules, entries, entries[j]);
            let i = choose|i: int| 0 <= i < found.len() && found[i] == entries[j];
            assert(found[i].spec_path() == path);
        }
    }
}

/// Two walks that report the same regular files lead to the same candidate paths, whatever
/// kind of entries they produce and in whatever order.
pub proof fn lemma_backends_agree<D: DirEntryTrait, E: DirEntryTrait>(
    rules: Seq<RuleView>,
    first: Seq<D>,
    second: Seq<E>,
)
    requires
        regular_paths(first) == regular_paths(second),
    ensures
        candidate_paths(rules, first) == candidate_paths(rules, second),
{
    lemma_candidate_paths(rules, first);
    lemma_candidate_paths(rules, second);
    assert(candidate_paths(rules, first) =~= candidate_paths(rules, second));
}

/// A way to find the candidate files among what a walk of the file system reported.
pub trait FileFinderTrait {
    type DirEntry: DirEntryTrait;

    /// Return all entries that match at least one of the rules and none of the whitelist
    /// rules, directories and symbolic links left out.
    fn find(&self, walked: Vec<Self::DirEntry>, rules: &[Rule]) -> (found: Vec<Self::DirEntry>)
        ensures
            found@ == candidates(rule_views(rules@), walked@),
    {
        let ghost views = rule_views(rules@);
        let filter = |entry: &Self::DirEntry| -> (keep: bool)
            ensures
                keep == is_candidate(
                    rule_views(rules@),
                    entry.spec_path(),
                    entry.spec_file_type(),
                ),
            { prefilter(entry, rules) };
        let ghost all = walked@;
        let found = self.walk_dir(walked, filter);
        proof {
            let keep = choose|keep: Seq<bool>|
                {
                    &&& keep.len() == all.len()
                    &&& forall|i: int|
                        0 <= i < all.len() ==> call_ensures(filter, (&all[i],), #[trigger] keep[i])
                    &&& found@ == select(all, keep)
                };
            lemma_select_is_filter(
                all,
                keep,
                |entry: Self::DirEntry| is_candidate(views, entry.spec_path(), entry.spec_file_type()),
            );
        }
        found
    }

    /// Filter what the walk reported with `filter`.
    fn walk_dir<F: Fn(&Self::DirEntry) -> bool>(
        &self,
        walked: Vec<Self::DirEntry>,
        filter: F,
    ) -> (kept: Vec<Self::DirEntry>)
        requires
            forall|i: int|
                0 <= i < walked@.len() ==> call_requires(filter, (&#[trigger] walked@[i],)),
        ensures
            filtered_by(filter, walked@, kept@),
    ;
}

/// The candidates among the entries that a generic recursive walk reported.
pub fn find_files(walked: Vec<WalkdirDirEntry>, rules: &[Rule]) -> (found: Vec<WalkdirDirEntry>)
    ensures
        found@ == candidates(rule_views(rules@), walked@),
{
    let finder = self::walkdir::FileFinder::new();
    finder.find(walked, rules)
}

/// Decides whether an entry is a candidate.
pub fn prefilter<D: DirEntryTrait>(entry: &D, rules: &[Rule]) -> (keep: bool)
    ensures
        keep == is_candidate(rule_views(rules@), entry.spec_path(), entry.spec_file_type()),
{
    if entry.file_type().is_dir() {
        return false;
    }
    if entry.file_type().is_symlink() {
        return false;
    }
    let path_as_string = entry.path();
    let ghost views = rule_views(rules@);
    let mut store_entry = false;
    let mut i: usize = 0;
    while i < rules.len()
        invariant
            i <= rules@.len(),
            views == rule_views(rules@),
            path_as_string@ == entry.spec_path(),
            store_entry == some_rule_matches(views.take(i as int), entry.spec_path()),
            !whitelisted(views.take(i as int), entry.spec_path()),
        decreases rules@.len() - i,
    {
        let ghost before = views.take(i as int);
        let ghost after = views.take(i + 1);
        proof {
            assert(after.drop_last() =~= before);
            assert(after.last() == rules@[i as int]@);
            assert(forall|k: int| 0 <= k < before.len() ==> before[k] == after[k]);
        }
        // Check if the `Rule`'s path matches the current entry
        if Matcher::match_path_str(&rules[i], path_as_string) {
            // If the `Rule`'s path matches and the `Rule` is a whitelist-rule exit the loop
            // and ignore the entry
            if rules[i].severity() == Severity::WHITELIST {
                proof {
                    assert(after[i as int].path_matches(entry.spec_path()));
                    assert(views[i as int] == after[i as int]);
                    assert(whitelisted(views, entry.spec_path()));
                }
                return false;
            }
            store_entry = true;
            assert(some_rule_matches(after, entry.spec_path())) by {
                assert(after[i as int].path_matches(entry.spec_path()));
            }
        } else {
            assert(some_rule_matches(after, entry.spec_path()) == some_rule_matches(
                before,
                entry.spec_path(),
            )) by {
                if some_rule_matches(after, entry.spec_path()) {
                    let k = choose|k: int|
                        0 <= k < after.len() && (#[trigger] after[k]).path_matches(
                            entry.spec_path(),
                        );
                    assert(k < i);
                    assert(before[k].path_matches(entry.spec_path()));
                }
                if some_rule_matches(before, entry.spec_path()) {
                    let k = choose|k: int|
                        0 <= k < before.len() && (#[trigger] before[k]).path_matches(
                            entry.spec_path(),
                        );
                    assert(after[k].path_matches(entry.spec_path()));
                }
            }
        }
        assert(!whitelisted(after, entry.spec_path())) by {
            if whitelisted(after, entry.spec_path()) {
                let k = choose|k: int|
                    0 <= k < after.len() && (#[trigger] after[k]).path_matches(entry.spec_path())
                        && after[k].severity == Severity::WHITELIST;
                if k < i {
                    assert(before[k].path_matches(entry.spec_path()));
                }
            }
        }
        i += 1;
    }
    assert(views.take(rules@.len() as int) =~= views);
    store_entry
}

/// Asks `filter` about each entry and keeps the entries for which it answers `true`.
pub fn filter_entries<D, F: Fn(&D) -> bool>(entries: Vec<D>, filter: F) -> (kept: Vec<D>)
    requires
        forall|i: int| 0 <= i < entries@.len() ==> call_requires(filter, (&#[trigger] entries@[i],)),
    ensures
        filtered_by(filter, entries@, kept@),
{
    let ghost all = entries@;
    let ghost mut keep: Seq<bool> = Seq::empty();
    let mut kept: Vec<D> = Vec::new();
    for entry in it: entries
        invariant
            it.seq() == all,
            forall|i: int| 0 <= i < all.len() ==> call_requires(filter, (&#[trigger] all[i],)),
            keep.len() == it.index(),
            forall|i: int|
                0 <= i < keep.len() ==> call_ensures(filter, (&all[i],), #[trigger] keep[i]),
            kept@ == select(all.take(it.index() as int), keep),
    {
        let ghost n = it.index() as int;
        let answer = filter(&entry);
        proof {
            assert(all.take(n + 1).drop_last() =~= all.take(n));
            assert(keep.push(answer).drop_last() =~= keep);
            keep = keep.push(answer);
        }
        if answer {
            kept.push(entry);
        }
    }
    proof {
        assert(all.take(all.len() as int) =~= all);
    }
    kept
}

} // verus!
