//! Classification: which rules a file violates.
//!
//! Each rule is first held against the path of an entry. Only where the path satisfies a
//! rule that has a content pattern is the content of the file looked at.

pub mod classification;
pub mod content_classifier;
pub mod path_classifier;
pub mod violation;

use vstd::prelude::*;
use crate::dir_entry::DirEntryTrait;
use crate::matcher::Matcher;
use crate::rule::pattern_rule::rule_views;
use crate::rule::{Rule, RuleView};
use crate::severity::Severity;

pub use self::classification::{Classification, ClassificationView};
pub use self::content_classifier::error::{
    ContentClassificationError,
    ContentClassificationErrorKind,
    ContentClassificationErrorView,
    IoErrorKind,
};
pub use self::content_classifier::{
    classify_content,
    content_view,
    leading_bytes,
    readable_text,
    ContentClassifier,
    ContentView,
    BUFFER_SIZE,
};
pub use self::path_classifier::{classify_path, PathClassifier};
pub use self::violation::{violation_views, Violation, ViolationView};

verus! {

/// The outcome of holding a file with the given path and content against one rule.
///
/// A rule whose path specifier the path does not satisfy does not fire, whatever the
/// content. A rule without a content pattern fires on the path alone. For a rule with a
/// content pattern the content decides.
pub open spec fn classify_rule(rule: RuleView, path: Seq<char>, content: ContentView) -> ClassificationView {
    if !rule.path_matches(path) {
        ClassificationView::NoMatch
    } else if rule.has_content() {
        classify_content(rule, content)
    } else {
        ClassificationView::of_match(rule, true)
    }
}

/// The violations of a file with the given path and content: what each rule contributes, in
/// the order of the rules.
pub open spec fn classify(rules: Seq<RuleView>, path: Seq<char>, content: ContentView) -> Seq<
    ViolationView,
> {
    rules.filter_map(|rule: RuleView| classify_rule(rule, path, content).violation())
}

/// Whether the content of a file with the given path has to be looked at: some rule with a
/// content pattern is satisfied by the path.
pub open spec fn content_needed(rules: Seq<RuleView>, path: Seq<char>) -> bool {
    exists|i: int| 0 <= i < rules.len() && #[trigger] rules[i].has_content() && rules[i].path_matches(path)
}

/// The violations of each file of a list.
pub open spec fn classify_all(
    rules: Seq<RuleView>,
    paths: Seq<Seq<char>>,
    contents: Seq<ContentView>,
) -> Seq<Seq<ViolationView>>
    recommends
        paths.len() == contents.len(),
{
    Seq::new(paths.len(), |i: int| classify(rules, paths[i], contents[i]))
}

/// The paths of a list of entries.
pub open spec fn entry_paths<D: DirEntryTrait>(entries: Seq<D>) -> Seq<Seq<char>> {
    entries.map_values(|entry: D| entry.spec_path())
}

/// What a list of attempts to read files says about their content.
pub open spec fn content_views(reads: Seq<Result<Vec<u8>, ContentClassificationError>>) -> Seq<
    ContentView,
> {
    reads.map_values(|read: Result<Vec<u8>, ContentClassificationError>| content_view(read))
}

/// What a list of lists of violations says.
pub open spec fn violation_lists(lists: Seq<Vec<Violation>>) -> Seq<Seq<ViolationView>> {
    lists.map_values(|list: Vec<Violation>| violation_views(list@))
}

/// Adding a rule at the end adds what that rule contributes at the end.
pub proof fn lemma_classify_push(
    rules: Seq<RuleView>,
    rule: RuleView,
    path: Seq<char>,
    content: ContentView,
)
    ensures
        classify(rules.push(rule), path, content) == (match classify_rule(
            rule,
            path,
            content,
        ).violation() {
            Some(violation) => classify(rules, path, content).push(violation),
            None => classify(rules, path, content),
        }),
{
    reveal(Seq::filter_map);
    assert(rules.push(rule).drop_last() =~= rules);
    let rest = classify(rules, path, content);
    match classify_rule(rule, path, content).violation() {
        Some(violation) => {
            assert(rest + seq![violation] =~= rest.push(violation));
        },
        None => {},
    }
}

/// Without a rule that asks for it, the content of a file plays no part in its violations.
pub proof fn lemma_content_unneeded(
    rules: Seq<RuleView>,
    path: Seq<char>,
    first: ContentView,
    second: ContentView,
)
    requires
        !content_needed(rules, path),
    ensures
        classify(rules, path, first) == classify(rules, path, second),
    decreases rules.len(),
{
    reveal(Seq::filter_map);
    if rules.len() > 0 {
        let rest = rules.drop_last();
        assert(!content_needed(rest, path)) by {
            if content_needed(rest, path) {
                let i = choose|i: int|
                    0 <= i < rest.len() && #[trigger] rest[i].has_content() && rest[i].path_matches(
                        path,
                    );
                assert(rules[i].has_content() && rules[i].path_matches(path));
            }
        }
        lemma_content_unneeded(rest, path, first, second);
        assert(!(rules[rules.len() - 1].has_content() && rules[rules.len() - 1].path_matches(path)));
    }
}

/// A file is classified by its leading bytes alone: two files that agree in their first
/// `BUFFER_SIZE` bytes have the same violations, whatever follows those bytes.
pub proof fn lemma_bounded_content_read(
    rules: Seq<RuleView>,
    path: Seq<char>,
    first: Seq<u8>,
    second: Seq<u8>,
)
    requires
        first.len() >= BUFFER_SIZE,
        second.len() >= BUFFER_SIZE,
        first.take(BUFFER_SIZE as int) == second.take(BUFFER_SIZE as int),
    ensures
        readable_text(first) == readable_text(second),
        classify(rules, path, ContentView::Text(readable_text(first))) == classify(
            rules,
            path,
            ContentView::Text(readable_text(second)),
        ),
{
    assert(first.take(BUFFER_SIZE as int).len() == BUFFER_SIZE);
    if first.len() == BUFFER_SIZE {
        assert(first.take(BUFFER_SIZE as int) =~= first);
    }
    if second.len() == BUFFER_SIZE {
        assert(second.take(BUFFER_SIZE as int) =~= second);
    }
}

/// A file that does not exist violates no rule that asks for its content: the failed read
/// is neither a match nor an error.
pub proof fn lemma_missing_file_is_no_violation(
    rule: RuleView,
    path: Seq<char>,
    error: ContentClassificationErrorView,
)
    requires
        rule.has_content(),
        error.kind == ContentClassificationErrorKind::NotExists,
    ensures
        classify_rule(rule, path, ContentView::Failed(error)) == ClassificationView::NoMatch,
        classify_rule(rule, path, ContentView::Failed(error)).violation() is None,
{
}

/// A failed read of a file that exists is reported as a notice in the place of each rule
/// that asked for the content, and the rules that follow are classified all the same.
pub proof fn lemma_failed_read_is_a_notice(
    rule: RuleView,
    path: Seq<char>,
    error: ContentClassificationErrorView,
)
    requires
        rule.has_content(),
        rule.path_matches(path),
        error.kind != ContentClassificationErrorKind::NotExists,
    ensures
        classify_rule(rule, path, ContentView::Failed(error)) == ClassificationView::Error(
            ViolationView { name: error.description(), severity: Severity::NOTICE },
        ),
{
}

/// Classifying the same entries with the same content under rules that say the same gives
/// the same violations, however often it is done.
pub proof fn lemma_classify_entries_repeatable(
    rules: Seq<Rule>,
    again: Seq<Rule>,
    paths: Seq<Seq<char>>,
    contents: Seq<ContentView>,
    first: Seq<Seq<ViolationView>>,
    second: Seq<Seq<ViolationView>>,
)
    requires
        rule_views(rules) == rule_views(again),
        first == classify_all(rule_views(rules), paths, contents),
        second == classify_all(rule_views(again), paths, contents),
    ensures
        first == second,
{
}

/// Whether the content of the entry has to be read before it is classified.
pub fn needs_content<D: DirEntryTrait>(entry: &D, rules: &[Rule]) -> (needed: bool)
    ensures
        needed == content_needed(rule_views(rules@), entry.spec_path()),
{
    let mut i: usize = 0;
    while i < rules.len()
        invariant
            i <= rules@.len(),
            forall|k: int|
                0 <= k < i ==> !((#[trigger] rule_views(rules@)[k]).has_content() && rule_views(
                    rules@,
                )[k].path_matches(entry.spec_path())),
        decreases rules@.len() - i,
    {
        if rules[i].has_content() && Matcher::match_entry_path(&rules[i], entry) {
            assert(rule_views(rules@)[i as int].has_content());
            return true;
        }
        i += 1;
    }
    false
}

/// Holds one entry against one rule.
pub fn classify_entry_with_rule<D: DirEntryTrait>(
    path_classifier: &mut PathClassifier,
    content_classifier: &mut ContentClassifier,
    entry: &D,
    rule: &Rule,
) -> (outcome: Classification)
    requires
        entry.spec_path() == old(content_classifier).spec_path(),
    ensures
        outcome@ == classify_rule(
            rule@,
            entry.spec_path(),
            content_view(old(content_classifier).spec_source()),
        ),
        final(content_classifier).spec_path() == old(content_classifier).spec_path(),
        final(content_classifier).spec_source() == old(content_classifier).spec_source(),
{
    if rule.has_content() {
        let path_classification = path_classifier.classify(entry, rule);
        match path_classification {
            Classification::NoMatch => {
                /* Path does not match. No need to check the content */
                Classification::NoMatch
            },
            Classification::Match(_) => {
                /* Path does match. Now check the content */
                content_classifier.classify(entry, rule)
            },
            _ => unreached(),
        }
    } else {
        path_classifier.classify(entry, rule)
    }
}

/// The violations of one entry.
///
/// `content` is what reading the entry's file gave. It is looked at only if
/// [`needs_content`] holds of the entry; otherwise anything may be handed over.
pub fn classify_entry<D: DirEntryTrait>(
    entry: &D,
    rules: &[Rule],
    content: &Result<Vec<u8>, ContentClassificationError>,
) -> (violations: Vec<Violation>)
    ensures
        violation_views(violations@) == classify(
            rule_views(rules@),
            entry.spec_path(),
            content_view(*content),
        ),
{
    let mut path_classifier = PathClassifier::new(entry);
    let mut content_classifier = ContentClassifier::new(entry, content);
    let mut violations: Vec<Violation> = Vec::new();
    let mut i: usize = 0;
    proof {
        reveal(Seq::filter_map);
        assert(rule_views(rules@).take(0) =~= Seq::<RuleView>::empty());
        assert(violation_views(violations@) =~= Seq::<ViolationView>::empty());
    }
    while i < rules.len()
        invariant
            i <= rules@.len(),
            content_classifier.spec_path() == entry.spec_path(),
            content_classifier.spec_source() == *content,
            violation_views(violations@) == classify(
                rule_views(rules@).take(i as int),
                entry.spec_path(),
                content_view(*content),
            ),
        decreases rules@.len() - i,
    {
        let ghost before = rule_views(rules@).take(i as int);
        let ghost found = violation_views(violations@);
        proof {
            let all = rule_views(rules@);
            assert(all.take(i + 1) =~= before.push(all[i as int]));
            lemma_classify_push(before, all[i as int], entry.spec_path(), content_view(*content));
        }
        let outcome = classify_entry_with_rule(
            &mut path_classifier,
            &mut content_classifier,
            entry,
            &rules[i],
        );
        match outcome.into_violation() {
            Some(violation) => {
                violations.push(violation);
                assert(violation_views(violations@) =~= found.push(violation@));
            },
            None => {},
        }
        i += 1;
    }
    assert(rule_views(rules@).take(rules@.len() as int) =~= rule_views(rules@));
    violations
}

/// The violations of each entry of a list, in the order of the entries.
///
/// `contents[i]` is what reading the file of `entries[i]` gave.
pub fn classify_entries<D: DirEntryTrait>(
    entries: &[D],
    rules: &[Rule],
    contents: &[Result<Vec<u8>, ContentClassificationError>],
) -> (result: Vec<Vec<Violation>>)
    requires
        entries@.len() == contents@.len(),
    ensures
        violation_lists(result@) == classify_all(
            rule_views(rules@),
            entry_paths(entries@),
            content_views(contents@),
        ),
{
    let mut result: Vec<Vec<Violation>> = Vec::with_capacity(entries.len());
    let mut i: usize = 0;
    while i < entries.len()
        invariant
            i <= entries@.len(),
            entries@.len() == contents@.len(),
            result@.len() == i,
            forall|k: int|
                0 <= k < i ==> violation_views((#[trigger] result@[k])@) == classify(
                    rule_views(rules@),
                    entries@[k].spec_path(),
                    content_view(contents@[k]),
                ),
        decreases entries@.len() - i,
    {
        let violations = classify_entry(&entries[i], rules, &contents[i]);
        result.push(violations);
        i += 1;
    }
    assert(violation_lists(result@) =~= classify_all(
        rule_views(rules@),
        entry_paths(entries@),
        content_views(contents@),
    ));
    result
}

} // verus!
