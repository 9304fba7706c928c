//! Rules: what a file is checked against.
//!
//! A rule has a name, a path specifier, an optional content pattern and a severity. A file
//! violates a rule without a content pattern if its path satisfies the path specifier, and a
//! rule with a content pattern if, in addition, its content matches that pattern.

pub mod builtin;
pub mod inline_rule;
pub mod pattern_rule;
pub mod raw_path;
pub mod raw_rule;
pub mod reader;
pub mod regex_cache;
pub mod rule_path;
pub mod rule_trait;
pub mod rule_view;

use vstd::prelude::*;
use crate::errors::ScanError;
use crate::rule::builtin::{builtin_rules, get_builtin_rules_with_cache};
use crate::rule::pattern_rule::{compiling_rules, rule_views};
use crate::rule::reader::{
    cache_after_file,
    compiled_rules_of_file,
    path_extension,
    rules_of_file,
    Reader,
    RuleFileContent,
};

pub use self::builtin::get_builtin_rules;
pub use self::inline_rule::InlineRule;
pub use self::pattern_rule::{PatternRule, Rule};
pub use self::raw_path::RawPath;
pub use self::raw_rule::RawRule;
pub use self::regex_cache::RegexCache;
pub use self::rule_path::RulePath;
pub use self::rule_trait::RuleTrait;
pub use self::rule_view::RuleView;

verus! {

/// Read the rules of the given configuration file and merge them with the built-in rules:
/// the rules of the file come first.
///
/// `content` is what the caller got when it opened and read the file. A rule whose pattern
/// the expression engine refuses is dropped, be it of the file or built in; only the name of
/// the file and the reading of it can fail. All rules are compiled with one cache, so that
/// a pattern that a rule of the file shares with a built-in rule is compiled once.
pub fn get_merged_rules(path: &str, content: RuleFileContent) -> (merged: Result<
    Vec<Rule>,
    ScanError,
>)
    ensures
        compiled_rules_of_file(
            rules_of_file(path@, path_extension(path@), content),
            compiling_rules(builtin_rules()),
            merged,
        ),
{
    let mut cache = RegexCache::new();
    get_merged_rules_with_cache(&mut cache, path, content)
}

/// Read the rules of the given configuration file and merge them with the built-in rules,
/// all compiled with the help of the given cache: first the rules of the file, then the
/// built-in rules.
pub fn get_merged_rules_with_cache(
    cache: &mut RegexCache,
    path: &str,
    content: RuleFileContent,
) -> (merged: Result<Vec<Rule>, ScanError>)
    ensures
        compiled_rules_of_file(
            rules_of_file(path@, path_extension(path@), content),
            compiling_rules(builtin_rules()),
            merged,
        ),
        merged is Ok ==> final(cache).patterns() == Rule::cache_after_all(
            cache_after_file(
                old(cache).patterns(),
                rules_of_file(path@, path_extension(path@), content),
            ),
            builtin_rules(),
        ),
        merged is Err ==> final(cache).patterns() == old(cache).patterns(),
{
    match Reader::read_rules_from_file_with_cache(cache, path, content) {
        Ok(mut collection) => {
            let ghost custom = collection@;
            let mut builtin = get_builtin_rules_with_cache(cache);
            let ghost more = builtin@;
            collection.append(&mut builtin);
            proof {
                assert(rule_views(collection@) =~= rule_views(custom) + rule_views(more));
                assert(rule_views(custom) + Seq::<RuleView>::empty() =~= rule_views(custom));
            }
            Ok(collection)
        },
        Err(e) => Err(e),
    }
}

} // verus!
