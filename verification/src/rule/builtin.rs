//! The rules that the library brings along.

use vstd::prelude::*;
use crate::rule::pattern_rule::{compiling_rules, rule_views, Rule};
use crate::rule::raw_rule::{raw_rule_views, RawRule};
use crate::rule::regex_cache::RegexCache;
use crate::rule::rule_view::RuleView;
use crate::severity::Severity;

verus! {

/// A built-in rule on paths and content. The path specifier of a built-in rule is a regular
/// expression.
pub open spec fn content_rule(
    name: Seq<char>,
    severity: Severity,
    path: Seq<char>,
    content: Seq<char>,
) -> RuleView {
    RuleView { name, path, is_regex_path: true, content: Some(content), severity }
}

/// A built-in rule on paths only.
pub open spec fn path_rule(name: Seq<char>, severity: Severity, path: Seq<char>) -> RuleView {
    RuleView { name, path, is_regex_path: true, content: None, severity }
}

/// The built-in rules for PHP files.
pub open spec fn builtin_rules_php() -> Seq<RuleView> {
    seq![
        content_rule("php::content::error_reporting"@, Severity::NOTICE, "\\.php"@, "error_reporting\\("@),
        content_rule("php::content::preg_"@, Severity::NOTICE, "\\.php"@, "='preg_"@),
        content_rule("php::content::preg_"@, Severity::NOTICE, "\\.php"@, "=\"preg_"@),
        content_rule("php::content::eval"@, Severity::NOTICE, "\\.php"@, "\\beval\\("@),
        content_rule("php::content::gzinflate"@, Severity::NOTICE, "\\.php"@, "\\bgzinflate\\("@),
        content_rule("php::content::system"@, Severity::NOTICE, "\\.php"@, "\\bsystem\\("@),
        content_rule("php::content::exec"@, Severity::NOTICE, "\\.php"@, "\\bexec\\("@),
        content_rule("php::content::create_function"@, Severity::NOTICE, "\\.php"@, "\\bcreate_function\\("@),
        content_rule("php::content::return"@, Severity::MAJOR, "\\.php"@, "\",\"\\.\");return;?>"@),
        content_rule("php::content::base64_decode"@, Severity::MAJOR, "\\.php"@, "eval\\(base64_decode\\("@),
        content_rule("php::content::6fbcb8b698317491a5fd7926f2c3b7de"@, Severity::CRITICAL, "\\.php"@, "6fbcb8b698317491a5fd7926f2c3b7de"@),
        content_rule("php::content::4ngel"@, Severity::CRITICAL, "\\.php"@, "Codz by angel\\(4ngel\\)"@),
        content_rule("php::content::dezmond"@, Severity::CRITICAL, "\\.php"@, "dezmond"@),
        content_rule("php::content::FilesMan"@, Severity::CRITICAL, "\\.php"@, "FilesMan"@),
        content_rule("php::content::raprap1"@, Severity::CRITICAL, "\\.php"@, "raprap1"@),
        path_rule("php::file::tx_mocfilemanager"@, Severity::CRITICAL, "tx_mocfilemanager.php"@),
        path_rule("php::file::cache"@, Severity::CRITICAL, "//cache\\.dat"@),
        path_rule("php::file::cache"@, Severity::CRITICAL, "//\\.cache\\.php"@),
        path_rule("php::file::ext_fpdf"@, Severity::CRITICAL, "ext_fpdf.php"@),
        path_rule("php::file::ixwstat"@, Severity::CRITICAL, "ixwstat.php"@),
    ]
}

/// The built-in rules for TYPO3 installations.
pub open spec fn builtin_rules_typo3() -> Seq<RuleView> {
    seq![
        path_rule("typo3::file::php-in-fileadmin"@, Severity::MINOR, "fileadmin/.*\\.php"@),
        path_rule("typo3::file::php-in-l10n"@, Severity::MAJOR, "typo3conf/l10n/.*\\.php"@),
        path_rule("typo3::file::php-in-typo3temp"@, Severity::MAJOR, "typo3temp/.*\\.php"@),
        path_rule("typo3::file::php-in-typo3temp-Cache"@, Severity::WHITELIST, "typo3temp/(var/)?Cache/.*\\.php"@),
    ]
}

/// All built-in rules.
pub open spec fn builtin_rules() -> Seq<RuleView> {
    builtin_rules_php() + builtin_rules_typo3()
}

/// Adds a rule on paths and content to a list.
fn push_content_rule(
    rules: &mut Vec<RawRule>,
    name: &str,
    severity: Severity,
    path: &str,
    content: &str,
)
    ensures
        raw_rule_views(final(rules)@) == raw_rule_views(old(rules)@).push(
            content_rule(name@, severity, path@, content@),
        ),
{
    rules.push(RawRule::with_path_and_content(name, severity, path, true, content));
    assert(raw_rule_views(rules@) =~= raw_rule_views(old(rules)@).push(
        content_rule(name@, severity, path@, content@),
    ));
}

/// Adds a rule on paths to a list.
fn push_path_rule(rules: &mut Vec<RawRule>, name: &str, severity: Severity, path: &str)
    ensures
        raw_rule_views(final(rules)@) == raw_rule_views(old(rules)@).push(
            path_rule(name@, severity, path@),
        ),
{
    rules.push(RawRule::with_path(name, severity, path, true));
    assert(raw_rule_views(rules@) =~= raw_rule_views(old(rules)@).push(
        path_rule(name@, severity, path@),
    ));
}

/// The records of the built-in rules for PHP files.
pub fn get_builtin_rules_php() -> (rules: Vec<RawRule>)
    ensures
        raw_rule_views(rules@) == builtin_rules_php(),
{
    let mut rules: Vec<RawRule> = Vec::new();
    assert(raw_rule_views(rules@) =~= Seq::<RuleView>::empty());
    push_content_rule(&mut rules, "php::content::error_reporting", Severity::NOTICE, "\\.php", "error_reporting\\(");
    push_content_rule(&mut rules, "php::content::preg_", Severity::NOTICE, "\\.php", "='preg_");
    push_content_rule(&mut rules, "php::content::preg_", Severity::NOTICE, "\\.php", "=\"preg_");
    push_content_rule(&mut rules, "php::content::eval", Severity::NOTICE, "\\.php", "\\beval\\(");
    push_content_rule(&mut rules, "php::content::gzinflate", Severity::NOTICE, "\\.php", "\\bgzinflate\\(");
    push_content_rule(&mut rules, "php::content::system", Severity::NOTICE, "\\.php", "\\bsystem\\(");
    push_content_rule(&mut rules, "php::content::exec", Severity::NOTICE, "\\.php", "\\bexec\\(");
    push_content_rule(&mut rules, "php::content::create_function", Severity::NOTICE, "\\.php", "\\bcreate_function\\(");
    push_content_rule(&mut rules, "php::content::return", Severity::MAJOR, "\\.php", "\",\"\\.\");return;?>");
    push_content_rule(&mut rules, "php::content::base64_decode", Severity::MAJOR, "\\.php", "eval\\(base64_decode\\(");
    push_content_rule(&mut rules, "php::content::6fbcb8b698317491a5fd7926f2c3b7de", Severity::CRITICAL, "\\.php", "6fbcb8b698317491a5fd7926f2c3b7de");
    push_content_rule(&mut rules, "php::content::4ngel", Severity::CRITICAL, "\\.php", "Codz by angel\\(4ngel\\)");
    push_content_rule(&mut rules, "php::content::dezmond", Severity::CRITICAL, "\\.php", "dezmond");
    push_content_rule(&mut rules, "php::content::FilesMan", Severity::CRITICAL, "\\.php", "FilesMan");
    push_content_rule(&mut rules, "php::content::raprap1", Severity::CRITICAL, "\\.php", "raprap1");
    push_path_rule(&mut rules, "php::file::tx_mocfilemanager", Severity::CRITICAL, "tx_mocfilemanager.php");
    push_path_rule(&mut rules, "php::file::cache", Severity::CRITICAL, "//cache\\.dat");
    push_path_rule(&mut rules, "php::file::cache", Severity::CRITICAL, "//\\.cache\\.php");
    push_path_rule(&mut rules, "php::file::ext_fpdf", Severity::CRITICAL, "ext_fpdf.php");
    push_path_rule(&mut rules, "php::file::ixwstat", Severity::CRITICAL, "ixwstat.php");
    assert(raw_rule_views(rules@) =~= builtin_rules_php());
    rules
}

/// The records of the built-in rules for TYPO3 installations.
pub fn get_builtin_rules_typo3() -> (rules: Vec<RawRule>)
    ensures
        raw_rule_views(rules@) == builtin_rules_typo3(),
{
    let mut rules: Vec<RawRule> = Vec::new();
    assert(raw_rule_views(rules@) =~= Seq::<RuleView>::empty());
    push_path_rule(&mut rules, "typo3::file::php-in-fileadmin", Severity::MINOR, "fileadmin/.*\\.php");
    push_path_rule(&mut rules, "typo3::file::php-in-l10n", Severity::MAJOR, "typo3conf/l10n/.*\\.php");
    push_path_rule(&mut rules, "typo3::file::php-in-typo3temp", Severity::MAJOR, "typo3temp/.*\\.php");
    push_path_rule(&mut rules, "typo3::file::php-in-typo3temp-Cache", Severity::WHITELIST, "typo3temp/(var/)?Cache/.*\\.php");
    assert(raw_rule_views(rules@) =~= builtin_rules_typo3());
    rules
}

/// The built-in rules, compiled. A rule whose pattern the expression engine refuses is
/// left out.
pub fn get_builtin_rules() -> (rules: Vec<Rule>)
    ensures
        rule_views(rules@) == compiling_rules(builtin_rules()),
{
    let mut cache = RegexCache::new();
    get_builtin_rules_with_cache(&mut cache)
}

/// The built-in rules, compiled with the help of a cache. A rule whose pattern the
/// expression engine refuses is left out.
pub fn get_builtin_rules_with_cache(cache: &mut RegexCache) -> (rules: Vec<Rule>)
    ensures
        rule_views(rules@) == compiling_rules(builtin_rules()),
        final(cache).patterns() == Rule::cache_after_all(old(cache).patterns(), builtin_rules()),
{
    let mut collection = get_builtin_rules_php();
    let mut typo3 = get_builtin_rules_typo3();
    let ghost php = collection@;
    let ghost more = typo3@;
    collection.append(&mut typo3);
    assert(raw_rule_views(collection@) =~= raw_rule_views(php) + raw_rule_views(more));
    Rule::from_rules_filtered_with_cache(cache, &collection)
}

} // verus!
