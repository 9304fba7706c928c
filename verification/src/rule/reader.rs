//! Reading rules from a configuration file.
//!
//! The library decides from the name of a file whether and how it can be read, and puts
//! failures into words. Opening the file and turning its text into rule records is left to
//! the caller.

use vstd::prelude::*;
use vstd::string::StringExecFns;
use crate::errors::{result_is, ErrorKind, ErrorKindView, ScanError};
use crate::rule::pattern_rule::{compiling_rules, rule_views, Rule};
use crate::rule::regex_cache::RegexCache;
use crate::rule::raw_rule::{raw_rule_views, RawRule};
use crate::rule::rule_view::RuleView;
use crate::text::str_eq;

verus! {

/// The extension that `std::path::Path::extension` finds in a path.
pub uninterp spec fn path_extension(path: Seq<char>) -> Option<Seq<char>>;

/// `std::path::Path::extension` gives the part of the file name after its last dot, if the
/// path has a file name with a dot that is not its first character. The answer depends on
/// the path alone; the contract only names it.
#[verifier::external_body]
fn extension_of(path: &str) -> (extension: Option<String>)
    ensures
        extension matches Some(e) ==> path_extension(path@) == Some(e@),
        extension is None ==> path_extension(path@) is None,
{
    match std::path::Path::new(path).extension() {
        Some(e) => Some(e.to_string_lossy().into_owned()),
        None => None,
    }
}

/// The formats of configuration files that rules can be read from.
#[derive(Debug, Copy, Clone, PartialEq, Eq, Structural)]
pub enum RuleFileFormat {
    Json,
    Yaml,
}

/// What the caller got when it opened and read a configuration file.
#[derive(Debug)]
pub enum RuleFileContent {
    /// The file could not be opened; the text says why.
    Unreadable(String),
    /// The text of the file is not a list of rule records; the text says why.
    Malformed(String),
    /// The rule records of the file.
    Rules(Vec<RawRule>),
}

/// The text of the error for a file whose type can not be told.
pub open spec fn file_type_error_text(path: Seq<char>) -> Seq<char> {
    "Could not detect the file type of '"@ + path + "'"@
}

/// The text of the error for a file type that can not be read.
pub open spec fn no_deserializer_text(extension: Seq<char>) -> Seq<char> {
    "No deserializer for the file type '"@ + extension + "'"@
}

/// The text of the error for a file that is not a list of rule records.
pub open spec fn deserialize_error_text(path: Seq<char>, cause: Seq<char>) -> Seq<char> {
    "Could not deserialize the file '"@ + path + "': "@ + cause
}

/// The text of the error for a file that could not be opened.
pub open spec fn open_error_text(path: Seq<char>, cause: Seq<char>) -> Seq<char> {
    "Could not open file '"@ + path + "' for reading: "@ + cause
}

/// The format that an extension stands for, or the error that says why there is none.
pub open spec fn format_for(path: Seq<char>, extension: Option<Seq<char>>) -> Result<
    RuleFileFormat,
    ErrorKindView,
> {
    match extension {
        None => Err(ErrorKindView::ReaderError(file_type_error_text(path))),
        Some(e) => if e == "json"@ {
            Ok(RuleFileFormat::Json)
        } else if e == "yaml"@ {
            Ok(RuleFileFormat::Yaml)
        } else {
            Err(ErrorKindView::Msg(no_deserializer_text(e)))
        },
    }
}

/// The characters of an optional text.
pub open spec fn str_option_view(text: Option<&str>) -> Option<Seq<char>> {
    match text {
        Some(t) => Some(t@),
        None => None,
    }
}

/// What reading the rules of a file comes to: the error that the name of the file calls for,
/// else the error that opening or reading it called for, else its rule records.
pub open spec fn rules_of_file(
    path: Seq<char>,
    extension: Option<Seq<char>>,
    content: RuleFileContent,
) -> Result<Vec<RawRule>, ErrorKindView> {
    match format_for(path, extension) {
        Err(kind) => Err(kind),
        Ok(_) => match content {
            RuleFileContent::Unreadable(cause) => Err(
                ErrorKindView::ReaderError(open_error_text(path, cause@)),
            ),
            RuleFileContent::Malformed(cause) => Err(
                ErrorKindView::ReaderError(deserialize_error_text(path, cause@)),
            ),
            RuleFileContent::Rules(records) => Ok(records),
        },
    }
}

/// Whether `compiled` is what compiling the rule records of a file comes to: the error of
/// the file's name or of reading the file, else the rules that compile, in the order of the
/// file, followed by `more`. A record that does not compile is dropped and fails nothing.
pub open spec fn compiled_rules_of_file(
    records: Result<Vec<RawRule>, ErrorKindView>,
    more: Seq<RuleView>,
    compiled: Result<Vec<Rule>, ScanError>,
) -> bool {
    match records {
        Err(kind) => compiled matches Err(e) && e@ == kind,
        Ok(raw) => compiled matches Ok(rules) && rule_views(rules@) == compiling_rules(
            raw_rule_views(raw@),
        ) + more,
    }
}

/// The patterns of a cache after the rule records of a file were compiled with it: nothing
/// changes where the file gives no records.
pub open spec fn cache_after_file(
    patterns: Set<Seq<char>>,
    records: Result<Vec<RawRule>, ErrorKindView>,
) -> Set<Seq<char>> {
    match records {
        Err(_) => patterns,
        Ok(raw) => Rule::cache_after_all(patterns, raw_rule_views(raw@)),
    }
}

/// The error for a file whose type can not be told.
pub fn build_file_type_error(path: &str) -> (error: ScanError)
    ensures
        error@ == ErrorKindView::ReaderError(
            file_type_error_text(path@),
        ),
{
    let mut text = "Could not detect the file type of '".to_owned();
    text.append(path);
    text.append("'");
    ScanError::from_kind(ErrorKind::ReaderError(text))
}

/// The error for a file that is not a list of rule records.
pub fn build_deserialize_error(path: &str, error: &str) -> (built: ScanError)
    ensures
        built@ == ErrorKindView::ReaderError(
            deserialize_error_text(path@, error@),
        ),
{
    let mut text = "Could not deserialize the file '".to_owned();
    text.append(path);
    text.append("': ");
    text.append(error);
    ScanError::from_kind(ErrorKind::ReaderError(text))
}

/// The error for a file that could not be opened.
pub fn build_open_error(path: &str, error: &str) -> (built: ScanError)
    ensures
        built@ == ErrorKindView::ReaderError(
            open_error_text(path@, error@),
        ),
{
    let mut text = "Could not open file '".to_owned();
    text.append(path);
    text.append("' for reading: ");
    text.append(error);
    ScanError::from_kind(ErrorKind::ReaderError(text))
}

/// Reads rules from configuration files.
pub struct Reader {}

impl Reader {
    /// The rules of a configuration file, compiled.
    ///
    /// `content` is what the caller got when it opened and read the file. A record that does
    /// not compile is dropped; the other records of the file are not touched by that.
    pub fn read_rules_from_file(path: &str, content: RuleFileContent) -> (rules: Result<
        Vec<Rule>,
        ScanError,
    >)
        ensures
            compiled_rules_of_file(
                rules_of_file(path@, path_extension(path@), content),
                Seq::empty(),
                rules,
            ),
    {
        let mut cache = RegexCache::new();
        Reader::read_rules_from_file_with_cache(&mut cache, path, content)
    }

    /// The rules of a configuration file, compiled with the help of a cache.
    ///
    /// `content` is what the caller got when it opened and read the file. A record that does
    /// not compile is dropped; the other records of the file are not touched by that.
    pub fn read_rules_from_file_with_cache(
        cache: &mut RegexCache,
        path: &str,
        content: RuleFileContent,
    ) -> (rules: Result<Vec<Rule>, ScanError>)
        ensures
            compiled_rules_of_file(
                rules_of_file(path@, path_extension(path@), content),
                Seq::empty(),
                rules,
            ),
            final(cache).patterns() == cache_after_file(
                old(cache).patterns(),
                rules_of_file(path@, path_extension(path@), content),
            ),
    {
        match Reader::read_raw_rules_from_file(path, content) {
            Ok(raw_rules) => {
                let compiled = Rule::from_rules_filtered_with_cache(cache, &raw_rules);
                proof {
                    let kept = rule_views(compiled@);
                    assert(kept + Seq::<RuleView>::empty() =~= kept);
                }
                Ok(compiled)
            },
            Err(e) => Err(e),
        }
    }

    /// The format that an extension stands for.
    pub fn format_for_extension(path: &str, extension: Option<&str>) -> (format: Result<
        RuleFileFormat,
        ScanError,
    >)
        ensures
            result_is(format, format_for(path@, str_option_view(extension))),
    {
        match extension {
            None => Err(build_file_type_error(path)),
            Some(t) => {
                if str_eq(t, "json") {
                    Ok(RuleFileFormat::Json)
                } else if str_eq(t, "yaml") {
                    Ok(RuleFileFormat::Yaml)
                } else {
                    let mut text = "No deserializer for the file type '".to_owned();
                    text.append(t);
                    text.append("'");
                    Err(ScanError::with_message(text))
                }
            },
        }
    }

    /// The format of a configuration file, told from the extension of its name.
    pub fn file_format(path: &str) -> (format: Result<RuleFileFormat, ScanError>)
        ensures
            result_is(format, format_for(path@, path_extension(path@))),
    {
        let extension = extension_of(path);
        match &extension {
            Some(e) => Reader::format_for_extension(path, Some(e.as_str())),
            None => Reader::format_for_extension(path, None),
        }
    }

    /// The rule records of a configuration file.
    ///
    /// `content` is what the caller got when it opened and read the file; it is looked at
    /// only if the name of the file has an extension that stands for a format.
    pub fn read_raw_rules_from_file(path: &str, content: RuleFileContent) -> (rules: Result<
        Vec<RawRule>,
        ScanError,
    >)
        ensures
            result_is(rules, rules_of_file(path@, path_extension(path@), content)),
    {
        match Reader::file_format(path) {
            Err(e) => Err(e),
            Ok(_) => match content {
                RuleFileContent::Unreadable(cause) => Err(build_open_error(path, cause.as_str())),
                RuleFileContent::Malformed(cause) => Err(
                    build_deserialize_error(path, cause.as_str()),
                ),
                RuleFileContent::Rules(records) => Ok(records),
            },
        }
    }
}

} // verus!
