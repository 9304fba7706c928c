//! What a report shows: which lines there are and what they say.
//!
//! Printing, colors and the formatting of numbers are left to the caller.

use vstd::prelude::*;
use vstd::string::{StrSliceExecFns, StringExecFns};
use crate::dir_entry::DirEntryTrait;
use crate::join::{join_names, join_violations, violation_names};
use crate::rating::summary::{Summary, SummaryView};
use crate::rating::{Rating, RatingView};
use crate::severity::Severity;
use crate::text::uppercase;

verus! {

/// The width to which the description of a severity is filled up.
pub const DESCRIPTION_WIDTH: usize = 10;

/// A text filled up with blanks at its end to the given number of characters. A text that
/// is as long or longer stays as it is.
pub open spec fn padded(text: Seq<char>, width: nat) -> Seq<char> {
    if text.len() >= width {
        text
    } else {
        text + Seq::new((width - text.len()) as nat, |i: int| ' ')
    }
}

/// The description of a severity as a report shows it: in brackets, or followed by a colon.
pub open spec fn severity_label(severity: Severity, brackets: bool) -> Seq<char> {
    if brackets {
        padded("["@ + severity.spec_description() + "]"@, DESCRIPTION_WIDTH as nat)
    } else {
        padded(severity.spec_description() + ":"@, DESCRIPTION_WIDTH as nat)
    }
}

/// The description of a severity as a report shows it, filled up to ten characters.
pub fn description_for_severity(severity: Severity, brackets: bool) -> (label: String)
    ensures
        label@ == severity_label(severity, brackets),
{
    let mut label = if brackets {
        let mut text = "[".to_owned();
        text.append(severity.description());
        text.append("]");
        text
    } else {
        let mut text = severity.description().to_owned();
        text.append(":");
        text
    };
    let ghost text = label@;
    let length = label.as_str().unicode_len();
    let mut filled: usize = length;
    while filled < DESCRIPTION_WIDTH
        invariant
            length == text.len(),
            length <= filled,
            length < DESCRIPTION_WIDTH ==> filled <= DESCRIPTION_WIDTH,
            length >= DESCRIPTION_WIDTH ==> filled == length,
            label@ == text + Seq::new((filled - length) as nat, |i: int| ' '),
        decreases DESCRIPTION_WIDTH - filled,
    {
        proof {
            reveal_strlit(" ");
        }
        label.append(" ");
        assert(label@ =~= text + Seq::new((filled + 1 - length) as nat, |i: int| ' '));
        filled += 1;
    }
    assert(label@ =~= padded(text, DESCRIPTION_WIDTH as nat));
    label
}

/// The color in which a severity is shown.
#[derive(Debug, Copy, Clone, PartialEq, Eq, Structural)]
pub enum ReportColor {
    /// A color given by its red, green and blue parts.
    Rgb(u8, u8, u8),
    /// The blue of the terminal.
    Blue,
}

/// The color in which a severity is shown: from red for `CRITICAL` to yellow for `NOTICE`,
/// and blue for everything below.
pub open spec fn color_for(severity: Severity) -> ReportColor {
    match severity {
        Severity::CRITICAL => ReportColor::Rgb(225, 17, 0),
        Severity::MAJOR => ReportColor::Rgb(237, 131, 0),
        Severity::MINOR => ReportColor::Rgb(245, 207, 0),
        Severity::NOTICE => ReportColor::Rgb(255, 255, 0),
        _ => ReportColor::Blue,
    }
}

/// The color in which a severity is shown.
pub fn color_for_severity(severity: Severity) -> (color: ReportColor)
    ensures
        color == color_for(severity),
{
    match severity {
        Severity::CRITICAL => ReportColor::Rgb(225, 17, 0),
        Severity::MAJOR => ReportColor::Rgb(237, 131, 0),
        Severity::MINOR => ReportColor::Rgb(245, 207, 0),
        Severity::NOTICE => ReportColor::Rgb(255, 255, 0),
        _ => ReportColor::Blue,
    }
}

/// The rows of a summary: each bucket that is not empty with its count, from the highest
/// bucket to the clean one.
pub open spec fn summary_rows_of(summary: SummaryView) -> Seq<(Severity, isize)> {
    let critical = if summary.critical > 0 {
        seq![(Severity::CRITICAL, summary.critical as isize)]
    } else {
        seq![]
    };
    let major = if summary.major > 0 {
        seq![(Severity::MAJOR, summary.major as isize)]
    } else {
        seq![]
    };
    let minor = if summary.minor > 0 {
        seq![(Severity::MINOR, summary.minor as isize)]
    } else {
        seq![]
    };
    let notice = if summary.notice > 0 {
        seq![(Severity::NOTICE, summary.notice as isize)]
    } else {
        seq![]
    };
    let clean = if summary.clean > 0 {
        seq![(Severity::NONE, summary.clean as isize)]
    } else {
        seq![]
    };
    critical + major + minor + notice + clean
}

/// The rows of a summary: each bucket that is not empty with its count.
pub fn summary_rows(summary: &Summary) -> (rows: Vec<(Severity, isize)>)
    ensures
        rows@ == summary_rows_of(summary@),
{
    let mut rows: Vec<(Severity, isize)> = Vec::new();
    if summary.critical() > 0 {
        rows.push((Severity::CRITICAL, summary.critical()));
    }
    if summary.major() > 0 {
        rows.push((Severity::MAJOR, summary.major()));
    }
    if summary.minor() > 0 {
        rows.push((Severity::MINOR, summary.minor()));
    }
    if summary.notice() > 0 {
        rows.push((Severity::NOTICE, summary.notice()));
    }
    if summary.clean() > 0 {
        rows.push((Severity::NONE, summary.clean()));
    }
    assert(rows@ =~= summary_rows_of(summary@));
    rows
}

/// Whether a rating is listed in a report with the given minimum severity.
pub fn rating_is_shown<'a, D: DirEntryTrait>(min_severity: Severity, rating: &Rating<'a, D>) -> (shown:
    bool)
    ensures
        shown == (rating@.rating >= min_severity.spec_value()),
{
    rating.rating() >= min_severity.value()
}

/// Whether a report is printed at all: always, unless the caller asked for quiet and no
/// rating reaches the minimum severity.
pub fn report_is_shown(quiet: bool, summary: &Summary, min_severity: Severity) -> (shown: bool)
    ensures
        shown == (!quiet || 0 < summary@.ratings_above(min_severity)),
{
    !quiet || 0 < summary.ratings_above(min_severity)
}

/// The line of a report for one rating.
pub open spec fn rating_line_of(rating: RatingView) -> Seq<char> {
    severity_label(Severity::spec_from_rating(rating.rating), true) + " "@ + rating.path
        + " \t(Rules: "@ + join_names(violation_names(rating.violations)) + ")"@
}

/// The line of a report for one rating: the severity that the rating is shown as, the path
/// and the names of the violations.
pub fn rating_line<'a, D: DirEntryTrait>(rating: &Rating<'a, D>) -> (line: String)
    ensures
        line@ == rating_line_of(rating@),
{
    let mut line = description_for_severity(Severity::from_rating(rating.rating()), true);
    line.append(" ");
    line.append(rating.entry().path());
    line.append(" \t(Rules: ");
    line.append(join_violations(rating.violations().as_slice()).as_str());
    line.append(")");
    line
}

/// The line that says what came of checking a single path.
pub open spec fn validation_line_of(rating: RatingView) -> Seq<char> {
    if rating.rating <= 0 {
        "[OK] No violations found for path "@ + rating.path
    } else {
        severity_label(Severity::spec_from_rating(rating.rating), true) + " "@
            + Severity::spec_from_rating(rating.rating).spec_description()
            + " violations found for path "@ + rating.path + " \t(Rules: "@ + join_names(
            violation_names(rating.violations),
        ) + ")"@
    }
}

/// The line that says what came of checking a single path: that nothing was found if the
/// rating is not above zero, else the severity, the path and the names of the violations.
pub fn validation_line<'a, D: DirEntryTrait>(rating: &Rating<'a, D>) -> (line: String)
    ensures
        line@ == validation_line_of(rating@),
{
    let rating_value = rating.rating();
    if rating_value <= 0 {
        let mut line = "[OK] No violations found for path ".to_owned();
        line.append(rating.entry().path());
        line
    } else {
        let severity = Severity::from_rating(rating_value);
        let mut line = description_for_severity(severity, true);
        line.append(" ");
        line.append(severity.description());
        line.append(" violations found for path ");
        line.append(rating.entry().path());
        line.append(" \t(Rules: ");
        line.append(join_violations(rating.violations().as_slice()).as_str());
        line.append(")");
        line
    }
}

/// The minimum severity that an uppercase name asks for: one of the four positive points
/// of the scale by its name, `WHITELIST`, which shows everything, for any other name.
pub open spec fn minimum_severity_for(name: Seq<char>) -> Severity {
    if name == "CRITICAL"@ {
        Severity::CRITICAL
    } else if name == "MAJOR"@ {
        Severity::MAJOR
    } else if name == "MINOR"@ {
        Severity::MINOR
    } else if name == "NOTICE"@ {
        Severity::NOTICE
    } else {
        Severity::WHITELIST
    }
}

/// The minimum severity that an uppercase name asks for.
pub fn minimum_severity_from_uppercase(name: &str) -> (severity: Severity)
    ensures
        severity == minimum_severity_for(name@),
{
    match Severity::from_uppercase(name) {
        Some(Severity::CRITICAL) => Severity::CRITICAL,
        Some(Severity::MAJOR) => Severity::MAJOR,
        Some(Severity::MINOR) => Severity::MINOR,
        Some(Severity::NOTICE) => Severity::NOTICE,
        _ => Severity::WHITELIST,
    }
}

/// The minimum severity of a report: `NOTICE` if the caller named none, else what the name
/// asks for, whatever the case of its letters.
pub fn get_minimum_severity(min_severity: Option<&str>) -> (severity: Severity)
    ensures
        min_severity is None ==> severity == Severity::NOTICE,
        min_severity matches Some(name) ==> severity == minimum_severity_for(uppercase(name@)),
{
    match min_severity {
        None => Severity::NOTICE,
        Some(name) => {
            let upper = name.to_uppercase();
            minimum_severity_from_uppercase(upper.as_str())
        },
    }
}

/// How much the program writes to its log.
#[derive(Debug, Copy, Clone, PartialEq, Eq, Structural)]
pub enum Verbosity {
    Warn,
    Info,
    Debug,
    Trace,
}

/// The verbosity that the caller asked for by repeating the verbosity flag.
pub open spec fn verbosity_for(occurrences: u64) -> Verbosity {
    if occurrences == 1 {
        Verbosity::Info
    } else if occurrences == 2 {
        Verbosity::Debug
    } else if occurrences == 3 {
        Verbosity::Trace
    } else {
        Verbosity::Warn
    }
}

/// The verbosity that the caller asked for by repeating the verbosity flag: once for `Info`,
/// twice for `Debug`, three times for `Trace`, and `Warn` for any other number.
pub fn get_verbosity(occurrences: u64) -> (verbosity: Verbosity)
    ensures
        verbosity == verbosity_for(occurrences),
{
    match occurrences {
        1 => Verbosity::Info,
        2 => Verbosity::Debug,
        3 => Verbosity::Trace,
        _ => Verbosity::Warn,
    }
}

/// The help text of the verbosity flag; tracing is offered only where it is built in.
pub fn get_verbosity_help(with_trace: bool) -> (help: &'static str)
    ensures
        with_trace ==> help@ == "Sets the level of verbosity (-v = Info, -vv = Debug, -vvv = Trace)"@,
        !with_trace ==> help@ == "Sets the level of verbosity (-v = Info, -vv = Debug)"@,
{
    if with_trace {
        "Sets the level of verbosity (-v = Info, -vv = Debug, -vvv = Trace)"
    } else {
        "Sets the level of verbosity (-v = Info, -vv = Debug)"
    }
}

} // verus!
