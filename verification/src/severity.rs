//! The fixed, signed severity scale.

use vstd::prelude::*;
use vstd::std_specs::convert::FromSpecImpl;
use crate::errors::{ErrorKindView, ScanError};
use crate::text::{str_eq, uppercase};

verus! {

/// A point on the signed severity scale.
///
/// The variants are not independent tags: each one stands for the integer given by
/// [`Severity::spec_value`], ratings are sums of these integers, and a rating is
/// put into a bucket by comparing it with the positive points of the scale.
#[derive(Debug, Copy, Clone, PartialEq, Eq, Structural)]
pub enum Severity {
    CRITICAL,
    MAJOR,
    MINOR,
    NOTICE,
    NONE,
    EASE,
    EASE2X,
    WHITELIST,
}

impl Severity {
    /// The integer a severity contributes to a rating.
    pub open spec fn spec_value(self) -> int {
        match self {
            Severity::CRITICAL => 90,
            Severity::MAJOR => 60,
            Severity::MINOR => 40,
            Severity::NOTICE => 20,
            Severity::NONE => 0,
            Severity::EASE => -20,
            Severity::EASE2X => -40,
            Severity::WHITELIST => -250,
        }
    }

    /// The integer a severity contributes to a rating.
    pub fn value(self) -> (v: isize)
        ensures
            v == self.spec_value(),
    {
        match self {
            Severity::CRITICAL => 90,
            Severity::MAJOR => 60,
            Severity::MINOR => 40,
            Severity::NOTICE => 20,
            Severity::NONE => 0,
            Severity::EASE => -20,
            Severity::EASE2X => -40,
            Severity::WHITELIST => -250,
        }
    }
}

impl Severity {
    /// The display text of a severity.
    pub open spec fn spec_description(self) -> Seq<char> {
        match self {
            Severity::CRITICAL => "CRITICAL"@,
            Severity::MAJOR => "MAJOR"@,
            Severity::MINOR => "MINOR"@,
            Severity::NOTICE => "NOTICE"@,
            Severity::NONE => "NONE"@,
            Severity::EASE => "EASE"@,
            Severity::EASE2X => "EASE 2X"@,
            Severity::WHITELIST => "WHITELIST"@,
        }
    }

    /// The display text of a severity.
    pub fn description(&self) -> (text: &'static str)
        ensures
            text@ == self.spec_description(),
    {
        match self {
            Severity::CRITICAL => "CRITICAL",
            Severity::MAJOR => "MAJOR",
            Severity::MINOR => "MINOR",
            Severity::NOTICE => "NOTICE",
            Severity::NONE => "NONE",
            Severity::EASE => "EASE",
            Severity::EASE2X => "EASE 2X",
            Severity::WHITELIST => "WHITELIST",
        }
    }

    /// The severity that an uppercase name stands for, if it is one of the eight names.
    pub open spec fn spec_from_uppercase(name: Seq<char>) -> Option<Severity> {
        if name == "CRITICAL"@ {
            Some(Severity::CRITICAL)
        } else if name == "MAJOR"@ {
            Some(Severity::MAJOR)
        } else if name == "MINOR"@ {
            Some(Severity::MINOR)
        } else if name == "NOTICE"@ {
            Some(Severity::NOTICE)
        } else if name == "EASE"@ {
            Some(Severity::EASE)
        } else if name == "EASE2X"@ {
            Some(Severity::EASE2X)
        } else if name == "NONE"@ {
            Some(Severity::NONE)
        } else if name == "WHITELIST"@ {
            Some(Severity::WHITELIST)
        } else {
            None
        }
    }

    /// Reads a severity from a name that is already in uppercase.
    pub fn from_uppercase(name: &str) -> (parsed: Option<Severity>)
        ensures
            parsed == Severity::spec_from_uppercase(name@),
    {
        if str_eq(name, "CRITICAL") {
            Some(Severity::CRITICAL)
        } else if str_eq(name, "MAJOR") {
            Some(Severity::MAJOR)
        } else if str_eq(name, "MINOR") {
            Some(Severity::MINOR)
        } else if str_eq(name, "NOTICE") {
            Some(Severity::NOTICE)
        } else if str_eq(name, "EASE") {
            Some(Severity::EASE)
        } else if str_eq(name, "EASE2X") {
            Some(Severity::EASE2X)
        } else if str_eq(name, "NONE") {
            Some(Severity::NONE)
        } else if str_eq(name, "WHITELIST") {
            Some(Severity::WHITELIST)
        } else {
            None
        }
    }

    /// Reads a severity from its name, whatever the case of its letters.
    ///
    /// A text that is none of the eight names is handed back as the error's message.
    pub fn from_name(name: &str) -> (parsed: Result<Severity, ScanError>)
        ensures
            Severity::spec_from_uppercase(uppercase(name@)) matches Some(severity) ==> (parsed matches Ok(s)
                && s == severity),
            Severity::spec_from_uppercase(uppercase(name@)) is None ==> (parsed matches Err(e)
                && e@ == ErrorKindView::Msg(name@)),
    {
        let upper = name.to_uppercase();
        match Severity::from_uppercase(upper.as_str()) {
            Some(severity) => Ok(severity),
            None => Err(ScanError::with_message(name.to_owned())),
        }
    }

    /// The severity a rating is shown as.
    ///
    /// A positive rating falls into the highest bucket whose threshold it reaches; the three
    /// negative points of the scale stand for themselves; every other rating is `NONE`.
    pub open spec fn spec_from_rating(rating: int) -> Severity {
        if rating >= 90 {
            Severity::CRITICAL
        } else if rating >= 60 {
            Severity::MAJOR
        } else if rating >= 40 {
            Severity::MINOR
        } else if rating >= 20 {
            Severity::NOTICE
        } else if rating == -20 {
            Severity::EASE
        } else if rating == -40 {
            Severity::EASE2X
        } else if rating == -250 {
            Severity::WHITELIST
        } else {
            Severity::NONE
        }
    }

    /// The severity a rating is shown as.
    pub fn from_rating(rating: isize) -> (severity: Severity)
        ensures
            severity == Severity::spec_from_rating(rating as int),
    {
        if rating >= Severity::CRITICAL.value() {
            Severity::CRITICAL
        } else if rating >= Severity::MAJOR.value() {
            Severity::MAJOR
        } else if rating >= Severity::MINOR.value() {
            Severity::MINOR
        } else if rating >= Severity::NOTICE.value() {
            Severity::NOTICE
        } else if rating == Severity::EASE.value() {
            Severity::EASE
        } else if rating == Severity::EASE2X.value() {
            Severity::EASE2X
        } else if rating == Severity::WHITELIST.value() {
            Severity::WHITELIST
        } else {
            Severity::NONE
        }
    }
}

impl std::str::FromStr for Severity {
    type Err = ScanError;

    fn from_str(s: &str) -> (parsed: Result<Self, Self::Err>)
        ensures
            Severity::spec_from_uppercase(uppercase(s@)) matches Some(severity) ==> (parsed matches Ok(
                parsed_severity,
            ) && parsed_severity == severity),
            Severity::spec_from_uppercase(uppercase(s@)) is None ==> (parsed matches Err(e) && e@
                == ErrorKindView::Msg(s@)),
    {
        Severity::from_name(s)
    }
}

impl From<isize> for Severity {
    fn from(rating: isize) -> (severity: Severity) {
        Severity::from_rating(rating)
    }
}

impl FromSpecImpl<isize> for Severity {
    open spec fn obeys_from_spec() -> bool {
        true
    }

    open spec fn from_spec(rating: isize) -> Severity {
        Severity::spec_from_rating(rating as int)
    }
}

} // verus!
