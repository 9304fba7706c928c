//! The library's error type.

use vstd::prelude::*;
use vstd::string::StringExecFns;

verus! {

/// What went wrong.
#[derive(Debug)]
pub enum ErrorKind {
    /// A free-form message.
    Msg(String),
    /// A pattern that the regular expression engine refused; the text is the engine's report.
    Regex(String),
    /// A failed call into a native API.
    BindingError(String),
    /// A configuration file that can not be used.
    ReaderError(String),
}

/// An error kind as a mathematical value.
pub enum ErrorKindView {
    Msg(Seq<char>),
    Regex(Seq<char>),
    BindingError(Seq<char>),
    ReaderError(Seq<char>),
}

impl View for ErrorKind {
    type V = ErrorKindView;

    open spec fn view(&self) -> ErrorKindView {
        match self {
            ErrorKind::Msg(m) => ErrorKindView::Msg(m@),
            ErrorKind::Regex(m) => ErrorKindView::Regex(m@),
            ErrorKind::BindingError(m) => ErrorKindView::BindingError(m@),
            ErrorKind::ReaderError(m) => ErrorKindView::ReaderError(m@),
        }
    }
}

impl ErrorKindView {
    /// The short text that names the kind of error; for a free-form message the message
    /// itself.
    pub open spec fn description(self) -> Seq<char> {
        match self {
            ErrorKindView::Msg(m) => m,
            ErrorKindView::Regex(m) => m,
            ErrorKindView::BindingError(_) => "Error when calling external API"@,
            ErrorKindView::ReaderError(_) => "Invalid configuration file"@,
        }
    }

    /// The full text shown to a user.
    pub open spec fn message(self) -> Seq<char> {
        match self {
            ErrorKindView::Msg(m) => m,
            ErrorKindView::Regex(m) => m,
            ErrorKindView::BindingError(t) => "Error when calling external API: '"@ + t + "'"@,
            ErrorKindView::ReaderError(t) => "Configuration file can not be loaded: '"@ + t
                + "'"@,
        }
    }
}

/// An error of the library.
#[derive(Debug)]
pub struct ScanError {
    kind: ErrorKind,
}

impl View for ScanError {
    type V = ErrorKindView;

    closed spec fn view(&self) -> ErrorKindView {
        self.kind@
    }
}

/// Whether a result is the expected value, or an error that says what is expected.
pub open spec fn result_is<T>(got: Result<T, ScanError>, expected: Result<T, ErrorKindView>) -> bool {
    match expected {
        Ok(value) => got matches Ok(v) && v == value,
        Err(kind) => got matches Err(e) && e@ == kind,
    }
}

impl ScanError {
    /// An error of the given kind.
    pub fn from_kind(kind: ErrorKind) -> (e: ScanError)
        ensures
            e@ == kind@,
    {
        ScanError { kind }
    }

    /// An error that carries a free-form message.
    pub fn with_message(message: String) -> (e: ScanError)
        ensures
            e@ == ErrorKindView::Msg(message@),
    {
        ScanError { kind: ErrorKind::Msg(message) }
    }

    /// The kind of this error.
    pub fn kind(&self) -> (k: &ErrorKind)
        ensures
            k@ == self@,
    {
        &self.kind
    }

    /// The short text that names the kind of error.
    pub fn description(&self) -> (s: String)
        ensures
            s@ == self@.description(),
    {
        match &self.kind {
            ErrorKind::Msg(m) => m.clone(),
            ErrorKind::Regex(m) => m.clone(),
            ErrorKind::BindingError(_) => "Error when calling external API".to_owned(),
            ErrorKind::ReaderError(_) => "Invalid configuration file".to_owned(),
        }
    }

    /// The full text shown to a user.
    pub fn message(&self) -> (s: String)
        ensures
            s@ == self@.message(),
    {
        match &self.kind {
            ErrorKind::Msg(m) => m.clone(),
            ErrorKind::Regex(m) => m.clone(),
            ErrorKind::BindingError(t) => {
                let mut s = "Error when calling external API: '".to_owned();
                s.append(t.as_str());
                s.append("'");
                s
            },
            ErrorKind::ReaderError(t) => {
                let mut s = "Configuration file can not be loaded: '".to_owned();
                s.append(t.as_str());
                s.append("'");
                s
            },
        }
    }
}

} // verus!
