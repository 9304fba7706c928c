//! Why the content of a file could not be read.

use vstd::prelude::*;
use vstd::std_specs::convert::FromSpecImpl;
use vstd::string::StringExecFns;

verus! {

/// The reason that the operating system gave for a failed read, as far as it matters here.
#[derive(Debug, Copy, Clone, PartialEq, Eq, Structural)]
pub enum IoErrorKind {
    /// There is no file at the path.
    NotFound,
    /// The file may not be read.
    PermissionDenied,
    /// Any other reason.
    Other,
}

/// The kind of a failed content read.
#[derive(Debug, Copy, Clone, PartialEq, Eq, Structural)]
pub enum ContentClassificationErrorKind {
    NotExists,
    NotReadable,
    Unknown,
}

impl ContentClassificationErrorKind {
    /// The kind of failure that a reason of the operating system stands for.
    pub open spec fn spec_from_io(kind: IoErrorKind) -> ContentClassificationErrorKind {
        match kind {
            IoErrorKind::NotFound => ContentClassificationErrorKind::NotExists,
            IoErrorKind::PermissionDenied => ContentClassificationErrorKind::NotReadable,
            IoErrorKind::Other => ContentClassificationErrorKind::Unknown,
        }
    }
}

impl From<IoErrorKind> for ContentClassificationErrorKind {
    fn from(e: IoErrorKind) -> (kind: ContentClassificationErrorKind) {
        match e {
            IoErrorKind::NotFound => ContentClassificationErrorKind::NotExists,
            IoErrorKind::PermissionDenied => ContentClassificationErrorKind::NotReadable,
            IoErrorKind::Other => ContentClassificationErrorKind::Unknown,
        }
    }
}

impl FromSpecImpl<IoErrorKind> for ContentClassificationErrorKind {
    open spec fn obeys_from_spec() -> bool {
        true
    }

    open spec fn from_spec(e: IoErrorKind) -> ContentClassificationErrorKind {
        ContentClassificationErrorKind::spec_from_io(e)
    }
}

/// The text that formatting a path with `{:?}` gives: the path between quotes, with the
/// characters escaped that could not be told apart or seen otherwise.
pub uninterp spec fn quoted_path(path: Seq<char>) -> Seq<char>;

/// The `Debug` form of `std::path::Path`, as `format!` with `{:?}` writes it, quotes and
/// escapes a path. The text depends on the path alone; the contract only names it.
#[verifier::external_body]
fn quote_path(path: &str) -> (quoted: String)
    ensures
        quoted@ == quoted_path(path@),
{
    format!("{:?}", std::path::Path::new(path))
}

/// A failed content read as a mathematical value.
pub struct ContentClassificationErrorView {
    pub kind: ContentClassificationErrorKind,
    pub path: Seq<char>,
    pub cause: Seq<char>,
}

impl ContentClassificationErrorView {
    /// The text that says what failed, given the quoted form of the path.
    pub open spec fn description_with(kind: ContentClassificationErrorKind, quoted: Seq<char>) -> Seq<
        char,
    > {
        match kind {
            ContentClassificationErrorKind::NotExists => "File "@ + quoted + " does not exist"@,
            ContentClassificationErrorKind::NotReadable => "Could not read file "@ + quoted,
            ContentClassificationErrorKind::Unknown => "Could not read file "@ + quoted,
        }
    }

    /// The short text that says what failed for which file. The path is written between
    /// quotes and escaped.
    pub open spec fn description(self) -> Seq<char> {
        ContentClassificationErrorView::description_with(self.kind, quoted_path(self.path))
    }

    /// The short text followed by the cause that the operating system reported.
    pub open spec fn long_description(self) -> Seq<char> {
        self.description() + ": "@ + self.cause
    }
}

/// A failed attempt to read the content of a file.
#[derive(Debug)]
pub struct ContentClassificationError {
    inner: String,
    kind: ContentClassificationErrorKind,
    path: String,
}

impl View for ContentClassificationError {
    type V = ContentClassificationErrorView;

    closed spec fn view(&self) -> ContentClassificationErrorView {
        ContentClassificationErrorView { kind: self.kind, path: self.path@, cause: self.inner@ }
    }
}

impl ContentClassificationError {
    /// The failure for a read of `path` that the operating system refused for the reason
    /// `kind`, which it put into words as `cause`.
    pub fn from_io_error(path: &str, kind: IoErrorKind, cause: &str) -> (error:
        ContentClassificationError)
        ensures
            error@.kind == ContentClassificationErrorKind::spec_from_io(kind),
            error@.path == path@,
            error@.cause == cause@,
    {
        let kind = ContentClassificationErrorKind::from(kind);
        ContentClassificationError { inner: cause.to_owned(), kind, path: path.to_owned() }
    }

    /// The kind of failure.
    pub fn kind(&self) -> (kind: ContentClassificationErrorKind)
        ensures
            kind == self@.kind,
    {
        self.kind
    }

    /// The text that says what failed, given the quoted form of the path.
    pub fn describe(kind: ContentClassificationErrorKind, quoted: &str) -> (text: String)
        ensures
            text@ == ContentClassificationErrorView::description_with(kind, quoted@),
    {
        match kind {
            ContentClassificationErrorKind::NotExists => {
                let mut text = "File ".to_owned();
                text.append(quoted);
                text.append(" does not exist");
                text
            },
            ContentClassificationErrorKind::NotReadable => {
                let mut text = "Could not read file ".to_owned();
                text.append(quoted);
                text
            },
            ContentClassificationErrorKind::Unknown => {
                let mut text = "Could not read file ".to_owned();
                text.append(quoted);
                text
            },
        }
    }

    /// The short text that says what failed for which file. The path is written between
    /// quotes and escaped.
    pub fn description(&self) -> (text: String)
        ensures
            text@ == self@.description(),
    {
        let quoted = quote_path(self.path.as_str());
        ContentClassificationError::describe(self.kind, quoted.as_str())
    }

    /// The short text followed by the cause that the operating system reported.
    pub fn long_description(&self) -> (text: String)
        ensures
            text@ == self@.long_description(),
    {
        let mut text = self.description();
        text.append(": ");
        text.append(self.inner.as_str());
        text
    }
}

impl Clone for ContentClassificationError {
    fn clone(&self) -> (copy: ContentClassificationError)
        ensures
            copy@ == self@,
    {
        ContentClassificationError {
            inner: self.inner.clone(),
            kind: self.kind,
            path: self.path.clone(),
        }
    }
}

} // verus!
