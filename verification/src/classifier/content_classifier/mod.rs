//! Classification by content.
//!
//! The library does not read files. Whoever calls it reads the leading bytes of a file and
//! hands them over, or hands over the reason why the file could not be read.

pub mod error;

use vstd::prelude::*;
use vstd::slice::slice_subrange;
use crate::classifier::classification::{Classification, ClassificationView};
use crate::classifier::content_classifier::error::{
    ContentClassificationError,
    ContentClassificationErrorView,
};
use crate::classifier::violation::{Violation, ViolationView};
use crate::dir_entry::DirEntryTrait;
use crate::matcher::Matcher;
use crate::rule::{Rule, RuleView};

verus! {

/// Number of bytes of a file that are looked at.
pub const BUFFER_SIZE: usize = 1024 * 1024 * 4;

/// The text that `String::from_utf8_lossy` gives for a run of bytes.
pub uninterp spec fn utf8_lossy(bytes: Seq<u8>) -> Seq<char>;

/// `String::from_utf8_lossy` turns bytes into text and puts the replacement character where
/// the bytes are not UTF-8. The text depends on the bytes alone; the contract only names it.
#[verifier::external_body]
fn decode_lossy(bytes: &[u8]) -> (text: String)
    ensures
        text@ == utf8_lossy(bytes@),
{
    String::from_utf8_lossy(bytes).into_owned()
}

/// The part of a file's bytes that is looked at: not more than `BUFFER_SIZE` leading bytes.
pub open spec fn leading_bytes(bytes: Seq<u8>) -> Seq<u8> {
    if bytes.len() <= BUFFER_SIZE {
        bytes
    } else {
        bytes.take(BUFFER_SIZE as int)
    }
}

/// The text that a file's bytes are taken as.
pub open spec fn readable_text(bytes: Seq<u8>) -> Seq<char> {
    utf8_lossy(leading_bytes(bytes))
}

/// What is known of the content of a file.
pub enum ContentView {
    /// The text of the file, as far as it is looked at.
    Text(Seq<char>),
    /// The reason why there is no text.
    Failed(ContentClassificationErrorView),
}

/// What an attempt to read a file says about its content.
pub open spec fn content_view(read: Result<Vec<u8>, ContentClassificationError>) -> ContentView {
    match read {
        Ok(bytes) => ContentView::Text(readable_text(bytes@)),
        Err(error) => ContentView::Failed(error@),
    }
}

/// The outcome by content alone.
///
/// With the text at hand the rule fires if its content pattern matches. Without it, a file
/// that does not exist is no match, and any other failure is reported in the rule's place.
pub open spec fn classify_content(rule: RuleView, content: ContentView) -> ClassificationView {
    match content {
        ContentView::Text(text) => ClassificationView::of_match(rule, rule.content_matches(text)),
        ContentView::Failed(error) => match ViolationView::of_io_error(error) {
            Some(violation) => ClassificationView::Error(violation),
            None => ClassificationView::NoMatch,
        },
    }
}

/// Holds the content of one entry against the content patterns of rules.
///
/// The bytes that were read are turned into text when the first rule asks for it, and the
/// text is kept for the rules that follow.
pub struct ContentClassifier<'a> {
    source: &'a Result<Vec<u8>, ContentClassificationError>,
    file_content_cache: Option<String>,
    path: String,
}

impl<'a> ContentClassifier<'a> {
    #[verifier::type_invariant]
    spec fn well_formed(self) -> bool {
        self.file_content_cache matches Some(text) ==> (*self.source matches Ok(bytes) && text@
            == readable_text(bytes@))
    }

    /// The path of the entry that this classifier was made for.
    pub closed spec fn spec_path(self) -> Seq<char> {
        self.path@
    }

    /// What the attempt to read the entry's content gave.
    pub closed spec fn spec_source(self) -> Result<Vec<u8>, ContentClassificationError> {
        *self.source
    }

    /// The text of the entry, once it has been made.
    pub closed spec fn spec_text(self) -> Option<Seq<char>> {
        match self.file_content_cache {
            Some(text) => Some(text@),
            None => None,
        }
    }

    /// Whether the text of the entry has been made.
    pub open spec fn spec_is_loaded(self) -> bool {
        self.spec_text() is Some
    }

    /// A classifier for the given entry and what reading its content gave.
    pub fn new<D: DirEntryTrait>(
        entry: &D,
        source: &'a Result<Vec<u8>, ContentClassificationError>,
    ) -> (classifier: ContentClassifier<'a>)
        ensures
            classifier.spec_path() == entry.spec_path(),
            classifier.spec_source() == *source,
            !classifier.spec_is_loaded(),
    {
        ContentClassifier { source, file_content_cache: None, path: entry.path().to_owned() }
    }

    /// Whether the text of the entry has been made.
    pub fn is_loaded(&self) -> (loaded: bool)
        ensures
            loaded == self.spec_is_loaded(),
    {
        self.file_content_cache.is_some()
    }

    /// Makes the text of the entry from the bytes that were read, unless it is there.
    ///
    /// Afterwards the text is there exactly if the read had succeeded.
    pub fn read_file_content(&mut self)
        ensures
            final(self).spec_path() == old(self).spec_path(),
            final(self).spec_source() == old(self).spec_source(),
            old(self).spec_source() matches Ok(bytes) ==> final(self).spec_text() == Some(
                readable_text(bytes@),
            ),
            old(self).spec_source() is Err ==> final(self).spec_text() is None,
    {
        proof {
            use_type_invariant(&*self);
        }
        if self.file_content_cache.is_none() {
            match self.source {
                Ok(bytes) => {
                    let all = bytes.as_slice();
                    let leading = if all.len() <= BUFFER_SIZE {
                        all
                    } else {
                        slice_subrange(all, 0, BUFFER_SIZE)
                    };
                    self.file_content_cache = Some(decode_lossy(leading));
                },
                Err(_) => {},
            }
        }
    }

    /// Holds the entry's content against the rule.
    pub fn classify<D: DirEntryTrait>(&mut self, entry: &D, rule: &Rule) -> (outcome:
        Classification)
        requires
            entry.spec_path() == old(self).spec_path(),
        ensures
            outcome@ == classify_content(rule@, content_view(old(self).spec_source())),
            final(self).spec_path() == old(self).spec_path(),
            final(self).spec_source() == old(self).spec_source(),
    {
        self.read_file_content();
        proof {
            use_type_invariant(&*self);
        }
        match &self.file_content_cache {
            Some(text) => Classification::of_match(
                rule,
                Matcher::match_entry_content(rule, text.as_str()),
            ),
            None => {
                match self.source {
                    Err(e) => {
                        let violation_option = Violation::with_file_io_error(e);
                        match violation_option {
                            Some(v) => Classification::Error(v),
                            None => Classification::NoMatch,
                        }
                    },
                    Ok(_) => unreached(),
                }
            },
        }
    }
}

} // verus!
