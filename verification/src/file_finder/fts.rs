//! The finder for the reports of the native pre-order walk `fts`.

use vstd::prelude::*;
use vstd::string::{StringExecFns, StringSliceAdditionalSpecFns};
use vstd::utf8::encode_utf8;
use crate::dir_entry::{entry_view, entry_views, DirEntryTrait, EntryView, StandaloneDirEntry};
use crate::errors::{ErrorKind, ErrorKindView, ScanError};
use crate::file_finder::{filter_entries, FileFinderTrait};
use crate::fs::file_type::StandaloneFileType;
use crate::text::{decimal, decimal_text};

verus! {

/// The number that `fts` gives to a regular file.
pub const FTS_F: u32 = 8;

/// Follow a symbolic link that is given as the root of the walk.
pub const FTS_COMFOLLOW: u32 = 0x0001;

/// Do not change the working directory during the walk.
pub const FTS_NOCHDIR: u32 = 0x0004;

/// What `fts` reports of one child of a directory.
#[derive(Debug)]
pub struct FtsEntry {
    /// The kind of node.
    pub info: u16,
    /// The path of the directory, as the walk spells it.
    pub path: String,
    /// The name of the child.
    pub name: String,
}

/// The entry for a child that `fts` reported: its path is the directory's path followed by
/// its name, and it is a file.
pub open spec fn fts_entry(child: FtsEntry) -> EntryView {
    EntryView { path: child.path@ + child.name@, file_type: StandaloneFileType::File }
}

/// The entries that a walk with `fts` gives: one for each child that is a regular file.
pub open spec fn fts_entries(children: Seq<FtsEntry>) -> Seq<EntryView> {
    children.filter(|child: FtsEntry| child.info == FTS_F).map_values(
        |child: FtsEntry| fts_entry(child),
    )
}

/// Adding a child at the end of a report adds its entry at the end, if it is a regular file.
pub proof fn lemma_fts_entries_push(children: Seq<FtsEntry>, child: FtsEntry)
    ensures
        fts_entries(children.push(child)) == (if child.info == FTS_F {
            fts_entries(children).push(fts_entry(child))
        } else {
            fts_entries(children)
        }),
{
    reveal(Seq::filter);
    assert(children.push(child).drop_last() =~= children);
    let regular = children.filter(|child: FtsEntry| child.info == FTS_F);
    if child.info == FTS_F {
        assert(regular.push(child).map_values(|child: FtsEntry| fts_entry(child)) =~= fts_entries(
            children,
        ).push(fts_entry(child)));
    }
}

/// The place of the first zero byte at or after `from`, if there is one.
pub open spec fn zero_byte_from(bytes: Seq<u8>, from: int) -> Option<int>
    decreases bytes.len() - from,
{
    if from < 0 || from >= bytes.len() {
        None
    } else if bytes[from] == 0 {
        Some(from)
    } else {
        zero_byte_from(bytes, from + 1)
    }
}

/// The place of the first NUL in a text, counted in the bytes of its UTF-8 form.
pub open spec fn nul_position(text: Seq<char>) -> Option<int> {
    zero_byte_from(encode_utf8(text), 0)
}

/// Whether a text can be handed to a native API as a string: it holds no NUL.
pub open spec fn is_native_string(text: Seq<char>) -> bool {
    nul_position(text) is None
}

/// The text of the error for a root that holds a NUL at the given place.
pub open spec fn nul_error_text(position: int) -> Seq<char> {
    "nul byte found in provided data at position: "@ + decimal_text(position as nat)
}

/// The text of the error for a walk that could not be opened.
pub open spec fn not_opened_error_text() -> Seq<char> {
    "Result of fts_open() is NULL"@
}

/// The place of the first NUL in a text, counted in the bytes of its UTF-8 form.
pub fn find_nul(text: &str) -> (position: Option<usize>)
    ensures
        position matches Some(p) ==> nul_position(text@) == Some(p as int),
        position is None ==> nul_position(text@) is None,
{
    let bytes = text.as_bytes();
    let mut i: usize = 0;
    while i < bytes.len()
        invariant
            i <= bytes@.len(),
            bytes@ == encode_utf8(text@),
            zero_byte_from(bytes@, 0) == zero_byte_from(bytes@, i as int),
        decreases bytes@.len() - i,
    {
        if bytes[i] == 0 {
            return Some(i);
        }
        i += 1;
    }
    None
}

/// Whether a text can be handed to a native API as a string.
pub fn check_native_string(text: &str) -> (valid: bool)
    ensures
        valid == is_native_string(text@),
{
    find_nul(text).is_none()
}

/// The entry for a child that `fts` reported.
pub fn dir_entry_from_fts_entry(entry: &FtsEntry) -> (dir_entry: StandaloneDirEntry)
    ensures
        entry_view(dir_entry) == fts_entry(*entry),
{
    let mut path = entry.path.clone();
    path.append(entry.name.as_str());
    StandaloneDirEntry::from_path_with_file_type(path.as_str(), StandaloneFileType::File)
}

/// What collecting the entries of a walk fails with, if it fails: the root can not be
/// handed to the native API, or the walk could not be opened.
pub open spec fn collect_failure(root: Seq<char>, opened: bool) -> Option<ErrorKindView> {
    match nul_position(root) {
        Some(position) => Some(ErrorKindView::BindingError(nul_error_text(position))),
        None => if opened {
            None
        } else {
            Some(ErrorKindView::BindingError(not_opened_error_text()))
        },
    }
}

/// The entries of a walk with `fts` below `root`.
///
/// `children` is what the walk reported, or `None` if the walk could not be opened. The
/// walk fails, with an error of the kind `BindingError`, if `root` holds a NUL, which the
/// error locates, or if the walk could not be opened. Otherwise the entries are the
/// children that are regular files, in the order of the report.
pub fn collect_dir_entries(root: &str, children: Option<&[FtsEntry]>) -> (collected: Result<
    Vec<StandaloneDirEntry>,
    ScanError,
>)
    ensures
        collect_failure(root@, children is Some) matches Some(kind) ==> (collected matches Err(e)
            && e@ == kind),
        collect_failure(root@, children is Some) is None ==> (collected matches Ok(entries)
            && entry_views(entries@) == fts_entries(children->Some_0@)),
{
    if let Some(position) = find_nul(root) {
        let mut text = "nul byte found in provided data at position: ".to_owned();
        text.append(decimal(position).as_str());
        return Err(ScanError::from_kind(ErrorKind::BindingError(text)));
    }
    let children = match children {
        Some(children) => children,
        None => {
            return Err(
                ScanError::from_kind(
                    ErrorKind::BindingError("Result of fts_open() is NULL".to_owned()),
                ),
            );
        },
    };
    let mut entries: Vec<StandaloneDirEntry> = Vec::new();
    let mut i: usize = 0;
    assert(entry_views(entries@) =~= fts_entries(children@.take(0)));
    while i < children.len()
        invariant
            i <= children@.len(),
            entry_views(entries@) == fts_entries(children@.take(i as int)),
        decreases children@.len() - i,
    {
        let ghost before = entry_views(entries@);
        proof {
            assert(children@.take(i + 1) =~= children@.take(i as int).push(children@[i as int]));
            lemma_fts_entries_push(children@.take(i as int), children@[i as int]);
        }
        if children[i].info as u32 == FTS_F {
            entries.push(dir_entry_from_fts_entry(&children[i]));
            assert(entry_views(entries@) =~= before.push(fts_entry(children@[i as int])));
        }
        i += 1;
    }
    assert(children@.take(children@.len() as int) =~= children@);
    Ok(entries)
}

/// The finder for the reports of the native pre-order walk.
#[derive(Clone)]
pub struct FileFinder {}

impl FileFinder {
    /// A finder.
    pub fn new() -> Self {
        FileFinder {  }
    }
}

impl FileFinderTrait for FileFinder {
    type DirEntry = StandaloneDirEntry;

    fn walk_dir<F: Fn(&Self::DirEntry) -> bool>(
        &self,
        walked: Vec<Self::DirEntry>,
        filter: F,
    ) -> (kept: Vec<Self::DirEntry>) {
        filter_entries(walked, filter)
    }
}

} // verus!
