//! The per-entry visitor: which records one directory entry gives.

use vstd::prelude::*;
use crate::config::SearchConfig;
use crate::name::{matches_name, name_matches};
use crate::pattern::CompiledMatchers;
use crate::record::{dir_name_view, file_name_view, views, MatchRecord, MatchView};
use crate::scan::{
    content_views, matching_lines, quit_byte_of, scan_views, search_file_content, skipped_as_binary,
    ScanError,
};

verus! {

/// How an entry was classified.
#[derive(Debug, Clone, Copy, PartialEq, Eq, Structural)]
pub enum EntryKind {
    Directory,
    File,
    /// Neither a directory nor a regular file, or not classifiable.
    Other,
}

impl EntryKind {
    /// The kind of an entry from what its file type says; an entry whose
    /// file type is unknown is neither a directory nor a file.
    pub fn from_flags(is_dir: bool, is_file: bool) -> (kind: EntryKind)
        ensures
            kind == (if is_dir {
                EntryKind::Directory
            } else if is_file {
                EntryKind::File
            } else {
                EntryKind::Other
            }),
    {
        if is_dir {
            EntryKind::Directory
        } else if is_file {
            EntryKind::File
        } else {
            EntryKind::Other
        }
    }
}

/// One entry that the traversal yielded.
#[derive(Debug, Clone)]
pub struct Entry {
    pub path: String,
    /// The basename, where the path has one and it is valid UTF-8.
    pub name: Option<String>,
    pub kind: EntryKind,
    /// How many directories lie between the root and the entry: the direct
    /// entries of the root are at 0, and the root itself counts as 0 too.
    pub depth: usize,
}

/// What was read of an entry's content before the visit.
#[derive(Debug, Clone)]
pub enum Content {
    /// Nothing was read.
    Unread,
    /// The bytes of the file.
    Bytes(Vec<u8>),
    /// Reading failed, with the reason.
    Unreadable(String),
}

/// The records of an entry and, where its content could not be scanned, why.
#[derive(Debug, Clone)]
pub struct VisitOutcome {
    pub matches: Vec<MatchRecord>,
    pub scan_error: Option<ScanError>,
}

/// Whether the visitor scans the content of an entry.
pub open spec fn wants_content(config: &SearchConfig, entry: &Entry) -> bool {
    config.mode.covers_contents() && entry.kind == EntryKind::File
}

/// The name record of an entry: one for a directory or a regular file whose
/// kind of name is searched and whose basename matches, else none.
pub open spec fn name_part(config: &SearchConfig, matchers: &CompiledMatchers, entry: &Entry) -> Seq<
    MatchView,
> {
    match entry.name {
        Some(name) => if entry.kind == EntryKind::Directory && config.mode.covers_dir_names()
            && name_matches(config, &matchers.name_regex, name@) {
            seq![dir_name_view(entry.path@)]
        } else if entry.kind == EntryKind::File && config.mode.covers_file_names() && name_matches(
            config,
            &matchers.name_regex,
            name@,
        ) {
            seq![file_name_view(entry.path@)]
        } else {
            Seq::<MatchView>::empty()
        },
        None => Seq::<MatchView>::empty(),
    }
}

/// The content records of an entry: one per matching line of a regular file
/// whose content is searched and was read and scanned, else none.
pub open spec fn content_part(
    config: &SearchConfig,
    matchers: &CompiledMatchers,
    entry: &Entry,
    content: &Content,
) -> Seq<MatchView> {
    if wants_content(config, entry) {
        match content {
            Content::Bytes(bytes) => match scan_views(
                config,
                &matchers.content,
                entry.path@,
                bytes@,
            ) {
                Some(found) => found,
                None => Seq::<MatchView>::empty(),
            },
            _ => Seq::<MatchView>::empty(),
        }
    } else {
        Seq::<MatchView>::empty()
    }
}

/// Whether the visit of an entry reports a content that could not be read or
/// scanned.
pub open spec fn content_fails(
    config: &SearchConfig,
    matchers: &CompiledMatchers,
    entry: &Entry,
    content: &Content,
) -> bool {
    wants_content(config, entry) && match content {
        Content::Bytes(bytes) => scan_views(config, &matchers.content, entry.path@, bytes@) is None,
        Content::Unreadable(_) => true,
        Content::Unread => false,
    }
}

/// All records of an entry: its name record first, then its content records.
/// Every test that applies runs, whatever an earlier one found.
pub open spec fn visit_views(
    config: &SearchConfig,
    matchers: &CompiledMatchers,
    entry: &Entry,
    content: &Content,
) -> Seq<MatchView> {
    name_part(config, matchers, entry) + content_part(config, matchers, entry, content)
}

/// Tells whether the content of an entry has to be read for its visit.
pub fn needs_content(config: &SearchConfig, entry: &Entry) -> (b: bool)
    ensures
        b == wants_content(config, entry),
{
    config.mode.searches_contents() && entry.kind == EntryKind::File
}

/// Visits one entry: tests the basename of a directory or of a regular file
/// where that kind of name is searched, and scans the content of a regular
/// file where contents are searched.
pub fn visit_entry(
    config: &SearchConfig,
    matchers: &CompiledMatchers,
    entry: &Entry,
    content: &Content,
) -> (outcome: VisitOutcome)
    ensures
        views(outcome.matches@) == visit_views(config, matchers, entry, content),
        forall|i: int| 0 <= i < outcome.matches@.len() ==> (#[trigger] outcome.matches@[i]).wf(),
        outcome.scan_error is Some <==> content_fails(config, matchers, entry, content),
        outcome.scan_error matches Some(e) ==> e.path@ == entry.path@,
        outcome.scan_error matches Some(e) ==> (content matches Content::Unreadable(detail)
            ==> e.detail@ == detail@),
{
    let mut matches: Vec<MatchRecord> = Vec::new();
    let mut scan_error: Option<ScanError> = None;
    let is_dir = entry.kind == EntryKind::Directory;
    let is_file = entry.kind == EntryKind::File;

    if config.mode.searches_dir_names() && is_dir {
        match &entry.name {
            Some(dir_name) => {
                if matches_name(config, dir_name.as_str(), &matchers.name_regex) {
                    matches.push(MatchRecord::dir_name(entry.path.as_str()));
                }
            },
            None => {},
        }
    }
    if config.mode.searches_file_names() && is_file {
        match &entry.name {
            Some(file_name) => {
                if matches_name(config, file_name.as_str(), &matchers.name_regex) {
                    matches.push(MatchRecord::file_name(entry.path.as_str()));
                }
            },
            None => {},
        }
    }
    assert(views(matches@) =~= name_part(config, matchers, entry));
    let ghost named = matches@;

    if config.mode.searches_contents() && is_file {
        match content {
            Content::Bytes(bytes) => {
                match search_file_content(
                    config,
                    &matchers.content,
                    entry.path.as_str(),
                    bytes.as_slice(),
                ) {
                    Ok(mut content_matches) => {
                        let ghost found = content_matches@;
                        matches.append(&mut content_matches);
                        assert(views(matches@) =~= views(named) + views(found));
                    },
                    Err(e) => {
                        scan_error = Some(e);
                    },
                }
            },
            Content::Unreadable(detail) => {
                scan_error = Some(
                    ScanError { path: entry.path.clone(), detail: detail.clone() },
                );
            },
            Content::Unread => {},
        }
    }
    assert(views(matches@) =~= visit_views(config, matchers, entry, content));
    VisitOutcome { matches, scan_error }
}

/// A regular file whose name and content both match, searched in mode
/// `All` and not skipped as binary, gives its file-name record and after it
/// one content record per matching line: nothing is merged and nothing is
/// left out.
pub proof fn name_and_content_both_reported(
    config: &SearchConfig,
    matchers: &CompiledMatchers,
    entry: &Entry,
    content: &Content,
    lines: Seq<(u64, Seq<char>)>,
)
    requires
        config.mode == crate::config::SearchMode::All,
        entry.kind == EntryKind::File,
        entry.name matches Some(name) && name_matches(config, &matchers.name_regex, name@),
        content matches Content::Bytes(bytes) && !skipped_as_binary(config, bytes@)
            && matching_lines(
            matchers.content.source(),
            matchers.content.line_oriented(),
            quit_byte_of(config),
            bytes@,
        ) == Some(lines),
    ensures
        visit_views(config, matchers, entry, content) == seq![file_name_view(entry.path@)]
            + content_views(entry.path@, lines),
        visit_views(config, matchers, entry, content).len() == 1 + lines.len(),
{
}

/// A regular file that is skipped as binary keeps its name record and gives
/// no content record.
pub proof fn binary_file_keeps_name_record(
    config: &SearchConfig,
    matchers: &CompiledMatchers,
    entry: &Entry,
    content: &Content,
)
    requires
        entry.kind == EntryKind::File,
        content matches Content::Bytes(bytes) && skipped_as_binary(config, bytes@),
    ensures
        visit_views(config, matchers, entry, content) == name_part(config, matchers, entry),
{
    assert(content_part(config, matchers, entry, content) =~= Seq::<MatchView>::empty());
    assert(visit_views(config, matchers, entry, content) =~= name_part(config, matchers, entry));
}

} // verus!
