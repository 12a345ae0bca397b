//! The content scanner: the matching lines of one file's bytes, as records.

use vstd::prelude::*;
use vstd::string::StrSliceExecFns;
use crate::config::SearchConfig;
use crate::pattern::ContentMatcher;
use crate::record::{content_view, views, MatchRecord, MatchView};

verus! {

/// The byte whose presence marks a file as binary.
pub const BINARY_SENTINEL: u8 = 0;

/// The lines that a search of `bytes` reports, each with its 1-based line
/// number and its text up to and including its line terminator, in the order
/// of the file; `None` where the search fails, as on a matching line that is
/// not UTF-8. The searcher counts lines, reads the bytes through a buffer of
/// its default size and, given a `quit_byte`, stops as at the end of the
/// file once a buffer holds that byte. The matcher is the one compiled from
/// `source`, as a line matcher where `line_oriented`.
pub uninterp spec fn matching_lines(
    source: Seq<char>,
    line_oriented: bool,
    quit_byte: Option<u8>,
    bytes: Seq<u8>,
) -> Option<Seq<(u64, Seq<char>)>>;

/// Reported lines as plain values.
pub open spec fn line_views(lines: Seq<(u64, String)>) -> Seq<(u64, Seq<char>)> {
    Seq::new(lines.len(), |i: int| (lines[i].0, lines[i].1@))
}

/// Keeps one reported line and asks the searcher to go on.
pub(crate) fn keep_line(lines: &mut Vec<(u64, String)>, number: u64, line: &str) -> (go_on: bool)
    ensures
        go_on,
        final(lines)@.len() == old(lines)@.len() + 1,
        line_views(final(lines)@) == line_views(old(lines)@).push((number, line@)),
{
    lines.push((number, line.to_owned()));
    assert(line_views(lines@) =~= line_views(old(lines)@).push((number, line@)));
    true
}

/// A text that ends in a line feed.
pub open spec fn ends_with_newline(text: Seq<char>) -> bool {
    text.len() > 0 && text.last() == '\n'
}

/// A line without its trailing newline: without the line feed that ends it
/// and, where a carriage return stands before that line feed, without the
/// carriage return too. Nothing else is taken away, and a line that does not
/// end in a line feed is left as it is.
pub open spec fn without_newline(line: Seq<char>) -> Seq<char> {
    if line.len() >= 2 && line[line.len() - 1] == '\n' && line[line.len() - 2] == '\r' {
        line.subrange(0, line.len() - 2)
    } else if ends_with_newline(line) {
        line.subrange(0, line.len() - 1)
    } else {
        line
    }
}

/// Takes the trailing newline off a line.
pub fn strip_newline<'a>(line: &'a str) -> (text: &'a str)
    ensures
        text@ == without_newline(line@),
{
    let length: usize = line.unicode_len();
    if length >= 2 && line.get_char(length - 1) == '\n' && line.get_char(length - 2) == '\r' {
        line.substring_char(0, length - 2)
    } else if length >= 1 && line.get_char(length - 1) == '\n' {
        line.substring_char(0, length - 1)
    } else {
        line
    }
}

/// Tells whether the bytes hold the sentinel byte.
pub fn holds_sentinel(bytes: &[u8]) -> (b: bool)
    ensures
        b == bytes@.contains(BINARY_SENTINEL),
{
    let mut i: usize = 0;
    while i < bytes.len()
        invariant
            i <= bytes@.len(),
            forall|k: int| 0 <= k < i ==> bytes@[k] != BINARY_SENTINEL,
        decreases bytes@.len() - i,
    {
        if bytes[i] == BINARY_SENTINEL {
            assert(bytes@[i as int] == BINARY_SENTINEL);
            return true;
        }
        i = i + 1;
    }
    false
}

/// A reported line number as a `usize`: itself where it fits, else the
/// largest `usize`.
pub open spec fn line_number_of(number: u64) -> usize {
    if number <= usize::MAX {
        number as usize
    } else {
        usize::MAX
    }
}

/// The records of the reported lines of one file: one per line, in order,
/// each with its line number and its text without the trailing newline.
pub open spec fn content_views(path: Seq<char>, lines: Seq<(u64, Seq<char>)>) -> Seq<MatchView> {
    Seq::new(
        lines.len(),
        |i: int| content_view(path, line_number_of(lines[i].0), without_newline(lines[i].1)),
    )
}

/// The quit byte that a configuration asks for.
pub open spec fn quit_byte_of(config: &SearchConfig) -> Option<u8> {
    if config.ignore_binary {
        Some(BINARY_SENTINEL)
    } else {
        None
    }
}

/// Whether a scan under `config` skips the bytes as binary: binaries are
/// ignored and the sentinel byte occurs somewhere in the bytes.
pub open spec fn skipped_as_binary(config: &SearchConfig, bytes: Seq<u8>) -> bool {
    config.ignore_binary && bytes.contains(BINARY_SENTINEL)
}

/// What a scan of `bytes` under `config` reports, as records of `path`:
/// nothing for bytes that are skipped as binary, else one record per
/// matching line; `None` where the scan fails.
pub open spec fn scan_views(
    config: &SearchConfig,
    matcher: &ContentMatcher,
    path: Seq<char>,
    bytes: Seq<u8>,
) -> Option<Seq<MatchView>> {
    if skipped_as_binary(config, bytes) {
        Some(Seq::<MatchView>::empty())
    } else {
        match matching_lines(
            matcher.source(),
            matcher.line_oriented(),
            quit_byte_of(config),
            bytes,
        ) {
            Some(lines) => Some(content_views(path, lines)),
            None => None,
        }
    }
}

/// A file whose content could not be scanned. The traversal goes on without
/// the file's content matches.
#[derive(Debug, Clone)]
pub struct ScanError {
    pub path: String,
    pub detail: String,
}

fn clamp_line_number(number: u64) -> (n: usize)
    ensures
        n == line_number_of(number),
{
    if number <= usize::MAX as u64 {
        number as usize
    } else {
        usize::MAX
    }
}

/// Turns the reported lines of one file into records: exactly one per line,
/// in order, each with the line's number and the line without its trailing
/// newline.
pub fn content_records(path: &str, lines: &Vec<(u64, String)>) -> (records: Vec<MatchRecord>)
    ensures
        views(records@) == content_views(path@, line_views(lines@)),
        records@.len() == lines@.len(),
        forall|i: int| 0 <= i < records@.len() ==> (#[trigger] records@[i]).wf(),
{
    let mut records: Vec<MatchRecord> = Vec::new();
    let mut i: usize = 0;
    while i < lines.len()
        invariant
            i <= lines@.len(),
            records@.len() == i,
            forall|k: int|
                0 <= k < i ==> (#[trigger] records@[k])@ == content_view(
                    path@,
                    line_number_of(lines@[k].0),
                    without_newline(lines@[k].1@),
                ),
            forall|k: int| 0 <= k < i ==> (#[trigger] records@[k]).wf(),
        decreases lines@.len() - i,
    {
        let number: u64 = lines[i].0;
        let text = strip_newline(lines[i].1.as_str()).to_owned();
        records.push(MatchRecord::content(path, clamp_line_number(number), text));
        i = i + 1;
    }
    assert(views(records@) =~= content_views(path@, line_views(lines@)));
    records
}

/// Scans the bytes of the file at `path` and returns a record for each
/// matching line, in the order of the file. With `ignore_binary`, bytes that
/// hold the sentinel byte anywhere are skipped, without failing: they give
/// no record. Without it all bytes are scanned.
pub fn search_file_content(
    config: &SearchConfig,
    matcher: &ContentMatcher,
    path: &str,
    bytes: &[u8],
) -> (r: Result<Vec<MatchRecord>, ScanError>)
    ensures
        match scan_views(config, matcher, path@, bytes@) {
            Some(expected) => r is Ok && views(r->Ok_0@) == expected,
            None => r is Err && r->Err_0.path@ == path@,
        },
        config.ignore_binary && bytes@.contains(BINARY_SENTINEL) ==> r is Ok && r->Ok_0@.len() == 0,
        r matches Ok(records) ==> forall|i: int|
            0 <= i < records@.len() ==> (#[trigger] records@[i]).wf() && records@[i].path@ == path@
                && records@[i].line_number->Some_0 >= 1,
        r matches Ok(records) ==> forall|i: int, j: int|
            0 <= i < j < records@.len() ==> (#[trigger] records@[i]).line_number->Some_0 < (
            #[trigger] records@[j]).line_number->Some_0,
{
    if config.ignore_binary && holds_sentinel(bytes) {
        let records: Vec<MatchRecord> = Vec::new();
        assert(views(records@) =~= Seq::<MatchView>::empty());
        return Ok(records);
    }
    let quit_byte: Option<u8> = if config.ignore_binary {
        Some(BINARY_SENTINEL)
    } else {
        None
    };
    let size: usize = bytes.len();
    match matcher.search_reader(quit_byte, bytes) {
        Ok(lines) => {
            let records = content_records(path, &lines);
            assert forall|i: int| 0 <= i < records@.len() implies (#[trigger] records@[i])@
                == content_view(
                path@,
                line_number_of(lines@[i].0),
                without_newline(lines@[i].1@),
            ) by {
                assert(views(records@)[i] == content_views(path@, line_views(lines@))[i]);
            }
            assert forall|i: int| 0 <= i < records@.len() implies (#[trigger] records@[i]).wf()
                && records@[i].path@ == path@ && records@[i].line_number->Some_0 >= 1 by {
                assert(lines@[i].0 >= 1);
            }
            assert forall|i: int, j: int| 0 <= i < j < records@.len() implies (
            #[trigger] records@[i]).line_number->Some_0 < (
            #[trigger] records@[j]).line_number->Some_0 by {
                assert(lines@[i].0 < lines@[j].0);
                assert(lines@[i].0 <= size);
                assert(lines@[j].0 <= size);
                assert(records@[i]@.line_number == Some(line_number_of(lines@[i].0)));
                assert(records@[j]@.line_number == Some(line_number_of(lines@[j].0)));
            }
            Ok(records)
        },
        Err(detail) => Err(ScanError { path: path.to_owned(), detail }),
    }
}

} // verus!
