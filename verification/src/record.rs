//! Match records and their mathematical views.

use vstd::prelude::*;

verus! {

/// What kind of thing matched.
#[derive(Debug, Clone, Copy, PartialEq, Eq, Structural)]
pub enum MatchKind {
    FileName,
    DirName,
    FileContent,
}

/// One match. Line number and line text are present exactly for content
/// matches.
#[derive(Debug, Clone)]
pub struct MatchRecord {
    pub path: String,
    pub kind: MatchKind,
    pub line_number: Option<usize>,
    pub line_text: Option<String>,
}

/// A match record as a plain value.
pub struct MatchView {
    pub path: Seq<char>,
    pub kind: MatchKind,
    pub line_number: Option<usize>,
    pub line_text: Option<Seq<char>>,
}

impl View for MatchRecord {
    type V = MatchView;

    open spec fn view(&self) -> MatchView {
        MatchView {
            path: self.path@,
            kind: self.kind,
            line_number: self.line_number,
            line_text: match self.line_text {
                Some(text) => Some(text@),
                None => None,
            },
        }
    }
}

/// The views of a sequence of records, in order.
pub open spec fn views(records: Seq<MatchRecord>) -> Seq<MatchView> {
    Seq::new(records.len(), |i: int| records[i]@)
}

/// The record of a matching directory name.
pub open spec fn dir_name_view(path: Seq<char>) -> MatchView {
    MatchView { path, kind: MatchKind::DirName, line_number: None, line_text: None }
}

/// The record of a matching file name.
pub open spec fn file_name_view(path: Seq<char>) -> MatchView {
    MatchView { path, kind: MatchKind::FileName, line_number: None, line_text: None }
}

/// The record of a matching line.
pub open spec fn content_view(path: Seq<char>, line_number: usize, text: Seq<char>) -> MatchView {
    MatchView {
        path,
        kind: MatchKind::FileContent,
        line_number: Some(line_number),
        line_text: Some(text),
    }
}

impl MatchRecord {
    /// Line number and line text are present exactly for content matches.
    pub open spec fn wf(&self) -> bool {
        &&& self.line_number is Some <==> self.kind == MatchKind::FileContent
        &&& self.line_text is Some <==> self.kind == MatchKind::FileContent
    }

    pub fn dir_name(path: &str) -> (record: MatchRecord)
        ensures
            record@ == dir_name_view(path@),
            record.wf(),
    {
        MatchRecord {
            path: path.to_owned(),
            kind: MatchKind::DirName,
            line_number: None,
            line_text: None,
        }
    }

    pub fn file_name(path: &str) -> (record: MatchRecord)
        ensures
            record@ == file_name_view(path@),
            record.wf(),
    {
        MatchRecord {
            path: path.to_owned(),
            kind: MatchKind::FileName,
            line_number: None,
            line_text: None,
        }
    }

    pub fn content(path: &str, line_number: usize, text: String) -> (record: MatchRecord)
        ensures
            record@ == content_view(path@, line_number, text@),
            record.wf(),
    {
        MatchRecord {
            path: path.to_owned(),
            kind: MatchKind::FileContent,
            line_number: Some(line_number),
            line_text: Some(text),
        }
    }
}

} // verus!
