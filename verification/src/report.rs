//! The reporter: one line of text per match, and the summary line.

use vstd::prelude::*;
use vstd::string::StringExecFns;
use crate::record::{MatchKind, MatchRecord, MatchView};

verus! {

/// The character of a decimal digit.
pub open spec fn digit_char(digit: nat) -> char {
    if digit == 0 {
        '0'
    } else if digit == 1 {
        '1'
    } else if digit == 2 {
        '2'
    } else if digit == 3 {
        '3'
    } else if digit == 4 {
        '4'
    } else if digit == 5 {
        '5'
    } else if digit == 6 {
        '6'
    } else if digit == 7 {
        '7'
    } else if digit == 8 {
        '8'
    } else {
        '9'
    }
}

/// A number in decimal, without leading zeros.
pub open spec fn decimal(n: nat) -> Seq<char>
    decreases n,
{
    if n < 10 {
        seq![digit_char(n)]
    } else {
        decimal(n / 10).push(digit_char(n % 10))
    }
}

fn digit_text(digit: usize) -> (text: &'static str)
    requires
        digit < 10,
    ensures
        text@ == seq![digit_char(digit as nat)],
{
    proof {
        reveal_strlit("0");
        reveal_strlit("1");
        reveal_strlit("2");
        reveal_strlit("3");
        reveal_strlit("4");
        reveal_strlit("5");
        reveal_strlit("6");
        reveal_strlit("7");
        reveal_strlit("8");
        reveal_strlit("9");
    }
    let text = if digit == 0 {
        "0"
    } else if digit == 1 {
        "1"
    } else if digit == 2 {
        "2"
    } else if digit == 3 {
        "3"
    } else if digit == 4 {
        "4"
    } else if digit == 5 {
        "5"
    } else if digit == 6 {
        "6"
    } else if digit == 7 {
        "7"
    } else if digit == 8 {
        "8"
    } else {
        "9"
    };
    assert(text@ =~= seq![digit_char(digit as nat)]);
    text
}

/// Writes a number in decimal.
pub fn decimal_string(n: usize) -> (text: String)
    ensures
        text@ == decimal(n as nat),
    decreases n,
{
    if n < 10 {
        String::from_str(digit_text(n))
    } else {
        let mut text = decimal_string(n / 10);
        text.append(digit_text(n % 10));
        assert(text@ =~= decimal(n as nat));
        text
    }
}

/// The output line of a match: `File: <path>`, `Directory: <path>` or
/// `Content: <path>:<line>:<text>`. A missing line number is written as 0, a
/// missing text as nothing.
pub open spec fn match_line(record: MatchView) -> Seq<char> {
    match record.kind {
        MatchKind::FileName => "File: "@ + record.path,
        MatchKind::DirName => "Directory: "@ + record.path,
        MatchKind::FileContent => "Content: "@ + record.path + ":"@ + decimal(
            match record.line_number {
                Some(number) => number as nat,
                None => 0,
            },
        ) + ":"@ + match record.line_text {
            Some(text) => text,
            None => Seq::<char>::empty(),
        },
    }
}

/// The summary line, with the elapsed seconds as the caller wrote them.
pub open spec fn summary_text(elapsed_seconds: Seq<char>, processed: usize, found: usize) -> Seq<
    char,
> {
    "Search completed in "@ + elapsed_seconds + "s. Processed "@ + decimal(processed as nat)
        + " entries, found "@ + decimal(found as nat) + " matches."@
}

/// Formats one match as its output line.
pub fn format_match(record: &MatchRecord) -> (line: String)
    ensures
        line@ == match_line(record@),
{
    match record.kind {
        MatchKind::FileName => {
            let mut line = String::from_str("File: ");
            line.append(record.path.as_str());
            line
        },
        MatchKind::DirName => {
            let mut line = String::from_str("Directory: ");
            line.append(record.path.as_str());
            line
        },
        MatchKind::FileContent => {
            let number: usize = match record.line_number {
                Some(number) => number,
                None => 0,
            };
            let mut line = String::from_str("Content: ");
            line.append(record.path.as_str());
            line.append(":");
            line.append(decimal_string(number).as_str());
            line.append(":");
            match &record.line_text {
                Some(text) => {
                    line.append(text.as_str());
                },
                None => {
                    assert(line@ + Seq::<char>::empty() =~= line@);
                },
            }
            line
        },
    }
}

/// Formats all matches, one line each, in the order given.
pub fn format_matches(matches: &Vec<MatchRecord>) -> (lines: Vec<String>)
    ensures
        lines@.len() == matches@.len(),
        forall|i: int| 0 <= i < lines@.len() ==> (#[trigger] lines@[i])@ == match_line(matches@[i]@),
{
    let mut lines: Vec<String> = Vec::new();
    let mut i: usize = 0;
    while i < matches.len()
        invariant
            i <= matches@.len(),
            lines@.len() == i,
            forall|k: int| 0 <= k < i ==> (#[trigger] lines@[k])@ == match_line(matches@[k]@),
        decreases matches@.len() - i,
    {
        lines.push(format_match(&matches[i]));
        i = i + 1;
    }
    lines
}

/// Formats the summary line from the elapsed seconds, already written out,
/// and the two final counters.
pub fn summary_line(elapsed_seconds: &str, processed: usize, found: usize) -> (line: String)
    ensures
        line@ == summary_text(elapsed_seconds@, processed, found),
{
    let mut line = String::from_str("Search completed in ");
    line.append(elapsed_seconds);
    line.append("s. Processed ");
    line.append(decimal_string(processed).as_str());
    line.append(" entries, found ");
    line.append(decimal_string(found).as_str());
    line.append(" matches.");
    line
}

} // verus!
