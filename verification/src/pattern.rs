//! The pattern compiler: from the raw pattern and the matching flags to the
//! name matcher and the content matcher.

use vstd::prelude::*;
use vstd::string::StringExecFns;
use crate::config::SearchConfig;
use crate::scan::{keep_line, line_views, matching_lines};

verus! {

#[verifier::external_type_specification]
#[verifier::external_body]
pub struct ExRegex(regex::Regex);

#[verifier::external_type_specification]
#[verifier::external_body]
pub struct ExRegexError(regex::Error);

#[verifier::external_type_specification]
#[verifier::external_body]
pub struct ExRegexMatcher(grep_regex::RegexMatcher);

#[verifier::external_type_specification]
#[verifier::external_body]
pub struct ExRegexMatcherError(grep_regex::Error);

/// The characters that have a meaning of their own in a regular expression.
pub open spec fn is_meta_character(c: char) -> bool {
    c == '\\' || c == '.' || c == '+' || c == '*' || c == '?' || c == '(' || c == ')' || c == '|'
        || c == '[' || c == ']' || c == '{' || c == '}' || c == '^' || c == '$' || c == '#'
        || c == '&' || c == '-' || c == '~'
}

/// A text with a backslash put before each of its meta characters.
pub open spec fn escaped(text: Seq<char>) -> Seq<char>
    decreases text.len(),
{
    if text.len() == 0 {
        Seq::<char>::empty()
    } else if is_meta_character(text.last()) {
        escaped(text.drop_last()).push('\\').push(text.last())
    } else {
        escaped(text.drop_last()).push(text.last())
    }
}

/// The modifier that makes a regular expression ignore case.
pub open spec fn caseless_flag() -> Seq<char> {
    seq!['(', '?', 'i', ')']
}

/// The expression that the name regex is compiled from.
pub open spec fn name_regex_source(config: &SearchConfig) -> Seq<char> {
    if config.case_sensitive {
        config.pattern@
    } else {
        caseless_flag() + config.pattern@
    }
}

/// The expression that the content matcher is compiled from: the pattern
/// itself in regex mode, else the pattern with its meta characters escaped,
/// and in front of it the caseless modifier where case is ignored.
pub open spec fn content_source(config: &SearchConfig) -> Seq<char> {
    let base = if config.use_regex {
        config.pattern@
    } else {
        escaped(config.pattern@)
    };
    if config.case_sensitive {
        base
    } else {
        caseless_flag() + base
    }
}

/// Whether `Regex::new` accepts an expression.
pub uninterp spec fn regex_compiles(source: Seq<char>) -> bool;

/// Whether the regex compiled from `source` finds a match anywhere in
/// `haystack`.
pub uninterp spec fn regex_finds(source: Seq<char>, haystack: Seq<char>) -> bool;

/// Whether `RegexMatcher::new` accepts an expression.
pub uninterp spec fn matcher_compiles(source: Seq<char>) -> bool;

/// Whether `RegexMatcher::new_line_matcher` accepts an expression.
pub uninterp spec fn line_matcher_compiles(source: Seq<char>) -> bool;

/// A compiled regex for basenames, together with the expression it was
/// compiled from. Values are only made by compiling.
pub struct NameRegex {
    source: String,
    engine: regex::Regex,
}

impl NameRegex {
    /// The expression that this regex was compiled from.
    pub closed spec fn source(&self) -> Seq<char> {
        self.source@
    }

    /// Calls `Regex::new` and keeps the expression beside the compiled regex.
    /// Trusted: whether compilation succeeds depends on the expression alone.
    #[verifier::external_body]
    fn build(source: &str) -> (r: Result<NameRegex, regex::Error>)
        ensures
            r is Ok <==> regex_compiles(source@),
            r matches Ok(re) ==> re.source() == source@,
    {
        match regex::Regex::new(source) {
            Ok(engine) => Ok(NameRegex { source: source.to_string(), engine }),
            Err(e) => Err(e),
        }
    }

    /// Calls `Regex::is_match`. Trusted: the answer depends on the compiled
    /// expression and the haystack alone. It is true where the regex matches
    /// anywhere in the haystack; the search is not anchored.
    #[verifier::external_body]
    pub(crate) fn is_match(&self, haystack: &str) -> (b: bool)
        ensures
            b == regex_finds(self.source(), haystack@),
    {
        self.engine.is_match(haystack)
    }
}

/// A compiled matcher for file contents, together with the expression it was
/// compiled from and whether it was built as a line matcher. Values are only
/// made by compiling.
pub struct ContentMatcher {
    source: String,
    line_oriented: bool,
    engine: grep_regex::RegexMatcher,
}

impl ContentMatcher {
    /// The expression that this matcher was compiled from.
    pub closed spec fn source(&self) -> Seq<char> {
        self.source@
    }

    /// Whether this matcher was built as a line matcher.
    pub closed spec fn line_oriented(&self) -> bool {
        self.line_oriented
    }

    /// Calls `RegexMatcher::new`. Trusted: whether compilation succeeds
    /// depends on the expression alone.
    #[verifier::external_body]
    fn build(source: &str) -> (r: Result<ContentMatcher, grep_regex::Error>)
        ensures
            r is Ok <==> matcher_compiles(source@),
            r matches Ok(m) ==> m.source() == source@ && !m.line_oriented(),
    {
        match grep_regex::RegexMatcher::new(source) {
            Ok(engine) => Ok(
                ContentMatcher { source: source.to_string(), line_oriented: false, engine },
            ),
            Err(e) => Err(e),
        }
    }

    /// Calls `RegexMatcher::new_line_matcher`. Trusted: whether compilation
    /// succeeds depends on the expression alone.
    #[verifier::external_body]
    fn build_line_matcher(source: &str) -> (r: Result<ContentMatcher, grep_regex::Error>)
        ensures
            r is Ok <==> line_matcher_compiles(source@),
            r matches Ok(m) ==> m.source() == source@ && m.line_oriented(),
    {
        match grep_regex::RegexMatcher::new_line_matcher(source) {
            Ok(engine) => Ok(
                ContentMatcher { source: source.to_string(), line_oriented: true, engine },
            ),
            Err(e) => Err(e),
        }
    }

    /// Calls `Searcher::search_reader` on the bytes with the `UTF8` sink, on
    /// a searcher that counts lines and has the given binary detection.
    /// Trusted: the lines handed to the sink, or that the search failed,
    /// depend only on the matcher, the quit byte and the bytes. The line
    /// number of a line is one more than the number of line terminators
    /// before it, and every line is handed over once, in the order of the
    /// bytes: so the numbers start at 1, grow from each line to the next,
    /// and none is larger than the number of bytes. The text of the failure
    /// is not specified.
    #[verifier::external_body]
    pub(crate) fn search_reader(&self, quit_byte: Option<u8>, bytes: &[u8]) -> (r: Result<
        Vec<(u64, String)>,
        String,
    >)
        ensures
            match r {
                Ok(lines) => matching_lines(self.source(), self.line_oriented(), quit_byte, bytes@)
                    == Some(line_views(lines@)),
                Err(_) => matching_lines(self.source(), self.line_oriented(), quit_byte, bytes@)
                    is None,
            },
            r matches Ok(lines) ==> forall|i: int|
                0 <= i < lines@.len() ==> 1 <= (#[trigger] lines@[i]).0 <= bytes@.len(),
            r matches Ok(lines) ==> forall|i: int, j: int|
                0 <= i < j < lines@.len() ==> (#[trigger] lines@[i]).0 < (#[trigger] lines@[j]).0,
    {
        let detection = match quit_byte {
            Some(byte) => grep_searcher::BinaryDetection::quit(byte),
            None => grep_searcher::BinaryDetection::none(),
        };
        let mut searcher = grep_searcher::SearcherBuilder::new().binary_detection(
            detection,
        ).line_number(true).build();
        let mut lines: Vec<(u64, String)> = Vec::new();
        let sink = grep_searcher::sinks::UTF8(|number, line| Ok(keep_line(&mut lines, number, line)));
        match searcher.search_reader(&self.engine, bytes, sink) {
            Ok(()) => Ok(lines),
            Err(e) => Err(e.to_string()),
        }
    }
}

/// Calls `regex::escape`. Trusted: the result is the text with a backslash
/// before each meta character and nothing else changed.
#[verifier::external_body]
fn escape(text: &str) -> (quoted: String)
    ensures
        quoted@ == escaped(text@),
{
    regex::escape(text)
}

/// Renders a `regex::Error` with its `Display` impl. Nothing is claimed of
/// the text.
#[verifier::external_body]
fn describe_regex_error(error: &regex::Error) -> (text: String) {
    error.to_string()
}

/// Renders a `grep_regex::Error` with its `Display` impl. Nothing is claimed
/// of the text.
#[verifier::external_body]
fn describe_matcher_error(error: &grep_regex::Error) -> (text: String) {
    error.to_string()
}

/// Which of the two matchers could not be compiled.
#[derive(Debug, Clone, Copy, PartialEq, Eq, Structural)]
pub enum ConfigErrorKind {
    ContentMatcher,
    NameRegex,
}

/// A pattern that cannot be compiled: the search does not start.
#[derive(Debug, Clone)]
pub struct ConfigError {
    pub kind: ConfigErrorKind,
    /// The pattern as the user gave it.
    pub pattern: String,
    /// What the regex engine said.
    pub detail: String,
}

impl ConfigError {
    /// The error as one line of text.
    pub open spec fn message_text(&self) -> Seq<char> {
        match self.kind {
            ConfigErrorKind::ContentMatcher => "Failed to create content matcher with pattern: '"@
                + self.pattern@ + "': "@ + self.detail@,
            ConfigErrorKind::NameRegex => "Failed to compile name regex: "@ + self.detail@,
        }
    }

    pub fn message(&self) -> (text: String)
        ensures
            text@ == self.message_text(),
    {
        match self.kind {
            ConfigErrorKind::ContentMatcher => {
                let mut text = String::from_str("Failed to create content matcher with pattern: '");
                text.append(self.pattern.as_str());
                text.append("': ");
                text.append(self.detail.as_str());
                text
            },
            ConfigErrorKind::NameRegex => {
                let mut text = String::from_str("Failed to compile name regex: ");
                text.append(self.detail.as_str());
                text
            },
        }
    }
}

/// The two matchers of a search, read by every worker.
pub struct CompiledMatchers {
    /// Present in regex mode; absent, names are compared literally.
    pub name_regex: Option<NameRegex>,
    pub content: ContentMatcher,
}

impl CompiledMatchers {
    /// These matchers are the ones that `config` asks for.
    pub open spec fn wf_for(&self, config: &SearchConfig) -> bool {
        &&& self.name_regex is Some <==> config.use_regex
        &&& self.name_regex matches Some(re) ==> re.source() == name_regex_source(config)
        &&& self.content.source() == content_source(config)
        &&& self.content.line_oriented() == !config.case_sensitive
    }
}

/// Whether the content matcher of `config` can be compiled.
pub open spec fn content_compiles(config: &SearchConfig) -> bool {
    if config.case_sensitive {
        matcher_compiles(content_source(config))
    } else {
        line_matcher_compiles(content_source(config))
    }
}

/// Whether the name matcher of `config` can be compiled: in literal mode
/// there is nothing to compile.
pub open spec fn name_compiles(config: &SearchConfig) -> bool {
    config.use_regex ==> regex_compiles(name_regex_source(config))
}

/// Puts the caseless modifier in front of an expression.
fn with_caseless_flag(source: &str) -> (flagged: String)
    ensures
        flagged@ == caseless_flag() + source@,
{
    proof {
        reveal_strlit("(?i)");
    }
    let mut flagged = String::from_str("(?i)");
    assert(flagged@ =~= caseless_flag());
    flagged.append(source);
    flagged
}

/// Builds the expression of the content matcher.
pub fn content_pattern(config: &SearchConfig) -> (source: String)
    ensures
        source@ == content_source(config),
{
    let base = if config.use_regex {
        config.pattern.clone()
    } else {
        escape(config.pattern.as_str())
    };
    if config.case_sensitive {
        base
    } else {
        with_caseless_flag(base.as_str())
    }
}

/// Builds the expression of the name regex.
pub fn name_regex_pattern(config: &SearchConfig) -> (source: String)
    ensures
        source@ == name_regex_source(config),
{
    if config.case_sensitive {
        config.pattern.clone()
    } else {
        with_caseless_flag(config.pattern.as_str())
    }
}

/// Compiles the content matcher: a plain matcher where case counts, a line
/// matcher with the caseless modifier where it does not.
pub fn create_content_matcher(config: &SearchConfig) -> (r: Result<ContentMatcher, ConfigError>)
    ensures
        r is Ok <==> content_compiles(config),
        r matches Ok(m) ==> m.source() == content_source(config) && m.line_oriented()
            == !config.case_sensitive,
        r matches Err(e) ==> e.kind == ConfigErrorKind::ContentMatcher && e.pattern@
            == config.pattern@,
{
    let source = content_pattern(config);
    let built = if config.case_sensitive {
        ContentMatcher::build(source.as_str())
    } else {
        ContentMatcher::build_line_matcher(source.as_str())
    };
    match built {
        Ok(matcher) => Ok(matcher),
        Err(e) => Err(
            ConfigError {
                kind: ConfigErrorKind::ContentMatcher,
                pattern: config.pattern.clone(),
                detail: describe_matcher_error(&e),
            },
        ),
    }
}

/// Compiles the name regex in regex mode; in literal mode there is none.
pub fn create_name_regex(config: &SearchConfig) -> (r: Result<Option<NameRegex>, ConfigError>)
    ensures
        r is Ok <==> name_compiles(config),
        r matches Ok(found) ==> {
            &&& found is Some <==> config.use_regex
            &&& found matches Some(re) ==> re.source() == name_regex_source(config)
        },
        r matches Err(e) ==> e.kind == ConfigErrorKind::NameRegex && e.pattern@ == config.pattern@,
{
    if !config.use_regex {
        return Ok(None);
    }
    let source = name_regex_pattern(config);
    match NameRegex::build(source.as_str()) {
        Ok(re) => Ok(Some(re)),
        Err(e) => Err(
            ConfigError {
                kind: ConfigErrorKind::NameRegex,
                pattern: config.pattern.clone(),
                detail: describe_regex_error(&e),
            },
        ),
    }
}

/// Compiles both matchers. The content matcher is compiled first, so its
/// failure is the one reported where both would fail.
pub fn compile(config: &SearchConfig) -> (r: Result<CompiledMatchers, ConfigError>)
    ensures
        r is Ok <==> content_compiles(config) && name_compiles(config),
        r matches Ok(matchers) ==> matchers.wf_for(config),
        r matches Err(e) ==> e.pattern@ == config.pattern@ && e.kind == (if !content_compiles(
            config,
        ) {
            ConfigErrorKind::ContentMatcher
        } else {
            ConfigErrorKind::NameRegex
        }),
{
    let content = match create_content_matcher(config) {
        Ok(matcher) => matcher,
        Err(e) => {
            return Err(e);
        },
    };
    let name_regex = match create_name_regex(config) {
        Ok(found) => found,
        Err(e) => {
            return Err(e);
        },
    };
    Ok(CompiledMatchers { name_regex, content })
}

} // verus!
