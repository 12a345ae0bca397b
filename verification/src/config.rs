//! The immutable configuration of one search.

use vstd::prelude::*;

verus! {

/// What a search looks at.
#[derive(Debug, Clone, Copy, PartialEq, Eq, Structural)]
pub enum SearchMode {
    FileName,
    DirName,
    Content,
    All,
}

impl SearchMode {
    pub open spec fn covers_file_names(self) -> bool {
        self == SearchMode::FileName || self == SearchMode::All
    }

    pub open spec fn covers_dir_names(self) -> bool {
        self == SearchMode::DirName || self == SearchMode::All
    }

    pub open spec fn covers_contents(self) -> bool {
        self == SearchMode::Content || self == SearchMode::All
    }

    /// Whether the basenames of regular files are tested.
    pub fn searches_file_names(self) -> (b: bool)
        ensures
            b == self.covers_file_names(),
    {
        match self {
            SearchMode::FileName => true,
            SearchMode::All => true,
            _ => false,
        }
    }

    /// Whether the basenames of directories are tested.
    pub fn searches_dir_names(self) -> (b: bool)
        ensures
            b == self.covers_dir_names(),
    {
        match self {
            SearchMode::DirName => true,
            SearchMode::All => true,
            _ => false,
        }
    }

    /// Whether the contents of regular files are scanned.
    pub fn searches_contents(self) -> (b: bool)
        ensures
            b == self.covers_contents(),
    {
        match self {
            SearchMode::Content => true,
            SearchMode::All => true,
            _ => false,
        }
    }
}

/// The lowercase form of a text, as `str::to_lowercase` computes it.
pub uninterp spec fn lowercase_of(text: Seq<char>) -> Seq<char>;

/// Calls `str::to_lowercase`. Trusted: the result is the lowercase form of
/// the text, a function of the text alone, and an empty text stays empty.
#[verifier::external_body]
fn lowercase(text: &str) -> (lowered: String)
    ensures
        lowered@ == lowercase_of(text@),
        text@.len() == 0 ==> lowered@.len() == 0,
{
    text.to_lowercase()
}

/// Everything a search is configured with. It is built once, before the
/// traversal starts, and only read afterwards.
#[derive(Debug, Clone)]
pub struct SearchConfig {
    pub pattern: String,
    /// The lowercase pattern, kept for literal case-insensitive searches.
    pub pattern_lowercase: Option<String>,
    pub mode: SearchMode,
    pub use_regex: bool,
    pub case_sensitive: bool,
    pub ignore_binary: bool,
    pub follow_links: bool,
    pub max_depth: Option<usize>,
}

impl SearchConfig {
    /// The lowercase pattern is present exactly for literal case-insensitive
    /// searches, and is then the lowercase form of the pattern.
    pub open spec fn wf(&self) -> bool {
        &&& self.pattern_lowercase is Some <==> !self.use_regex && !self.case_sensitive
        &&& self.pattern_lowercase matches Some(lowered) ==> {
            &&& lowered@ == lowercase_of(self.pattern@)
            &&& self.pattern@.len() == 0 ==> lowered@.len() == 0
        }
    }

    /// The text that a basename is compared with in literal case-insensitive
    /// mode: the lowercase pattern where it was computed, else the pattern.
    pub open spec fn caseless_pattern(&self) -> Seq<char> {
        match self.pattern_lowercase {
            Some(lowered) => lowered@,
            None => self.pattern@,
        }
    }

    /// Whether an entry at `depth` is visited. The direct entries of the
    /// root are at depth 0, so a maximum depth of 0 admits them and nothing
    /// nested below them.
    pub open spec fn admits_depth(&self, depth: usize) -> bool {
        match self.max_depth {
            Some(limit) => depth <= limit,
            None => true,
        }
    }

    pub fn new(
        pattern: String,
        mode: SearchMode,
        use_regex: bool,
        case_sensitive: bool,
        ignore_binary: bool,
        follow_links: bool,
        max_depth: Option<usize>,
    ) -> (config: SearchConfig)
        ensures
            config.wf(),
            config.pattern@ == pattern@,
            config.mode == mode,
            config.use_regex == use_regex,
            config.case_sensitive == case_sensitive,
            config.ignore_binary == ignore_binary,
            config.follow_links == follow_links,
            config.max_depth == max_depth,
    {
        let pattern_lowercase = if !use_regex && !case_sensitive {
            Some(lowercase(pattern.as_str()))
        } else {
            None
        };
        SearchConfig {
            pattern,
            pattern_lowercase,
            mode,
            use_regex,
            case_sensitive,
            ignore_binary,
            follow_links,
            max_depth,
        }
    }

    /// Tells whether an entry at `depth` is within the configured maximum
    /// depth, the direct entries of the root being at depth 0.
    pub fn within_depth(&self, depth: usize) -> (b: bool)
        ensures
            b == self.admits_depth(depth),
    {
        match self.max_depth {
            Some(limit) => depth <= limit,
            None => true,
        }
    }
}

} // verus!
