//! The name matcher: does a basename satisfy the pattern?

use vstd::prelude::*;
use crate::config::SearchConfig;
use crate::pattern::{regex_finds, CompiledMatchers, NameRegex};

verus! {

/// `needle` occurs in `haystack` as a run of consecutive characters.
pub open spec fn has_substring(haystack: Seq<char>, needle: Seq<char>) -> bool {
    exists|i: int|
        0 <= i && i + needle.len() <= haystack.len() && #[trigger] haystack.subrange(
            i,
            i + needle.len(),
        ) == needle
}

/// Whether two texts are equal once both are case folded by Unicode's
/// default case folding, as `Caseless::default_caseless_match` decides it.
pub uninterp spec fn caseless_equal(left: Seq<char>, right: Seq<char>) -> bool;

/// Calls `str::contains` with a string pattern. Trusted: the answer is true
/// exactly where the needle is a substring of the haystack.
#[verifier::external_body]
fn contains(haystack: &str, needle: &str) -> (b: bool)
    ensures
        b == has_substring(haystack@, needle@),
{
    haystack.contains(needle)
}

/// Calls `Caseless::default_caseless_match` on the characters of the two
/// texts. Trusted: the answer depends on the two texts alone.
#[verifier::external_body]
fn caseless_match(left: &str, right: &str) -> (b: bool)
    ensures
        b == caseless_equal(left@, right@),
{
    caseless::Caseless::default_caseless_match(left.chars(), right.chars())
}

/// What it means for a basename to match.
///
/// With a name regex, the regex finds a match anywhere in the name. Without
/// one, where case counts the pattern is a substring of the name; where it
/// does not, the whole name is caselessly equal to the pattern, and an empty
/// pattern matches the empty name only.
pub open spec fn name_matches(
    config: &SearchConfig,
    name_regex: &Option<NameRegex>,
    name: Seq<char>,
) -> bool {
    match name_regex {
        Some(re) => regex_finds(re.source(), name),
        None => if config.case_sensitive {
            has_substring(name, config.pattern@)
        } else if config.caseless_pattern().len() == 0 {
            name.len() == 0
        } else {
            caseless_equal(name, config.caseless_pattern())
        },
    }
}

/// Tests a basename against the pattern.
pub fn matches_name(config: &SearchConfig, name_to_check: &str, name_regex: &Option<NameRegex>) -> (b:
    bool)
    ensures
        b == name_matches(config, name_regex, name_to_check@),
{
    match name_regex {
        Some(re) => re.is_match(name_to_check),
        None => {
            if config.case_sensitive {
                contains(name_to_check, config.pattern.as_str())
            } else {
                let pattern_for_caseless: &str = match &config.pattern_lowercase {
                    Some(lowered) => lowered.as_str(),
                    None => config.pattern.as_str(),
                };
                if pattern_for_caseless.is_empty() {
                    name_to_check.is_empty()
                } else {
                    caseless_match(name_to_check, pattern_for_caseless)
                }
            }
        },
    }
}

/// Matching a basename is idempotent: whatever two tests of the same name
/// with the same configuration and the same matcher return, they return the
/// same.
pub proof fn name_matching_is_idempotent(
    config: &SearchConfig,
    name_regex: &Option<NameRegex>,
    name: Seq<char>,
    first: bool,
    second: bool,
)
    requires
        first == name_matches(config, name_regex, name),
        second == name_matches(config, name_regex, name),
    ensures
        first == second,
{
}

/// In literal case-insensitive mode an empty pattern matches the empty
/// basename and no other.
pub proof fn empty_pattern_matches_only_empty_name(
    config: &SearchConfig,
    matchers: &CompiledMatchers,
    name: Seq<char>,
)
    requires
        config.wf(),
        matchers.wf_for(config),
        !config.use_regex,
        !config.case_sensitive,
        config.pattern@.len() == 0,
    ensures
        name_matches(config, &matchers.name_regex, name) <==> name.len() == 0,
{
}

} // verus!
