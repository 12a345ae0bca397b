use finder::config::{SearchConfig, SearchMode};
use finder::name::matches_name;
use finder::pattern::{
    compile, content_pattern, create_content_matcher, create_name_regex, name_regex_pattern,
    ConfigErrorKind,
};

fn config(pattern: &str, use_regex: bool, case_sensitive: bool) -> SearchConfig {
    SearchConfig::new(pattern.to_string(), SearchMode::All, use_regex, case_sensitive, true, false, None)
}

fn name_matches(pattern: &str, use_regex: bool, case_sensitive: bool, name: &str) -> bool {
    let config = config(pattern, use_regex, case_sensitive);
    let matchers = compile(&config).expect("the pattern compiles");
    matches_name(&config, name, &matchers.name_regex)
}

#[test]
fn new_config_keeps_its_arguments() {
    let config = SearchConfig::new(
        "Needle".to_string(),
        SearchMode::Content,
        true,
        true,
        false,
        true,
        Some(3),
    );
    assert_eq!(config.pattern, "Needle");
    assert_eq!(config.mode, SearchMode::Content);
    assert!(config.use_regex);
    assert!(config.case_sensitive);
    assert!(!config.ignore_binary);
    assert!(config.follow_links);
    assert_eq!(config.max_depth, Some(3));
    assert_eq!(config.pattern_lowercase, None);
}

#[test]
fn lowercase_pattern_only_for_caseless_literals() {
    assert_eq!(config("FoO", false, false).pattern_lowercase, Some("foo".to_string()));
    assert_eq!(config("FoO", false, true).pattern_lowercase, None);
    assert_eq!(config("FoO", true, false).pattern_lowercase, None);
    assert_eq!(config("FoO", true, true).pattern_lowercase, None);
    assert_eq!(config("", false, false).pattern_lowercase, Some(String::new()));
}

#[test]
fn search_mode_targets() {
    assert!(SearchMode::FileName.searches_file_names());
    assert!(!SearchMode::FileName.searches_dir_names());
    assert!(!SearchMode::FileName.searches_contents());
    assert!(!SearchMode::DirName.searches_file_names());
    assert!(SearchMode::DirName.searches_dir_names());
    assert!(!SearchMode::DirName.searches_contents());
    assert!(!SearchMode::Content.searches_file_names());
    assert!(!SearchMode::Content.searches_dir_names());
    assert!(SearchMode::Content.searches_contents());
    assert!(SearchMode::All.searches_file_names());
    assert!(SearchMode::All.searches_dir_names());
    assert!(SearchMode::All.searches_contents());
}

#[test]
fn depth_limit_admits_up_to_the_maximum() {
    let mut config = config("x", false, true);
    assert!(config.within_depth(0));
    assert!(config.within_depth(usize::MAX));
    config.max_depth = Some(2);
    assert!(config.within_depth(0));
    assert!(config.within_depth(2));
    assert!(!config.within_depth(3));
    config.max_depth = Some(0);
    assert!(config.within_depth(0));
    assert!(!config.within_depth(1));
}

#[test]
fn content_pattern_escapes_literals() {
    assert_eq!(content_pattern(&config("a.b", false, true)), "a\\.b");
    assert_eq!(content_pattern(&config("a.b", false, false)), "(?i)a\\.b");
    assert_eq!(content_pattern(&config("a.b", true, true)), "a.b");
    assert_eq!(content_pattern(&config("a.b", true, false)), "(?i)a.b");
    assert_eq!(content_pattern(&config("plain", false, true)), "plain");
    assert_eq!(
        content_pattern(&config("\\.+*?()|[]{}^$#&-~", false, true)),
        "\\\\\\.\\+\\*\\?\\(\\)\\|\\[\\]\\{\\}\\^\\$\\#\\&\\-\\~"
    );
    assert_eq!(content_pattern(&config("a%b/c!", false, true)), "a%b/c!");
}

#[test]
fn name_regex_pattern_injects_the_caseless_modifier() {
    assert_eq!(name_regex_pattern(&config("^a.*z$", true, true)), "^a.*z$");
    assert_eq!(name_regex_pattern(&config("^a.*z$", true, false)), "(?i)^a.*z$");
}

#[test]
fn literal_mode_has_no_name_regex() {
    let config = config("foo", false, true);
    let matchers = compile(&config).expect("a literal always compiles");
    assert!(matchers.name_regex.is_none());
    assert!(create_name_regex(&config).expect("nothing to compile").is_none());
}

#[test]
fn regex_mode_has_a_name_regex() {
    let config = config("fo+", true, true);
    let matchers = compile(&config).expect("the pattern is valid");
    assert!(matchers.name_regex.is_some());
}

#[test]
fn invalid_regex_is_a_configuration_error() {
    let config = config("foo(", true, true);
    match compile(&config) {
        Ok(_) => panic!("an unclosed group must not compile"),
        Err(e) => {
            assert_eq!(e.kind, ConfigErrorKind::ContentMatcher);
            assert_eq!(e.pattern, "foo(");
            assert!(e.message().starts_with(
                "Failed to create content matcher with pattern: 'foo(': "
            ));
        }
    }
    match create_content_matcher(&config) {
        Ok(_) => panic!("an unclosed group must not compile"),
        Err(e) => assert_eq!(e.kind, ConfigErrorKind::ContentMatcher),
    }
}

#[test]
fn invalid_name_regex_is_a_configuration_error() {
    let config = config("foo(", true, false);
    match create_name_regex(&config) {
        Ok(_) => panic!("an unclosed group must not compile"),
        Err(e) => {
            assert_eq!(e.kind, ConfigErrorKind::NameRegex);
            assert_eq!(e.pattern, "foo(");
            assert!(e.message().starts_with("Failed to compile name regex: "));
            assert_eq!(e.message(), format!("Failed to compile name regex: {}", e.detail));
        }
    }
}

#[test]
fn invalid_literal_still_compiles() {
    assert!(compile(&config("foo(", false, true)).is_ok());
    assert!(compile(&config("foo(", false, false)).is_ok());
}

#[test]
fn regex_name_match_is_not_anchored() {
    assert!(name_matches("o+", true, true, "foo.txt"));
    assert!(name_matches("txt$", true, true, "foo.txt"));
    assert!(!name_matches("^txt", true, true, "foo.txt"));
}

#[test]
fn anchored_regex_is_case_sensitive_on_directory_names() {
    assert!(name_matches("^a.*z$", true, true, "abz"));
    assert!(!name_matches("^a.*z$", true, true, "ABZ"));
}

#[test]
fn caseless_regex_matches_both_cases() {
    assert!(name_matches("^a.*z$", true, false, "abz"));
    assert!(name_matches("^a.*z$", true, false, "ABZ"));
    assert!(!name_matches("^a.*z$", true, false, "abzy"));
}

#[test]
fn literal_case_sensitive_is_substring_containment() {
    assert!(name_matches("foo", false, true, "foo.txt"));
    assert!(name_matches("o.t", false, true, "foo.txt"));
    assert!(!name_matches("FOO", false, true, "foo.txt"));
    assert!(!name_matches("o+", false, true, "foo.txt"));
    assert!(name_matches("", false, true, "foo.txt"));
    assert!(name_matches("", false, true, ""));
    assert!(!name_matches("foo.txt.", false, true, "foo.txt"));
}

#[test]
fn literal_caseless_compares_whole_names() {
    assert!(name_matches("foo.txt", false, false, "FOO.TXT"));
    assert!(name_matches("FOO.TXT", false, false, "foo.txt"));
    assert!(name_matches("Foo", false, false, "fOO"));
    assert!(!name_matches("foo", false, false, "foo.txt"));
    assert!(!name_matches("foo.txt", false, false, "foo"));
}

#[test]
fn literal_caseless_uses_full_case_folding() {
    assert!(name_matches("stra\u{df}e", false, false, "STRASSE"));
    assert!(name_matches("strasse", false, false, "Stra\u{df}e"));
    assert!(!name_matches("strase", false, false, "Stra\u{df}e"));
}

#[test]
fn empty_caseless_pattern_matches_only_the_empty_name() {
    assert!(name_matches("", false, false, ""));
    assert!(!name_matches("", false, false, "a"));
    assert!(!name_matches("", false, false, "foo.txt"));
    assert!(!name_matches("", false, false, " "));
}

#[test]
fn name_matching_twice_gives_the_same_answer() {
    let cases = [
        ("foo", false, false, "FOO"),
        ("foo", false, false, "bar"),
        ("foo", false, true, "a foo b"),
        ("f.o", true, true, "fxo"),
        ("f.o", true, false, "FXX"),
        ("", false, false, ""),
    ];
    for (pattern, use_regex, case_sensitive, name) in cases {
        let config = config(pattern, use_regex, case_sensitive);
        let matchers = compile(&config).expect("the pattern compiles");
        let first = matches_name(&config, name, &matchers.name_regex);
        let second = matches_name(&config, name, &matchers.name_regex);
        assert_eq!(first, second);
    }
}

#[test]
fn missing_lowercase_falls_back_to_the_pattern() {
    let mut config = config("Foo", false, false);
    config.pattern_lowercase = None;
    assert!(matches_name(&config, "FOO", &None));
    assert!(!matches_name(&config, "FOO.txt", &None));
}

#[test]
fn caseless_pattern_with_a_newline_is_rejected() {
    match compile(&config("a\nb", false, false)) {
        Ok(_) => panic!("a line matcher cannot hold a line terminator"),
        Err(e) => assert_eq!(e.kind, ConfigErrorKind::ContentMatcher),
    }
    assert!(compile(&config("a\nb", false, true)).is_ok());
}

#[test]
fn name_regex_failure_after_content_matcher_success() {
    let config = config("(?-u:\\xFF)", true, true);
    assert!(create_content_matcher(&config).is_ok());
    match compile(&config) {
        Ok(_) => panic!("a name regex cannot match invalid UTF-8"),
        Err(e) => {
            assert_eq!(e.kind, ConfigErrorKind::NameRegex);
            assert_eq!(e.pattern, "(?-u:\\xFF)");
        }
    }
}
