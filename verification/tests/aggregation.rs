use finder::aggregate::{progress_due, search_entries, Aggregator, Progress, WalkItem, PROGRESS_INTERVAL};
use finder::config::{SearchConfig, SearchMode};
use finder::pattern::compile;
use finder::record::{MatchKind, MatchRecord};
use finder::visit::{Content, Entry, EntryKind};

fn file(path: &str, name: &str, depth: usize, bytes: &[u8]) -> WalkItem {
    WalkItem::Found(
        Entry { path: path.to_string(), name: Some(name.to_string()), kind: EntryKind::File, depth },
        Content::Bytes(bytes.to_vec()),
    )
}

fn dir(path: &str, name: &str, depth: usize) -> WalkItem {
    WalkItem::Found(
        Entry { path: path.to_string(), name: Some(name.to_string()), kind: EntryKind::Directory, depth },
        Content::Unread,
    )
}

fn described(records: &[MatchRecord]) -> Vec<(MatchKind, String, Option<usize>)> {
    records.iter().map(|r| (r.kind, r.path.clone(), r.line_number)).collect()
}

#[test]
fn progress_interval_is_two_hundred() {
    assert_eq!(PROGRESS_INTERVAL, 200);
}

#[test]
fn progress_is_due_at_the_first_entry_and_every_interval() {
    assert!(progress_due(1));
    assert!(!progress_due(2));
    assert!(!progress_due(199));
    assert!(progress_due(200));
    assert!(!progress_due(201));
    assert!(progress_due(400));
    assert!(progress_due(0));
}

#[test]
fn new_aggregator_is_empty() {
    let aggregator = Aggregator::new();
    assert_eq!(aggregator.processed(), 0);
    assert_eq!(aggregator.found(), 0);
    let outcome = aggregator.drain();
    assert!(outcome.matches.is_empty());
    assert_eq!((outcome.processed, outcome.found), (0, 0));
}

#[test]
fn counters_only_grow() {
    let mut aggregator = Aggregator::new();
    let mut last_processed = 0;
    let mut last_found = 0;
    for round in 0..5usize {
        assert_eq!(aggregator.note_processed(), round + 1);
        aggregator.record_matches(vec![MatchRecord::file_name("a"); round]);
        assert!(aggregator.processed() >= last_processed);
        assert!(aggregator.found() >= last_found);
        last_processed = aggregator.processed();
        last_found = aggregator.found();
    }
    assert_eq!(last_processed, 5);
    assert_eq!(last_found, 0 + 1 + 2 + 3 + 4);
}

#[test]
fn drained_records_equal_found_increments() {
    let mut aggregator = Aggregator::new();
    let batches: Vec<Vec<MatchRecord>> = vec![
        vec![MatchRecord::file_name("a")],
        Vec::new(),
        vec![MatchRecord::dir_name("b"), MatchRecord::content("c", 2, "x".to_string())],
        vec![MatchRecord::content("c", 5, "y".to_string())],
    ];
    let mut increments = 0;
    for batch in batches {
        let before = aggregator.found();
        let size = batch.len();
        aggregator.record_matches(batch);
        assert_eq!(aggregator.found(), before + size);
        increments += size;
    }
    assert_eq!(aggregator.processed(), 0);
    let outcome = aggregator.drain();
    assert_eq!(outcome.matches.len(), increments);
    assert_eq!(outcome.found, increments);
    assert_eq!(
        described(&outcome.matches),
        vec![
            (MatchKind::FileName, "a".to_string(), None),
            (MatchKind::DirName, "b".to_string(), None),
            (MatchKind::FileContent, "c".to_string(), Some(2)),
            (MatchKind::FileContent, "c".to_string(), Some(5)),
        ]
    );
}

#[test]
fn record_visit_counts_and_reports_progress() {
    let mut aggregator = Aggregator::new();
    let first = aggregator.record_visit(vec![MatchRecord::file_name("a"), MatchRecord::file_name("b")]);
    assert_eq!(first, Some(Progress { position: 1, found: 0 }));
    assert_eq!((aggregator.processed(), aggregator.found()), (1, 2));
    for _ in 2..200 {
        assert_eq!(aggregator.record_visit(Vec::new()), None);
    }
    let at_interval = aggregator.record_visit(vec![MatchRecord::dir_name("c")]);
    assert_eq!(at_interval, Some(Progress { position: 200, found: 2 }));
    assert_eq!((aggregator.processed(), aggregator.found()), (200, 3));
    assert_eq!(aggregator.record_visit(Vec::new()), None);
    let outcome = aggregator.drain();
    assert_eq!((outcome.processed, outcome.found, outcome.matches.len()), (201, 3, 3));
}

#[test]
fn every_visited_entry_is_counted_once() {
    let config = SearchConfig::new("zzz".to_string(), SearchMode::All, false, true, true, false, None);
    let matchers = compile(&config).expect("a literal compiles");
    let items = vec![
        dir("r", "r", 0),
        WalkItem::Failed("permission denied".to_string()),
        file("r/a", "a", 1, b"nothing\n"),
        file("r/b", "b", 1, b""),
        WalkItem::Failed("broken link".to_string()),
        dir("r/d", "d", 1),
        file("r/d/e", "e", 2, b"zzz\n"),
    ];
    let outcome = search_entries(&config, &matchers, &items);
    assert_eq!(outcome.processed, 5);
    assert_eq!(outcome.found, 1);
    assert_eq!(described(&outcome.matches), vec![(MatchKind::FileContent, "r/d/e".to_string(), Some(1))]);
    let none = search_entries(&config, &matchers, &Vec::new());
    assert_eq!((none.processed, none.found, none.matches.len()), (0, 0, 0));
}

#[test]
fn found_counter_is_the_number_of_drained_records() {
    let config = SearchConfig::new("a".to_string(), SearchMode::All, false, true, true, false, None);
    let matchers = compile(&config).expect("a literal compiles");
    let items = vec![
        dir("data", "data", 0),
        file("data/a.txt", "a.txt", 1, b"a\nb\na a\n"),
        file("data/b.txt", "b.txt", 1, b"b\n"),
        dir("data/aa", "aa", 1),
        file("data/aa/c", "c", 2, b"banana\n"),
    ];
    let outcome = search_entries(&config, &matchers, &items);
    assert_eq!(outcome.processed, 5);
    assert_eq!(outcome.found, outcome.matches.len());
    assert_eq!(
        described(&outcome.matches),
        vec![
            (MatchKind::DirName, "data".to_string(), None),
            (MatchKind::FileName, "data/a.txt".to_string(), None),
            (MatchKind::FileContent, "data/a.txt".to_string(), Some(1)),
            (MatchKind::FileContent, "data/a.txt".to_string(), Some(3)),
            (MatchKind::DirName, "data/aa".to_string(), None),
            (MatchKind::FileContent, "data/aa/c".to_string(), Some(1)),
        ]
    );
}

#[test]
fn max_depth_zero_visits_only_the_direct_entries_of_the_root() {
    let config = SearchConfig::new("foo".to_string(), SearchMode::All, false, true, true, false, Some(0));
    let matchers = compile(&config).expect("a literal compiles");
    let items = vec![
        dir("root/foo", "foo", 0),
        file("root/foo.txt", "foo.txt", 0, b"foo\n"),
        dir("root/foo/foo", "foo", 1),
        file("root/foo/foo.txt", "foo.txt", 1, b"foo\n"),
        file("root/foo/foo/foo", "foo", 2, b"foo\n"),
    ];
    let outcome = search_entries(&config, &matchers, &items);
    assert_eq!(outcome.processed, 2);
    assert_eq!(
        described(&outcome.matches),
        vec![
            (MatchKind::DirName, "root/foo".to_string(), None),
            (MatchKind::FileName, "root/foo.txt".to_string(), None),
            (MatchKind::FileContent, "root/foo.txt".to_string(), Some(1)),
        ]
    );

    let deeper = SearchConfig::new("foo".to_string(), SearchMode::All, false, true, true, false, Some(1));
    let outcome = search_entries(&deeper, &matchers, &items);
    assert_eq!(outcome.processed, 4);
    assert_eq!(outcome.found, 6);
}

#[test]
fn aggregator_stays_consistent() {
    let mut aggregator = Aggregator::new();
    assert!(aggregator.is_consistent());
    aggregator.note_processed();
    assert!(aggregator.is_consistent());
    aggregator.record_matches(vec![MatchRecord::file_name("a"), MatchRecord::dir_name("b")]);
    assert!(aggregator.is_consistent());
    aggregator.record_visit(vec![MatchRecord::content("c", 1, "t".to_string())]);
    assert!(aggregator.is_consistent());
    assert_eq!((aggregator.processed(), aggregator.found()), (2, 3));
}
