//! The result aggregator: the store of all matches with the two progress
//! counters, and the traversal of a sequence of yielded entries.

use vstd::prelude::*;
use crate::config::SearchConfig;
use crate::pattern::CompiledMatchers;
use crate::record::{views, MatchRecord, MatchView};
use crate::visit::{visit_entry, visit_views, Content, Entry};

verus! {

/// How many processed entries lie between two progress reports.
pub const PROGRESS_INTERVAL: usize = 200;

/// What the traversal yields: an entry with what was read of its content, or
/// the failure to read one.
#[derive(Debug, Clone)]
pub enum WalkItem {
    Found(Entry, Content),
    Failed(String),
}

/// A snapshot of the counters for the progress display.
#[derive(Debug, Clone, Copy, PartialEq, Eq, Structural)]
pub struct Progress {
    pub position: u64,
    pub found: usize,
}

/// The drained matches with the final counters.
#[derive(Debug, Clone)]
pub struct SearchOutcome {
    pub matches: Vec<MatchRecord>,
    pub processed: usize,
    pub found: usize,
}

/// The matches recorded so far, the number of entries processed and the
/// number of matches found. Each counter only grows.
pub struct Aggregator {
    records: Vec<MatchRecord>,
    processed: usize,
    found: usize,
}

/// Whether a progress report is due once `count` entries are processed: at
/// the first entry and then at every multiple of the interval.
pub open spec fn progress_is_due(count: usize) -> bool {
    count % PROGRESS_INTERVAL == 0 || count == 1
}

/// A counter after one more entry: it stops at the largest `usize` rather
/// than fall back.
pub open spec fn counted_up(count: usize) -> usize {
    if count < usize::MAX {
        (count + 1) as usize
    } else {
        usize::MAX
    }
}

/// The report that is due at a visit, if any.
pub open spec fn progress_at(processed: usize, found: usize) -> Option<Progress> {
    if progress_is_due(processed) {
        Some(Progress { position: processed as u64, found })
    } else {
        None
    }
}

/// Tells whether a progress report is due once `count` entries are
/// processed.
pub fn progress_due(count: usize) -> (b: bool)
    ensures
        b == progress_is_due(count),
{
    count % PROGRESS_INTERVAL == 0 || count == 1
}

impl Aggregator {
    /// The records in the store, in the order of their arrival.
    pub closed spec fn stored(&self) -> Seq<MatchView> {
        views(self.records@)
    }

    pub closed spec fn processed_count(&self) -> usize {
        self.processed
    }

    pub closed spec fn found_count(&self) -> usize {
        self.found
    }

    /// Every stored record was counted as found, and every match counted is
    /// in the store.
    pub closed spec fn wf(&self) -> bool {
        self.found == self.records@.len()
    }

    /// Tests the invariant.
    pub fn is_consistent(&self) -> (b: bool)
        ensures
            b == self.wf(),
    {
        self.found == self.records.len()
    }

    /// In a well-formed aggregator the found counter is the size of the
    /// store.
    pub proof fn found_is_stored(&self)
        requires
            self.wf(),
        ensures
            self.found_count() == self.stored().len(),
    {
    }

    pub fn new() -> (aggregator: Aggregator)
        ensures
            aggregator.wf(),
            aggregator.stored() == Seq::<MatchView>::empty(),
            aggregator.processed_count() == 0,
            aggregator.found_count() == 0,
    {
        let aggregator = Aggregator { records: Vec::new(), processed: 0, found: 0 };
        assert(aggregator.stored() =~= Seq::<MatchView>::empty());
        aggregator
    }

    pub fn processed(&self) -> (count: usize)
        ensures
            count == self.processed_count(),
    {
        self.processed
    }

    pub fn found(&self) -> (count: usize)
        ensures
            count == self.found_count(),
    {
        self.found
    }

    /// Counts one more processed entry and returns the new count.
    pub fn note_processed(&mut self) -> (count: usize)
        requires
            old(self).wf(),
        ensures
            final(self).wf(),
            final(self).processed_count() == counted_up(old(self).processed_count()),
            final(self).processed_count() >= old(self).processed_count(),
            count == final(self).processed_count(),
            final(self).found_count() == old(self).found_count(),
            final(self).stored() == old(self).stored(),
    {
        if self.processed < usize::MAX {
            self.processed = self.processed + 1;
        }
        self.processed
    }

    /// Appends a batch of matches to the store and adds their number to the
    /// found counter.
    pub fn record_matches(&mut self, batch: Vec<MatchRecord>)
        requires
            old(self).wf(),
        ensures
            final(self).wf(),
            final(self).stored() == old(self).stored() + views(batch@),
            final(self).found_count() == old(self).found_count() + batch@.len(),
            final(self).processed_count() == old(self).processed_count(),
    {
        let mut batch = batch;
        let ghost added = batch@;
        self.records.append(&mut batch);
        self.found = self.records.len();
        assert(views(self.records@) =~= views(old(self).records@) + views(added));
    }

    /// Records the visit of one entry: counts the entry as processed, stores
    /// its matches, and returns the progress report where one is due. The
    /// report shows the matches found before this visit.
    pub fn record_visit(&mut self, batch: Vec<MatchRecord>) -> (progress: Option<Progress>)
        requires
            old(self).wf(),
        ensures
            final(self).wf(),
            final(self).processed_count() == counted_up(old(self).processed_count()),
            final(self).stored() == old(self).stored() + views(batch@),
            final(self).found_count() == old(self).found_count() + batch@.len(),
            progress == progress_at(final(self).processed_count(), old(self).found_count()),
    {
        let count = self.note_processed();
        let progress = if progress_due(count) {
            Some(Progress { position: count as u64, found: self.found })
        } else {
            None
        };
        self.record_matches(batch);
        progress
    }

    /// Hands out the store and the final counters. The aggregator is used
    /// up, so a store is drained once.
    pub fn drain(self) -> (outcome: SearchOutcome)
        requires
            self.wf(),
        ensures
            views(outcome.matches@) == self.stored(),
            outcome.matches@.len() == self.found_count(),
            outcome.found == self.found_count(),
            outcome.processed == self.processed_count(),
    {
        SearchOutcome { matches: self.records, processed: self.processed, found: self.found }
    }
}

/// Whether a yielded item is visited: it is an entry, and it lies within the
/// maximum depth.
pub open spec fn is_visited(config: &SearchConfig, item: &WalkItem) -> bool {
    match item {
        WalkItem::Found(entry, _) => config.admits_depth(entry.depth),
        WalkItem::Failed(_) => false,
    }
}

/// The records that one yielded item gives.
pub open spec fn item_views(config: &SearchConfig, matchers: &CompiledMatchers, item: &WalkItem) -> Seq<
    MatchView,
> {
    match item {
        WalkItem::Found(entry, content) => if config.admits_depth(entry.depth) {
            visit_views(config, matchers, entry, content)
        } else {
            Seq::<MatchView>::empty()
        },
        WalkItem::Failed(_) => Seq::<MatchView>::empty(),
    }
}

/// The records of a sequence of yielded items, item after item.
pub open spec fn search_views(
    config: &SearchConfig,
    matchers: &CompiledMatchers,
    items: Seq<WalkItem>,
) -> Seq<MatchView>
    decreases items.len(),
{
    if items.len() == 0 {
        Seq::<MatchView>::empty()
    } else {
        search_views(config, matchers, items.drop_last()) + item_views(
            config,
            matchers,
            &items.last(),
        )
    }
}

/// How many of the yielded items are visited.
pub open spec fn visited_count(config: &SearchConfig, items: Seq<WalkItem>) -> nat
    decreases items.len(),
{
    if items.len() == 0 {
        0
    } else {
        visited_count(config, items.drop_last()) + if is_visited(config, &items.last()) {
            1nat
        } else {
            0nat
        }
    }
}

/// The sum, over the yielded items, of the number of matches that the visit
/// of each found.
pub open spec fn found_total(
    config: &SearchConfig,
    matchers: &CompiledMatchers,
    items: Seq<WalkItem>,
) -> nat
    decreases items.len(),
{
    if items.len() == 0 {
        0
    } else {
        found_total(config, matchers, items.drop_last()) + item_views(
            config,
            matchers,
            &items.last(),
        ).len()
    }
}

/// How many of the yielded items are left out before a visit: the failed
/// ones and the entries beyond the maximum depth.
pub open spec fn skipped_count(config: &SearchConfig, items: Seq<WalkItem>) -> nat
    decreases items.len(),
{
    if items.len() == 0 {
        0
    } else {
        skipped_count(config, items.drop_last()) + if is_visited(config, &items.last()) {
            0nat
        } else {
            1nat
        }
    }
}

/// The visited items are the yielded items less the ones left out, so the
/// processed counter of a traversal is the one number less the other.
pub proof fn visited_is_yielded_less_skipped(config: &SearchConfig, items: Seq<WalkItem>)
    ensures
        visited_count(config, items) == items.len() - skipped_count(config, items),
        visited_count(config, items) <= items.len(),
    decreases items.len(),
{
    if items.len() > 0 {
        visited_is_yielded_less_skipped(config, items.drop_last());
    }
}

/// The number of records of a traversal is the sum of the numbers that its
/// visits found: no record without an increment, no increment without a
/// record.
pub proof fn records_equal_found_increments(
    config: &SearchConfig,
    matchers: &CompiledMatchers,
    items: Seq<WalkItem>,
)
    ensures
        search_views(config, matchers, items).len() == found_total(config, matchers, items),
    decreases items.len(),
{
    if items.len() > 0 {
        records_equal_found_increments(config, matchers, items.drop_last());
    }
}

/// Traverses the yielded items in order with one worker: every entry within
/// the maximum depth is visited and counted exactly once, failed items are
/// skipped, and the matches of all visits are drained at the end.
pub fn search_entries(config: &SearchConfig, matchers: &CompiledMatchers, items: &Vec<WalkItem>) -> (outcome:
    SearchOutcome)
    ensures
        views(outcome.matches@) == search_views(config, matchers, items@),
        outcome.processed == visited_count(config, items@),
        outcome.processed == items@.len() - skipped_count(config, items@),
        outcome.found == found_total(config, matchers, items@),
        outcome.found == outcome.matches@.len(),
{
    let mut aggregator = Aggregator::new();
    let mut i: usize = 0;
    while i < items.len()
        invariant
            i <= items@.len(),
            aggregator.wf(),
            aggregator.stored() == search_views(config, matchers, items@.take(i as int)),
            aggregator.processed_count() == visited_count(config, items@.take(i as int)),
            aggregator.found_count() == found_total(config, matchers, items@.take(i as int)),
        decreases items@.len() - i,
    {
        proof {
            assert(items@.take(i + 1).drop_last() =~= items@.take(i as int));
            assert(items@.take(i + 1).last() == items@[i as int]);
            visited_is_yielded_less_skipped(config, items@.take(i as int));
        }
        match &items[i] {
            WalkItem::Found(entry, content) => {
                if config.within_depth(entry.depth) {
                    let visit = visit_entry(config, matchers, entry, content);
                    let _ = aggregator.record_visit(visit.matches);
                }
            },
            WalkItem::Failed(_) => {},
        }
        i = i + 1;
    }
    proof {
        assert(items@.take(i as int) =~= items@);
        visited_is_yielded_less_skipped(config, items@);
    }
    aggregator.drain()
}

} // verus!
