//! Append-only, order-preserving log of past (source, result) pairs,
//! newest first, with suppression of adjacent duplicate submissions and an
//! optional capacity bound enforced by eviction from the oldest end.

use vstd::prelude::*;
use crate::bytes::bytes_eq;
use crate::outcome::{ExecutionResult, ResultView};

verus! {

/// One past submission: the source that was run, the normalized result,
/// and a monotonic index assigned when the entry was appended. Never
/// mutated after insertion.
#[derive(Debug, PartialEq, Eq)]
pub struct HistoryEntry {
    /// Monotonic position in the submission order; later appends get
    /// strictly larger indices, and eviction never reuses one.
    pub sequence_index: u64,
    /// The submitted source text, byte for byte.
    pub source: Vec<u8>,
    /// The result the caller was handed for this submission.
    pub result: ExecutionResult,
}

/// Mathematical value of a [`HistoryEntry`].
pub struct EntryView {
    /// Monotonic position in the submission order.
    pub sequence_index: int,
    /// The submitted source text.
    pub source: Seq<u8>,
    /// The result the caller was handed.
    pub result: ResultView,
}

impl DeepView for HistoryEntry {
    type V = EntryView;

    open spec fn deep_view(&self) -> EntryView {
        EntryView {
            sequence_index: self.sequence_index as int,
            source: self.source@,
            result: self.result@,
        }
    }
}

/// Mathematical value of a [`HistoryStore`]: the logged entries newest
/// first, the index the next appended entry will receive, and the optional
/// capacity bound.
pub struct StoreView {
    /// The log, newest entry first.
    pub entries: Seq<EntryView>,
    /// The sequence index the next new entry will be assigned.
    pub next_index: int,
    /// Most entries kept at once; `None` means unbounded.
    pub capacity: Option<usize>,
}

/// A well-formed store: the next index is fresh and non-negative, indices
/// strictly decrease from the newest entry to the oldest, no two adjacent
/// entries hold the same source (the dedup invariant), and a configured
/// capacity bound is respected.
pub open spec fn store_wf(s: StoreView) -> bool {
    &&& 0 <= s.next_index
    &&& forall|i: int| 0 <= i < s.entries.len() ==> #[trigger] s.entries[i].sequence_index < s.next_index
    &&& forall|i: int|
        0 <= i && i + 1 < s.entries.len() ==> #[trigger] s.entries[i].sequence_index > s.entries[i + 1].sequence_index
    &&& forall|i: int|
        0 <= i && i + 1 < s.entries.len() ==> #[trigger] s.entries[i].source != s.entries[i + 1].source
    &&& match s.capacity {
        Some(c) => s.entries.len() <= c,
        None => true,
    }
}

/// What one `append` does to a store: if the newest entry holds the same
/// source, byte for byte, the store is unchanged; otherwise a new entry
/// with the next sequence index is inserted at the head, and, if a capacity
/// bound is configured and now exceeded, the oldest entry is evicted.
pub open spec fn append_spec(s: StoreView, source: Seq<u8>, result: ResultView) -> StoreView {
    if s.entries.len() > 0 && s.entries[0].source == source {
        s
    } else {
        let grown = seq![
            EntryView { sequence_index: s.next_index, source, result },
        ] + s.entries;
        let kept = match s.capacity {
            Some(c) => if grown.len() > c {
                grown.take(c as int)
            } else {
                grown
            },
            None => grown,
        };
        StoreView { entries: kept, next_index: s.next_index + 1, capacity: s.capacity }
    }
}

/// The append-only execution log. Owned by the engine; the presentation
/// layer only reads it.
pub struct HistoryStore {
    entries: Vec<HistoryEntry>,
    next_index: u64,
    capacity: Option<usize>,
}

impl View for HistoryStore {
    type V = StoreView;

    closed spec fn view(&self) -> StoreView {
        StoreView {
            entries: self.entries.deep_view(),
            next_index: self.next_index as int,
            capacity: self.capacity,
        }
    }
}

impl HistoryStore {
    /// An empty log. `capacity` bounds how many entries are kept at once;
    /// `None` keeps every entry.
    pub fn new(capacity: Option<usize>) -> (r: HistoryStore)
        ensures
            r@ == (StoreView { entries: Seq::<EntryView>::empty(), next_index: 0int, capacity }),
            store_wf(r@),
    {
        let r = HistoryStore { entries: Vec::new(), next_index: 0, capacity };
        proof {
            assert(r@.entries =~= Seq::<EntryView>::empty());
        }
        r
    }

    /// How many entries the log currently holds.
    pub fn len(&self) -> (n: usize)
        ensures
            n == self@.entries.len(),
    {
        self.entries.len()
    }

    /// The sequence index the next new entry will be assigned.
    pub fn next_index(&self) -> (r: u64)
        ensures
            r == self@.next_index,
    {
        self.next_index
    }

    /// The logged entries, newest first. Re-reading yields the same
    /// snapshot until the next append.
    pub fn entries(&self) -> (r: &Vec<HistoryEntry>)
        ensures
            r.deep_view() == self@.entries,
    {
        &self.entries
    }

    /// Appends one (source, result) pair, unless the newest entry already
    /// holds the same source, byte for byte, in which case nothing changes.
    pub fn append(&mut self, source: Vec<u8>, result: ExecutionResult)
        requires
            store_wf(old(self)@),
            old(self)@.next_index < u64::MAX as int,
        ensures
            final(self)@ == append_spec(old(self)@, source@, result@),
            store_wf(final(self)@),
    {
        if self.entries.len() > 0 && bytes_eq(&self.entries[0].source, &source) {
            return;
        }
        let ghost pre = self@;
        let entry = HistoryEntry { sequence_index: self.next_index, source, result };
        self.entries.insert(0, entry);
        self.next_index = self.next_index + 1;
        proof {
            assert(self@.entries =~= seq![entry.deep_view()] + pre.entries);
        }
        let ghost grown = self@;
        if let Some(c) = self.capacity {
            if self.entries.len() > c {
                self.entries.truncate(c);
                proof {
                    assert(self@.entries =~= grown.entries.take(c as int));
                }
            }
        }
        proof {
            assert(self@ == append_spec(pre, entry.deep_view().source, entry.deep_view().result));
        }
    }
}

/// Submitting the same source twice in a row grows the log by at most one
/// entry: the first append either inserts or is suppressed, and the second
/// finds the same source at the head (or an empty log that a zero capacity
/// keeps empty) and leaves the entries exactly as the first left them,
/// whatever the two results were.
pub proof fn lemma_append_adjacent_dedup(
    s: StoreView,
    source: Seq<u8>,
    r1: ResultView,
    r2: ResultView,
)
    ensures
        append_spec(append_spec(s, source, r1), source, r2).entries == append_spec(
            s,
            source,
            r1,
        ).entries,
        append_spec(s, source, r1).entries.len() <= s.entries.len() + 1,
{
    let s1 = append_spec(s, source, r1);
    if s.entries.len() > 0 && s.entries[0].source == source {
        assert(s1 == s);
    } else {
        match s.capacity {
            Some(c) => {
                if c == 0 {
                    assert(s1.entries =~= Seq::<EntryView>::empty());
                    assert(append_spec(s1, source, r2).entries =~= Seq::<EntryView>::empty());
                } else {
                    assert(s1.entries[0].source == source);
                }
            },
            None => {
                assert(s1.entries[0].source == source);
            },
        }
    }
}

} // verus!
