//! The execution engine: the single entry point the presentation layer
//! calls. It validates the submitted source, has the sandbox classify the
//! run, hands the result to the history store (subject to the adjacent
//! dedup rule), and returns the same result to the caller.

use vstd::prelude::*;
use crate::history::{
    HistoryEntry, HistoryStore, StoreView, append_spec, lemma_append_adjacent_dedup, store_wf,
};
use crate::limits::ExecutionLimits;
use crate::outcome::{ExecutionResult, ResultView};
use crate::sandbox::{
    EventView, IsolationPolicy, PolicyView, WorkerEvent, init_run, run, run_result_spec,
};

verus! {

/// Mathematical value of an [`Engine`].
pub struct EngineView {
    /// The ceilings every run is bounded by.
    pub limits: ExecutionLimits,
    /// The isolation policy every run is subject to.
    pub policy: PolicyView,
    /// Longest source text the engine accepts, in bytes.
    pub max_source_bytes: usize,
    /// The execution log.
    pub history: StoreView,
}

/// A well-formed engine: its history store is well formed.
pub open spec fn engine_wf(e: EngineView) -> bool {
    store_wf(e.history)
}

/// A submission the engine hands to the sandbox: non-empty, and no longer
/// than the configured maximum. Anything else fails fast with
/// `InvalidInput` and never reaches the sandbox.
pub open spec fn source_valid(e: EngineView, source: Seq<u8>) -> bool {
    0 < source.len() <= e.max_source_bytes
}

/// The result one `submit` returns: `InvalidInput` for a rejected source,
/// whatever the events are; otherwise the sandbox's classification of the
/// worker's trace.
pub open spec fn submit_result_spec(
    e: EngineView,
    source: Seq<u8>,
    events: Seq<EventView>,
) -> ResultView {
    if !source_valid(e, source) {
        ResultView::InvalidInput
    } else {
        run_result_spec(init_run(e.limits, e.policy), events)
    }
}

/// The history after one `submit`: unchanged for a rejected source;
/// otherwise exactly one append attempt with the returned result, which
/// the adjacent dedup rule may make a no-op.
pub open spec fn submit_store_spec(
    e: EngineView,
    source: Seq<u8>,
    events: Seq<EventView>,
) -> StoreView {
    if !source_valid(e, source) {
        e.history
    } else {
        append_spec(e.history, source, submit_result_spec(e, source, events))
    }
}

/// Orchestrates one request end to end and owns the only mutable state of
/// the core, the history store. Limits, policy and maximum source length
/// are fixed at construction and apply uniformly to every run.
pub struct Engine {
    limits: ExecutionLimits,
    policy: IsolationPolicy,
    max_source_bytes: usize,
    history: HistoryStore,
}

impl View for Engine {
    type V = EngineView;

    closed spec fn view(&self) -> EngineView {
        EngineView {
            limits: self.limits,
            policy: self.policy@,
            max_source_bytes: self.max_source_bytes,
            history: self.history@,
        }
    }
}

impl Engine {
    /// An engine with an empty history. `history_capacity` bounds how many
    /// entries the log keeps at once; `None` keeps every entry.
    pub fn new(
        limits: ExecutionLimits,
        policy: IsolationPolicy,
        max_source_bytes: usize,
        history_capacity: Option<usize>,
    ) -> (r: Engine)
        ensures
            r@.limits == limits,
            r@.policy == policy@,
            r@.max_source_bytes == max_source_bytes,
            r@.history == (StoreView {
                entries: Seq::<crate::history::EntryView>::empty(),
                next_index: 0int,
                capacity: history_capacity,
            }),
            engine_wf(r@),
    {
        Engine { limits, policy, max_source_bytes, history: HistoryStore::new(history_capacity) }
    }

    /// The ceilings every run is bounded by.
    pub fn limits(&self) -> (r: ExecutionLimits)
        ensures
            r == self@.limits,
    {
        self.limits
    }

    /// The logged entries, newest first. Re-reading yields the same
    /// snapshot until the next submission.
    pub fn entries(&self) -> (r: &Vec<HistoryEntry>)
        ensures
            r.deep_view() == self@.history.entries,
    {
        self.history.entries()
    }

    /// Whether another submission can still be given a fresh sequence
    /// index; callers test this before [`Engine::submit`].
    pub fn can_submit(&self) -> (r: bool)
        ensures
            r == (self@.history.next_index < u64::MAX as int),
    {
        self.history.next_index() < u64::MAX
    }

    /// How many entries the log currently holds.
    pub fn history_len(&self) -> (n: usize)
        ensures
            n == self@.history.entries.len(),
    {
        self.history.len()
    }

    /// One submission, end to end: an empty or oversized source fails fast
    /// with `InvalidInput` and touches neither sandbox nor history;
    /// otherwise the sandbox classifies the worker's trace, the history
    /// store gets exactly one append attempt with the result (a no-op when
    /// the newest entry holds the same source), and the caller gets the
    /// same result back whether or not the history grew.
    pub fn submit(&mut self, source: Vec<u8>, events: &Vec<WorkerEvent>) -> (r: ExecutionResult)
        requires
            engine_wf(old(self)@),
            old(self)@.history.next_index < u64::MAX as int,
        ensures
            r@ == submit_result_spec(old(self)@, source@, events.deep_view()),
            final(self)@.history == submit_store_spec(old(self)@, source@, events.deep_view()),
            final(self)@.limits == old(self)@.limits,
            final(self)@.policy == old(self)@.policy,
            final(self)@.max_source_bytes == old(self)@.max_source_bytes,
            engine_wf(final(self)@),
    {
        if source.len() == 0 || source.len() > self.max_source_bytes {
            return ExecutionResult::InvalidInput;
        }
        let result = run(self.limits, &self.policy, events);
        let stored = result.duplicate();
        self.history.append(source, stored);
        result
    }
}

/// Submitting the same source twice in a row yields two results but at
/// most one new history entry: the second submission leaves the log's
/// entries exactly as the first left them, whatever the two runs did, and
/// the first grows the log by at most one entry.
pub proof fn lemma_repeat_submission_dedup(
    e: EngineView,
    source: Seq<u8>,
    ev1: Seq<EventView>,
    ev2: Seq<EventView>,
)
    ensures
        submit_store_spec(
            EngineView { history: submit_store_spec(e, source, ev1), ..e },
            source,
            ev2,
        ).entries == submit_store_spec(e, source, ev1).entries,
        submit_store_spec(e, source, ev1).entries.len() <= e.history.entries.len() + 1,
{
    let e2 = EngineView { history: submit_store_spec(e, source, ev1), ..e };
    if source_valid(e, source) {
        lemma_append_adjacent_dedup(
            e.history,
            source,
            submit_result_spec(e, source, ev1),
            submit_result_spec(e2, source, ev2),
        );
    }
}

} // verus!
