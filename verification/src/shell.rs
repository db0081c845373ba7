//! The caller-visible handle a presentation layer drives: the code buffer
//! being edited, the text shown for the last execution, and the engine that
//! owns the execution history. Any UI toolkit can sit on top of it.

use vstd::prelude::*;
use crate::engine::{
    Engine, EngineView, engine_wf, submit_result_spec, submit_store_spec,
};
use crate::history::HistoryEntry;
use crate::limits::ExecutionLimits;
use crate::bytes::clone_bytes;
use crate::outcome::ExecutionResult;
use crate::sandbox::{IsolationPolicy, WorkerEvent};

verus! {

/// Mathematical value of a [`TemplateApp`].
pub struct AppView {
    /// The source text currently in the editor buffer.
    pub code: Seq<u8>,
    /// The text the shell shows for the most recent execution.
    pub displayed_output: Seq<u8>,
    /// The engine, with its limits, policy and history.
    pub engine: EngineView,
}

/// The application model: an editable code buffer, the text displayed for
/// the last execution, and the engine. It exposes only submit-and-read
/// operations, so the presentation layer never mutates the history itself.
pub struct TemplateApp {
    code: Vec<u8>,
    displayed_output: Vec<u8>,
    engine: Engine,
}

impl View for TemplateApp {
    type V = AppView;

    closed spec fn view(&self) -> AppView {
        AppView {
            code: self.code@,
            displayed_output: self.displayed_output@,
            engine: self.engine@,
        }
    }
}

impl TemplateApp {
    /// A fresh shell: empty buffers and an engine with an empty history.
    pub fn new(
        limits: ExecutionLimits,
        policy: IsolationPolicy,
        max_source_bytes: usize,
        history_capacity: Option<usize>,
    ) -> (r: TemplateApp)
        ensures
            r@.code == Seq::<u8>::empty(),
            r@.displayed_output == Seq::<u8>::empty(),
            r@.engine.limits == limits,
            r@.engine.policy == policy@,
            r@.engine.max_source_bytes == max_source_bytes,
            r@.engine.history.entries == Seq::<crate::history::EntryView>::empty(),
            r@.engine.history.next_index == 0,
            r@.engine.history.capacity == history_capacity,
            engine_wf(r@.engine),
    {
        let r = TemplateApp {
            code: Vec::new(),
            displayed_output: Vec::new(),
            engine: Engine::new(limits, policy, max_source_bytes, history_capacity),
        };
        proof {
            assert(r@.code =~= Seq::<u8>::empty());
            assert(r@.displayed_output =~= Seq::<u8>::empty());
        }
        r
    }

    /// The source text currently in the editor buffer.
    pub fn code(&self) -> (r: &Vec<u8>)
        ensures
            r@ == self@.code,
    {
        &self.code
    }

    /// Replaces the editor buffer; nothing else changes.
    pub fn set_code(&mut self, code: Vec<u8>)
        ensures
            final(self)@ == (AppView { code: code@, ..old(self)@ }),
    {
        self.code = code;
    }

    /// The text the shell shows for the most recent execution.
    pub fn displayed_output(&self) -> (r: &Vec<u8>)
        ensures
            r@ == self@.displayed_output,
    {
        &self.displayed_output
    }

    /// The execution log, newest entry first.
    pub fn history_entries(&self) -> (r: &Vec<HistoryEntry>)
        ensures
            r.deep_view() == self@.engine.history.entries,
    {
        self.engine.entries()
    }

    /// Whether another execution can still be logged; callers test this
    /// before [`TemplateApp::execute`].
    pub fn can_execute(&self) -> (r: bool)
        ensures
            r == (self@.engine.history.next_index < u64::MAX as int),
    {
        self.engine.can_submit()
    }

    /// One press of the execute button: submits the buffer's current text
    /// to the engine against the given worker trace, shows the submitted
    /// text, and hands the engine's result back. The buffer itself is kept.
    pub fn execute(&mut self, events: &Vec<WorkerEvent>) -> (r: ExecutionResult)
        requires
            engine_wf(old(self)@.engine),
            old(self)@.engine.history.next_index < u64::MAX as int,
        ensures
            r@ == submit_result_spec(old(self)@.engine, old(self)@.code, events.deep_view()),
            final(self)@.engine.history == submit_store_spec(
                old(self)@.engine,
                old(self)@.code,
                events.deep_view(),
            ),
            final(self)@.engine.limits == old(self)@.engine.limits,
            final(self)@.engine.policy == old(self)@.engine.policy,
            final(self)@.engine.max_source_bytes == old(self)@.engine.max_source_bytes,
            final(self)@.code == old(self)@.code,
            final(self)@.displayed_output == old(self)@.code,
            engine_wf(final(self)@.engine),
    {
        let source = clone_bytes(&self.code);
        let result = self.engine.submit(source, events);
        self.displayed_output = clone_bytes(&self.code);
        result
    }
}

} // verus!
