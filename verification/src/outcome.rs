//! The normalized result of one execution attempt, and its mathematical
//! view. All captured text is kept as plain bytes; a presentation layer
//! decides how to render them.

use vstd::prelude::*;
use crate::bytes::clone_bytes;

verus! {

/// Mathematical value of an [`ExecutionResult`]: the same tags over byte
/// sequences. Contracts throughout the crate speak of this view.
pub enum ResultView {
    /// The run finished of its own accord; all of its output was captured.
    Success { stdout: Seq<u8>, stderr: Seq<u8>, return_summary: Seq<u8> },
    /// The run exceeded the wall-clock ceiling and was terminated.
    TimedOut,
    /// The run exceeded the memory ceiling and was terminated.
    MemoryExceeded,
    /// The run produced more output than the ceiling admits; what was
    /// captured up to the ceiling is reported, never silently dropped.
    OutputTruncated { partial_stdout: Seq<u8> },
    /// The sandboxed code raised an unhandled error, or the sandbox itself
    /// failed; the message is whatever the worker reported (empty when the
    /// worker stopped without reporting anything).
    RuntimeFault { message: Seq<u8> },
    /// The submission was rejected before any sandbox work: empty source,
    /// or source longer than the engine's configured maximum.
    InvalidInput,
    /// The host cancelled the run; it was torn down like a limit violation.
    Cancelled,
}

/// The outcome of one execution attempt, produced exactly once per run and
/// immutable thereafter. Exactly one variant describes any run.
#[derive(Debug, PartialEq, Eq)]
pub enum ExecutionResult {
    /// The run finished of its own accord; all of its output was captured.
    Success {
        /// Everything the run wrote to its standard output.
        stdout: Vec<u8>,
        /// Everything the run wrote to its standard error.
        stderr: Vec<u8>,
        /// A short description of the run's final value.
        return_summary: Vec<u8>,
    },
    /// The run exceeded the wall-clock ceiling and was terminated.
    TimedOut,
    /// The run exceeded the memory ceiling and was terminated.
    MemoryExceeded,
    /// The run produced more output than the ceiling admits.
    OutputTruncated {
        /// The captured prefix of the run's standard output.
        partial_stdout: Vec<u8>,
    },
    /// The sandboxed code raised an unhandled error, or the sandbox itself
    /// failed to start or to report.
    RuntimeFault {
        /// The worker's error message; empty when the worker fell silent.
        message: Vec<u8>,
    },
    /// The submission was rejected before any sandbox work.
    InvalidInput,
    /// The host cancelled the run.
    Cancelled,
}

impl View for ExecutionResult {
    type V = ResultView;

    open spec fn view(&self) -> ResultView {
        match self {
            ExecutionResult::Success { stdout, stderr, return_summary } => ResultView::Success {
                stdout: stdout@,
                stderr: stderr@,
                return_summary: return_summary@,
            },
            ExecutionResult::TimedOut => ResultView::TimedOut,
            ExecutionResult::MemoryExceeded => ResultView::MemoryExceeded,
            ExecutionResult::OutputTruncated { partial_stdout } => ResultView::OutputTruncated {
                partial_stdout: partial_stdout@,
            },
            ExecutionResult::RuntimeFault { message } => ResultView::RuntimeFault {
                message: message@,
            },
            ExecutionResult::InvalidInput => ResultView::InvalidInput,
            ExecutionResult::Cancelled => ResultView::Cancelled,
        }
    }
}

/// How many captured bytes a result carries back to the caller.
pub open spec fn captured_len(r: ResultView) -> nat {
    match r {
        ResultView::Success { stdout, stderr, .. } => stdout.len() + stderr.len(),
        ResultView::OutputTruncated { partial_stdout } => partial_stdout.len(),
        _ => 0,
    }
}

impl ExecutionResult {
    /// A copy carrying the same tag and the same bytes; the engine returns
    /// one copy to the caller and hands the other to the history store.
    pub fn duplicate(&self) -> (r: ExecutionResult)
        ensures
            r@ == self@,
    {
        match self {
            ExecutionResult::Success { stdout, stderr, return_summary } => ExecutionResult::Success {
                stdout: clone_bytes(stdout),
                stderr: clone_bytes(stderr),
                return_summary: clone_bytes(return_summary),
            },
            ExecutionResult::TimedOut => ExecutionResult::TimedOut,
            ExecutionResult::MemoryExceeded => ExecutionResult::MemoryExceeded,
            ExecutionResult::OutputTruncated { partial_stdout } => ExecutionResult::OutputTruncated {
                partial_stdout: clone_bytes(partial_stdout),
            },
            ExecutionResult::RuntimeFault { message } => ExecutionResult::RuntimeFault {
                message: clone_bytes(message),
            },
            ExecutionResult::InvalidInput => ExecutionResult::InvalidInput,
            ExecutionResult::Cancelled => ExecutionResult::Cancelled,
        }
    }
}

} // verus!
