//! Resource ceilings for one execution attempt, and the limiter that
//! enforces them while a run is in flight.

use vstd::prelude::*;

verus! {

/// Ceilings under which one execution attempt runs. Set once at engine
/// construction; every run is bounded by the same limits.
#[derive(Clone, Copy, PartialEq, Eq, Structural, Debug)]
pub struct ExecutionLimits {
    /// Longest a run may stay in flight, in milliseconds of wall-clock time.
    pub max_wall_time_ms: u64,
    /// Most memory a run may hold, in bytes.
    pub max_memory_bytes: u64,
    /// Most bytes of stdout and stderr together that are captured.
    pub max_output_bytes: usize,
}

/// Which ceiling a run broke.
#[derive(Clone, Copy, PartialEq, Eq, Structural, Debug)]
pub enum LimitViolation {
    /// The run exceeded the wall-clock ceiling.
    TimedOut,
    /// The run exceeded the memory ceiling.
    MemoryExceeded,
    /// The run produced more output than is captured.
    OutputTruncated,
}

/// The limiter's answer to one poll: either the run may continue, or it
/// names the first ceiling found broken.
#[derive(Clone, Copy, PartialEq, Eq, Structural, Debug)]
pub enum Verdict {
    /// Every ceiling holds; the run may continue.
    Continue,
    /// A ceiling is broken; the run must be terminated.
    Violation(LimitViolation),
}

/// The verdict [`ResourceLimiter::check`] returns for the given
/// measurements: a wall-clock overrun is reported first, then a memory
/// overrun, then an output overrun; otherwise the run continues.
pub open spec fn check_spec(
    l: ExecutionLimits,
    elapsed_ms: u64,
    memory_bytes: u64,
    output_bytes: usize,
) -> Verdict {
    if elapsed_ms > l.max_wall_time_ms {
        Verdict::Violation(LimitViolation::TimedOut)
    } else if memory_bytes > l.max_memory_bytes {
        Verdict::Violation(LimitViolation::MemoryExceeded)
    } else if output_bytes > l.max_output_bytes {
        Verdict::Violation(LimitViolation::OutputTruncated)
    } else {
        Verdict::Continue
    }
}

/// Applies a fixed set of [`ExecutionLimits`] to the measurements the
/// sandbox reports while a run is in flight. Holds no mutable state of its
/// own; the verdict is a pure function of the limits and the measurements.
pub struct ResourceLimiter {
    /// The ceilings this limiter enforces.
    pub limits: ExecutionLimits,
}

impl ResourceLimiter {
    /// A limiter that enforces exactly the given ceilings.
    pub fn new(limits: ExecutionLimits) -> (r: ResourceLimiter)
        ensures
            r.limits == limits,
    {
        ResourceLimiter { limits }
    }

    /// One poll of the run's measurements against the ceilings.
    /// The run may continue exactly when no ceiling is exceeded.
    pub fn check(&self, elapsed_ms: u64, memory_bytes: u64, output_bytes: usize) -> (v: Verdict)
        ensures
            v == check_spec(self.limits, elapsed_ms, memory_bytes, output_bytes),
            v == Verdict::Continue <==> {
                &&& elapsed_ms <= self.limits.max_wall_time_ms
                &&& memory_bytes <= self.limits.max_memory_bytes
                &&& output_bytes <= self.limits.max_output_bytes
            },
    {
        if elapsed_ms > self.limits.max_wall_time_ms {
            Verdict::Violation(LimitViolation::TimedOut)
        } else if memory_bytes > self.limits.max_memory_bytes {
            Verdict::Violation(LimitViolation::MemoryExceeded)
        } else if output_bytes > self.limits.max_output_bytes {
            Verdict::Violation(LimitViolation::OutputTruncated)
        } else {
            Verdict::Continue
        }
    }
}

} // verus!
