//! The sandboxed-run state machine: isolation policy decisions, bounded
//! capture of the worker's output, and classification of every exit path
//! into one [`ExecutionResult`].
//!
//! The worker that actually interprets the source lives outside this core;
//! what it observes reaches the machine as a trace of [`WorkerEvent`]s, and
//! every decision taken on that trace is verified here. Capture and limit
//! enforcement are applied the same way whatever the worker reports.

use vstd::prelude::*;
use crate::bytes::{append_prefix, bytes_eq, bytes_prefix, clone_bytes, is_prefix};
use crate::limits::{ExecutionLimits, LimitViolation, ResourceLimiter, Verdict, check_spec};
use crate::outcome::{ExecutionResult, ResultView, captured_len};

verus! {

/// An action the sandboxed code asks to perform on the host. Anything not
/// expressible here is not reachable from inside the sandbox at all.
#[derive(Debug, PartialEq, Eq)]
pub enum SandboxRequest {
    /// Write to the file at the given path.
    WriteFile {
        /// The path the code wants to write, as raw bytes.
        path: Vec<u8>,
    },
    /// Open any network connection.
    NetworkConnect,
    /// Read an environment variable of the host process.
    ReadEnv {
        /// The variable's name, as raw bytes.
        name: Vec<u8>,
    },
}

/// Mathematical value of a [`SandboxRequest`].
pub enum RequestView {
    /// Write to the file at the given path.
    WriteFile { path: Seq<u8> },
    /// Open any network connection.
    NetworkConnect,
    /// Read an environment variable of the host process.
    ReadEnv { name: Seq<u8> },
}

impl DeepView for SandboxRequest {
    type V = RequestView;

    open spec fn deep_view(&self) -> RequestView {
        match self {
            SandboxRequest::WriteFile { path } => RequestView::WriteFile { path: path@ },
            SandboxRequest::NetworkConnect => RequestView::NetworkConnect,
            SandboxRequest::ReadEnv { name } => RequestView::ReadEnv { name: name@ },
        }
    }
}

/// Mathematical value of an [`IsolationPolicy`].
pub struct PolicyView {
    /// Paths below this prefix form the run's scratch area.
    pub scratch_prefix: Seq<u8>,
    /// Environment variables the run may read.
    pub env_whitelist: Seq<Seq<u8>>,
}

/// What [`IsolationPolicy::allows`] answers: a file write is allowed
/// exactly when its path lies under the scratch prefix, a network
/// connection never, an environment read exactly when the name is
/// whitelisted.
pub open spec fn policy_allows(p: PolicyView, r: RequestView) -> bool {
    match r {
        RequestView::WriteFile { path } => is_prefix(p.scratch_prefix, path),
        RequestView::NetworkConnect => false,
        RequestView::ReadEnv { name } => exists|i: int|
            0 <= i < p.env_whitelist.len() && p.env_whitelist[i] == name,
    }
}

/// What the sandbox denies the code it runs: every filesystem write
/// outside the scratch area, every network connection, and every read of
/// an environment variable that is not explicitly whitelisted.
pub struct IsolationPolicy {
    /// Paths below this prefix form the run's scratch area.
    pub scratch_prefix: Vec<u8>,
    /// Environment variables the run may read.
    pub env_whitelist: Vec<Vec<u8>>,
}

impl View for IsolationPolicy {
    type V = PolicyView;

    open spec fn view(&self) -> PolicyView {
        PolicyView {
            scratch_prefix: self.scratch_prefix@,
            env_whitelist: self.env_whitelist.deep_view(),
        }
    }
}

/// A copy of the policy with the same scratch prefix and whitelist.
pub fn duplicate_policy(p: &IsolationPolicy) -> (r: IsolationPolicy)
    ensures
        r@ == p@,
{
    let scratch_prefix = clone_bytes(&p.scratch_prefix);
    let mut env_whitelist: Vec<Vec<u8>> = Vec::new();
    let n = p.env_whitelist.len();
    let mut i: usize = 0;
    while i < n
        invariant
            i <= n,
            n == p.env_whitelist@.len(),
            env_whitelist@.len() == i,
            forall|j: int| 0 <= j < i ==> #[trigger] env_whitelist@[j]@ == p.env_whitelist@[j]@,
        decreases n - i,
    {
        env_whitelist.push(clone_bytes(&p.env_whitelist[i]));
        i = i + 1;
    }
    let r = IsolationPolicy { scratch_prefix, env_whitelist };
    proof {
        assert forall|j: int| 0 <= j < n implies r@.env_whitelist[j] == p@.env_whitelist[j] by {
            assert(env_whitelist@[j]@ == p.env_whitelist@[j]@);
        }
        assert(r@.env_whitelist =~= p@.env_whitelist);
    }
    r
}

impl IsolationPolicy {
    /// The policy's verdict on one requested action; `true` means the
    /// sandbox performs it, `false` means it is denied outright.
    pub fn allows(&self, request: &SandboxRequest) -> (r: bool)
        ensures
            r == policy_allows(self@, request.deep_view()),
    {
        match request {
            SandboxRequest::WriteFile { path } => bytes_prefix(&self.scratch_prefix, path),
            SandboxRequest::NetworkConnect => false,
            SandboxRequest::ReadEnv { name } => {
                let n = self.env_whitelist.len();
                let mut i: usize = 0;
                while i < n
                    invariant
                        i <= n,
                        n == self.env_whitelist@.len(),
                        request.deep_view() == (RequestView::ReadEnv { name: name@ }),
                        forall|j: int| 0 <= j < i ==> self@.env_whitelist[j] != name@,
                    decreases n - i,
                {
                    proof {
                        assert(self@.env_whitelist[i as int] == self.env_whitelist@[i as int]@);
                    }
                    if bytes_eq(&self.env_whitelist[i], name) {
                        proof {
                            assert(exists|j: int|
                                0 <= j < self@.env_whitelist.len() && self@.env_whitelist[j]
                                    == name@);
                        }
                        return true;
                    }
                    i = i + 1;
                }
                false
            },
        }
    }
}

/// One observation the worker reports to the sandbox while a run is in
/// flight. The trace of these events is all the core ever learns of a run.
#[derive(Debug, PartialEq, Eq)]
pub enum WorkerEvent {
    /// The run wrote bytes to its standard output.
    StdoutChunk {
        /// The bytes written.
        bytes: Vec<u8>,
    },
    /// The run wrote bytes to its standard error.
    StderrChunk {
        /// The bytes written.
        bytes: Vec<u8>,
    },
    /// A watchdog poll: how long the run has been in flight and how much
    /// memory it holds.
    Poll {
        /// Wall-clock time since the run started, in milliseconds.
        elapsed_ms: u64,
        /// Memory the run currently holds, in bytes.
        memory_bytes: u64,
    },
    /// The run asked to perform an action the policy must rule on.
    Request {
        /// The requested action.
        request: SandboxRequest,
    },
    /// The run raised an unhandled error, or the worker itself failed.
    Fault {
        /// The worker's error message.
        message: Vec<u8>,
    },
    /// The run finished of its own accord.
    Completed {
        /// A short description of the run's final value.
        return_summary: Vec<u8>,
    },
    /// The host asked for the run to be torn down.
    CancelRequested,
}

/// Mathematical value of a [`WorkerEvent`].
pub enum EventView {
    /// The run wrote bytes to its standard output.
    StdoutChunk { bytes: Seq<u8> },
    /// The run wrote bytes to its standard error.
    StderrChunk { bytes: Seq<u8> },
    /// A watchdog poll.
    Poll { elapsed_ms: u64, memory_bytes: u64 },
    /// The run asked to perform an action.
    Request { request: RequestView },
    /// The run raised an unhandled error.
    Fault { message: Seq<u8> },
    /// The run finished of its own accord.
    Completed { return_summary: Seq<u8> },
    /// The host asked for the run to be torn down.
    CancelRequested,
}

impl DeepView for WorkerEvent {
    type V = EventView;

    open spec fn deep_view(&self) -> EventView {
        match self {
            WorkerEvent::StdoutChunk { bytes } => EventView::StdoutChunk { bytes: bytes@ },
            WorkerEvent::StderrChunk { bytes } => EventView::StderrChunk { bytes: bytes@ },
            WorkerEvent::Poll { elapsed_ms, memory_bytes } => EventView::Poll {
                elapsed_ms: *elapsed_ms,
                memory_bytes: *memory_bytes,
            },
            WorkerEvent::Request { request } => EventView::Request {
                request: request.deep_view(),
            },
            WorkerEvent::Fault { message } => EventView::Fault { message: message@ },
            WorkerEvent::Completed { return_summary } => EventView::Completed {
                return_summary: return_summary@,
            },
            WorkerEvent::CancelRequested => EventView::CancelRequested,
        }
    }
}

/// Whether the run is still in flight or has already been classified.
pub enum StatusView {
    /// The run is in flight.
    Running,
    /// The run is over; its result never changes afterwards.
    Finished { result: ResultView },
}

/// Mathematical value of a [`SandboxRun`].
pub struct RunView {
    /// The ceilings this run is bounded by.
    pub limits: ExecutionLimits,
    /// The isolation policy this run is subject to.
    pub policy: PolicyView,
    /// Standard output captured so far.
    pub stdout: Seq<u8>,
    /// Standard error captured so far.
    pub stderr: Seq<u8>,
    /// In flight, or finished with a fixed result.
    pub status: StatusView,
}

/// The state a run starts in: empty capture buffers, in flight.
pub open spec fn init_run(limits: ExecutionLimits, policy: PolicyView) -> RunView {
    RunView {
        limits,
        policy,
        stdout: Seq::empty(),
        stderr: Seq::empty(),
        status: StatusView::Running,
    }
}

/// Invariant of every reachable run state: the captured output never
/// exceeds the output ceiling, and a finished result never carries more
/// captured bytes than the ceiling admits.
pub open spec fn run_inv(s: RunView) -> bool {
    &&& s.stdout.len() + s.stderr.len() <= s.limits.max_output_bytes
    &&& match s.status {
        StatusView::Finished { result } => captured_len(result) <= s.limits.max_output_bytes,
        StatusView::Running => true,
    }
}

/// How one event moves the run state. A finished run ignores every further
/// event. An output chunk is captured whole if it fits under the output
/// ceiling, and otherwise captured up to the ceiling, ending the run with
/// `OutputTruncated`. A poll consults the limiter and ends the run on the
/// first broken ceiling. A request leaves the state unchanged (the policy's
/// verdict is the step's reply). A fault, a completion, and a cancellation
/// end the run with the corresponding result.
pub open spec fn step_spec(s: RunView, e: EventView) -> RunView {
    if !(s.status is Running) {
        s
    } else {
        match e {
            EventView::StdoutChunk { bytes } => {
                let total = s.stdout.len() + s.stderr.len();
                if total + bytes.len() <= s.limits.max_output_bytes {
                    RunView { stdout: s.stdout + bytes, ..s }
                } else {
                    let taken = s.stdout + bytes.take(s.limits.max_output_bytes - total);
                    RunView {
                        stdout: taken,
                        status: StatusView::Finished {
                            result: ResultView::OutputTruncated { partial_stdout: taken },
                        },
                        ..s
                    }
                }
            },
            EventView::StderrChunk { bytes } => {
                let total = s.stdout.len() + s.stderr.len();
                if total + bytes.len() <= s.limits.max_output_bytes {
                    RunView { stderr: s.stderr + bytes, ..s }
                } else {
                    RunView {
                        stderr: s.stderr + bytes.take(s.limits.max_output_bytes - total),
                        status: StatusView::Finished {
                            result: ResultView::OutputTruncated { partial_stdout: s.stdout },
                        },
                        ..s
                    }
                }
            },
            EventView::Poll { elapsed_ms, memory_bytes } => {
                match check_spec(
                    s.limits,
                    elapsed_ms,
                    memory_bytes,
                    (s.stdout.len() + s.stderr.len()) as usize,
                ) {
                    Verdict::Continue => s,
                    Verdict::Violation(LimitViolation::TimedOut) => RunView {
                        status: StatusView::Finished { result: ResultView::TimedOut },
                        ..s
                    },
                    Verdict::Violation(LimitViolation::MemoryExceeded) => RunView {
                        status: StatusView::Finished { result: ResultView::MemoryExceeded },
                        ..s
                    },
                    Verdict::Violation(LimitViolation::OutputTruncated) => RunView {
                        status: StatusView::Finished {
                            result: ResultView::OutputTruncated { partial_stdout: s.stdout },
                        },
                        ..s
                    },
                }
            },
            EventView::Request { .. } => s,
            EventView::Fault { message } => RunView {
                status: StatusView::Finished { result: ResultView::RuntimeFault { message } },
                ..s
            },
            EventView::Completed { return_summary } => RunView {
                status: StatusView::Finished {
                    result: ResultView::Success {
                        stdout: s.stdout,
                        stderr: s.stderr,
                        return_summary,
                    },
                },
                ..s
            },
            EventView::CancelRequested => RunView {
                status: StatusView::Finished { result: ResultView::Cancelled },
                ..s
            },
        }
    }
}

/// The step's reply to the worker: for a request, the policy's verdict
/// while the run is in flight (a finished run allows nothing); every other
/// event is simply acknowledged.
pub open spec fn step_reply_spec(s: RunView, e: EventView) -> bool {
    match e {
        EventView::Request { request } => s.status is Running && policy_allows(s.policy, request),
        _ => true,
    }
}

/// One execution attempt in flight: the limiter and policy it is bounded
/// by, the bounded capture buffers, and whether it has finished. The worker
/// that interprets the source is outside the core; it reports what it sees
/// through [`SandboxRun::step`], and this machine takes every decision.
pub struct SandboxRun {
    limiter: ResourceLimiter,
    policy: IsolationPolicy,
    stdout: Vec<u8>,
    stderr: Vec<u8>,
    status: Option<ExecutionResult>,
}

impl View for SandboxRun {
    type V = RunView;

    closed spec fn view(&self) -> RunView {
        RunView {
            limits: self.limiter.limits,
            policy: self.policy@,
            stdout: self.stdout@,
            stderr: self.stderr@,
            status: match self.status {
                Option::None => StatusView::Running,
                Option::Some(r) => StatusView::Finished { result: r@ },
            },
        }
    }
}

impl SandboxRun {
    /// A fresh run under the given ceilings and policy.
    pub fn begin(limits: ExecutionLimits, policy: IsolationPolicy) -> (r: SandboxRun)
        ensures
            r@ == init_run(limits, policy@),
            run_inv(r@),
    {
        let r = SandboxRun {
            limiter: ResourceLimiter::new(limits),
            policy,
            stdout: Vec::new(),
            stderr: Vec::new(),
            status: Option::None,
        };
        proof {
            assert(r@.stdout =~= Seq::<u8>::empty());
            assert(r@.stderr =~= Seq::<u8>::empty());
        }
        r
    }

    /// Whether the run is still in flight.
    pub fn is_running(&self) -> (b: bool)
        ensures
            b == (self@.status is Running),
    {
        self.status.is_none()
    }

    /// Feeds one worker observation to the run. The returned reply matters
    /// only for [`WorkerEvent::Request`]: `true` means the sandbox performs
    /// the action, `false` that it is denied.
    pub fn step(&mut self, event: &WorkerEvent) -> (reply: bool)
        requires
            run_inv(old(self)@),
        ensures
            final(self)@ == step_spec(old(self)@, event.deep_view()),
            run_inv(final(self)@),
            reply == step_reply_spec(old(self)@, event.deep_view()),
    {
        if self.status.is_some() {
            return match event {
                WorkerEvent::Request { .. } => false,
                _ => true,
            };
        }
        match event {
            WorkerEvent::StdoutChunk { bytes } => {
                let total = self.stdout.len() + self.stderr.len();
                let max = self.limiter.limits.max_output_bytes;
                if bytes.len() <= max - total {
                    append_prefix(&mut self.stdout, bytes, bytes.len());
                    proof {
                        assert(bytes@.take(bytes@.len() as int) =~= bytes@);
                    }
                } else {
                    append_prefix(&mut self.stdout, bytes, max - total);
                    let partial = clone_bytes(&self.stdout);
                    self.status = Option::Some(
                        ExecutionResult::OutputTruncated { partial_stdout: partial },
                    );
                }
                true
            },
            WorkerEvent::StderrChunk { bytes } => {
                let total = self.stdout.len() + self.stderr.len();
                let max = self.limiter.limits.max_output_bytes;
                if bytes.len() <= max - total {
                    append_prefix(&mut self.stderr, bytes, bytes.len());
                    proof {
                        assert(bytes@.take(bytes@.len() as int) =~= bytes@);
                    }
                } else {
                    append_prefix(&mut self.stderr, bytes, max - total);
                    let partial = clone_bytes(&self.stdout);
                    self.status = Option::Some(
                        ExecutionResult::OutputTruncated { partial_stdout: partial },
                    );
                }
                true
            },
            WorkerEvent::Poll { elapsed_ms, memory_bytes } => {
                let total = self.stdout.len() + self.stderr.len();
                match self.limiter.check(*elapsed_ms, *memory_bytes, total) {
                    Verdict::Continue => {},
                    Verdict::Violation(LimitViolation::TimedOut) => {
                        self.status = Option::Some(ExecutionResult::TimedOut);
                    },
                    Verdict::Violation(LimitViolation::MemoryExceeded) => {
                        self.status = Option::Some(ExecutionResult::MemoryExceeded);
                    },
                    Verdict::Violation(LimitViolation::OutputTruncated) => {
                        let partial = clone_bytes(&self.stdout);
                        self.status = Option::Some(
                            ExecutionResult::OutputTruncated { partial_stdout: partial },
                        );
                    },
                }
                true
            },
            WorkerEvent::Request { request } => self.policy.allows(request),
            WorkerEvent::Fault { message } => {
                self.status = Option::Some(
                    ExecutionResult::RuntimeFault { message: clone_bytes(message) },
                );
                true
            },
            WorkerEvent::Completed { return_summary } => {
                self.status = Option::Some(
                    ExecutionResult::Success {
                        stdout: clone_bytes(&self.stdout),
                        stderr: clone_bytes(&self.stderr),
                        return_summary: clone_bytes(return_summary),
                    },
                );
                true
            },
            WorkerEvent::CancelRequested => {
                self.status = Option::Some(ExecutionResult::Cancelled);
                true
            },
        }
    }

    /// Tears the run down and hands out its result. A run that is still in
    /// flight — a worker that stopped reporting without any terminal event —
    /// is a sandbox failure, reported as a `RuntimeFault` with an empty
    /// message.
    pub fn into_result(self) -> (r: ExecutionResult)
        ensures
            r@ == (match self@.status {
                StatusView::Finished { result } => result,
                StatusView::Running => ResultView::RuntimeFault { message: Seq::empty() },
            }),
    {
        match self.status {
            Option::Some(result) => result,
            Option::None => {
                let message: Vec<u8> = Vec::new();
                proof {
                    assert(message@ =~= Seq::<u8>::empty());
                }
                ExecutionResult::RuntimeFault { message }
            },
        }
    }
}

/// The run state after a whole trace of events, one step per event.
pub open spec fn run_steps_spec(s: RunView, events: Seq<EventView>) -> RunView
    decreases events.len(),
{
    if events.len() == 0 {
        s
    } else {
        run_steps_spec(step_spec(s, events[0]), events.skip(1))
    }
}

/// The result a run yields on a whole trace: the fixed result it finished
/// with, or a `RuntimeFault` with an empty message when the worker stopped
/// without any terminal event.
pub open spec fn run_result_spec(s: RunView, events: Seq<EventView>) -> ResultView {
    match run_steps_spec(s, events).status {
        StatusView::Finished { result } => result,
        StatusView::Running => ResultView::RuntimeFault { message: Seq::empty() },
    }
}

/// Stepping through a trace extended by one event is one step after the
/// trace.
pub proof fn lemma_run_steps_snoc(s: RunView, events: Seq<EventView>, e: EventView)
    ensures
        run_steps_spec(s, events.push(e)) == step_spec(run_steps_spec(s, events), e),
    decreases events.len(),
{
    if events.len() == 0 {
        assert(events.push(e)[0] == e);
        assert(events.push(e).skip(1) =~= Seq::<EventView>::empty());
        assert(run_steps_spec(s, events.push(e)) == run_steps_spec(
            step_spec(s, e),
            Seq::<EventView>::empty(),
        ));
    } else {
        assert(events.push(e)[0] == events[0]);
        assert(events.push(e).skip(1) =~= events.skip(1).push(e));
        assert(run_steps_spec(s, events.push(e)) == run_steps_spec(
            step_spec(s, events[0]),
            events.skip(1).push(e),
        ));
        lemma_run_steps_snoc(step_spec(s, events[0]), events.skip(1), e);
        assert(run_steps_spec(s, events) == run_steps_spec(
            step_spec(s, events[0]),
            events.skip(1),
        ));
    }
}

/// Once a run has finished, no further event changes it: its result is
/// produced exactly once and immutable thereafter.
pub proof fn lemma_finished_stable(s: RunView, events: Seq<EventView>)
    requires
        s.status is Finished,
    ensures
        run_steps_spec(s, events) == s,
    decreases events.len(),
{
    if events.len() > 0 {
        lemma_finished_stable(s, events.skip(1));
    }
}

/// One step keeps the run invariant.
pub proof fn lemma_step_preserves_inv(s: RunView, e: EventView)
    requires
        run_inv(s),
    ensures
        run_inv(step_spec(s, e)),
{
}

/// A whole trace keeps the run invariant.
pub proof fn lemma_steps_preserve_inv(s: RunView, events: Seq<EventView>)
    requires
        run_inv(s),
    ensures
        run_inv(run_steps_spec(s, events)),
    decreases events.len(),
{
    if events.len() > 0 {
        lemma_step_preserves_inv(s, events[0]);
        lemma_steps_preserve_inv(step_spec(s, events[0]), events.skip(1));
    }
}

/// A whole trace never changes the limits or the policy a run is bounded
/// by, whatever state it starts from.
pub proof fn lemma_steps_preserve_config(s: RunView, events: Seq<EventView>)
    ensures
        run_steps_spec(s, events).limits == s.limits,
        run_steps_spec(s, events).policy == s.policy,
    decreases events.len(),
{
    if events.len() > 0 {
        lemma_steps_preserve_config(step_spec(s, events[0]), events.skip(1));
    }
}

/// Stepping through a whole trace is stepping through a prefix and then
/// through the rest.
pub proof fn lemma_run_steps_split(s: RunView, events: Seq<EventView>, k: int)
    requires
        0 <= k <= events.len(),
    ensures
        run_steps_spec(s, events) == run_steps_spec(
            run_steps_spec(s, events.take(k)),
            events.skip(k),
        ),
    decreases k,
{
    if k == 0 {
        assert(events.take(0) =~= Seq::<EventView>::empty());
        assert(events.skip(0) =~= events);
    } else {
        assert(events.take(k)[0] == events[0]);
        assert(events.take(k).skip(1) =~= events.skip(1).take(k - 1));
        assert(events.skip(k) =~= events.skip(1).skip(k - 1));
        lemma_run_steps_split(step_spec(s, events[0]), events.skip(1), k - 1);
    }
}

/// A poll that reports the wall-clock ceiling broken.
pub open spec fn overdue_poll(e: EventView, limits: ExecutionLimits) -> bool {
    match e {
        EventView::Poll { elapsed_ms, .. } => elapsed_ms > limits.max_wall_time_ms,
        _ => false,
    }
}

/// The watchdog is prompt, in trace terms: the first poll that reports the
/// wall-clock ceiling broken while the run is still in flight decides the
/// run — its result is `TimedOut`, whatever the rest of the trace holds.
pub proof fn lemma_overdue_poll_times_out(s: RunView, events: Seq<EventView>, k: int)
    requires
        0 <= k < events.len(),
        run_steps_spec(s, events.take(k)).status is Running,
        overdue_poll(events[k], s.limits),
    ensures
        run_result_spec(s, events) == ResultView::TimedOut,
{
    let sk = run_steps_spec(s, events.take(k));
    lemma_steps_preserve_config(s, events.take(k));
    let sk1 = step_spec(sk, events[k]);
    assert(sk1.status == (StatusView::Finished { result: ResultView::TimedOut }));
    lemma_run_steps_split(s, events, k);
    assert(events.skip(k).len() > 0);
    assert(events.skip(k)[0] == events[k]);
    assert(events.skip(k).skip(1) =~= events.skip(k + 1));
    assert(run_steps_spec(sk, events.skip(k)) == run_steps_spec(sk1, events.skip(k).skip(1)));
    lemma_finished_stable(sk1, events.skip(k).skip(1));
}

/// The standard output a run writes before it ends of its own accord: the
/// concatenation of every stdout chunk reported before the first fault,
/// completion, or cancellation.
pub open spec fn produced_stdout(events: Seq<EventView>) -> Seq<u8>
    decreases events.len(),
{
    if events.len() == 0 {
        Seq::empty()
    } else {
        match events[0] {
            EventView::StdoutChunk { bytes } => bytes + produced_stdout(events.skip(1)),
            EventView::Fault { .. } => Seq::empty(),
            EventView::Completed { .. } => Seq::empty(),
            EventView::CancelRequested => Seq::empty(),
            _ => produced_stdout(events.skip(1)),
        }
    }
}

/// The standard error a run writes before it ends of its own accord.
pub open spec fn produced_stderr(events: Seq<EventView>) -> Seq<u8>
    decreases events.len(),
{
    if events.len() == 0 {
        Seq::empty()
    } else {
        match events[0] {
            EventView::StderrChunk { bytes } => bytes + produced_stderr(events.skip(1)),
            EventView::Fault { .. } => Seq::empty(),
            EventView::Completed { .. } => Seq::empty(),
            EventView::CancelRequested => Seq::empty(),
            _ => produced_stderr(events.skip(1)),
        }
    }
}

/// The captured output a run reports back never exceeds the output
/// ceiling, whatever the trace holds: a `Success` carries at most
/// `max_output_bytes` of stdout and stderr together, and an
/// `OutputTruncated` at most `max_output_bytes` of partial output.
pub proof fn lemma_result_output_bounded(
    limits: ExecutionLimits,
    policy: PolicyView,
    events: Seq<EventView>,
)
    ensures
        captured_len(run_result_spec(init_run(limits, policy), events))
            <= limits.max_output_bytes,
{
    lemma_steps_preserve_inv(init_run(limits, policy), events);
    lemma_steps_preserve_config(init_run(limits, policy), events);
}

/// A `Success` never hides lost output: whenever a run from state `s`
/// classifies a trace as `Success`, the reported stdout and stderr are
/// exactly what was already captured followed by everything the run
/// produced — a run whose output had to be cut short is never reported as
/// `Success`.
pub proof fn lemma_success_captures_everything(s: RunView, events: Seq<EventView>)
    requires
        s.status is Running,
    ensures
        match run_result_spec(s, events) {
            ResultView::Success { stdout, stderr, .. } => {
                &&& stdout == s.stdout + produced_stdout(events)
                &&& stderr == s.stderr + produced_stderr(events)
            },
            _ => true,
        },
    decreases events.len(),
{
    if events.len() == 0 {
    } else {
        let e = events[0];
        let rest = events.skip(1);
        let s2 = step_spec(s, e);
        match e {
            EventView::StdoutChunk { bytes } => {
                if s.stdout.len() + s.stderr.len() + bytes.len() <= s.limits.max_output_bytes {
                    lemma_success_captures_everything(s2, rest);
                    assert((s.stdout + bytes) + produced_stdout(rest) =~= s.stdout + (bytes
                        + produced_stdout(rest)));
                } else {
                    lemma_finished_stable(s2, rest);
                }
            },
            EventView::StderrChunk { bytes } => {
                if s.stdout.len() + s.stderr.len() + bytes.len() <= s.limits.max_output_bytes {
                    lemma_success_captures_everything(s2, rest);
                    assert((s.stderr + bytes) + produced_stderr(rest) =~= s.stderr + (bytes
                        + produced_stderr(rest)));
                } else {
                    lemma_finished_stable(s2, rest);
                }
            },
            EventView::Poll { .. } => {
                if s2.status is Running {
                    lemma_success_captures_everything(s2, rest);
                } else {
                    lemma_finished_stable(s2, rest);
                }
            },
            EventView::Request { .. } => {
                lemma_success_captures_everything(s2, rest);
            },
            EventView::Fault { .. } => {
                lemma_finished_stable(s2, rest);
            },
            EventView::Completed { .. } => {
                lemma_finished_stable(s2, rest);
                assert(s.stdout + produced_stdout(events) =~= s.stdout);
                assert(s.stderr + produced_stderr(events) =~= s.stderr);
            },
            EventView::CancelRequested => {
                lemma_finished_stable(s2, rest);
            },
        }
    }
}

/// A run that produces more output than the ceiling admits is never
/// classified as `Success`: the outcome is a distinguishable truncation or
/// an earlier violation, never a silently shortened success.
pub proof fn lemma_overproduction_never_success(
    limits: ExecutionLimits,
    policy: PolicyView,
    events: Seq<EventView>,
)
    ensures
        produced_stdout(events).len() + produced_stderr(events).len() > limits.max_output_bytes
            ==> !(run_result_spec(init_run(limits, policy), events) is Success),
{
    let over = produced_stdout(events).len() + produced_stderr(events).len()
        > limits.max_output_bytes;
    if over {
        lemma_success_captures_everything(init_run(limits, policy), events);
        lemma_result_output_bounded(limits, policy, events);
        match run_result_spec(init_run(limits, policy), events) {
            ResultView::Success { stdout, stderr, .. } => {
                assert(stdout =~= produced_stdout(events));
                assert(stderr =~= produced_stderr(events));
            },
            _ => {},
        }
    }
}

/// Runs one execution attempt over the worker's whole event trace and
/// classifies it. The result is a pure function of the limits, the policy
/// and the trace; capture and limit enforcement are applied consistently
/// whatever the trace holds.
pub fn run(limits: ExecutionLimits, policy: &IsolationPolicy, events: &Vec<WorkerEvent>) -> (r:
    ExecutionResult)
    ensures
        r@ == run_result_spec(init_run(limits, policy@), events.deep_view()),
{
    let mut sandbox = SandboxRun::begin(limits, duplicate_policy(policy));
    let ghost init = sandbox@;
    let ghost evs = events.deep_view();
    let n = events.len();
    let mut i: usize = 0;
    while i < n
        invariant
            i <= n,
            n == events@.len(),
            evs == events.deep_view(),
            sandbox@ == run_steps_spec(init, evs.take(i as int)),
            run_inv(sandbox@),
        decreases n - i,
    {
        let _ = sandbox.step(&events[i]);
        proof {
            assert(evs.take(i as int).push(evs[i as int]) =~= evs.take(i + 1 as int));
            lemma_run_steps_snoc(init, evs.take(i as int), evs[i as int]);
        }
        i = i + 1;
    }
    proof {
        assert(evs.take(n as int) =~= evs);
    }
    sandbox.into_result()
}

} // verus!
