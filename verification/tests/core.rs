use exec_core::engine::Engine;
use exec_core::history::HistoryStore;
use exec_core::limits::{ExecutionLimits, LimitViolation, ResourceLimiter, Verdict};
use exec_core::outcome::ExecutionResult;
use exec_core::sandbox::{run, IsolationPolicy, SandboxRequest, SandboxRun, WorkerEvent};
use exec_core::shell::TemplateApp;

fn small_limits() -> ExecutionLimits {
    ExecutionLimits {
        max_wall_time_ms: 1_000,
        max_memory_bytes: 1 << 20,
        max_output_bytes: 64,
    }
}

fn open_policy() -> IsolationPolicy {
    IsolationPolicy {
        scratch_prefix: b"/tmp/scratch/".to_vec(),
        env_whitelist: vec![b"PATH".to_vec()],
    }
}

fn new_engine() -> Engine {
    Engine::new(small_limits(), open_policy(), 1024, None)
}

fn hi_events() -> Vec<WorkerEvent> {
    vec![
        WorkerEvent::StdoutChunk { bytes: b"hi".to_vec() },
        WorkerEvent::Completed { return_summary: b"ok".to_vec() },
    ]
}

#[test]
fn limiter_continue_within_all() {
    let limiter = ResourceLimiter::new(small_limits());
    assert_eq!(limiter.check(0, 0, 0), Verdict::Continue);
}

#[test]
fn limiter_boundary_values_still_continue() {
    let limiter = ResourceLimiter::new(small_limits());
    assert_eq!(limiter.check(1_000, 1 << 20, 64), Verdict::Continue);
}

#[test]
fn limiter_reports_time_first() {
    let limiter = ResourceLimiter::new(small_limits());
    assert_eq!(
        limiter.check(1_001, u64::MAX, usize::MAX),
        Verdict::Violation(LimitViolation::TimedOut)
    );
}

#[test]
fn limiter_reports_memory_before_output() {
    let limiter = ResourceLimiter::new(small_limits());
    assert_eq!(
        limiter.check(5, (1 << 20) + 1, usize::MAX),
        Verdict::Violation(LimitViolation::MemoryExceeded)
    );
}

#[test]
fn limiter_reports_output_violation() {
    let limiter = ResourceLimiter::new(small_limits());
    assert_eq!(
        limiter.check(5, 7, 65),
        Verdict::Violation(LimitViolation::OutputTruncated)
    );
}

#[test]
fn submit_empty_source_is_invalid_input() {
    let mut engine = new_engine();
    let result = engine.submit(Vec::new(), &hi_events());
    assert_eq!(result, ExecutionResult::InvalidInput);
    assert_eq!(engine.history_len(), 0);
}

#[test]
fn submit_oversized_source_is_invalid_input() {
    let mut engine = Engine::new(small_limits(), open_policy(), 4, None);
    let result = engine.submit(b"abcde".to_vec(), &hi_events());
    assert_eq!(result, ExecutionResult::InvalidInput);
    assert_eq!(engine.history_len(), 0);
}

#[test]
fn submit_twice_returns_two_successes_one_entry() {
    let mut engine = new_engine();
    let source = b"print('hi')".to_vec();
    let expected = ExecutionResult::Success {
        stdout: b"hi".to_vec(),
        stderr: Vec::new(),
        return_summary: b"ok".to_vec(),
    };
    let first = engine.submit(source.clone(), &hi_events());
    let second = engine.submit(source.clone(), &hi_events());
    assert_eq!(first, expected);
    assert_eq!(second, expected);
    assert_eq!(engine.history_len(), 1);
    assert_eq!(engine.entries()[0].source, source);
}

#[test]
fn nonadjacent_duplicates_make_new_entries() {
    let mut engine = new_engine();
    engine.submit(b"a".to_vec(), &hi_events());
    engine.submit(b"b".to_vec(), &hi_events());
    engine.submit(b"a".to_vec(), &hi_events());
    assert_eq!(engine.history_len(), 3);
    assert_eq!(engine.entries()[0].source, b"a".to_vec());
    assert_eq!(engine.entries()[1].source, b"b".to_vec());
    assert_eq!(engine.entries()[2].source, b"a".to_vec());
}

#[test]
fn entries_are_newest_first_with_monotonic_indices() {
    let mut engine = new_engine();
    engine.submit(b"one".to_vec(), &hi_events());
    engine.submit(b"two".to_vec(), &hi_events());
    let entries = engine.entries();
    assert_eq!(entries.len(), 2);
    assert_eq!(entries[0].source, b"two".to_vec());
    assert_eq!(entries[1].source, b"one".to_vec());
    assert!(entries[0].sequence_index > entries[1].sequence_index);
    assert_eq!(engine.limits(), small_limits());
}

#[test]
fn capacity_bound_evicts_oldest() {
    let mut engine = Engine::new(small_limits(), open_policy(), 1024, Some(2));
    engine.submit(b"a".to_vec(), &hi_events());
    engine.submit(b"b".to_vec(), &hi_events());
    engine.submit(b"c".to_vec(), &hi_events());
    let entries = engine.entries();
    assert_eq!(entries.len(), 2);
    assert_eq!(entries[0].source, b"c".to_vec());
    assert_eq!(entries[1].source, b"b".to_vec());
}

#[test]
fn history_append_dedups_only_adjacent_head() {
    let mut store = HistoryStore::new(None);
    store.append(b"x".to_vec(), ExecutionResult::TimedOut);
    store.append(b"x".to_vec(), ExecutionResult::Cancelled);
    assert_eq!(store.len(), 1);
    assert_eq!(store.entries()[0].result, ExecutionResult::TimedOut);
}

#[test]
fn forever_loop_times_out() {
    let mut engine = new_engine();
    let events = vec![
        WorkerEvent::Poll {
            elapsed_ms: 500,
            memory_bytes: 10,
        },
        WorkerEvent::Poll {
            elapsed_ms: 1_200,
            memory_bytes: 10,
        },
    ];
    let result = engine.submit(b"loop {}".to_vec(), &events);
    assert_eq!(result, ExecutionResult::TimedOut);
    assert_eq!(engine.history_len(), 1);
}

#[test]
fn memory_overrun_is_reported() {
    let mut engine = new_engine();
    let events = vec![WorkerEvent::Poll {
        elapsed_ms: 5,
        memory_bytes: (1 << 20) + 1,
    }];
    let result = engine.submit(b"big".to_vec(), &events);
    assert_eq!(result, ExecutionResult::MemoryExceeded);
}

#[test]
fn cancellation_is_distinguishable() {
    let mut engine = new_engine();
    let events = vec![
        WorkerEvent::StdoutChunk { bytes: b"a".to_vec() },
        WorkerEvent::CancelRequested,
    ];
    let result = engine.submit(b"work".to_vec(), &events);
    assert_eq!(result, ExecutionResult::Cancelled);
}

#[test]
fn fault_carries_worker_message() {
    let mut engine = new_engine();
    let events = vec![WorkerEvent::Fault {
        message: b"division by zero".to_vec(),
    }];
    let result = engine.submit(b"1/0".to_vec(), &events);
    assert_eq!(
        result,
        ExecutionResult::RuntimeFault {
            message: b"division by zero".to_vec()
        }
    );
}

#[test]
fn silent_worker_is_a_sandbox_fault() {
    let mut engine = new_engine();
    let result = engine.submit(b"anything".to_vec(), &Vec::new());
    assert_eq!(result, ExecutionResult::RuntimeFault { message: Vec::new() });
}

#[test]
fn overproduction_is_truncated_not_success() {
    let limits = ExecutionLimits {
        max_wall_time_ms: 1_000,
        max_memory_bytes: 1 << 20,
        max_output_bytes: 4,
    };
    let events = vec![
        WorkerEvent::StdoutChunk { bytes: b"ab".to_vec() },
        WorkerEvent::StderrChunk { bytes: b"c".to_vec() },
        WorkerEvent::StdoutChunk { bytes: b"xyz".to_vec() },
        WorkerEvent::Completed { return_summary: b"ok".to_vec() },
    ];
    let result = run(limits, &open_policy(), &events);
    assert_eq!(
        result,
        ExecutionResult::OutputTruncated {
            partial_stdout: b"abx".to_vec()
        }
    );
}

#[test]
fn stderr_overflow_reports_captured_stdout() {
    let limits = ExecutionLimits {
        max_wall_time_ms: 1_000,
        max_memory_bytes: 1 << 20,
        max_output_bytes: 3,
    };
    let events = vec![
        WorkerEvent::StdoutChunk { bytes: b"ab".to_vec() },
        WorkerEvent::StderrChunk { bytes: b"cd".to_vec() },
    ];
    let result = run(limits, &open_policy(), &events);
    assert_eq!(
        result,
        ExecutionResult::OutputTruncated {
            partial_stdout: b"ab".to_vec()
        }
    );
}

#[test]
fn success_captures_all_output_exactly() {
    let events = vec![
        WorkerEvent::StdoutChunk { bytes: b"hel".to_vec() },
        WorkerEvent::StderrChunk { bytes: b"er".to_vec() },
        WorkerEvent::StdoutChunk { bytes: b"lo".to_vec() },
        WorkerEvent::StderrChunk { bytes: b"r".to_vec() },
        WorkerEvent::Completed { return_summary: b"done".to_vec() },
    ];
    let result = run(small_limits(), &open_policy(), &events);
    assert_eq!(
        result,
        ExecutionResult::Success {
            stdout: b"hello".to_vec(),
            stderr: b"err".to_vec(),
            return_summary: b"done".to_vec(),
        }
    );
}

#[test]
fn events_after_completion_are_ignored() {
    let events = vec![
        WorkerEvent::Completed { return_summary: b"ok".to_vec() },
        WorkerEvent::StdoutChunk { bytes: b"late".to_vec() },
        WorkerEvent::Fault { message: b"late".to_vec() },
    ];
    let result = run(small_limits(), &open_policy(), &events);
    assert_eq!(
        result,
        ExecutionResult::Success {
            stdout: Vec::new(),
            stderr: Vec::new(),
            return_summary: b"ok".to_vec(),
        }
    );
}

#[test]
fn policy_allows_write_only_under_scratch() {
    let policy = open_policy();
    assert!(policy.allows(&SandboxRequest::WriteFile {
        path: b"/tmp/scratch/out.txt".to_vec()
    }));
    assert!(!policy.allows(&SandboxRequest::WriteFile {
        path: b"/etc/passwd".to_vec()
    }));
}

#[test]
fn policy_denies_network_always() {
    assert!(!open_policy().allows(&SandboxRequest::NetworkConnect));
}

#[test]
fn policy_allows_only_whitelisted_env() {
    let policy = open_policy();
    assert!(policy.allows(&SandboxRequest::ReadEnv {
        name: b"PATH".to_vec()
    }));
    assert!(!policy.allows(&SandboxRequest::ReadEnv {
        name: b"HOME".to_vec()
    }));
}

#[test]
fn sandbox_step_denies_escaping_write_and_run_goes_on() {
    let mut sandbox = SandboxRun::begin(small_limits(), open_policy());
    let denied = sandbox.step(&WorkerEvent::Request {
        request: SandboxRequest::WriteFile {
            path: b"/home/user/.ssh/config".to_vec(),
        },
    });
    assert!(!denied);
    assert!(sandbox.is_running());
    let allowed = sandbox.step(&WorkerEvent::Request {
        request: SandboxRequest::WriteFile {
            path: b"/tmp/scratch/a".to_vec(),
        },
    });
    assert!(allowed);
    sandbox.step(&WorkerEvent::Completed {
        return_summary: b"ok".to_vec(),
    });
    assert!(!sandbox.is_running());
    assert_eq!(
        sandbox.into_result(),
        ExecutionResult::Success {
            stdout: Vec::new(),
            stderr: Vec::new(),
            return_summary: b"ok".to_vec(),
        }
    );
}

#[test]
fn torn_down_while_running_is_a_fault() {
    let sandbox = SandboxRun::begin(small_limits(), open_policy());
    assert_eq!(
        sandbox.into_result(),
        ExecutionResult::RuntimeFault { message: Vec::new() }
    );
}

#[test]
fn result_duplicate_is_equal() {
    let result = ExecutionResult::Success {
        stdout: b"out".to_vec(),
        stderr: b"err".to_vec(),
        return_summary: b"sum".to_vec(),
    };
    assert_eq!(result.duplicate(), result);
}

#[test]
fn template_app_executes_current_code() {
    let mut app = TemplateApp::new(small_limits(), open_policy(), 1024, None);
    app.set_code(b"print('hi')".to_vec());
    let result = app.execute(&hi_events());
    assert_eq!(
        result,
        ExecutionResult::Success {
            stdout: b"hi".to_vec(),
            stderr: Vec::new(),
            return_summary: b"ok".to_vec(),
        }
    );
    assert_eq!(app.displayed_output(), &b"print('hi')".to_vec());
    assert_eq!(app.code(), &b"print('hi')".to_vec());
    assert_eq!(app.history_entries().len(), 1);
}

#[test]
fn template_app_repeat_execute_keeps_one_entry() {
    let mut app = TemplateApp::new(small_limits(), open_policy(), 1024, None);
    app.set_code(b"print('hi')".to_vec());
    app.execute(&hi_events());
    app.execute(&hi_events());
    assert_eq!(app.history_entries().len(), 1);
    app.set_code(b"other".to_vec());
    app.execute(&hi_events());
    assert_eq!(app.history_entries().len(), 2);
}

#[test]
fn template_app_rejects_empty_buffer() {
    let mut app = TemplateApp::new(small_limits(), open_policy(), 1024, None);
    let result = app.execute(&hi_events());
    assert_eq!(result, ExecutionResult::InvalidInput);
    assert_eq!(app.history_entries().len(), 0);
}
