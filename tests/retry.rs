use providers::{ModelError, ModelErrorRetryOptions, Outcome, RetryAction, RetryState, MAX_DELAY_NS};

const MS: u128 = 1_000_000;

/// What a run of the decision machine came to.
struct Run {
    invocations: usize,
    hook: Vec<(String, u128, usize)>,
    slept: Vec<u128>,
    end: RetryAction,
}

/// Runs the driver's loop against `attempt`, which gives the outcome of the
/// n-th invocation (counting from 1).
fn drive(mut attempt: impl FnMut(usize) -> Outcome) -> Run {
    let mut state = RetryState::new();
    let mut run = Run { invocations: 0, hook: Vec::new(), slept: Vec::new(), end: RetryAction::ReturnSuccess };
    loop {
        run.invocations += 1;
        let outcome = attempt(run.invocations);
        assert!(state.can_take(&outcome));
        match state.on_outcome(&outcome) {
            RetryAction::Retry { message, delay_ns, attempt } => {
                run.hook.push((message, delay_ns, attempt));
                run.slept.push(delay_ns);
            }
            RetryAction::GiveUp { message, delay_ns, attempt, error, request_id } => {
                run.hook.push((message.clone(), delay_ns, attempt));
                run.slept.push(delay_ns);
                run.end = RetryAction::GiveUp { message, delay_ns, attempt, error, request_id };
                return run;
            }
            other => {
                run.end = other;
                return run;
            }
        }
    }
}

fn retryable(message: &str, sleep_ns: u128, factor: u32, retries: usize) -> Outcome {
    Outcome::Classified(ModelError {
        message: message.to_string(),
        retryable: Some(ModelErrorRetryOptions { sleep_ns, factor, retries }),
        request_id: None,
    })
}

fn fatal(message: &str) -> Outcome {
    Outcome::Classified(ModelError { message: message.to_string(), retryable: None, request_id: None })
}

#[test]
fn always_failing_follows_geometric_schedule() {
    for (d, f, r) in [(100 * MS, 2u32, 3usize), (7, 3, 5), (50, 1, 4), (1, 10, 0), (0, 5, 2)] {
        let run = drive(|_| retryable("busy", d, f, r));
        assert_eq!(run.invocations, r + 1);
        assert_eq!(run.hook.len(), r + 1);
        for (i, (message, delay, attempt)) in run.hook.iter().enumerate() {
            assert_eq!(message, "busy");
            assert_eq!(*delay, d * (f as u128).pow(i as u32));
            assert_eq!(*attempt, i + 1);
        }
        assert_eq!(run.slept, run.hook.iter().map(|h| h.1).collect::<Vec<_>>());
        assert!(matches!(run.end, RetryAction::GiveUp { .. }));
    }
}

#[test]
fn zero_budget_logs_one_retry_then_gives_up() {
    let run = drive(|_| retryable("busy", 250, 2, 0));
    assert_eq!(run.invocations, 1);
    assert_eq!(run.hook, vec![("busy".to_string(), 250, 1)]);
    match run.end {
        RetryAction::GiveUp { error, .. } => {
            assert_eq!(error, "Too many retries (0): [model_error(retryable=true)] busy")
        }
        _ => panic!("expected the budget to be spent"),
    }
}

#[test]
fn succeeds_on_third_attempt() {
    let run = drive(|n| if n < 3 { retryable("flaky", 10, 2, 5) } else { Outcome::Success });
    assert_eq!(run.invocations, 3);
    assert_eq!(
        run.hook,
        vec![("flaky".to_string(), 10, 1), ("flaky".to_string(), 20, 2)]
    );
    assert!(matches!(run.end, RetryAction::ReturnSuccess));
}

#[test]
fn fatal_error_fails_at_once() {
    let run = drive(|_| fatal("bad request"));
    assert_eq!(run.invocations, 1);
    assert!(run.hook.is_empty());
    assert!(run.slept.is_empty());
    match run.end {
        RetryAction::Fail { error } => {
            assert_eq!(error, "[model_error(retryable=false)] bad request")
        }
        _ => panic!("expected a fatal failure"),
    }
}

#[test]
fn unclassified_error_propagates_unchanged() {
    let run = drive(|_| Outcome::Unclassified);
    assert_eq!(run.invocations, 1);
    assert!(run.hook.is_empty());
    assert!(run.slept.is_empty());
    assert!(matches!(run.end, RetryAction::PropagateUnchanged));
}

#[test]
fn hundred_ms_doubling_budget_three() {
    let run = drive(|_| retryable("rate limited", 100 * MS, 2, 3));
    let attempts: Vec<usize> = run.hook.iter().map(|h| h.2).collect();
    let delays: Vec<u128> = run.hook.iter().map(|h| h.1).collect();
    assert_eq!(attempts, vec![1, 2, 3, 4]);
    assert_eq!(delays, vec![100 * MS, 200 * MS, 400 * MS, 800 * MS]);
    assert_eq!(run.invocations, 4);
    match run.end {
        RetryAction::GiveUp { error, delay_ns, attempt, .. } => {
            assert_eq!(error, "Too many retries (3): [model_error(retryable=true)] rate limited");
            assert_eq!(delay_ns, 800 * MS);
            assert_eq!(attempt, 4);
        }
        _ => panic!("expected the budget to be spent"),
    }
}

#[test]
fn give_up_carries_request_id() {
    let run = drive(|_| {
        Outcome::Classified(ModelError {
            message: "overloaded".to_string(),
            retryable: Some(ModelErrorRetryOptions { sleep_ns: 5, factor: 1, retries: 12345 }),
            request_id: Some("req-42".to_string()),
        })
    });
    assert_eq!(run.invocations, 12346);
    match run.end {
        RetryAction::GiveUp { request_id, error, .. } => {
            assert_eq!(request_id, Some("req-42".to_string()));
            assert!(error.starts_with("Too many retries (12345): "));
        }
        _ => panic!("expected the budget to be spent"),
    }
}

#[test]
fn factor_one_keeps_delay_constant() {
    let run = drive(|_| retryable("busy", 30, 1, 2));
    assert_eq!(run.slept, vec![30, 30, 30]);
}

#[test]
fn model_error_rendering() {
    let e = ModelError {
        message: "timeout".to_string(),
        retryable: Some(ModelErrorRetryOptions { sleep_ns: 1, factor: 2, retries: 3 }),
        request_id: None,
    };
    assert_eq!(e.to_string(), "[model_error(retryable=true)] timeout");
    let f = ModelError { message: String::new(), retryable: None, request_id: None };
    assert_eq!(f.to_string(), "[model_error(retryable=false)] ");
}

#[test]
fn delay_overflow_is_detected() {
    let mut state = RetryState::new();
    let big = retryable("busy", MAX_DELAY_NS / 2 + 1, 2, 10);
    assert!(state.can_take(&big));
    state.on_outcome(&big);
    assert_eq!(state.sleep_ns, Some(MAX_DELAY_NS / 2 + 1));
    assert!(!state.can_take(&big));
    let too_long = retryable("busy", MAX_DELAY_NS + 1, 2, 10);
    assert!(!RetryState::new().can_take(&too_long));
    let longest = retryable("busy", MAX_DELAY_NS, 1, 10);
    assert!(RetryState::new().can_take(&longest));
    assert!(state.can_take(&fatal("x")));
    assert!(state.can_take(&Outcome::Success));
}

#[test]
fn success_leaves_state_unchanged() {
    let mut state = RetryState::new();
    state.on_outcome(&retryable("busy", 4, 3, 9));
    let before = state;
    assert!(matches!(state.on_outcome(&Outcome::Success), RetryAction::ReturnSuccess));
    assert_eq!(state, before);
    assert_eq!(state.attempts, 1);
    assert_eq!(state.sleep_ns, Some(4));
}

#[test]
fn sub_millisecond_delays_are_kept() {
    let run = drive(|_| retryable("busy", 1_500_000, 2, 2));
    assert_eq!(run.slept, vec![1_500_000, 3_000_000, 6_000_000]);
    let run = drive(|_| retryable("busy", 500_000, 3, 1));
    assert_eq!(run.slept, vec![500_000, 1_500_000]);
}

#[test]
fn delays_beyond_u64_milliseconds_are_taken() {
    let base = (u64::MAX as u128) * MS / 4;
    let run = drive(|_| retryable("busy", base, 2, 1));
    assert_eq!(run.slept, vec![base, base * 2]);
}
