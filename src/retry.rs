use vstd::prelude::*;
use vstd::arithmetic::power::pow;
use vstd::string::*;
use crate::model_error::{ModelError, ModelErrorRetryOptions};
use crate::text::{decimal, usize_to_decimal};

verus! {

/// What one attempt of the retried operation came to.
#[derive(Debug)]
pub enum Outcome {
    /// The operation returned its value.
    Success,
    /// The operation failed with an error that is not a `ModelError`.
    Unclassified,
    /// The operation failed with a `ModelError`.
    Classified(ModelError),
}

/// What the driver does next.
#[derive(Debug)]
pub enum RetryAction {
    /// Hand the operation's value to the caller.
    ReturnSuccess,
    /// Hand the operation's error to the caller as it is.
    PropagateUnchanged,
    /// Fail with `error`, the rendering of a fatal `ModelError`.
    Fail { error: String },
    /// Report `message`, `delay_ns` and `attempt` to the observer, sleep
    /// `delay_ns` nanoseconds, then run the operation again.
    Retry { message: String, delay_ns: u128, attempt: usize },
    /// Report `message`, `delay_ns` and `attempt` to the observer, sleep
    /// `delay_ns` nanoseconds, emit an error diagnostic (with `request_id`
    /// when there is one), then fail with `error`: the retry budget is spent.
    GiveUp {
        message: String,
        delay_ns: u128,
        attempt: usize,
        error: String,
        request_id: Option<String>,
    },
}

/// A `RetryAction` over mathematical values.
pub enum ActionView {
    ReturnSuccess,
    PropagateUnchanged,
    Fail(Seq<char>),
    Retry(Seq<char>, int, nat),
    GiveUp(Seq<char>, int, nat, Seq<char>, Option<Seq<char>>),
}

/// The longest delay a `std::time::Duration` holds, in nanoseconds.
pub const MAX_DELAY_NS: u128 = 18446744073709551615999999999;

/// The driver's memory within one call: how many retries were taken and the
/// last delay slept, in nanoseconds, if any.
#[derive(Debug, Clone, Copy, PartialEq, Eq, Structural)]
pub struct RetryState {
    pub attempts: usize,
    pub sleep_ns: Option<u128>,
}

/// The delay before the next retry: the base delay first, then the previous
/// delay times the factor.
pub open spec fn next_delay(prev: Option<int>, opts: ModelErrorRetryOptions) -> int {
    match prev {
        None => opts.sleep_ns as int,
        Some(b) => b * opts.factor as int,
    }
}

/// The state after one more retryable failure.
pub open spec fn retry_step(s: (nat, Option<int>), opts: ModelErrorRetryOptions) -> (nat, Option<int>) {
    (s.0 + 1, Some(next_delay(s.1, opts)))
}

/// Whether, in state `s`, the budget of `opts` is spent.
pub open spec fn budget_spent(s: (nat, Option<int>), opts: ModelErrorRetryOptions) -> bool {
    s.0 > opts.retries
}

/// The state after `k` consecutive retryable failures with the same options,
/// from a fresh state.
pub open spec fn after_failures(opts: ModelErrorRetryOptions, k: nat) -> (nat, Option<int>)
    decreases k,
{
    if k == 0 {
        (0, None)
    } else {
        retry_step(after_failures(opts, (k - 1) as nat), opts)
    }
}

/// The error reported once the budget is spent.
pub open spec fn exhausted_message(retries: usize, e: &ModelError) -> Seq<char> {
    "Too many retries ("@ + decimal(retries as nat) + "): "@ + e.rendering()
}

pub open spec fn opt_text(o: Option<String>) -> Option<Seq<char>> {
    match o {
        Some(s) => Some(s@),
        None => None,
    }
}

/// One decision: the state and action that follow outcome `o` in state `s`.
pub open spec fn step(s: (nat, Option<int>), o: Outcome) -> ((nat, Option<int>), ActionView) {
    match o {
        Outcome::Success => (s, ActionView::ReturnSuccess),
        Outcome::Unclassified => (s, ActionView::PropagateUnchanged),
        Outcome::Classified(e) => match e.retryable {
            None => (s, ActionView::Fail(e.rendering())),
            Some(opts) => {
                let post = retry_step(s, opts);
                if budget_spent(post, opts) {
                    (
                        post,
                        ActionView::GiveUp(
                            e.message@,
                            next_delay(s.1, opts),
                            post.0,
                            exhausted_message(opts.retries, &e),
                            opt_text(e.request_id),
                        ),
                    )
                } else {
                    (post, ActionView::Retry(e.message@, next_delay(s.1, opts), post.0))
                }
            },
        },
    }
}

/// Whether the counters stay within their machine types when outcome `o`
/// comes in state `s`: the attempt count fits a `usize` and the delay fits a
/// `Duration`.
pub open spec fn fits_in(s: (nat, Option<int>), o: Outcome) -> bool {
    match o {
        Outcome::Classified(e) => match e.retryable {
            Some(opts) => s.0 < usize::MAX && next_delay(s.1, opts) <= MAX_DELAY_NS,
            None => true,
        },
        _ => true,
    }
}

/// The actions the driver takes, in order, when the operation's outcomes are
/// `os`, from state `s`: it goes on after each `Retry` and stops at any other
/// action.
pub open spec fn run(s: (nat, Option<int>), os: Seq<Outcome>) -> Seq<ActionView>
    decreases os.len(),
{
    if os.len() == 0 {
        seq![]
    } else {
        let (post, a) = step(s, os[0]);
        if a is Retry {
            seq![a] + run(post, os.drop_first())
        } else {
            seq![a]
        }
    }
}

/// Whether every step of `run(s, os)` stays within the machine types.
pub open spec fn run_fits(s: (nat, Option<int>), os: Seq<Outcome>) -> bool
    decreases os.len(),
{
    os.len() == 0 || (fits_in(s, os[0]) && (step(s, os[0]).1 is Retry ==> run_fits(
        step(s, os[0]).0,
        os.drop_first(),
    )))
}

impl RetryAction {
    pub open spec fn view(&self) -> ActionView {
        match self {
            RetryAction::ReturnSuccess => ActionView::ReturnSuccess,
            RetryAction::PropagateUnchanged => ActionView::PropagateUnchanged,
            RetryAction::Fail { error } => ActionView::Fail(error@),
            RetryAction::Retry { message, delay_ns, attempt } => ActionView::Retry(
                message@,
                *delay_ns as int,
                *attempt as nat,
            ),
            RetryAction::GiveUp { message, delay_ns, attempt, error, request_id } =>
                ActionView::GiveUp(
                message@,
                *delay_ns as int,
                *attempt as nat,
                error@,
                opt_text(*request_id),
            ),
        }
    }
}

impl RetryState {
    pub open spec fn view(&self) -> (nat, Option<int>) {
        (
            self.attempts as nat,
            match self.sleep_ns {
                Some(d) => Some(d as int),
                None => None,
            },
        )
    }

    /// Whether taking outcome `o` keeps the counters within their machine types.
    pub open spec fn fits(&self, o: &Outcome) -> bool {
        fits_in(self@, *o)
    }

    /// The state of a call that has not failed yet.
    pub fn new() -> (r: RetryState)
        ensures
            r@ == (0nat, None::<int>),
            r.attempts == 0,
            r.sleep_ns is None,
    {
        RetryState { attempts: 0, sleep_ns: None }
    }

    /// Whether `on_outcome` can take `o` in this state.
    pub fn can_take(&self, o: &Outcome) -> (r: bool)
        ensures
            r == self.fits(o),
    {
        match o {
            Outcome::Classified(e) => match e.retryable {
                Some(opts) => {
                    if self.attempts == usize::MAX {
                        false
                    } else {
                        match self.sleep_ns {
                            None => opts.sleep_ns <= MAX_DELAY_NS,
                            Some(b) => match b.checked_mul(opts.factor as u128) {
                                Some(d) => d <= MAX_DELAY_NS,
                                None => false,
                            },
                        }
                    }
                },
                None => true,
            },
            _ => true,
        }
    }

    /// Decides what follows outcome `o`, and records a retryable failure.
    pub fn on_outcome(&mut self, o: &Outcome) -> (a: RetryAction)
        requires
            old(self).fits(o),
        ensures
            (final(self)@, a@) == step(old(self)@, *o),
    {
        match o {
            Outcome::Success => RetryAction::ReturnSuccess,
            Outcome::Unclassified => RetryAction::PropagateUnchanged,
            Outcome::Classified(e) => match e.retryable {
                None => RetryAction::Fail { error: e.to_string() },
                Some(opts) => {
                    self.attempts = self.attempts + 1;
                    let delay: u128 = match self.sleep_ns {
                        None => opts.sleep_ns,
                        Some(b) => b * (opts.factor as u128),
                    };
                    self.sleep_ns = Some(delay);
                    if self.attempts > opts.retries {
                        let request_id = match &e.request_id {
                            Some(r) => Some(r.clone()),
                            None => None,
                        };
                        let error = String::from_str("Too many retries (").concat(
                            usize_to_decimal(opts.retries).as_str(),
                        ).concat("): ").concat(e.to_string().as_str());
                        RetryAction::GiveUp {
                            message: e.message.clone(),
                            delay_ns: delay,
                            attempt: self.attempts,
                            error,
                            request_id,
                        }
                    } else {
                        RetryAction::Retry {
                            message: e.message.clone(),
                            delay_ns: delay,
                            attempt: self.attempts,
                        }
                    }
                },
            },
        }
    }
}

/// Against an operation that keeps failing with the same retryable error, the
/// `k`-th failure is retry number `k`, waits `sleep_ns * factor^(k-1)`, and
/// spends the budget exactly when `k` exceeds `retries`: the driver retries
/// after failures `1..=retries` and gives up at failure `retries + 1`, so the
/// operation runs `retries + 1` times and the observer sees `retries + 1`
/// delays.
pub proof fn lemma_backoff_schedule(opts: ModelErrorRetryOptions, k: nat)
    requires
        k >= 1,
    ensures
        after_failures(opts, k).0 == k,
        after_failures(opts, k).1 == Some(opts.sleep_ns * pow(opts.factor as int, (k - 1) as nat)),
        budget_spent(after_failures(opts, k), opts) <==> k > opts.retries,
    decreases k,
{
    reveal(pow);
    if k > 1 {
        lemma_backoff_schedule(opts, (k - 1) as nat);
        let p = pow(opts.factor as int, (k - 2) as nat);
        assert(pow(opts.factor as int, (k - 1) as nat) == opts.factor * p);
        assert((opts.sleep_ns * p) * opts.factor == opts.sleep_ns * (opts.factor * p))
            by (nonlinear_arith);
    } else {
        assert(after_failures(opts, 0) == (0nat, None::<int>));
    }
}

/// The action on the `n`-th consecutive failure with error `e`, whose retry
/// options are `opts`.
pub open spec fn failure_action(e: ModelError, opts: ModelErrorRetryOptions, n: nat) -> ActionView {
    let delay = opts.sleep_ns * pow(opts.factor as int, (n - 1) as nat);
    if n > opts.retries {
        ActionView::GiveUp(
            e.message@,
            delay,
            n,
            exhausted_message(opts.retries, &e),
            opt_text(e.request_id),
        )
    } else {
        ActionView::Retry(e.message@, delay, n)
    }
}

/// Whether every delay the budget of `opts` allows fits a `Duration`.
pub open spec fn delays_fit(opts: ModelErrorRetryOptions) -> bool {
    forall|i: nat| i <= opts.retries ==> opts.sleep_ns * #[trigger] pow(opts.factor as int, i)
        <= MAX_DELAY_NS
}

proof fn lemma_failing_run_from(e: ModelError, os: Seq<Outcome>, k: nat)
    requires
        e.retryable is Some,
        k <= e.retryable.unwrap().retries,
        e.retryable.unwrap().retries < usize::MAX,
        delays_fit(e.retryable.unwrap()),
        os.len() >= e.retryable.unwrap().retries + 1 - k,
        forall|i: int| 0 <= i < os.len() ==> os[i] == Outcome::Classified(e),
    ensures
        run(after_failures(e.retryable.unwrap(), k), os).len() == e.retryable.unwrap().retries
            + 1 - k,
        forall|j: int|
            0 <= j < e.retryable.unwrap().retries + 1 - k ==> run(
                after_failures(e.retryable.unwrap(), k),
                os,
            )[j] == failure_action(e, e.retryable.unwrap(), (k + j + 1) as nat),
        run_fits(after_failures(e.retryable.unwrap(), k), os),
    decreases e.retryable.unwrap().retries - k,
{
    let opts = e.retryable.unwrap();
    let s = after_failures(opts, k);
    lemma_backoff_schedule(opts, k + 1);
    assert(os[0] == Outcome::Classified(e));
    assert(after_failures(opts, k + 1) == retry_step(s, opts));
    assert(opts.sleep_ns * pow(opts.factor as int, k) <= MAX_DELAY_NS);
    assert(step(s, os[0]).1 == failure_action(e, opts, k + 1));
    if k < opts.retries {
        let rest = os.drop_first();
        lemma_failing_run_from(e, rest, k + 1);
        let r = run(s, os);
        assert(r == seq![step(s, os[0]).1] + run(after_failures(opts, k + 1), rest));
        assert forall|j: int| 0 <= j < opts.retries + 1 - k implies r[j] == failure_action(
            e,
            opts,
            (k + j + 1) as nat,
        ) by {
            if j > 0 {
                assert(r[j] == run(after_failures(opts, k + 1), rest)[j - 1]);
            }
        }
    }
}

/// Against an operation that always fails with the same retryable error,
/// whose every delay fits a `Duration`, the driver runs the operation
/// `retries + 1` times. After failure `n` it reports attempt `n` with a delay
/// of `sleep_ns * factor^(n-1)`, retrying while `n <= retries` and giving up
/// at `n = retries + 1`; no step overflows.
pub proof fn lemma_always_failing_run(e: ModelError, os: Seq<Outcome>)
    requires
        e.retryable is Some,
        e.retryable.unwrap().retries < usize::MAX,
        delays_fit(e.retryable.unwrap()),
        os.len() >= e.retryable.unwrap().retries + 1,
        forall|i: int| 0 <= i < os.len() ==> os[i] == Outcome::Classified(e),
    ensures
        run((0nat, None::<int>), os).len() == e.retryable.unwrap().retries + 1,
        forall|j: int|
            0 <= j <= e.retryable.unwrap().retries ==> run((0nat, None::<int>), os)[j]
                == failure_action(e, e.retryable.unwrap(), (j + 1) as nat),
        run_fits((0nat, None::<int>), os),
{
    lemma_failing_run_from(e, os, 0);
}

/// An operation that fails twice with retryable errors, whose budgets allow
/// both retries, and then succeeds: the driver reports two retries, the second
/// delay grown by the second error's factor, and returns the success.
pub proof fn lemma_two_failures_then_success(e1: ModelError, e2: ModelError, os: Seq<Outcome>)
    requires
        os == seq![Outcome::Classified(e1), Outcome::Classified(e2), Outcome::Success],
        e1.retryable is Some,
        e2.retryable is Some,
        e1.retryable.unwrap().retries >= 1,
        e2.retryable.unwrap().retries >= 2,
        e1.retryable.unwrap().sleep_ns * e2.retryable.unwrap().factor <= MAX_DELAY_NS,
        e1.retryable.unwrap().sleep_ns <= MAX_DELAY_NS,
    ensures
        run((0nat, None::<int>), os) == seq![
            ActionView::Retry(e1.message@, e1.retryable.unwrap().sleep_ns as int, 1),
            ActionView::Retry(
                e2.message@,
                e1.retryable.unwrap().sleep_ns * e2.retryable.unwrap().factor,
                2,
            ),
            ActionView::ReturnSuccess,
        ],
        run_fits((0nat, None::<int>), os),
{
    let s0 = (0nat, None::<int>);
    let s1 = step(s0, os[0]).0;
    let s2 = step(s1, os[1]).0;
    let os1 = os.drop_first();
    let os2 = os1.drop_first();
    assert(os1 == seq![Outcome::Classified(e2), Outcome::Success]);
    assert(os2 == seq![Outcome::Success]);
    assert(os2.drop_first().len() == 0);
    assert(run(s2, os2) == seq![ActionView::ReturnSuccess]);
    assert(run(s1, os1) == seq![step(s1, os1[0]).1] + run(s2, os2));
    assert(run(s0, os) == seq![step(s0, os[0]).1] + run(s1, os1));
    assert(run_fits(s2, os2));
    assert(run_fits(s1, os1));
}

} // verus!
