//! Retry strategies: each consumes the classifier pipeline's decision, the
//! per-operation attempt state and the shared budget, and produces either
//! "retry after a delay" or "stop, report the final outcome". The orchestrator
//! alone performs the sleep and the re-dispatch; delays here are plain
//! millisecond counts.

use vstd::prelude::*;
use vstd::arithmetic::power2::pow2;
use vstd::arithmetic::power2::lemma_pow2_unfold;
use vstd::arithmetic::power2::lemma2_to64;
use vstd::arithmetic::power2::lemma_pow2_pos;
use vstd::arithmetic::power2::lemma_pow2_strictly_increases;
use vstd::arithmetic::mul::lemma_mul_left_inequality;
use crate::budget::CostTable;
use crate::budget::RetryBudget;
use crate::budget::spec_refill;
use crate::context::AttemptContext;
use crate::context::RetryReason;

verus! {

/// How a computed backoff delay is randomized to avoid synchronized retry
/// storms.
#[derive(Clone, Copy, Debug, PartialEq, Eq, Structural)]
pub enum JitterPolicy {
    /// The exact computed delay.
    NoJitter,
    /// Uniform in `[0, delay]`.
    FullJitter,
    /// `delay/2` plus uniform in `[0, delay/2]`.
    EqualJitter,
}

/// Per-strategy immutable settings, configured once at client construction.
#[derive(Clone, Copy, Debug, PartialEq, Eq, Structural)]
pub struct RetryConfig {
    /// An operation makes at most this many attempts in all.
    pub max_attempts: u64,
    /// Backoff before the first retry, in milliseconds.
    pub base_backoff_ms: u64,
    /// No computed or server-provided delay ever exceeds this, in milliseconds.
    pub max_backoff_ms: u64,
    /// How the computed delay is randomized.
    pub jitter: JitterPolicy,
}

pub const DEFAULT_MAX_ATTEMPTS: u64 = 3;
pub const DEFAULT_BASE_BACKOFF_MS: u64 = 1000;
pub const DEFAULT_MAX_BACKOFF_MS: u64 = 20000;

impl Default for RetryConfig {
    fn default() -> (r: Self)
        ensures
            r == (RetryConfig {
                max_attempts: DEFAULT_MAX_ATTEMPTS,
                base_backoff_ms: DEFAULT_BASE_BACKOFF_MS,
                max_backoff_ms: DEFAULT_MAX_BACKOFF_MS,
                jitter: JitterPolicy::FullJitter,
            }),
    {
        RetryConfig {
            max_attempts: DEFAULT_MAX_ATTEMPTS,
            base_backoff_ms: DEFAULT_BASE_BACKOFF_MS,
            max_backoff_ms: DEFAULT_MAX_BACKOFF_MS,
            jitter: JitterPolicy::FullJitter,
        }
    }
}

/// Whether an operation stopped in success, in a failure no classifier would
/// retry, or in a retryable failure that ran out of attempts or budget. The
/// last two are observably distinct: a caller can tell "never retryable" from
/// "gave up retrying". The failing outcome itself stays with the caller, which
/// reports the error of the last attempt, never a synthesized one.
#[derive(Clone, Copy, Debug, PartialEq, Eq, Structural)]
pub enum Disposition {
    Success,
    Permanent,
    Exhausted,
}

/// What the strategy tells the orchestrator to do next.
#[derive(Clone, Copy, Debug, PartialEq, Eq, Structural)]
pub enum RetryDecision {
    /// Sleep for `delay_ms` milliseconds, then issue the next attempt.
    Retry { delay_ms: u64 },
    /// Terminate the operation and report its outcome.
    Stop { disposition: Disposition },
}

/// The exponential backoff before retrying attempt `attempt` (1-based):
/// `base * 2^(attempt-1)`, capped at `max_backoff`.
pub open spec fn spec_exp_backoff(base: u64, max_backoff: u64, attempt: u64) -> u64
    recommends
        attempt >= 1,
{
    if base * pow2((attempt - 1) as nat) >= max_backoff {
        max_backoff
    } else {
        (base * pow2((attempt - 1) as nat)) as u64
    }
}

/// Computes `min(max_backoff, base * 2^(attempt-1))` without overflowing.
pub fn compute_backoff(base: u64, max_backoff: u64, attempt: u64) -> (d: u64)
    requires
        attempt >= 1,
    ensures
        d == spec_exp_backoff(base, max_backoff, attempt),
{
    proof {
        lemma2_to64();
        lemma_pow2_pos((attempt - 1) as nat);
    }
    if base >= max_backoff {
        proof {
            if base > 0 {
                lemma_mul_left_inequality(base as int, 1, pow2((attempt - 1) as nat) as int);
            }
        }
        return max_backoff;
    }
    if base == 0 {
        return 0;
    }
    proof {
        assert(pow2(0) == 1);
        assert(base * pow2(0) == base) by (nonlinear_arith)
            requires
                pow2(0) == 1,
        ;
    }
    let mut d: u64 = base;
    let mut i: u64 = 1;
    while i < attempt && d < max_backoff
        invariant
            1 <= i <= attempt,
            1 <= base < max_backoff,
            d == spec_exp_backoff(base, max_backoff, i),
        decreases attempt - i,
    {
        proof {
            lemma_pow2_pos((i - 1) as nat);
            lemma_pow2_unfold(i as nat);
            assert(base * pow2(i as nat) == 2 * (base * pow2((i - 1) as nat)))
                by (nonlinear_arith)
                requires
                    pow2(i as nat) == 2 * pow2((i - 1) as nat),
            ;
            // d < max_backoff, so the cap was not reached: d is the product itself
            assert(d == base * pow2((i - 1) as nat));
        }
        if d >= max_backoff / 2 + 1 {
            d = max_backoff;
        } else {
            d = d * 2;
        }
        i = i + 1;
    }
    proof {
        if d >= max_backoff {
            assert(d == max_backoff);
            if i < attempt {
                lemma_backoff_monotonic(base, max_backoff, i, attempt);
            }
        }
    }
    d
}

/// With no jitter the backoff delay is monotonically non-decreasing in the
/// attempt number, and once it reaches `max_backoff` it stays constant there.
pub proof fn lemma_backoff_monotonic(base: u64, max_backoff: u64, n1: u64, n2: u64)
    requires
        1 <= n1 <= n2,
    ensures
        spec_exp_backoff(base, max_backoff, n1) <= spec_exp_backoff(base, max_backoff, n2),
        spec_exp_backoff(base, max_backoff, n1) == max_backoff ==> spec_exp_backoff(
            base,
            max_backoff,
            n2,
        ) == max_backoff,
{
    if base > 0 && n1 < n2 {
        lemma_pow2_strictly_increases((n1 - 1) as nat, (n2 - 1) as nat);
        lemma_mul_left_inequality(
            base as int,
            pow2((n1 - 1) as nat) as int,
            pow2((n2 - 1) as nat) as int,
        );
    }
    if base == 0 {
        assert(base * pow2((n1 - 1) as nat) == 0);
        assert(base * pow2((n2 - 1) as nat) == 0);
    }
}

/// The delay after jitter. `entropy` is an arbitrary value (the orchestrator
/// supplies randomness); whatever it is, the result lands in the policy's
/// range.
pub open spec fn spec_jittered(policy: JitterPolicy, delay: u64, entropy: u64) -> u64
    recommends
        delay < u64::MAX,
{
    match policy {
        JitterPolicy::NoJitter => delay,
        JitterPolicy::FullJitter => (entropy as int % (delay as int + 1)) as u64,
        JitterPolicy::EqualJitter => (delay as int / 2 + entropy as int % (delay as int / 2
            + 1)) as u64,
    }
}

/// Applies a jitter policy to a computed delay: the result is exact for
/// `NoJitter`, in `[0, delay]` for `FullJitter`, and in `[delay/2, delay]`
/// for `EqualJitter`.
pub fn apply_jitter(policy: JitterPolicy, delay: u64, entropy: u64) -> (d: u64)
    requires
        delay < u64::MAX,
    ensures
        d == spec_jittered(policy, delay, entropy),
        d <= delay,
        policy is NoJitter ==> d == delay,
        policy is EqualJitter ==> delay / 2 <= d,
{
    match policy {
        JitterPolicy::NoJitter => delay,
        JitterPolicy::FullJitter => entropy % (delay + 1),
        JitterPolicy::EqualJitter => {
            let half: u64 = delay / 2;
            half + entropy % (half + 1)
        },
    }
}

/// The delay granted for one retry: a server-provided hint is used directly,
/// capped at `max_backoff` and with no jitter; a classified error gets the
/// jittered exponential backoff for this attempt.
pub open spec fn spec_retry_delay(
    config: RetryConfig,
    attempt: u64,
    reason: RetryReason,
    entropy: u64,
) -> u64
    recommends
        attempt >= 1,
{
    match reason {
        RetryReason::ExplicitDelay { delay_ms } => if delay_ms >= config.max_backoff_ms {
            config.max_backoff_ms
        } else {
            delay_ms
        },
        RetryReason::ClassifiedError { .. } => spec_jittered(
            config.jitter,
            spec_exp_backoff(config.base_backoff_ms, config.max_backoff_ms, attempt),
            entropy,
        ),
    }
}

/// Computes the delay for one granted retry.
pub fn compute_retry_delay(config: &RetryConfig, attempt: u64, reason: RetryReason, entropy: u64)
    -> (d: u64)
    requires
        attempt >= 1,
        config.max_backoff_ms < u64::MAX,
    ensures
        d == spec_retry_delay(*config, attempt, reason, entropy),
        d <= config.max_backoff_ms || (reason matches RetryReason::ExplicitDelay { delay_ms }
            && d == delay_ms),
{
    match reason {
        RetryReason::ExplicitDelay { delay_ms } => {
            if delay_ms >= config.max_backoff_ms {
                config.max_backoff_ms
            } else {
                delay_ms
            }
        },
        RetryReason::ClassifiedError { .. } => {
            let raw = compute_backoff(config.base_backoff_ms, config.max_backoff_ms, attempt);
            apply_jitter(config.jitter, raw, entropy)
        },
    }
}

/// With `jitter` set to `NoJitter`, the retry delay granted for a classified
/// error is monotonically non-decreasing in the attempt number up to
/// `max_backoff_ms`, and constant once it reaches it.
pub proof fn lemma_no_jitter_delay_monotonic(
    config: RetryConfig,
    reason: RetryReason,
    n1: u64,
    n2: u64,
    e1: u64,
    e2: u64,
)
    requires
        config.jitter is NoJitter,
        reason is ClassifiedError,
        1 <= n1 <= n2,
    ensures
        spec_retry_delay(config, n1, reason, e1) <= spec_retry_delay(config, n2, reason, e2),
        spec_retry_delay(config, n1, reason, e1) == config.max_backoff_ms ==> spec_retry_delay(
            config,
            n2,
            reason,
            e2,
        ) == config.max_backoff_ms,
{
    lemma_backoff_monotonic(config.base_backoff_ms, config.max_backoff_ms, n1, n2);
}

/// The decision owed for one evaluated attempt by a budget-gated strategy
/// granting `delay` on a retry:
/// - no classifier matched: stop, with the outcome as it is;
/// - a classifier matched but the attempt cap is reached: stop, exhausted,
///   whatever the budget holds;
/// - otherwise retry exactly when the budget grants the reason's cost.
pub open spec fn spec_gated_decision(
    max_attempts: u64,
    delay: u64,
    ctx: AttemptContext,
    classification: Option<RetryReason>,
    budget_current: u64,
    costs: CostTable,
) -> RetryDecision {
    match classification {
        None => if ctx.spec_is_success() {
            RetryDecision::Stop { disposition: Disposition::Success }
        } else {
            RetryDecision::Stop { disposition: Disposition::Permanent }
        },
        Some(reason) => if ctx.attempt >= max_attempts {
            RetryDecision::Stop { disposition: Disposition::Exhausted }
        } else if budget_current >= costs.spec_cost_of_reason(reason) {
            RetryDecision::Retry { delay_ms: delay }
        } else {
            RetryDecision::Stop { disposition: Disposition::Exhausted }
        },
    }
}

/// What a budget-gated strategy leaves in the budget: a success refills it by
/// the success reward; a granted retry debits the reason's cost; everything
/// else leaves it unchanged.
pub open spec fn spec_gated_budget_after(
    max_attempts: u64,
    ctx: AttemptContext,
    classification: Option<RetryReason>,
    budget_current: u64,
    budget_max: u64,
    costs: CostTable,
    success_reward: u64,
) -> u64 {
    match classification {
        None => if ctx.spec_is_success() {
            spec_refill(budget_current, budget_max, success_reward)
        } else {
            budget_current
        },
        Some(reason) => if ctx.attempt >= max_attempts {
            budget_current
        } else if budget_current >= costs.spec_cost_of_reason(reason) {
            (budget_current - costs.spec_cost_of_reason(reason)) as u64
        } else {
            budget_current
        },
    }
}

/// The standard, budget-gated exponential-backoff strategy: the default for
/// production traffic.
#[derive(Clone, Copy, Debug, PartialEq, Eq, Structural)]
pub struct StandardRetryStrategy {
    pub config: RetryConfig,
}

impl StandardRetryStrategy {
    pub fn new(config: RetryConfig) -> (r: Self)
        ensures
            r.config == config,
    {
        StandardRetryStrategy { config }
    }

    /// Evaluate one completed attempt. `classification` is the pipeline's
    /// vote; `entropy` feeds the jitter and is otherwise meaningless. Exactly
    /// when a retry is granted, its cost is debited from the budget, in the
    /// same step as the decision. On a success the budget is refilled by its
    /// success reward.
    pub fn should_retry(
        &self,
        ctx: &AttemptContext,
        classification: Option<RetryReason>,
        budget: &mut RetryBudget,
        entropy: u64,
    ) -> (d: RetryDecision)
        requires
            ctx.attempt >= 1,
            self.config.max_backoff_ms < u64::MAX,
        ensures
            d == spec_gated_decision(
                self.config.max_attempts,
                spec_retry_delay(
                    self.config,
                    ctx.attempt,
                    if classification is Some {
                        classification->0
                    } else {
                        RetryReason::ExplicitDelay { delay_ms: 0 }
                    },
                    entropy,
                ),
                *ctx,
                classification,
                old(budget).spec_current(),
                old(budget).spec_costs(),
            ),
            final(budget).spec_current() == spec_gated_budget_after(
                self.config.max_attempts,
                *ctx,
                classification,
                old(budget).spec_current(),
                old(budget).spec_max(),
                old(budget).spec_costs(),
                old(budget).spec_success_reward(),
            ),
            final(budget).spec_max() == old(budget).spec_max(),
            final(budget).spec_costs() == old(budget).spec_costs(),
            final(budget).spec_success_reward() == old(budget).spec_success_reward(),
            // with no classifier match the budget is untouched, except by the
            // success-reward path
            classification is None && !ctx.spec_is_success() ==> *final(budget) == *old(budget) && d
                == (RetryDecision::Stop { disposition: Disposition::Permanent }),
            // once the attempt cap is reached a matching classification stops,
            // exhausted, whatever the budget holds
            classification is Some && ctx.attempt >= self.config.max_attempts ==> d
                == (RetryDecision::Stop { disposition: Disposition::Exhausted }) && *final(budget)
                == *old(budget),
    {
        match classification {
            None => {
                if ctx.is_success() {
                    let reward = budget.success_reward();
                    budget.release(reward);
                    RetryDecision::Stop { disposition: Disposition::Success }
                } else {
                    RetryDecision::Stop { disposition: Disposition::Permanent }
                }
            },
            Some(reason) => {
                if ctx.attempt >= self.config.max_attempts {
                    RetryDecision::Stop { disposition: Disposition::Exhausted }
                } else {
                    let table = budget.costs();
                    let cost = table.cost_of_reason(reason);
                    if budget.try_acquire(cost) {
                        let delay = compute_retry_delay(&self.config, ctx.attempt, reason, entropy);
                        RetryDecision::Retry { delay_ms: delay }
                    } else {
                        RetryDecision::Stop { disposition: Disposition::Exhausted }
                    }
                }
            },
        }
    }
}

impl Default for StandardRetryStrategy {
    fn default() -> (r: Self)
        ensures
            r.config == (RetryConfig {
                max_attempts: DEFAULT_MAX_ATTEMPTS,
                base_backoff_ms: DEFAULT_BASE_BACKOFF_MS,
                max_backoff_ms: DEFAULT_MAX_BACKOFF_MS,
                jitter: JitterPolicy::FullJitter,
            }),
    {
        StandardRetryStrategy { config: RetryConfig::default() }
    }
}

/// The strategy used when retries are explicitly disabled: terminal on the
/// first decision, whatever the classification, and it never touches the
/// budget. A failure stops as permanent: no retry was ever attempted.
#[derive(Clone, Copy, Debug, PartialEq, Eq, Structural)]
pub struct NeverRetryStrategy {
}

impl NeverRetryStrategy {
    pub fn new() -> (r: Self)
        ensures
            r == (NeverRetryStrategy {  }),
    {
        NeverRetryStrategy {  }
    }

    /// Always stop: success stops as a success, anything else as permanent.
    pub fn should_retry(&self, ctx: &AttemptContext, classification: Option<RetryReason>) -> (d:
        RetryDecision)
        ensures
            ctx.spec_is_success() ==> d == (RetryDecision::Stop {
                disposition: Disposition::Success,
            }),
            !ctx.spec_is_success() ==> d == (RetryDecision::Stop {
                disposition: Disposition::Permanent,
            }),
    {
        let _ = classification;
        if ctx.is_success() {
            RetryDecision::Stop { disposition: Disposition::Success }
        } else {
            RetryDecision::Stop { disposition: Disposition::Permanent }
        }
    }
}

/// The same state machine as the standard strategy, but the delay is a
/// constant independent of the attempt number: deterministic, for
/// reproducible tests.
#[derive(Clone, Copy, Debug, PartialEq, Eq, Structural)]
pub struct FixedDelayRetryStrategy {
    pub delay_ms: u64,
    pub max_attempts: u64,
}

impl FixedDelayRetryStrategy {
    pub fn new(delay_ms: u64) -> (r: Self)
        ensures
            r.delay_ms == delay_ms,
            r.max_attempts == DEFAULT_MAX_ATTEMPTS,
    {
        FixedDelayRetryStrategy { delay_ms, max_attempts: DEFAULT_MAX_ATTEMPTS }
    }

    pub fn new_with_max_attempts(delay_ms: u64, max_attempts: u64) -> (r: Self)
        ensures
            r.delay_ms == delay_ms,
            r.max_attempts == max_attempts,
    {
        FixedDelayRetryStrategy { delay_ms, max_attempts }
    }

    /// Evaluate one completed attempt, granting the fixed delay on a retry.
    pub fn should_retry(
        &self,
        ctx: &AttemptContext,
        classification: Option<RetryReason>,
        budget: &mut RetryBudget,
    ) -> (d: RetryDecision)
        ensures
            d == spec_gated_decision(
                self.max_attempts,
                self.delay_ms,
                *ctx,
                classification,
                old(budget).spec_current(),
                old(budget).spec_costs(),
            ),
            final(budget).spec_current() == spec_gated_budget_after(
                self.max_attempts,
                *ctx,
                classification,
                old(budget).spec_current(),
                old(budget).spec_max(),
                old(budget).spec_costs(),
                old(budget).spec_success_reward(),
            ),
            final(budget).spec_max() == old(budget).spec_max(),
            final(budget).spec_costs() == old(budget).spec_costs(),
            final(budget).spec_success_reward() == old(budget).spec_success_reward(),
    {
        match classification {
            None => {
                if ctx.is_success() {
                    let reward = budget.success_reward();
                    budget.release(reward);
                    RetryDecision::Stop { disposition: Disposition::Success }
                } else {
                    RetryDecision::Stop { disposition: Disposition::Permanent }
                }
            },
            Some(reason) => {
                if ctx.attempt >= self.max_attempts {
                    RetryDecision::Stop { disposition: Disposition::Exhausted }
                } else {
                    let table = budget.costs();
                    let cost = table.cost_of_reason(reason);
                    if budget.try_acquire(cost) {
                        RetryDecision::Retry { delay_ms: self.delay_ms }
                    } else {
                        RetryDecision::Stop { disposition: Disposition::Exhausted }
                    }
                }
            },
        }
    }
}

} // verus!

