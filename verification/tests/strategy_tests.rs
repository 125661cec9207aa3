use smithy_retries::budget::RetryBudget;
use smithy_retries::context::AttemptContext;
use smithy_retries::context::AttemptError;
use smithy_retries::context::AttemptOutcome;
use smithy_retries::context::ErrorKind;
use smithy_retries::context::RetryReason;
use smithy_retries::strategy::Disposition;
use smithy_retries::strategy::FixedDelayRetryStrategy;
use smithy_retries::strategy::JitterPolicy;
use smithy_retries::strategy::NeverRetryStrategy;
use smithy_retries::strategy::RetryConfig;
use smithy_retries::strategy::RetryDecision;
use smithy_retries::strategy::StandardRetryStrategy;
use smithy_retries::strategy::apply_jitter;
use smithy_retries::strategy::compute_backoff;
use smithy_retries::strategy::compute_retry_delay;

fn failed_context(attempt: u64) -> AttemptContext {
    let mut ctx = AttemptContext::new();
    ctx.outcome = Some(AttemptOutcome::Failed {
        error: AttemptError::Timeout,
    });
    ctx.attempt = attempt;
    ctx
}

fn transient() -> Option<RetryReason> {
    Some(RetryReason::ClassifiedError {
        kind: ErrorKind::TransientError,
    })
}

fn no_jitter_config() -> RetryConfig {
    RetryConfig {
        max_attempts: 3,
        base_backoff_ms: 1000,
        max_backoff_ms: 20000,
        jitter: JitterPolicy::NoJitter,
    }
}

#[test]
fn standard_strategy_scenario_exhausts_attempts() {
    // three consecutive transient classifications: delays 1s and 2s, then
    // the third attempt stops exhausted because the attempt cap is reached;
    // two granted retries debit 10 tokens in all
    let strategy = StandardRetryStrategy::new(no_jitter_config());
    let mut budget = RetryBudget::with_capacity(100);

    let d1 = strategy.should_retry(&failed_context(1), transient(), &mut budget, 7);
    assert_eq!(d1, RetryDecision::Retry { delay_ms: 1000 });
    assert_eq!(budget.current_tokens(), 95);

    let d2 = strategy.should_retry(&failed_context(2), transient(), &mut budget, 7);
    assert_eq!(d2, RetryDecision::Retry { delay_ms: 2000 });
    assert_eq!(budget.current_tokens(), 90);

    let d3 = strategy.should_retry(&failed_context(3), transient(), &mut budget, 7);
    assert_eq!(
        d3,
        RetryDecision::Stop {
            disposition: Disposition::Exhausted
        }
    );
    assert_eq!(budget.current_tokens(), 90);
}

#[test]
fn standard_strategy_refused_by_empty_budget() {
    // capacity 4, transient cost 5: the very first retryable classification
    // is refused and the operation stops exhausted
    let strategy = StandardRetryStrategy::new(no_jitter_config());
    let mut budget = RetryBudget::with_capacity(4);
    let d = strategy.should_retry(&failed_context(1), transient(), &mut budget, 0);
    assert_eq!(
        d,
        RetryDecision::Stop {
            disposition: Disposition::Exhausted
        }
    );
    assert_eq!(budget.current_tokens(), 4);
}

#[test]
fn standard_strategy_stops_permanent_without_classification() {
    // no classifier matched: stop, and the budget is untouched
    let strategy = StandardRetryStrategy::new(no_jitter_config());
    let mut budget = RetryBudget::with_capacity(100);
    let d = strategy.should_retry(&failed_context(1), None, &mut budget, 0);
    assert_eq!(
        d,
        RetryDecision::Stop {
            disposition: Disposition::Permanent
        }
    );
    assert_eq!(budget.current_tokens(), 100);
}

#[test]
fn standard_strategy_success_refills_budget() {
    let strategy = StandardRetryStrategy::new(no_jitter_config());
    let mut budget = RetryBudget::with_capacity(100);
    // spend some budget first
    assert!(budget.try_acquire(5));
    assert_eq!(budget.current_tokens(), 95);

    let mut ctx = AttemptContext::new();
    ctx.outcome = Some(AttemptOutcome::Success);
    let d = strategy.should_retry(&ctx, None, &mut budget, 0);
    assert_eq!(
        d,
        RetryDecision::Stop {
            disposition: Disposition::Success
        }
    );
    // the default success reward is one token
    assert_eq!(budget.current_tokens(), 96);
}

#[test]
fn standard_strategy_exhausted_beats_full_budget() {
    // at the attempt cap a matching classification stops exhausted even
    // though the budget is full
    let strategy = StandardRetryStrategy::new(no_jitter_config());
    let mut budget = RetryBudget::with_capacity(500);
    let d = strategy.should_retry(&failed_context(3), transient(), &mut budget, 0);
    assert_eq!(
        d,
        RetryDecision::Stop {
            disposition: Disposition::Exhausted
        }
    );
    assert_eq!(budget.current_tokens(), 500);
}

#[test]
fn explicit_delay_bypasses_backoff() {
    // a server-provided hint is used directly, capped at max_backoff, with
    // no jitter, and it still consumes budget
    let strategy = StandardRetryStrategy::new(no_jitter_config());
    let mut budget = RetryBudget::with_capacity(100);
    let hint = Some(RetryReason::ExplicitDelay { delay_ms: 250 });
    let d = strategy.should_retry(&failed_context(1), hint, &mut budget, 0);
    assert_eq!(d, RetryDecision::Retry { delay_ms: 250 });
    assert_eq!(budget.current_tokens(), 95);

    let capped = Some(RetryReason::ExplicitDelay { delay_ms: 90000 });
    let d = strategy.should_retry(&failed_context(1), capped, &mut budget, 0);
    assert_eq!(d, RetryDecision::Retry { delay_ms: 20000 });
}

#[test]
fn backoff_doubles_then_caps() {
    assert_eq!(compute_backoff(1000, 20000, 1), 1000);
    assert_eq!(compute_backoff(1000, 20000, 2), 2000);
    assert_eq!(compute_backoff(1000, 20000, 3), 4000);
    assert_eq!(compute_backoff(1000, 20000, 5), 16000);
    assert_eq!(compute_backoff(1000, 20000, 6), 20000);
    assert_eq!(compute_backoff(1000, 20000, 7), 20000);
    // stays at the cap for huge attempt numbers too
    assert_eq!(compute_backoff(1000, 20000, 200), 20000);
    assert_eq!(compute_backoff(0, 20000, 4), 0);
    assert_eq!(compute_backoff(30000, 20000, 1), 20000);
}

#[test]
fn jitter_ranges() {
    assert_eq!(apply_jitter(JitterPolicy::NoJitter, 8000, 12345), 8000);
    for entropy in [0u64, 1, 7, 8000, 8001, u64::MAX] {
        let full = apply_jitter(JitterPolicy::FullJitter, 8000, entropy);
        assert!(full <= 8000);
        let equal = apply_jitter(JitterPolicy::EqualJitter, 8000, entropy);
        assert!((4000..=8000).contains(&equal));
    }
    // the jittered delay is the entropy reduced into the range
    assert_eq!(apply_jitter(JitterPolicy::FullJitter, 8000, 8001), 0);
    assert_eq!(apply_jitter(JitterPolicy::EqualJitter, 8000, 4001), 4000);
}

#[test]
fn retry_delay_uses_jittered_backoff() {
    let config = RetryConfig {
        max_attempts: 3,
        base_backoff_ms: 1000,
        max_backoff_ms: 20000,
        jitter: JitterPolicy::FullJitter,
    };
    let reason = RetryReason::ClassifiedError {
        kind: ErrorKind::TransientError,
    };
    // attempt 2: raw backoff 2000; entropy 2001 wraps to 0
    assert_eq!(compute_retry_delay(&config, 2, reason, 2001), 0);
    assert_eq!(compute_retry_delay(&config, 2, reason, 1500), 1500);
}

#[test]
fn never_strategy_always_stops() {
    let strategy = NeverRetryStrategy::new();
    let d = strategy.should_retry(&failed_context(1), transient(), );
    assert_eq!(
        d,
        RetryDecision::Stop {
            disposition: Disposition::Permanent
        }
    );
    let mut ctx = AttemptContext::new();
    ctx.outcome = Some(AttemptOutcome::Success);
    let d = strategy.should_retry(&ctx, None);
    assert_eq!(
        d,
        RetryDecision::Stop {
            disposition: Disposition::Success
        }
    );
}

#[test]
fn fixed_delay_strategy_is_constant() {
    let strategy = FixedDelayRetryStrategy::new_with_max_attempts(1234, 4);
    let mut budget = RetryBudget::with_capacity(100);
    let d1 = strategy.should_retry(&failed_context(1), transient(), &mut budget);
    let d2 = strategy.should_retry(&failed_context(3), transient(), &mut budget);
    assert_eq!(d1, RetryDecision::Retry { delay_ms: 1234 });
    assert_eq!(d2, RetryDecision::Retry { delay_ms: 1234 });
    assert_eq!(budget.current_tokens(), 90);
    let d3 = strategy.should_retry(&failed_context(4), transient(), &mut budget);
    assert_eq!(
        d3,
        RetryDecision::Stop {
            disposition: Disposition::Exhausted
        }
    );
}

#[test]
fn default_config() {
    let config = RetryConfig::default();
    assert_eq!(config.max_attempts, 3);
    assert_eq!(config.base_backoff_ms, 1000);
    assert_eq!(config.max_backoff_ms, 20000);
    assert_eq!(config.jitter, JitterPolicy::FullJitter);
}
