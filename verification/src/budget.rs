//! The retry budget: a token bucket shared by every operation issued through
//! one client, bounding how many retries may be consumed across them. A retry
//! may proceed only if enough tokens are available, and the check and the
//! debit are one atomic step: callers serialize every mutation (the embedding
//! program holds the bucket behind a lock), so each `try_acquire`/`release`
//! appears atomic to all other callers, and any concurrent history is some
//! sequence of these operations.

use vstd::prelude::*;
use crate::context::ErrorKind;
use crate::context::RetryReason;

verus! {

/// Token cost of a retry, by the kind of error that made it necessary.
#[derive(Clone, Copy, Debug, PartialEq, Eq, Structural)]
pub struct CostTable {
    pub transient_cost: u64,
    pub throttling_cost: u64,
    pub client_cost: u64,
    pub server_cost: u64,
}

/// The default costs: a throttling error is charged double, since the
/// backend is already telling callers to slow down.
pub const DEFAULT_TRANSIENT_COST: u64 = 5;
pub const DEFAULT_THROTTLING_COST: u64 = 10;
pub const DEFAULT_CLIENT_COST: u64 = 5;
pub const DEFAULT_SERVER_COST: u64 = 5;
/// Default bucket capacity and the tokens returned on a success.
pub const DEFAULT_BUDGET_CAPACITY: u64 = 500;
pub const DEFAULT_SUCCESS_REWARD: u64 = 1;

impl CostTable {
    /// The cost of a retry classified with the given kind.
    pub open spec fn spec_cost_of(self, kind: ErrorKind) -> u64 {
        match kind {
            ErrorKind::TransientError => self.transient_cost,
            ErrorKind::ThrottlingError => self.throttling_cost,
            ErrorKind::ClientError => self.client_cost,
            ErrorKind::ServerError => self.server_cost,
        }
    }

    /// The cost of a retry for the given reason. A server-provided
    /// retry-after hint carries no error kind; it is charged like a
    /// transient error.
    pub open spec fn spec_cost_of_reason(self, reason: RetryReason) -> u64 {
        match reason {
            RetryReason::ClassifiedError { kind } => self.spec_cost_of(kind),
            RetryReason::ExplicitDelay { .. } => self.transient_cost,
        }
    }

    pub fn cost_of(&self, kind: ErrorKind) -> (cost: u64)
        ensures
            cost == self.spec_cost_of(kind),
    {
        match kind {
            ErrorKind::TransientError => self.transient_cost,
            ErrorKind::ThrottlingError => self.throttling_cost,
            ErrorKind::ClientError => self.client_cost,
            ErrorKind::ServerError => self.server_cost,
        }
    }

    pub fn cost_of_reason(&self, reason: RetryReason) -> (cost: u64)
        ensures
            cost == self.spec_cost_of_reason(reason),
    {
        match reason {
            RetryReason::ClassifiedError { kind } => self.cost_of(kind),
            RetryReason::ExplicitDelay { .. } => self.transient_cost,
        }
    }
}

impl Default for CostTable {
    fn default() -> (r: Self)
        ensures
            r.transient_cost == DEFAULT_TRANSIENT_COST,
            r.throttling_cost == DEFAULT_THROTTLING_COST,
            r.client_cost == DEFAULT_CLIENT_COST,
            r.server_cost == DEFAULT_SERVER_COST,
    {
        CostTable {
            transient_cost: DEFAULT_TRANSIENT_COST,
            throttling_cost: DEFAULT_THROTTLING_COST,
            client_cost: DEFAULT_CLIENT_COST,
            server_cost: DEFAULT_SERVER_COST,
        }
    }
}

/// The shared token bucket. `current` never leaves `0 ..= max`: that is a
/// type invariant, so it holds of every reachable value of the type, however
/// many operations have run against it.
#[derive(Clone, Copy, Debug)]
pub struct RetryBudget {
    current: u64,
    max: u64,
    costs: CostTable,
    success_reward: u64,
}

impl RetryBudget {
    /// The bucket never holds more tokens than its capacity (and, being
    /// unsigned, never fewer than zero).
    #[verifier::type_invariant]
    pub closed spec fn wf(self) -> bool {
        self.current <= self.max
    }

    /// Tokens currently available.
    pub closed spec fn spec_current(self) -> u64 {
        self.current
    }

    /// Capacity of the bucket.
    pub closed spec fn spec_max(self) -> u64 {
        self.max
    }

    pub closed spec fn spec_costs(self) -> CostTable {
        self.costs
    }

    pub closed spec fn spec_success_reward(self) -> u64 {
        self.success_reward
    }

    /// A full bucket with the given capacity, costs and success reward.
    pub fn new(capacity: u64, costs: CostTable, success_reward: u64) -> (r: RetryBudget)
        ensures
            r.spec_current() == capacity,
            r.spec_max() == capacity,
            r.spec_costs() == costs,
            r.spec_success_reward() == success_reward,
    {
        RetryBudget { current: capacity, max: capacity, costs, success_reward }
    }

    /// A full bucket with the given capacity and the default costs.
    pub fn with_capacity(capacity: u64) -> (r: RetryBudget)
        ensures
            r.spec_current() == capacity,
            r.spec_max() == capacity,
            r.spec_costs() == (CostTable {
                transient_cost: DEFAULT_TRANSIENT_COST,
                throttling_cost: DEFAULT_THROTTLING_COST,
                client_cost: DEFAULT_CLIENT_COST,
                server_cost: DEFAULT_SERVER_COST,
            }),
            r.spec_success_reward() == DEFAULT_SUCCESS_REWARD,
    {
        RetryBudget::new(capacity, CostTable::default(), DEFAULT_SUCCESS_REWARD)
    }

    pub fn current_tokens(&self) -> (r: u64)
        ensures
            r == self.spec_current(),
    {
        self.current
    }

    pub fn max_tokens(&self) -> (r: u64)
        ensures
            r == self.spec_max(),
    {
        self.max
    }

    pub fn success_reward(&self) -> (r: u64)
        ensures
            r == self.spec_success_reward(),
    {
        self.success_reward
    }

    pub fn costs(&self) -> (r: CostTable)
        ensures
            r == self.spec_costs(),
    {
        self.costs
    }

    /// The default budget: 500 tokens, default costs, one token back per
    /// success.
    pub fn new_default() -> (r: RetryBudget)
        ensures
            r.spec_current() == DEFAULT_BUDGET_CAPACITY,
            r.spec_max() == DEFAULT_BUDGET_CAPACITY,
            r.spec_costs() == (CostTable {
                transient_cost: DEFAULT_TRANSIENT_COST,
                throttling_cost: DEFAULT_THROTTLING_COST,
                client_cost: DEFAULT_CLIENT_COST,
                server_cost: DEFAULT_SERVER_COST,
            }),
            r.spec_success_reward() == DEFAULT_SUCCESS_REWARD,
    {
        RetryBudget::with_capacity(DEFAULT_BUDGET_CAPACITY)
    }

    /// Checks `current >= cost` and debits `cost` in one step: if the tokens
    /// are there the retry is granted and they are taken, otherwise the state
    /// is left unchanged. There is no gap between the check and the debit for
    /// another caller to race into.
    pub fn try_acquire(&mut self, cost: u64) -> (granted: bool)
        ensures
            granted == (old(self).spec_current() >= cost),
            granted ==> final(self).spec_current() == old(self).spec_current() - cost,
            !granted ==> *final(self) == *old(self),
            final(self).spec_current() == spec_budget_step(
                old(self).spec_current(),
                old(self).spec_max(),
                BudgetOp::Acquire { cost },
            ),
            final(self).spec_max() == old(self).spec_max(),
            final(self).spec_costs() == old(self).spec_costs(),
            final(self).spec_success_reward() == old(self).spec_success_reward(),
    {
        proof {
            use_type_invariant(&*self);
        }
        if self.current >= cost {
            self.current = self.current - cost;
            true
        } else {
            false
        }
    }

    /// Returns `reward` tokens to the bucket, capped at its capacity. Called
    /// when an attempt succeeds, so that well-behaved traffic refills the
    /// budget.
    pub fn release(&mut self, reward: u64)
        ensures
            final(self).spec_current() == spec_refill(
                old(self).spec_current(),
                old(self).spec_max(),
                reward,
            ),
            final(self).spec_current() == spec_budget_step(
                old(self).spec_current(),
                old(self).spec_max(),
                BudgetOp::Release { reward },
            ),
            final(self).spec_max() == old(self).spec_max(),
            final(self).spec_costs() == old(self).spec_costs(),
            final(self).spec_success_reward() == old(self).spec_success_reward(),
    {
        proof {
            use_type_invariant(&*self);
        }
        if reward >= self.max - self.current {
            self.current = self.max;
        } else {
            self.current = self.current + reward;
        }
    }
}

/// What `release` leaves in the bucket: the sum, capped at the capacity.
pub open spec fn spec_refill(current: u64, max: u64, reward: u64) -> u64 {
    if current + reward >= max {
        max
    } else {
        (current + reward) as u64
    }
}

/// One budget operation, as other callers observe it: every concurrent
/// history of the bucket linearizes to a sequence of these.
#[derive(Clone, Copy, Debug, PartialEq, Eq, Structural)]
pub enum BudgetOp {
    Acquire { cost: u64 },
    Release { reward: u64 },
}

/// What one operation leaves in the bucket, mirroring the contracts of
/// `try_acquire` and `release`.
pub open spec fn spec_budget_step(current: u64, max: u64, op: BudgetOp) -> u64 {
    match op {
        BudgetOp::Acquire { cost } => if current >= cost {
            (current - cost) as u64
        } else {
            current
        },
        BudgetOp::Release { reward } => spec_refill(current, max, reward),
    }
}

/// The bucket's contents after a sequence of operations has run against it.
pub open spec fn spec_budget_run(current: u64, max: u64, ops: Seq<BudgetOp>) -> u64
    decreases ops.len(),
{
    if ops.len() == 0 {
        current
    } else {
        spec_budget_run(spec_budget_step(current, max, ops[0]), max, ops.drop_first())
    }
}

/// Under any interleaving of acquires and releases — that is, any sequence
/// they linearize to — the token count never goes negative (it is a `u64`
/// and each step is well-defined on it) and never exceeds the capacity:
/// `try_acquire` cannot overdraw and `release` cannot overfill.
pub proof fn lemma_budget_never_out_of_bounds(current: u64, max: u64, ops: Seq<BudgetOp>)
    requires
        current <= max,
    ensures
        spec_budget_run(current, max, ops) <= max,
    decreases ops.len(),
{
    if ops.len() > 0 {
        let next = spec_budget_step(current, max, ops[0]);
        assert(next <= max);
        lemma_budget_never_out_of_bounds(next, max, ops.drop_first());
    }
}

} // verus!
