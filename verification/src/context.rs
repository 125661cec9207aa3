//! Shared data passed between the orchestrator, the classifiers and the
//! retry strategy: the outcome of one attempt, modeled as a closed set of
//! variants that the orchestrator constructs once per attempt, so that
//! classifiers pattern-match instead of downcasting.

use vstd::prelude::*;

verus! {

/// Why an outcome may be retried, independent of which classifier detected it.
#[derive(Clone, Copy, Debug, PartialEq, Eq, Structural)]
pub enum ErrorKind {
    TransientError,
    ThrottlingError,
    ClientError,
    ServerError,
}

/// A classifier's vote to retry. Absence of a `RetryReason` means
/// "do not retry": a success or a permanent failure.
#[derive(Clone, Copy, Debug, PartialEq, Eq, Structural)]
pub enum RetryReason {
    /// A classifier detected a retryable failure of the given kind.
    ClassifiedError { kind: ErrorKind },
    /// A server-provided retry-after hint, in milliseconds. It bypasses the
    /// backoff formula but still consumes budget.
    ExplicitDelay { delay_ms: u64 },
}

/// How a dispatch-level (connection) failure presented itself.
#[derive(Clone, Copy, Debug, PartialEq, Eq)]
pub enum DispatchFailureKind {
    /// The connection attempt timed out.
    TimedOut,
    /// A connection-level I/O failure.
    Io,
    /// Some other dispatch failure; `kind` is the retry classification the
    /// transport layer assigned it, and `None` means the transport layer
    /// explicitly marked it as not retryable.
    Other { kind: Option<ErrorKind> },
}

/// The error carried by a failed attempt.
#[derive(Clone, Copy, Debug, PartialEq, Eq)]
pub enum AttemptError {
    /// A successfully decoded, typed service error; `kind` is the retryable
    /// classification the service model declares for it, if any.
    Modeled { kind: Option<ErrorKind> },
    /// The request never made it out: a connection-level failure.
    Dispatch { failure: DispatchFailureKind },
    /// The attempt timed out while waiting for a response.
    Timeout,
    /// A response arrived but could not be read or parsed.
    Response,
    /// An error none of the classifiers understands.
    Other,
}

/// The outcome of one completed attempt.
#[derive(Clone, Copy, Debug, PartialEq, Eq)]
pub enum AttemptOutcome {
    Success,
    Failed { error: AttemptError },
}

/// Mutable, single-operation-scoped record of the latest attempt. Owned
/// exclusively by one operation's execution; never shared across operations.
#[derive(Clone, Copy, Debug, PartialEq, Eq)]
pub struct AttemptContext {
    /// The outcome of the most recent attempt, if one has completed.
    pub outcome: Option<AttemptOutcome>,
    /// Status code of the raw HTTP response, when one was received
    /// (it may be present even when decoding the body failed).
    pub response_status: Option<u16>,
    /// 1-based attempt index.
    pub attempt: u64,
    /// Cumulative time since the operation began, in milliseconds.
    pub elapsed_ms: u64,
    /// The most recent retry reason, if any attempt was classified retryable.
    pub retry_reason: Option<RetryReason>,
}

impl AttemptContext {
    /// A context for an operation that has not completed an attempt yet.
    pub fn new() -> (r: AttemptContext)
        ensures
            r.outcome is None,
            r.response_status is None,
            r.attempt == 1,
            r.elapsed_ms == 0,
            r.retry_reason is None,
    {
        AttemptContext {
            outcome: None,
            response_status: None,
            attempt: 1,
            elapsed_ms: 0,
            retry_reason: None,
        }
    }

    /// Whether the most recent attempt completed successfully.
    pub open spec fn spec_is_success(self) -> bool {
        self.outcome == Some(AttemptOutcome::Success)
    }

    /// Whether the most recent attempt completed successfully.
    pub fn is_success(&self) -> (r: bool)
        ensures
            r == self.spec_is_success(),
    {
        match self.outcome {
            Some(AttemptOutcome::Success) => true,
            _ => false,
        }
    }
}

} // verus!
