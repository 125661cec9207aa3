//! Outcome classifiers: each inspects a read-only view of the attempt
//! context and produces an optional retry signal; the pipeline combines an
//! ordered list of them, first match wins.

use vstd::prelude::*;
use crate::context::AttemptContext;
use crate::context::AttemptError;
use crate::context::AttemptOutcome;
use crate::context::DispatchFailureKind;
use crate::context::ErrorKind;
use crate::context::RetryReason;

verus! {

/// What the modeled-error classifier says of a context: it applies only when
/// the error is a successfully decoded, typed service error that declares its
/// own retryable classification; everything else is an abstention.
pub open spec fn spec_modeled_classification(ctx: AttemptContext) -> Option<RetryReason> {
    match ctx.outcome {
        Some(AttemptOutcome::Failed { error: AttemptError::Modeled { kind: Some(k) } }) => Some(
            RetryReason::ClassifiedError { kind: k },
        ),
        _ => None,
    }
}

/// What the transport/protocol classifier says of a context: timeouts,
/// unreadable responses and connection-level I/O failures are transient;
/// another dispatch failure is retried only with the kind the transport layer
/// assigned it, and one it marked not retryable is an abstention.
pub open spec fn spec_transport_classification(ctx: AttemptContext) -> Option<RetryReason> {
    match ctx.outcome {
        Some(AttemptOutcome::Failed { error }) => match error {
            AttemptError::Timeout => Some(
                RetryReason::ClassifiedError { kind: ErrorKind::TransientError },
            ),
            AttemptError::Response => Some(
                RetryReason::ClassifiedError { kind: ErrorKind::TransientError },
            ),
            AttemptError::Dispatch { failure } => match failure {
                DispatchFailureKind::TimedOut => Some(
                    RetryReason::ClassifiedError { kind: ErrorKind::TransientError },
                ),
                DispatchFailureKind::Io => Some(
                    RetryReason::ClassifiedError { kind: ErrorKind::TransientError },
                ),
                DispatchFailureKind::Other { kind: Some(k) } => Some(
                    RetryReason::ClassifiedError { kind: k },
                ),
                DispatchFailureKind::Other { kind: None } => None,
            },
            _ => None,
        },
        _ => None,
    }
}

/// What the HTTP-status classifier with the given retryable set says of a
/// context: it fires whenever a raw HTTP response is available (even if body
/// decoding later failed) and its status is in the set.
pub open spec fn spec_http_status_classification(
    codes: Seq<u16>,
    ctx: AttemptContext,
) -> Option<RetryReason> {
    match ctx.response_status {
        Some(status) => if codes.contains(status) {
            Some(RetryReason::ClassifiedError { kind: ErrorKind::TransientError })
        } else {
            None
        },
        None => None,
    }
}

/// A retry classifier for errors modeled as retryable: typed service errors
/// whose schema declares a retryable-error classification.
#[derive(Clone, Copy, Debug, PartialEq, Eq, Structural)]
pub struct ModeledAsRetryableClassifier {
}

impl ModeledAsRetryableClassifier {
    /// Create a new ModeledAsRetryableClassifier.
    pub fn new() -> (r: Self)
        ensures
            r == (ModeledAsRetryableClassifier {  }),
    {
        ModeledAsRetryableClassifier {  }
    }

    /// Classify one attempt; never mutates the context.
    pub fn classify_retry(&self, ctx: &AttemptContext) -> (r: Option<RetryReason>)
        ensures
            r == spec_modeled_classification(*ctx),
    {
        match ctx.outcome {
            Some(AttemptOutcome::Failed { error: AttemptError::Modeled { kind: Some(k) } }) => Some(
                RetryReason::ClassifiedError { kind: k },
            ),
            _ => None,
        }
    }

    /// Stable name for observability; no behavioral effect.
    pub fn name(&self) -> (r: &'static str)
        ensures
            r@ == "Errors Modeled As Retryable"@,
    {
        "Errors Modeled As Retryable"
    }
}

/// A retry classifier for untyped transport/protocol failures: request and
/// response timeouts, connection-level I/O failures, and responses that could
/// not be parsed.
#[derive(Clone, Copy, Debug, PartialEq, Eq, Structural)]
pub struct SmithyErrorClassifier {
}

impl SmithyErrorClassifier {
    /// Create a new SmithyErrorClassifier.
    pub fn new() -> (r: Self)
        ensures
            r == (SmithyErrorClassifier {  }),
    {
        SmithyErrorClassifier {  }
    }

    /// Classify one attempt; never mutates the context.
    pub fn classify_retry(&self, ctx: &AttemptContext) -> (r: Option<RetryReason>)
        ensures
            r == spec_transport_classification(*ctx),
    {
        match ctx.outcome {
            Some(AttemptOutcome::Failed { error }) => match error {
                AttemptError::Timeout => Some(
                    RetryReason::ClassifiedError { kind: ErrorKind::TransientError },
                ),
                AttemptError::Response => Some(
                    RetryReason::ClassifiedError { kind: ErrorKind::TransientError },
                ),
                AttemptError::Dispatch { failure } => match failure {
                    DispatchFailureKind::TimedOut => Some(
                        RetryReason::ClassifiedError { kind: ErrorKind::TransientError },
                    ),
                    DispatchFailureKind::Io => Some(
                        RetryReason::ClassifiedError { kind: ErrorKind::TransientError },
                    ),
                    DispatchFailureKind::Other { kind: Some(k) } => Some(
                        RetryReason::ClassifiedError { kind: k },
                    ),
                    DispatchFailureKind::Other { kind: None } => None,
                },
                _ => None,
            },
            _ => None,
        }
    }

    /// Stable name for observability; no behavioral effect.
    pub fn name(&self) -> (r: &'static str)
        ensures
            r@ == "Retryable Smithy Errors"@,
    {
        "Retryable Smithy Errors"
    }
}

/// A retry classifier that treats an HTTP response with one of the given
/// status codes as retryable. The `Default` version retries 500, 502, 503
/// and 504.
#[derive(Clone, Debug, PartialEq, Eq)]
pub struct HttpStatusCodeClassifier {
    pub retryable_status_codes: Vec<u16>,
}

impl HttpStatusCodeClassifier {
    /// Given status codes, create a retry classifier that will treat an HTTP
    /// response with one of those codes as retryable.
    pub fn new_from_codes(retryable_status_codes: Vec<u16>) -> (r: Self)
        ensures
            r.retryable_status_codes@ == retryable_status_codes@,
    {
        Self { retryable_status_codes }
    }

    /// Classify one attempt; never mutates the context.
    pub fn classify_retry(&self, ctx: &AttemptContext) -> (r: Option<RetryReason>)
        ensures
            r == spec_http_status_classification(self.retryable_status_codes@, *ctx),
    {
        match ctx.response_status {
            Some(status) => {
                if contains_code(&self.retryable_status_codes, status) {
                    Some(RetryReason::ClassifiedError { kind: ErrorKind::TransientError })
                } else {
                    None
                }
            },
            None => None,
        }
    }

    /// Stable name for observability; no behavioral effect.
    pub fn name(&self) -> (r: &'static str)
        ensures
            r@ == "HTTP Status Code"@,
    {
        "HTTP Status Code"
    }
}

impl Default for HttpStatusCodeClassifier {
    /// The default retryable set: 500, 502, 503 and 504.
    fn default() -> (r: Self)
        ensures
            r.retryable_status_codes@ == seq![500u16, 502u16, 503u16, 504u16],
    {
        let codes: Vec<u16> = vec![500, 502, 503, 504];
        assert(codes@ =~= seq![500u16, 502u16, 503u16, 504u16]);
        Self::new_from_codes(codes)
    }
}

/// Whether `status` is one of `codes`.
fn contains_code(codes: &Vec<u16>, status: u16) -> (r: bool)
    ensures
        r == codes@.contains(status),
{
    let mut i: usize = 0;
    while i < codes.len()
        invariant
            i <= codes.len(),
            forall|j: int| 0 <= j < i ==> codes@[j] != status,
        decreases codes.len() - i,
    {
        if codes[i] == status {
            assert(codes@.contains(status));
            return true;
        }
        i = i + 1;
    }
    assert(!codes@.contains(status));
    false
}

/// One entry of the classifier pipeline: the closed set of classifier
/// variants, so that ordering is data.
#[derive(Clone, Debug, PartialEq, Eq)]
pub enum RetryClassifier {
    Modeled(ModeledAsRetryableClassifier),
    Transport(SmithyErrorClassifier),
    HttpStatus(HttpStatusCodeClassifier),
}

/// What one pipeline entry says of a context.
pub open spec fn spec_classifier_classification(
    c: RetryClassifier,
    ctx: AttemptContext,
) -> Option<RetryReason> {
    match c {
        RetryClassifier::Modeled(_) => spec_modeled_classification(ctx),
        RetryClassifier::Transport(_) => spec_transport_classification(ctx),
        RetryClassifier::HttpStatus(h) => spec_http_status_classification(
            h.retryable_status_codes@,
            ctx,
        ),
    }
}

/// What an ordered list of classifiers says of a context: the first entry
/// that returns `Some` wins and the rest are never consulted; if no entry
/// fires the pipeline abstains.
pub open spec fn spec_pipeline_classification(
    cs: Seq<RetryClassifier>,
    ctx: AttemptContext,
) -> Option<RetryReason>
    decreases cs.len(),
{
    if cs.len() == 0 {
        None
    } else {
        match spec_classifier_classification(cs[0], ctx) {
            Some(reason) => Some(reason),
            None => spec_pipeline_classification(cs.drop_first(), ctx),
        }
    }
}

impl RetryClassifier {
    /// Classify one attempt with this entry's rule.
    pub fn classify_retry(&self, ctx: &AttemptContext) -> (r: Option<RetryReason>)
        ensures
            r == spec_classifier_classification(*self, *ctx),
    {
        match self {
            RetryClassifier::Modeled(c) => c.classify_retry(ctx),
            RetryClassifier::Transport(c) => c.classify_retry(ctx),
            RetryClassifier::HttpStatus(c) => c.classify_retry(ctx),
        }
    }

    /// The stable name of the underlying classifier.
    pub fn name(&self) -> (r: &'static str) {
        match self {
            RetryClassifier::Modeled(c) => c.name(),
            RetryClassifier::Transport(c) => c.name(),
            RetryClassifier::HttpStatus(c) => c.name(),
        }
    }
}

/// The classifier pipeline: an ordered list of classifiers. The order is a
/// deliberate configuration choice; earlier entries take strict precedence.
#[derive(Clone, Debug, PartialEq, Eq)]
pub struct RetryClassifiers {
    pub classifiers: Vec<RetryClassifier>,
}

impl RetryClassifiers {
    /// An empty pipeline, which abstains on every context.
    pub fn new() -> (r: Self)
        ensures
            r.classifiers@ == Seq::<RetryClassifier>::empty(),
    {
        RetryClassifiers { classifiers: Vec::new() }
    }

    /// Append a classifier; it ranks below every entry already present.
    pub fn with_classifier(self, c: RetryClassifier) -> (r: Self)
        ensures
            r.classifiers@ == self.classifiers@.push(c),
    {
        let mut cs = self;
        cs.classifiers.push(c);
        cs
    }

    /// Iterate in order; the first classifier that returns `Some` wins and
    /// iteration stops. Returns `None` (do not retry) if none fires.
    pub fn classify_retry(&self, ctx: &AttemptContext) -> (r: Option<RetryReason>)
        ensures
            r == spec_pipeline_classification(self.classifiers@, *ctx),
    {
        let ghost all = self.classifiers@;
        proof {
            assert(all.skip(0) =~= all);
        }
        let mut i: usize = 0;
        while i < self.classifiers.len()
            invariant
                i <= self.classifiers.len(),
                all == self.classifiers@,
                spec_pipeline_classification(all, *ctx) == spec_pipeline_classification(
                    all.skip(i as int),
                    *ctx,
                ),
            decreases self.classifiers.len() - i,
        {
            let r = self.classifiers[i].classify_retry(ctx);
            assert(all.skip(i as int)[0] == all[i as int]);
            if r.is_some() {
                return r;
            }
            assert(all.skip(i as int).drop_first() =~= all.skip(i as int + 1));
            i = i + 1;
        }
        assert(all.skip(i as int) =~= Seq::<RetryClassifier>::empty());
        None
    }
}

/// The default pipeline, in the default order: an explicit service-modeled
/// classification overrides the transport rule, which overrides the generic
/// HTTP-status guess.
pub fn default_retry_classifiers() -> (r: RetryClassifiers)
    ensures
        r.classifiers@.len() == 3,
        r.classifiers@[0] == RetryClassifier::Modeled(ModeledAsRetryableClassifier {  }),
        r.classifiers@[1] == RetryClassifier::Transport(SmithyErrorClassifier {  }),
        r.classifiers@[2] matches RetryClassifier::HttpStatus(h) && h.retryable_status_codes@
            == seq![500u16, 502u16, 503u16, 504u16],
{
    RetryClassifiers::new().with_classifier(
        RetryClassifier::Modeled(ModeledAsRetryableClassifier::new()),
    ).with_classifier(RetryClassifier::Transport(SmithyErrorClassifier::new())).with_classifier(
        RetryClassifier::HttpStatus(HttpStatusCodeClassifier::default()),
    )
}

/// Pipeline precedence: in a pipeline ordered with the modeled-error
/// classifier first — the default order — whenever the modeled-error
/// classifier would match, its classification is the pipeline's result, in
/// particular when the HTTP-status classifier would also have matched.
pub proof fn lemma_modeled_classification_takes_precedence(
    cs: Seq<RetryClassifier>,
    ctx: AttemptContext,
)
    requires
        cs.len() > 0,
        cs[0] is Modeled,
        spec_modeled_classification(ctx) is Some,
    ensures
        spec_pipeline_classification(cs, ctx) == spec_modeled_classification(ctx),
{
}

} // verus!

