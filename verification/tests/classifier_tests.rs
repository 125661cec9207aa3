use smithy_retries::classifier::HttpStatusCodeClassifier;
use smithy_retries::classifier::ModeledAsRetryableClassifier;
use smithy_retries::classifier::SmithyErrorClassifier;
use smithy_retries::classifier::default_retry_classifiers;
use smithy_retries::context::AttemptContext;
use smithy_retries::context::AttemptError;
use smithy_retries::context::AttemptOutcome;
use smithy_retries::context::DispatchFailureKind;
use smithy_retries::context::ErrorKind;
use smithy_retries::context::RetryReason;

fn context_with_status(status: u16) -> AttemptContext {
    let mut ctx = AttemptContext::new();
    ctx.response_status = Some(status);
    ctx.outcome = Some(AttemptOutcome::Failed {
        error: AttemptError::Other,
    });
    ctx
}

fn context_with_error(error: AttemptError) -> AttemptContext {
    let mut ctx = AttemptContext::new();
    ctx.outcome = Some(AttemptOutcome::Failed { error });
    ctx
}

#[test]
fn classify_by_response_status() {
    let policy = HttpStatusCodeClassifier::default();
    let ctx = context_with_status(500);
    assert_eq!(
        policy.classify_retry(&ctx),
        Some(RetryReason::ClassifiedError {
            kind: ErrorKind::TransientError
        })
    );
}

#[test]
fn classify_by_response_status_not_retryable() {
    let policy = HttpStatusCodeClassifier::default();
    let ctx = context_with_status(408);
    assert_eq!(policy.classify_retry(&ctx), None);
}

#[test]
fn classify_by_error_kind() {
    let policy = ModeledAsRetryableClassifier::new();
    let ctx = context_with_error(AttemptError::Modeled {
        kind: Some(ErrorKind::ClientError),
    });
    assert_eq!(
        policy.classify_retry(&ctx),
        Some(RetryReason::ClassifiedError {
            kind: ErrorKind::ClientError
        })
    );
}

#[test]
fn classify_response_error() {
    let policy = SmithyErrorClassifier::new();
    let ctx = context_with_error(AttemptError::Response);
    assert_eq!(
        policy.classify_retry(&ctx),
        Some(RetryReason::ClassifiedError {
            kind: ErrorKind::TransientError
        })
    );
}

#[test]
fn test_timeout_error() {
    let policy = SmithyErrorClassifier::new();
    let ctx = context_with_error(AttemptError::Timeout);
    assert_eq!(
        policy.classify_retry(&ctx),
        Some(RetryReason::ClassifiedError {
            kind: ErrorKind::TransientError
        })
    );
}

#[test]
fn classify_dispatch_failures() {
    let policy = SmithyErrorClassifier::new();
    let transient = Some(RetryReason::ClassifiedError {
        kind: ErrorKind::TransientError,
    });
    let ctx = context_with_error(AttemptError::Dispatch {
        failure: DispatchFailureKind::TimedOut,
    });
    assert_eq!(policy.classify_retry(&ctx), transient);
    let ctx = context_with_error(AttemptError::Dispatch {
        failure: DispatchFailureKind::Io,
    });
    assert_eq!(policy.classify_retry(&ctx), transient);
    let ctx = context_with_error(AttemptError::Dispatch {
        failure: DispatchFailureKind::Other {
            kind: Some(ErrorKind::ServerError),
        },
    });
    assert_eq!(
        policy.classify_retry(&ctx),
        Some(RetryReason::ClassifiedError {
            kind: ErrorKind::ServerError
        })
    );
    // a failure the transport layer marked not retryable is an abstention
    let ctx = context_with_error(AttemptError::Dispatch {
        failure: DispatchFailureKind::Other { kind: None },
    });
    assert_eq!(policy.classify_retry(&ctx), None);
}

#[test]
fn modeled_classifier_abstains_without_metadata() {
    let policy = ModeledAsRetryableClassifier::new();
    // a modeled error with no retryable classification declared
    let ctx = context_with_error(AttemptError::Modeled { kind: None });
    assert_eq!(policy.classify_retry(&ctx), None);
    // an untyped error: the downcast fails, so the classifier abstains
    let ctx = context_with_error(AttemptError::Other);
    assert_eq!(policy.classify_retry(&ctx), None);
    // a success is never classified retryable
    let mut ctx = AttemptContext::new();
    ctx.outcome = Some(AttemptOutcome::Success);
    assert_eq!(policy.classify_retry(&ctx), None);
}

#[test]
fn pipeline_first_match_wins() {
    // both the modeled-error and the HTTP-status classifier would match:
    // the modeled classification wins in the default order
    let pipeline = default_retry_classifiers();
    let mut ctx = AttemptContext::new();
    ctx.outcome = Some(AttemptOutcome::Failed {
        error: AttemptError::Modeled {
            kind: Some(ErrorKind::ThrottlingError),
        },
    });
    ctx.response_status = Some(503);
    assert_eq!(
        pipeline.classify_retry(&ctx),
        Some(RetryReason::ClassifiedError {
            kind: ErrorKind::ThrottlingError
        })
    );
}

#[test]
fn pipeline_http_status_503_fires() {
    // HTTP response status 503 with no modeled error present: the
    // HTTP-status classifier fires with a transient kind
    let pipeline = default_retry_classifiers();
    let ctx = context_with_status(503);
    assert_eq!(
        pipeline.classify_retry(&ctx),
        Some(RetryReason::ClassifiedError {
            kind: ErrorKind::TransientError
        })
    );
}

#[test]
fn pipeline_http_status_408_abstains() {
    // 408 is not in the default retryable set, and no other classifier
    // understands the error: no classifier fires
    let pipeline = default_retry_classifiers();
    let ctx = context_with_status(408);
    assert_eq!(pipeline.classify_retry(&ctx), None);
}

#[test]
fn classifier_names() {
    assert_eq!(
        ModeledAsRetryableClassifier::new().name(),
        "Errors Modeled As Retryable"
    );
    assert_eq!(SmithyErrorClassifier::new().name(), "Retryable Smithy Errors");
    assert_eq!(HttpStatusCodeClassifier::default().name(), "HTTP Status Code");
}

#[test]
fn custom_status_codes() {
    let policy = HttpStatusCodeClassifier::new_from_codes(vec![429]);
    assert_eq!(
        policy.classify_retry(&context_with_status(429)),
        Some(RetryReason::ClassifiedError {
            kind: ErrorKind::TransientError
        })
    );
    assert_eq!(policy.classify_retry(&context_with_status(500)), None);
}

#[test]
fn fresh_context_reports_no_success() {
    let ctx = AttemptContext::new();
    assert_eq!(ctx.attempt, 1);
    assert_eq!(ctx.elapsed_ms, 0);
    assert!(!ctx.is_success());
    assert_eq!(ctx.retry_reason, None);
    let mut done = AttemptContext::new();
    done.outcome = Some(AttemptOutcome::Success);
    assert!(done.is_success());
}
