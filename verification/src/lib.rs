//! Retry resilience core: decides, after each attempt of a networked
//! operation, whether the outcome is retryable, gates retries against a
//! shared token-bucket budget, and computes backoff delays. The orchestrator
//! that performs the network attempts and sleeps is an external collaborator:
//! this crate only computes decisions and durations.

pub mod context;
pub mod classifier;
pub mod budget;
pub mod strategy;
pub mod discovery;
