use vstd::prelude::*;
use crate::duration::Duration;

verus! {

/// How to retry a failed task: when, how often, how long to wait, and with what backoff and
/// jitter.
#[derive(Debug, PartialEq)]
pub struct RetryPolicyDefinition {
    pub when: Option<String>,
    pub except_when: Option<String>,
    pub limit: Option<RetryPolicyLimitDefinition>,
    pub delay: Option<Duration>,
    pub backoff: Option<BackoffStrategyDefinition>,
    pub jitter: Option<JitterDefinition>,
}

/// The limits of a retry policy.
#[derive(Debug, PartialEq)]
pub struct RetryPolicyLimitDefinition {
    pub attempt: Option<RetryAttemptLimitDefinition>,
    pub duration: Option<Duration>,
}

/// The limits on attempts: how many, and how long each may last.
#[derive(Debug, PartialEq)]
pub struct RetryAttemptLimitDefinition {
    pub count: Option<u16>,
    pub duration: Option<Duration>,
}

/// The growth of the delay between attempts. Exactly one of the slots is meant to be filled.
#[derive(Debug, PartialEq)]
pub struct BackoffStrategyDefinition {
    pub constant: Option<ConstantBackoffDefinition>,
    pub exponential: Option<ExponentialBackoffDefinition>,
    pub linear: Option<LinearBackoffDefinition>,
}

impl BackoffStrategyDefinition {
    /// A strategy with every slot empty.
    pub fn new() -> (r: Self)
        ensures
            r.constant is None,
            r.exponential is None,
            r.linear is None,
    {
        BackoffStrategyDefinition { constant: None, exponential: None, linear: None }
    }
}

/// A delay that stays the same.
#[derive(Debug, PartialEq)]
pub struct ConstantBackoffDefinition {}

impl ConstantBackoffDefinition {
    pub fn new() -> (r: Self) {
        ConstantBackoffDefinition {}
    }
}

/// A delay that grows exponentially.
#[derive(Debug, PartialEq)]
pub struct ExponentialBackoffDefinition {}

impl ExponentialBackoffDefinition {
    pub fn new() -> (r: Self) {
        ExponentialBackoffDefinition {}
    }
}

/// A delay that grows by a fixed increment.
#[derive(Debug, PartialEq)]
pub struct LinearBackoffDefinition {
    pub increment: Option<Duration>,
}

impl LinearBackoffDefinition {
    /// A linear backoff with no increment set.
    pub fn new() -> (r: Self)
        ensures
            r.increment is None,
    {
        LinearBackoffDefinition { increment: None }
    }
}

/// The bounds of the random amount added to each delay.
#[derive(Debug, PartialEq)]
pub struct JitterDefinition {
    pub from: Duration,
    pub to: Duration,
}

/// A retry policy given inline, or the name of a reusable one.
#[derive(Debug, PartialEq)]
pub enum OneOfRetryPolicyDefinitionOrReference {
    Retry(RetryPolicyDefinition),
    Reference(String),
}

} // verus!
