use vstd::prelude::*;
use crate::duration::{Duration, OneOfDurationOrIso8601Expression, empty_duration};
use crate::timeout::TimeoutDefinition;

verus! {

/// Builds a timeout.
pub struct TimeoutDefinitionBuilder {
    pub timeout: TimeoutDefinition,
}

impl TimeoutDefinitionBuilder {
    /// A timeout after an empty duration.
    pub fn new() -> (r: Self)
        ensures
            r.timeout.after == OneOfDurationOrIso8601Expression::Duration(empty_duration()),
    {
        TimeoutDefinitionBuilder { timeout: TimeoutDefinition { after: OneOfDurationOrIso8601Expression::default() } }
    }

    /// Times out after the given duration.
    pub fn after(&mut self, duration: Duration) -> (r: &mut Self)
        ensures
            r.timeout.after == OneOfDurationOrIso8601Expression::Duration(duration),
            *final(self) == *final(r),
    {
        self.timeout.after = OneOfDurationOrIso8601Expression::Duration(duration);
        self
    }

    /// Times out after the duration of the given ISO 8601 expression.
    pub fn after_expression(&mut self, duration: String) -> (r: &mut Self)
        ensures
            r.timeout.after == OneOfDurationOrIso8601Expression::Iso8601Expression(duration),
            *final(self) == *final(r),
    {
        self.timeout.after = OneOfDurationOrIso8601Expression::Iso8601Expression(duration);
        self
    }

    /// Nothing was configured yet.
    pub open spec fn is_fresh(&self) -> bool {
        self.timeout.after == OneOfDurationOrIso8601Expression::Duration(empty_duration())
    }

    /// What `build` yields.
    pub open spec fn value(&self) -> TimeoutDefinition {
        self.timeout
    }

    pub fn build(self) -> (r: TimeoutDefinition)
        ensures
            r == self.timeout,
    {
        self.timeout
    }
}

} // verus!
