use vstd::prelude::*;
use crate::duration::OneOfDurationOrIso8601Expression;

verus! {

/// A timeout: the length of time after which to give up.
#[derive(Debug, PartialEq)]
pub struct TimeoutDefinition {
    pub after: OneOfDurationOrIso8601Expression,
}

/// A timeout given inline, or the name of a reusable one.
#[derive(Debug, PartialEq)]
pub enum OneOfTimeoutDefinitionOrReference {
    Timeout(TimeoutDefinition),
    Reference(String),
}

} // verus!
