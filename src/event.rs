use vstd::prelude::*;
use crate::value::AnyValue;

verus! {

/// Which events to consume: all of a set of filters, any of them (optionally until a stop
/// condition), or exactly one. Exactly one of `all`, `any` and `one` is meant to be filled.
#[derive(Debug, PartialEq)]
pub struct EventConsumptionStrategyDefinition {
    pub all: Option<Vec<EventFilterDefinition>>,
    pub any: Option<Vec<EventFilterDefinition>>,
    pub one: Option<EventFilterDefinition>,
    pub until: Option<Box<OneOfEventConsumptionStrategyDefinitionOrExpression>>,
}

impl EventConsumptionStrategyDefinition {
    /// A strategy with every slot empty.
    pub fn new() -> (r: Self)
        ensures
            r.all is None,
            r.any is None,
            r.one is None,
            r.until is None,
    {
        EventConsumptionStrategyDefinition { all: None, any: None, one: None, until: None }
    }
}

/// A filter on events: attributes to match and correlation keys.
#[derive(Debug, PartialEq)]
pub struct EventFilterDefinition {
    pub with: Option<Vec<(String, AnyValue)>>,
    pub correlate: Option<Vec<(String, CorrelationKeyDefinition)>>,
}

/// A correlation key: where to read it from and, optionally, the value to expect.
#[derive(Debug, Clone, PartialEq)]
pub struct CorrelationKeyDefinition {
    pub from: String,
    pub expect: Option<String>,
}

impl CorrelationKeyDefinition {
    /// A key read from `from`, expecting `expect` if given.
    pub fn new(from: &str, expect: Option<String>) -> (r: Self)
        ensures
            r.from@ == from@,
            r.expect == expect,
    {
        CorrelationKeyDefinition { from: from.to_string(), expect }
    }
}

/// An event, given by its attributes.
#[derive(Debug, PartialEq)]
pub struct EventDefinition {
    pub with: Vec<(String, AnyValue)>,
}

impl EventDefinition {
    /// An event with the given attributes.
    pub fn new(with: Vec<(String, AnyValue)>) -> (r: Self)
        ensures
            r.with@ == with@,
    {
        EventDefinition { with }
    }
}

/// The condition that ends an 'any' consumption: another strategy, or an expression.
#[derive(Debug, PartialEq)]
pub enum OneOfEventConsumptionStrategyDefinitionOrExpression {
    Strategy(EventConsumptionStrategyDefinition),
    Expression(String),
}

} // verus!
