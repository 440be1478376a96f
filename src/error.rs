use vstd::prelude::*;
use crate::value::AnyValue;

verus! {

/// An error, described by a type URI, a title, a status and optional details.
#[derive(Debug, PartialEq)]
pub struct ErrorDefinition {
    pub type_: String,
    pub title: String,
    pub status: AnyValue,
    pub detail: Option<String>,
    pub instance: Option<String>,
}

impl ErrorDefinition {
    /// An error with the given fields.
    pub fn new(
        type_: &str,
        title: &str,
        status: AnyValue,
        detail: Option<String>,
        instance: Option<String>,
    ) -> (r: Self)
        ensures
            r.type_@ == type_@,
            r.title@ == title@,
            r.status == status,
            r.detail == detail,
            r.instance == instance,
    {
        ErrorDefinition { type_: type_.to_string(), title: title.to_string(), status, detail, instance }
    }
}

/// An error given inline, or the name of a reusable one.
#[derive(Debug, PartialEq)]
pub enum OneOfErrorDefinitionOrReference {
    Error(ErrorDefinition),
    Reference(String),
}

} // verus!
