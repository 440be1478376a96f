use vstd::prelude::*;
use crate::auth::AuthenticationPolicyDefinition;
use crate::value::AnyValue;

verus! {

/// An external resource: an optional name and where to find it.
#[derive(Debug, PartialEq)]
pub struct ExternalResourceDefinition {
    pub name: Option<String>,
    pub endpoint: OneOfEndpointDefinitionUri,
}

/// An endpoint: a URI and the authentication it requires, if any.
#[derive(Debug, PartialEq)]
pub struct EndpointDefinition {
    pub uri: String,
    pub authentication: Option<AuthenticationPolicyDefinition>,
}

/// An endpoint given in full, or as a bare URI.
#[derive(Debug, PartialEq)]
pub enum OneOfEndpointDefinitionUri {
    EndpointDefinition(EndpointDefinition),
    Uri(String),
}

/// The supported schema formats.
pub struct SchemaFormat;

impl SchemaFormat {
    pub const AVRO: &'static str = "avro";
    pub const JSON: &'static str = "json";
    pub const XML: &'static str = "xml";
}

/// The schema format used when none is given.
pub fn default_schema_format() -> (r: String)
    ensures
        r@ == SchemaFormat::JSON@,
{
    SchemaFormat::JSON.to_string()
}

/// A schema: its format, and the schema itself inline or as an external resource.
#[derive(Debug, PartialEq)]
pub struct SchemaDefinition {
    pub format: String,
    pub resource: Option<ExternalResourceDefinition>,
    pub document: Option<AnyValue>,
}

/// How the input of a workflow or task is validated and transformed.
#[derive(Debug, PartialEq)]
pub struct InputDataModelDefinition {
    pub schema: Option<SchemaDefinition>,
    pub from: Option<AnyValue>,
}

/// How the output of a workflow or task is validated and transformed.
#[derive(Debug, PartialEq)]
pub struct OutputDataModelDefinition {
    pub schema: Option<SchemaDefinition>,
    pub as_: Option<AnyValue>,
}

} // verus!
