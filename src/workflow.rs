use vstd::prelude::*;
use crate::auth::AuthenticationPolicyDefinition;
use crate::duration::Duration;
use crate::error::ErrorDefinition;
use crate::event::EventConsumptionStrategyDefinition;
use crate::map::OrderedMap;
use crate::resource::{InputDataModelDefinition, OneOfEndpointDefinitionUri, OutputDataModelDefinition};
use crate::retry::RetryPolicyDefinition;
use crate::task::{TaskDefinition, TaskMap};
use crate::timeout::{OneOfTimeoutDefinitionOrReference, TimeoutDefinition};
use crate::value::AnyValue;

verus! {

/// The namespace of a workflow that names none.
pub const DEFAULT_NAMESPACE: &'static str = "default";

/// The latest version of the workflow language.
pub const LATEST_DSL_VERSION: &'static str = "1.0.0";

/// The name of the default catalog.
pub const DEFAULT_CATALOG_NAME: &'static str = "default";

/// The namespace used when none is given.
pub fn default_namespace() -> (r: String)
    ensures
        r@ == DEFAULT_NAMESPACE@,
{
    DEFAULT_NAMESPACE.to_string()
}

/// The language version used when none is given.
pub fn default_dsl_version() -> (r: String)
    ensures
        r@ == LATEST_DSL_VERSION@,
{
    LATEST_DSL_VERSION.to_string()
}

/// The runtime expression language used when none is given.
pub fn default_runtime_expression_language() -> (r: String)
    ensures
        r@ == RuntimeExpressionLanguage::JQ@,
{
    RuntimeExpressionLanguage::JQ.to_string()
}

/// The supported runtime expression languages.
pub struct RuntimeExpressionLanguage;

impl RuntimeExpressionLanguage {
    pub const JQ: &'static str = "jq";
    pub const JAVASCRIPT: &'static str = "js";
}

/// A workflow: its metadata, reusable components, and the ordered tasks it runs.
#[derive(Debug, PartialEq)]
pub struct WorkflowDefinition {
    pub document: WorkflowDefinitionMetadata,
    pub input: Option<InputDataModelDefinition>,
    pub use_: Option<ComponentDefinitionCollection>,
    pub timeout: Option<OneOfTimeoutDefinitionOrReference>,
    pub output: Option<OutputDataModelDefinition>,
    pub schedule: Option<WorkflowScheduleDefinition>,
    pub evaluate: Option<RuntimeExpressionEvaluationConfiguration>,
    pub do_: TaskMap,
    pub metadata: Option<Vec<(String, AnyValue)>>,
}

impl WorkflowDefinition {
    /// A workflow with the given metadata and nothing else.
    pub fn new(document: WorkflowDefinitionMetadata) -> (r: Self)
        ensures
            r.document == document,
            r.input is None && r.use_ is None && r.timeout is None && r.output is None,
            r.schedule is None && r.evaluate is None && r.metadata is None,
            r.do_@.len() == 0,
    {
        WorkflowDefinition {
            document,
            input: None,
            use_: None,
            timeout: None,
            output: None,
            schedule: None,
            evaluate: None,
            do_: OrderedMap::new(),
            metadata: None,
        }
    }
}

/// What a workflow document says of itself.
#[derive(Debug, PartialEq)]
pub struct WorkflowDefinitionMetadata {
    pub dsl: String,
    pub namespace: String,
    pub name: String,
    pub version: String,
    pub title: Option<String>,
    pub summary: Option<String>,
    pub tags: Option<Vec<(String, String)>>,
}

impl WorkflowDefinitionMetadata {
    /// Metadata in the latest language version.
    pub fn new(
        namespace: &str,
        name: &str,
        version: &str,
        title: Option<String>,
        summary: Option<String>,
        tags: Option<Vec<(String, String)>>,
    ) -> (r: Self)
        ensures
            r.dsl@ == LATEST_DSL_VERSION@,
            r.namespace@ == namespace@,
            r.name@ == name@,
            r.version@ == version@,
            r.title == title,
            r.summary == summary,
            r.tags == tags,
    {
        WorkflowDefinitionMetadata {
            dsl: default_dsl_version(),
            namespace: namespace.to_string(),
            name: name.to_string(),
            version: version.to_string(),
            title,
            summary,
            tags,
        }
    }
}

/// When a workflow is started.
#[derive(Debug, PartialEq)]
pub struct WorkflowScheduleDefinition {
    pub every: Option<Duration>,
    pub cron: Option<String>,
    pub after: Option<Duration>,
    pub on: Option<EventConsumptionStrategyDefinition>,
}

/// How runtime expressions are evaluated.
#[derive(Debug, PartialEq)]
pub struct RuntimeExpressionEvaluationConfiguration {
    pub language: String,
    pub mode: Option<String>,
}

/// The reusable components a workflow defines, each by name.
#[derive(Debug, PartialEq)]
pub struct ComponentDefinitionCollection {
    pub authentications: Option<Vec<(String, AuthenticationPolicyDefinition)>>,
    pub catalogs: Option<Vec<(String, CatalogDefinition)>>,
    pub errors: Option<Vec<(String, ErrorDefinition)>>,
    pub extensions: Option<Vec<(String, ExtensionDefinition)>>,
    pub functions: Option<Vec<(String, TaskDefinition)>>,
    pub retries: Option<Vec<(String, RetryPolicyDefinition)>>,
    pub secrets: Option<Vec<String>>,
    pub timeouts: Option<Vec<(String, TimeoutDefinition)>>,
}

impl ComponentDefinitionCollection {
    /// A collection with nothing in it.
    pub open spec fn empty() -> Self {
        ComponentDefinitionCollection {
            authentications: None,
            catalogs: None,
            errors: None,
            extensions: None,
            functions: None,
            retries: None,
            secrets: None,
            timeouts: None,
        }
    }

    /// A collection with nothing in it.
    pub fn new() -> (r: Self)
        ensures
            r == Self::empty(),
    {
        ComponentDefinitionCollection {
            authentications: None,
            catalogs: None,
            errors: None,
            extensions: None,
            functions: None,
            retries: None,
            secrets: None,
            timeouts: None,
        }
    }
}

/// A catalog of reusable functions, found at an endpoint.
#[derive(Debug, PartialEq)]
pub struct CatalogDefinition {
    pub endpoint: OneOfEndpointDefinitionUri,
}

/// An extension: tasks to run before or after the tasks of a kind.
#[derive(Debug, PartialEq)]
pub struct ExtensionDefinition {
    pub extend: String,
    pub when: Option<String>,
    pub before: Option<TaskMap>,
    pub after: Option<TaskMap>,
}

} // verus!
