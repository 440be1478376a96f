use serverless_workflow::auth::{
    AuthenticationSchemeDefinition, BasicAuthenticationSchemeDefinition, default_introspection_endpoint,
    default_oauth2_request_encoding, default_revocation_endpoint, default_token_endpoint,
};
use serverless_workflow::duration::{Duration, OneOfDurationOrIso8601Expression};
use serverless_workflow::map::OrderedMap;
use serverless_workflow::model_codec::encode_workflow_definition;
use serverless_workflow::resource::default_schema_format;
use serverless_workflow::task::{
    CallTaskDefinition, DoTaskDefinition, ProcessTypeDefinition, ShellProcessDefinition, TaskDefinition,
    WaitTaskDefinition,
};
use serverless_workflow::value::AnyValue;
use serverless_workflow::workflow::{
    WorkflowDefinition, WorkflowDefinitionMetadata, default_dsl_version, default_namespace,
    default_runtime_expression_language,
};

#[test]
fn create_workflow() {
    let namespace = "fake-namespace";
    let name = "fake-workflow";
    let version = "1.0.0";
    let title = Some("fake-title".to_string());
    let summary = Some("fake-summary".to_string());
    let document = WorkflowDefinitionMetadata::new(namespace, name, version, title.clone(), summary.clone(), None);
    let mut call_task = CallTaskDefinition::new("http", None, Some(true));
    call_task.common.then_ = Some("continue".to_string());
    let do_task = DoTaskDefinition::new(OrderedMap::from(vec![(
        "set".to_string(),
        TaskDefinition::Wait(WaitTaskDefinition::new(OneOfDurationOrIso8601Expression::Duration(
            Duration::from_milliseconds(200),
        ))),
    )]));
    let mut workflow = WorkflowDefinition::new(document);
    workflow.do_ = OrderedMap::new();
    workflow.do_.add("callTask".to_string(), TaskDefinition::Call(call_task));
    workflow.do_.add("doTask".to_string(), TaskDefinition::Do(do_task));
    let tree = encode_workflow_definition(&workflow);
    assert!(matches!(tree, AnyValue::Object(_)), "Serialization failed: {:?}", tree);
    assert_eq!(workflow.document.namespace, namespace);
    assert_eq!(workflow.document.name, name);
    assert_eq!(workflow.document.version, version);
    assert_eq!(workflow.document.title, title);
    assert_eq!(workflow.document.summary, summary);
}

#[test]
fn duration_arithmetic() {
    assert_eq!(Duration::from_days(1).total_milliseconds(), 86_400_000);
    assert_eq!(Duration::from_minutes(69).total_milliseconds(), 4_140_000);
    let mixed = Duration { hours: Some(1), seconds: Some(30), ..Duration::default() };
    assert_eq!(mixed.total_milliseconds(), 3_630_000);
    assert_eq!(Duration::from_hours(2).total_milliseconds(), 7_200_000);
    assert_eq!(Duration::from_seconds(5).total_milliseconds(), 5_000);
    assert_eq!(Duration::from_milliseconds(7).total_milliseconds(), 7);
    assert_eq!(Duration::default().total_milliseconds(), 0);
}

#[test]
fn duration_text() {
    let d = Duration { days: Some(1), hours: Some(2), milliseconds: Some(30), ..Duration::default() };
    assert_eq!(d.to_string(), "1 days 2 hours 30 milliseconds");
    assert_eq!(Duration::from_minutes(69).to_string(), "69 minutes");
    assert_eq!(Duration::default().to_string(), "");
    assert_eq!(OneOfDurationOrIso8601Expression::Iso8601Expression("PT1M".to_string()).to_string(), "PT1M");
    assert_eq!(OneOfDurationOrIso8601Expression::Duration(Duration::from_seconds(0)).to_string(), "0 seconds");
}

#[test]
fn default_values() {
    assert_eq!(default_namespace(), "default");
    assert_eq!(default_dsl_version(), "1.0.0");
    assert_eq!(default_runtime_expression_language(), "jq");
    assert_eq!(default_schema_format(), "json");
    assert_eq!(default_oauth2_request_encoding(), "application/x-www-form-urlencoded");
    assert_eq!(default_token_endpoint(), "/oauth2/token");
    assert_eq!(default_revocation_endpoint(), "/oauth2/revoke");
    assert_eq!(default_introspection_endpoint(), "/oauth2/introspect");
}

#[test]
fn kinds_and_schemes_have_names() {
    let t = TaskDefinition::Wait(WaitTaskDefinition::new(OneOfDurationOrIso8601Expression::Iso8601Expression("PT1S".to_string())));
    assert_eq!(t.task_type(), "wait");
    let basic = BasicAuthenticationSchemeDefinition { use_: None, username: None, password: None };
    assert_eq!(basic.scheme(), "Basic");
    let p = ProcessTypeDefinition::using_shell(ShellProcessDefinition::new("ls", None, None), None);
    assert_eq!(p.get_process_type(), "shell");
}
