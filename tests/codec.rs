use serverless_workflow::codec::DecodeError;
use serverless_workflow::duration::{Duration, OneOfDurationOrIso8601Expression};
use serverless_workflow::duration_codec::{decode_duration_or_expression, encode_duration_or_expression};
use serverless_workflow::map::OrderedMap;
use serverless_workflow::model_codec::{
    decode_for_loop, decode_script_process, decode_set_task, decode_task, decode_task_map,
    decode_wait_task, decode_workflow_definition, encode_set_value, encode_task, encode_task_map,
    encode_workflow_definition, parse_port,
};
use serverless_workflow::task::{
    CallTaskDefinition, ForLoopDefinition, ForTaskDefinition, SetValue, TaskDefinition, WaitTaskDefinition,
};
use serverless_workflow::model_codec::{decode_timeout_or_reference, encode_timeout_or_reference};
use serverless_workflow::timeout::{OneOfTimeoutDefinitionOrReference, TimeoutDefinition};
use serverless_workflow::model_codec::{reread_task, reread_workflow};
use serverless_workflow::task_builder::{GenericTaskDefinitionBuilder, TaskDefinitionBuilderBase};
use serverless_workflow::value::AnyValue;
use serverless_workflow::workflow::{WorkflowDefinition, WorkflowDefinitionMetadata};

fn text(s: &str) -> AnyValue {
    AnyValue::String(s.to_string())
}

fn obj(fields: Vec<(&str, AnyValue)>) -> AnyValue {
    AnyValue::Object(fields.into_iter().map(|(k, v)| (k.to_string(), v)).collect())
}

fn names_of(v: &AnyValue) -> Vec<String> {
    match v {
        AnyValue::Array(items) => items
            .iter()
            .map(|i| match i {
                AnyValue::Object(f) if f.len() == 1 => f[0].0.clone(),
                other => panic!("not a single-field object: {:?}", other),
            })
            .collect(),
        other => panic!("not an array: {:?}", other),
    }
}

#[test]
fn test_for_loop_definition_each_field_deserialization() {
    let json = obj(vec![("each", text("item")), ("in", text(".items"))]);
    let for_loop = decode_for_loop(&json, "for").expect("Failed to deserialize ForLoopDefinition with 'each' field");
    assert_eq!(for_loop.each, "item", "The 'each' field should be 'item'");
    assert_eq!(for_loop.in_, ".items", "The 'in' field should be '.items'");
}

#[test]
fn test_for_task_deserialization() {
    let json = obj(vec![
        ("for", obj(vec![("each", text("item")), ("in", text(".items"))])),
        (
            "do",
            AnyValue::Array(vec![obj(vec![(
                "processItem",
                obj(vec![("call", text("processFunction")), ("with", obj(vec![("item", text("${ .item }"))]))]),
            )])]),
        ),
    ]);
    match decode_task(&json, "task") {
        Ok(TaskDefinition::For(for_def)) => {
            assert_eq!(for_def.for_.each, "item");
            assert_eq!(for_def.for_.in_, ".items");
            assert_eq!(for_def.do_.entries.len(), 1);
            assert!(for_def.do_.contains_key("processItem"), "For task should contain processItem subtask");
        }
        Ok(TaskDefinition::Do(_)) => panic!("For task incorrectly deserialized as DoTaskDefinition"),
        Ok(other) => panic!("For task deserialized as unexpected variant: {:?}", other),
        Err(e) => panic!("Failed to deserialize For task: {:?}", e),
    }
}

#[test]
fn test_do_task_deserialization() {
    let json = obj(vec![(
        "do",
        AnyValue::Array(vec![
            obj(vec![("step1", obj(vec![("call", text("function1"))]))]),
            obj(vec![("step2", obj(vec![("call", text("function2"))]))]),
        ]),
    )]);
    match decode_task(&json, "task") {
        Ok(TaskDefinition::Do(do_def)) => {
            assert_eq!(do_def.do_.entries.len(), 2);
            assert!(do_def.do_.contains_key("step1"), "Do task should contain step1");
            assert!(do_def.do_.contains_key("step2"), "Do task should contain step2");
        }
        Ok(other) => panic!("Do task deserialized as unexpected variant: {:?}", other),
        Err(e) => panic!("Failed to deserialize Do task: {:?}", e),
    }
}

#[test]
fn test_for_task_with_while_condition() {
    let json = obj(vec![
        ("for", obj(vec![("each", text("user")), ("in", text(".users")), ("at", text("index"))])),
        ("while", text("${ .index < 10 }")),
        (
            "do",
            AnyValue::Array(vec![obj(vec![(
                "notifyUser",
                obj(vec![
                    ("call", text("notifyUser")),
                    ("with", obj(vec![("user", text("${ .user }")), ("index", text("${ .index }"))])),
                ]),
            )])]),
        ),
    ]);
    match decode_task(&json, "task") {
        Ok(TaskDefinition::For(for_def)) => {
            assert_eq!(for_def.for_.each, "user");
            assert_eq!(for_def.for_.in_, ".users");
            assert_eq!(for_def.for_.at, Some("index".to_string()));
            assert_eq!(for_def.while_, Some("${ .index < 10 }".to_string()));
            assert_eq!(for_def.do_.entries.len(), 1);
        }
        Ok(TaskDefinition::Do(_)) => panic!("For task incorrectly deserialized as DoTaskDefinition"),
        Ok(other) => panic!("For task deserialized as unexpected variant: {:?}", other),
        Err(e) => panic!("Failed to deserialize For task with while: {:?}", e),
    }
}

#[test]
fn test_roundtrip_serialization() {
    let for_loop = ForLoopDefinition::new("item", ".collection", None, None);
    let mut do_tasks = OrderedMap::new();
    do_tasks.add("task1".to_string(), TaskDefinition::Call(CallTaskDefinition::new("someFunction", None, None)));
    let task_def = TaskDefinition::For(ForTaskDefinition::new(for_loop, do_tasks, None));
    let tree = encode_task(&task_def);
    match decode_task(&tree, "task") {
        Ok(TaskDefinition::For(for_def)) => {
            assert_eq!(for_def.for_.each, "item");
            assert_eq!(for_def.for_.in_, ".collection");
        }
        Ok(TaskDefinition::Do(_)) => panic!("After roundtrip serialization, For task became a Do task"),
        other => panic!("Unexpected variant after roundtrip: {:?}", other),
    }
}

#[test]
fn test_set_value_map_deserialization() {
    let json = obj(vec![("set", obj(vec![("foo", text("bar")), ("count", AnyValue::UInt(42))]))]);
    let result = decode_set_task(&json, "task");
    assert!(result.is_ok(), "Failed to deserialize set task with map: {:?}", result.as_ref().err());
    match result.unwrap().set {
        SetValue::Entries(map) => {
            assert_eq!(map.len(), 2);
            assert_eq!(map.iter().find(|(k, _)| k == "foo").map(|(_, v)| v), Some(&text("bar")));
            assert_eq!(map.iter().find(|(k, _)| k == "count").map(|(_, v)| v), Some(&AnyValue::UInt(42)));
        }
        SetValue::Expression(_) => panic!("Expected SetValue::Map but got SetValue::Expression"),
    }
}

#[test]
fn test_set_value_expression_deserialization() {
    let json = obj(vec![("set", text("${ $workflow.input[0] }"))]);
    let result = decode_set_task(&json, "task");
    assert!(result.is_ok(), "Failed to deserialize set task with expression: {:?}", result.as_ref().err());
    match result.unwrap().set {
        SetValue::Expression(expr) => assert_eq!(expr, "${ $workflow.input[0] }"),
        SetValue::Entries(_) => panic!("Expected SetValue::Expression but got SetValue::Map"),
    }
}

#[test]
fn test_wait_task_iso8601_deserialization() {
    let json = obj(vec![("wait", text("PT30S"))]);
    let result = decode_wait_task(&json, "task");
    assert!(result.is_ok(), "Failed to deserialize wait task with ISO 8601: {:?}", result.as_ref().err());
    match result.unwrap().wait {
        OneOfDurationOrIso8601Expression::Iso8601Expression(expr) => assert_eq!(expr, "PT30S"),
        OneOfDurationOrIso8601Expression::Duration(_) => panic!("Expected Iso8601Expression but got Duration"),
    }
}

#[test]
fn test_wait_task_inline_duration_deserialization() {
    let json = obj(vec![("wait", obj(vec![("seconds", AnyValue::UInt(30))]))]);
    let result = decode_wait_task(&json, "task");
    assert!(result.is_ok(), "Failed to deserialize wait task with inline duration: {:?}", result.as_ref().err());
    match result.unwrap().wait {
        OneOfDurationOrIso8601Expression::Duration(duration) => {
            assert_eq!(duration.seconds, Some(30));
            assert_eq!(duration, Duration::from_seconds(30));
        }
        OneOfDurationOrIso8601Expression::Iso8601Expression(_) => panic!("Expected Duration but got Iso8601Expression"),
    }
}

#[test]
fn test_script_process_arguments_array_deserialization() {
    let json = obj(vec![
        ("language", text("javascript")),
        ("code", text("console.log('test')")),
        ("arguments", AnyValue::Array(vec![text("hello"), text("world")])),
    ]);
    let result = decode_script_process(&json, "script");
    assert!(result.is_ok(), "Failed to deserialize script with array arguments: {:?}", result.as_ref().err());
    let script = result.unwrap();
    assert_eq!(script.language, "javascript");
    assert!(script.arguments.is_some());
    let args = script.arguments.unwrap();
    assert_eq!(args.len(), 2);
    assert_eq!(args[0], "hello");
    assert_eq!(args[1], "world");
}

#[test]
fn test_script_process_with_stdin_deserialization() {
    let json = obj(vec![
        ("language", text("python")),
        ("code", text("print('test')")),
        ("stdin", text("Hello Workflow")),
        ("arguments", AnyValue::Array(vec![text("arg1")])),
        ("environment", obj(vec![("FOO", text("bar"))])),
    ]);
    let result = decode_script_process(&json, "script");
    assert!(result.is_ok(), "Failed to deserialize script with stdin: {:?}", result.as_ref().err());
    let script = result.unwrap();
    assert_eq!(script.language, "python");
    assert_eq!(script.stdin, Some("Hello Workflow".to_string()));
    assert!(script.arguments.is_some());
    assert_eq!(script.arguments.as_ref().unwrap().len(), 1);
    assert!(script.environment.is_some());
    assert_eq!(
        script.environment.as_ref().unwrap().iter().find(|(k, _)| k == "FOO").map(|(_, v)| v),
        Some(&"bar".to_string())
    );
}

#[test]
fn object_without_task_key_matches_no_shape() {
    let json = obj(vec![("then", text("end"))]);
    assert_eq!(decode_task(&json, "task"), Err(DecodeError::NoShapeMatched));
}

#[test]
fn task_of_wrong_shape_is_rejected() {
    assert_eq!(decode_task(&text("call"), "task"), Err(DecodeError::WrongType("task".to_string())));
    let json = obj(vec![("call", AnyValue::UInt(5))]);
    assert_eq!(decode_task(&json, "task"), Err(DecodeError::WrongType("call".to_string())));
    let json = obj(vec![("for", obj(vec![("each", text("x"))])), ("do", AnyValue::Array(vec![]))]);
    assert_eq!(decode_task(&json, "task"), Err(DecodeError::MissingField("in".to_string())));
}

#[test]
fn wait_duration_round_trips_in_both_shapes() {
    let d = OneOfDurationOrIso8601Expression::Duration(Duration { hours: Some(1), seconds: Some(30), ..Duration::default() });
    let tree = encode_duration_or_expression(&d);
    assert_eq!(tree, obj(vec![("hours", AnyValue::UInt(1)), ("seconds", AnyValue::UInt(30))]));
    assert_eq!(decode_duration_or_expression(&tree, "wait"), Ok(d));
    let e = OneOfDurationOrIso8601Expression::Iso8601Expression("PT30S".to_string());
    let tree = encode_duration_or_expression(&e);
    assert_eq!(tree, text("PT30S"));
    assert_eq!(decode_duration_or_expression(&tree, "wait"), Ok(e));
    assert!(decode_duration_or_expression(&AnyValue::Bool(true), "wait").is_err());
}

#[test]
fn set_value_round_trips_in_both_shapes() {
    let entries = SetValue::Entries(vec![("foo".to_string(), text("bar")), ("count".to_string(), AnyValue::UInt(42))]);
    let tree = encode_set_value(&entries);
    assert_eq!(tree, obj(vec![("foo", text("bar")), ("count", AnyValue::UInt(42))]));
    let back = decode_set_task(&obj(vec![("set", tree)]), "task").expect("set");
    assert_eq!(back.set, entries);
    let expr = SetValue::Expression("${ .x }".to_string());
    assert_eq!(encode_set_value(&expr), text("${ .x }"));
}

#[test]
fn task_order_is_kept_through_the_tree() {
    let mut m = OrderedMap::new();
    m.add("n1".to_string(), TaskDefinition::Call(CallTaskDefinition::new("f1", None, None)));
    m.add("n2".to_string(), TaskDefinition::Wait(WaitTaskDefinition::new(OneOfDurationOrIso8601Expression::Iso8601Expression("PT1S".to_string()))));
    m.add("n3".to_string(), TaskDefinition::Call(CallTaskDefinition::new("f3", None, None)));
    let tree = encode_task_map(&m);
    assert_eq!(names_of(&tree), vec!["n1", "n2", "n3"]);
    let back = decode_task_map(&tree, "do").expect("map");
    let names: Vec<&str> = back.entries.iter().map(|(n, _)| n.as_str()).collect();
    assert_eq!(names, vec!["n1", "n2", "n3"]);
    assert!(matches!(back.get("n2"), Some(TaskDefinition::Wait(_))));
}

#[test]
fn duplicate_names_are_kept_and_first_wins() {
    let mut m = OrderedMap::new();
    m.add("same".to_string(), 1u8);
    m.add("same".to_string(), 2u8);
    assert_eq!(m.len(), 2);
    assert_eq!(m.get("same"), Some(&1u8));
    assert_eq!(m.get("other"), None);
    let from = OrderedMap::from(vec![("a".to_string(), 1u8), ("b".to_string(), 2u8)]);
    assert_eq!(from.entries, vec![("a".to_string(), 1u8), ("b".to_string(), 2u8)]);
}

#[test]
fn workflow_round_trips_through_the_tree() {
    let document = WorkflowDefinitionMetadata::new("ns", "wf", "1.0.0", Some("t".to_string()), None, None);
    let mut workflow = WorkflowDefinition::new(document);
    workflow.do_.add("a".to_string(), TaskDefinition::Call(CallTaskDefinition::new("http", None, Some(true))));
    let tree = encode_workflow_definition(&workflow);
    let back = decode_workflow_definition(&tree).expect("workflow");
    assert_eq!(back, workflow);
}

#[test]
fn missing_document_defaults_are_filled_in() {
    let json = obj(vec![
        ("document", obj(vec![("name", text("wf")), ("version", text("0.1"))])),
        ("do", AnyValue::Array(vec![])),
    ]);
    let w = decode_workflow_definition(&json).expect("workflow");
    assert_eq!(w.document.namespace, "default");
    assert_eq!(w.document.dsl, "1.0.0");
}

#[test]
fn ports_are_written_and_read_in_decimal() {
    assert_eq!(parse_port(&"8080".to_string()), Some(8080));
    assert_eq!(parse_port(&"65535".to_string()), Some(65535));
    assert_eq!(parse_port(&"65536".to_string()), None);
    assert_eq!(parse_port(&"".to_string()), None);
    assert_eq!(parse_port(&"80a".to_string()), None);
}

#[test]
fn timeout_round_trips_inline_and_by_name() {
    let inline = OneOfTimeoutDefinitionOrReference::Timeout(TimeoutDefinition {
        after: OneOfDurationOrIso8601Expression::Duration(Duration::from_minutes(69)),
    });
    let tree = encode_timeout_or_reference(&inline);
    assert_eq!(tree, obj(vec![("after", obj(vec![("minutes", AnyValue::UInt(69))]))]));
    assert_eq!(decode_timeout_or_reference(&tree, "timeout"), Ok(inline));
    let named = OneOfTimeoutDefinitionOrReference::Reference("short".to_string());
    let tree = encode_timeout_or_reference(&named);
    assert_eq!(tree, text("short"));
    assert_eq!(decode_timeout_or_reference(&tree, "timeout"), Ok(named));
    assert_eq!(
        decode_timeout_or_reference(&obj(vec![]), "timeout"),
        Err(DecodeError::MissingField("after".to_string()))
    );
}

#[test]
fn plain_workflow_round_trips_exactly() {
    let workflow = serverless_workflow::workflow_builder::WorkflowBuilder::new()
        .with_name("wf")
        .with_version("1.0.0")
        .with_timeout(|t| {
            t.after(Duration::from_minutes(69));
        })
        .do_("wait", |t| {
            t.wait(OneOfDurationOrIso8601Expression::Iso8601Expression("PT30S".to_string()));
        })
        .do_("set", |t| {
            t.set().variable_expression("${ .x }".to_string());
        })
        .do_("call", |t| {
            t.call("f");
        })
        .build();
    let tree = encode_workflow_definition(&workflow);
    let back = decode_workflow_definition(&tree).expect("workflow");
    assert_eq!(back, workflow);
}

#[test]
fn plain_task_trees_are_single_field_objects() {
    let wait = TaskDefinition::Wait(WaitTaskDefinition::new(OneOfDurationOrIso8601Expression::Iso8601Expression("PT30S".to_string())));
    assert_eq!(encode_task(&wait), obj(vec![("wait", text("PT30S"))]));
    let call = TaskDefinition::Call(CallTaskDefinition::new("f", None, None));
    assert_eq!(encode_task(&call), obj(vec![("call", text("f"))]));
    assert_eq!(decode_task(&obj(vec![("call", text("f"))]), "task"), Ok(call));
    let set = obj(vec![("set", text("${ .x }"))]);
    match decode_task(&set, "task") {
        Ok(TaskDefinition::SetData(s)) => assert_eq!(s.set, SetValue::Expression("${ .x }".to_string())),
        other => panic!("unexpected {:?}", other),
    }
}

#[test]
fn tasks_with_common_fields_read_back_the_same() {
    let mut b = GenericTaskDefinitionBuilder::new();
    b.call("f").with("a", AnyValue::UInt(1)).if_("${ .ok }").then_("continue").with_timeout_reference("short");
    let task = b.build();
    let tree = encode_task(&task);
    assert_eq!(
        tree,
        obj(vec![
            ("call", text("f")),
            ("with", obj(vec![("a", AnyValue::UInt(1))])),
            ("if", text("${ .ok }")),
            ("timeout", text("short")),
            ("then", text("continue")),
        ])
    );
    assert_eq!(reread_task(&task), Ok(task));
}

#[test]
fn built_do_and_for_tasks_read_back_the_same() {
    let mut b = GenericTaskDefinitionBuilder::new();
    b.do_().do_("step1", |t| {
        t.call("function1");
    }).do_("step2", |t| {
        t.call("function2");
    });
    let task = b.build();
    assert_eq!(
        encode_task(&task),
        obj(vec![(
            "do",
            AnyValue::Array(vec![
                obj(vec![("step1", obj(vec![("call", text("function1"))]))]),
                obj(vec![("step2", obj(vec![("call", text("function2"))]))]),
            ]),
        )])
    );
    assert_eq!(reread_task(&task), Ok(task));
    let mut b = GenericTaskDefinitionBuilder::new();
    b.for_().each("item").in_(".items").do_("processItem", |t| {
        t.call("processFunction").with("item", text("${ .item }"));
    });
    let task = b.build();
    let back = reread_task(&task).expect("for task");
    assert!(matches!(back, TaskDefinition::For(_)));
    assert_eq!(back, task);
}

#[test]
fn set_map_reads_back_the_same() {
    let mut b = GenericTaskDefinitionBuilder::new();
    b.set().variables(vec![("foo".to_string(), text("bar")), ("count".to_string(), AnyValue::UInt(42))]);
    let task = b.build();
    assert_eq!(encode_task(&task), obj(vec![("set", obj(vec![("foo", text("bar")), ("count", AnyValue::UInt(42))]))]));
    assert_eq!(reread_task(&task), Ok(task));
}

#[test]
fn workflow_with_simple_tasks_reads_back_the_same() {
    let workflow = serverless_workflow::workflow_builder::WorkflowBuilder::new()
        .with_name("wf")
        .with_version("1.0.0")
        .do_("loop", |t| {
            t.for_().each("x").in_(".xs").do_("inner", |s| {
                s.call("f").with("x", text("${ .x }"));
            });
        })
        .do_("set", |t| {
            t.set().variable("k", AnyValue::UInt(1));
        })
        .build();
    assert_eq!(reread_workflow(&workflow), Ok(workflow));
}

#[test]
fn oauth2_request_and_endpoints_keep_explicit_values() {
    let oauth = obj(vec![
        ("endpoints", obj(vec![("token", text("/custom/token"))])),
        ("request", obj(vec![("encoding", text("application/json"))])),
    ]);
    let json = obj(vec![
        ("document", obj(vec![("name", text("wf")), ("version", text("1"))])),
        ("use", obj(vec![("authentications", obj(vec![("o", obj(vec![("oauth2", oauth)]))]))])),
        ("do", AnyValue::Array(vec![])),
    ]);
    let w = decode_workflow_definition(&json).expect("workflow");
    let policies = w.use_.expect("use").authentications.expect("authentications");
    let scheme = policies[0].1.oauth2.as_ref().expect("oauth2");
    let endpoints = scheme.endpoints.as_ref().expect("endpoints");
    assert_eq!(endpoints.token, "/custom/token");
    assert_eq!(endpoints.revocation, "/oauth2/revoke");
    assert_eq!(scheme.request.as_ref().expect("request").encoding, "application/json");
}

#[test]
fn fork_emit_raise_and_switch_tasks_read_back_the_same() {
    let mut b = GenericTaskDefinitionBuilder::new();
    b.fork().branch(|m| {
        m.do_("w", |t| {
            t.wait(OneOfDurationOrIso8601Expression::Iso8601Expression("PT1S".to_string()));
        });
    });
    let task = b.build();
    assert_eq!(reread_task(&task), Ok(task));
    let mut b = GenericTaskDefinitionBuilder::new();
    b.emit(|e| {
        e.with("type", text("greeting"));
    });
    let task = b.build();
    assert_eq!(reread_task(&task), Ok(task));
    let mut b = GenericTaskDefinitionBuilder::new();
    b.raise().error().with_type("t").with_title("x").with_status(AnyValue::UInt(400)).with_detail("d");
    let task = b.build();
    assert_eq!(reread_task(&task), Ok(task));
    let mut b = GenericTaskDefinitionBuilder::new();
    b.switch().case("first", |c| {
        c.when("${ .ok }").then_("continue");
    }).case("second", |c| {
        c.then_("end");
    });
    let task = b.build();
    assert_eq!(reread_task(&task), Ok(task));
}
