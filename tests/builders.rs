use serverless_workflow::auth_builder::AuthenticationPolicyDefinitionBuilder;
use serverless_workflow::duration::{Duration, OneOfDurationOrIso8601Expression};
use serverless_workflow::error::OneOfErrorDefinitionOrReference;
use serverless_workflow::task::{SetValue, TaskDefinition};
use serverless_workflow::task_builder::{
    GenericBackoffStrategyDefinitionBuilder, GenericTaskDefinitionBuilder, RunTaskDefinitionBuilder,
    SetTaskDefinitionBuilder, TaskDefinitionBuilderBase,
};
use serverless_workflow::timeout::OneOfTimeoutDefinitionOrReference;
use serverless_workflow::value::AnyValue;
use serverless_workflow::model_codec::{decode_workflow_definition, encode_workflow_definition};
use serverless_workflow::workflow_builder::WorkflowBuilder;

fn text(s: &str) -> AnyValue {
    AnyValue::String(s.to_string())
}

fn pairs(items: &[(&str, &str)]) -> Vec<(String, String)> {
    items.iter().map(|(k, v)| (k.to_string(), v.to_string())).collect()
}

fn sample_workflow() -> serverless_workflow::workflow::WorkflowDefinition {
    let dsl_version = "1.0.0";
    let namespace = "namespace";
    let name = "fake-name";
    let version = "1.0.0";
    let title = "fake-title";
    let summary = "fake-summary";
    let tags = pairs(&[("key1", "value1"), ("key2", "value2")]);
    let mut timeout_duration = Duration::default();
    timeout_duration.minutes = Some(69);
    let basic_name = "fake-basic";
    let username = "fake-username";
    let password = "fake-password";
    let call_task_name = "call-task";
    let call_function_name = "fake-function";
    let call_task_with = vec![("key1".to_string(), text("value1")), ("key2".to_string(), text("value2"))];
    let do_task_name = "do-task";
    let emit_task_name = "emit-task";
    let for_task_name = "for-task";
    let for_each = "item";
    let for_each_in = "items";
    let for_each_at = "index";
    let fork_task_name = "fork-task";
    let listen_task_name = "listen-task";
    let raise_task_name = "raise-task-name";
    let raise_error_type = "error-type";
    let raise_error_title = "error-title";
    let raise_error_detail = "error-detail";
    let raise_error_instance = "error-instance";
    let run_container_task_name = "run-container-task-name";
    let container_image = "container-image-name";
    let container_command = "container-command";
    let container_ports: Vec<(u16, u16)> = vec![(8080, 8081), (8082, 8083)];
    let container_volumes = pairs(&[("volume-1", "/some/fake/path")]);
    let container_environment = pairs(&[("env1-name", "env1-value"), ("env2-name", "env2-value")]);
    let run_script_task_name = "run-script-task-name";
    let script_code = "script-code";
    let run_shell_task_name = "run-shell-task-name";
    let shell_command_name = "run-shell-command";
    let run_workflow_task_name = "run-workflow-task-name";
    let workflow_namespace = "workflow-namespace";
    let workflow_name = "workflow-name";
    let workflow_version = "workflow-version";
    let set_task_name = "set-task-name";
    let switch_task_name = "switch-task-name";
    let switch_case_name = "switch-case-name";
    let try_task_name = "try-task-name";
    let catch_when = "catch-when";
    let retry_except_when = "retry-except-when";
    let wait_task_name = "wait-task";

    let workflow = WorkflowBuilder::new()
        .use_dsl(dsl_version)
        .with_namespace(namespace)
        .with_name(name)
        .with_version(version)
        .with_title(title)
        .with_summary(summary)
        .with_tags(tags.clone())
        .with_timeout(|t| {
            t.after(timeout_duration);
        })
        .use_authentication(basic_name, |a| {
            a.basic().with_username(username).with_password(password);
        })
        .do_(call_task_name, |task| {
            task.call(call_function_name).with_arguments(vec![
                ("key1".to_string(), text("value1")),
                ("key2".to_string(), text("value2")),
            ]);
        })
        .do_(do_task_name, |task| {
            task.do_().do_("fake-wait-task", |st| {
                st.wait(OneOfDurationOrIso8601Expression::Duration(Duration::from_seconds(25)));
            });
        })
        .do_(emit_task_name, |task| {
            task.emit(|e| {
                e.with_attributes(vec![("key1".to_string(), text("value1")), ("key2".to_string(), text("value2"))]);
            });
        })
        .do_(for_task_name, |task| {
            task.for_().each(for_each).in_(for_each_in).at(for_each_at).do_("fake-wait-task", |st| {
                st.wait(OneOfDurationOrIso8601Expression::Duration(Duration::from_seconds(25)));
            });
        })
        .do_(fork_task_name, |task| {
            task.fork().branch(|b| {
                b.do_("fake-wait-task", |st| {
                    st.wait(OneOfDurationOrIso8601Expression::Duration(Duration::from_seconds(25)));
                });
            });
        })
        .do_(listen_task_name, |task| {
            task.listen().to(|e| {
                e.one().with("key", text("value"));
            });
        })
        .do_(raise_task_name, |task| {
            task.raise()
                .error()
                .with_type(raise_error_type)
                .with_status(AnyValue::UInt(400))
                .with_title(raise_error_title)
                .with_detail(raise_error_detail)
                .with_instance(raise_error_instance);
        })
        .do_(run_container_task_name, |task| {
            task.run()
                .container()
                .with_image(container_image)
                .with_command(container_command)
                .with_ports(vec![(8080, 8081), (8082, 8083)])
                .with_volumes(pairs(&[("volume-1", "/some/fake/path")]))
                .with_environment_variables(pairs(&[("env1-name", "env1-value"), ("env2-name", "env2-value")]));
        })
        .do_(run_script_task_name, |task| {
            task.run().script().with_code(script_code);
        })
        .do_(run_shell_task_name, |task| {
            task.run().shell().with_command(shell_command_name);
        })
        .do_(run_workflow_task_name, |task| {
            task.run()
                .workflow()
                .with_namespace(workflow_namespace)
                .with_name(workflow_name)
                .with_version(workflow_version)
                .with_input(AnyValue::Object(vec![("hello".to_string(), text("world"))]));
        })
        .do_(set_task_name, |task| {
            task.set().variables(vec![
                ("var1-name".to_string(), text("var1-value")),
                ("var2-name".to_string(), AnyValue::UInt(69)),
            ]);
        })
        .do_(switch_task_name, |task| {
            task.switch().case(switch_case_name, |case| {
                case.when("true").then_("continue");
            });
        })
        .do_(try_task_name, |task| {
            task.try_()
                .do_(|tasks| {
                    tasks.do_("fake-wait-task", |subtask| {
                        subtask.wait(OneOfDurationOrIso8601Expression::Duration(Duration::from_seconds(5)));
                    });
                })
                .catch(|catch| {
                    catch
                        .errors(|errors| {
                            errors.with_attributes(vec![
                                ("var1-name".to_string(), text("var1-value")),
                                ("var2-name".to_string(), AnyValue::UInt(69)),
                            ]);
                        })
                        .when(catch_when)
                        .retry(|retry| {
                            retry
                                .except_when(retry_except_when)
                                .delay(Duration::from_seconds(1))
                                .backoff(|backoff| {
                                    backoff.linear().with_increment(Duration::from_milliseconds(500));
                                })
                                .jitter(|jitter| {
                                    jitter.from(Duration::from_seconds(1)).to(Duration::from_seconds(3));
                                });
                        });
                });
        })
        .do_(wait_task_name, |task| {
            task.wait(OneOfDurationOrIso8601Expression::Duration(Duration::from_days(3)));
        })
        .build();

    workflow
}

#[test]
fn build_workflow_should_work() {
    let dsl_version = "1.0.0";
    let namespace = "namespace";
    let name = "fake-name";
    let version = "1.0.0";
    let title = "fake-title";
    let summary = "fake-summary";
    let tags = pairs(&[("key1", "value1"), ("key2", "value2")]);
    let mut timeout_duration = Duration::default();
    timeout_duration.minutes = Some(69);
    let basic_name = "fake-basic";
    let username = "fake-username";
    let password = "fake-password";
    let call_task_name = "call-task";
    let call_function_name = "fake-function";
    let call_task_with = vec![("key1".to_string(), text("value1")), ("key2".to_string(), text("value2"))];
    let do_task_name = "do-task";
    let emit_task_name = "emit-task";
    let for_task_name = "for-task";
    let for_each = "item";
    let for_each_in = "items";
    let for_each_at = "index";
    let fork_task_name = "fork-task";
    let listen_task_name = "listen-task";
    let raise_task_name = "raise-task-name";
    let raise_error_type = "error-type";
    let raise_error_title = "error-title";
    let raise_error_detail = "error-detail";
    let raise_error_instance = "error-instance";
    let run_container_task_name = "run-container-task-name";
    let container_image = "container-image-name";
    let container_command = "container-command";
    let container_ports: Vec<(u16, u16)> = vec![(8080, 8081), (8082, 8083)];
    let container_volumes = pairs(&[("volume-1", "/some/fake/path")]);
    let container_environment = pairs(&[("env1-name", "env1-value"), ("env2-name", "env2-value")]);
    let run_script_task_name = "run-script-task-name";
    let script_code = "script-code";
    let run_shell_task_name = "run-shell-task-name";
    let shell_command_name = "run-shell-command";
    let run_workflow_task_name = "run-workflow-task-name";
    let workflow_namespace = "workflow-namespace";
    let workflow_name = "workflow-name";
    let workflow_version = "workflow-version";
    let set_task_name = "set-task-name";
    let switch_task_name = "switch-task-name";
    let switch_case_name = "switch-case-name";
    let try_task_name = "try-task-name";
    let catch_when = "catch-when";
    let retry_except_when = "retry-except-when";
    let wait_task_name = "wait-task";

    let workflow = WorkflowBuilder::new()
        .use_dsl(dsl_version)
        .with_namespace(namespace)
        .with_name(name)
        .with_version(version)
        .with_title(title)
        .with_summary(summary)
        .with_tags(tags.clone())
        .with_timeout(|t| {
            t.after(timeout_duration);
        })
        .use_authentication(basic_name, |a| {
            a.basic().with_username(username).with_password(password);
        })
        .do_(call_task_name, |task| {
            task.call(call_function_name).with_arguments(vec![
                ("key1".to_string(), text("value1")),
                ("key2".to_string(), text("value2")),
            ]);
        })
        .do_(do_task_name, |task| {
            task.do_().do_("fake-wait-task", |st| {
                st.wait(OneOfDurationOrIso8601Expression::Duration(Duration::from_seconds(25)));
            });
        })
        .do_(emit_task_name, |task| {
            task.emit(|e| {
                e.with_attributes(vec![("key1".to_string(), text("value1")), ("key2".to_string(), text("value2"))]);
            });
        })
        .do_(for_task_name, |task| {
            task.for_().each(for_each).in_(for_each_in).at(for_each_at).do_("fake-wait-task", |st| {
                st.wait(OneOfDurationOrIso8601Expression::Duration(Duration::from_seconds(25)));
            });
        })
        .do_(fork_task_name, |task| {
            task.fork().branch(|b| {
                b.do_("fake-wait-task", |st| {
                    st.wait(OneOfDurationOrIso8601Expression::Duration(Duration::from_seconds(25)));
                });
            });
        })
        .do_(listen_task_name, |task| {
            task.listen().to(|e| {
                e.one().with("key", text("value"));
            });
        })
        .do_(raise_task_name, |task| {
            task.raise()
                .error()
                .with_type(raise_error_type)
                .with_status(AnyValue::UInt(400))
                .with_title(raise_error_title)
                .with_detail(raise_error_detail)
                .with_instance(raise_error_instance);
        })
        .do_(run_container_task_name, |task| {
            task.run()
                .container()
                .with_image(container_image)
                .with_command(container_command)
                .with_ports(vec![(8080, 8081), (8082, 8083)])
                .with_volumes(pairs(&[("volume-1", "/some/fake/path")]))
                .with_environment_variables(pairs(&[("env1-name", "env1-value"), ("env2-name", "env2-value")]));
        })
        .do_(run_script_task_name, |task| {
            task.run().script().with_code(script_code);
        })
        .do_(run_shell_task_name, |task| {
            task.run().shell().with_command(shell_command_name);
        })
        .do_(run_workflow_task_name, |task| {
            task.run()
                .workflow()
                .with_namespace(workflow_namespace)
                .with_name(workflow_name)
                .with_version(workflow_version)
                .with_input(AnyValue::Object(vec![("hello".to_string(), text("world"))]));
        })
        .do_(set_task_name, |task| {
            task.set().variables(vec![
                ("var1-name".to_string(), text("var1-value")),
                ("var2-name".to_string(), AnyValue::UInt(69)),
            ]);
        })
        .do_(switch_task_name, |task| {
            task.switch().case(switch_case_name, |case| {
                case.when("true").then_("continue");
            });
        })
        .do_(try_task_name, |task| {
            task.try_()
                .do_(|tasks| {
                    tasks.do_("fake-wait-task", |subtask| {
                        subtask.wait(OneOfDurationOrIso8601Expression::Duration(Duration::from_seconds(5)));
                    });
                })
                .catch(|catch| {
                    catch
                        .errors(|errors| {
                            errors.with_attributes(vec![
                                ("var1-name".to_string(), text("var1-value")),
                                ("var2-name".to_string(), AnyValue::UInt(69)),
                            ]);
                        })
                        .when(catch_when)
                        .retry(|retry| {
                            retry
                                .except_when(retry_except_when)
                                .delay(Duration::from_seconds(1))
                                .backoff(|backoff| {
                                    backoff.linear().with_increment(Duration::from_milliseconds(500));
                                })
                                .jitter(|jitter| {
                                    jitter.from(Duration::from_seconds(1)).to(Duration::from_seconds(3));
                                });
                        });
                });
        })
        .do_(wait_task_name, |task| {
            task.wait(OneOfDurationOrIso8601Expression::Duration(Duration::from_days(3)));
        })
        .build();

    assert_eq!(workflow.document.dsl, dsl_version);
    assert_eq!(workflow.document.namespace, namespace);
    assert_eq!(workflow.document.name, name);
    assert_eq!(workflow.document.version, version);
    assert_eq!(workflow.document.title, Some(title.to_string()));
    assert_eq!(workflow.document.summary, Some(summary.to_string()));
    assert_eq!(workflow.document.tags, Some(tags));
    match &workflow.timeout {
        Some(OneOfTimeoutDefinitionOrReference::Timeout(t)) => {
            assert_eq!(t.after, OneOfDurationOrIso8601Expression::Duration(timeout_duration));
        }
        other => panic!("unexpected timeout {:?}", other),
    }
    let authentications = workflow.use_.as_ref().and_then(|c| c.authentications.as_ref()).expect("authentications");
    assert!(authentications.iter().any(|(n, p)| n == basic_name && p.basic.is_some()));
    let names: Vec<&str> = workflow.do_.entries.iter().map(|(n, _)| n.as_str()).collect();
    assert_eq!(names.len(), 15);
    match workflow.do_.get(call_task_name) {
        Some(TaskDefinition::Call(c)) => {
            assert_eq!(c.call, call_function_name);
            assert_eq!(c.with, Some(call_task_with));
        }
        other => panic!("unexpected {:?}", other),
    }
    assert!(matches!(workflow.do_.get(do_task_name), Some(TaskDefinition::Do(_))));
    match workflow.do_.get(emit_task_name) {
        Some(TaskDefinition::Emit(e)) => {
            assert_eq!(e.emit.event.with, vec![("key1".to_string(), text("value1")), ("key2".to_string(), text("value2"))]);
        }
        other => panic!("unexpected {:?}", other),
    }
    match workflow.do_.get(for_task_name) {
        Some(TaskDefinition::For(f)) => {
            assert_eq!(f.for_.each, for_each);
            assert_eq!(f.for_.in_, for_each_in);
            assert_eq!(f.for_.at, Some(for_each_at.to_string()));
        }
        other => panic!("unexpected {:?}", other),
    }
    assert!(matches!(workflow.do_.get(fork_task_name), Some(TaskDefinition::Fork(_))));
    assert!(matches!(workflow.do_.get(listen_task_name), Some(TaskDefinition::Listen(_))));
    match workflow.do_.get(raise_task_name) {
        Some(TaskDefinition::Raise(r)) => match &r.raise.error {
            OneOfErrorDefinitionOrReference::Error(e) => {
                assert_eq!(e.type_, raise_error_type);
                assert_eq!(e.title, raise_error_title);
                assert_eq!(e.status, AnyValue::UInt(400));
                assert_eq!(e.detail, Some(raise_error_detail.to_string()));
                assert_eq!(e.instance, Some(raise_error_instance.to_string()));
            }
            other => panic!("unexpected {:?}", other),
        },
        other => panic!("unexpected {:?}", other),
    }
    match workflow.do_.get(run_container_task_name) {
        Some(TaskDefinition::Run(r)) => {
            let c = r.run.container.as_ref().expect("container");
            assert_eq!(c.image, container_image);
            assert_eq!(c.command, Some(container_command.to_string()));
            assert_eq!(c.ports, Some(container_ports));
            assert_eq!(c.volumes, Some(container_volumes));
            assert_eq!(c.environment, Some(container_environment));
        }
        other => panic!("unexpected {:?}", other),
    }
    match workflow.do_.get(run_workflow_task_name) {
        Some(TaskDefinition::Run(r)) => {
            let w = r.run.workflow.as_ref().expect("workflow");
            assert_eq!(w.namespace, workflow_namespace);
            assert_eq!(w.name, workflow_name);
            assert_eq!(w.version, workflow_version);
            assert_eq!(w.input, Some(AnyValue::Object(vec![("hello".to_string(), text("world"))])));
        }
        other => panic!("unexpected {:?}", other),
    }
    match workflow.do_.get(set_task_name) {
        Some(TaskDefinition::SetData(s)) => {
            assert_eq!(
                s.set,
                SetValue::Entries(vec![
                    ("var1-name".to_string(), text("var1-value")),
                    ("var2-name".to_string(), AnyValue::UInt(69)),
                ])
            );
        }
        other => panic!("unexpected {:?}", other),
    }
    match workflow.do_.get(switch_task_name) {
        Some(TaskDefinition::Switch(s)) => assert!(s.switch.contains_key(switch_case_name)),
        other => panic!("unexpected {:?}", other),
    }
    match workflow.do_.get(try_task_name) {
        Some(TaskDefinition::Try(t)) => assert_eq!(t.catch.when, Some(catch_when.to_string())),
        other => panic!("unexpected {:?}", other),
    }
    match workflow.do_.get(wait_task_name) {
        Some(TaskDefinition::Wait(w)) => {
            assert_eq!(w.wait, OneOfDurationOrIso8601Expression::Duration(Duration::from_days(3)))
        }
        other => panic!("unexpected {:?}", other),
    }
    assert!(matches!(workflow.do_.get(run_script_task_name), Some(TaskDefinition::Run(_))));
    assert!(matches!(workflow.do_.get(run_shell_task_name), Some(TaskDefinition::Run(_))));
}

#[test]
fn authentication_without_scheme_is_not_built() {
    let builder = AuthenticationPolicyDefinitionBuilder::new();
    assert!(builder.try_build().is_none());
}

#[test]
fn authentication_last_selected_scheme_wins() {
    let mut builder = AuthenticationPolicyDefinitionBuilder::new();
    builder.basic().with_username("user");
    builder.bearer().with_token("token");
    let policy = builder.try_build().expect("configured");
    assert!(policy.basic.is_none());
    assert_eq!(policy.bearer.expect("bearer").token, Some("token".to_string()));
}

#[test]
fn authentication_reference_is_built() {
    let mut builder = AuthenticationPolicyDefinitionBuilder::new();
    builder.use_("shared-policy");
    let policy = builder.build();
    assert_eq!(policy.use_, Some("shared-policy".to_string()));
    assert!(policy.basic.is_none() && policy.oauth2.is_none());
}

#[test]
fn task_without_kind_is_not_built() {
    let builder = GenericTaskDefinitionBuilder::new();
    assert!(!builder.is_ready());
    assert!(builder.try_build().is_none());
}

#[test]
fn run_task_without_process_is_not_ready() {
    let mut builder = GenericTaskDefinitionBuilder::new();
    builder.run();
    assert!(!builder.is_ready());
    assert!(builder.try_build().is_none());
    let run = RunTaskDefinitionBuilder::new();
    assert!(run.builder.is_none());
}

#[test]
fn backoff_last_selected_strategy_wins() {
    let mut builder = GenericBackoffStrategyDefinitionBuilder::new();
    builder.constant();
    builder.linear().with_increment(Duration::from_milliseconds(500));
    let strategy = builder.build();
    assert!(strategy.constant.is_none());
    assert_eq!(strategy.linear.expect("linear").increment, Some(Duration::from_milliseconds(500)));
}

#[test]
fn set_variable_replaces_expression_and_same_name() {
    let mut builder = SetTaskDefinitionBuilder::new();
    builder.variable_expression("${ .x }".to_string());
    builder.variable("a", AnyValue::UInt(1));
    builder.variable("b", AnyValue::UInt(2));
    builder.variable("a", AnyValue::UInt(3));
    match builder.build() {
        TaskDefinition::SetData(s) => assert_eq!(
            s.set,
            SetValue::Entries(vec![("a".to_string(), AnyValue::UInt(3)), ("b".to_string(), AnyValue::UInt(2))])
        ),
        other => panic!("unexpected {:?}", other),
    }
}

#[test]
fn common_fields_are_set_through_any_task_builder() {
    let mut builder = GenericTaskDefinitionBuilder::new();
    builder.call("f").if_("${ .ok }").then_("end").with_timeout_reference("short");
    match builder.build() {
        TaskDefinition::Call(c) => {
            assert_eq!(c.common.if_, Some("${ .ok }".to_string()));
            assert_eq!(c.common.then_, Some("end".to_string()));
            assert_eq!(c.common.timeout, Some(OneOfTimeoutDefinitionOrReference::Reference("short".to_string())));
        }
        other => panic!("unexpected {:?}", other),
    }
}

#[test]
fn workflow_tag_and_order_of_tasks() {
    let workflow = WorkflowBuilder::new()
        .with_tag("a", "1")
        .with_tag("b", "2")
        .with_tag("a", "3")
        .do_("n1", |t| {
            t.call("f1");
        })
        .do_("n2", |t| {
            t.call("f2");
        })
        .do_("n3", |t| {
            t.call("f3");
        })
        .build();
    assert_eq!(workflow.document.tags, Some(pairs(&[("a", "3"), ("b", "2")])));
    assert_eq!(workflow.document.namespace, "default");
    assert_eq!(workflow.document.dsl, "1.0.0");
    let names: Vec<&str> = workflow.do_.entries.iter().map(|(n, _)| n.as_str()).collect();
    assert_eq!(names, vec!["n1", "n2", "n3"]);
}

fn json_of(v: &AnyValue) -> serde_json::Value {
    match v {
        AnyValue::Null => serde_json::Value::Null,
        AnyValue::Bool(b) => serde_json::Value::Bool(*b),
        AnyValue::Int(i) => serde_json::Value::from(*i),
        AnyValue::UInt(u) => serde_json::Value::from(*u),
        AnyValue::Float(bits) => serde_json::Value::from(f64::from_bits(*bits)),
        AnyValue::String(s) => serde_json::Value::String(s.clone()),
        AnyValue::Array(items) => serde_json::Value::Array(items.iter().map(json_of).collect()),
        AnyValue::Object(fields) => {
            let mut map = serde_json::Map::new();
            for (k, x) in fields {
                map.insert(k.clone(), json_of(x));
            }
            serde_json::Value::Object(map)
        }
    }
}

fn tree_of_json(v: &serde_json::Value) -> AnyValue {
    match v {
        serde_json::Value::Null => AnyValue::Null,
        serde_json::Value::Bool(b) => AnyValue::Bool(*b),
        serde_json::Value::Number(n) => match (n.as_u64(), n.as_i64()) {
            (Some(u), _) => AnyValue::UInt(u),
            (None, Some(i)) => AnyValue::Int(i),
            _ => AnyValue::Float(n.as_f64().unwrap().to_bits()),
        },
        serde_json::Value::String(s) => AnyValue::String(s.clone()),
        serde_json::Value::Array(items) => AnyValue::Array(items.iter().map(tree_of_json).collect()),
        serde_json::Value::Object(fields) => {
            AnyValue::Object(fields.iter().map(|(k, x)| (k.clone(), tree_of_json(x))).collect())
        }
    }
}

fn yaml_of(v: &AnyValue) -> serde_yaml::Value {
    match v {
        AnyValue::Null => serde_yaml::Value::Null,
        AnyValue::Bool(b) => serde_yaml::Value::Bool(*b),
        AnyValue::Int(i) => serde_yaml::Value::Number((*i).into()),
        AnyValue::UInt(u) => serde_yaml::Value::Number((*u).into()),
        AnyValue::Float(bits) => serde_yaml::Value::Number(f64::from_bits(*bits).into()),
        AnyValue::String(s) => serde_yaml::Value::String(s.clone()),
        AnyValue::Array(items) => serde_yaml::Value::Sequence(items.iter().map(yaml_of).collect()),
        AnyValue::Object(fields) => {
            let mut map = serde_yaml::Mapping::new();
            for (k, x) in fields {
                map.insert(serde_yaml::Value::String(k.clone()), yaml_of(x));
            }
            serde_yaml::Value::Mapping(map)
        }
    }
}

fn tree_of_yaml(v: &serde_yaml::Value) -> AnyValue {
    match v {
        serde_yaml::Value::Null => AnyValue::Null,
        serde_yaml::Value::Bool(b) => AnyValue::Bool(*b),
        serde_yaml::Value::Number(n) => match (n.as_u64(), n.as_i64()) {
            (Some(u), _) => AnyValue::UInt(u),
            (None, Some(i)) => AnyValue::Int(i),
            _ => AnyValue::Float(n.as_f64().unwrap().to_bits()),
        },
        serde_yaml::Value::String(s) => AnyValue::String(s.clone()),
        serde_yaml::Value::Sequence(items) => AnyValue::Array(items.iter().map(tree_of_yaml).collect()),
        serde_yaml::Value::Mapping(map) => AnyValue::Object(
            map.iter()
                .map(|(k, x)| (k.as_str().expect("string key").to_string(), tree_of_yaml(x)))
                .collect(),
        ),
        serde_yaml::Value::Tagged(_) => panic!("tagged value"),
    }
}

#[test]
fn built_workflow_round_trips_through_json_and_yaml() {
    let workflow = sample_workflow();
    let tree = encode_workflow_definition(&workflow);
    let json = serde_json::to_string_pretty(&json_of(&tree));
    assert!(json.is_ok(), "JSON serialization failed: {:?}", json.err());
    let yaml = serde_yaml::to_string(&yaml_of(&tree));
    assert!(yaml.is_ok(), "YAML serialization failed: {:?}", yaml.err());
    let from_json: serde_json::Value = serde_json::from_str(&json.unwrap()).expect("JSON text");
    let back = decode_workflow_definition(&tree_of_json(&from_json)).expect("workflow from JSON");
    assert_eq!(back, workflow);
    let from_yaml: serde_yaml::Value = serde_yaml::from_str(&yaml.unwrap()).expect("YAML text");
    let back = decode_workflow_definition(&tree_of_yaml(&from_yaml)).expect("workflow from YAML");
    assert_eq!(back, workflow);
    assert_eq!(back.document.namespace, "namespace");
    assert_eq!(back.document.name, "fake-name");
    assert_eq!(back.document.version, "1.0.0");
    match &back.timeout {
        Some(OneOfTimeoutDefinitionOrReference::Timeout(t)) => {
            assert_eq!(t.after, OneOfDurationOrIso8601Expression::Duration(Duration::from_minutes(69)));
        }
        other => panic!("unexpected timeout {:?}", other),
    }
    let names: Vec<&str> = back.do_.entries.iter().map(|(n, _)| n.as_str()).collect();
    assert_eq!(names[0], "call-task");
    assert_eq!(names[names.len() - 1], "wait-task");
}

#[test]
fn raise_last_choice_wins() {
    let mut builder = GenericTaskDefinitionBuilder::new();
    {
        let raise = builder.raise();
        raise.error().with_type("t").with_title("x");
        raise.referenced_error("shared-error");
    }
    match builder.build() {
        TaskDefinition::Raise(r) => {
            assert_eq!(r.raise.error, OneOfErrorDefinitionOrReference::Reference("shared-error".to_string()))
        }
        other => panic!("unexpected {:?}", other),
    }
    let mut builder = GenericTaskDefinitionBuilder::new();
    {
        let raise = builder.raise();
        raise.referenced_error("shared-error");
        raise.error().with_type("t");
    }
    match builder.build() {
        TaskDefinition::Raise(r) => match r.raise.error {
            OneOfErrorDefinitionOrReference::Error(e) => assert_eq!(e.type_, "t"),
            other => panic!("unexpected {:?}", other),
        },
        other => panic!("unexpected {:?}", other),
    }
}
