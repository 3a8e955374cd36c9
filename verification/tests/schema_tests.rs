use workflow_compiler::components::{LogInput, LogLevel, LogOutput, RuntimeVariableType,
    StopConfig, StopOutput, VariableScope};
use workflow_compiler::schema::{NodeData, NodeType, VariableType, WorkflowDefinition,
    WorkflowEdge, WorkflowNode, WorkflowSettings, WorkflowVariable};
use workflow_compiler::JsonValue;

fn node(id: &str, node_type: NodeType) -> WorkflowNode {
    WorkflowNode {
        id: id.to_string(),
        node_type,
        data: NodeData { label: id.to_string(), ..Default::default() },
    }
}

fn test_workflow() -> WorkflowDefinition {
    let mut activity = node("activity_1", NodeType::Activity);
    activity.data.label = "Do Something".to_string();
    activity.data.activity_name = Some("doSomething".to_string());
    WorkflowDefinition {
        id: "wf_test".to_string(),
        name: "Test Workflow".to_string(),
        nodes: vec![node("trigger_1", NodeType::Trigger), activity, node("end_1", NodeType::End)],
        edges: vec![
            WorkflowEdge::new("edge_1".to_string(), "trigger_1".to_string(), "activity_1".to_string()),
            WorkflowEdge::new("edge_2".to_string(), "activity_1".to_string(), "end_1".to_string()),
        ],
        variables: vec![],
        settings: WorkflowSettings::default(),
    }
}

#[test]
fn test_node_type_predicates() {
    assert!(NodeType::Trigger.is_trigger());
    assert!(!NodeType::Activity.is_trigger());
    assert!(NodeType::End.is_end());
    assert!(NodeType::Activity.is_activity());
    assert!(NodeType::Agent.is_activity());
    assert!(!NodeType::Signal.is_activity());
    assert!(NodeType::KongLogging.is_kong_component());
    assert!(NodeType::KongCache.is_kong_component());
    assert!(NodeType::KongCors.is_kong_component());
    assert!(!NodeType::Trigger.is_kong_component());
}

#[test]
fn test_workflow_creation() {
    let workflow = test_workflow();
    assert_eq!(workflow.node_count(), 3);
    assert_eq!(workflow.edge_count(), 2);
}

#[test]
fn test_get_node() {
    let workflow = test_workflow();
    let found = workflow.get_node("activity_1");
    assert!(found.is_some());
    assert_eq!(found.unwrap().data.label, "Do Something");
}

#[test]
fn test_get_edges() {
    let workflow = test_workflow();

    let outgoing = workflow.get_outgoing_edges("trigger_1");
    assert_eq!(outgoing.len(), 1);
    assert_eq!(outgoing[0].target, "activity_1");

    let incoming = workflow.get_incoming_edges("end_1");
    assert_eq!(incoming.len(), 1);
    assert_eq!(incoming[0].source, "activity_1");
}

#[test]
fn test_find_trigger() {
    let workflow = test_workflow();
    let trigger = workflow.find_trigger();
    assert!(trigger.is_some());
    assert_eq!(trigger.unwrap().id, "trigger_1");
}

#[test]
fn test_find_end_nodes() {
    let workflow = test_workflow();
    let end_nodes = workflow.find_end_nodes();
    assert_eq!(end_nodes.len(), 1);
    assert_eq!(end_nodes[0].id, "end_1");
}

#[test]
fn test_edges_from() {
    let workflow = test_workflow();
    let edges = workflow.edges_from("trigger_1");
    assert_eq!(edges.len(), 1);
    assert_eq!(edges[0].target, "activity_1");
}

#[test]
fn test_function_name() {
    let workflow = WorkflowDefinition::new("id".to_string(), "My Test Workflow".to_string());
    assert_eq!(workflow.function_name(), "MyTestWorkflow");

    let workflow = WorkflowDefinition::new("id".to_string(), "simple_workflow".to_string());
    assert_eq!(workflow.function_name(), "SimpleWorkflow");
}

#[test]
fn test_settings_defaults() {
    let settings = WorkflowSettings::default();
    assert_eq!(settings.default_timeout(), "1m");
    assert_eq!(settings.task_queue(), "default");
    assert!(!settings.is_long_running());
}

#[test]
fn test_edge_with_label() {
    let edge = WorkflowEdge::new("edge-1".to_string(), "node-1".to_string(), "node-2".to_string())
        .with_label("on success".to_string());
    assert_eq!(edge.label, Some("on success".to_string()));
    assert_eq!(edge.id, "edge-1");
    assert_eq!(edge.source, "node-1");
    assert_eq!(edge.target, "node-2");
}

#[test]
fn test_typescript_type_conversion() {
    assert_eq!(
        WorkflowVariable::new("x".to_string(), VariableType::String).to_typescript_type(),
        "string"
    );
    assert_eq!(
        WorkflowVariable::new("x".to_string(), VariableType::Number).to_typescript_type(),
        "number"
    );
    assert_eq!(
        WorkflowVariable::new("x".to_string(), VariableType::Object).to_typescript_type(),
        "Record<string, unknown>"
    );
}

#[test]
fn test_typescript_types() {
    assert_eq!(VariableType::String.to_typescript(), "string");
    assert_eq!(VariableType::Number.to_typescript(), "number");
    assert_eq!(VariableType::Boolean.to_typescript(), "boolean");
    assert_eq!(VariableType::Array.to_typescript(), "unknown[]");
    assert_eq!(VariableType::Object.to_typescript(), "Record<string, unknown>");
}

#[test]
fn test_log_level_typescript() {
    assert_eq!(LogLevel::Debug.to_typescript(), "'debug'");
    assert_eq!(LogLevel::Info.to_typescript(), "'info'");
    assert_eq!(LogLevel::Warn.to_typescript(), "'warn'");
    assert_eq!(LogLevel::Error.to_typescript(), "'error'");
}

#[test]
fn test_runtime_variable_type_to_typescript() {
    assert_eq!(RuntimeVariableType::String.to_typescript(), "string");
    assert_eq!(RuntimeVariableType::Number.to_typescript(), "number");
    assert_eq!(RuntimeVariableType::Boolean.to_typescript(), "boolean");
    assert_eq!(RuntimeVariableType::Object.to_typescript(), "Record<string, unknown>");
    assert_eq!(RuntimeVariableType::Array.to_typescript(), "unknown[]");
    assert_eq!(RuntimeVariableType::Any.to_typescript(), "unknown");
}

#[test]
fn test_log_input_new() {
    let input = LogInput::new("Test message".to_string());
    assert_eq!(input.message, "Test message");
    assert!(matches!(input.level, LogLevel::Info));
    assert!(input.metadata.is_none());
}

#[test]
fn test_log_input_with_level() {
    let input = LogInput::with_level("Error message".to_string(), LogLevel::Error);
    assert_eq!(input.message, "Error message");
    assert!(matches!(input.level, LogLevel::Error));
}

#[test]
fn test_log_input_builders() {
    let info = LogInput::info("test message".to_string());
    assert!(matches!(info.level, LogLevel::Info));
    assert_eq!(info.message, "test message");

    let error = LogInput::error("error message".to_string());
    assert!(matches!(error.level, LogLevel::Error));
}

#[test]
fn test_log_input_with_metadata() {
    let input = LogInput::info("test".to_string())
        .with_metadata("key1".to_string(), JsonValue::Str("value1".to_string()))
        .with_metadata("key2".to_string(), JsonValue::Num("42".to_string()));

    let metadata = input.metadata.unwrap();
    assert_eq!(metadata.len(), 2);
    assert_eq!(metadata[0].0, "key1");
    assert_eq!(metadata[1].0, "key2");
}

#[test]
fn test_log_output_success() {
    let output = LogOutput::success();
    assert!(output.logged);
    assert!(output.log_id.is_some());
}

#[test]
fn test_log_output_failure() {
    let output = LogOutput::failure();
    assert!(!output.logged);
    assert!(output.log_id.is_none());
}

#[test]
fn test_stop_output_success() {
    let output = StopOutput::success(JsonValue::Str("test".to_string()));
    assert!(output.success);
    assert!(matches!(output.result, JsonValue::Str(ref s) if s == "test"));
}

#[test]
fn test_stop_output_failure() {
    let output = StopOutput::failure("Something went wrong".to_string());
    assert!(!output.success);
    match output.result {
        JsonValue::Obj(fields) => {
            assert_eq!(fields.len(), 1);
            assert_eq!(fields[0].0, "error");
            assert!(matches!(fields[0].1, JsonValue::Str(ref s) if s == "Something went wrong"));
        },
        _ => panic!("failure result must be an object"),
    }
}

#[test]
fn test_variable_default_value() {
    let var = WorkflowVariable::new("counter".to_string(), VariableType::Number);
    assert!(matches!(var.default_value(), JsonValue::Num(ref s) if s == "0"));
    let var = WorkflowVariable::new("name".to_string(), VariableType::String);
    assert!(matches!(var.default_value(), JsonValue::Str(ref s) if s.is_empty()));
}

#[test]
fn test_scope_names() {
    assert_eq!(VariableScope::Service.as_str(), "service");
    assert_eq!(VariableScope::Project.as_str(), "project");
    assert_eq!(VariableScope::Workflow.as_str(), "workflow");
}

#[test]
fn test_stop_config_default_fields() {
    let config = StopConfig::default();
    assert!(config.result_mapping.is_none());
    assert!(!config.include_metadata);
}

#[test]
fn test_json_text_rendering() {
    let v = JsonValue::Obj(vec![
        ("name".to_string(), JsonValue::Str("a \"b\"".to_string())),
        ("count".to_string(), JsonValue::Num("42".to_string())),
        ("flags".to_string(), JsonValue::Arr(vec![JsonValue::Bool(true), JsonValue::Null])),
    ]);
    assert_eq!(v.json_text(), "{\"name\":\"a \\\"b\\\"\",\"count\":42,\"flags\":[true,null]}");
}
