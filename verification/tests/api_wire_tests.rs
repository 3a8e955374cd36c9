use workflow_compiler::api::{compile, convert_validation_error, to_codegen_options,
    CompileOptions};
use workflow_compiler::errors::ValidationError;
use workflow_compiler::schema::{NodeData, NodeType, VariableType, WorkflowDefinition,
    WorkflowEdge, WorkflowNode, WorkflowSettings, WorkflowVariable};
use workflow_compiler::validation::validate;
use workflow_compiler::wire::{from_wire, to_wire};
use workflow_compiler::JsonValue;

fn node(id: &str, node_type: NodeType) -> WorkflowNode {
    WorkflowNode {
        id: id.to_string(),
        node_type,
        data: NodeData { label: id.to_string(), ..Default::default() },
    }
}

fn valid_workflow() -> WorkflowDefinition {
    let mut activity = node("activity", NodeType::Activity);
    activity.data.activity_name = Some("doSomething".to_string());
    WorkflowDefinition {
        id: "wf_test".to_string(),
        name: "Test Workflow".to_string(),
        nodes: vec![node("trigger", NodeType::Trigger), activity, node("end", NodeType::End)],
        edges: vec![
            WorkflowEdge::new("e1".to_string(), "trigger".to_string(), "activity".to_string()),
            WorkflowEdge::new("e2".to_string(), "activity".to_string(), "end".to_string()),
        ],
        variables: vec![],
        settings: WorkflowSettings::default(),
    }
}

#[test]
fn test_compile_valid_workflow() {
    let response = compile(&valid_workflow(), &CompileOptions::default(), 5, "0.1.0".to_string());
    assert!(response.success);
    assert!(response.code.is_some());
    assert!(response.errors.is_empty());
    assert_eq!(response.metadata.node_count, 3);
    assert_eq!(response.metadata.edge_count, 2);
}

#[test]
fn test_compile_invalid_workflow() {
    let w = WorkflowDefinition {
        id: "wf".to_string(),
        name: "Broken".to_string(),
        nodes: vec![node("end", NodeType::End)],
        edges: vec![],
        variables: vec![],
        settings: WorkflowSettings::default(),
    };
    let response = compile(&w, &CompileOptions::default(), 1, "0.1.0".to_string());
    assert!(!response.success);
    assert!(response.code.is_none());
    assert!(response.errors.iter().any(|e| e.code == "NO_START_NODE"));
}

#[test]
fn test_validate_endpoint_shape() {
    let result = validate(&valid_workflow());
    assert!(result.is_valid());
    assert!(result.errors.is_empty());
}

#[test]
fn test_convert_validation_error_codes() {
    let e = ValidationError::NoStartNode;
    let c = convert_validation_error(&e);
    assert_eq!(c.code, "NO_START_NODE");
    assert_eq!(c.severity, "error");
    assert_eq!(c.message, e.message());

    let e = ValidationError::OrphanNode("n1".to_string());
    let c = convert_validation_error(&e);
    assert_eq!(c.code, "ORPHAN_NODE");
    assert_eq!(c.node_id, Some("n1".to_string()));
}

#[test]
fn test_to_codegen_options_defaults() {
    let o = to_codegen_options(&CompileOptions::default());
    assert!(o.include_comments);
    assert!(o.strict_mode);
    assert_eq!(o.default_timeout, "1m");
    assert!(o.workflow_name.is_none());
}

#[test]
fn test_wire_round_trip() {
    let mut w = valid_workflow();
    w.variables.push(WorkflowVariable {
        name: "counter".to_string(),
        var_type: VariableType::Number,
        initial_value: Some(JsonValue::Num("7".to_string())),
        description: Some("a counter".to_string()),
        required: true,
    });
    w.nodes[1].data.timeout = Some("30s".to_string());
    w.nodes[1].data.config = Some(vec![(
        "target".to_string(),
        JsonValue::Str("{{counter}}".to_string()),
    )]);

    let doc = to_wire(&w);
    let back = from_wire(&doc).expect("the rendered document must parse back");

    assert_eq!(back.id, w.id);
    assert_eq!(back.name, w.name);
    assert_eq!(back.nodes.len(), w.nodes.len());
    assert_eq!(back.edges.len(), w.edges.len());
    assert_eq!(back.variables.len(), w.variables.len());
    for (a, b) in back.nodes.iter().zip(w.nodes.iter()) {
        assert_eq!(a.id, b.id);
        assert_eq!(a.data.label, b.data.label);
        assert_eq!(a.data.activity_name, b.data.activity_name);
        assert_eq!(a.data.timeout, b.data.timeout);
    }
    for (a, b) in back.edges.iter().zip(w.edges.iter()) {
        assert_eq!(a.id, b.id);
        assert_eq!(a.source, b.source);
        assert_eq!(a.target, b.target);
    }
    assert_eq!(back.variables[0].name, "counter");
    assert_eq!(back.variables[0].required, true);
    assert!(matches!(back.variables[0].initial_value, Some(JsonValue::Num(ref s)) if s == "7"));
}

#[test]
fn test_wire_rejects_malformed_document() {
    assert!(from_wire(&JsonValue::Null).is_none());
    assert!(from_wire(&JsonValue::Str("nope".to_string())).is_none());
}

#[test]
fn test_wire_matches_serde_shape() {
    // The wire document renders as a JSON object with camelCase keys that
    // an ordinary JSON parser accepts.
    let w = valid_workflow();
    let doc = to_wire(&w);
    let text = doc.json_text();
    let parsed: serde_json::Value = serde_json::from_str(&text).expect("valid JSON text");
    assert_eq!(parsed["id"], serde_json::Value::String("wf_test".to_string()));
    assert!(parsed["nodes"].is_array());
    assert_eq!(parsed["nodes"].as_array().unwrap().len(), 3);
    assert_eq!(parsed["nodes"][0]["type"], "trigger");
}
