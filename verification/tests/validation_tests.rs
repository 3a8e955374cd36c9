use workflow_compiler::errors::{ValidationError, ValidationResult, ValidationWarning};
use workflow_compiler::schema::{NodeData, NodeType, WorkflowDefinition, WorkflowEdge,
    WorkflowNode, WorkflowSettings};
use workflow_compiler::validation::{validate, validate_components, validate_graph};

fn create_node(id: &str, node_type: NodeType) -> WorkflowNode {
    WorkflowNode {
        id: id.to_string(),
        node_type,
        data: NodeData { label: id.to_string(), ..Default::default() },
    }
}

fn workflow(nodes: Vec<WorkflowNode>, edges: Vec<WorkflowEdge>) -> WorkflowDefinition {
    WorkflowDefinition {
        id: "test".to_string(),
        name: "Test".to_string(),
        nodes,
        edges,
        variables: vec![],
        settings: WorkflowSettings::default(),
    }
}

#[test]
fn test_validation_result_is_valid() {
    let result = ValidationResult::new();
    assert!(result.is_valid());

    let result = ValidationResult::with_error(ValidationError::NoStartNode);
    assert!(!result.is_valid());
}

#[test]
fn test_merge_results() {
    let mut result1 = ValidationResult::new();
    result1.add_error(ValidationError::NoStartNode);

    let mut result2 = ValidationResult::new();
    result2.add_error(ValidationError::NoEndNode);
    result2.add_warning(ValidationWarning::NoRetryPolicy { node_id: "node1".to_string() });

    result1.merge(result2);
    assert_eq!(result1.errors.len(), 2);
    assert_eq!(result1.warnings.len(), 1);
}

#[test]
fn test_error_display() {
    let error = ValidationError::NoStartNode;
    assert_eq!(
        error.message(),
        "No start node found. Workflow must have exactly one trigger node."
    );
}

#[test]
fn errors_test_error_display() {
    let error = ValidationError::MissingActivityName { node_id: "activity_1".to_string() };
    let message = error.message();
    assert!(message.contains("activity_1"));
    assert!(message.contains("missing required"));
}

#[test]
fn test_validation_result() {
    let mut result = ValidationResult::success();
    assert!(result.valid);
    assert_eq!(result.error_count(), 0);

    result.add_error(ValidationError::NoStartNode);
    assert!(!result.valid);
    assert_eq!(result.error_count(), 1);
}

#[test]
fn test_valid_linear_workflow() {
    let w = workflow(
        vec![
            create_node("trigger", NodeType::Trigger),
            {
                let mut n = create_node("activity", NodeType::Activity);
                n.data.activity_name = Some("doSomething".to_string());
                n
            },
            create_node("end", NodeType::End),
        ],
        vec![
            WorkflowEdge::new("e1".to_string(), "trigger".to_string(), "activity".to_string()),
            WorkflowEdge::new("e2".to_string(), "activity".to_string(), "end".to_string()),
        ],
    );
    let result = validate_graph(&w);
    assert!(result.is_valid(), "Errors: {:?}", result.errors);
}

#[test]
fn test_cycle_detection() {
    let w = workflow(
        vec![
            create_node("trigger", NodeType::Trigger),
            create_node("a", NodeType::Activity),
            create_node("b", NodeType::Activity),
            create_node("end", NodeType::End),
        ],
        vec![
            WorkflowEdge::new("e1".to_string(), "trigger".to_string(), "a".to_string()),
            WorkflowEdge::new("e2".to_string(), "a".to_string(), "b".to_string()),
            WorkflowEdge::new("e3".to_string(), "b".to_string(), "a".to_string()),
            WorkflowEdge::new("e4".to_string(), "b".to_string(), "end".to_string()),
        ],
    );
    let result = validate_graph(&w);
    assert!(!result.is_valid());
    assert!(result.errors.iter().any(|e| matches!(e, ValidationError::CycleDetected(_))));
}

#[test]
fn test_cycle_triangle_exact_nodes() {
    // A -> B -> C -> A, and no other issues: the reported cycle is exactly
    // that set of nodes.
    let w = workflow(
        vec![
            create_node("t", NodeType::Trigger),
            create_node("a", NodeType::Activity),
            create_node("b", NodeType::Activity),
            create_node("c", NodeType::Activity),
            create_node("end", NodeType::End),
        ],
        vec![
            WorkflowEdge::new("e1".to_string(), "t".to_string(), "a".to_string()),
            WorkflowEdge::new("e2".to_string(), "a".to_string(), "b".to_string()),
            WorkflowEdge::new("e3".to_string(), "b".to_string(), "c".to_string()),
            WorkflowEdge::new("e4".to_string(), "c".to_string(), "a".to_string()),
            WorkflowEdge::new("e5".to_string(), "c".to_string(), "end".to_string()),
        ],
    );
    let result = validate(&w);
    assert!(!result.is_valid());
    let cycle = result.errors.iter().find_map(|e| match e {
        ValidationError::CycleDetected(ids) => Some(ids.clone()),
        _ => None,
    });
    let mut cycle = cycle.expect("a cycle must be reported");
    cycle.sort();
    assert_eq!(cycle, vec!["a".to_string(), "b".to_string(), "c".to_string()]);
}

#[test]
fn test_orphan_node_detection() {
    let w = workflow(
        vec![
            create_node("trigger", NodeType::Trigger),
            create_node("orphan", NodeType::Activity),
            create_node("end", NodeType::End),
        ],
        vec![WorkflowEdge::new("e1".to_string(), "trigger".to_string(), "end".to_string())],
    );
    let result = validate_graph(&w);
    assert!(!result.is_valid());
    assert!(result
        .errors
        .iter()
        .any(|e| matches!(e, ValidationError::OrphanNode(id) if id == "orphan")));
}

#[test]
fn test_invalid_edge_source() {
    let w = workflow(
        vec![create_node("trigger", NodeType::Trigger), create_node("end", NodeType::End)],
        vec![
            WorkflowEdge::new("e0".to_string(), "trigger".to_string(), "end".to_string()),
            WorkflowEdge::new("e1".to_string(), "nonexistent".to_string(), "end".to_string()),
        ],
    );
    let result = validate_graph(&w);
    assert!(!result.is_valid());
    assert!(result.errors.iter().any(|e| matches!(e, ValidationError::InvalidEdgeSource(_))));
}

#[test]
fn test_trigger_with_incoming_edge() {
    let w = workflow(
        vec![
            create_node("trigger", NodeType::Trigger),
            create_node("activity", NodeType::Activity),
            create_node("end", NodeType::End),
        ],
        vec![
            WorkflowEdge::new("e1".to_string(), "trigger".to_string(), "activity".to_string()),
            WorkflowEdge::new("e2".to_string(), "activity".to_string(), "trigger".to_string()),
            WorkflowEdge::new("e3".to_string(), "activity".to_string(), "end".to_string()),
        ],
    );
    let result = validate_graph(&w);
    assert!(!result.is_valid());
    assert!(result
        .errors
        .iter()
        .any(|e| matches!(e, ValidationError::TriggerHasIncomingEdges { .. })));
}

#[test]
fn test_missing_trigger() {
    let w = workflow(vec![create_node("end", NodeType::End)], vec![]);
    let result = validate(&w);
    assert!(!result.is_valid());
    assert!(result.errors.iter().any(|e| matches!(e, ValidationError::NoStartNode)));
}

#[test]
fn test_no_trigger() {
    let w = workflow(vec![create_node("end-1", NodeType::End)], vec![]);
    let result = validate_graph(&w);
    assert!(result.errors.iter().any(|e| matches!(e, ValidationError::NoStartNode)));
}

#[test]
fn test_no_end_node() {
    let w = workflow(vec![create_node("trigger-1", NodeType::Trigger)], vec![]);
    let result = validate_graph(&w);
    assert!(result.errors.iter().any(|e| matches!(e, ValidationError::NoEndNode)));
}

#[test]
fn test_multiple_start_nodes_listed() {
    let w = workflow(
        vec![
            create_node("t1", NodeType::Trigger),
            create_node("t2", NodeType::Trigger),
            create_node("end", NodeType::End),
        ],
        vec![
            WorkflowEdge::new("e1".to_string(), "t1".to_string(), "end".to_string()),
            WorkflowEdge::new("e2".to_string(), "t2".to_string(), "end".to_string()),
        ],
    );
    let result = validate(&w);
    assert!(!result.is_valid());
    let listed = result.errors.iter().find_map(|e| match e {
        ValidationError::MultipleStartNodes(ids) => Some(ids.clone()),
        _ => None,
    });
    let mut listed = listed.expect("the triggers must be listed");
    listed.sort();
    assert_eq!(listed, vec!["t1".to_string(), "t2".to_string()]);
}

#[test]
fn test_unreachable_node_flagged() {
    // y is not reachable from the trigger even though it has edges to and
    // from another unreachable node.
    let w = workflow(
        vec![
            create_node("t", NodeType::Trigger),
            create_node("end", NodeType::End),
            create_node("y", NodeType::Activity),
            create_node("z", NodeType::Activity),
        ],
        vec![
            WorkflowEdge::new("e1".to_string(), "t".to_string(), "end".to_string()),
            WorkflowEdge::new("e2".to_string(), "y".to_string(), "z".to_string()),
            WorkflowEdge::new("e3".to_string(), "z".to_string(), "y".to_string()),
        ],
    );
    let result = validate(&w);
    assert!(!result.is_valid());
    assert!(result
        .errors
        .iter()
        .any(|e| matches!(e, ValidationError::UnreachableNode { node_id } if node_id == "y")));
}

#[test]
fn test_empty_workflow_reported() {
    let w = workflow(vec![], vec![]);
    let result = validate(&w);
    assert!(!result.is_valid());
    assert!(result.errors.iter().any(|e| matches!(e, ValidationError::EmptyWorkflow)));
    assert!(result.errors.iter().any(|e| matches!(e, ValidationError::NoStartNode)));
}

#[test]
fn test_duplicate_node_id_reported() {
    let w = workflow(
        vec![
            create_node("t", NodeType::Trigger),
            create_node("dup", NodeType::Activity),
            create_node("dup", NodeType::Activity),
            create_node("end", NodeType::End),
        ],
        vec![
            WorkflowEdge::new("e1".to_string(), "t".to_string(), "dup".to_string()),
            WorkflowEdge::new("e2".to_string(), "dup".to_string(), "end".to_string()),
        ],
    );
    let result = validate(&w);
    assert!(result
        .errors
        .iter()
        .any(|e| matches!(e, ValidationError::DuplicateNodeId(id) if id == "dup")));
}

#[test]
fn test_missing_activity_name() {
    let w = workflow(
        vec![
            create_node("trigger", NodeType::Trigger),
            create_node("activity", NodeType::Activity),
            create_node("end", NodeType::End),
        ],
        vec![
            WorkflowEdge::new("e1".to_string(), "trigger".to_string(), "activity".to_string()),
            WorkflowEdge::new("e2".to_string(), "activity".to_string(), "end".to_string()),
        ],
    );
    let result = validate_components(&w);
    assert!(result.errors.iter().any(
        |e| matches!(e, ValidationError::MissingActivityName { node_id } if node_id == "activity"),
    ));
}

#[test]
fn test_valid_activity() {
    let mut activity = create_node("activity", NodeType::Activity);
    activity.data.activity_name = Some("doSomething".to_string());
    activity.data.timeout = Some("5m".to_string());
    let w = workflow(
        vec![create_node("trigger", NodeType::Trigger), activity, create_node("end", NodeType::End)],
        vec![
            WorkflowEdge::new("e1".to_string(), "trigger".to_string(), "activity".to_string()),
            WorkflowEdge::new("e2".to_string(), "activity".to_string(), "end".to_string()),
        ],
    );
    let result = validate_components(&w);
    assert!(!result.errors.iter().any(|e| matches!(e, ValidationError::MissingActivityName { .. })));
}

#[test]
fn test_unused_variable_warning() {
    let mut w = workflow(
        vec![create_node("trigger", NodeType::Trigger), create_node("end", NodeType::End)],
        vec![WorkflowEdge::new("e1".to_string(), "trigger".to_string(), "end".to_string())],
    );
    w.variables.push(workflow_compiler::schema::WorkflowVariable::new(
        "unusedVar".to_string(),
        workflow_compiler::schema::VariableType::String,
    ));
    let result = validate_components(&w);
    assert!(result
        .warnings
        .iter()
        .any(|wn| matches!(wn, ValidationWarning::UnusedVariable { var_name } if var_name == "unusedVar")));
}

#[test]
fn test_used_variable_not_warned() {
    let mut trigger = create_node("trigger", NodeType::Trigger);
    trigger.data.config = Some(vec![(
        "target".to_string(),
        workflow_compiler::JsonValue::Str("{{myVar}}".to_string()),
    )]);
    let mut w = workflow(
        vec![trigger, create_node("end", NodeType::End)],
        vec![WorkflowEdge::new("e1".to_string(), "trigger".to_string(), "end".to_string())],
    );
    w.variables.push(workflow_compiler::schema::WorkflowVariable::new(
        "myVar".to_string(),
        workflow_compiler::schema::VariableType::String,
    ));
    let result = validate_components(&w);
    assert!(!result
        .warnings
        .iter()
        .any(|wn| matches!(wn, ValidationWarning::UnusedVariable { var_name } if var_name == "myVar")));
}

#[test]
fn test_valid_workflow() {
    let w = workflow(
        vec![create_node("trigger", NodeType::Trigger), create_node("end", NodeType::End)],
        vec![WorkflowEdge::new("e1".to_string(), "trigger".to_string(), "end".to_string())],
    );
    let result = validate(&w);
    assert!(result.is_valid(), "Expected valid workflow, got errors: {:?}", result.errors);
}

#[test]
fn test_valid_simple_workflow() {
    let w = workflow(
        vec![create_node("trigger-1", NodeType::Trigger), create_node("end-1", NodeType::End)],
        vec![WorkflowEdge::new("edge-1".to_string(), "trigger-1".to_string(), "end-1".to_string())],
    );
    let result = validate_graph(&w);
    assert!(result.errors.is_empty(), "Expected no errors: {:?}", result.errors);
}
