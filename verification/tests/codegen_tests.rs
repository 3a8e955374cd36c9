use workflow_compiler::codegen::{generate, CodeGenOptions};
use workflow_compiler::components::{GetVariableConfig, LogConfig, LogLevel, PersistenceStrategy,
    RuntimeVariableType, ServiceVariableConfig, SetVariableConfig, StartConfig, StopConfig,
    VariableScope};
use workflow_compiler::fragments::{generate_get_variable_code, generate_log_code,
    generate_service_variable_code, generate_set_variable_code, generate_start_code,
    generate_stop_code, generate_variable_activities};
use workflow_compiler::schema::{NodeData, NodeType, WorkflowDefinition, WorkflowEdge,
    WorkflowNode, WorkflowSettings};
use workflow_compiler::text::{sanitize_id, to_camel_case, to_snake_case};
use workflow_compiler::JsonValue;

fn node(id: &str, node_type: NodeType) -> WorkflowNode {
    WorkflowNode {
        id: id.to_string(),
        node_type,
        data: NodeData { label: id.to_string(), ..Default::default() },
    }
}

fn simple_workflow() -> WorkflowDefinition {
    let mut activity = node("activity", NodeType::Activity);
    activity.data.label = "Do Something".to_string();
    activity.data.activity_name = Some("doSomething".to_string());
    WorkflowDefinition {
        id: "wf_test".to_string(),
        name: "Test Workflow".to_string(),
        nodes: vec![node("trigger", NodeType::Trigger), activity, node("end", NodeType::End)],
        edges: vec![
            WorkflowEdge::new("e1".to_string(), "trigger".to_string(), "activity".to_string()),
            WorkflowEdge::new("e2".to_string(), "activity".to_string(), "end".to_string()),
        ],
        variables: vec![],
        settings: WorkflowSettings::default(),
    }
}

#[test]
fn test_generate_start_code_basic() {
    let config = StartConfig::default();
    let pattern = generate_start_code(&config, "start-1");

    assert_eq!(pattern.component_type, "start");
    assert!(!pattern.is_activity);
    assert!(pattern.code.contains("// Start: start-1"));
    assert!(pattern.code.contains("[WORKFLOW_START]"));
}

#[test]
fn test_generate_start_code_with_trigger() {
    let config = StartConfig {
        trigger_type: Some("webhook".to_string()),
        schedule: None,
        webhook_config: None,
    };
    let pattern = generate_start_code(&config, "start-webhook");
    assert!(pattern.code.contains("Trigger type: webhook"));
}

#[test]
fn test_generate_stop_code_basic() {
    let config = StopConfig::default();
    let pattern = generate_stop_code(&config, "stop-1");

    assert_eq!(pattern.component_type, "stop");
    assert!(!pattern.is_activity);
    assert!(pattern.code.contains("// Stop: stop-1"));
    assert!(pattern.code.contains("[WORKFLOW_STOP]"));
    assert!(pattern.code.contains("success: true"));
}

#[test]
fn test_generate_stop_code_with_metadata() {
    let config = StopConfig {
        result_mapping: Some("{ processed: true }".to_string()),
        include_metadata: true,
    };
    let pattern = generate_stop_code(&config, "stop-meta");

    assert!(pattern.code.contains("{ processed: true }"));
    assert!(pattern.code.contains("executionMetadata"));
}

#[test]
fn test_generate_log_code_info() {
    let config = LogConfig {
        message: "Processing started".to_string(),
        level: LogLevel::Info,
        metadata: None,
        include_workflow_context: true,
    };
    let pattern = generate_log_code(&config, "log-1");

    assert_eq!(pattern.component_type, "log");
    assert!(pattern.is_activity);
    assert!(pattern.code.contains("[LOG:INFO]"));
    assert!(pattern.code.contains("console.info"));
}

#[test]
fn test_generate_log_code_with_metadata() {
    let config = LogConfig {
        message: "Test message".to_string(),
        level: LogLevel::Debug,
        metadata: Some(vec![("key".to_string(), JsonValue::Str("value".to_string()))]),
        include_workflow_context: false,
    };
    let pattern = generate_log_code(&config, "log-meta");

    assert!(pattern.code.contains("logMetadata_"));
    assert!(pattern.code.contains("console.debug"));
}

#[test]
fn test_generate_log_code_template_message() {
    let config = LogConfig {
        message: "Processing ${input.id}".to_string(),
        level: LogLevel::Info,
        metadata: None,
        include_workflow_context: true,
    };
    let pattern = generate_log_code(&config, "log-template");
    assert!(pattern.code.contains("`Processing ${input.id}`"));
}

#[test]
fn test_sanitize_id() {
    assert_eq!(sanitize_id("log-1"), "log_1");
    assert_eq!(sanitize_id("node.123"), "node_123");
    assert_eq!(sanitize_id("simple"), "simple");
}

#[test]
fn test_to_camel_case() {
    assert_eq!(to_camel_case("hello_world"), "helloWorld");
    assert_eq!(to_camel_case("hello-world"), "helloWorld");
    assert_eq!(to_camel_case("hello world"), "helloWorld");
    assert_eq!(to_camel_case("HelloWorld"), "helloWorld");
}

#[test]
fn test_to_snake_case() {
    assert_eq!(to_snake_case("helloWorld"), "hello_world");
    assert_eq!(to_snake_case("HelloWorld"), "hello_world");
    assert_eq!(to_snake_case("hello-world"), "hello_world");
    assert_eq!(to_snake_case("hello world"), "hello_world");
}

#[test]
fn test_stop_config_defaults() {
    let config = StopConfig::default();
    assert!(config.result_mapping.is_none());
    assert!(!config.include_metadata);
}

#[test]
fn test_generate_variable_activities() {
    let code = generate_variable_activities();

    assert!(code.contains("getServiceVariable"));
    assert!(code.contains("setServiceVariable"));
    assert!(code.contains("getProjectVariable"));
    assert!(code.contains("setProjectVariable"));
    assert!(code.contains("VariableMetadata"));
}

#[test]
fn test_generate_service_variable_code() {
    let config = ServiceVariableConfig {
        name: "counter".to_string(),
        variable_type: RuntimeVariableType::Number,
        default_value: Some(JsonValue::Num("0".to_string())),
        description: None,
        required: false,
        persistence: PersistenceStrategy::WorkflowState,
        ttl: None,
    };
    let pattern = generate_service_variable_code(&config, "var-1");

    assert_eq!(pattern.component_type, "service-variable");
    assert!(!pattern.is_activity);
    assert!(pattern.code.contains("// ServiceVariable: var-1 - counter"));
    assert!(pattern.code.contains("[VAR:SERVICE:INIT]"));
    assert!(pattern.code.contains("state.counter"));
}

#[test]
fn test_generate_get_variable_workflow_scope() {
    let config = GetVariableConfig {
        name: "myVar".to_string(),
        scope: VariableScope::Workflow,
        default_value: Some(JsonValue::Str("default".to_string())),
        throw_if_missing: false,
    };
    let pattern = generate_get_variable_code(&config, "get-1");

    assert_eq!(pattern.component_type, "get-variable");
    assert!(!pattern.is_activity);
    assert!(pattern.code.contains("// GetVariable: get-1 - myVar (workflow scope)"));
    assert!(pattern.code.contains("[VAR:GET:WORKFLOW]"));
    assert!(pattern.code.contains("state.myVar"));
}

#[test]
fn test_generate_get_variable_service_scope() {
    let config = GetVariableConfig {
        name: "serviceVar".to_string(),
        scope: VariableScope::Service,
        default_value: None,
        throw_if_missing: true,
    };
    let pattern = generate_get_variable_code(&config, "get-2");

    assert_eq!(pattern.component_type, "get-variable");
    assert!(pattern.is_activity);
    assert!(pattern.code.contains("[VAR:GET:SERVICE]"));
    assert!(pattern.code.contains("acts.getServiceVariable"));
    assert!(pattern.code.contains("[VAR:GET:ERROR]"));
}

#[test]
fn test_generate_get_variable_project_scope() {
    let config = GetVariableConfig {
        name: "projectVar".to_string(),
        scope: VariableScope::Project,
        default_value: Some(JsonValue::Obj(vec![])),
        throw_if_missing: false,
    };
    let pattern = generate_get_variable_code(&config, "get-3");

    assert_eq!(pattern.component_type, "get-variable");
    assert!(pattern.is_activity);
    assert!(pattern.code.contains("[VAR:GET:PROJECT]"));
    assert!(pattern.code.contains("acts.getProjectVariable"));
}

#[test]
fn test_generate_set_variable_workflow_scope() {
    let config = SetVariableConfig {
        name: "counter".to_string(),
        scope: VariableScope::Workflow,
        value_expression: Some("state.counter + 1".to_string()),
        static_value: None,
        create_if_missing: true,
        merge: false,
    };
    let pattern = generate_set_variable_code(&config, "set-1");

    assert_eq!(pattern.component_type, "set-variable");
    assert!(!pattern.is_activity);
    assert!(pattern.code.contains("// SetVariable: set-1 - counter (workflow scope)"));
    assert!(pattern.code.contains("[VAR:SET:WORKFLOW]"));
    assert!(pattern.code.contains("state.counter = state.counter + 1"));
}

#[test]
fn test_generate_set_variable_with_merge() {
    let config = SetVariableConfig {
        name: "config".to_string(),
        scope: VariableScope::Workflow,
        value_expression: None,
        static_value: Some(JsonValue::Obj(vec![(
            "key".to_string(),
            JsonValue::Str("value".to_string()),
        )])),
        create_if_missing: true,
        merge: true,
    };
    let pattern = generate_set_variable_code(&config, "set-2");

    assert!(pattern.code.contains("(merge mode)"));
    assert!(pattern.code.contains("...state.config"));
}

#[test]
fn test_generate_set_variable_service_scope() {
    let config = SetVariableConfig {
        name: "serviceState".to_string(),
        scope: VariableScope::Service,
        value_expression: None,
        static_value: Some(JsonValue::Str("new value".to_string())),
        create_if_missing: true,
        merge: false,
    };
    let pattern = generate_set_variable_code(&config, "set-3");

    assert!(pattern.is_activity);
    assert!(pattern.code.contains("[VAR:SET:SERVICE]"));
    assert!(pattern.code.contains("acts.setServiceVariable"));
}

#[test]
fn test_generate_workflow() {
    let workflow = simple_workflow();
    let result = generate(&workflow, &CodeGenOptions::new());
    assert!(result.is_ok());

    let code = result.unwrap();
    assert!(code.workflow.contains("proxyActivities"));
    assert!(code.workflow.contains("TestWorkflow"));
}

#[test]
fn test_generated_code_has_no_any() {
    let workflow = simple_workflow();
    let code = generate(&workflow, &CodeGenOptions::new()).unwrap();

    let any_count =
        code.workflow.matches(": any").count() + code.activities.matches(": any").count();
    assert_eq!(any_count, 0, "Generated code should not contain ': any' type");
}

#[test]
fn test_workflow_has_start_output_type() {
    let workflow = simple_workflow();
    let code = generate(&workflow, &CodeGenOptions::new()).unwrap();

    assert!(code.workflow.contains("interface StartOutput"));
    assert!(code.workflow.contains("startedAt: Date"));
}

#[test]
fn test_workflow_has_stop_output_type() {
    let workflow = simple_workflow();
    let code = generate(&workflow, &CodeGenOptions::new()).unwrap();

    assert!(code.workflow.contains("interface StopOutput"));
    assert!(code.workflow.contains("completedAt: Date"));
    assert!(code.workflow.contains("success: boolean"));
}

#[test]
fn test_workflow_has_result_type() {
    let workflow = simple_workflow();
    let code = generate(&workflow, &CodeGenOptions::new()).unwrap();
    assert!(code.workflow.contains("interface WorkflowResult"));
}

#[test]
fn test_workflow_returns_workflow_result() {
    let workflow = simple_workflow();
    let code = generate(&workflow, &CodeGenOptions::new()).unwrap();
    assert!(code.workflow.contains("Promise<WorkflowResult>"));
}

#[test]
fn test_log_activity_generates_proper_types() {
    let mut log = node("log", NodeType::Activity);
    log.data.label = "Log Message".to_string();
    log.data.activity_name = Some("logMessage".to_string());
    let workflow = WorkflowDefinition {
        id: "wf_log_test".to_string(),
        name: "Log Test Workflow".to_string(),
        nodes: vec![node("trigger", NodeType::Trigger), log, node("end", NodeType::End)],
        edges: vec![
            WorkflowEdge::new("e1".to_string(), "trigger".to_string(), "log".to_string()),
            WorkflowEdge::new("e2".to_string(), "log".to_string(), "end".to_string()),
        ],
        variables: vec![],
        settings: WorkflowSettings::default(),
    };
    let code = generate(&workflow, &CodeGenOptions::new()).unwrap();

    assert!(code.activities.contains("interface LogInput"));
    assert!(code.activities.contains("interface LogOutput"));
    assert!(code.activities.contains("type LogLevel"));
}

#[test]
fn test_generate_without_trigger_fails() {
    let workflow = WorkflowDefinition {
        id: "wf".to_string(),
        name: "No Trigger".to_string(),
        nodes: vec![node("end", NodeType::End)],
        edges: vec![],
        variables: vec![],
        settings: WorkflowSettings::default(),
    };
    let result = generate(&workflow, &CodeGenOptions::new());
    assert!(matches!(
        result,
        Err(workflow_compiler::codegen::GenerationError::NoStartNode)
    ));
}

#[test]
fn test_generate_is_deterministic() {
    let workflow = simple_workflow();
    let c1 = generate(&workflow, &CodeGenOptions::new()).unwrap();
    let c2 = generate(&workflow, &CodeGenOptions::new()).unwrap();
    assert_eq!(c1.workflow, c2.workflow);
    assert_eq!(c1.activities, c2.activities);
    assert_eq!(c1.worker, c2.worker);
    assert_eq!(c1.package_json, c2.package_json);
    assert_eq!(c1.tsconfig, c2.tsconfig);
}

#[test]
fn test_simple_graph_generates_one_proxy_and_call() {
    // Trigger -> Activity(doSomething) -> End: one proxy group, one awaited
    // call, a start log and a stop log.
    let workflow = simple_workflow();
    let code = generate(&workflow, &CodeGenOptions::new()).unwrap();

    assert_eq!(code.workflow.matches("proxyActivities<typeof activities>").count(), 1);
    assert_eq!(code.workflow.matches("await acts.doSomething(input)").count(), 1);
    assert!(code.workflow.contains("[WORKFLOW_START]"));
    assert!(code.workflow.contains("[WORKFLOW_STOP]"));
}

#[test]
fn test_two_timeouts_give_two_proxies() {
    let mut a1 = node("a1", NodeType::Activity);
    a1.data.activity_name = Some("first".to_string());
    a1.data.timeout = Some("30s".to_string());
    let mut a2 = node("a2", NodeType::Activity);
    a2.data.activity_name = Some("second".to_string());
    a2.data.timeout = Some("5m".to_string());
    let workflow = WorkflowDefinition {
        id: "wf2".to_string(),
        name: "Two Timeouts".to_string(),
        nodes: vec![node("trigger", NodeType::Trigger), a1, a2, node("end", NodeType::End)],
        edges: vec![
            WorkflowEdge::new("e1".to_string(), "trigger".to_string(), "a1".to_string()),
            WorkflowEdge::new("e2".to_string(), "a1".to_string(), "a2".to_string()),
            WorkflowEdge::new("e3".to_string(), "a2".to_string(), "end".to_string()),
        ],
        variables: vec![],
        settings: WorkflowSettings::default(),
    };
    let code = generate(&workflow, &CodeGenOptions::new()).unwrap();
    assert_eq!(code.workflow.matches("proxyActivities<typeof activities>").count(), 2);
    assert!(code.workflow.contains("startToCloseTimeout: '30s'"));
    assert!(code.workflow.contains("startToCloseTimeout: '5m'"));
    assert!(code.workflow.contains("const acts "));
    assert!(code.workflow.contains("const acts_1 "));
}

#[test]
fn test_get_variable_service_scope_in_workflow() {
    // A StateVariable node configured as GetVariable with service scope and
    // throwIfMissing set: the generated code calls the variable-store
    // activity and throws when the value is absent.
    let mut get = node("get", NodeType::StateVariable);
    get.data.component_name = Some("GetVariable".to_string());
    get.data.variable_name = Some("flag".to_string());
    get.data.variable_scope = Some("service".to_string());
    get.data.throw_if_missing = Some(true);
    let workflow = WorkflowDefinition {
        id: "wf3".to_string(),
        name: "Var Workflow".to_string(),
        nodes: vec![node("trigger", NodeType::Trigger), get, node("end", NodeType::End)],
        edges: vec![
            WorkflowEdge::new("e1".to_string(), "trigger".to_string(), "get".to_string()),
            WorkflowEdge::new("e2".to_string(), "get".to_string(), "end".to_string()),
        ],
        variables: vec![],
        settings: WorkflowSettings::default(),
    };
    let code = generate(&workflow, &CodeGenOptions::new()).unwrap();
    assert!(code.workflow.contains("acts.getServiceVariable"));
    assert!(code.workflow.contains("[VAR:GET:ERROR]"));
    assert!(code.workflow.contains(".value === undefined"));
    assert!(code.workflow.contains("throw new Error"));
}

#[test]
fn test_extract_signals_and_activities() {
    let mut sig = node("sig", NodeType::Signal);
    sig.data.signal_name = Some("approval".to_string());
    let mut act = node("act", NodeType::Activity);
    act.data.activity_name = Some("doWork".to_string());
    act.data.timeout = Some("2m".to_string());
    let workflow = WorkflowDefinition {
        id: "wf".to_string(),
        name: "Signals".to_string(),
        nodes: vec![node("trigger", NodeType::Trigger), sig, act, node("end", NodeType::End)],
        edges: vec![],
        variables: vec![],
        settings: WorkflowSettings::default(),
    };
    let signals = workflow_compiler::codegen::extract_signals(&workflow);
    assert_eq!(signals.len(), 1);
    assert_eq!(signals[0].name, "approval");
    assert_eq!(signals[0].param_types, "unknown");

    let activities = workflow_compiler::codegen::extract_activities(&workflow);
    assert_eq!(activities.len(), 1);
    assert_eq!(activities[0].name, "doWork");
    assert_eq!(activities[0].timeout, Some("2m".to_string()));
}

#[test]
fn test_convert_variables_rows() {
    let mut workflow = simple_workflow();
    workflow.variables.push(workflow_compiler::schema::WorkflowVariable {
        name: "count".to_string(),
        var_type: workflow_compiler::schema::VariableType::Number,
        initial_value: Some(JsonValue::Num("3".to_string())),
        description: None,
        required: false,
    });
    workflow.variables.push(workflow_compiler::schema::WorkflowVariable::new(
        "payload".to_string(),
        workflow_compiler::schema::VariableType::Object,
    ));
    let rows = workflow_compiler::codegen::convert_variables(&workflow);
    assert_eq!(rows.len(), 2);
    assert_eq!(rows[0].name, "count");
    assert_eq!(rows[0].var_type, "number");
    assert_eq!(rows[0].default_value, "3");
    assert_eq!(rows[1].var_type, "Record<string, unknown>");
    assert_eq!(rows[1].default_value, "{}");
}

#[test]
fn test_workflow_variables_initialized_in_source() {
    let mut workflow = simple_workflow();
    workflow.variables.push(workflow_compiler::schema::WorkflowVariable {
        name: "count".to_string(),
        var_type: workflow_compiler::schema::VariableType::Number,
        initial_value: Some(JsonValue::Num("3".to_string())),
        description: None,
        required: false,
    });
    let code = generate(&workflow, &CodeGenOptions::new()).unwrap();
    assert!(code.workflow.contains("state.count = 3;"));
}
