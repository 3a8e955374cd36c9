//! Per-component lowering rules.
//!
//! Each rule turns one node's configuration record into a TypeScript code
//! fragment together with its import needs.  The contract of each rule
//! states the produced text exactly, so the fragments are a function of the
//! configuration alone.

use crate::components::{GetVariableConfig, LogConfig, LogLevel, ServiceVariableConfig,
    SetVariableConfig, StartConfig, StopConfig, VariableScope, spec_log_level_upper,
    spec_runtime_type_ts, spec_scope_str};
use crate::json::{spec_json_text, JsonValue};
use crate::text::{has_interpolation, push_escaped_sq, sanitize_id, spec_escape_sq,
    spec_has_interpolation, spec_sanitize};
use vstd::prelude::*;

verus! {

/// One lowered component: its fragment text and import needs.
#[derive(Debug, Clone)]
pub struct ComponentPattern {
    /// The component type identifier.
    pub component_type: String,
    /// The generated TypeScript fragment.
    pub code: String,
    /// Whether this component runs as an activity rather than inline
    /// workflow logic.
    pub is_activity: bool,
    /// The runtime imports the fragment needs.
    pub required_imports: Vec<String>,
}

/// The single `workflowInfo` import that most fragments need.
fn workflow_info_imports() -> (r: Vec<String>)
    ensures
        r@.len() == 1,
        r@[0]@ == "workflowInfo"@,
{
    let mut v: Vec<String> = Vec::new();
    v.push(String::from_str("workflowInfo"));
    v
}

/// The trigger-type comment of a start fragment.
pub open spec fn spec_start_trigger_info(cfg: StartConfig) -> Seq<char> {
    match cfg.trigger_type {
        Option::Some(t) => "// Trigger type: "@ + t@,
        Option::None => Seq::empty(),
    }
}

/// The schedule comment of a start fragment.
pub open spec fn spec_start_schedule_info(cfg: StartConfig) -> Seq<char> {
    match cfg.schedule {
        Option::Some(sch) => "\n  // Schedule: "@ + sch@,
        Option::None => Seq::empty(),
    }
}

/// The webhook comment of a start fragment.
pub open spec fn spec_start_webhook_info(cfg: StartConfig) -> Seq<char> {
    match cfg.webhook_config {
        Option::Some(wh) => "\n  // Webhook: "@ + wh.method@ + seq![' '] + (match wh.content_type {
            Option::Some(ct) => ct@,
            Option::None => "application/json"@,
        }),
        Option::None => Seq::empty(),
    }
}

/// The whole start fragment.
pub open spec fn spec_start_code(cfg: StartConfig, node_id: Seq<char>) -> Seq<char> {
    "// Start: "@ + node_id + "\n  "@ + spec_start_trigger_info(cfg) + spec_start_schedule_info(
        cfg,
    ) + spec_start_webhook_info(cfg)
        + "\n  const startedAt = new Date().toISOString();\n  console.log('[WORKFLOW_START]', { workflowId: workflowInfo().workflowId, startedAt });"@
}

/// Lowers the start component: a start marker that records the workflow
/// start time and emits a structured start log.
pub fn generate_start_code(config: &StartConfig, node_id: &str) -> (r: ComponentPattern)
    ensures
        r.code@ == spec_start_code(*config, node_id@),
        r.component_type@ == "start"@,
        r.is_activity == false,
        r.required_imports@.len() == 1 && r.required_imports@[0]@ == "workflowInfo"@,
{
    let mut code = String::new();
    code.append("// Start: ");
    code.append(node_id);
    code.append("\n  ");
    match &config.trigger_type {
        Option::Some(t) => {
            code.append("// Trigger type: ");
            code.append(t.as_str());
        },
        Option::None => {
        },
    }
    match &config.schedule {
        Option::Some(sch) => {
            code.append("\n  // Schedule: ");
            code.append(sch.as_str());
        },
        Option::None => {
        },
    }
    match &config.webhook_config {
        Option::Some(wh) => {
            code.append("\n  // Webhook: ");
            code.append(wh.method.as_str());
            crate::text::push_char(&mut code, ' ');
            match &wh.content_type {
                Option::Some(ct) => {
                    code.append(ct.as_str());
                },
                Option::None => {
                    code.append("application/json");
                },
            }
        },
        Option::None => {
        },
    }
    code.append(
        "\n  const startedAt = new Date().toISOString();\n  console.log('[WORKFLOW_START]', { workflowId: workflowInfo().workflowId, startedAt });",
    );
    proof {
        assert(code@ =~= spec_start_code(*config, node_id@));
    }
    ComponentPattern {
        component_type: String::from_str("start"),
        code,
        is_activity: false,
        required_imports: workflow_info_imports(),
    }
}

/// The result-mapping line of a stop fragment: the configured expression,
/// or a passthrough of the current input.
pub open spec fn spec_stop_result_mapping(cfg: StopConfig) -> Seq<char> {
    match cfg.result_mapping {
        Option::Some(expr) => "const finalResult = "@ + expr@ + seq![';'],
        Option::None => "const finalResult = input;"@,
    }
}

/// The execution-metadata capture of a stop fragment.
pub open spec fn spec_stop_metadata(cfg: StopConfig) -> Seq<char> {
    if cfg.include_metadata {
        "\n  const completedAt = new Date().toISOString();\n  const executionMetadata = {\n    startedAt,\n    completedAt,\n    workflowId: workflowInfo().workflowId,\n    runId: workflowInfo().runId,\n  };"@
    } else {
        Seq::empty()
    }
}

/// The final return expression of a stop fragment.
pub open spec fn spec_stop_return(cfg: StopConfig) -> Seq<char> {
    if cfg.include_metadata {
        "return {\n    success: true,\n    result: finalResult,\n    completedAt: new Date().toISOString(),\n    metadata: executionMetadata,\n  };"@
    } else {
        "return {\n    success: true,\n    result: finalResult,\n    completedAt: new Date().toISOString(),\n  };"@
    }
}

/// The whole stop fragment.
pub open spec fn spec_stop_code(cfg: StopConfig, node_id: Seq<char>) -> Seq<char> {
    "// Stop: "@ + node_id + "\n  "@ + spec_stop_result_mapping(cfg) + spec_stop_metadata(cfg)
        + "\n  console.log('[WORKFLOW_STOP]', { workflowId: workflowInfo().workflowId, success: true });\n  "@
        + spec_stop_return(cfg)
}

/// Lowers the stop component: result mapping, optional execution metadata,
/// a structured stop log, and the function's final return.
pub fn generate_stop_code(config: &StopConfig, node_id: &str) -> (r: ComponentPattern)
    ensures
        r.code@ == spec_stop_code(*config, node_id@),
        r.component_type@ == "stop"@,
        r.is_activity == false,
        r.required_imports@.len() == 1 && r.required_imports@[0]@ == "workflowInfo"@,
{
    let mut code = String::new();
    code.append("// Stop: ");
    code.append(node_id);
    code.append("\n  ");
    match &config.result_mapping {
        Option::Some(expr) => {
            code.append("const finalResult = ");
            code.append(expr.as_str());
            crate::text::push_char(&mut code, ';');
        },
        Option::None => {
            code.append("const finalResult = input;");
        },
    }
    if config.include_metadata {
        code.append(
            "\n  const completedAt = new Date().toISOString();\n  const executionMetadata = {\n    startedAt,\n    completedAt,\n    workflowId: workflowInfo().workflowId,\n    runId: workflowInfo().runId,\n  };",
        );
    }
    code.append(
        "\n  console.log('[WORKFLOW_STOP]', { workflowId: workflowInfo().workflowId, success: true });\n  ",
    );
    if config.include_metadata {
        code.append(
            "return {\n    success: true,\n    result: finalResult,\n    completedAt: new Date().toISOString(),\n    metadata: executionMetadata,\n  };",
        );
    } else {
        code.append(
            "return {\n    success: true,\n    result: finalResult,\n    completedAt: new Date().toISOString(),\n  };",
        );
    }
    proof {
        assert(code@ =~= spec_stop_code(*config, node_id@));
    }
    ComponentPattern {
        component_type: String::from_str("stop"),
        code,
        is_activity: false,
        required_imports: workflow_info_imports(),
    }
}

/// The `key: value,` lines of a log metadata object.
pub open spec fn spec_log_metadata_entries(entries: Seq<(String, JsonValue)>) -> Seq<char>
    decreases entries,
{
    if entries.len() == 0 {
        Seq::empty()
    } else {
        spec_log_metadata_entries(entries.drop_last()) + "    "@ + entries.last().0@ + ": "@
            + spec_json_text(entries.last().1) + ",\n"@
    }
}

/// The metadata declaration of a log fragment.
pub open spec fn spec_log_metadata(cfg: LogConfig, sid: Seq<char>) -> Seq<char> {
    match cfg.metadata {
        Option::Some(m) => "const logMetadata_"@ + sid + " = {\n"@ + spec_log_metadata_entries(m@)
            + "  };"@,
        Option::None => Seq::empty(),
    }
}

/// The workflow-context declaration of a log fragment.
pub open spec fn spec_log_context(cfg: LogConfig, node_id: Seq<char>, sid: Seq<char>) -> Seq<
    char,
> {
    if cfg.include_workflow_context {
        "const logContext_"@ + sid
            + " = {\n    workflowId: workflowInfo().workflowId,\n    runId: workflowInfo().runId,\n    componentId: '"@
            + node_id + "',\n  };"@
    } else {
        Seq::empty()
    }
}

/// The message expression of a log fragment: a template literal where the
/// text interpolates, a quoted literal otherwise.
pub open spec fn spec_log_message(cfg: LogConfig) -> Seq<char> {
    if spec_has_interpolation(cfg.message@) {
        seq!['`'] + cfg.message@ + seq!['`']
    } else {
        seq!['\''] + spec_escape_sq(cfg.message@) + seq!['\'']
    }
}

/// The console call for a log level.
pub open spec fn spec_log_call(l: LogLevel) -> Seq<char> {
    match l {
        LogLevel::Debug => "console.debug"@,
        LogLevel::Info => "console.info"@,
        LogLevel::Warn => "console.warn"@,
        LogLevel::Error => "console.error"@,
    }
}

/// The structured data argument of a log call.
pub open spec fn spec_log_data(cfg: LogConfig, sid: Seq<char>) -> Seq<char> {
    if cfg.include_workflow_context && cfg.metadata is Some {
        "{ ...logContext_"@ + sid + ", ...logMetadata_"@ + sid + " }"@
    } else if cfg.include_workflow_context {
        "logContext_"@ + sid
    } else if cfg.metadata is Some {
        "logMetadata_"@ + sid
    } else {
        "{}"@
    }
}

/// The whole log fragment.
pub open spec fn spec_log_code(cfg: LogConfig, node_id: Seq<char>) -> Seq<char> {
    "// Log: "@ + node_id + " ["@ + spec_log_level_upper(cfg.level) + "]\n  "@ + spec_log_metadata(
        cfg,
        spec_sanitize(node_id),
    ) + "\n  "@ + spec_log_context(cfg, node_id, spec_sanitize(node_id)) + "\n  "@ + spec_log_call(
        cfg.level,
    ) + "('[LOG:"@ + spec_log_level_upper(cfg.level) + "]', "@ + spec_log_message(cfg) + ", "@
        + spec_log_data(cfg, spec_sanitize(node_id)) + ");"@
}

/// Lowers the log component: a leveled console call with optional metadata
/// and workflow context, using a template literal when the message text
/// interpolates.
#[verifier::rlimit(100)]
#[verifier::spinoff_prover]
pub fn generate_log_code(config: &LogConfig, node_id: &str) -> (r: ComponentPattern)
    ensures
        r.code@ == spec_log_code(*config, node_id@),
        r.component_type@ == "log"@,
        r.is_activity == true,
        r.required_imports@.len() == 1 && r.required_imports@[0]@ == "workflowInfo"@,
{
    let sid = sanitize_id(node_id);
    let mut code = String::new();
    code.append("// Log: ");
    code.append(node_id);
    code.append(" [");
    code.append(config.level.upper_str());
    code.append("]\n  ");
    match &config.metadata {
        Option::Some(m) => {
            code.append("const logMetadata_");
            code.append(sid.as_str());
            code.append(" = {\n");
            let ghost mid = code@;
            let mut i: usize = 0;
            while i < m.len()
                invariant
                    i <= m@.len(),
                    code@ == mid + spec_log_metadata_entries(m@.take(i as int)),
                decreases m@.len() - i,
            {
                let pair = &m[i];
                code.append("    ");
                code.append(pair.0.as_str());
                code.append(": ");
                let vtext = pair.1.json_text();
                code.append(vtext.as_str());
                code.append(",\n");
                proof {
                    assert(m@.take(i + 1).drop_last() =~= m@.take(i as int));
                    assert(m@.take(i + 1).last() == m@[i as int]);
                    assert(code@ =~= mid + spec_log_metadata_entries(m@.take(i + 1)));
                }
                i = i + 1;
            }
            code.append("  };");
            proof {
                assert(m@.take(m@.len() as int) =~= m@);
            }
        },
        Option::None => {
        },
    }
    proof {
        assert(code@ =~= "// Log: "@ + node_id@ + " ["@ + spec_log_level_upper(config.level)
            + "]\n  "@ + spec_log_metadata(*config, spec_sanitize(node_id@)));
    }
    code.append("\n  ");
    if config.include_workflow_context {
        code.append("const logContext_");
        code.append(sid.as_str());
        code.append(
            " = {\n    workflowId: workflowInfo().workflowId,\n    runId: workflowInfo().runId,\n    componentId: '",
        );
        code.append(node_id);
        code.append("',\n  };");
    }
    code.append("\n  ");
    match config.level {
        LogLevel::Debug => code.append("console.debug"),
        LogLevel::Info => code.append("console.info"),
        LogLevel::Warn => code.append("console.warn"),
        LogLevel::Error => code.append("console.error"),
    }
    proof {
        assert(code@ =~= "// Log: "@ + node_id@ + " ["@ + spec_log_level_upper(config.level)
            + "]\n  "@ + spec_log_metadata(*config, spec_sanitize(node_id@)) + "\n  "@
            + spec_log_context(*config, node_id@, spec_sanitize(node_id@)) + "\n  "@
            + spec_log_call(config.level));
    }
    code.append("('[LOG:");
    code.append(config.level.upper_str());
    code.append("]', ");
    if has_interpolation(config.message.as_str()) {
        crate::text::push_char(&mut code, '`');
        code.append(config.message.as_str());
        crate::text::push_char(&mut code, '`');
    } else {
        crate::text::push_char(&mut code, '\'');
        push_escaped_sq(&mut code, config.message.as_str());
        crate::text::push_char(&mut code, '\'');
    }
    code.append(", ");
    let has_meta = config.metadata.is_some();
    if config.include_workflow_context && has_meta {
        code.append("{ ...logContext_");
        code.append(sid.as_str());
        code.append(", ...logMetadata_");
        code.append(sid.as_str());
        code.append(" }");
    } else if config.include_workflow_context {
        code.append("logContext_");
        code.append(sid.as_str());
    } else if has_meta {
        code.append("logMetadata_");
        code.append(sid.as_str());
    } else {
        code.append("{}");
    }
    code.append(");");
    proof {
        assert(code@ =~= spec_log_code(*config, node_id@));
    }
    ComponentPattern {
        component_type: String::from_str("log"),
        code,
        is_activity: true,
        required_imports: workflow_info_imports(),
    }
}

/// The rendered default document of a variable configuration: its JSON
/// text, or `undefined` where none is set.
pub open spec fn spec_default_init(v: Option<JsonValue>) -> Seq<char> {
    match v {
        Option::Some(d) => spec_json_text(d),
        Option::None => "undefined"@,
    }
}

/// Appends the rendered default document.
fn push_default_init(out: &mut String, v: &Option<JsonValue>)
    ensures
        final(out)@ == old(out)@ + spec_default_init(*v),
{
    match v {
        Option::Some(d) => {
            let t = d.json_text();
            out.append(t.as_str());
        },
        Option::None => {
            out.append("undefined");
        },
    }
}

/// The whole service-variable fragment.
pub open spec fn spec_service_variable_code(cfg: ServiceVariableConfig, node_id: Seq<char>) -> Seq<
    char,
> {
    "// ServiceVariable: "@ + node_id + " - "@ + spec_sanitize(cfg.name@)
        + "\n  // Scope: service, Type: "@ + spec_runtime_type_ts(cfg.variable_type)
        + "\n  if (state."@ + spec_sanitize(cfg.name@) + " === undefined) {\n    state."@
        + spec_sanitize(cfg.name@) + " = "@ + spec_default_init(cfg.default_value)
        + ";\n    console.log('[VAR:SERVICE:INIT]', { name: '"@ + spec_sanitize(cfg.name@)
        + "', value: state."@ + spec_sanitize(cfg.name@)
        + ", workflowId: workflowInfo().workflowId });\n  }"@
}

/// Lowers the service-variable component: a guarded lazy initialization of
/// a named slot in workflow-local state, run at most once.
pub fn generate_service_variable_code(config: &ServiceVariableConfig, node_id: &str) -> (r:
    ComponentPattern)
    ensures
        r.code@ == spec_service_variable_code(*config, node_id@),
        r.component_type@ == "service-variable"@,
        r.is_activity == false,
        r.required_imports@.len() == 1 && r.required_imports@[0]@ == "workflowInfo"@,
{
    let var_name = sanitize_id(config.name.as_str());
    let mut code = String::new();
    code.append("// ServiceVariable: ");
    code.append(node_id);
    code.append(" - ");
    code.append(var_name.as_str());
    code.append("\n  // Scope: service, Type: ");
    code.append(config.variable_type.to_typescript());
    code.append("\n  if (state.");
    code.append(var_name.as_str());
    code.append(" === undefined) {\n    state.");
    code.append(var_name.as_str());
    code.append(" = ");
    push_default_init(&mut code, &config.default_value);
    code.append(";\n    console.log('[VAR:SERVICE:INIT]', { name: '");
    code.append(var_name.as_str());
    code.append("', value: state.");
    code.append(var_name.as_str());
    code.append(", workflowId: workflowInfo().workflowId });\n  }");
    proof {
        assert(code@ =~= spec_service_variable_code(*config, node_id@));
    }
    ComponentPattern {
        component_type: String::from_str("service-variable"),
        code,
        is_activity: false,
        required_imports: workflow_info_imports(),
    }
}

/// The conditional throw of a get-variable fragment.
pub open spec fn spec_get_throw(cfg: GetVariableConfig, sid: Seq<char>) -> Seq<char> {
    if cfg.throw_if_missing {
        "\n  if (result_"@ + sid + ".value === undefined) {\n    throw new Error('[VAR:GET:ERROR] Variable "@
            + spec_sanitize(cfg.name@) + " not found in "@ + spec_scope_str(cfg.scope)
            + " scope');\n  }"@
    } else {
        Seq::empty()
    }
}

/// The whole get-variable fragment for each scope.
pub open spec fn spec_get_variable_code(cfg: GetVariableConfig, node_id: Seq<char>) -> Seq<char> {
    let sid = spec_sanitize(node_id);
    let var_name = spec_sanitize(cfg.name@);
    match cfg.scope {
        VariableScope::Workflow => "// GetVariable: "@ + node_id + " - "@ + var_name
            + " (workflow scope)\n  const result_"@ + sid + " = {\n    value: state."@ + var_name
            + " ?? "@ + spec_default_init(cfg.default_value) + ",\n    exists: state."@ + var_name
            + " !== undefined,\n  };"@ + spec_get_throw(cfg, sid)
            + "\n  console.log('[VAR:GET:WORKFLOW]', { name: '"@ + var_name
            + "', exists: result_"@ + sid + ".exists, workflowId: workflowInfo().workflowId });"@,
        VariableScope::Service => "// GetVariable: "@ + node_id + " - "@ + var_name
            + " (service scope)\n  const result_"@ + sid
            + " = await acts.getServiceVariable({\n    name: '"@ + var_name
            + "',\n    defaultValue: "@ + spec_default_init(cfg.default_value) + ",\n  });"@
            + spec_get_throw(cfg, sid) + "\n  console.log('[VAR:GET:SERVICE]', { name: '"@
            + var_name + "', exists: result_"@ + sid
            + ".exists, workflowId: workflowInfo().workflowId });"@,
        VariableScope::Project => "// GetVariable: "@ + node_id + " - "@ + var_name
            + " (project scope)\n  const result_"@ + sid
            + " = await acts.getProjectVariable({\n    name: '"@ + var_name
            + "',\n    defaultValue: "@ + spec_default_init(cfg.default_value) + ",\n  });"@
            + spec_get_throw(cfg, sid) + "\n  console.log('[VAR:GET:PROJECT]', { name: '"@
            + var_name + "', exists: result_"@ + sid
            + ".exists, workflowId: workflowInfo().workflowId });"@,
    }
}

/// Appends the conditional throw of a get-variable fragment.
fn push_get_throw(out: &mut String, config: &GetVariableConfig, sid: &str)
    ensures
        final(out)@ == old(out)@ + spec_get_throw(*config, sid@),
{
    if config.throw_if_missing {
        let var_name = sanitize_id(config.name.as_str());
        out.append("\n  if (result_");
        out.append(sid);
        out.append(".value === undefined) {\n    throw new Error('[VAR:GET:ERROR] Variable ");
        out.append(var_name.as_str());
        out.append(" not found in ");
        out.append(config.scope.as_str());
        out.append(" scope');\n  }");
        proof {
            assert(out@ =~= old(out)@ + spec_get_throw(*config, sid@));
        }
    }
}

/// Lowers the get-variable component.  Workflow scope reads local state
/// directly; service and project scope await the externally provided
/// variable-store activity, and optionally throw when the value is absent.
#[verifier::rlimit(100)]
#[verifier::spinoff_prover]
pub fn generate_get_variable_code(config: &GetVariableConfig, node_id: &str) -> (r:
    ComponentPattern)
    ensures
        r.code@ == spec_get_variable_code(*config, node_id@),
        r.component_type@ == "get-variable"@,
        r.is_activity == (config.scope is Service || config.scope is Project),
        r.required_imports@.len() == 1 && r.required_imports@[0]@ == "workflowInfo"@,
{
    let sid = sanitize_id(node_id);
    let var_name = sanitize_id(config.name.as_str());
    let mut code = String::new();
    code.append("// GetVariable: ");
    code.append(node_id);
    code.append(" - ");
    code.append(var_name.as_str());
    match config.scope {
        VariableScope::Workflow => {
            code.append(" (workflow scope)\n  const result_");
            code.append(sid.as_str());
            code.append(" = {\n    value: state.");
            code.append(var_name.as_str());
            code.append(" ?? ");
            push_default_init(&mut code, &config.default_value);
            code.append(",\n    exists: state.");
            code.append(var_name.as_str());
            code.append(" !== undefined,\n  };");
            push_get_throw(&mut code, config, sid.as_str());
            code.append("\n  console.log('[VAR:GET:WORKFLOW]', { name: '");
            code.append(var_name.as_str());
            code.append("', exists: result_");
            code.append(sid.as_str());
            code.append(".exists, workflowId: workflowInfo().workflowId });");
        },
        VariableScope::Service => {
            code.append(" (service scope)\n  const result_");
            code.append(sid.as_str());
            code.append(" = await acts.getServiceVariable({\n    name: '");
            code.append(var_name.as_str());
            code.append("',\n    defaultValue: ");
            push_default_init(&mut code, &config.default_value);
            code.append(",\n  });");
            push_get_throw(&mut code, config, sid.as_str());
            code.append("\n  console.log('[VAR:GET:SERVICE]', { name: '");
            code.append(var_name.as_str());
            code.append("', exists: result_");
            code.append(sid.as_str());
            code.append(".exists, workflowId: workflowInfo().workflowId });");
        },
        VariableScope::Project => {
            code.append(" (project scope)\n  const result_");
            code.append(sid.as_str());
            code.append(" = await acts.getProjectVariable({\n    name: '");
            code.append(var_name.as_str());
            code.append("',\n    defaultValue: ");
            push_default_init(&mut code, &config.default_value);
            code.append(",\n  });");
            push_get_throw(&mut code, config, sid.as_str());
            code.append("\n  console.log('[VAR:GET:PROJECT]', { name: '");
            code.append(var_name.as_str());
            code.append("', exists: result_");
            code.append(sid.as_str());
            code.append(".exists, workflowId: workflowInfo().workflowId });");
        },
    }
    proof {
        assert(code@ =~= spec_get_variable_code(*config, node_id@));
    }
    let is_activity = matches!(config.scope, VariableScope::Service | VariableScope::Project);
    ComponentPattern {
        component_type: String::from_str("get-variable"),
        code,
        is_activity,
        required_imports: workflow_info_imports(),
    }
}

/// The value that a set-variable fragment assigns: the configured
/// expression, else the rendered static value, else the caller's input.
pub open spec fn spec_set_value_expr(cfg: SetVariableConfig) -> Seq<char> {
    match cfg.value_expression {
        Option::Some(expr) => expr@,
        Option::None => match cfg.static_value {
            Option::Some(v) => spec_json_text(v),
            Option::None => "input.value"@,
        },
    }
}

/// The `(merge mode)` marker of a set-variable fragment.
pub open spec fn spec_merge_comment(cfg: SetVariableConfig) -> Seq<char> {
    if cfg.merge {
        " (merge mode)"@
    } else {
        Seq::empty()
    }
}

/// The rendered boolean literals of a set-variable call.
pub open spec fn spec_bool_text(b: bool) -> Seq<char> {
    if b {
        "true"@
    } else {
        "false"@
    }
}

/// The whole set-variable fragment for each scope.
pub open spec fn spec_set_variable_code(cfg: SetVariableConfig, node_id: Seq<char>) -> Seq<char> {
    let sid = spec_sanitize(node_id);
    let var_name = spec_sanitize(cfg.name@);
    match cfg.scope {
        VariableScope::Workflow => "// SetVariable: "@ + node_id + " - "@ + var_name
            + " (workflow scope)"@ + spec_merge_comment(cfg) + "\n  const prevValue_"@ + sid
            + " = state."@ + var_name + ";\n  "@ + (if cfg.merge {
            "state."@ + var_name + " = { ...state."@ + var_name + ", ...("@ + spec_set_value_expr(
                cfg,
            ) + ") };"@
        } else {
            "state."@ + var_name + " = "@ + spec_set_value_expr(cfg) + seq![';']
        }) + "\n  console.log('[VAR:SET:WORKFLOW]', { name: '"@ + var_name
            + "', previousValue: prevValue_"@ + sid + ", newValue: state."@ + var_name
            + ", workflowId: workflowInfo().workflowId });"@,
        VariableScope::Service => "// SetVariable: "@ + node_id + " - "@ + var_name
            + " (service scope)"@ + spec_merge_comment(cfg) + "\n  const setResult_"@ + sid
            + " = await acts.setServiceVariable({\n    name: '"@ + var_name + "',\n    value: "@
            + spec_set_value_expr(cfg) + ",\n    merge: "@ + spec_bool_text(cfg.merge)
            + ",\n    createIfMissing: "@ + spec_bool_text(cfg.create_if_missing)
            + ",\n  });\n  console.log('[VAR:SET:SERVICE]', { name: '"@ + var_name
            + "', created: setResult_"@ + sid + ".created, workflowId: workflowInfo().workflowId });"@,
        VariableScope::Project => "// SetVariable: "@ + node_id + " - "@ + var_name
            + " (project scope)"@ + spec_merge_comment(cfg) + "\n  const setResult_"@ + sid
            + " = await acts.setProjectVariable({\n    name: '"@ + var_name + "',\n    value: "@
            + spec_set_value_expr(cfg) + ",\n    merge: "@ + spec_bool_text(cfg.merge)
            + ",\n    createIfMissing: "@ + spec_bool_text(cfg.create_if_missing)
            + ",\n  });\n  console.log('[VAR:SET:PROJECT]', { name: '"@ + var_name
            + "', created: setResult_"@ + sid + ".created, workflowId: workflowInfo().workflowId });"@,
    }
}

/// Appends the value a set-variable fragment assigns.
fn push_set_value_expr(out: &mut String, config: &SetVariableConfig)
    ensures
        final(out)@ == old(out)@ + spec_set_value_expr(*config),
{
    match &config.value_expression {
        Option::Some(expr) => {
            out.append(expr.as_str());
        },
        Option::None => {
            match &config.static_value {
                Option::Some(v) => {
                    let t = v.json_text();
                    out.append(t.as_str());
                },
                Option::None => {
                    out.append("input.value");
                },
            }
        },
    }
}

/// Lowers the set-variable component.  Workflow scope assigns local state,
/// with an optional shallow merge of object values; service and project
/// scope await the externally provided variable-store activity.
#[verifier::rlimit(100)]
#[verifier::spinoff_prover]
pub fn generate_set_variable_code(config: &SetVariableConfig, node_id: &str) -> (r:
    ComponentPattern)
    ensures
        r.code@ == spec_set_variable_code(*config, node_id@),
        r.component_type@ == "set-variable"@,
        r.is_activity == (config.scope is Service || config.scope is Project),
        r.required_imports@.len() == 1 && r.required_imports@[0]@ == "workflowInfo"@,
{
    let sid = sanitize_id(node_id);
    let var_name = sanitize_id(config.name.as_str());
    let mut code = String::new();
    code.append("// SetVariable: ");
    code.append(node_id);
    code.append(" - ");
    code.append(var_name.as_str());
    match config.scope {
        VariableScope::Workflow => {
            code.append(" (workflow scope)");
            if config.merge {
                code.append(" (merge mode)");
            }
            code.append("\n  const prevValue_");
            code.append(sid.as_str());
            code.append(" = state.");
            code.append(var_name.as_str());
            code.append(";\n  ");
            if config.merge {
                code.append("state.");
                code.append(var_name.as_str());
                code.append(" = { ...state.");
                code.append(var_name.as_str());
                code.append(", ...(");
                push_set_value_expr(&mut code, config);
                code.append(") };");
            } else {
                code.append("state.");
                code.append(var_name.as_str());
                code.append(" = ");
                push_set_value_expr(&mut code, config);
                crate::text::push_char(&mut code, ';');
            }
            code.append("\n  console.log('[VAR:SET:WORKFLOW]', { name: '");
            code.append(var_name.as_str());
            code.append("', previousValue: prevValue_");
            code.append(sid.as_str());
            code.append(", newValue: state.");
            code.append(var_name.as_str());
            code.append(", workflowId: workflowInfo().workflowId });");
        },
        VariableScope::Service => {
            code.append(" (service scope)");
            if config.merge {
                code.append(" (merge mode)");
            }
            code.append("\n  const setResult_");
            code.append(sid.as_str());
            code.append(" = await acts.setServiceVariable({\n    name: '");
            code.append(var_name.as_str());
            code.append("',\n    value: ");
            push_set_value_expr(&mut code, config);
            code.append(",\n    merge: ");
            if config.merge {
                code.append("true");
            } else {
                code.append("false");
            }
            code.append(",\n    createIfMissing: ");
            if config.create_if_missing {
                code.append("true");
            } else {
                code.append("false");
            }
            code.append(",\n  });\n  console.log('[VAR:SET:SERVICE]', { name: '");
            code.append(var_name.as_str());
            code.append("', created: setResult_");
            code.append(sid.as_str());
            code.append(".created, workflowId: workflowInfo().workflowId });");
        },
        VariableScope::Project => {
            code.append(" (project scope)");
            if config.merge {
                code.append(" (merge mode)");
            }
            code.append("\n  const setResult_");
            code.append(sid.as_str());
            code.append(" = await acts.setProjectVariable({\n    name: '");
            code.append(var_name.as_str());
            code.append("',\n    value: ");
            push_set_value_expr(&mut code, config);
            code.append(",\n    merge: ");
            if config.merge {
                code.append("true");
            } else {
                code.append("false");
            }
            code.append(",\n    createIfMissing: ");
            if config.create_if_missing {
                code.append("true");
            } else {
                code.append("false");
            }
            code.append(",\n  });\n  console.log('[VAR:SET:PROJECT]', { name: '");
            code.append(var_name.as_str());
            code.append("', created: setResult_");
            code.append(sid.as_str());
            code.append(".created, workflowId: workflowInfo().workflowId });");
        },
    }
    proof {
        assert(code@ =~= spec_set_variable_code(*config, node_id@));
    }
    let is_activity = matches!(config.scope, VariableScope::Service | VariableScope::Project);
    ComponentPattern {
        component_type: String::from_str("set-variable"),
        code,
        is_activity,
        required_imports: workflow_info_imports(),
    }
}

/// The log activity implementation for a node.
pub open spec fn spec_log_activity(node_id: Seq<char>) -> Seq<char> {
    "/**\n * Log Activity: "@ + node_id
        + "\n * Records a log entry with workflow context\n */\nexport async function log_"@
        + spec_sanitize(node_id)
        + "(\n  input: LogActivityInput\n): Promise<LogActivityOutput> {\n  const context = Context.current();\n\n  const logEntry = {\n    timestamp: new Date().toISOString(),\n    level: input.level || 'info',\n    message: input.message,\n    workflowContext: input.workflowContext,\n    metadata: input.metadata,\n  };\n\n  switch (logEntry.level) {\n    case 'debug':\n      console.debug('[LOG:DEBUG]', logEntry.message, logEntry);\n      break;\n    case 'warn':\n      console.warn('[LOG:WARN]', logEntry.message, logEntry);\n      break;\n    case 'error':\n      console.error('[LOG:ERROR]', logEntry.message, logEntry);\n      break;\n    default:\n      console.info('[LOG:INFO]', logEntry.message, logEntry);\n  }\n\n  return {\n    logged: true,\n    timestamp: logEntry.timestamp,\n    logId: crypto.randomUUID(),\n  };\n}"@
}

/// The log activity implementation: a function that records a structured
/// log entry and reports its timestamp and identifier.
pub fn generate_log_activity(node_id: &str) -> (r: String)
    ensures
        r@ == spec_log_activity(node_id@),
{
    let sid = sanitize_id(node_id);
    let mut out = String::new();
    out.append("/**\n * Log Activity: ");
    out.append(node_id);
    out.append("\n * Records a log entry with workflow context\n */\nexport async function log_");
    out.append(sid.as_str());
    out.append(
        "(\n  input: LogActivityInput\n): Promise<LogActivityOutput> {\n  const context = Context.current();\n\n  const logEntry = {\n    timestamp: new Date().toISOString(),\n    level: input.level || 'info',\n    message: input.message,\n    workflowContext: input.workflowContext,\n    metadata: input.metadata,\n  };\n\n  switch (logEntry.level) {\n    case 'debug':\n      console.debug('[LOG:DEBUG]', logEntry.message, logEntry);\n      break;\n    case 'warn':\n      console.warn('[LOG:WARN]', logEntry.message, logEntry);\n      break;\n    case 'error':\n      console.error('[LOG:ERROR]', logEntry.message, logEntry);\n      break;\n    default:\n      console.info('[LOG:INFO]', logEntry.message, logEntry);\n  }\n\n  return {\n    logged: true,\n    timestamp: logEntry.timestamp,\n    logId: crypto.randomUUID(),\n  };\n}",
    );
    proof {
        assert(out@ =~= spec_log_activity(node_id@));
    }
    out
}

/// The activity implementations of the variable store: get and set for the
/// service and project scopes, plus the metadata interface.
pub open spec fn spec_variable_activities() -> Seq<char> {
    "/**\n * Get a service-scoped variable\n */\nexport async function getServiceVariable(\n  input: { name: string; defaultValue?: unknown }\n): Promise<{ value: unknown; exists: boolean; metadata?: VariableMetadata }> {\n  const context = Context.current();\n  const value = input.defaultValue;\n  return {\n    value,\n    exists: false,\n  };\n}\n\n/**\n * Set a service-scoped variable\n */\nexport async function setServiceVariable(\n  input: { name: string; value: unknown; merge?: boolean; createIfMissing?: boolean }\n): Promise<{ success: boolean; previousValue?: unknown; created: boolean; updatedAt: string }> {\n  const context = Context.current();\n  return {\n    success: true,\n    created: true,\n    updatedAt: new Date().toISOString(),\n  };\n}\n\n/**\n * Get a project-scoped variable\n */\nexport async function getProjectVariable(\n  input: { name: string; defaultValue?: unknown }\n): Promise<{ value: unknown; exists: boolean; metadata?: VariableMetadata }> {\n  const context = Context.current();\n  const value = input.defaultValue;\n  return {\n    value,\n    exists: false,\n  };\n}\n\n/**\n * Set a project-scoped variable\n */\nexport async function setProjectVariable(\n  input: { name: string; value: unknown; merge?: boolean; createIfMissing?: boolean }\n): Promise<{ success: boolean; previousValue?: unknown; created: boolean; updatedAt: string }> {\n  const context = Context.current();\n  return {\n    success: true,\n    created: true,\n    updatedAt: new Date().toISOString(),\n  };\n}\n\n/**\n * Metadata about a variable\n */\ninterface VariableMetadata {\n  variableType: string;\n  createdAt: string;\n  updatedAt: string;\n  scope: 'workflow' | 'service' | 'project';\n  ownerServiceId?: string;\n}"@
}

/// The activity implementations of the variable store.
pub fn generate_variable_activities() -> (r: String)
    ensures
        r@ == spec_variable_activities(),
{
    String::from_str(
        "/**\n * Get a service-scoped variable\n */\nexport async function getServiceVariable(\n  input: { name: string; defaultValue?: unknown }\n): Promise<{ value: unknown; exists: boolean; metadata?: VariableMetadata }> {\n  const context = Context.current();\n  const value = input.defaultValue;\n  return {\n    value,\n    exists: false,\n  };\n}\n\n/**\n * Set a service-scoped variable\n */\nexport async function setServiceVariable(\n  input: { name: string; value: unknown; merge?: boolean; createIfMissing?: boolean }\n): Promise<{ success: boolean; previousValue?: unknown; created: boolean; updatedAt: string }> {\n  const context = Context.current();\n  return {\n    success: true,\n    created: true,\n    updatedAt: new Date().toISOString(),\n  };\n}\n\n/**\n * Get a project-scoped variable\n */\nexport async function getProjectVariable(\n  input: { name: string; defaultValue?: unknown }\n): Promise<{ value: unknown; exists: boolean; metadata?: VariableMetadata }> {\n  const context = Context.current();\n  const value = input.defaultValue;\n  return {\n    value,\n    exists: false,\n  };\n}\n\n/**\n * Set a project-scoped variable\n */\nexport async function setProjectVariable(\n  input: { name: string; value: unknown; merge?: boolean; createIfMissing?: boolean }\n): Promise<{ success: boolean; previousValue?: unknown; created: boolean; updatedAt: string }> {\n  const context = Context.current();\n  return {\n    success: true,\n    created: true,\n    updatedAt: new Date().toISOString(),\n  };\n}\n\n/**\n * Metadata about a variable\n */\ninterface VariableMetadata {\n  variableType: string;\n  createdAt: string;\n  updatedAt: string;\n  scope: 'workflow' | 'service' | 'project';\n  ownerServiceId?: string;\n}",
    )
}

} // verus!
