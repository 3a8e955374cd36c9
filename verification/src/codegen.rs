//! The code generator.
//!
//! `generate` lowers a validated workflow graph into five TypeScript source
//! artifacts: the workflow body, the activities file, the worker bootstrap,
//! the project manifest and the compiler configuration.  Every artifact is
//! stated exactly as a function of the graph and the options, so generation
//! is deterministic: equal inputs give byte-identical artifacts.

use crate::components::{LogConfig, LogLevel, GetVariableConfig, ServiceVariableConfig,
    SetVariableConfig, StartConfig, StopConfig, PersistenceStrategy, RuntimeVariableType,
    VariableScope};
use crate::fragments::{generate_get_variable_code, generate_log_code,
    generate_service_variable_code, generate_set_variable_code, generate_start_code,
    generate_stop_code, generate_variable_activities, spec_get_variable_code, spec_log_code,
    spec_service_variable_code, spec_set_variable_code, spec_start_code, spec_stop_code,
    spec_variable_activities};
use crate::schema::{spec_trigger_count, NodeType, RetryPolicy, WorkflowDefinition, WorkflowNode,
    WorkflowVariable, VariableType};
use crate::text::{sanitize_id, spec_camel_from, spec_dec, spec_lower, spec_pascal_from,
    spec_sanitize, str_eq, to_camel_case, to_pascal_case, usize_to_string, lower_str};
use vstd::prelude::*;

verus! {

/// Options of one generation call.
#[derive(Debug, Clone)]
pub struct CodeGenOptions {
    /// Whether generated code carries comments.
    pub include_comments: bool,
    /// Whether the generated project is checked in strict mode.
    pub strict_mode: bool,
    /// An override for the workflow's display name.
    pub workflow_name: Option<String>,
    /// The activity timeout that applies where a node sets none.
    pub default_timeout: String,
}

impl CodeGenOptions {
    /// The default options: comments on, strict mode on, no name override,
    /// a one-minute default timeout.
    pub fn new() -> (r: Self)
        ensures
            r.include_comments == true,
            r.strict_mode == true,
            r.workflow_name is None,
            r.default_timeout@ == "1m"@,
    {
        CodeGenOptions {
            include_comments: true,
            strict_mode: true,
            workflow_name: None,
            default_timeout: String::from_str("1m"),
        }
    }
}

/// The five generated artifacts.
#[derive(Debug, Clone)]
pub struct GeneratedCode {
    /// The workflow source.
    pub workflow: String,
    /// The activities source.
    pub activities: String,
    /// The worker bootstrap source.
    pub worker: String,
    /// The project manifest.
    pub package_json: String,
    /// The compiler configuration.
    pub tsconfig: String,
}

/// Why a generation call failed.
#[derive(Debug, Clone)]
pub enum GenerationError {
    /// The graph has no trigger node, so there is no emission order.
    NoStartNode,
    /// An artifact could not be rendered.
    RenderError(String),
}

impl GenerationError {
    /// The human-readable message for this error.
    pub fn message(&self) -> (r: String)
        ensures
            *self is NoStartNode ==> r@ == "No start node found in workflow"@,
    {
        let mut out = String::new();
        match self {
            GenerationError::NoStartNode => {
                out.append("No start node found in workflow");
            },
            GenerationError::RenderError(m) => {
                out.append("Render error: ");
                out.append(m.as_str());
            },
        }
        out
    }
}

/// The effective timeout of a node: its own, else the default of the call.
pub open spec fn spec_eff_timeout(n: WorkflowNode, dtl: Seq<char>) -> Seq<char> {
    match n.data.timeout {
        Option::Some(t) => t@,
        Option::None => dtl,
    }
}

/// Whether a node is lowered as an activity call.
pub open spec fn spec_is_act(n: WorkflowNode) -> bool {
    n.node_type is Activity || n.node_type is Agent
}

/// The distinct effective timeouts of the activity nodes, in first-seen
/// order.
pub open spec fn spec_distinct_timeouts(nodes: Seq<WorkflowNode>, dtl: Seq<char>) -> Seq<
    Seq<char>,
>
    decreases nodes,
{
    if nodes.len() == 0 {
        Seq::empty()
    } else {
        let prev = spec_distinct_timeouts(nodes.drop_last(), dtl);
        if spec_is_act(nodes.last()) {
            if prev.contains(spec_eff_timeout(nodes.last(), dtl)) {
                prev
            } else {
                prev.push(spec_eff_timeout(nodes.last(), dtl))
            }
        } else {
            prev
        }
    }
}

/// The first activity node whose effective timeout is `t`, looking from
/// position `i` on.
pub open spec fn spec_first_act_from(
    nodes: Seq<WorkflowNode>,
    dtl: Seq<char>,
    t: Seq<char>,
    i: int,
) -> Option<WorkflowNode>
    decreases nodes.len() - i,
{
    if i < 0 || i >= nodes.len() {
        Option::None
    } else if spec_is_act(nodes[i]) && spec_eff_timeout(nodes[i], dtl) == t {
        Option::Some(nodes[i])
    } else {
        spec_first_act_from(nodes, dtl, t, i + 1)
    }
}

/// The retry policy of the proxy group with timeout `t`: the first
/// member's explicit policy, else the workflow-level default.
pub open spec fn spec_group_retry(w: WorkflowDefinition, dtl: Seq<char>, t: Seq<char>) -> Option<
    RetryPolicy,
> {
    match spec_first_act_from(w.nodes@, dtl, t, 0) {
        Option::Some(n) => match n.data.retry_policy {
            Option::Some(rp) => Option::Some(rp),
            Option::None => w.settings.retry_policy,
        },
        Option::None => w.settings.retry_policy,
    }
}

/// The defaulted maximum attempts of a retry policy.
pub open spec fn spec_retry_max(p: RetryPolicy) -> int {
    match p.max_attempts {
        Option::Some(m) => m as int,
        Option::None => 3,
    }
}

/// The defaulted initial interval of a retry policy.
pub open spec fn spec_retry_init(p: RetryPolicy) -> Seq<char> {
    match p.initial_interval {
        Option::Some(s) => s@,
        Option::None => "1s"@,
    }
}

/// The defaulted maximum interval of a retry policy.
pub open spec fn spec_retry_maxi(p: RetryPolicy) -> Seq<char> {
    match p.max_interval {
        Option::Some(s) => s@,
        Option::None => "1m"@,
    }
}

/// The defaulted backoff coefficient of a retry policy, as literal text.
pub open spec fn spec_retry_backoff(p: RetryPolicy) -> Seq<char> {
    match p.backoff_coefficient {
        Option::Some(s) => s@,
        Option::None => "2"@,
    }
}

/// The retry block of a proxy declaration, empty where no policy applies.
pub open spec fn spec_retry_block(p: Option<RetryPolicy>) -> Seq<char> {
    match p {
        Option::Some(rp) => "  retry: {\n    maximumAttempts: "@ + spec_dec(spec_retry_max(rp))
            + ",\n    initialInterval: '"@ + spec_retry_init(rp) + "',\n    maximumInterval: '"@
            + spec_retry_maxi(rp) + "',\n    backoffCoefficient: "@ + spec_retry_backoff(rp)
            + ",\n  },\n"@,
        Option::None => Seq::empty(),
    }
}

/// One proxy declaration.
pub open spec fn spec_proxy_decl(name: Seq<char>, t: Seq<char>, p: Option<RetryPolicy>) -> Seq<
    char,
> {
    "const "@ + name + " = proxyActivities<typeof activities>({\n  startToCloseTimeout: '"@ + t
        + "',\n"@ + spec_retry_block(p) + "});\n\n"@
}

/// The name of the proxy group at a position: `acts` first, then `acts_1`,
/// `acts_2` and so on.
pub open spec fn spec_proxy_name(i: int) -> Seq<char> {
    if i == 0 {
        "acts"@
    } else {
        "acts_"@ + spec_dec(i)
    }
}

/// The proxy declarations from group `i` on.
pub open spec fn spec_proxies_from(
    w: WorkflowDefinition,
    dtl: Seq<char>,
    ts: Seq<Seq<char>>,
    i: int,
) -> Seq<char>
    decreases ts.len() - i,
{
    if i < 0 || i >= ts.len() {
        Seq::empty()
    } else {
        spec_proxy_decl(spec_proxy_name(i), ts[i], spec_group_retry(w, dtl, ts[i]))
            + spec_proxies_from(w, dtl, ts, i + 1)
    }
}

/// All proxy declarations: one per distinct effective timeout in first-seen
/// order, or a single default declaration where no activities exist.
pub open spec fn spec_proxies_text(w: WorkflowDefinition, dtl: Seq<char>) -> Seq<char> {
    let ts = spec_distinct_timeouts(w.nodes@, dtl);
    if ts.len() == 0 {
        spec_proxy_decl("acts"@, dtl, w.settings.retry_policy)
    } else {
        spec_proxies_from(w, dtl, ts, 0)
    }
}

/// Appends one retry block.
fn push_retry_block(out: &mut String, p: &Option<RetryPolicy>)
    ensures
        final(out)@ == old(out)@ + spec_retry_block(*p),
{
    match p {
        Option::Some(rp) => {
            out.append("  retry: {\n    maximumAttempts: ");
            let max = match rp.max_attempts {
                Option::Some(m) => m,
                Option::None => 3,
            };
            let maxs = crate::text::u32_to_string(max);
            out.append(maxs.as_str());
            out.append(",\n    initialInterval: '");
            match &rp.initial_interval {
                Option::Some(s) => out.append(s.as_str()),
                Option::None => out.append("1s"),
            }
            out.append("',\n    maximumInterval: '");
            match &rp.max_interval {
                Option::Some(s) => out.append(s.as_str()),
                Option::None => out.append("1m"),
            }
            out.append("',\n    backoffCoefficient: ");
            match &rp.backoff_coefficient {
                Option::Some(s) => out.append(s.as_str()),
                Option::None => out.append("2"),
            }
            out.append(",\n  },\n");
            proof {
                assert(out@ =~= old(out)@ + spec_retry_block(*p));
            }
        },
        Option::None => {
        },
    }
}

/// Appends one proxy declaration.
fn push_proxy_decl(out: &mut String, name: &str, t: &str, p: &Option<RetryPolicy>)
    ensures
        final(out)@ == old(out)@ + spec_proxy_decl(name@, t@, *p),
{
    out.append("const ");
    out.append(name);
    out.append(" = proxyActivities<typeof activities>({\n  startToCloseTimeout: '");
    out.append(t);
    out.append("',\n");
    push_retry_block(out, p);
    out.append("});\n\n");
    proof {
        assert(out@ =~= old(out)@ + spec_proxy_decl(name@, t@, *p));
    }
}

/// The effective timeout of a node, as an owned string.
fn eff_timeout(n: &WorkflowNode, dtl: &String) -> (r: String)
    ensures
        r@ == spec_eff_timeout(*n, dtl@),
{
    match &n.data.timeout {
        Option::Some(t) => t.clone(),
        Option::None => dtl.clone(),
    }
}

/// The distinct effective timeouts of the activity nodes, in first-seen
/// order.
#[verifier::loop_isolation(false)]
fn collect_distinct_timeouts(w: &WorkflowDefinition, dtl: &String) -> (r: Vec<String>)
    ensures
        r.deep_view() == spec_distinct_timeouts(w.nodes@, dtl@),
{
    let mut out: Vec<String> = Vec::new();
    let mut j: usize = 0;
    while j < w.nodes.len()
        invariant
            j <= w.nodes@.len(),
            out.deep_view() == spec_distinct_timeouts(w.nodes@.take(j as int), dtl@),
        decreases w.nodes@.len() - j,
    {
        let ghost opre = out.deep_view();
        proof {
            assert(w.nodes@.take(j + 1).drop_last() =~= w.nodes@.take(j as int));
            assert(w.nodes@.take(j + 1).last() == w.nodes@[j as int]);
        }
        if w.nodes[j].node_type.is_activity() {
            let t = eff_timeout(&w.nodes[j], dtl);
            let mut seen: bool = false;
            let mut k: usize = 0;
            while k < out.len()
                invariant
                    k <= out@.len(),
                    seen ==> opre.contains(spec_eff_timeout(w.nodes@[j as int], dtl@)),
                    !seen ==> (forall|q: int| 0 <= q < k ==> opre[q] != (#[trigger] out@[q])@
                        || out@[q]@ != t@),
                    !seen ==> (forall|q: int| 0 <= q < k ==> (#[trigger] out@[q])@ != t@),
                    out.deep_view() == opre,
                decreases out@.len() - k,
            {
                if str_eq(out[k].as_str(), t.as_str()) {
                    proof {
                        assert(opre[k as int] == out@[k as int]@);
                        assert(opre.contains(spec_eff_timeout(w.nodes@[j as int], dtl@)));
                    }
                    seen = true;
                    k = out.len();
                } else {
                    k = k + 1;
                }
            }
            if !seen {
                proof {
                    if opre.contains(t@) {
                        let q = choose|q: int| 0 <= q < opre.len() && opre[q] == t@;
                        assert(out@[q]@ == t@);
                        assert(false);
                    }
                }
                out.push(t);
                proof {
                    assert(out.deep_view() =~= opre.push(
                        spec_eff_timeout(w.nodes@[j as int], dtl@),
                    ));
                }
            }
        }
        j = j + 1;
    }
    proof {
        assert(w.nodes@.take(w.nodes@.len() as int) =~= w.nodes@);
    }
    out
}

/// The retry policy of the proxy group with this timeout.
#[verifier::loop_isolation(false)]
fn group_retry(w: &WorkflowDefinition, dtl: &String, t: &String) -> (r: Option<RetryPolicy>)
    ensures
        r == spec_group_retry(*w, dtl@, t@),
{
    let mut j: usize = 0;
    while j < w.nodes.len()
        invariant
            j <= w.nodes@.len(),
            spec_first_act_from(w.nodes@, dtl@, t@, 0) == spec_first_act_from(
                w.nodes@,
                dtl@,
                t@,
                j as int,
            ),
        decreases w.nodes@.len() - j,
    {
        if w.nodes[j].node_type.is_activity() {
            let et = eff_timeout(&w.nodes[j], dtl);
            if str_eq(et.as_str(), t.as_str()) {
                proof {
                    assert(spec_first_act_from(w.nodes@, dtl@, t@, j as int) == Option::Some(
                        w.nodes@[j as int],
                    ));
                }
                match &w.nodes[j].data.retry_policy {
                    Option::Some(rp) => {
                        return Option::Some(rp.clone());
                    },
                    Option::None => {
                        return match &w.settings.retry_policy {
                            Option::Some(srp) => Option::Some(srp.clone()),
                            Option::None => Option::None,
                        };
                    },
                }
            }
        }
        j = j + 1;
    }
    match &w.settings.retry_policy {
        Option::Some(srp) => Option::Some(srp.clone()),
        Option::None => Option::None,
    }
}

/// Renders every proxy declaration.
#[verifier::loop_isolation(false)]
fn render_proxies(w: &WorkflowDefinition, dtl: &String) -> (r: String)
    ensures
        r@ == spec_proxies_text(*w, dtl@),
{
    let ts = collect_distinct_timeouts(w, dtl);
    let mut out = String::new();
    if ts.len() == 0 {
        push_proxy_decl(&mut out, "acts", dtl.as_str(), &w.settings.retry_policy);
        return out;
    }
    let ghost tsv = ts.deep_view();
    let mut i: usize = 0;
    while i < ts.len()
        invariant
            i <= ts@.len(),
            tsv.len() == ts@.len(),
            out@ + spec_proxies_from(*w, dtl@, tsv, i as int) == spec_proxies_from(
                *w,
                dtl@,
                tsv,
                0,
            ),
        decreases ts@.len() - i,
    {
        let name = if i == 0 {
            String::from_str("acts")
        } else {
            let mut n = String::from_str("acts_");
            let d = usize_to_string(i);
            n.append(d.as_str());
            n
        };
        proof {
            assert(name@ == spec_proxy_name(i as int));
            assert(ts@[i as int]@ == tsv[i as int]);
        }
        let rp = group_retry(w, dtl, &ts[i]);
        let ghost opre = out@;
        push_proxy_decl(&mut out, name.as_str(), ts[i].as_str(), &rp);
        proof {
            assert(out@ =~= opre + spec_proxy_decl(
                spec_proxy_name(i as int),
                tsv[i as int],
                spec_group_retry(*w, dtl@, tsv[i as int]),
            ));
            assert(out@ + spec_proxies_from(*w, dtl@, tsv, i + 1) =~= opre + spec_proxies_from(
                *w,
                dtl@,
                tsv,
                i as int,
            ));
        }
        i = i + 1;
    }
    proof {
        assert(spec_proxies_from(*w, dtl@, tsv, ts@.len() as int) =~= Seq::<char>::empty());
        assert(out@ =~= spec_proxies_from(*w, dtl@, tsv, 0));
    }
    out
}

/// The start configuration a trigger node carries.
pub open spec fn spec_extract_start(n: WorkflowNode) -> StartConfig {
    StartConfig {
        trigger_type: n.data.trigger_type,
        schedule: n.data.schedule,
        webhook_config: Option::None,
    }
}

/// The stop configuration an end node carries.
pub open spec fn spec_extract_stop(n: WorkflowNode) -> StopConfig {
    StopConfig {
        result_mapping: n.data.result_mapping,
        include_metadata: match n.data.include_metadata {
            Option::Some(b) => b,
            Option::None => false,
        },
    }
}

/// The log level a node's text names, `info` where absent or unknown.
pub open spec fn spec_parse_log_level(o: Option<String>) -> LogLevel {
    match o {
        Option::Some(t) => if spec_lower(t@) == "debug"@ {
            LogLevel::Debug
        } else if spec_lower(t@) == "warn"@ || spec_lower(t@) == "warning"@ {
            LogLevel::Warn
        } else if spec_lower(t@) == "error"@ {
            LogLevel::Error
        } else {
            LogLevel::Info
        },
        Option::None => LogLevel::Info,
    }
}

/// The log configuration a node carries.
pub open spec fn spec_extract_log(n: WorkflowNode) -> LogConfig {
    LogConfig {
        message: match n.data.log_message {
            Option::Some(m) => m,
            Option::None => n.data.label,
        },
        level: spec_parse_log_level(n.data.log_level),
        metadata: Option::None,
        include_workflow_context: match n.data.include_workflow_context {
            Option::Some(b) => b,
            Option::None => true,
        },
    }
}

/// The variable scope a node's text names.
pub open spec fn spec_parse_scope(o: Option<String>) -> VariableScope {
    match o {
        Option::Some(t) => if spec_lower(t@) == "service"@ {
            VariableScope::Service
        } else if spec_lower(t@) == "project"@ {
            VariableScope::Project
        } else {
            VariableScope::Workflow
        },
        Option::None => VariableScope::Service,
    }
}

/// The runtime variable type a node's text names.
pub open spec fn spec_parse_rtype(o: Option<String>) -> RuntimeVariableType {
    match o {
        Option::Some(t) => if spec_lower(t@) == "string"@ {
            RuntimeVariableType::String
        } else if spec_lower(t@) == "number"@ {
            RuntimeVariableType::Number
        } else if spec_lower(t@) == "boolean"@ {
            RuntimeVariableType::Boolean
        } else if spec_lower(t@) == "object"@ {
            RuntimeVariableType::Object
        } else if spec_lower(t@) == "array"@ {
            RuntimeVariableType::Array
        } else {
            RuntimeVariableType::Any
        },
        Option::None => RuntimeVariableType::Any,
    }
}

/// The persistence strategy a node's text names.
pub open spec fn spec_parse_persistence(o: Option<String>) -> PersistenceStrategy {
    match o {
        Option::Some(t) => if spec_lower(t@) == "in-memory"@ || spec_lower(t@) == "inmemory"@ {
            PersistenceStrategy::InMemory
        } else if spec_lower(t@) == "external-store"@ || spec_lower(t@) == "externalstore"@ {
            PersistenceStrategy::ExternalStore
        } else {
            PersistenceStrategy::WorkflowState
        },
        Option::None => PersistenceStrategy::InMemory,
    }
}

/// The name a state-variable node gives its variable: the explicit name,
/// else the label.
pub open spec fn spec_var_node_name(n: WorkflowNode) -> String {
    match n.data.variable_name {
        Option::Some(v) => v,
        Option::None => n.data.label,
    }
}

/// The get-variable configuration a node carries.
pub open spec fn spec_extract_get(n: WorkflowNode) -> GetVariableConfig {
    GetVariableConfig {
        name: spec_var_node_name(n),
        scope: spec_parse_scope(n.data.variable_scope),
        default_value: n.data.default_value,
        throw_if_missing: match n.data.throw_if_missing {
            Option::Some(b) => b,
            Option::None => false,
        },
    }
}

/// The set-variable configuration a node carries.
pub open spec fn spec_extract_set(n: WorkflowNode) -> SetVariableConfig {
    SetVariableConfig {
        name: spec_var_node_name(n),
        scope: spec_parse_scope(n.data.variable_scope),
        value_expression: n.data.value_expression,
        static_value: n.data.static_value,
        create_if_missing: match n.data.create_if_missing {
            Option::Some(b) => b,
            Option::None => true,
        },
        merge: match n.data.merge {
            Option::Some(b) => b,
            Option::None => false,
        },
    }
}

/// The service-variable configuration a node carries.
pub open spec fn spec_extract_service(n: WorkflowNode) -> ServiceVariableConfig {
    ServiceVariableConfig {
        name: spec_var_node_name(n),
        variable_type: spec_parse_rtype(n.data.variable_type),
        default_value: n.data.default_value,
        description: Option::None,
        required: false,
        persistence: spec_parse_persistence(n.data.persistence),
        ttl: n.data.ttl,
    }
}

/// Whether an activity node is the log component.
pub open spec fn spec_is_log_node(n: WorkflowNode) -> bool {
    (n.data.component_name matches Option::Some(c) && c@ == "Log"@) || (n.data.activity_name
        matches Option::Some(a) && a@ == "log"@)
}

/// The resolved activity name of an activity node: the explicit name, else
/// the component name, else the camelCase form of the label.
pub open spec fn spec_act_name(n: WorkflowNode) -> Seq<char> {
    match n.data.activity_name {
        Option::Some(a) => a@,
        Option::None => match n.data.component_name {
            Option::Some(c) => c@,
            Option::None => spec_camel_from(n.data.label@, 0, false),
        },
    }
}

/// Which state-variable sub-rule a node's component name selects.
pub open spec fn spec_state_kind(n: WorkflowNode) -> int {
    match n.data.component_name {
        Option::Some(c) => if c@ == "GetVariable"@ || c@ == "get-variable"@ {
            1
        } else if c@ == "SetVariable"@ || c@ == "set-variable"@ {
            2
        } else {
            0
        },
        Option::None => 0,
    }
}

/// The code fragment one node lowers to; empty for node types with no
/// fragment.
pub open spec fn spec_node_code(n: WorkflowNode) -> Seq<char> {
    match n.node_type {
        NodeType::Trigger => spec_start_code(spec_extract_start(n), n.id@),
        NodeType::End => spec_stop_code(spec_extract_stop(n), n.id@),
        NodeType::Activity | NodeType::Agent => if spec_is_log_node(n) {
            spec_log_code(spec_extract_log(n), n.id@)
        } else {
            "const result_"@ + spec_sanitize(n.id@) + " = await acts."@ + spec_act_name(n)
                + "(input);"@
        },
        NodeType::KongLogging => spec_log_code(spec_extract_log(n), n.id@),
        NodeType::Signal => match n.data.signal_name {
            Option::Some(sn) => "setHandler("@ + spec_camel_from(sn@, 0, false)
                + "Signal, (payload) => { /* handle "@ + sn@ + " signal */ });"@,
            Option::None => Seq::empty(),
        },
        NodeType::Conditional | NodeType::Condition => "if ("@ + (match n.data.condition {
            Option::Some(c) => c@,
            Option::None => "true"@,
        }) + ") {\n    /* conditional branch */\n  }"@,
        NodeType::Loop => "/* unsupported: loop construct */"@,
        NodeType::ChildWorkflow => match n.data.workflow_id {
            Option::Some(wid) => "const child_result = await executeChild('"@ + wid@
                + "', { args: [input] });"@,
            Option::None => Seq::empty(),
        },
        NodeType::StateVariable => if spec_state_kind(n) == 1 {
            spec_get_variable_code(spec_extract_get(n), n.id@)
        } else if spec_state_kind(n) == 2 {
            spec_set_variable_code(spec_extract_set(n), n.id@)
        } else {
            spec_service_variable_code(spec_extract_service(n), n.id@)
        },
        _ => Seq::empty(),
    }
}

/// An owned copy of an optional string.
fn clone_opt(o: &Option<String>) -> (r: Option<String>)
    ensures
        r == *o,
{
    match o {
        Option::Some(s) => Option::Some(s.clone()),
        Option::None => Option::None,
    }
}

/// The log level an optional text names.
fn parse_log_level(o: &Option<String>) -> (r: LogLevel)
    ensures
        r == spec_parse_log_level(*o),
{
    match o {
        Option::Some(t) => {
            let low = lower_str(t.as_str());
            if str_eq(low.as_str(), "debug") {
                LogLevel::Debug
            } else if str_eq(low.as_str(), "warn") || str_eq(low.as_str(), "warning") {
                LogLevel::Warn
            } else if str_eq(low.as_str(), "error") {
                LogLevel::Error
            } else {
                LogLevel::Info
            }
        },
        Option::None => LogLevel::Info,
    }
}

/// The variable scope an optional text names.
fn parse_scope(o: &Option<String>) -> (r: VariableScope)
    ensures
        r == spec_parse_scope(*o),
{
    match o {
        Option::Some(t) => {
            let low = lower_str(t.as_str());
            if str_eq(low.as_str(), "service") {
                VariableScope::Service
            } else if str_eq(low.as_str(), "project") {
                VariableScope::Project
            } else {
                VariableScope::Workflow
            }
        },
        Option::None => VariableScope::Service,
    }
}

/// The runtime type an optional text names.
fn parse_rtype(o: &Option<String>) -> (r: RuntimeVariableType)
    ensures
        r == spec_parse_rtype(*o),
{
    match o {
        Option::Some(t) => {
            let low = lower_str(t.as_str());
            if str_eq(low.as_str(), "string") {
                RuntimeVariableType::String
            } else if str_eq(low.as_str(), "number") {
                RuntimeVariableType::Number
            } else if str_eq(low.as_str(), "boolean") {
                RuntimeVariableType::Boolean
            } else if str_eq(low.as_str(), "object") {
                RuntimeVariableType::Object
            } else if str_eq(low.as_str(), "array") {
                RuntimeVariableType::Array
            } else {
                RuntimeVariableType::Any
            }
        },
        Option::None => RuntimeVariableType::Any,
    }
}

/// The persistence strategy an optional text names.
fn parse_persistence(o: &Option<String>) -> (r: PersistenceStrategy)
    ensures
        r == spec_parse_persistence(*o),
{
    match o {
        Option::Some(t) => {
            let low = lower_str(t.as_str());
            if str_eq(low.as_str(), "in-memory") || str_eq(low.as_str(), "inmemory") {
                PersistenceStrategy::InMemory
            } else if str_eq(low.as_str(), "external-store") || str_eq(
                low.as_str(),
                "externalstore",
            ) {
                PersistenceStrategy::ExternalStore
            } else {
                PersistenceStrategy::WorkflowState
            }
        },
        Option::None => PersistenceStrategy::InMemory,
    }
}

/// An owned copy of an optional configuration value.
fn clone_opt_value(o: &Option<crate::json::JsonValue>) -> (r: Option<crate::json::JsonValue>)
    ensures
        match (*o, r) {
            (Option::Some(a), Option::Some(b)) => crate::json::json_eqv(b, a),
            (Option::None, Option::None) => true,
            _ => false,
        },
{
    match o {
        Option::Some(v) => Option::Some(v.clone()),
        Option::None => Option::None,
    }
}

/// The name a state-variable node gives its variable.
fn var_node_name(n: &WorkflowNode) -> (r: String)
    ensures
        r@ == spec_var_node_name(*n)@,
{
    match &n.data.variable_name {
        Option::Some(v) => v.clone(),
        Option::None => n.data.label.clone(),
    }
}

/// Lowers one node to its code fragment; empty for node types with no
/// fragment.
#[verifier::rlimit(100)]
#[verifier::spinoff_prover]
pub fn generate_node_code(n: &WorkflowNode) -> (r: String)
    ensures
        r@ == spec_node_code(*n),
{
    match n.node_type {
        NodeType::Trigger => {
            let cfg = StartConfig {
                trigger_type: clone_opt(&n.data.trigger_type),
                schedule: clone_opt(&n.data.schedule),
                webhook_config: Option::None,
            };
            let p = generate_start_code(&cfg, n.id.as_str());
            proof {
                assert(cfg == spec_extract_start(*n));
            }
            p.code
        },
        NodeType::End => {
            let cfg = StopConfig {
                result_mapping: clone_opt(&n.data.result_mapping),
                include_metadata: match n.data.include_metadata {
                    Option::Some(b) => b,
                    Option::None => false,
                },
            };
            let p = generate_stop_code(&cfg, n.id.as_str());
            proof {
                assert(cfg == spec_extract_stop(*n));
            }
            p.code
        },
        NodeType::Activity | NodeType::Agent => {
            let is_log = match &n.data.component_name {
                Option::Some(c) => str_eq(c.as_str(), "Log"),
                Option::None => false,
            } || match &n.data.activity_name {
                Option::Some(a) => str_eq(a.as_str(), "log"),
                Option::None => false,
            };
            if is_log {
                let cfg = LogConfig {
                    message: match &n.data.log_message {
                        Option::Some(m) => m.clone(),
                        Option::None => n.data.label.clone(),
                    },
                    level: parse_log_level(&n.data.log_level),
                    metadata: Option::None,
                    include_workflow_context: match n.data.include_workflow_context {
                        Option::Some(b) => b,
                        Option::None => true,
                    },
                };
                let p = generate_log_code(&cfg, n.id.as_str());
                proof {
                    assert(cfg == spec_extract_log(*n));
                }
                p.code
            } else {
                let sid = sanitize_id(n.id.as_str());
                let mut out = String::new();
                out.append("const result_");
                out.append(sid.as_str());
                out.append(" = await acts.");
                match &n.data.activity_name {
                    Option::Some(a) => {
                        out.append(a.as_str());
                    },
                    Option::None => {
                        match &n.data.component_name {
                            Option::Some(c) => {
                                out.append(c.as_str());
                            },
                            Option::None => {
                                let cam = to_camel_case(n.data.label.as_str());
                                out.append(cam.as_str());
                            },
                        }
                    },
                }
                out.append("(input);");
                proof {
                    assert(out@ =~= spec_node_code(*n));
                }
                out
            }
        },
        NodeType::KongLogging => {
            let cfg = LogConfig {
                message: match &n.data.log_message {
                    Option::Some(m) => m.clone(),
                    Option::None => n.data.label.clone(),
                },
                level: parse_log_level(&n.data.log_level),
                metadata: Option::None,
                include_workflow_context: match n.data.include_workflow_context {
                    Option::Some(b) => b,
                    Option::None => true,
                },
            };
            let p = generate_log_code(&cfg, n.id.as_str());
            proof {
                assert(cfg == spec_extract_log(*n));
            }
            p.code
        },
        NodeType::Signal => {
            match &n.data.signal_name {
                Option::Some(sn) => {
                    let cam = to_camel_case(sn.as_str());
                    let mut out = String::new();
                    out.append("setHandler(");
                    out.append(cam.as_str());
                    out.append("Signal, (payload) => { /* handle ");
                    out.append(sn.as_str());
                    out.append(" signal */ });");
                    proof {
                        assert(out@ =~= spec_node_code(*n));
                    }
                    out
                },
                Option::None => String::new(),
            }
        },
        NodeType::Conditional | NodeType::Condition => {
            let mut out = String::new();
            out.append("if (");
            match &n.data.condition {
                Option::Some(c) => {
                    out.append(c.as_str());
                },
                Option::None => {
                    out.append("true");
                },
            }
            out.append(") {\n    /* conditional branch */\n  }");
            proof {
                assert(out@ =~= spec_node_code(*n));
            }
            out
        },
        NodeType::Loop => String::from_str("/* unsupported: loop construct */"),
        NodeType::ChildWorkflow => {
            match &n.data.workflow_id {
                Option::Some(wid) => {
                    let mut out = String::new();
                    out.append("const child_result = await executeChild('");
                    out.append(wid.as_str());
                    out.append("', { args: [input] });");
                    proof {
                        assert(out@ =~= spec_node_code(*n));
                    }
                    out
                },
                Option::None => String::new(),
            }
        },
        NodeType::StateVariable => {
            let kind: usize = match &n.data.component_name {
                Option::Some(c) => {
                    if str_eq(c.as_str(), "GetVariable") || str_eq(c.as_str(), "get-variable") {
                        1
                    } else if str_eq(c.as_str(), "SetVariable") || str_eq(
                        c.as_str(),
                        "set-variable",
                    ) {
                        2
                    } else {
                        0
                    }
                },
                Option::None => 0,
            };
            proof {
                assert(kind as int == spec_state_kind(*n));
            }
            if kind == 1 {
                let cfg = GetVariableConfig {
                    name: var_node_name(n),
                    scope: parse_scope(&n.data.variable_scope),
                    default_value: clone_opt_value(&n.data.default_value),
                    throw_if_missing: match n.data.throw_if_missing {
                        Option::Some(b) => b,
                        Option::None => false,
                    },
                };
                let p = generate_get_variable_code(&cfg, n.id.as_str());
                proof {
                    let sc = spec_extract_get(*n);
                    assert(cfg.name@ == sc.name@ && cfg.scope == sc.scope && cfg.throw_if_missing
                        == sc.throw_if_missing);
                    match (cfg.default_value, sc.default_value) {
                        (Option::Some(a), Option::Some(b)) => {
                            crate::json::lemma_json_text_eqv(a, b);
                        },
                        _ => {},
                    }
                    assert(spec_get_variable_code(cfg, n.id@) == spec_get_variable_code(
                        sc,
                        n.id@,
                    ));
                }
                p.code
            } else if kind == 2 {
                let cfg = SetVariableConfig {
                    name: var_node_name(n),
                    scope: parse_scope(&n.data.variable_scope),
                    value_expression: clone_opt(&n.data.value_expression),
                    static_value: clone_opt_value(&n.data.static_value),
                    create_if_missing: match n.data.create_if_missing {
                        Option::Some(b) => b,
                        Option::None => true,
                    },
                    merge: match n.data.merge {
                        Option::Some(b) => b,
                        Option::None => false,
                    },
                };
                let p = generate_set_variable_code(&cfg, n.id.as_str());
                proof {
                    let sc = spec_extract_set(*n);
                    assert(cfg.name@ == sc.name@ && cfg.scope == sc.scope
                        && cfg.value_expression == sc.value_expression && cfg.create_if_missing
                        == sc.create_if_missing && cfg.merge == sc.merge);
                    match (cfg.static_value, sc.static_value) {
                        (Option::Some(a), Option::Some(b)) => {
                            crate::json::lemma_json_text_eqv(a, b);
                        },
                        _ => {},
                    }
                    assert(spec_set_variable_code(cfg, n.id@) == spec_set_variable_code(
                        sc,
                        n.id@,
                    ));
                }
                p.code
            } else {
                let cfg = ServiceVariableConfig {
                    name: var_node_name(n),
                    variable_type: parse_rtype(&n.data.variable_type),
                    default_value: clone_opt_value(&n.data.default_value),
                    description: Option::None,
                    required: false,
                    persistence: parse_persistence(&n.data.persistence),
                    ttl: clone_opt(&n.data.ttl),
                };
                let p = generate_service_variable_code(&cfg, n.id.as_str());
                proof {
                    let sc = spec_extract_service(*n);
                    assert(cfg.name@ == sc.name@ && cfg.variable_type == sc.variable_type);
                    match (cfg.default_value, sc.default_value) {
                        (Option::Some(a), Option::Some(b)) => {
                            crate::json::lemma_json_text_eqv(a, b);
                        },
                        _ => {},
                    }
                    assert(spec_service_variable_code(cfg, n.id@) == spec_service_variable_code(
                        sc,
                        n.id@,
                    ));
                }
                p.code
            }
        },
        _ => String::new(),
    }
}

/// The trigger nodes, in declaration order.
pub open spec fn spec_trig_nodes(w: WorkflowDefinition) -> Seq<WorkflowNode> {
    w.nodes@.filter(|n: WorkflowNode| n.node_type is Trigger)
}

/// The nodes that are neither trigger nor end, in declaration order.
pub open spec fn spec_mid_nodes(w: WorkflowDefinition) -> Seq<WorkflowNode> {
    w.nodes@.filter(|n: WorkflowNode| !(n.node_type is Trigger) && !(n.node_type is End))
}

/// The end nodes, in declaration order.
pub open spec fn spec_end_nodes(w: WorkflowDefinition) -> Seq<WorkflowNode> {
    w.nodes@.filter(|n: WorkflowNode| n.node_type is End)
}

/// The emission order: trigger first, end nodes last, all other nodes in
/// declaration order between them.
pub open spec fn spec_sorted(w: WorkflowDefinition) -> Seq<WorkflowNode> {
    spec_trig_nodes(w) + spec_mid_nodes(w) + spec_end_nodes(w)
}

/// The nodes in emission order.
#[verifier::loop_isolation(false)]
fn sorted_nodes<'a>(w: &'a WorkflowDefinition) -> (r: Vec<&'a WorkflowNode>)
    ensures
        r@.len() == spec_sorted(*w).len(),
        forall|k: int| 0 <= k < r@.len() ==> *(#[trigger] r@[k]) == spec_sorted(*w)[k],
{
    let mut out: Vec<&WorkflowNode> = Vec::new();
    let f1 = |n: &WorkflowNode| n.node_type.is_trigger();
    let mut j: usize = 0;
    while j < w.nodes.len()
        invariant
            j <= w.nodes@.len(),
            out@.len() == w.nodes@.take(j as int).filter(
                |n: WorkflowNode| n.node_type is Trigger,
            ).len(),
            forall|k: int|
                0 <= k < out@.len() ==> *(#[trigger] out@[k]) == w.nodes@.take(j as int).filter(
                    |n: WorkflowNode| n.node_type is Trigger,
                )[k],
        decreases w.nodes@.len() - j,
    {
        proof {
            reveal(Seq::filter);
            assert(w.nodes@.take(j + 1).drop_last() =~= w.nodes@.take(j as int));
            assert(w.nodes@.take(j + 1).last() == w.nodes@[j as int]);
        }
        if w.nodes[j].node_type.is_trigger() {
            out.push(&w.nodes[j]);
        }
        j = j + 1;
    }
    proof {
        assert(w.nodes@.take(w.nodes@.len() as int) =~= w.nodes@);
    }
    let ghost t_len = out@.len();
    let mut j: usize = 0;
    while j < w.nodes.len()
        invariant
            j <= w.nodes@.len(),
            out@.len() == t_len + w.nodes@.take(j as int).filter(
                |n: WorkflowNode| !(n.node_type is Trigger) && !(n.node_type is End),
            ).len(),
            forall|k: int|
                0 <= k < t_len ==> *(#[trigger] out@[k]) == spec_trig_nodes(*w)[k],
            forall|k: int|
                t_len <= k < out@.len() ==> *(#[trigger] out@[k]) == w.nodes@.take(
                    j as int,
                ).filter(
                    |n: WorkflowNode| !(n.node_type is Trigger) && !(n.node_type is End),
                )[k - t_len],
        decreases w.nodes@.len() - j,
    {
        proof {
            reveal(Seq::filter);
            assert(w.nodes@.take(j + 1).drop_last() =~= w.nodes@.take(j as int));
            assert(w.nodes@.take(j + 1).last() == w.nodes@[j as int]);
        }
        if !w.nodes[j].node_type.is_trigger() && !w.nodes[j].node_type.is_end() {
            out.push(&w.nodes[j]);
        }
        j = j + 1;
    }
    proof {
        assert(w.nodes@.take(w.nodes@.len() as int) =~= w.nodes@);
    }
    let ghost m_len = out@.len();
    let mut j: usize = 0;
    while j < w.nodes.len()
        invariant
            j <= w.nodes@.len(),
            out@.len() == m_len + w.nodes@.take(j as int).filter(
                |n: WorkflowNode| n.node_type is End,
            ).len(),
            forall|k: int|
                0 <= k < m_len ==> *(#[trigger] out@[k]) == (spec_trig_nodes(*w)
                    + spec_mid_nodes(*w))[k],
            forall|k: int|
                m_len <= k < out@.len() ==> *(#[trigger] out@[k]) == w.nodes@.take(
                    j as int,
                ).filter(|n: WorkflowNode| n.node_type is End)[k - m_len],
        decreases w.nodes@.len() - j,
    {
        proof {
            reveal(Seq::filter);
            assert(w.nodes@.take(j + 1).drop_last() =~= w.nodes@.take(j as int));
            assert(w.nodes@.take(j + 1).last() == w.nodes@[j as int]);
        }
        if w.nodes[j].node_type.is_end() {
            out.push(&w.nodes[j]);
        }
        j = j + 1;
    }
    proof {
        assert(w.nodes@.take(w.nodes@.len() as int) =~= w.nodes@);
        assert forall|k: int| 0 <= k < out@.len() implies *(#[trigger] out@[k]) == spec_sorted(
            *w,
        )[k] by {
            if k < t_len {
                assert(spec_sorted(*w)[k] == spec_trig_nodes(*w)[k]);
            } else if k < m_len {
                assert(spec_sorted(*w)[k] == (spec_trig_nodes(*w) + spec_mid_nodes(*w))[k]);
            } else {
                assert(spec_sorted(*w)[k] == spec_end_nodes(*w)[k - m_len]);
            }
        }
    }
    out
}

/// The emitted fragments of the nodes from position `i` on, each indented
/// and separated by a blank line; nodes with no fragment contribute
/// nothing.
pub open spec fn spec_blocks_from(sorted: Seq<WorkflowNode>, i: int) -> Seq<char>
    decreases sorted.len() - i,
{
    if i < 0 || i >= sorted.len() {
        Seq::empty()
    } else {
        (if spec_node_code(sorted[i]).len() == 0 {
            Seq::<char>::empty()
        } else {
            "  "@ + spec_node_code(sorted[i]) + "\n\n"@
        }) + spec_blocks_from(sorted, i + 1)
    }
}

/// The function body: the emitted fragments, or a bare passthrough where
/// no node emits anything.
pub open spec fn spec_body(w: WorkflowDefinition) -> Seq<char> {
    if spec_blocks_from(spec_sorted(w), 0).len() == 0 {
        "  return input;\n"@
    } else {
        spec_blocks_from(spec_sorted(w), 0)
    }
}

/// The signal declarations of every named signal node, in declaration
/// order.
pub open spec fn spec_signals_from(nodes: Seq<WorkflowNode>, i: int) -> Seq<char>
    decreases nodes.len() - i,
{
    if i < 0 || i >= nodes.len() {
        Seq::empty()
    } else {
        (if nodes[i].node_type is Signal && nodes[i].data.signal_name is Some {
            "const "@ + spec_camel_from(nodes[i].data.signal_name->0@, 0, false)
                + "Signal = defineSignal<[unknown]>('"@ + nodes[i].data.signal_name->0@
                + "');\n"@
        } else {
            Seq::<char>::empty()
        }) + spec_signals_from(nodes, i + 1)
    }
}

/// The default text of a declared variable: its rendered initial value,
/// else the empty value of its type.
pub open spec fn spec_var_default_text(v: WorkflowVariable) -> Seq<char> {
    match v.initial_value {
        Option::Some(j) => crate::json::spec_json_text(j),
        Option::None => match v.var_type {
            VariableType::String => "\"\""@,
            VariableType::Number => "0"@,
            VariableType::Boolean => "false"@,
            VariableType::Object => "{}"@,
            VariableType::Array => "[]"@,
            VariableType::Any => "null"@,
        },
    }
}

/// The state initializations of the declared variables from position `i`
/// on.
pub open spec fn spec_var_inits_from(vars: Seq<WorkflowVariable>, i: int) -> Seq<char>
    decreases vars.len() - i,
{
    if i < 0 || i >= vars.len() {
        Seq::empty()
    } else {
        "  state."@ + spec_sanitize(vars[i].name@) + " = "@ + spec_var_default_text(vars[i])
            + ";\n"@ + spec_var_inits_from(vars, i + 1)
    }
}

/// The exported workflow function's name: the PascalCase form of the
/// display name, the override of the call winning over the graph's own.
pub open spec fn spec_function_name(w: WorkflowDefinition, o: CodeGenOptions) -> Seq<char> {
    match o.workflow_name {
        Option::Some(nm) => spec_pascal_from(nm@, 0, true),
        Option::None => spec_pascal_from(w.name@, 0, true),
    }
}

/// The fixed head of the workflow source: imports and shared interfaces.
pub open spec fn spec_workflow_header() -> Seq<char> {
    "// Generated workflow\nimport { proxyActivities, defineSignal, setHandler, workflowInfo } from '@temporalio/workflow';\nimport type * as activities from './activities';\n\ninterface StartOutput {\n  startedAt: Date;\n}\n\ninterface StopOutput {\n  completedAt: Date;\n  success: boolean;\n}\n\ninterface WorkflowResult {\n  success: boolean;\n  result: unknown;\n  completedAt: string;\n}\n\ninterface WorkflowState {\n  [key: string]: unknown;\n}\n\n"@
}

/// The whole workflow source.
pub open spec fn spec_workflow_source(w: WorkflowDefinition, o: CodeGenOptions) -> Seq<char> {
    spec_workflow_header() + spec_proxies_text(w, o.default_timeout@) + spec_signals_from(
        w.nodes@,
        0,
    ) + "\nexport async function "@ + spec_function_name(w, o)
        + "(input: Record<string, unknown>): Promise<WorkflowResult> {\n  const state: WorkflowState = {};\n"@
        + spec_var_inits_from(w.variables@, 0) + "\n"@ + spec_body(w) + "}\n"@
}

/// The generic activity implementations of the activity nodes from
/// position `i` on.
pub open spec fn spec_activity_impls_from(nodes: Seq<WorkflowNode>, i: int) -> Seq<char>
    decreases nodes.len() - i,
{
    if i < 0 || i >= nodes.len() {
        Seq::empty()
    } else {
        (if spec_is_act(nodes[i]) {
            "export async function "@ + spec_act_name(nodes[i])
                + "(input: Record<string, unknown>): Promise<Record<string, unknown>> {\n  console.log('Executing "@
                + spec_act_name(nodes[i]) + "', input);\n  return { success: true, data: input };\n}\n\n"@
        } else {
            Seq::<char>::empty()
        }) + spec_activity_impls_from(nodes, i + 1)
    }
}

/// The fixed head of the activities source: imports and log types.
pub open spec fn spec_activities_header() -> Seq<char> {
    "// Generated activities\nimport { Context } from '@temporalio/activity';\n\ntype LogLevel = 'debug' | 'info' | 'warn' | 'error';\n\ninterface LogInput {\n  message: string;\n  level: LogLevel;\n  metadata?: Record<string, unknown>;\n}\n\ninterface LogOutput {\n  logged: boolean;\n  timestamp: string;\n  logId?: string;\n}\n\ninterface LogActivityInput {\n  message: string;\n  level?: LogLevel;\n  workflowContext?: Record<string, unknown>;\n  metadata?: Record<string, unknown>;\n}\n\ninterface LogActivityOutput {\n  logged: boolean;\n  timestamp: string;\n  logId: string;\n}\n\n"@
}

/// The whole activities source.
pub open spec fn spec_activities_source(w: WorkflowDefinition) -> Seq<char> {
    spec_activities_header() + spec_activity_impls_from(w.nodes@, 0) + spec_variable_activities()
        + "\n"@
}

/// The whole worker bootstrap source.
pub open spec fn spec_worker_source(w: WorkflowDefinition, o: CodeGenOptions) -> Seq<char> {
    "// Generated worker\nimport { Worker } from '@temporalio/worker';\n\nasync function run() {\n  const worker = await Worker.create({\n    workflowsPath: require.resolve('./workflow'),\n    taskQueue: '"@
        + crate::schema::spec_task_queue(w.settings)
        + "',\n  });\n  await worker.run();\n}\n\nrun().catch((err) => {\n  console.error(err);\n  throw err;\n});\n"@
}

/// The whole project manifest.
pub open spec fn spec_package_json(w: WorkflowDefinition) -> Seq<char> {
    "{\n  \"name\": \"workflow-"@ + w.id@
        + "\",\n  \"version\": \"1.0.0\",\n  \"private\": true,\n  \"dependencies\": {\n    \"@temporalio/activity\": \"^1.9.0\",\n    \"@temporalio/worker\": \"^1.9.0\",\n    \"@temporalio/workflow\": \"^1.9.0\"\n  }\n}\n"@
}

/// The whole compiler configuration.
pub open spec fn spec_tsconfig() -> Seq<char> {
    "{\n  \"compilerOptions\": {\n    \"target\": \"ES2022\",\n    \"module\": \"commonjs\",\n    \"strict\": true,\n    \"esModuleInterop\": true,\n    \"skipLibCheck\": true,\n    \"outDir\": \"lib\"\n  },\n  \"files\": [\"src/workflow.ts\", \"src/activities.ts\", \"src/worker.ts\"]\n}\n"@
}

/// Renders the workflow source.
#[verifier::loop_isolation(false)]
#[verifier::rlimit(100)]
fn render_workflow(w: &WorkflowDefinition, o: &CodeGenOptions) -> (r: String)
    ensures
        r@ == spec_workflow_source(*w, *o),
{
    let mut out = String::new();
    out.append(
        "// Generated workflow\nimport { proxyActivities, defineSignal, setHandler, workflowInfo } from '@temporalio/workflow';\nimport type * as activities from './activities';\n\ninterface StartOutput {\n  startedAt: Date;\n}\n\ninterface StopOutput {\n  completedAt: Date;\n  success: boolean;\n}\n\ninterface WorkflowResult {\n  success: boolean;\n  result: unknown;\n  completedAt: string;\n}\n\ninterface WorkflowState {\n  [key: string]: unknown;\n}\n\n",
    );
    let proxies = render_proxies(w, &o.default_timeout);
    out.append(proxies.as_str());
    let ghost sig0 = out@;
    let mut j: usize = 0;
    while j < w.nodes.len()
        invariant
            j <= w.nodes@.len(),
            out@ + spec_signals_from(w.nodes@, j as int) == sig0 + spec_signals_from(w.nodes@, 0),
        decreases w.nodes@.len() - j,
    {
        let node = &w.nodes[j];
        let ghost opre = out@;
        if matches!(node.node_type, NodeType::Signal) {
            match &node.data.signal_name {
                Option::Some(sn) => {
                    let cam = to_camel_case(sn.as_str());
                    out.append("const ");
                    out.append(cam.as_str());
                    out.append("Signal = defineSignal<[unknown]>('");
                    out.append(sn.as_str());
                    out.append("');\n");
                },
                Option::None => {
                },
            }
        }
        proof {
            assert(out@ + spec_signals_from(w.nodes@, j + 1) =~= opre + spec_signals_from(
                w.nodes@,
                j as int,
            ));
        }
        j = j + 1;
    }
    proof {
        assert(spec_signals_from(w.nodes@, w.nodes@.len() as int) =~= Seq::<char>::empty());
        assert(out@ =~= sig0 + spec_signals_from(w.nodes@, 0));
    }
    out.append("\nexport async function ");
    let fname = match &o.workflow_name {
        Option::Some(nm) => to_pascal_case(nm.as_str()),
        Option::None => to_pascal_case(w.name.as_str()),
    };
    out.append(fname.as_str());
    out.append(
        "(input: Record<string, unknown>): Promise<WorkflowResult> {\n  const state: WorkflowState = {};\n",
    );
    let ghost var0 = out@;
    let mut j: usize = 0;
    while j < w.variables.len()
        invariant
            j <= w.variables@.len(),
            out@ + spec_var_inits_from(w.variables@, j as int) == var0 + spec_var_inits_from(
                w.variables@,
                0,
            ),
        decreases w.variables@.len() - j,
    {
        let v = &w.variables[j];
        let ghost opre = out@;
        out.append("  state.");
        let sn = sanitize_id(v.name.as_str());
        out.append(sn.as_str());
        out.append(" = ");
        match &v.initial_value {
            Option::Some(jv) => {
                let t = jv.json_text();
                out.append(t.as_str());
            },
            Option::None => {
                match v.var_type {
                    VariableType::String => out.append("\"\""),
                    VariableType::Number => out.append("0"),
                    VariableType::Boolean => out.append("false"),
                    VariableType::Object => out.append("{}"),
                    VariableType::Array => out.append("[]"),
                    VariableType::Any => out.append("null"),
                }
            },
        }
        out.append(";\n");
        proof {
            assert(out@ + spec_var_inits_from(w.variables@, j + 1) =~= opre + spec_var_inits_from(
                w.variables@,
                j as int,
            ));
        }
        j = j + 1;
    }
    proof {
        assert(spec_var_inits_from(w.variables@, w.variables@.len() as int) =~= Seq::<
            char,
        >::empty());
        assert(out@ =~= var0 + spec_var_inits_from(w.variables@, 0));
    }
    out.append("\n");
    let sorted = sorted_nodes(w);
    let ghost sv = spec_sorted(*w);
    let mut blocks = String::new();
    let mut j: usize = 0;
    while j < sorted.len()
        invariant
            j <= sorted@.len(),
            sorted@.len() == sv.len(),
            forall|k: int| 0 <= k < sorted@.len() ==> *(#[trigger] sorted@[k]) == sv[k],
            blocks@ + spec_blocks_from(sv, j as int) == spec_blocks_from(sv, 0),
        decreases sorted@.len() - j,
    {
        let code = generate_node_code(sorted[j]);
        let ghost bpre = blocks@;
        if !code.as_str().is_empty() {
            blocks.append("  ");
            blocks.append(code.as_str());
            blocks.append("\n\n");
        }
        proof {
            assert(blocks@ + spec_blocks_from(sv, j + 1) =~= bpre + spec_blocks_from(
                sv,
                j as int,
            ));
        }
        j = j + 1;
    }
    proof {
        assert(spec_blocks_from(sv, sv.len() as int) =~= Seq::<char>::empty());
        assert(blocks@ =~= spec_blocks_from(sv, 0));
    }
    if blocks.as_str().is_empty() {
        out.append("  return input;\n");
    } else {
        out.append(blocks.as_str());
    }
    out.append("}\n");
    proof {
        assert(out@ =~= spec_workflow_source(*w, *o));
    }
    out
}

/// Renders the activities source.
#[verifier::loop_isolation(false)]
fn render_activities(w: &WorkflowDefinition) -> (r: String)
    ensures
        r@ == spec_activities_source(*w),
{
    let mut out = String::new();
    out.append(
        "// Generated activities\nimport { Context } from '@temporalio/activity';\n\ntype LogLevel = 'debug' | 'info' | 'warn' | 'error';\n\ninterface LogInput {\n  message: string;\n  level: LogLevel;\n  metadata?: Record<string, unknown>;\n}\n\ninterface LogOutput {\n  logged: boolean;\n  timestamp: string;\n  logId?: string;\n}\n\ninterface LogActivityInput {\n  message: string;\n  level?: LogLevel;\n  workflowContext?: Record<string, unknown>;\n  metadata?: Record<string, unknown>;\n}\n\ninterface LogActivityOutput {\n  logged: boolean;\n  timestamp: string;\n  logId: string;\n}\n\n",
    );
    let ghost a0 = out@;
    let mut j: usize = 0;
    while j < w.nodes.len()
        invariant
            j <= w.nodes@.len(),
            out@ + spec_activity_impls_from(w.nodes@, j as int) == a0 + spec_activity_impls_from(
                w.nodes@,
                0,
            ),
        decreases w.nodes@.len() - j,
    {
        let node = &w.nodes[j];
        let ghost opre = out@;
        if node.node_type.is_activity() {
            let name = match &node.data.activity_name {
                Option::Some(a) => a.clone(),
                Option::None => match &node.data.component_name {
                    Option::Some(c) => c.clone(),
                    Option::None => to_camel_case(node.data.label.as_str()),
                },
            };
            out.append("export async function ");
            out.append(name.as_str());
            out.append(
                "(input: Record<string, unknown>): Promise<Record<string, unknown>> {\n  console.log('Executing ",
            );
            out.append(name.as_str());
            out.append("', input);\n  return { success: true, data: input };\n}\n\n");
        }
        proof {
            assert(out@ + spec_activity_impls_from(w.nodes@, j + 1) =~= opre
                + spec_activity_impls_from(w.nodes@, j as int));
        }
        j = j + 1;
    }
    proof {
        assert(spec_activity_impls_from(w.nodes@, w.nodes@.len() as int) =~= Seq::<char>::empty());
        assert(out@ =~= a0 + spec_activity_impls_from(w.nodes@, 0));
    }
    let va = generate_variable_activities();
    out.append(va.as_str());
    out.append("\n");
    proof {
        assert(out@ =~= spec_activities_source(*w));
    }
    out
}

/// Renders the worker bootstrap source.
fn render_worker(w: &WorkflowDefinition, o: &CodeGenOptions) -> (r: String)
    ensures
        r@ == spec_worker_source(*w, *o),
{
    let mut out = String::new();
    out.append(
        "// Generated worker\nimport { Worker } from '@temporalio/worker';\n\nasync function run() {\n  const worker = await Worker.create({\n    workflowsPath: require.resolve('./workflow'),\n    taskQueue: '",
    );
    let tq = w.settings.task_queue();
    out.append(tq.as_str());
    out.append(
        "',\n  });\n  await worker.run();\n}\n\nrun().catch((err) => {\n  console.error(err);\n  throw err;\n});\n",
    );
    proof {
        assert(out@ =~= spec_worker_source(*w, *o));
    }
    out
}

/// Renders the project manifest.
fn render_package_json(w: &WorkflowDefinition) -> (r: String)
    ensures
        r@ == spec_package_json(*w),
{
    let mut out = String::new();
    out.append("{\n  \"name\": \"workflow-");
    out.append(w.id.as_str());
    out.append(
        "\",\n  \"version\": \"1.0.0\",\n  \"private\": true,\n  \"dependencies\": {\n    \"@temporalio/activity\": \"^1.9.0\",\n    \"@temporalio/worker\": \"^1.9.0\",\n    \"@temporalio/workflow\": \"^1.9.0\"\n  }\n}\n",
    );
    proof {
        assert(out@ =~= spec_package_json(*w));
    }
    out
}

/// Renders the compiler configuration.
fn render_tsconfig() -> (r: String)
    ensures
        r@ == spec_tsconfig(),
{
    String::from_str(
        "{\n  \"compilerOptions\": {\n    \"target\": \"ES2022\",\n    \"module\": \"commonjs\",\n    \"strict\": true,\n    \"esModuleInterop\": true,\n    \"skipLibCheck\": true,\n    \"outDir\": \"lib\"\n  },\n  \"files\": [\"src/workflow.ts\", \"src/activities.ts\", \"src/worker.ts\"]\n}\n",
    )
}

/// Lowers a validated workflow into its five artifacts.  Fails exactly when
/// the graph has no trigger node; otherwise each artifact is the stated
/// function of the graph and the options, so generation is deterministic.
pub fn generate(w: &WorkflowDefinition, options: &CodeGenOptions) -> (r: Result<
    GeneratedCode,
    GenerationError,
>)
    ensures
        spec_trigger_count(*w) == 0 <==> (r matches Result::Err(e) && e is NoStartNode),
        spec_trigger_count(*w) > 0 <==> (r matches Result::Ok(code)
            && code.workflow@ == spec_workflow_source(*w, *options) && code.activities@
            == spec_activities_source(*w) && code.worker@ == spec_worker_source(*w, *options)
            && code.package_json@ == spec_package_json(*w) && code.tsconfig@ == spec_tsconfig()),
{
    match w.find_trigger() {
        Option::None => Result::Err(GenerationError::NoStartNode),
        Option::Some(_) => {
            let workflow = render_workflow(w, options);
            let activities = render_activities(w);
            let worker = render_worker(w, options);
            let package_json = render_package_json(w);
            let tsconfig = render_tsconfig();
            Result::Ok(
                GeneratedCode { workflow, activities, worker, package_json, tsconfig },
            )
        },
    }
}

/// A generator bound to one workflow and one set of options.
pub struct TypeScriptGenerator<'a> {
    /// The workflow to lower.
    pub workflow: &'a WorkflowDefinition,
    /// The options of this generation call.
    pub options: &'a CodeGenOptions,
}

impl<'a> TypeScriptGenerator<'a> {
    /// A generator for this workflow and these options.
    pub fn new(workflow: &'a WorkflowDefinition, options: &'a CodeGenOptions) -> (r: Self)
        ensures
            r.workflow == workflow,
            r.options == options,
    {
        TypeScriptGenerator { workflow, options }
    }

    /// Lowers the bound workflow; see `generate`.
    pub fn generate(&self) -> (r: Result<GeneratedCode, GenerationError>)
        ensures
            spec_trigger_count(*self.workflow) == 0 <==> (r matches Result::Err(e)
                && e is NoStartNode),
            spec_trigger_count(*self.workflow) > 0 <==> (r matches Result::Ok(code)
                && code.workflow@ == spec_workflow_source(*self.workflow, *self.options)
                && code.activities@ == spec_activities_source(*self.workflow) && code.worker@
                == spec_worker_source(*self.workflow, *self.options) && code.package_json@
                == spec_package_json(*self.workflow) && code.tsconfig@ == spec_tsconfig()),
    {
        generate(self.workflow, self.options)
    }
}

/// One activity row of the template data record.
#[derive(Debug, Clone)]
pub struct ActivityInfo {
    pub name: String,
    pub component_id: Option<String>,
    pub component_name: Option<String>,
    pub timeout: Option<String>,
}

/// One signal row of the template data record.
#[derive(Debug, Clone)]
pub struct SignalInfo {
    pub name: String,
    pub param_types: String,
}

/// One declared-variable row of the template data record: the variable
/// resolved to a target-language type name and a rendered default value.
#[derive(Debug, Clone)]
pub struct VariableInfo {
    pub name: String,
    pub var_type: String,
    pub default_value: String,
}

/// The activity nodes that carry a signal name.
pub open spec fn spec_signal_nodes(w: WorkflowDefinition) -> Seq<WorkflowNode> {
    w.nodes@.filter(
        |n: WorkflowNode| n.node_type is Signal && n.data.signal_name is Some,
    )
}

/// The template rows of every named signal node, in declaration order.
#[verifier::loop_isolation(false)]
pub fn extract_signals(w: &WorkflowDefinition) -> (r: Vec<SignalInfo>)
    ensures
        r@.len() == spec_signal_nodes(*w).len(),
        forall|k: int|
            0 <= k < r@.len() ==> (#[trigger] r@[k]).name@ == spec_signal_nodes(*w)[
                k
            ].data.signal_name->0@ && r@[k].param_types@ == "unknown"@,
{
    let mut out: Vec<SignalInfo> = Vec::new();
    let mut j: usize = 0;
    while j < w.nodes.len()
        invariant
            j <= w.nodes@.len(),
            out@.len() == w.nodes@.take(j as int).filter(
                |n: WorkflowNode| n.node_type is Signal && n.data.signal_name is Some,
            ).len(),
            forall|k: int|
                0 <= k < out@.len() ==> (#[trigger] out@[k]).name@ == w.nodes@.take(
                    j as int,
                ).filter(
                    |n: WorkflowNode| n.node_type is Signal && n.data.signal_name is Some,
                )[k].data.signal_name->0@ && out@[k].param_types@ == "unknown"@,
        decreases w.nodes@.len() - j,
    {
        proof {
            reveal(Seq::filter);
            assert(w.nodes@.take(j + 1).drop_last() =~= w.nodes@.take(j as int));
            assert(w.nodes@.take(j + 1).last() == w.nodes@[j as int]);
        }
        let node = &w.nodes[j];
        if matches!(node.node_type, NodeType::Signal) {
            match &node.data.signal_name {
                Option::Some(sn) => {
                    out.push(
                        SignalInfo { name: sn.clone(), param_types: String::from_str("unknown") },
                    );
                },
                Option::None => {
                },
            }
        }
        j = j + 1;
    }
    proof {
        assert(w.nodes@.take(w.nodes@.len() as int) =~= w.nodes@);
    }
    out
}

/// The template rows of every activity node, in declaration order: the
/// resolved name, the component identifiers, and the node's own timeout.
#[verifier::loop_isolation(false)]
pub fn extract_activities(w: &WorkflowDefinition) -> (r: Vec<ActivityInfo>)
    ensures
        r@.len() == w.nodes@.filter(|n: WorkflowNode| spec_is_act(n)).len(),
        forall|k: int|
            0 <= k < r@.len() ==> {
                let n = w.nodes@.filter(|n: WorkflowNode| spec_is_act(n))[k];
                (#[trigger] r@[k]).name@ == (match n.data.activity_name {
                    Option::Some(a) => a@,
                    Option::None => n.data.label@,
                }) && (match (r@[k].timeout, n.data.timeout) {
                    (Option::Some(a), Option::Some(b)) => a@ == b@,
                    (Option::None, Option::None) => true,
                    _ => false,
                })
            },
{
    let mut out: Vec<ActivityInfo> = Vec::new();
    let mut j: usize = 0;
    while j < w.nodes.len()
        invariant
            j <= w.nodes@.len(),
            out@.len() == w.nodes@.take(j as int).filter(
                |n: WorkflowNode| spec_is_act(n),
            ).len(),
            forall|k: int|
                0 <= k < out@.len() ==> {
                    let n = w.nodes@.take(j as int).filter(|n: WorkflowNode| spec_is_act(n))[k];
                    (#[trigger] out@[k]).name@ == (match n.data.activity_name {
                        Option::Some(a) => a@,
                        Option::None => n.data.label@,
                    }) && (match (out@[k].timeout, n.data.timeout) {
                        (Option::Some(a), Option::Some(b)) => a@ == b@,
                        (Option::None, Option::None) => true,
                        _ => false,
                    })
                },
        decreases w.nodes@.len() - j,
    {
        proof {
            reveal(Seq::filter);
            assert(w.nodes@.take(j + 1).drop_last() =~= w.nodes@.take(j as int));
            assert(w.nodes@.take(j + 1).last() == w.nodes@[j as int]);
        }
        let node = &w.nodes[j];
        if node.node_type.is_activity() {
            let name = match &node.data.activity_name {
                Option::Some(a) => a.clone(),
                Option::None => node.data.label.clone(),
            };
            out.push(
                ActivityInfo {
                    name,
                    component_id: clone_opt(&node.data.component_id),
                    component_name: clone_opt(&node.data.component_name),
                    timeout: clone_opt(&node.data.timeout),
                },
            );
        }
        j = j + 1;
    }
    proof {
        assert(w.nodes@.take(w.nodes@.len() as int) =~= w.nodes@);
    }
    out
}

/// The template rows of the declared variables: each resolved to its
/// target-language type name and its rendered default value.
#[verifier::loop_isolation(false)]
pub fn convert_variables(w: &WorkflowDefinition) -> (r: Vec<VariableInfo>)
    ensures
        r@.len() == w.variables@.len(),
        forall|k: int|
            0 <= k < r@.len() ==> (#[trigger] r@[k]).name@ == w.variables@[k].name@ && r@[
                k
            ].var_type@ == crate::schema::spec_variable_type_ts(w.variables@[k].var_type) && r@[
                k
            ].default_value@ == spec_var_default_text(w.variables@[k]),
{
    let mut out: Vec<VariableInfo> = Vec::new();
    let mut j: usize = 0;
    while j < w.variables.len()
        invariant
            j <= w.variables@.len(),
            out@.len() == j,
            forall|k: int|
                0 <= k < j ==> (#[trigger] out@[k]).name@ == w.variables@[k].name@ && out@[
                    k
                ].var_type@ == crate::schema::spec_variable_type_ts(w.variables@[k].var_type)
                    && out@[k].default_value@ == spec_var_default_text(w.variables@[k]),
        decreases w.variables@.len() - j,
    {
        let v = &w.variables[j];
        let default_value = match &v.initial_value {
            Option::Some(jv) => jv.json_text(),
            Option::None => match v.var_type {
                VariableType::String => String::from_str("\"\""),
                VariableType::Number => String::from_str("0"),
                VariableType::Boolean => String::from_str("false"),
                VariableType::Object => String::from_str("{}"),
                VariableType::Array => String::from_str("[]"),
                VariableType::Any => String::from_str("null"),
            },
        };
        out.push(
            VariableInfo {
                name: v.name.clone(),
                var_type: String::from_str(v.var_type.to_typescript()),
                default_value,
            },
        );
        j = j + 1;
    }
    out
}

} // verus!
