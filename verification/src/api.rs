//! The request and response shapes of a compile service, and the pure
//! decision core of one compile call.
//!
//! `compile` validates a graph and, only where validation passed, lowers
//! it; the HTTP plumbing around it supplies the clock values and carries
//! the shapes over the wire.

use crate::codegen::{generate, spec_activities_source, spec_package_json, spec_tsconfig,
    CodeGenOptions, GeneratedCode};
use crate::errors::{spec_error_message, ValidationError, ValidationResult};
use crate::schema::{spec_end_count, spec_has_node, spec_trigger_count, WorkflowDefinition};
use crate::validation::{spec_bad_source, spec_bad_target,
    spec_child_missing_workflow, spec_dup_edge_id, spec_dup_node_id, spec_missing_activity,
    spec_orphan, spec_signal_missing_name, spec_state_var_unconfigured, spec_the_trigger_id,
    spec_trigger_incoming, validate};
use crate::graph::{spec_has_cycle, spec_reachable};
use vstd::prelude::*;

verus! {

/// Options of one compile request.
#[derive(Debug, Clone)]
pub struct CompileOptions {
    pub workflow_name: Option<String>,
    pub default_timeout: Option<String>,
    pub include_comments: Option<bool>,
    pub strict_mode: Option<bool>,
    pub verify: Option<bool>,
    pub output_dir: Option<String>,
}

impl Default for CompileOptions {
    fn default() -> (r: Self)
        ensures
            r.workflow_name is None,
            r.default_timeout is None,
            r.include_comments is None,
            r.strict_mode is None,
            r.verify is None,
            r.output_dir is None,
    {
        CompileOptions {
            workflow_name: None,
            default_timeout: None,
            include_comments: None,
            strict_mode: None,
            verify: None,
            output_dir: None,
        }
    }
}

/// One reported compile error.
#[derive(Debug, Clone)]
pub struct CompilerError {
    pub code: String,
    pub message: String,
    pub node_id: Option<String>,
    pub severity: String,
}

/// Bookkeeping of one compile call.
#[derive(Debug, Clone)]
pub struct CompileMetadata {
    pub node_count: usize,
    pub edge_count: usize,
    pub compilation_time_ms: u64,
    pub version: String,
}

/// The outcome of one compile call.
#[derive(Debug)]
pub struct CompileResponse {
    pub success: bool,
    pub code: Option<GeneratedCode>,
    pub errors: Vec<CompilerError>,
    pub warnings: Vec<String>,
    pub metadata: CompileMetadata,
}

/// The outcome of one validation call.
#[derive(Debug)]
pub struct ValidateResponse {
    pub valid: bool,
    pub errors: Vec<CompilerError>,
    pub warnings: Vec<String>,
    pub suggestions: Vec<String>,
}

/// The health report of the service.
#[derive(Debug, Clone)]
pub struct HealthResponse {
    pub status: String,
    pub version: String,
    pub uptime_seconds: u64,
}

/// The version report of the service.
#[derive(Debug, Clone)]
pub struct VersionResponse {
    pub version: String,
    pub rust_version: String,
    pub build_time: String,
}

/// A compile outcome together with its verification report.
#[derive(Debug)]
pub struct FullCompileResponse {
    pub validation: ValidationResult,
    pub code: GeneratedCode,
    pub verification: crate::verification::VerificationResult,
}

/// A uniform success envelope.
#[derive(Debug)]
pub struct ApiResponse<T> {
    pub success: bool,
    pub data: T,
}

impl<T> ApiResponse<T> {
    /// Wraps a payload in a success envelope.
    pub fn success(data: T) -> (r: Self)
        ensures
            r.success == true,
            r.data == data,
    {
        ApiResponse { success: true, data }
    }
}

/// Service configuration, loaded by the surrounding process.
#[derive(Debug, Clone)]
pub struct Config {
    pub port: u16,
    pub tsc_path: String,
    pub eslint_path: String,
    pub verification_timeout: u64,
    pub strict_mode: bool,
}

impl Default for Config {
    fn default() -> (r: Self)
        ensures
            r.port == 3020,
            r.verification_timeout == 30,
            r.strict_mode == true,
    {
        Config {
            port: 3020,
            tsc_path: String::from_str("npx tsc"),
            eslint_path: String::from_str("npx eslint"),
            verification_timeout: 30,
            strict_mode: true,
        }
    }
}

/// Shared state of the request handlers.
#[derive(Debug, Clone)]
pub struct AppState {
    pub config: Config,
}

impl AppState {
    /// State holding the given configuration.
    pub fn new(config: Config) -> (r: Self)
        ensures
            r.config == config,
    {
        AppState { config }
    }
}

/// The generation options a compile request resolves to: each absent
/// option falls back to its default.
pub fn to_codegen_options(options: &CompileOptions) -> (r: CodeGenOptions)
    ensures
        match (options.workflow_name, r.workflow_name) {
            (Option::Some(a), Option::Some(b)) => a@ == b@,
            (Option::None, Option::None) => true,
            _ => false,
        },
        r.default_timeout@ == match options.default_timeout {
            Option::Some(t) => t@,
            Option::None => "1m"@,
        },
        r.include_comments == match options.include_comments {
            Option::Some(b) => b,
            Option::None => true,
        },
        r.strict_mode == match options.strict_mode {
            Option::Some(b) => b,
            Option::None => true,
        },
{
    CodeGenOptions {
        workflow_name: match &options.workflow_name {
            Option::Some(n) => Option::Some(n.clone()),
            Option::None => Option::None,
        },
        default_timeout: match &options.default_timeout {
            Option::Some(t) => t.clone(),
            Option::None => String::from_str("1m"),
        },
        include_comments: match options.include_comments {
            Option::Some(b) => b,
            Option::None => true,
        },
        strict_mode: match options.strict_mode {
            Option::Some(b) => b,
            Option::None => true,
        },
    }
}

/// The stable code of each validation error kind.
pub open spec fn spec_error_code(e: ValidationError) -> Seq<char> {
    match e {
        ValidationError::NoStartNode => "NO_START_NODE"@,
        ValidationError::MultipleStartNodes(_) => "MULTIPLE_START_NODES"@,
        ValidationError::NoEndNode => "NO_END_NODE"@,
        ValidationError::OrphanNode(_) => "ORPHAN_NODE"@,
        ValidationError::CycleDetected(_) => "CYCLE_DETECTED"@,
        ValidationError::InvalidEdgeSource(_) => "INVALID_EDGE_SOURCE"@,
        ValidationError::InvalidEdgeTarget(_) => "INVALID_EDGE_TARGET"@,
        ValidationError::UnknownVariable { .. } => "UNKNOWN_VARIABLE"@,
        ValidationError::MissingActivityName { .. } => "MISSING_ACTIVITY_NAME"@,
        ValidationError::InvalidConfig { .. } => "INVALID_CONFIG"@,
        ValidationError::MissingRequiredField { .. } => "MISSING_REQUIRED_FIELD"@,
        ValidationError::EmptyWorkflow => "EMPTY_WORKFLOW"@,
        ValidationError::DuplicateNodeId(_) => "DUPLICATE_NODE_ID"@,
        ValidationError::DuplicateEdgeId(_) => "DUPLICATE_EDGE_ID"@,
        ValidationError::TriggerHasIncomingEdges { .. } => "TRIGGER_HAS_INCOMING_EDGES"@,
        ValidationError::UnreachableNode { .. } => "UNREACHABLE_NODE"@,
    }
}

/// Converts one validation error to its reported form: its stable code,
/// its message, the node it names where it names one, and error severity.
pub fn convert_validation_error(error: &ValidationError) -> (r: CompilerError)
    ensures
        r.code@ == spec_error_code(*error),
        r.message@ == spec_error_message(*error),
        r.severity@ == "error"@,
{
    let code = match error {
        ValidationError::NoStartNode => String::from_str("NO_START_NODE"),
        ValidationError::MultipleStartNodes(_) => String::from_str("MULTIPLE_START_NODES"),
        ValidationError::NoEndNode => String::from_str("NO_END_NODE"),
        ValidationError::OrphanNode(_) => String::from_str("ORPHAN_NODE"),
        ValidationError::CycleDetected(_) => String::from_str("CYCLE_DETECTED"),
        ValidationError::InvalidEdgeSource(_) => String::from_str("INVALID_EDGE_SOURCE"),
        ValidationError::InvalidEdgeTarget(_) => String::from_str("INVALID_EDGE_TARGET"),
        ValidationError::UnknownVariable { .. } => String::from_str("UNKNOWN_VARIABLE"),
        ValidationError::MissingActivityName { .. } => String::from_str("MISSING_ACTIVITY_NAME"),
        ValidationError::InvalidConfig { .. } => String::from_str("INVALID_CONFIG"),
        ValidationError::MissingRequiredField { .. } => String::from_str("MISSING_REQUIRED_FIELD"),
        ValidationError::EmptyWorkflow => String::from_str("EMPTY_WORKFLOW"),
        ValidationError::DuplicateNodeId(_) => String::from_str("DUPLICATE_NODE_ID"),
        ValidationError::DuplicateEdgeId(_) => String::from_str("DUPLICATE_EDGE_ID"),
        ValidationError::TriggerHasIncomingEdges { .. } => String::from_str(
            "TRIGGER_HAS_INCOMING_EDGES",
        ),
        ValidationError::UnreachableNode { .. } => String::from_str("UNREACHABLE_NODE"),
    };
    let node_id = match error {
        ValidationError::OrphanNode(id) => Option::Some(id.clone()),
        ValidationError::InvalidEdgeSource(id) => Option::Some(id.clone()),
        ValidationError::InvalidEdgeTarget(id) => Option::Some(id.clone()),
        ValidationError::DuplicateNodeId(id) => Option::Some(id.clone()),
        ValidationError::DuplicateEdgeId(id) => Option::Some(id.clone()),
        ValidationError::UnknownVariable { node_id, .. } => Option::Some(node_id.clone()),
        ValidationError::MissingActivityName { node_id } => Option::Some(node_id.clone()),
        ValidationError::InvalidConfig { node_id, .. } => Option::Some(node_id.clone()),
        ValidationError::MissingRequiredField { node_id, .. } => Option::Some(node_id.clone()),
        ValidationError::TriggerHasIncomingEdges { node_id } => Option::Some(node_id.clone()),
        ValidationError::UnreachableNode { node_id } => Option::Some(node_id.clone()),
        _ => Option::None,
    };
    CompilerError { code, message: error.message(), node_id, severity: String::from_str("error") }
}

/// The number of activity nodes without an explicit retry policy.
pub open spec fn spec_no_retry_count(w: WorkflowDefinition) -> nat {
    w.nodes@.filter(
        |n: crate::schema::WorkflowNode|
            (n.node_type is Activity || n.node_type is Agent) && n.data.retry_policy is None,
    ).len()
}

/// Improvement suggestions for a workflow: one when activities lack a
/// retry policy, naming how many, and one when a large workflow is not
/// marked long-running.
#[verifier::loop_isolation(false)]
pub fn generate_suggestions(w: &WorkflowDefinition) -> (r: Vec<String>)
    ensures
        spec_no_retry_count(*w) > 0 ==> r@.len() >= 1 && r@[0]@ == "Consider adding retry policy to "@
            + crate::text::spec_dec(spec_no_retry_count(*w) as int) + " activities"@,
        r@.len() == (if spec_no_retry_count(*w) > 0 { 1int } else { 0 }) + (
        if !(match w.settings.long_running {
            Option::Some(lr) => lr.auto_continue_as_new,
            Option::None => false,
        }) && w.nodes@.len() > 10 { 1int } else { 0 }),
{
    let mut count: usize = 0;
    let mut j: usize = 0;
    while j < w.nodes.len()
        invariant
            j <= w.nodes@.len(),
            count == w.nodes@.take(j as int).filter(
                |n: crate::schema::WorkflowNode|
                    (n.node_type is Activity || n.node_type is Agent) && n.data.retry_policy
                        is None,
            ).len(),
            count <= j,
        decreases w.nodes@.len() - j,
    {
        proof {
            reveal(Seq::filter);
            assert(w.nodes@.take(j + 1).drop_last() =~= w.nodes@.take(j as int));
            assert(w.nodes@.take(j + 1).last() == w.nodes@[j as int]);
        }
        if w.nodes[j].node_type.is_activity() && w.nodes[j].data.retry_policy.is_none() {
            count = count + 1;
        }
        j = j + 1;
    }
    proof {
        assert(w.nodes@.take(w.nodes@.len() as int) =~= w.nodes@);
    }
    let mut out: Vec<String> = Vec::new();
    if count > 0 {
        let mut msg = String::from_str("Consider adding retry policy to ");
        let c = crate::text::usize_to_string(count);
        msg.append(c.as_str());
        msg.append(" activities");
        out.push(msg);
    }
    if !w.settings.is_long_running() && w.nodes.len() > 10 {
        out.push(String::from_str(
            "Consider enabling long-running workflow settings for workflows with many nodes",
        ));
    }
    out
}

/// Whether the graph passes every validation pass: this is exactly the
/// condition under which `validate` reports no errors.
pub open spec fn spec_graph_valid(w: WorkflowDefinition) -> bool {
    &&& w.nodes@.len() > 0
    &&& spec_trigger_count(w) == 1
    &&& spec_end_count(w) > 0
    &&& forall|id: Seq<char>| !(#[trigger] spec_dup_node_id(w, id))
    &&& forall|id: Seq<char>| !(#[trigger] spec_dup_edge_id(w, id))
    &&& forall|id: Seq<char>| !(#[trigger] spec_trigger_incoming(w, id))
    &&& forall|id: Seq<char>| !(#[trigger] spec_orphan(w, id))
    &&& forall|id: Seq<char>| !(#[trigger] spec_bad_source(w, id))
    &&& forall|id: Seq<char>| !(#[trigger] spec_bad_target(w, id))
    &&& forall|id: Seq<char>|
        (#[trigger] spec_has_node(w, id)) ==> spec_reachable(w, spec_the_trigger_id(w), id)
    &&& !spec_has_cycle(w)
    &&& forall|id: Seq<char>| !(#[trigger] spec_missing_activity(w, id))
    &&& forall|id: Seq<char>| !(#[trigger] spec_signal_missing_name(w, id))
    &&& forall|id: Seq<char>| !(#[trigger] spec_child_missing_workflow(w, id))
    &&& forall|id: Seq<char>| !(#[trigger] spec_state_var_unconfigured(w, id))
}

/// Compiles one workflow: validates it, and lowers it exactly when it is
/// valid.  The full validation outcome is always reported; artifacts are
/// returned only on a valid graph and are the stated functions of the
/// graph and the options.
#[verifier::rlimit(100)]
#[verifier::spinoff_prover]
pub fn compile(
    w: &WorkflowDefinition,
    options: &CompileOptions,
    compilation_time_ms: u64,
    version: String,
) -> (r: CompileResponse)
    ensures
        r.success <==> spec_graph_valid(*w),
        r.success <==> r.code is Some,
        r.metadata.node_count == w.nodes@.len(),
        r.metadata.edge_count == w.edges@.len(),
        r.metadata.compilation_time_ms == compilation_time_ms,
        spec_graph_valid(*w) ==> (r.code matches Option::Some(code) && code.activities@
            == spec_activities_source(*w) && code.package_json@ == spec_package_json(*w)
            && code.tsconfig@ == spec_tsconfig()),
{
    let vr = validate(w);
    let metadata = CompileMetadata {
        node_count: w.nodes.len(),
        edge_count: w.edges.len(),
        compilation_time_ms,
        version,
    };
    let mut errors: Vec<CompilerError> = Vec::new();
    let mut i: usize = 0;
    while i < vr.errors.len()
        invariant
            i <= vr.errors@.len(),
        decreases vr.errors@.len() - i,
    {
        let ce = convert_validation_error(&vr.errors[i]);
        errors.push(ce);
        i = i + 1;
    }
    let mut warnings: Vec<String> = Vec::new();
    let mut i: usize = 0;
    while i < vr.warnings.len()
        invariant
            i <= vr.warnings@.len(),
        decreases vr.warnings@.len() - i,
    {
        warnings.push(vr.warnings[i].message());
        i = i + 1;
    }
    proof {
        lemma_valid_iff_no_errors(*w, vr);
    }
    if vr.valid {
        let o = to_codegen_options(options);
        let code = match generate(w, &o) {
            Result::Ok(c) => c,
            Result::Err(_) => {
                proof {
                    assert(spec_trigger_count(*w) == 1);
                    assert(false);
                }
                vstd::pervasive::unreached()
            },
        };
        CompileResponse { success: true, code: Option::Some(code), errors, warnings, metadata }
    } else {
        CompileResponse { success: false, code: Option::None, errors, warnings, metadata }
    }
}

/// A graph is valid exactly when a validation result that meets
/// `validate`'s contract holds no errors.
pub proof fn lemma_valid_iff_no_errors(w: WorkflowDefinition, r: ValidationResult)
    requires
        crate::errors::spec_result_wf(r),
        crate::validation::has_empty_workflow(r.errors@) <==> w.nodes@.len() == 0,
        crate::validation::has_no_start(r.errors@) <==> spec_trigger_count(w) == 0,
        crate::validation::has_multi_start(r.errors@) ==> spec_trigger_count(w) >= 2,
        spec_trigger_count(w) >= 2 ==> crate::validation::has_multi_start_with(
            r.errors@,
            crate::validation::spec_trigger_ids(w),
        ),
        crate::validation::has_no_end(r.errors@) <==> spec_end_count(w) == 0,
        forall|id: Seq<char>|
            crate::validation::has_dup_node(r.errors@, id) <==> spec_dup_node_id(w, id),
        forall|id: Seq<char>|
            crate::validation::has_dup_edge(r.errors@, id) <==> spec_dup_edge_id(w, id),
        forall|id: Seq<char>|
            crate::validation::has_trigger_incoming(r.errors@, id) <==> spec_trigger_incoming(
                w,
                id,
            ),
        forall|id: Seq<char>| crate::validation::has_orphan(r.errors@, id) <==> spec_orphan(w, id),
        forall|id: Seq<char>|
            crate::validation::has_invalid_source(r.errors@, id) <==> spec_bad_source(w, id),
        forall|id: Seq<char>|
            crate::validation::has_invalid_target(r.errors@, id) <==> spec_bad_target(w, id),
        spec_trigger_count(w) == 1 ==> (forall|id: Seq<char>|
            crate::validation::has_unreachable(r.errors@, id) <==> (spec_has_node(w, id)
                && !spec_reachable(w, spec_the_trigger_id(w), id))),
        spec_trigger_count(w) != 1 ==> (forall|id: Seq<char>|
            !crate::validation::has_unreachable(r.errors@, id)),
        crate::validation::has_any_cycle_err(r.errors@) <==> spec_has_cycle(w),
        forall|id: Seq<char>|
            crate::validation::has_missing_activity(r.errors@, id) <==> spec_missing_activity(
                w,
                id,
            ),
        forall|id: Seq<char>|
            crate::validation::errs_any(
                r.errors@,
                crate::validation::pred_missing_required(id, "signalName"@),
            ) <==> spec_signal_missing_name(w, id),
        forall|id: Seq<char>|
            crate::validation::errs_any(
                r.errors@,
                crate::validation::pred_missing_required(id, "workflowId"@),
            ) <==> spec_child_missing_workflow(w, id),
        forall|id: Seq<char>|
            crate::validation::errs_any(
                r.errors@,
                crate::validation::pred_invalid_config(id),
            ) <==> spec_state_var_unconfigured(w, id),
        forall|k: int|
            0 <= k < r.errors@.len() ==> (#[trigger] r.errors@[k]) is EmptyWorkflow || r.errors@[k]
                is DuplicateNodeId || r.errors@[k] is DuplicateEdgeId || r.errors@[k]
                is NoStartNode || r.errors@[k] is MultipleStartNodes || r.errors@[k] is NoEndNode
                || r.errors@[k] is TriggerHasIncomingEdges || r.errors@[k] is OrphanNode
                || r.errors@[k] is InvalidEdgeSource || r.errors@[k] is InvalidEdgeTarget
                || r.errors@[k] is UnreachableNode || r.errors@[k] is CycleDetected
                || r.errors@[k] is MissingActivityName || (r.errors@[k] matches
                ValidationError::MissingRequiredField { node_id, field } && (field@
                == "signalName"@ || field@ == "workflowId"@)) || r.errors@[k] is InvalidConfig,
    ensures
        r.errors@.len() == 0 <==> spec_graph_valid(w),
{
    if r.errors@.len() == 0 {
        assert forall|id: Seq<char>| !(#[trigger] spec_dup_node_id(w, id)) by {
            if spec_dup_node_id(w, id) {
                let k = choose|k: int|
                    0 <= k < r.errors@.len() && crate::validation::pred_dup_node(id)(r.errors@[k]);
            }
        }
        assert(spec_trigger_count(w) != 0 && spec_trigger_count(w) < 2);
        assert(spec_graph_valid(w)) by {
            assert forall|id: Seq<char>| !(#[trigger] spec_dup_edge_id(w, id)) by {}
            assert forall|id: Seq<char>| !(#[trigger] spec_trigger_incoming(w, id)) by {}
            assert forall|id: Seq<char>| !(#[trigger] spec_orphan(w, id)) by {}
            assert forall|id: Seq<char>| !(#[trigger] spec_bad_source(w, id)) by {}
            assert forall|id: Seq<char>| !(#[trigger] spec_bad_target(w, id)) by {}
            assert forall|id: Seq<char>|
                (#[trigger] spec_has_node(w, id)) implies spec_reachable(
                w,
                spec_the_trigger_id(w),
                id,
            ) by {
                assert(!crate::validation::has_unreachable(r.errors@, id));
            }
            assert forall|id: Seq<char>| !(#[trigger] spec_missing_activity(w, id)) by {}
            assert forall|id: Seq<char>| !(#[trigger] spec_signal_missing_name(w, id)) by {}
            assert forall|id: Seq<char>| !(#[trigger] spec_child_missing_workflow(w, id)) by {}
            assert forall|id: Seq<char>| !(#[trigger] spec_state_var_unconfigured(w, id)) by {}
        }
    }
    if spec_graph_valid(w) {
        if r.errors@.len() > 0 {
            let k: int = 0;
            let e = r.errors@[k];
            if e is EmptyWorkflow {
                assert(crate::validation::has_empty_workflow(r.errors@)) by {
                    assert(crate::validation::pred_empty_workflow()(e));
                }
                assert(false);
            } else if e is NoStartNode {
                assert(crate::validation::has_no_start(r.errors@)) by {
                    assert(crate::validation::pred_no_start()(e));
                }
                assert(false);
            } else if e is MultipleStartNodes {
                assert(crate::validation::has_multi_start(r.errors@)) by {
                    assert(crate::validation::pred_multi_start()(e));
                }
                assert(false);
            } else if e is NoEndNode {
                assert(crate::validation::has_no_end(r.errors@)) by {
                    assert(crate::validation::pred_no_end()(e));
                }
                assert(false);
            } else if e is DuplicateNodeId {
                let x = e->DuplicateNodeId_0;
                assert(crate::validation::has_dup_node(r.errors@, x@)) by {
                    assert(crate::validation::pred_dup_node(x@)(e));
                }
                assert(spec_dup_node_id(w, x@));
                assert(!spec_dup_node_id(w, x@));
                assert(false);
            } else if e is DuplicateEdgeId {
                let x = e->DuplicateEdgeId_0;
                assert(crate::validation::has_dup_edge(r.errors@, x@)) by {
                    assert(crate::validation::pred_dup_edge(x@)(e));
                }
                assert(spec_dup_edge_id(w, x@));
                assert(!spec_dup_edge_id(w, x@));
                assert(false);
            } else if e is TriggerHasIncomingEdges {
                let nid = e->TriggerHasIncomingEdges_node_id;
                assert(crate::validation::has_trigger_incoming(r.errors@, nid@)) by {
                    assert(crate::validation::pred_trigger_incoming(nid@)(e));
                }
                assert(spec_trigger_incoming(w, nid@));
                assert(!spec_trigger_incoming(w, nid@));
                assert(false);
            } else if e is OrphanNode {
                let x = e->OrphanNode_0;
                assert(crate::validation::has_orphan(r.errors@, x@)) by {
                    assert(crate::validation::pred_orphan(x@)(e));
                }
                assert(spec_orphan(w, x@));
                assert(!spec_orphan(w, x@));
                assert(false);
            } else if e is InvalidEdgeSource {
                let x = e->InvalidEdgeSource_0;
                assert(crate::validation::has_invalid_source(r.errors@, x@)) by {
                    assert(crate::validation::pred_invalid_source(x@)(e));
                }
                assert(spec_bad_source(w, x@));
                assert(!spec_bad_source(w, x@));
                assert(false);
            } else if e is InvalidEdgeTarget {
                let x = e->InvalidEdgeTarget_0;
                assert(crate::validation::has_invalid_target(r.errors@, x@)) by {
                    assert(crate::validation::pred_invalid_target(x@)(e));
                }
                assert(spec_bad_target(w, x@));
                assert(!spec_bad_target(w, x@));
                assert(false);
            } else if e is UnreachableNode {
                let nid = e->UnreachableNode_node_id;
                assert(crate::validation::has_unreachable(r.errors@, nid@)) by {
                    assert(crate::validation::pred_unreachable(nid@)(e));
                }
                assert(spec_has_node(w, nid@) && !spec_reachable(w, spec_the_trigger_id(w), nid@));
                assert(spec_reachable(w, spec_the_trigger_id(w), nid@));
                assert(false);
            } else if e is CycleDetected {
                assert(crate::validation::has_any_cycle_err(r.errors@)) by {
                    assert(crate::validation::pred_any_cycle()(e));
                }
                assert(false);
            } else if e is MissingActivityName {
                let nid = e->MissingActivityName_node_id;
                assert(crate::validation::has_missing_activity(r.errors@, nid@)) by {
                    assert(crate::validation::pred_missing_activity(nid@)(e));
                }
                assert(spec_missing_activity(w, nid@));
                assert(!spec_missing_activity(w, nid@));
                assert(false);
            } else if e is MissingRequiredField {
                let nid = e->MissingRequiredField_node_id;
                let fld = e->MissingRequiredField_field;
                if fld@ == "signalName"@ {
                    assert(crate::validation::errs_any(
                        r.errors@,
                        crate::validation::pred_missing_required(nid@, "signalName"@),
                    )) by {
                        assert(crate::validation::pred_missing_required(nid@, "signalName"@)(e));
                    }
                    assert(spec_signal_missing_name(w, nid@));
                    assert(!spec_signal_missing_name(w, nid@));
                    assert(false);
                } else {
                    assert(fld@ == "workflowId"@);
                    assert(crate::validation::errs_any(
                        r.errors@,
                        crate::validation::pred_missing_required(nid@, "workflowId"@),
                    )) by {
                        assert(crate::validation::pred_missing_required(nid@, "workflowId"@)(e));
                    }
                    assert(spec_child_missing_workflow(w, nid@));
                    assert(!spec_child_missing_workflow(w, nid@));
                    assert(false);
                }
            } else {
                assert(e is InvalidConfig);
                let nid = e->InvalidConfig_node_id;
                assert(crate::validation::errs_any(
                    r.errors@,
                    crate::validation::pred_invalid_config(nid@),
                )) by {
                    assert(crate::validation::pred_invalid_config(nid@)(e));
                }
                assert(spec_state_var_unconfigured(w, nid@));
                assert(!spec_state_var_unconfigured(w, nid@));
                assert(false);
            }
        }
        assert(r.errors@.len() == 0);
    }
}

} // verus!
