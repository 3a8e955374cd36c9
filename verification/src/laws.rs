//! The laws the library states of itself.
//!
//! Each proof function here names one property that relates the public
//! functions, stated over the same spec functions their contracts use, so
//! a reader sees the property written down rather than left to follow.

use crate::codegen::{spec_activities_source, spec_package_json, spec_tsconfig,
    spec_worker_source, spec_workflow_source, CodeGenOptions, GeneratedCode, GenerationError};
use crate::errors::ValidationResult;
use crate::graph::{spec_has_cycle, spec_reachable};
use crate::schema::{spec_has_incident_edge, spec_has_node, spec_trigger_count,
    WorkflowDefinition};
use crate::validation::{has_multi_start_with, has_no_start, has_orphan, has_unreachable,
    spec_orphan, spec_the_trigger_id, spec_trigger_ids};
use crate::wire::spec_wire_matches_graph;
use crate::json::JsonValue;
use vstd::prelude::*;

verus! {

/// A graph with no trigger node is rejected on both paths: validation
/// reports the missing start node, and generation, called anyway, fails
/// with the same finding.  The premises are the contracts of `validate`
/// and `generate` on their results.
pub proof fn lemma_no_trigger_rejected(
    w: WorkflowDefinition,
    r: ValidationResult,
    g: Result<GeneratedCode, GenerationError>,
)
    requires
        spec_trigger_count(w) == 0,
        has_no_start(r.errors@) <==> spec_trigger_count(w) == 0,
        spec_trigger_count(w) == 0 <==> (g matches Result::Err(e) && e is NoStartNode),
    ensures
        has_no_start(r.errors@),
        g matches Result::Err(e) && e is NoStartNode,
{
}

/// A graph with two or more trigger nodes is reported with the full list
/// of them: the payload of the finding is exactly the trigger ids, in
/// declaration order, which is stronger than set equality.  The premise is
/// the contract of `validate` on its result.
pub proof fn lemma_multiple_triggers_listed(w: WorkflowDefinition, r: ValidationResult)
    requires
        spec_trigger_count(w) >= 2,
        spec_trigger_count(w) >= 2 ==> has_multi_start_with(r.errors@, spec_trigger_ids(w)),
    ensures
        has_multi_start_with(r.errors@, spec_trigger_ids(w)),
{
}

/// A node that touches no edge, in a graph of more than one node, is
/// reported as an orphan.  The premise is the contract of `validate` on
/// its result.
pub proof fn lemma_orphan_flagged(w: WorkflowDefinition, r: ValidationResult, x: Seq<char>)
    requires
        spec_has_node(w, x),
        !spec_has_incident_edge(w, x),
        w.nodes@.len() > 1,
        forall|id: Seq<char>| has_orphan(r.errors@, id) <==> spec_orphan(w, id),
    ensures
        has_orphan(r.errors@, x),
{
    assert(spec_orphan(w, x));
}

/// A node the unique trigger cannot reach over forward edges is flagged as
/// unreachable -- whatever edges it has to or from other unreachable
/// nodes.  The premise is the contract of `validate` on its result.
pub proof fn lemma_unreachable_flagged(w: WorkflowDefinition, r: ValidationResult, y: Seq<char>)
    requires
        spec_trigger_count(w) == 1,
        spec_has_node(w, y),
        !spec_reachable(w, spec_the_trigger_id(w), y),
        spec_trigger_count(w) == 1 ==> (forall|id: Seq<char>|
            has_unreachable(r.errors@, id) <==> (spec_has_node(w, id) && !spec_reachable(
                w,
                spec_the_trigger_id(w),
                id,
            ))),
    ensures
        has_unreachable(r.errors@, y),
{
}

/// A cycle among the graph's edges is reported, and a report is made only
/// when a cycle exists; the reported node list itself forms a cycle.  The
/// premises are the contract of `validate` on its result.
pub proof fn lemma_cycle_reported(w: WorkflowDefinition, r: ValidationResult)
    requires
        crate::validation::has_any_cycle_err(r.errors@) <==> spec_has_cycle(w),
        crate::validation::has_cycle_err(w, r.errors@) <==> spec_has_cycle(w),
    ensures
        spec_has_cycle(w) ==> crate::validation::has_cycle_err(w, r.errors@),
        crate::validation::has_any_cycle_err(r.errors@) ==> spec_has_cycle(w),
{
}

/// Generation is a pure function of the graph and the options: two calls
/// on equal inputs produce byte-identical artifacts.  The premises are the
/// contract of `generate` on two results for the same inputs.
pub proof fn lemma_generate_deterministic(
    w: WorkflowDefinition,
    o: CodeGenOptions,
    c1: GeneratedCode,
    c2: GeneratedCode,
)
    requires
        c1.workflow@ == spec_workflow_source(w, o),
        c1.activities@ == spec_activities_source(w),
        c1.worker@ == spec_worker_source(w, o),
        c1.package_json@ == spec_package_json(w),
        c1.tsconfig@ == spec_tsconfig(),
        c2.workflow@ == spec_workflow_source(w, o),
        c2.activities@ == spec_activities_source(w),
        c2.worker@ == spec_worker_source(w, o),
        c2.package_json@ == spec_package_json(w),
        c2.tsconfig@ == spec_tsconfig(),
    ensures
        c1.workflow@ == c2.workflow@,
        c1.activities@ == c2.activities@,
        c1.worker@ == c2.worker@,
        c1.package_json@ == c2.package_json@,
        c1.tsconfig@ == c2.tsconfig@,
{
}

/// One wire document denotes one graph: two graphs matching the same
/// document agree on their identity, their node, edge and variable counts,
/// and on every node id and every edge endpoint.  Together with the
/// contracts of `to_wire` and `from_wire` this is the round trip: parsing
/// a rendered graph back yields the same graph again.
pub proof fn lemma_wire_round_trip(v: JsonValue, g1: WorkflowDefinition, g2: WorkflowDefinition)
    requires
        spec_wire_matches_graph(v, g1),
        spec_wire_matches_graph(v, g2),
    ensures
        g1.id@ == g2.id@,
        g1.name@ == g2.name@,
        g1.nodes@.len() == g2.nodes@.len(),
        g1.edges@.len() == g2.edges@.len(),
        g1.variables@.len() == g2.variables@.len(),
        forall|k: int|
            0 <= k < g1.nodes@.len() ==> (#[trigger] g1.nodes@[k]).id@ == g2.nodes@[k].id@
                && g1.nodes@[k].node_type == g2.nodes@[k].node_type && node_data_eqv(
                g1.nodes@[k].data,
                g2.nodes@[k].data,
            ),
        forall|k: int|
            0 <= k < g1.edges@.len() ==> (#[trigger] g1.edges@[k]).id@ == g2.edges@[k].id@
                && g1.edges@[k].source@ == g2.edges@[k].source@ && g1.edges@[k].target@
                == g2.edges@[k].target@ && crate::wire::opt_str_eqv(
                g1.edges@[k].source_handle,
                g2.edges@[k].source_handle,
            ) && crate::wire::opt_str_eqv(g1.edges@[k].target_handle, g2.edges@[k].target_handle)
                && crate::wire::opt_str_eqv(g1.edges@[k].label, g2.edges@[k].label)
                && crate::wire::opt_str_eqv(g1.edges@[k].edge_type, g2.edges@[k].edge_type),
        crate::wire::opt_str_eqv(g1.settings.timeout, g2.settings.timeout),
        crate::wire::opt_str_eqv(g1.settings.task_queue, g2.settings.task_queue),
        crate::wire::opt_str_eqv(g1.settings.description, g2.settings.description),
        crate::wire::opt_str_eqv(g1.settings.version, g2.settings.version),
        crate::wire::opt_retry_eqv(g1.settings.retry_policy, g2.settings.retry_policy),
        g1.settings.long_running == g2.settings.long_running,
        forall|k: int|
            0 <= k < g1.variables@.len() ==> (#[trigger] g1.variables@[k]).name@
                == g2.variables@[k].name@ && g1.variables@[k].var_type == g2.variables@[
                k
            ].var_type && g1.variables@[k].required == g2.variables@[k].required
                && crate::wire::opt_value_eqv(
                g1.variables@[k].initial_value,
                g2.variables@[k].initial_value,
            ) && crate::wire::opt_str_eqv(
                g1.variables@[k].description,
                g2.variables@[k].description,
            ),
{
    let nv = v->Obj_0@[2].1;
    assert forall|k: int|
        0 <= k < g1.nodes@.len() implies (#[trigger] g1.nodes@[k]).id@ == g2.nodes@[k].id@
            && g1.nodes@[k].node_type == g2.nodes@[k].node_type && node_data_eqv(
        g1.nodes@[k].data,
        g2.nodes@[k].data,
    ) by {
        assert(crate::wire::spec_wire_matches_node(nv->Arr_0@[k], g1.nodes@[k]));
        assert(crate::wire::spec_wire_matches_node(nv->Arr_0@[k], g2.nodes@[k]));
        lemma_node_type_name_inj(g1.nodes@[k].node_type, g2.nodes@[k].node_type);
        lemma_wire_data_functional(
            nv->Arr_0@[k]->Obj_0@[2].1,
            g1.nodes@[k].data,
            g2.nodes@[k].data,
        );
    }
    let ev = v->Obj_0@[3].1;
    assert forall|k: int|
        0 <= k < g1.edges@.len() implies (#[trigger] g1.edges@[k]).id@ == g2.edges@[k].id@
            && g1.edges@[k].source@ == g2.edges@[k].source@ && g1.edges@[k].target@ == g2.edges@[
        k
    ].target@ && crate::wire::opt_str_eqv(g1.edges@[k].source_handle, g2.edges@[k].source_handle)
        && crate::wire::opt_str_eqv(g1.edges@[k].target_handle, g2.edges@[k].target_handle)
        && crate::wire::opt_str_eqv(g1.edges@[k].label, g2.edges@[k].label)
        && crate::wire::opt_str_eqv(g1.edges@[k].edge_type, g2.edges@[k].edge_type) by {
        assert(crate::wire::spec_wire_matches_edge(ev->Arr_0@[k], g1.edges@[k]));
        assert(crate::wire::spec_wire_matches_edge(ev->Arr_0@[k], g2.edges@[k]));
    }
    lemma_wire_settings_functional(v->Obj_0@[5].1, g1.settings, g2.settings);
    let vv = v->Obj_0@[4].1;
    assert forall|k: int|
        0 <= k < g1.variables@.len() implies (#[trigger] g1.variables@[k]).name@ == g2.variables@[
        k
    ].name@ && g1.variables@[k].var_type == g2.variables@[k].var_type && g1.variables@[k].required
        == g2.variables@[k].required && crate::wire::opt_value_eqv(
        g1.variables@[k].initial_value,
        g2.variables@[k].initial_value,
    ) && crate::wire::opt_str_eqv(g1.variables@[k].description, g2.variables@[k].description) by {
        assert(crate::wire::spec_wire_matches_variable(vv->Arr_0@[k], g1.variables@[k]));
        assert(crate::wire::spec_wire_matches_variable(vv->Arr_0@[k], g2.variables@[k]));
        lemma_variable_type_name_inj(g1.variables@[k].var_type, g2.variables@[k].var_type);
        match (g1.variables@[k].initial_value, g2.variables@[k].initial_value) {
            (Option::Some(x), Option::Some(y)) => {
                crate::json::lemma_json_eqv_symm(y, vv->Arr_0@[k]->Obj_0@[2].1->Arr_0@[0]);
                crate::json::lemma_json_eqv_trans(
                    x,
                    vv->Arr_0@[k]->Obj_0@[2].1->Arr_0@[0],
                    y,
                );
            },
            _ => {},
        }
    }
}

/// Distinct node types have distinct wire names.
#[verifier::rlimit(100)]
#[verifier::spinoff_prover]
pub proof fn lemma_node_type_name_inj(a: crate::schema::NodeType, b: crate::schema::NodeType)
    requires
        crate::wire::spec_node_type_name(a) == crate::wire::spec_node_type_name(b),
    ensures
        a == b,
{
    reveal_strlit("trigger");
    reveal_strlit("activity");
    reveal_strlit("agent");
    reveal_strlit("conditional");
    reveal_strlit("loop");
    reveal_strlit("child-workflow");
    reveal_strlit("signal");
    reveal_strlit("phase");
    reveal_strlit("retry");
    reveal_strlit("state-variable");
    reveal_strlit("api-endpoint");
    reveal_strlit("condition");
    reveal_strlit("end");
    reveal_strlit("data-in");
    reveal_strlit("data-out");
    reveal_strlit("kong-logging");
    reveal_strlit("kong-cache");
    reveal_strlit("kong-cors");
    reveal_strlit("graphql-gateway");
    reveal_strlit("mcp-server");
    assert("trigger"@.len() == 7);
    assert("activity"@.len() == 8);
    assert("agent"@.len() == 5);
    assert("conditional"@.len() == 11);
    assert("loop"@.len() == 4);
    assert("child-workflow"@.len() == 14);
    assert("signal"@.len() == 6);
    assert("phase"@.len() == 5);
    assert("retry"@.len() == 5);
    assert("state-variable"@.len() == 14);
    assert("api-endpoint"@.len() == 12);
    assert("condition"@.len() == 9);
    assert("end"@.len() == 3);
    assert("data-in"@.len() == 7);
    assert("data-out"@.len() == 8);
    assert("kong-logging"@.len() == 12);
    assert("kong-cache"@.len() == 10);
    assert("kong-cors"@.len() == 9);
    assert("graphql-gateway"@.len() == 15);
    assert("mcp-server"@.len() == 10);
    match (a, b) {
        (crate::schema::NodeType::Trigger, crate::schema::NodeType::Trigger) => {},
        (crate::schema::NodeType::Trigger, crate::schema::NodeType::Activity) => {
            assert(false);
        },
        (crate::schema::NodeType::Trigger, crate::schema::NodeType::Agent) => {
            assert(false);
        },
        (crate::schema::NodeType::Trigger, crate::schema::NodeType::Conditional) => {
            assert(false);
        },
        (crate::schema::NodeType::Trigger, crate::schema::NodeType::Loop) => {
            assert(false);
        },
        (crate::schema::NodeType::Trigger, crate::schema::NodeType::ChildWorkflow) => {
            assert(false);
        },
        (crate::schema::NodeType::Trigger, crate::schema::NodeType::Signal) => {
            assert(false);
        },
        (crate::schema::NodeType::Trigger, crate::schema::NodeType::Phase) => {
            assert(false);
        },
        (crate::schema::NodeType::Trigger, crate::schema::NodeType::Retry) => {
            assert(false);
        },
        (crate::schema::NodeType::Trigger, crate::schema::NodeType::StateVariable) => {
            assert(false);
        },
        (crate::schema::NodeType::Trigger, crate::schema::NodeType::ApiEndpoint) => {
            assert(false);
        },
        (crate::schema::NodeType::Trigger, crate::schema::NodeType::Condition) => {
            assert(false);
        },
        (crate::schema::NodeType::Trigger, crate::schema::NodeType::End) => {
            assert(false);
        },
        (crate::schema::NodeType::Trigger, crate::schema::NodeType::DataIn) => {
            assert("trigger"@[0] == 't');
            assert("data-in"@[0] == 'd');
            assert(false);
        },
        (crate::schema::NodeType::Trigger, crate::schema::NodeType::DataOut) => {
            assert(false);
        },
        (crate::schema::NodeType::Trigger, crate::schema::NodeType::KongLogging) => {
            assert(false);
        },
        (crate::schema::NodeType::Trigger, crate::schema::NodeType::KongCache) => {
            assert(false);
        },
        (crate::schema::NodeType::Trigger, crate::schema::NodeType::KongCors) => {
            assert(false);
        },
        (crate::schema::NodeType::Trigger, crate::schema::NodeType::GraphqlGateway) => {
            assert(false);
        },
        (crate::schema::NodeType::Trigger, crate::schema::NodeType::McpServer) => {
            assert(false);
        },
        (crate::schema::NodeType::Activity, crate::schema::NodeType::Trigger) => {
            assert(false);
        },
        (crate::schema::NodeType::Activity, crate::schema::NodeType::Activity) => {},
        (crate::schema::NodeType::Activity, crate::schema::NodeType::Agent) => {
            assert(false);
        },
        (crate::schema::NodeType::Activity, crate::schema::NodeType::Conditional) => {
            assert(false);
        },
        (crate::schema::NodeType::Activity, crate::schema::NodeType::Loop) => {
            assert(false);
        },
        (crate::schema::NodeType::Activity, crate::schema::NodeType::ChildWorkflow) => {
            assert(false);
        },
        (crate::schema::NodeType::Activity, crate::schema::NodeType::Signal) => {
            assert(false);
        },
        (crate::schema::NodeType::Activity, crate::schema::NodeType::Phase) => {
            assert(false);
        },
        (crate::schema::NodeType::Activity, crate::schema::NodeType::Retry) => {
            assert(false);
        },
        (crate::schema::NodeType::Activity, crate::schema::NodeType::StateVariable) => {
            assert(false);
        },
        (crate::schema::NodeType::Activity, crate::schema::NodeType::ApiEndpoint) => {
            assert(false);
        },
        (crate::schema::NodeType::Activity, crate::schema::NodeType::Condition) => {
            assert(false);
        },
        (crate::schema::NodeType::Activity, crate::schema::NodeType::End) => {
            assert(false);
        },
        (crate::schema::NodeType::Activity, crate::schema::NodeType::DataIn) => {
            assert(false);
        },
        (crate::schema::NodeType::Activity, crate::schema::NodeType::DataOut) => {
            assert("activity"@[0] == 'a');
            assert("data-out"@[0] == 'd');
            assert(false);
        },
        (crate::schema::NodeType::Activity, crate::schema::NodeType::KongLogging) => {
            assert(false);
        },
        (crate::schema::NodeType::Activity, crate::schema::NodeType::KongCache) => {
            assert(false);
        },
        (crate::schema::NodeType::Activity, crate::schema::NodeType::KongCors) => {
            assert(false);
        },
        (crate::schema::NodeType::Activity, crate::schema::NodeType::GraphqlGateway) => {
            assert(false);
        },
        (crate::schema::NodeType::Activity, crate::schema::NodeType::McpServer) => {
            assert(false);
        },
        (crate::schema::NodeType::Agent, crate::schema::NodeType::Trigger) => {
            assert(false);
        },
        (crate::schema::NodeType::Agent, crate::schema::NodeType::Activity) => {
            assert(false);
        },
        (crate::schema::NodeType::Agent, crate::schema::NodeType::Agent) => {},
        (crate::schema::NodeType::Agent, crate::schema::NodeType::Conditional) => {
            assert(false);
        },
        (crate::schema::NodeType::Agent, crate::schema::NodeType::Loop) => {
            assert(false);
        },
        (crate::schema::NodeType::Agent, crate::schema::NodeType::ChildWorkflow) => {
            assert(false);
        },
        (crate::schema::NodeType::Agent, crate::schema::NodeType::Signal) => {
            assert(false);
        },
        (crate::schema::NodeType::Agent, crate::schema::NodeType::Phase) => {
            assert("agent"@[0] == 'a');
            assert("phase"@[0] == 'p');
            assert(false);
        },
        (crate::schema::NodeType::Agent, crate::schema::NodeType::Retry) => {
            assert("agent"@[0] == 'a');
            assert("retry"@[0] == 'r');
            assert(false);
        },
        (crate::schema::NodeType::Agent, crate::schema::NodeType::StateVariable) => {
            assert(false);
        },
        (crate::schema::NodeType::Agent, crate::schema::NodeType::ApiEndpoint) => {
            assert(false);
        },
        (crate::schema::NodeType::Agent, crate::schema::NodeType::Condition) => {
            assert(false);
        },
        (crate::schema::NodeType::Agent, crate::schema::NodeType::End) => {
            assert(false);
        },
        (crate::schema::NodeType::Agent, crate::schema::NodeType::DataIn) => {
            assert(false);
        },
        (crate::schema::NodeType::Agent, crate::schema::NodeType::DataOut) => {
            assert(false);
        },
        (crate::schema::NodeType::Agent, crate::schema::NodeType::KongLogging) => {
            assert(false);
        },
        (crate::schema::NodeType::Agent, crate::schema::NodeType::KongCache) => {
            assert(false);
        },
        (crate::schema::NodeType::Agent, crate::schema::NodeType::KongCors) => {
            assert(false);
        },
        (crate::schema::NodeType::Agent, crate::schema::NodeType::GraphqlGateway) => {
            assert(false);
        },
        (crate::schema::NodeType::Agent, crate::schema::NodeType::McpServer) => {
            assert(false);
        },
        (crate::schema::NodeType::Conditional, crate::schema::NodeType::Trigger) => {
            assert(false);
        },
        (crate::schema::NodeType::Conditional, crate::schema::NodeType::Activity) => {
            assert(false);
        },
        (crate::schema::NodeType::Conditional, crate::schema::NodeType::Agent) => {
            assert(false);
        },
        (crate::schema::NodeType::Conditional, crate::schema::NodeType::Conditional) => {},
        (crate::schema::NodeType::Conditional, crate::schema::NodeType::Loop) => {
            assert(false);
        },
        (crate::schema::NodeType::Conditional, crate::schema::NodeType::ChildWorkflow) => {
            assert(false);
        },
        (crate::schema::NodeType::Conditional, crate::schema::NodeType::Signal) => {
            assert(false);
        },
        (crate::schema::NodeType::Conditional, crate::schema::NodeType::Phase) => {
            assert(false);
        },
        (crate::schema::NodeType::Conditional, crate::schema::NodeType::Retry) => {
            assert(false);
        },
        (crate::schema::NodeType::Conditional, crate::schema::NodeType::StateVariable) => {
            assert(false);
        },
        (crate::schema::NodeType::Conditional, crate::schema::NodeType::ApiEndpoint) => {
            assert(false);
        },
        (crate::schema::NodeType::Conditional, crate::schema::NodeType::Condition) => {
            assert(false);
        },
        (crate::schema::NodeType::Conditional, crate::schema::NodeType::End) => {
            assert(false);
        },
        (crate::schema::NodeType::Conditional, crate::schema::NodeType::DataIn) => {
            assert(false);
        },
        (crate::schema::NodeType::Conditional, crate::schema::NodeType::DataOut) => {
            assert(false);
        },
        (crate::schema::NodeType::Conditional, crate::schema::NodeType::KongLogging) => {
            assert(false);
        },
        (crate::schema::NodeType::Conditional, crate::schema::NodeType::KongCache) => {
            assert(false);
        },
        (crate::schema::NodeType::Conditional, crate::schema::NodeType::KongCors) => {
            assert(false);
        },
        (crate::schema::NodeType::Conditional, crate::schema::NodeType::GraphqlGateway) => {
            assert(false);
        },
        (crate::schema::NodeType::Conditional, crate::schema::NodeType::McpServer) => {
            assert(false);
        },
        (crate::schema::NodeType::Loop, crate::schema::NodeType::Trigger) => {
            assert(false);
        },
        (crate::schema::NodeType::Loop, crate::schema::NodeType::Activity) => {
            assert(false);
        },
        (crate::schema::NodeType::Loop, crate::schema::NodeType::Agent) => {
            assert(false);
        },
        (crate::schema::NodeType::Loop, crate::schema::NodeType::Conditional) => {
            assert(false);
        },
        (crate::schema::NodeType::Loop, crate::schema::NodeType::Loop) => {},
        (crate::schema::NodeType::Loop, crate::schema::NodeType::ChildWorkflow) => {
            assert(false);
        },
        (crate::schema::NodeType::Loop, crate::schema::NodeType::Signal) => {
            assert(false);
        },
        (crate::schema::NodeType::Loop, crate::schema::NodeType::Phase) => {
            assert(false);
        },
        (crate::schema::NodeType::Loop, crate::schema::NodeType::Retry) => {
            assert(false);
        },
        (crate::schema::NodeType::Loop, crate::schema::NodeType::StateVariable) => {
            assert(false);
        },
        (crate::schema::NodeType::Loop, crate::schema::NodeType::ApiEndpoint) => {
            assert(false);
        },
        (crate::schema::NodeType::Loop, crate::schema::NodeType::Condition) => {
            assert(false);
        },
        (crate::schema::NodeType::Loop, crate::schema::NodeType::End) => {
            assert(false);
        },
        (crate::schema::NodeType::Loop, crate::schema::NodeType::DataIn) => {
            assert(false);
        },
        (crate::schema::NodeType::Loop, crate::schema::NodeType::DataOut) => {
            assert(false);
        },
        (crate::schema::NodeType::Loop, crate::schema::NodeType::KongLogging) => {
            assert(false);
        },
        (crate::schema::NodeType::Loop, crate::schema::NodeType::KongCache) => {
            assert(false);
        },
        (crate::schema::NodeType::Loop, crate::schema::NodeType::KongCors) => {
            assert(false);
        },
        (crate::schema::NodeType::Loop, crate::schema::NodeType::GraphqlGateway) => {
            assert(false);
        },
        (crate::schema::NodeType::Loop, crate::schema::NodeType::McpServer) => {
            assert(false);
        },
        (crate::schema::NodeType::ChildWorkflow, crate::schema::NodeType::Trigger) => {
            assert(false);
        },
        (crate::schema::NodeType::ChildWorkflow, crate::schema::NodeType::Activity) => {
            assert(false);
        },
        (crate::schema::NodeType::ChildWorkflow, crate::schema::NodeType::Agent) => {
            assert(false);
        },
        (crate::schema::NodeType::ChildWorkflow, crate::schema::NodeType::Conditional) => {
            assert(false);
        },
        (crate::schema::NodeType::ChildWorkflow, crate::schema::NodeType::Loop) => {
            assert(false);
        },
        (crate::schema::NodeType::ChildWorkflow, crate::schema::NodeType::ChildWorkflow) => {},
        (crate::schema::NodeType::ChildWorkflow, crate::schema::NodeType::Signal) => {
            assert(false);
        },
        (crate::schema::NodeType::ChildWorkflow, crate::schema::NodeType::Phase) => {
            assert(false);
        },
        (crate::schema::NodeType::ChildWorkflow, crate::schema::NodeType::Retry) => {
            assert(false);
        },
        (crate::schema::NodeType::ChildWorkflow, crate::schema::NodeType::StateVariable) => {
            assert("child-workflow"@[0] == 'c');
            assert("state-variable"@[0] == 's');
            assert(false);
        },
        (crate::schema::NodeType::ChildWorkflow, crate::schema::NodeType::ApiEndpoint) => {
            assert(false);
        },
        (crate::schema::NodeType::ChildWorkflow, crate::schema::NodeType::Condition) => {
            assert(false);
        },
        (crate::schema::NodeType::ChildWorkflow, crate::schema::NodeType::End) => {
            assert(false);
        },
        (crate::schema::NodeType::ChildWorkflow, crate::schema::NodeType::DataIn) => {
            assert(false);
        },
        (crate::schema::NodeType::ChildWorkflow, crate::schema::NodeType::DataOut) => {
            assert(false);
        },
        (crate::schema::NodeType::ChildWorkflow, crate::schema::NodeType::KongLogging) => {
            assert(false);
        },
        (crate::schema::NodeType::ChildWorkflow, crate::schema::NodeType::KongCache) => {
            assert(false);
        },
        (crate::schema::NodeType::ChildWorkflow, crate::schema::NodeType::KongCors) => {
            assert(false);
        },
        (crate::schema::NodeType::ChildWorkflow, crate::schema::NodeType::GraphqlGateway) => {
            assert(false);
        },
        (crate::schema::NodeType::ChildWorkflow, crate::schema::NodeType::McpServer) => {
            assert(false);
        },
        (crate::schema::NodeType::Signal, crate::schema::NodeType::Trigger) => {
            assert(false);
        },
        (crate::schema::NodeType::Signal, crate::schema::NodeType::Activity) => {
            assert(false);
        },
        (crate::schema::NodeType::Signal, crate::schema::NodeType::Agent) => {
            assert(false);
        },
        (crate::schema::NodeType::Signal, crate::schema::NodeType::Conditional) => {
            assert(false);
        },
        (crate::schema::NodeType::Signal, crate::schema::NodeType::Loop) => {
            assert(false);
        },
        (crate::schema::NodeType::Signal, crate::schema::NodeType::ChildWorkflow) => {
            assert(false);
        },
        (crate::schema::NodeType::Signal, crate::schema::NodeType::Signal) => {},
        (crate::schema::NodeType::Signal, crate::schema::NodeType::Phase) => {
            assert(false);
        },
        (crate::schema::NodeType::Signal, crate::schema::NodeType::Retry) => {
            assert(false);
        },
        (crate::schema::NodeType::Signal, crate::schema::NodeType::StateVariable) => {
            assert(false);
        },
        (crate::schema::NodeType::Signal, crate::schema::NodeType::ApiEndpoint) => {
            assert(false);
        },
        (crate::schema::NodeType::Signal, crate::schema::NodeType::Condition) => {
            assert(false);
        },
        (crate::schema::NodeType::Signal, crate::schema::NodeType::End) => {
            assert(false);
        },
        (crate::schema::NodeType::Signal, crate::schema::NodeType::DataIn) => {
            assert(false);
        },
        (crate::schema::NodeType::Signal, crate::schema::NodeType::DataOut) => {
            assert(false);
        },
        (crate::schema::NodeType::Signal, crate::schema::NodeType::KongLogging) => {
            assert(false);
        },
        (crate::schema::NodeType::Signal, crate::schema::NodeType::KongCache) => {
            assert(false);
        },
        (crate::schema::NodeType::Signal, crate::schema::NodeType::KongCors) => {
            assert(false);
        },
        (crate::schema::NodeType::Signal, crate::schema::NodeType::GraphqlGateway) => {
            assert(false);
        },
        (crate::schema::NodeType::Signal, crate::schema::NodeType::McpServer) => {
            assert(false);
        },
        (crate::schema::NodeType::Phase, crate::schema::NodeType::Trigger) => {
            assert(false);
        },
        (crate::schema::NodeType::Phase, crate::schema::NodeType::Activity) => {
            assert(false);
        },
        (crate::schema::NodeType::Phase, crate::schema::NodeType::Agent) => {
            assert("phase"@[0] == 'p');
            assert("agent"@[0] == 'a');
            assert(false);
        },
        (crate::schema::NodeType::Phase, crate::schema::NodeType::Conditional) => {
            assert(false);
        },
        (crate::schema::NodeType::Phase, crate::schema::NodeType::Loop) => {
            assert(false);
        },
        (crate::schema::NodeType::Phase, crate::schema::NodeType::ChildWorkflow) => {
            assert(false);
        },
        (crate::schema::NodeType::Phase, crate::schema::NodeType::Signal) => {
            assert(false);
        },
        (crate::schema::NodeType::Phase, crate::schema::NodeType::Phase) => {},
        (crate::schema::NodeType::Phase, crate::schema::NodeType::Retry) => {
            assert("phase"@[0] == 'p');
            assert("retry"@[0] == 'r');
            assert(false);
        },
        (crate::schema::NodeType::Phase, crate::schema::NodeType::StateVariable) => {
            assert(false);
        },
        (crate::schema::NodeType::Phase, crate::schema::NodeType::ApiEndpoint) => {
            assert(false);
        },
        (crate::schema::NodeType::Phase, crate::schema::NodeType::Condition) => {
            assert(false);
        },
        (crate::schema::NodeType::Phase, crate::schema::NodeType::End) => {
            assert(false);
        },
        (crate::schema::NodeType::Phase, crate::schema::NodeType::DataIn) => {
            assert(false);
        },
        (crate::schema::NodeType::Phase, crate::schema::NodeType::DataOut) => {
            assert(false);
        },
        (crate::schema::NodeType::Phase, crate::schema::NodeType::KongLogging) => {
            assert(false);
        },
        (crate::schema::NodeType::Phase, crate::schema::NodeType::KongCache) => {
            assert(false);
        },
        (crate::schema::NodeType::Phase, crate::schema::NodeType::KongCors) => {
            assert(false);
        },
        (crate::schema::NodeType::Phase, crate::schema::NodeType::GraphqlGateway) => {
            assert(false);
        },
        (crate::schema::NodeType::Phase, crate::schema::NodeType::McpServer) => {
            assert(false);
        },
        (crate::schema::NodeType::Retry, crate::schema::NodeType::Trigger) => {
            assert(false);
        },
        (crate::schema::NodeType::Retry, crate::schema::NodeType::Activity) => {
            assert(false);
        },
        (crate::schema::NodeType::Retry, crate::schema::NodeType::Agent) => {
            assert("retry"@[0] == 'r');
            assert("agent"@[0] == 'a');
            assert(false);
        },
        (crate::schema::NodeType::Retry, crate::schema::NodeType::Conditional) => {
            assert(false);
        },
        (crate::schema::NodeType::Retry, crate::schema::NodeType::Loop) => {
            assert(false);
        },
        (crate::schema::NodeType::Retry, crate::schema::NodeType::ChildWorkflow) => {
            assert(false);
        },
        (crate::schema::NodeType::Retry, crate::schema::NodeType::Signal) => {
            assert(false);
        },
        (crate::schema::NodeType::Retry, crate::schema::NodeType::Phase) => {
            assert("retry"@[0] == 'r');
            assert("phase"@[0] == 'p');
            assert(false);
        },
        (crate::schema::NodeType::Retry, crate::schema::NodeType::Retry) => {},
        (crate::schema::NodeType::Retry, crate::schema::NodeType::StateVariable) => {
            assert(false);
        },
        (crate::schema::NodeType::Retry, crate::schema::NodeType::ApiEndpoint) => {
            assert(false);
        },
        (crate::schema::NodeType::Retry, crate::schema::NodeType::Condition) => {
            assert(false);
        },
        (crate::schema::NodeType::Retry, crate::schema::NodeType::End) => {
            assert(false);
        },
        (crate::schema::NodeType::Retry, crate::schema::NodeType::DataIn) => {
            assert(false);
        },
        (crate::schema::NodeType::Retry, crate::schema::NodeType::DataOut) => {
            assert(false);
        },
        (crate::schema::NodeType::Retry, crate::schema::NodeType::KongLogging) => {
            assert(false);
        },
        (crate::schema::NodeType::Retry, crate::schema::NodeType::KongCache) => {
            assert(false);
        },
        (crate::schema::NodeType::Retry, crate::schema::NodeType::KongCors) => {
            assert(false);
        },
        (crate::schema::NodeType::Retry, crate::schema::NodeType::GraphqlGateway) => {
            assert(false);
        },
        (crate::schema::NodeType::Retry, crate::schema::NodeType::McpServer) => {
            assert(false);
        },
        (crate::schema::NodeType::StateVariable, crate::schema::NodeType::Trigger) => {
            assert(false);
        },
        (crate::schema::NodeType::StateVariable, crate::schema::NodeType::Activity) => {
            assert(false);
        },
        (crate::schema::NodeType::StateVariable, crate::schema::NodeType::Agent) => {
            assert(false);
        },
        (crate::schema::NodeType::StateVariable, crate::schema::NodeType::Conditional) => {
            assert(false);
        },
        (crate::schema::NodeType::StateVariable, crate::schema::NodeType::Loop) => {
            assert(false);
        },
        (crate::schema::NodeType::StateVariable, crate::schema::NodeType::ChildWorkflow) => {
            assert("state-variable"@[0] == 's');
            assert("child-workflow"@[0] == 'c');
            assert(false);
        },
        (crate::schema::NodeType::StateVariable, crate::schema::NodeType::Signal) => {
            assert(false);
        },
        (crate::schema::NodeType::StateVariable, crate::schema::NodeType::Phase) => {
            assert(false);
        },
        (crate::schema::NodeType::StateVariable, crate::schema::NodeType::Retry) => {
            assert(false);
        },
        (crate::schema::NodeType::StateVariable, crate::schema::NodeType::StateVariable) => {},
        (crate::schema::NodeType::StateVariable, crate::schema::NodeType::ApiEndpoint) => {
            assert(false);
        },
        (crate::schema::NodeType::StateVariable, crate::schema::NodeType::Condition) => {
            assert(false);
        },
        (crate::schema::NodeType::StateVariable, crate::schema::NodeType::End) => {
            assert(false);
        },
        (crate::schema::NodeType::StateVariable, crate::schema::NodeType::DataIn) => {
            assert(false);
        },
        (crate::schema::NodeType::StateVariable, crate::schema::NodeType::DataOut) => {
            assert(false);
        },
        (crate::schema::NodeType::StateVariable, crate::schema::NodeType::KongLogging) => {
            assert(false);
        },
        (crate::schema::NodeType::StateVariable, crate::schema::NodeType::KongCache) => {
            assert(false);
        },
        (crate::schema::NodeType::StateVariable, crate::schema::NodeType::KongCors) => {
            assert(false);
        },
        (crate::schema::NodeType::StateVariable, crate::schema::NodeType::GraphqlGateway) => {
            assert(false);
        },
        (crate::schema::NodeType::StateVariable, crate::schema::NodeType::McpServer) => {
            assert(false);
        },
        (crate::schema::NodeType::ApiEndpoint, crate::schema::NodeType::Trigger) => {
            assert(false);
        },
        (crate::schema::NodeType::ApiEndpoint, crate::schema::NodeType::Activity) => {
            assert(false);
        },
        (crate::schema::NodeType::ApiEndpoint, crate::schema::NodeType::Agent) => {
            assert(false);
        },
        (crate::schema::NodeType::ApiEndpoint, crate::schema::NodeType::Conditional) => {
            assert(false);
        },
        (crate::schema::NodeType::ApiEndpoint, crate::schema::NodeType::Loop) => {
            assert(false);
        },
        (crate::schema::NodeType::ApiEndpoint, crate::schema::NodeType::ChildWorkflow) => {
            assert(false);
        },
        (crate::schema::NodeType::ApiEndpoint, crate::schema::NodeType::Signal) => {
            assert(false);
        },
        (crate::schema::NodeType::ApiEndpoint, crate::schema::NodeType::Phase) => {
            assert(false);
        },
        (crate::schema::NodeType::ApiEndpoint, crate::schema::NodeType::Retry) => {
            assert(false);
        },
        (crate::schema::NodeType::ApiEndpoint, crate::schema::NodeType::StateVariable) => {
            assert(false);
        },
        (crate::schema::NodeType::ApiEndpoint, crate::schema::NodeType::ApiEndpoint) => {},
        (crate::schema::NodeType::ApiEndpoint, crate::schema::NodeType::Condition) => {
            assert(false);
        },
        (crate::schema::NodeType::ApiEndpoint, crate::schema::NodeType::End) => {
            assert(false);
        },
        (crate::schema::NodeType::ApiEndpoint, crate::schema::NodeType::DataIn) => {
            assert(false);
        },
        (crate::schema::NodeType::ApiEndpoint, crate::schema::NodeType::DataOut) => {
            assert(false);
        },
        (crate::schema::NodeType::ApiEndpoint, crate::schema::NodeType::KongLogging) => {
            assert("api-endpoint"@[0] == 'a');
            assert("kong-logging"@[0] == 'k');
            assert(false);
        },
        (crate::schema::NodeType::ApiEndpoint, crate::schema::NodeType::KongCache) => {
            assert(false);
        },
        (crate::schema::NodeType::ApiEndpoint, crate::schema::NodeType::KongCors) => {
            assert(false);
        },
        (crate::schema::NodeType::ApiEndpoint, crate::schema::NodeType::GraphqlGateway) => {
            assert(false);
        },
        (crate::schema::NodeType::ApiEndpoint, crate::schema::NodeType::McpServer) => {
            assert(false);
        },
        (crate::schema::NodeType::Condition, crate::schema::NodeType::Trigger) => {
            assert(false);
        },
        (crate::schema::NodeType::Condition, crate::schema::NodeType::Activity) => {
            assert(false);
        },
        (crate::schema::NodeType::Condition, crate::schema::NodeType::Agent) => {
            assert(false);
        },
        (crate::schema::NodeType::Condition, crate::schema::NodeType::Conditional) => {
            assert(false);
        },
        (crate::schema::NodeType::Condition, crate::schema::NodeType::Loop) => {
            assert(false);
        },
        (crate::schema::NodeType::Condition, crate::schema::NodeType::ChildWorkflow) => {
            assert(false);
        },
        (crate::schema::NodeType::Condition, crate::schema::NodeType::Signal) => {
            assert(false);
        },
        (crate::schema::NodeType::Condition, crate::schema::NodeType::Phase) => {
            assert(false);
        },
        (crate::schema::NodeType::Condition, crate::schema::NodeType::Retry) => {
            assert(false);
        },
        (crate::schema::NodeType::Condition, crate::schema::NodeType::StateVariable) => {
            assert(false);
        },
        (crate::schema::NodeType::Condition, crate::schema::NodeType::ApiEndpoint) => {
            assert(false);
        },
        (crate::schema::NodeType::Condition, crate::schema::NodeType::Condition) => {},
        (crate::schema::NodeType::Condition, crate::schema::NodeType::End) => {
            assert(false);
        },
        (crate::schema::NodeType::Condition, crate::schema::NodeType::DataIn) => {
            assert(false);
        },
        (crate::schema::NodeType::Condition, crate::schema::NodeType::DataOut) => {
            assert(false);
        },
        (crate::schema::NodeType::Condition, crate::schema::NodeType::KongLogging) => {
            assert(false);
        },
        (crate::schema::NodeType::Condition, crate::schema::NodeType::KongCache) => {
            assert(false);
        },
        (crate::schema::NodeType::Condition, crate::schema::NodeType::KongCors) => {
            assert("condition"@[0] == 'c');
            assert("kong-cors"@[0] == 'k');
            assert(false);
        },
        (crate::schema::NodeType::Condition, crate::schema::NodeType::GraphqlGateway) => {
            assert(false);
        },
        (crate::schema::NodeType::Condition, crate::schema::NodeType::McpServer) => {
            assert(false);
        },
        (crate::schema::NodeType::End, crate::schema::NodeType::Trigger) => {
            assert(false);
        },
        (crate::schema::NodeType::End, crate::schema::NodeType::Activity) => {
            assert(false);
        },
        (crate::schema::NodeType::End, crate::schema::NodeType::Agent) => {
            assert(false);
        },
        (crate::schema::NodeType::End, crate::schema::NodeType::Conditional) => {
            assert(false);
        },
        (crate::schema::NodeType::End, crate::schema::NodeType::Loop) => {
            assert(false);
        },
        (crate::schema::NodeType::End, crate::schema::NodeType::ChildWorkflow) => {
            assert(false);
        },
        (crate::schema::NodeType::End, crate::schema::NodeType::Signal) => {
            assert(false);
        },
        (crate::schema::NodeType::End, crate::schema::NodeType::Phase) => {
            assert(false);
        },
        (crate::schema::NodeType::End, crate::schema::NodeType::Retry) => {
            assert(false);
        },
        (crate::schema::NodeType::End, crate::schema::NodeType::StateVariable) => {
            assert(false);
        },
        (crate::schema::NodeType::End, crate::schema::NodeType::ApiEndpoint) => {
            assert(false);
        },
        (crate::schema::NodeType::End, crate::schema::NodeType::Condition) => {
            assert(false);
        },
        (crate::schema::NodeType::End, crate::schema::NodeType::End) => {},
        (crate::schema::NodeType::End, crate::schema::NodeType::DataIn) => {
            assert(false);
        },
        (crate::schema::NodeType::End, crate::schema::NodeType::DataOut) => {
            assert(false);
        },
        (crate::schema::NodeType::End, crate::schema::NodeType::KongLogging) => {
            assert(false);
        },
        (crate::schema::NodeType::End, crate::schema::NodeType::KongCache) => {
            assert(false);
        },
        (crate::schema::NodeType::End, crate::schema::NodeType::KongCors) => {
            assert(false);
        },
        (crate::schema::NodeType::End, crate::schema::NodeType::GraphqlGateway) => {
            assert(false);
        },
        (crate::schema::NodeType::End, crate::schema::NodeType::McpServer) => {
            assert(false);
        },
        (crate::schema::NodeType::DataIn, crate::schema::NodeType::Trigger) => {
            assert("data-in"@[0] == 'd');
            assert("trigger"@[0] == 't');
            assert(false);
        },
        (crate::schema::NodeType::DataIn, crate::schema::NodeType::Activity) => {
            assert(false);
        },
        (crate::schema::NodeType::DataIn, crate::schema::NodeType::Agent) => {
            assert(false);
        },
        (crate::schema::NodeType::DataIn, crate::schema::NodeType::Conditional) => {
            assert(false);
        },
        (crate::schema::NodeType::DataIn, crate::schema::NodeType::Loop) => {
            assert(false);
        },
        (crate::schema::NodeType::DataIn, crate::schema::NodeType::ChildWorkflow) => {
            assert(false);
        },
        (crate::schema::NodeType::DataIn, crate::schema::NodeType::Signal) => {
            assert(false);
        },
        (crate::schema::NodeType::DataIn, crate::schema::NodeType::Phase) => {
            assert(false);
        },
        (crate::schema::NodeType::DataIn, crate::schema::NodeType::Retry) => {
            assert(false);
        },
        (crate::schema::NodeType::DataIn, crate::schema::NodeType::StateVariable) => {
            assert(false);
        },
        (crate::schema::NodeType::DataIn, crate::schema::NodeType::ApiEndpoint) => {
            assert(false);
        },
        (crate::schema::NodeType::DataIn, crate::schema::NodeType::Condition) => {
            assert(false);
        },
        (crate::schema::NodeType::DataIn, crate::schema::NodeType::End) => {
            assert(false);
        },
        (crate::schema::NodeType::DataIn, crate::schema::NodeType::DataIn) => {},
        (crate::schema::NodeType::DataIn, crate::schema::NodeType::DataOut) => {
            assert(false);
        },
        (crate::schema::NodeType::DataIn, crate::schema::NodeType::KongLogging) => {
            assert(false);
        },
        (crate::schema::NodeType::DataIn, crate::schema::NodeType::KongCache) => {
            assert(false);
        },
        (crate::schema::NodeType::DataIn, crate::schema::NodeType::KongCors) => {
            assert(false);
        },
        (crate::schema::NodeType::DataIn, crate::schema::NodeType::GraphqlGateway) => {
            assert(false);
        },
        (crate::schema::NodeType::DataIn, crate::schema::NodeType::McpServer) => {
            assert(false);
        },
        (crate::schema::NodeType::DataOut, crate::schema::NodeType::Trigger) => {
            assert(false);
        },
        (crate::schema::NodeType::DataOut, crate::schema::NodeType::Activity) => {
            assert("data-out"@[0] == 'd');
            assert("activity"@[0] == 'a');
            assert(false);
        },
        (crate::schema::NodeType::DataOut, crate::schema::NodeType::Agent) => {
            assert(false);
        },
        (crate::schema::NodeType::DataOut, crate::schema::NodeType::Conditional) => {
            assert(false);
        },
        (crate::schema::NodeType::DataOut, crate::schema::NodeType::Loop) => {
            assert(false);
        },
        (crate::schema::NodeType::DataOut, crate::schema::NodeType::ChildWorkflow) => {
            assert(false);
        },
        (crate::schema::NodeType::DataOut, crate::schema::NodeType::Signal) => {
            assert(false);
        },
        (crate::schema::NodeType::DataOut, crate::schema::NodeType::Phase) => {
            assert(false);
        },
        (crate::schema::NodeType::DataOut, crate::schema::NodeType::Retry) => {
            assert(false);
        },
        (crate::schema::NodeType::DataOut, crate::schema::NodeType::StateVariable) => {
            assert(false);
        },
        (crate::schema::NodeType::DataOut, crate::schema::NodeType::ApiEndpoint) => {
            assert(false);
        },
        (crate::schema::NodeType::DataOut, crate::schema::NodeType::Condition) => {
            assert(false);
        },
        (crate::schema::NodeType::DataOut, crate::schema::NodeType::End) => {
            assert(false);
        },
        (crate::schema::NodeType::DataOut, crate::schema::NodeType::DataIn) => {
            assert(false);
        },
        (crate::schema::NodeType::DataOut, crate::schema::NodeType::DataOut) => {},
        (crate::schema::NodeType::DataOut, crate::schema::NodeType::KongLogging) => {
            assert(false);
        },
        (crate::schema::NodeType::DataOut, crate::schema::NodeType::KongCache) => {
            assert(false);
        },
        (crate::schema::NodeType::DataOut, crate::schema::NodeType::KongCors) => {
            assert(false);
        },
        (crate::schema::NodeType::DataOut, crate::schema::NodeType::GraphqlGateway) => {
            assert(false);
        },
        (crate::schema::NodeType::DataOut, crate::schema::NodeType::McpServer) => {
            assert(false);
        },
        (crate::schema::NodeType::KongLogging, crate::schema::NodeType::Trigger) => {
            assert(false);
        },
        (crate::schema::NodeType::KongLogging, crate::schema::NodeType::Activity) => {
            assert(false);
        },
        (crate::schema::NodeType::KongLogging, crate::schema::NodeType::Agent) => {
            assert(false);
        },
        (crate::schema::NodeType::KongLogging, crate::schema::NodeType::Conditional) => {
            assert(false);
        },
        (crate::schema::NodeType::KongLogging, crate::schema::NodeType::Loop) => {
            assert(false);
        },
        (crate::schema::NodeType::KongLogging, crate::schema::NodeType::ChildWorkflow) => {
            assert(false);
        },
        (crate::schema::NodeType::KongLogging, crate::schema::NodeType::Signal) => {
            assert(false);
        },
        (crate::schema::NodeType::KongLogging, crate::schema::NodeType::Phase) => {
            assert(false);
        },
        (crate::schema::NodeType::KongLogging, crate::schema::NodeType::Retry) => {
            assert(false);
        },
        (crate::schema::NodeType::KongLogging, crate::schema::NodeType::StateVariable) => {
            assert(false);
        },
        (crate::schema::NodeType::KongLogging, crate::schema::NodeType::ApiEndpoint) => {
            assert("kong-logging"@[0] == 'k');
            assert("api-endpoint"@[0] == 'a');
            assert(false);
        },
        (crate::schema::NodeType::KongLogging, crate::schema::NodeType::Condition) => {
            assert(false);
        },
        (crate::schema::NodeType::KongLogging, crate::schema::NodeType::End) => {
            assert(false);
        },
        (crate::schema::NodeType::KongLogging, crate::schema::NodeType::DataIn) => {
            assert(false);
        },
        (crate::schema::NodeType::KongLogging, crate::schema::NodeType::DataOut) => {
            assert(false);
        },
        (crate::schema::NodeType::KongLogging, crate::schema::NodeType::KongLogging) => {},
        (crate::schema::NodeType::KongLogging, crate::schema::NodeType::KongCache) => {
            assert(false);
        },
        (crate::schema::NodeType::KongLogging, crate::schema::NodeType::KongCors) => {
            assert(false);
        },
        (crate::schema::NodeType::KongLogging, crate::schema::NodeType::GraphqlGateway) => {
            assert(false);
        },
        (crate::schema::NodeType::KongLogging, crate::schema::NodeType::McpServer) => {
            assert(false);
        },
        (crate::schema::NodeType::KongCache, crate::schema::NodeType::Trigger) => {
            assert(false);
        },
        (crate::schema::NodeType::KongCache, crate::schema::NodeType::Activity) => {
            assert(false);
        },
        (crate::schema::NodeType::KongCache, crate::schema::NodeType::Agent) => {
            assert(false);
        },
        (crate::schema::NodeType::KongCache, crate::schema::NodeType::Conditional) => {
            assert(false);
        },
        (crate::schema::NodeType::KongCache, crate::schema::NodeType::Loop) => {
            assert(false);
        },
        (crate::schema::NodeType::KongCache, crate::schema::NodeType::ChildWorkflow) => {
            assert(false);
        },
        (crate::schema::NodeType::KongCache, crate::schema::NodeType::Signal) => {
            assert(false);
        },
        (crate::schema::NodeType::KongCache, crate::schema::NodeType::Phase) => {
            assert(false);
        },
        (crate::schema::NodeType::KongCache, crate::schema::NodeType::Retry) => {
            assert(false);
        },
        (crate::schema::NodeType::KongCache, crate::schema::NodeType::StateVariable) => {
            assert(false);
        },
        (crate::schema::NodeType::KongCache, crate::schema::NodeType::ApiEndpoint) => {
            assert(false);
        },
        (crate::schema::NodeType::KongCache, crate::schema::NodeType::Condition) => {
            assert(false);
        },
        (crate::schema::NodeType::KongCache, crate::schema::NodeType::End) => {
            assert(false);
        },
        (crate::schema::NodeType::KongCache, crate::schema::NodeType::DataIn) => {
            assert(false);
        },
        (crate::schema::NodeType::KongCache, crate::schema::NodeType::DataOut) => {
            assert(false);
        },
        (crate::schema::NodeType::KongCache, crate::schema::NodeType::KongLogging) => {
            assert(false);
        },
        (crate::schema::NodeType::KongCache, crate::schema::NodeType::KongCache) => {},
        (crate::schema::NodeType::KongCache, crate::schema::NodeType::KongCors) => {
            assert(false);
        },
        (crate::schema::NodeType::KongCache, crate::schema::NodeType::GraphqlGateway) => {
            assert(false);
        },
        (crate::schema::NodeType::KongCache, crate::schema::NodeType::McpServer) => {
            assert("kong-cache"@[0] == 'k');
            assert("mcp-server"@[0] == 'm');
            assert(false);
        },
        (crate::schema::NodeType::KongCors, crate::schema::NodeType::Trigger) => {
            assert(false);
        },
        (crate::schema::NodeType::KongCors, crate::schema::NodeType::Activity) => {
            assert(false);
        },
        (crate::schema::NodeType::KongCors, crate::schema::NodeType::Agent) => {
            assert(false);
        },
        (crate::schema::NodeType::KongCors, crate::schema::NodeType::Conditional) => {
            assert(false);
        },
        (crate::schema::NodeType::KongCors, crate::schema::NodeType::Loop) => {
            assert(false);
        },
        (crate::schema::NodeType::KongCors, crate::schema::NodeType::ChildWorkflow) => {
            assert(false);
        },
        (crate::schema::NodeType::KongCors, crate::schema::NodeType::Signal) => {
            assert(false);
        },
        (crate::schema::NodeType::KongCors, crate::schema::NodeType::Phase) => {
            assert(false);
        },
        (crate::schema::NodeType::KongCors, crate::schema::NodeType::Retry) => {
            assert(false);
        },
        (crate::schema::NodeType::KongCors, crate::schema::NodeType::StateVariable) => {
            assert(false);
        },
        (crate::schema::NodeType::KongCors, crate::schema::NodeType::ApiEndpoint) => {
            assert(false);
        },
        (crate::schema::NodeType::KongCors, crate::schema::NodeType::Condition) => {
            assert("kong-cors"@[0] == 'k');
            assert("condition"@[0] == 'c');
            assert(false);
        },
        (crate::schema::NodeType::KongCors, crate::schema::NodeType::End) => {
            assert(false);
        },
        (crate::schema::NodeType::KongCors, crate::schema::NodeType::DataIn) => {
            assert(false);
        },
        (crate::schema::NodeType::KongCors, crate::schema::NodeType::DataOut) => {
            assert(false);
        },
        (crate::schema::NodeType::KongCors, crate::schema::NodeType::KongLogging) => {
            assert(false);
        },
        (crate::schema::NodeType::KongCors, crate::schema::NodeType::KongCache) => {
            assert(false);
        },
        (crate::schema::NodeType::KongCors, crate::schema::NodeType::KongCors) => {},
        (crate::schema::NodeType::KongCors, crate::schema::NodeType::GraphqlGateway) => {
            assert(false);
        },
        (crate::schema::NodeType::KongCors, crate::schema::NodeType::McpServer) => {
            assert(false);
        },
        (crate::schema::NodeType::GraphqlGateway, crate::schema::NodeType::Trigger) => {
            assert(false);
        },
        (crate::schema::NodeType::GraphqlGateway, crate::schema::NodeType::Activity) => {
            assert(false);
        },
        (crate::schema::NodeType::GraphqlGateway, crate::schema::NodeType::Agent) => {
            assert(false);
        },
        (crate::schema::NodeType::GraphqlGateway, crate::schema::NodeType::Conditional) => {
            assert(false);
        },
        (crate::schema::NodeType::GraphqlGateway, crate::schema::NodeType::Loop) => {
            assert(false);
        },
        (crate::schema::NodeType::GraphqlGateway, crate::schema::NodeType::ChildWorkflow) => {
            assert(false);
        },
        (crate::schema::NodeType::GraphqlGateway, crate::schema::NodeType::Signal) => {
            assert(false);
        },
        (crate::schema::NodeType::GraphqlGateway, crate::schema::NodeType::Phase) => {
            assert(false);
        },
        (crate::schema::NodeType::GraphqlGateway, crate::schema::NodeType::Retry) => {
            assert(false);
        },
        (crate::schema::NodeType::GraphqlGateway, crate::schema::NodeType::StateVariable) => {
            assert(false);
        },
        (crate::schema::NodeType::GraphqlGateway, crate::schema::NodeType::ApiEndpoint) => {
            assert(false);
        },
        (crate::schema::NodeType::GraphqlGateway, crate::schema::NodeType::Condition) => {
            assert(false);
        },
        (crate::schema::NodeType::GraphqlGateway, crate::schema::NodeType::End) => {
            assert(false);
        },
        (crate::schema::NodeType::GraphqlGateway, crate::schema::NodeType::DataIn) => {
            assert(false);
        },
        (crate::schema::NodeType::GraphqlGateway, crate::schema::NodeType::DataOut) => {
            assert(false);
        },
        (crate::schema::NodeType::GraphqlGateway, crate::schema::NodeType::KongLogging) => {
            assert(false);
        },
        (crate::schema::NodeType::GraphqlGateway, crate::schema::NodeType::KongCache) => {
            assert(false);
        },
        (crate::schema::NodeType::GraphqlGateway, crate::schema::NodeType::KongCors) => {
            assert(false);
        },
        (crate::schema::NodeType::GraphqlGateway, crate::schema::NodeType::GraphqlGateway) => {},
        (crate::schema::NodeType::GraphqlGateway, crate::schema::NodeType::McpServer) => {
            assert(false);
        },
        (crate::schema::NodeType::McpServer, crate::schema::NodeType::Trigger) => {
            assert(false);
        },
        (crate::schema::NodeType::McpServer, crate::schema::NodeType::Activity) => {
            assert(false);
        },
        (crate::schema::NodeType::McpServer, crate::schema::NodeType::Agent) => {
            assert(false);
        },
        (crate::schema::NodeType::McpServer, crate::schema::NodeType::Conditional) => {
            assert(false);
        },
        (crate::schema::NodeType::McpServer, crate::schema::NodeType::Loop) => {
            assert(false);
        },
        (crate::schema::NodeType::McpServer, crate::schema::NodeType::ChildWorkflow) => {
            assert(false);
        },
        (crate::schema::NodeType::McpServer, crate::schema::NodeType::Signal) => {
            assert(false);
        },
        (crate::schema::NodeType::McpServer, crate::schema::NodeType::Phase) => {
            assert(false);
        },
        (crate::schema::NodeType::McpServer, crate::schema::NodeType::Retry) => {
            assert(false);
        },
        (crate::schema::NodeType::McpServer, crate::schema::NodeType::StateVariable) => {
            assert(false);
        },
        (crate::schema::NodeType::McpServer, crate::schema::NodeType::ApiEndpoint) => {
            assert(false);
        },
        (crate::schema::NodeType::McpServer, crate::schema::NodeType::Condition) => {
            assert(false);
        },
        (crate::schema::NodeType::McpServer, crate::schema::NodeType::End) => {
            assert(false);
        },
        (crate::schema::NodeType::McpServer, crate::schema::NodeType::DataIn) => {
            assert(false);
        },
        (crate::schema::NodeType::McpServer, crate::schema::NodeType::DataOut) => {
            assert(false);
        },
        (crate::schema::NodeType::McpServer, crate::schema::NodeType::KongLogging) => {
            assert(false);
        },
        (crate::schema::NodeType::McpServer, crate::schema::NodeType::KongCache) => {
            assert("mcp-server"@[0] == 'm');
            assert("kong-cache"@[0] == 'k');
            assert(false);
        },
        (crate::schema::NodeType::McpServer, crate::schema::NodeType::KongCors) => {
            assert(false);
        },
        (crate::schema::NodeType::McpServer, crate::schema::NodeType::GraphqlGateway) => {
            assert(false);
        },
        (crate::schema::NodeType::McpServer, crate::schema::NodeType::McpServer) => {},
    }
}

/// Distinct declared-variable types have distinct wire names.
pub proof fn lemma_variable_type_name_inj(
    a: crate::schema::VariableType,
    b: crate::schema::VariableType,
)
    requires
        crate::wire::spec_wire_variable_type_name(a) == crate::wire::spec_wire_variable_type_name(
            b,
        ),
    ensures
        a == b,
{
    reveal_strlit("string");
    reveal_strlit("number");
    reveal_strlit("boolean");
    reveal_strlit("object");
    reveal_strlit("array");
    reveal_strlit("any");
    assert("string"@.len() == 6);
    assert("number"@.len() == 6);
    assert("boolean"@.len() == 7);
    assert("object"@.len() == 6);
    assert("array"@.len() == 5);
    assert("any"@.len() == 3);
    match (a, b) {
        (crate::schema::VariableType::String, crate::schema::VariableType::String) => {},
        (crate::schema::VariableType::String, crate::schema::VariableType::Number) => {
            assert("string"@[0] == 's');
            assert("number"@[0] == 'n');
            assert(false);
        },
        (crate::schema::VariableType::String, crate::schema::VariableType::Boolean) => {
            assert(false);
        },
        (crate::schema::VariableType::String, crate::schema::VariableType::Object) => {
            assert("string"@[0] == 's');
            assert("object"@[0] == 'o');
            assert(false);
        },
        (crate::schema::VariableType::String, crate::schema::VariableType::Array) => {
            assert(false);
        },
        (crate::schema::VariableType::String, crate::schema::VariableType::Any) => {
            assert(false);
        },
        (crate::schema::VariableType::Number, crate::schema::VariableType::String) => {
            assert("number"@[0] == 'n');
            assert("string"@[0] == 's');
            assert(false);
        },
        (crate::schema::VariableType::Number, crate::schema::VariableType::Number) => {},
        (crate::schema::VariableType::Number, crate::schema::VariableType::Boolean) => {
            assert(false);
        },
        (crate::schema::VariableType::Number, crate::schema::VariableType::Object) => {
            assert("number"@[0] == 'n');
            assert("object"@[0] == 'o');
            assert(false);
        },
        (crate::schema::VariableType::Number, crate::schema::VariableType::Array) => {
            assert(false);
        },
        (crate::schema::VariableType::Number, crate::schema::VariableType::Any) => {
            assert(false);
        },
        (crate::schema::VariableType::Boolean, crate::schema::VariableType::String) => {
            assert(false);
        },
        (crate::schema::VariableType::Boolean, crate::schema::VariableType::Number) => {
            assert(false);
        },
        (crate::schema::VariableType::Boolean, crate::schema::VariableType::Boolean) => {},
        (crate::schema::VariableType::Boolean, crate::schema::VariableType::Object) => {
            assert(false);
        },
        (crate::schema::VariableType::Boolean, crate::schema::VariableType::Array) => {
            assert(false);
        },
        (crate::schema::VariableType::Boolean, crate::schema::VariableType::Any) => {
            assert(false);
        },
        (crate::schema::VariableType::Object, crate::schema::VariableType::String) => {
            assert("object"@[0] == 'o');
            assert("string"@[0] == 's');
            assert(false);
        },
        (crate::schema::VariableType::Object, crate::schema::VariableType::Number) => {
            assert("object"@[0] == 'o');
            assert("number"@[0] == 'n');
            assert(false);
        },
        (crate::schema::VariableType::Object, crate::schema::VariableType::Boolean) => {
            assert(false);
        },
        (crate::schema::VariableType::Object, crate::schema::VariableType::Object) => {},
        (crate::schema::VariableType::Object, crate::schema::VariableType::Array) => {
            assert(false);
        },
        (crate::schema::VariableType::Object, crate::schema::VariableType::Any) => {
            assert(false);
        },
        (crate::schema::VariableType::Array, crate::schema::VariableType::String) => {
            assert(false);
        },
        (crate::schema::VariableType::Array, crate::schema::VariableType::Number) => {
            assert(false);
        },
        (crate::schema::VariableType::Array, crate::schema::VariableType::Boolean) => {
            assert(false);
        },
        (crate::schema::VariableType::Array, crate::schema::VariableType::Object) => {
            assert(false);
        },
        (crate::schema::VariableType::Array, crate::schema::VariableType::Array) => {},
        (crate::schema::VariableType::Array, crate::schema::VariableType::Any) => {
            assert(false);
        },
        (crate::schema::VariableType::Any, crate::schema::VariableType::String) => {
            assert(false);
        },
        (crate::schema::VariableType::Any, crate::schema::VariableType::Number) => {
            assert(false);
        },
        (crate::schema::VariableType::Any, crate::schema::VariableType::Boolean) => {
            assert(false);
        },
        (crate::schema::VariableType::Any, crate::schema::VariableType::Object) => {
            assert(false);
        },
        (crate::schema::VariableType::Any, crate::schema::VariableType::Array) => {
            assert(false);
        },
        (crate::schema::VariableType::Any, crate::schema::VariableType::Any) => {},
    }
}

/// The settings agreement piece of `lemma_wire_round_trip`.
proof fn lemma_wire_settings_functional(
    v: JsonValue,
    a: crate::schema::WorkflowSettings,
    b: crate::schema::WorkflowSettings,
)
    requires
        crate::wire::spec_is_wire_settings(v),
        crate::wire::spec_wire_matches_settings(v, a),
        crate::wire::spec_wire_matches_settings(v, b),
    ensures
        crate::wire::opt_str_eqv(a.timeout, b.timeout),
        crate::wire::opt_str_eqv(a.task_queue, b.task_queue),
        crate::wire::opt_str_eqv(a.description, b.description),
        crate::wire::opt_str_eqv(a.version, b.version),
        crate::wire::opt_retry_eqv(a.retry_policy, b.retry_policy),
        a.long_running == b.long_running,
{
    match (a.retry_policy, b.retry_policy) {
        (Option::Some(x), Option::Some(y)) => {
            lemma_retry_strategy_name_inj(x.strategy, y.strategy);
        },
        _ => {},
    }
}

/// Whether two node configuration bags agree field by field.
pub open spec fn node_data_eqv(a: crate::schema::NodeData, b: crate::schema::NodeData) -> bool {
    &&& a.label@ == b.label@
    &&& crate::wire::opt_str_eqv(a.component_id, b.component_id)
    &&& crate::wire::opt_str_eqv(a.component_name, b.component_name)
    &&& crate::wire::opt_str_eqv(a.activity_name, b.activity_name)
    &&& crate::wire::opt_str_eqv(a.signal_name, b.signal_name)
    &&& crate::wire::opt_entries_eqv(a.config, b.config)
    &&& crate::wire::opt_entries_eqv(a.input, b.input)
    &&& crate::wire::opt_str_eqv(a.timeout, b.timeout)
    &&& crate::wire::opt_retry_eqv(a.retry_policy, b.retry_policy)
    &&& crate::wire::opt_str_eqv(a.condition, b.condition)
    &&& crate::wire::opt_str_eqv(a.workflow_id, b.workflow_id)
    &&& crate::wire::opt_str_eqv(a.variable_name, b.variable_name)
    &&& crate::wire::opt_str_eqv(a.variable_type, b.variable_type)
    &&& crate::wire::opt_value_eqv(a.default_value, b.default_value)
    &&& crate::wire::opt_str_eqv(a.trigger_type, b.trigger_type)
    &&& crate::wire::opt_str_eqv(a.schedule, b.schedule)
    &&& crate::wire::opt_str_eqv(a.result_mapping, b.result_mapping)
    &&& a.include_metadata == b.include_metadata
    &&& crate::wire::opt_str_eqv(a.log_message, b.log_message)
    &&& crate::wire::opt_str_eqv(a.log_level, b.log_level)
    &&& a.include_workflow_context == b.include_workflow_context
    &&& crate::wire::opt_str_eqv(a.variable_scope, b.variable_scope)
    &&& crate::wire::opt_str_eqv(a.persistence, b.persistence)
    &&& crate::wire::opt_str_eqv(a.ttl, b.ttl)
    &&& crate::wire::opt_strings_eqv(a.allowed_services, b.allowed_services)
    &&& a.read_only == b.read_only
    &&& a.throw_if_missing == b.throw_if_missing
    &&& a.create_if_missing == b.create_if_missing
    &&& a.merge == b.merge
    &&& crate::wire::opt_str_eqv(a.value_expression, b.value_expression)
    &&& crate::wire::opt_value_eqv(a.static_value, b.static_value)
    &&& crate::wire::opt_str_eqv(a.description, b.description)
}

/// Distinct retry strategies have distinct wire names.
proof fn lemma_retry_strategy_name_inj(
    a: crate::schema::RetryStrategy,
    b: crate::schema::RetryStrategy,
)
    requires
        crate::wire::spec_retry_strategy_name(a) == crate::wire::spec_retry_strategy_name(b),
    ensures
        a == b,
{
    reveal_strlit("keep-trying");
    reveal_strlit("fail-after-x");
    reveal_strlit("exponential-backoff");
    reveal_strlit("none");
    assert("keep-trying"@.len() == 11);
    assert("fail-after-x"@.len() == 12);
    assert("exponential-backoff"@.len() == 19);
    assert("none"@.len() == 4);
    match (a, b) {
        (crate::schema::RetryStrategy::KeepTrying, crate::schema::RetryStrategy::KeepTrying) => {
        },
        (crate::schema::RetryStrategy::FailAfterX, crate::schema::RetryStrategy::FailAfterX) => {
        },
        (
            crate::schema::RetryStrategy::ExponentialBackoff,
            crate::schema::RetryStrategy::ExponentialBackoff,
        ) => {
        },
        (crate::schema::RetryStrategy::NoRetries, crate::schema::RetryStrategy::NoRetries) => {
        },
        _ => {
            assert(crate::wire::spec_retry_strategy_name(a).len()
                != crate::wire::spec_retry_strategy_name(b).len());
            assert(false);
        },
    }
}

/// One wire value for a configuration bag denotes one bag: two bags
/// matching the same wire value agree field by field.
#[verifier::rlimit(100)]
#[verifier::spinoff_prover]
pub proof fn lemma_wire_data_functional(
    v: JsonValue,
    a: crate::schema::NodeData,
    b: crate::schema::NodeData,
)
    requires
        crate::wire::spec_wire_matches_data(v, a),
        crate::wire::spec_wire_matches_data(v, b),
    ensures
        node_data_eqv(a, b),
{
    match (a.config, b.config) {
        (Option::Some(x), Option::Some(y)) => {
            assert forall|q: int|
                0 <= q < x@.len() implies (#[trigger] x@[q]).0@ == y@[q].0@ && crate::json::json_eqv(
                x@[q].1,
                y@[q].1,
            ) by {
                assert(crate::json::json_eqv(x@[q].1, v->Obj_0@[5].1->Obj_0@[q].1));
                assert(crate::json::json_eqv(y@[q].1, v->Obj_0@[5].1->Obj_0@[q].1));
                crate::json::lemma_json_eqv_symm(y@[q].1, v->Obj_0@[5].1->Obj_0@[q].1);
                crate::json::lemma_json_eqv_trans(x@[q].1, v->Obj_0@[5].1->Obj_0@[q].1, y@[q].1);
            }
        },
        _ => {},
    }
    match (a.input, b.input) {
        (Option::Some(x), Option::Some(y)) => {
            assert forall|q: int|
                0 <= q < x@.len() implies (#[trigger] x@[q]).0@ == y@[q].0@ && crate::json::json_eqv(
                x@[q].1,
                y@[q].1,
            ) by {
                assert(crate::json::json_eqv(x@[q].1, v->Obj_0@[6].1->Obj_0@[q].1));
                assert(crate::json::json_eqv(y@[q].1, v->Obj_0@[6].1->Obj_0@[q].1));
                crate::json::lemma_json_eqv_symm(y@[q].1, v->Obj_0@[6].1->Obj_0@[q].1);
                crate::json::lemma_json_eqv_trans(x@[q].1, v->Obj_0@[6].1->Obj_0@[q].1, y@[q].1);
            }
        },
        _ => {},
    }
    match (a.default_value, b.default_value) {
        (Option::Some(x), Option::Some(y)) => {
            crate::json::lemma_json_eqv_symm(y, v->Obj_0@[13].1->Arr_0@[0]);
            crate::json::lemma_json_eqv_trans(x, v->Obj_0@[13].1->Arr_0@[0], y);
        },
        _ => {},
    }
    match (a.static_value, b.static_value) {
        (Option::Some(x), Option::Some(y)) => {
            crate::json::lemma_json_eqv_symm(y, v->Obj_0@[30].1->Arr_0@[0]);
            crate::json::lemma_json_eqv_trans(x, v->Obj_0@[30].1->Arr_0@[0], y);
        },
        _ => {},
    }
    match (a.retry_policy, b.retry_policy) {
        (Option::Some(x), Option::Some(y)) => {
            lemma_retry_strategy_name_inj(x.strategy, y.strategy);
        },
        _ => {},
    }
}

} // verus!
