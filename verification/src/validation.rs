//! The graph validator.
//!
//! `validate` runs every pass to completion and accumulates one result: a
//! single call surfaces every problem.  Each pass is a small check function
//! whose contract says exactly which findings it produces and when.

use crate::errors::{ValidationError, ValidationResult, ValidationWarning};
use crate::graph::{contains_id, detect_cycle, in_ids, reachable_ids, spec_has_cycle,
    spec_is_cycle, spec_reachable};
use crate::schema::{spec_has_edge, spec_has_incident_edge, spec_has_node, spec_trigger_count,
    spec_end_count, WorkflowDefinition};
use crate::text::str_eq;
use vstd::prelude::*;

verus! {

/// Whether some error in the list satisfies `f`.
pub open spec fn errs_any(s: Seq<ValidationError>, f: spec_fn(ValidationError) -> bool) -> bool {
    exists|k: int| 0 <= k < s.len() && f(#[trigger] s[k])
}

/// An error satisfying `f` is in a concatenation exactly when it is in one
/// of the halves.
pub proof fn lemma_errs_any_concat(
    s1: Seq<ValidationError>,
    s2: Seq<ValidationError>,
    f: spec_fn(ValidationError) -> bool,
)
    ensures
        errs_any(s1 + s2, f) <==> (errs_any(s1, f) || errs_any(s2, f)),
{
    if errs_any(s1 + s2, f) {
        let k = choose|k: int| 0 <= k < (s1 + s2).len() && f((s1 + s2)[k]);
        if k < s1.len() {
            assert((s1 + s2)[k] == s1[k]);
            assert(errs_any(s1, f));
        } else {
            assert((s1 + s2)[k] == s2[k - s1.len()]);
            assert(errs_any(s2, f));
        }
    }
    if errs_any(s1, f) {
        let k = choose|k: int| 0 <= k < s1.len() && f(s1[k]);
        assert((s1 + s2)[k] == s1[k]);
        assert(errs_any(s1 + s2, f));
    }
    if errs_any(s2, f) {
        let k = choose|k: int| 0 <= k < s2.len() && f(s2[k]);
        assert((s1 + s2)[s1.len() + k] == s2[k]);
        assert(errs_any(s1 + s2, f));
    }
}

/// The predicate of a `NoStartNode` error.
pub open spec fn pred_no_start() -> spec_fn(ValidationError) -> bool {
    |e: ValidationError| e is NoStartNode
}

/// The predicate of an `EmptyWorkflow` error.
pub open spec fn pred_empty_workflow() -> spec_fn(ValidationError) -> bool {
    |e: ValidationError| e is EmptyWorkflow
}

/// The predicate of a `NoEndNode` error.
pub open spec fn pred_no_end() -> spec_fn(ValidationError) -> bool {
    |e: ValidationError| e is NoEndNode
}

/// The predicate of a `MultipleStartNodes` error with exactly this payload.
pub open spec fn pred_multi_start_with(ids: Seq<Seq<char>>) -> spec_fn(ValidationError) -> bool {
    |e: ValidationError| e matches ValidationError::MultipleStartNodes(v) && v.deep_view() == ids
}

/// The predicate of any `MultipleStartNodes` error.
pub open spec fn pred_multi_start() -> spec_fn(ValidationError) -> bool {
    |e: ValidationError| e is MultipleStartNodes
}

/// The predicate of a `DuplicateNodeId` error for this id.
pub open spec fn pred_dup_node(id: Seq<char>) -> spec_fn(ValidationError) -> bool {
    |e: ValidationError| e matches ValidationError::DuplicateNodeId(x) && x@ == id
}

/// The predicate of a `DuplicateEdgeId` error for this id.
pub open spec fn pred_dup_edge(id: Seq<char>) -> spec_fn(ValidationError) -> bool {
    |e: ValidationError| e matches ValidationError::DuplicateEdgeId(x) && x@ == id
}

/// The predicate of an `InvalidEdgeSource` error for this id.
pub open spec fn pred_invalid_source(id: Seq<char>) -> spec_fn(ValidationError) -> bool {
    |e: ValidationError| e matches ValidationError::InvalidEdgeSource(x) && x@ == id
}

/// The predicate of an `InvalidEdgeTarget` error for this id.
pub open spec fn pred_invalid_target(id: Seq<char>) -> spec_fn(ValidationError) -> bool {
    |e: ValidationError| e matches ValidationError::InvalidEdgeTarget(x) && x@ == id
}

/// The predicate of an `OrphanNode` error for this id.
pub open spec fn pred_orphan(id: Seq<char>) -> spec_fn(ValidationError) -> bool {
    |e: ValidationError| e matches ValidationError::OrphanNode(x) && x@ == id
}

/// The predicate of a `TriggerHasIncomingEdges` error for this id.
pub open spec fn pred_trigger_incoming(id: Seq<char>) -> spec_fn(ValidationError) -> bool {
    |e: ValidationError|
        e matches ValidationError::TriggerHasIncomingEdges { node_id } && node_id@ == id
}

/// The predicate of an `UnreachableNode` error for this id.
pub open spec fn pred_unreachable(id: Seq<char>) -> spec_fn(ValidationError) -> bool {
    |e: ValidationError| e matches ValidationError::UnreachableNode { node_id } && node_id@ == id
}

/// The predicate of a `CycleDetected` error carrying a real cycle of `w`.
pub open spec fn pred_cycle_of(w: WorkflowDefinition) -> spec_fn(ValidationError) -> bool {
    |e: ValidationError|
        e matches ValidationError::CycleDetected(c) && spec_is_cycle(w, c.deep_view())
}

/// The predicate of any `CycleDetected` error.
pub open spec fn pred_any_cycle() -> spec_fn(ValidationError) -> bool {
    |e: ValidationError| e is CycleDetected
}

/// The list holds a `NoStartNode` error.
pub open spec fn has_no_start(s: Seq<ValidationError>) -> bool {
    errs_any(s, pred_no_start())
}

/// The list holds an `EmptyWorkflow` error.
pub open spec fn has_empty_workflow(s: Seq<ValidationError>) -> bool {
    errs_any(s, pred_empty_workflow())
}

/// The list holds a `NoEndNode` error.
pub open spec fn has_no_end(s: Seq<ValidationError>) -> bool {
    errs_any(s, pred_no_end())
}

/// The list holds a `MultipleStartNodes` error whose payload is exactly
/// `ids`.
pub open spec fn has_multi_start_with(s: Seq<ValidationError>, ids: Seq<Seq<char>>) -> bool {
    errs_any(s, pred_multi_start_with(ids))
}

/// The list holds a `MultipleStartNodes` error.
pub open spec fn has_multi_start(s: Seq<ValidationError>) -> bool {
    errs_any(s, pred_multi_start())
}

/// The list holds a `DuplicateNodeId` error for this id.
pub open spec fn has_dup_node(s: Seq<ValidationError>, id: Seq<char>) -> bool {
    errs_any(s, pred_dup_node(id))
}

/// The list holds a `DuplicateEdgeId` error for this id.
pub open spec fn has_dup_edge(s: Seq<ValidationError>, id: Seq<char>) -> bool {
    errs_any(s, pred_dup_edge(id))
}

/// The list holds an `InvalidEdgeSource` error for this id.
pub open spec fn has_invalid_source(s: Seq<ValidationError>, id: Seq<char>) -> bool {
    errs_any(s, pred_invalid_source(id))
}

/// The list holds an `InvalidEdgeTarget` error for this id.
pub open spec fn has_invalid_target(s: Seq<ValidationError>, id: Seq<char>) -> bool {
    errs_any(s, pred_invalid_target(id))
}

/// The list holds an `OrphanNode` error for this id.
pub open spec fn has_orphan(s: Seq<ValidationError>, id: Seq<char>) -> bool {
    errs_any(s, pred_orphan(id))
}

/// The list holds a `TriggerHasIncomingEdges` error for this id.
pub open spec fn has_trigger_incoming(s: Seq<ValidationError>, id: Seq<char>) -> bool {
    errs_any(s, pred_trigger_incoming(id))
}

/// The list holds an `UnreachableNode` error for this id.
pub open spec fn has_unreachable(s: Seq<ValidationError>, id: Seq<char>) -> bool {
    errs_any(s, pred_unreachable(id))
}

/// The list holds a `CycleDetected` error whose payload is a real cycle of
/// the graph.
pub open spec fn has_cycle_err(w: WorkflowDefinition, s: Seq<ValidationError>) -> bool {
    errs_any(s, pred_cycle_of(w))
}

/// The list holds some `CycleDetected` error.
pub open spec fn has_any_cycle_err(s: Seq<ValidationError>) -> bool {
    errs_any(s, pred_any_cycle())
}

/// Two different positions in the node list carry this id.
pub open spec fn spec_dup_node_id(w: WorkflowDefinition, id: Seq<char>) -> bool {
    exists|i: int, j: int|
        0 <= i < j < w.nodes@.len() && (#[trigger] w.nodes@[i]).id@ == id && (
        #[trigger] w.nodes@[j]).id@ == id
}

/// Two different positions in the edge list carry this id.
pub open spec fn spec_dup_edge_id(w: WorkflowDefinition, id: Seq<char>) -> bool {
    exists|i: int, j: int|
        0 <= i < j < w.edges@.len() && (#[trigger] w.edges@[i]).id@ == id && (
        #[trigger] w.edges@[j]).id@ == id
}

/// The ids of the trigger nodes, in declaration order.
pub open spec fn spec_trigger_ids(w: WorkflowDefinition) -> Seq<Seq<char>> {
    w.nodes@.filter(|n: crate::schema::WorkflowNode| n.node_type is Trigger).map_values(
        |n: crate::schema::WorkflowNode| n.id@,
    )
}

/// A node with this id is an orphan: it touches no edge, in a graph of more
/// than one node.
pub open spec fn spec_orphan(w: WorkflowDefinition, id: Seq<char>) -> bool {
    spec_has_node(w, id) && !spec_has_incident_edge(w, id) && w.nodes@.len() > 1
}

/// A trigger node with this id has an incoming edge.
pub open spec fn spec_trigger_incoming(w: WorkflowDefinition, id: Seq<char>) -> bool {
    (exists|i: int|
        0 <= i < w.nodes@.len() && (#[trigger] w.nodes@[i]).id@ == id && w.nodes@[i].node_type
            is Trigger) && (exists|e: int|
        0 <= e < w.edges@.len() && (#[trigger] w.edges@[e]).target@ == id)
}

/// Some edge's source is this id, and no node carries it.
pub open spec fn spec_bad_source(w: WorkflowDefinition, id: Seq<char>) -> bool {
    (exists|e: int| 0 <= e < w.edges@.len() && (#[trigger] w.edges@[e]).source@ == id)
        && !spec_has_node(w, id)
}

/// Some edge's target is this id, and no node carries it.
pub open spec fn spec_bad_target(w: WorkflowDefinition, id: Seq<char>) -> bool {
    (exists|e: int| 0 <= e < w.edges@.len() && (#[trigger] w.edges@[e]).target@ == id)
        && !spec_has_node(w, id)
}

/// Whether a node with this id exists in the graph.
fn has_node(w: &WorkflowDefinition, id: &str) -> (r: bool)
    ensures
        r == spec_has_node(*w, id@),
{
    let mut i: usize = 0;
    while i < w.nodes.len()
        invariant
            i <= w.nodes@.len(),
            forall|k: int| 0 <= k < i ==> (#[trigger] w.nodes@[k]).id@ != id@,
        decreases w.nodes@.len() - i,
    {
        if str_eq(w.nodes[i].id.as_str(), id) {
            return true;
        }
        i = i + 1;
    }
    false
}

/// Pushing an error changes what the list holds in exactly one way.
pub proof fn lemma_errs_any_push(
    s: Seq<ValidationError>,
    y: ValidationError,
    f: spec_fn(ValidationError) -> bool,
)
    ensures
        errs_any(s.push(y), f) <==> (errs_any(s, f) || f(y)),
{
    if errs_any(s.push(y), f) {
        let k = choose|k: int| 0 <= k < s.push(y).len() && f(s.push(y)[k]);
        if k < s.len() {
            assert(s.push(y)[k] == s[k]);
            assert(errs_any(s, f));
        } else {
            assert(s.push(y)[k] == y);
        }
    }
    if errs_any(s, f) {
        let k = choose|k: int| 0 <= k < s.len() && f(s[k]);
        assert(s.push(y)[k] == s[k]);
        assert(errs_any(s.push(y), f));
    }
    if f(y) {
        assert(s.push(y)[s.len() as int] == y);
        assert(errs_any(s.push(y), f));
    }
}

/// A node at a position before `b` carries this id.
pub open spec fn spec_node_id_before(w: WorkflowDefinition, b: int, id: Seq<char>) -> bool {
    exists|i: int| 0 <= i < b && (#[trigger] w.nodes@[i]).id@ == id
}

/// An edge at a position before `b` carries this id.
pub open spec fn spec_edge_id_before(w: WorkflowDefinition, b: int, id: Seq<char>) -> bool {
    exists|i: int| 0 <= i < b && (#[trigger] w.edges@[i]).id@ == id
}

/// Whether a node before position `b` carries this id.
#[verifier::loop_isolation(false)]
fn node_id_before(w: &WorkflowDefinition, b: usize, id: &str) -> (r: bool)
    requires
        b <= w.nodes@.len(),
    ensures
        r == spec_node_id_before(*w, b as int, id@),
{
    let mut i: usize = 0;
    while i < b
        invariant
            i <= b,
            forall|k: int| 0 <= k < i ==> (#[trigger] w.nodes@[k]).id@ != id@,
        decreases b - i,
    {
        if str_eq(w.nodes[i].id.as_str(), id) {
            return true;
        }
        i = i + 1;
    }
    false
}

/// Whether an edge before position `b` carries this id.
#[verifier::loop_isolation(false)]
fn edge_id_before(w: &WorkflowDefinition, b: usize, id: &str) -> (r: bool)
    requires
        b <= w.edges@.len(),
    ensures
        r == spec_edge_id_before(*w, b as int, id@),
{
    let mut i: usize = 0;
    while i < b
        invariant
            i <= b,
            forall|k: int| 0 <= k < i ==> (#[trigger] w.edges@[k]).id@ != id@,
        decreases b - i,
    {
        if str_eq(w.edges[i].id.as_str(), id) {
            return true;
        }
        i = i + 1;
    }
    false
}

/// Repeated node ids occurring before position `b`.
pub open spec fn spec_dup_node_before(w: WorkflowDefinition, b: int, id: Seq<char>) -> bool {
    exists|i: int, j: int|
        0 <= i < j < b && (#[trigger] w.nodes@[i]).id@ == id && (#[trigger] w.nodes@[j]).id@ == id
}

/// Repeated edge ids occurring before position `b`.
pub open spec fn spec_dup_edge_before(w: WorkflowDefinition, b: int, id: Seq<char>) -> bool {
    exists|i: int, j: int|
        0 <= i < j < b && (#[trigger] w.edges@[i]).id@ == id && (#[trigger] w.edges@[j]).id@ == id
}

proof fn lemma_dup_node_weaken(w: WorkflowDefinition, b1: int, b2: int, id: Seq<char>)
    requires
        spec_dup_node_before(w, b1, id),
        b1 <= b2,
    ensures
        spec_dup_node_before(w, b2, id),
{
    let (i1, j1): (int, int) = choose|i1: int, j1: int|
        0 <= i1 < j1 < b1 && (#[trigger] w.nodes@[i1]).id@ == id && (#[trigger] w.nodes@[j1]).id@
            == id;
    assert(0 <= i1 < j1 < b2 && w.nodes@[i1].id@ == id && w.nodes@[j1].id@ == id);
}

proof fn lemma_dup_edge_weaken(w: WorkflowDefinition, b1: int, b2: int, id: Seq<char>)
    requires
        spec_dup_edge_before(w, b1, id),
        b1 <= b2,
    ensures
        spec_dup_edge_before(w, b2, id),
{
    let (i1, j1): (int, int) = choose|i1: int, j1: int|
        0 <= i1 < j1 < b1 && (#[trigger] w.edges@[i1]).id@ == id && (#[trigger] w.edges@[j1]).id@
            == id;
    assert(0 <= i1 < j1 < b2 && w.edges@[i1].id@ == id && w.edges@[j1].id@ == id);
}

/// One `DuplicateNodeId` error for every later occurrence of an already
/// used node id.
#[verifier::loop_isolation(false)]
fn check_dup_nodes(w: &WorkflowDefinition) -> (r: Vec<ValidationError>)
    ensures
        forall|id: Seq<char>| has_dup_node(r@, id) <==> spec_dup_node_id(*w, id),
        forall|k: int| 0 <= k < r@.len() ==> (#[trigger] r@[k]) is DuplicateNodeId,
{
    let mut out: Vec<ValidationError> = Vec::new();
    let mut j: usize = 0;
    while j < w.nodes.len()
        invariant
            j <= w.nodes@.len(),
            forall|id: Seq<char>| has_dup_node(out@, id) <==> spec_dup_node_before(*w, j as int, id),
            forall|k: int| 0 <= k < out@.len() ==> (#[trigger] out@[k]) is DuplicateNodeId,
        decreases w.nodes@.len() - j,
    {
        let idj = &w.nodes[j].id;
        if node_id_before(w, j, idj.as_str()) {
            let ghost opre = out@;
            let y = ValidationError::DuplicateNodeId(idj.clone());
            out.push(y);
            proof {
                assert forall|id: Seq<char>|
                    has_dup_node(out@, id) <==> spec_dup_node_before(*w, j + 1, id) by {
                    let f = pred_dup_node(id);
                    lemma_errs_any_push(opre, y, f);
                    if errs_any(opre, f) {
                        lemma_dup_node_weaken(*w, j as int, j + 1, id);
                    }
                    if f(y) {
                        assert(id == idj@);
                        let i1 = choose|i1: int|
                            0 <= i1 < j && (#[trigger] w.nodes@[i1]).id@ == idj@;
                        assert(0 <= i1 < j < j + 1 && w.nodes@[i1].id@ == id && (#[trigger] w.nodes@[
                            j as int]).id@ == id);
                    }
                    if spec_dup_node_before(*w, j + 1, id) && !spec_dup_node_before(
                        *w,
                        j as int,
                        id,
                    ) {
                        let (i1, j1): (int, int) = choose|i1: int, j1: int|
                            0 <= i1 < j1 < j + 1 && (#[trigger] w.nodes@[i1]).id@ == id && (
                            #[trigger] w.nodes@[j1]).id@ == id;
                        assert(j1 == j);
                        assert(id == idj@);
                        assert(f(y));
                    }
                }
            }
        } else {
            proof {
                assert forall|id: Seq<char>|
                    has_dup_node(out@, id) <==> spec_dup_node_before(*w, j + 1, id) by {
                    if spec_dup_node_before(*w, j as int, id) {
                        lemma_dup_node_weaken(*w, j as int, j + 1, id);
                    }
                    if spec_dup_node_before(*w, j + 1, id) && !spec_dup_node_before(
                        *w,
                        j as int,
                        id,
                    ) {
                        let (i1, j1): (int, int) = choose|i1: int, j1: int|
                            0 <= i1 < j1 < j + 1 && (#[trigger] w.nodes@[i1]).id@ == id && (
                            #[trigger] w.nodes@[j1]).id@ == id;
                        assert(j1 == j);
                        assert(spec_node_id_before(*w, j as int, id));
                        assert(false);
                    }
                }
            }
        }
        j = j + 1;
    }
    out
}

/// One `DuplicateEdgeId` error for every later occurrence of an already
/// used edge id.
#[verifier::loop_isolation(false)]
fn check_dup_edges(w: &WorkflowDefinition) -> (r: Vec<ValidationError>)
    ensures
        forall|id: Seq<char>| has_dup_edge(r@, id) <==> spec_dup_edge_id(*w, id),
        forall|k: int| 0 <= k < r@.len() ==> (#[trigger] r@[k]) is DuplicateEdgeId,
{
    let mut out: Vec<ValidationError> = Vec::new();
    let mut j: usize = 0;
    while j < w.edges.len()
        invariant
            j <= w.edges@.len(),
            forall|id: Seq<char>| has_dup_edge(out@, id) <==> spec_dup_edge_before(*w, j as int, id),
            forall|k: int| 0 <= k < out@.len() ==> (#[trigger] out@[k]) is DuplicateEdgeId,
        decreases w.edges@.len() - j,
    {
        let idj = &w.edges[j].id;
        if edge_id_before(w, j, idj.as_str()) {
            let ghost opre = out@;
            let y = ValidationError::DuplicateEdgeId(idj.clone());
            out.push(y);
            proof {
                assert forall|id: Seq<char>|
                    has_dup_edge(out@, id) <==> spec_dup_edge_before(*w, j + 1, id) by {
                    let f = pred_dup_edge(id);
                    lemma_errs_any_push(opre, y, f);
                    if errs_any(opre, f) {
                        lemma_dup_edge_weaken(*w, j as int, j + 1, id);
                    }
                    if f(y) {
                        assert(id == idj@);
                        let i1 = choose|i1: int|
                            0 <= i1 < j && (#[trigger] w.edges@[i1]).id@ == idj@;
                        assert(0 <= i1 < j < j + 1 && w.edges@[i1].id@ == id && (#[trigger] w.edges@[
                            j as int]).id@ == id);
                    }
                    if spec_dup_edge_before(*w, j + 1, id) && !spec_dup_edge_before(
                        *w,
                        j as int,
                        id,
                    ) {
                        let (i1, j1): (int, int) = choose|i1: int, j1: int|
                            0 <= i1 < j1 < j + 1 && (#[trigger] w.edges@[i1]).id@ == id && (
                            #[trigger] w.edges@[j1]).id@ == id;
                        assert(j1 == j);
                        assert(id == idj@);
                        assert(f(y));
                    }
                }
            }
        } else {
            proof {
                assert forall|id: Seq<char>|
                    has_dup_edge(out@, id) <==> spec_dup_edge_before(*w, j + 1, id) by {
                    if spec_dup_edge_before(*w, j as int, id) {
                        lemma_dup_edge_weaken(*w, j as int, j + 1, id);
                    }
                    if spec_dup_edge_before(*w, j + 1, id) && !spec_dup_edge_before(
                        *w,
                        j as int,
                        id,
                    ) {
                        let (i1, j1): (int, int) = choose|i1: int, j1: int|
                            0 <= i1 < j1 < j + 1 && (#[trigger] w.edges@[i1]).id@ == id && (
                            #[trigger] w.edges@[j1]).id@ == id;
                        assert(j1 == j);
                        assert(spec_edge_id_before(*w, j as int, id));
                        assert(false);
                    }
                }
            }
        }
        j = j + 1;
    }
    out
}

/// The trigger ids among the first `b` nodes.
pub open spec fn spec_trigger_ids_upto(w: WorkflowDefinition, b: int) -> Seq<Seq<char>> {
    w.nodes@.take(b).filter(|n: crate::schema::WorkflowNode| n.node_type is Trigger).map_values(
        |n: crate::schema::WorkflowNode| n.id@,
    )
}

/// The number of end nodes among the first `b` nodes.
pub open spec fn spec_end_count_upto(w: WorkflowDefinition, b: int) -> nat {
    w.nodes@.take(b).filter(|n: crate::schema::WorkflowNode| n.node_type is End).len()
}

proof fn lemma_trigger_ids_step(w: WorkflowDefinition, j: int)
    requires
        0 <= j < w.nodes@.len(),
    ensures
        w.nodes@[j].node_type is Trigger ==> spec_trigger_ids_upto(w, j + 1)
            == spec_trigger_ids_upto(w, j).push(w.nodes@[j].id@),
        !(w.nodes@[j].node_type is Trigger) ==> spec_trigger_ids_upto(w, j + 1)
            == spec_trigger_ids_upto(w, j),
{
    reveal(Seq::filter);
    let f = |n: crate::schema::WorkflowNode| n.node_type is Trigger;
    let g = |n: crate::schema::WorkflowNode| n.id@;
    let pre = w.nodes@.take(j);
    let now = w.nodes@.take(j + 1);
    assert(now.drop_last() =~= pre);
    assert(now.last() == w.nodes@[j]);
    if f(w.nodes@[j]) {
        assert(now.filter(f) == pre.filter(f).push(w.nodes@[j]));
        assert(pre.filter(f).push(w.nodes@[j]).map_values(g) =~= pre.filter(f).map_values(g).push(
            w.nodes@[j].id@,
        ));
    } else {
        assert(now.filter(f) == pre.filter(f));
    }
}

proof fn lemma_end_count_step(w: WorkflowDefinition, j: int)
    requires
        0 <= j < w.nodes@.len(),
    ensures
        w.nodes@[j].node_type is End ==> spec_end_count_upto(w, j + 1) == spec_end_count_upto(w, j)
            + 1,
        !(w.nodes@[j].node_type is End) ==> spec_end_count_upto(w, j + 1) == spec_end_count_upto(
            w,
            j,
        ),
{
    reveal(Seq::filter);
    let f = |n: crate::schema::WorkflowNode| n.node_type is End;
    let pre = w.nodes@.take(j);
    let now = w.nodes@.take(j + 1);
    assert(now.drop_last() =~= pre);
    assert(now.last() == w.nodes@[j]);
}

/// The trigger node ids, in declaration order.
#[verifier::loop_isolation(false)]
fn collect_trigger_ids(w: &WorkflowDefinition) -> (r: Vec<String>)
    ensures
        r.deep_view() == spec_trigger_ids(*w),
{
    let mut out: Vec<String> = Vec::new();
    let mut j: usize = 0;
    while j < w.nodes.len()
        invariant
            j <= w.nodes@.len(),
            out.deep_view() == spec_trigger_ids_upto(*w, j as int),
        decreases w.nodes@.len() - j,
    {
        let ghost opre = out.deep_view();
        if w.nodes[j].node_type.is_trigger() {
            out.push(w.nodes[j].id.clone());
            proof {
                assert(out.deep_view() =~= opre.push(w.nodes@[j as int].id@));
            }
        }
        proof {
            lemma_trigger_ids_step(*w, j as int);
        }
        j = j + 1;
    }
    proof {
        assert(w.nodes@.take(w.nodes@.len() as int) =~= w.nodes@);
        assert(spec_trigger_ids_upto(*w, w.nodes@.len() as int) == spec_trigger_ids(*w));
    }
    out
}

/// An `EmptyWorkflow` error when the graph has no nodes at all.
fn check_empty(w: &WorkflowDefinition) -> (r: Vec<ValidationError>)
    ensures
        has_empty_workflow(r@) <==> w.nodes@.len() == 0,
        forall|k: int| 0 <= k < r@.len() ==> (#[trigger] r@[k]) is EmptyWorkflow,
{
    let mut out: Vec<ValidationError> = Vec::new();
    if w.nodes.len() == 0 {
        out.push(ValidationError::EmptyWorkflow);
        proof {
            assert(out@[0] is EmptyWorkflow);
            assert(pred_empty_workflow()(out@[0]));
        }
    }
    proof {
        if w.nodes@.len() != 0 {
            assert(!errs_any(out@, pred_empty_workflow()));
        }
    }
    out
}

/// A `NoStartNode` error when no trigger exists; a `MultipleStartNodes`
/// error listing every trigger when more than one exists.
fn check_trigger_cardinality(w: &WorkflowDefinition) -> (r: Vec<ValidationError>)
    ensures
        has_no_start(r@) <==> spec_trigger_count(*w) == 0,
        spec_trigger_count(*w) >= 2 ==> has_multi_start_with(r@, spec_trigger_ids(*w)),
        has_multi_start(r@) ==> spec_trigger_count(*w) >= 2,
        forall|k: int|
            0 <= k < r@.len() ==> (#[trigger] r@[k]) is NoStartNode || r@[k] is MultipleStartNodes,
{
    let triggers = collect_trigger_ids(w);
    proof {
        assert(spec_trigger_ids(*w).len() == spec_trigger_count(*w));
        assert(triggers.deep_view().len() == triggers@.len());
    }
    let mut out: Vec<ValidationError> = Vec::new();
    if triggers.len() == 0 {
        out.push(ValidationError::NoStartNode);
        proof {
            assert(pred_no_start()(out@[0]));
            assert(has_no_start(out@));
        }
    } else if triggers.len() > 1 {
        let ghost tv = triggers.deep_view();
        out.push(ValidationError::MultipleStartNodes(triggers));
        proof {
            assert(pred_multi_start_with(spec_trigger_ids(*w))(out@[0]));
            assert(has_multi_start_with(out@, spec_trigger_ids(*w)));
        }
    }
    out
}

/// A `NoEndNode` error when the graph has no end node.
#[verifier::loop_isolation(false)]
fn check_no_end(w: &WorkflowDefinition) -> (r: Vec<ValidationError>)
    ensures
        has_no_end(r@) <==> spec_end_count(*w) == 0,
        forall|k: int| 0 <= k < r@.len() ==> (#[trigger] r@[k]) is NoEndNode,
{
    let mut count: usize = 0;
    let mut j: usize = 0;
    while j < w.nodes.len()
        invariant
            j <= w.nodes@.len(),
            count == spec_end_count_upto(*w, j as int),
            count <= j,
        decreases w.nodes@.len() - j,
    {
        proof {
            lemma_end_count_step(*w, j as int);
        }
        if w.nodes[j].node_type.is_end() {
            count = count + 1;
        }
        j = j + 1;
    }
    proof {
        assert(w.nodes@.take(w.nodes@.len() as int) =~= w.nodes@);
        assert(spec_end_count_upto(*w, w.nodes@.len() as int) == spec_end_count(*w));
    }
    let mut out: Vec<ValidationError> = Vec::new();
    if count == 0 {
        out.push(ValidationError::NoEndNode);
        proof {
            assert(pred_no_end()(out@[0]));
            assert(has_no_end(out@));
        }
    }
    out
}

/// Whether any edge points at this id.
fn edge_targets_id(w: &WorkflowDefinition, id: &str) -> (r: bool)
    ensures
        r == exists|e: int| 0 <= e < w.edges@.len() && (#[trigger] w.edges@[e]).target@ == id@,
{
    let mut i: usize = 0;
    while i < w.edges.len()
        invariant
            i <= w.edges@.len(),
            forall|k: int| 0 <= k < i ==> (#[trigger] w.edges@[k]).target@ != id@,
        decreases w.edges@.len() - i,
    {
        if str_eq(w.edges[i].target.as_str(), id) {
            return true;
        }
        i = i + 1;
    }
    false
}

/// Whether any edge touches this id, as source or target.
fn has_incident_edge(w: &WorkflowDefinition, id: &str) -> (r: bool)
    ensures
        r == spec_has_incident_edge(*w, id@),
{
    let mut i: usize = 0;
    while i < w.edges.len()
        invariant
            i <= w.edges@.len(),
            forall|k: int|
                0 <= k < i ==> (#[trigger] w.edges@[k]).source@ != id@ && w.edges@[k].target@
                    != id@,
        decreases w.edges@.len() - i,
    {
        if str_eq(w.edges[i].source.as_str(), id) || str_eq(w.edges[i].target.as_str(), id) {
            return true;
        }
        i = i + 1;
    }
    false
}

/// A trigger with this id before position `b` has an incoming edge.
pub open spec fn spec_trigger_incoming_before(w: WorkflowDefinition, b: int, id: Seq<char>) -> bool {
    (exists|i: int|
        0 <= i < b && (#[trigger] w.nodes@[i]).id@ == id && w.nodes@[i].node_type is Trigger) && (
    exists|e: int| 0 <= e < w.edges@.len() && (#[trigger] w.edges@[e]).target@ == id)
}

/// A `TriggerHasIncomingEdges` error for every trigger node with an
/// incoming edge.
#[verifier::loop_isolation(false)]
fn check_trigger_incoming(w: &WorkflowDefinition) -> (r: Vec<ValidationError>)
    ensures
        forall|id: Seq<char>| has_trigger_incoming(r@, id) <==> spec_trigger_incoming(*w, id),
        forall|k: int| 0 <= k < r@.len() ==> (#[trigger] r@[k]) is TriggerHasIncomingEdges,
{
    let mut out: Vec<ValidationError> = Vec::new();
    let mut j: usize = 0;
    while j < w.nodes.len()
        invariant
            j <= w.nodes@.len(),
            forall|id: Seq<char>|
                has_trigger_incoming(out@, id) <==> spec_trigger_incoming_before(*w, j as int, id),
            forall|k: int| 0 <= k < out@.len() ==> (#[trigger] out@[k]) is TriggerHasIncomingEdges,
        decreases w.nodes@.len() - j,
    {
        let idj = &w.nodes[j].id;
        let is_trig = w.nodes[j].node_type.is_trigger();
        let mut fired: bool = false;
        if is_trig {
            if edge_targets_id(w, idj.as_str()) {
                fired = true;
            }
        }
        if fired {
            let ghost opre = out@;
            let y = ValidationError::TriggerHasIncomingEdges { node_id: idj.clone() };
            out.push(y);
            proof {
                assert forall|id: Seq<char>|
                    has_trigger_incoming(out@, id) <==> spec_trigger_incoming_before(
                        *w,
                        j + 1,
                        id,
                    ) by {
                    let f = pred_trigger_incoming(id);
                    assert(has_trigger_incoming(opre, id) <==> spec_trigger_incoming_before(
                        *w,
                        j as int,
                        id,
                    ));
                    lemma_errs_any_push(opre, y, f);
                    if errs_any(opre, f) {
                        let (i1): int = choose|i1: int|
                            0 <= i1 < j && (#[trigger] w.nodes@[i1]).id@ == id && w.nodes@[
                                i1
                            ].node_type is Trigger;
                        assert(0 <= i1 < j + 1 && w.nodes@[i1].id@ == id && w.nodes@[i1].node_type
                            is Trigger);
                    }
                    if f(y) {
                        assert(id == idj@);
                        assert(0 <= j < j + 1 && (#[trigger] w.nodes@[j as int]).id@ == id
                            && w.nodes@[j as int].node_type is Trigger);
                    }
                    if spec_trigger_incoming_before(*w, j + 1, id) && !spec_trigger_incoming_before(
                        *w,
                        j as int,
                        id,
                    ) {
                        let i1 = choose|i1: int|
                            0 <= i1 < j + 1 && (#[trigger] w.nodes@[i1]).id@ == id && w.nodes@[
                                i1
                            ].node_type is Trigger;
                        assert(i1 == j);
                        assert(id == idj@);
                        assert(f(y));
                    }
                }
            }
        } else {
            proof {
                assert forall|id: Seq<char>|
                    has_trigger_incoming(out@, id) <==> spec_trigger_incoming_before(
                        *w,
                        j + 1,
                        id,
                    ) by {
                    assert(has_trigger_incoming(out@, id) <==> spec_trigger_incoming_before(
                        *w,
                        j as int,
                        id,
                    ));
                    if spec_trigger_incoming_before(*w, j as int, id) {
                        let i1 = choose|i1: int|
                            0 <= i1 < j && (#[trigger] w.nodes@[i1]).id@ == id && w.nodes@[
                                i1
                            ].node_type is Trigger;
                        assert(0 <= i1 < j + 1 && w.nodes@[i1].id@ == id && w.nodes@[i1].node_type
                            is Trigger);
                    }
                    if spec_trigger_incoming_before(*w, j + 1, id) && !spec_trigger_incoming_before(
                        *w,
                        j as int,
                        id,
                    ) {
                        let i1 = choose|i1: int|
                            0 <= i1 < j + 1 && (#[trigger] w.nodes@[i1]).id@ == id && w.nodes@[
                                i1
                            ].node_type is Trigger;
                        assert(i1 == j);
                        assert(false);
                    }
                }
            }
        }
        j = j + 1;
    }
    proof {
        assert forall|id: Seq<char>|
            has_trigger_incoming(out@, id) <==> spec_trigger_incoming(*w, id) by {
            assert(spec_trigger_incoming_before(*w, w.nodes@.len() as int, id)
                == spec_trigger_incoming(*w, id));
        }
    }
    out
}

/// An orphan with this id stands before position `b`.
pub open spec fn spec_orphan_before(w: WorkflowDefinition, b: int, id: Seq<char>) -> bool {
    (exists|i: int| 0 <= i < b && (#[trigger] w.nodes@[i]).id@ == id) && !spec_has_incident_edge(
        w,
        id,
    ) && w.nodes@.len() > 1
}

/// An `OrphanNode` error for every node that touches no edge, in a graph
/// of more than one node.
#[verifier::loop_isolation(false)]
fn check_orphans(w: &WorkflowDefinition) -> (r: Vec<ValidationError>)
    ensures
        forall|id: Seq<char>| has_orphan(r@, id) <==> spec_orphan(*w, id),
        forall|k: int| 0 <= k < r@.len() ==> (#[trigger] r@[k]) is OrphanNode,
{
    let mut out: Vec<ValidationError> = Vec::new();
    let multi = w.nodes.len() > 1;
    let mut j: usize = 0;
    while j < w.nodes.len()
        invariant
            j <= w.nodes@.len(),
            forall|id: Seq<char>| has_orphan(out@, id) <==> spec_orphan_before(*w, j as int, id),
            forall|k: int| 0 <= k < out@.len() ==> (#[trigger] out@[k]) is OrphanNode,
        decreases w.nodes@.len() - j,
    {
        let idj = &w.nodes[j].id;
        if multi && !has_incident_edge(w, idj.as_str()) {
            let ghost opre = out@;
            let y = ValidationError::OrphanNode(idj.clone());
            out.push(y);
            proof {
                assert forall|id: Seq<char>|
                    has_orphan(out@, id) <==> spec_orphan_before(*w, j + 1, id) by {
                    let f = pred_orphan(id);
                    assert(has_orphan(opre, id) <==> spec_orphan_before(*w, j as int, id));
                    lemma_errs_any_push(opre, y, f);
                    if errs_any(opre, f) {
                        let i1 = choose|i1: int|
                            0 <= i1 < j && (#[trigger] w.nodes@[i1]).id@ == id;
                        assert(0 <= i1 < j + 1 && w.nodes@[i1].id@ == id);
                    }
                    if f(y) {
                        assert(id == idj@);
                        assert(0 <= j < j + 1 && (#[trigger] w.nodes@[j as int]).id@ == id);
                    }
                    if spec_orphan_before(*w, j + 1, id) && !spec_orphan_before(*w, j as int, id) {
                        let i1 = choose|i1: int|
                            0 <= i1 < j + 1 && (#[trigger] w.nodes@[i1]).id@ == id;
                        assert(i1 == j);
                        assert(id == idj@);
                        assert(f(y));
                    }
                }
            }
        } else {
            proof {
                assert forall|id: Seq<char>|
                    has_orphan(out@, id) <==> spec_orphan_before(*w, j + 1, id) by {
                    assert(has_orphan(out@, id) <==> spec_orphan_before(*w, j as int, id));
                    if spec_orphan_before(*w, j as int, id) {
                        let i1 = choose|i1: int|
                            0 <= i1 < j && (#[trigger] w.nodes@[i1]).id@ == id;
                        assert(0 <= i1 < j + 1 && w.nodes@[i1].id@ == id);
                    }
                    if spec_orphan_before(*w, j + 1, id) && !spec_orphan_before(*w, j as int, id) {
                        let i1 = choose|i1: int|
                            0 <= i1 < j + 1 && (#[trigger] w.nodes@[i1]).id@ == id;
                        assert(i1 == j);
                        assert(id == idj@);
                        assert(!spec_has_incident_edge(*w, idj@) && w.nodes@.len() > 1);
                        assert(false);
                    }
                }
            }
        }
        j = j + 1;
    }
    proof {
        assert forall|id: Seq<char>| has_orphan(out@, id) <==> spec_orphan(*w, id) by {
            assert(has_orphan(out@, id) <==> spec_orphan_before(*w, w.nodes@.len() as int, id));
        }
    }
    out
}

/// A bad edge source among the first `b` edges.
pub open spec fn spec_bad_source_before(w: WorkflowDefinition, b: int, id: Seq<char>) -> bool {
    (exists|e: int| 0 <= e < b && (#[trigger] w.edges@[e]).source@ == id) && !spec_has_node(w, id)
}

/// A bad edge target among the first `b` edges.
pub open spec fn spec_bad_target_before(w: WorkflowDefinition, b: int, id: Seq<char>) -> bool {
    (exists|e: int| 0 <= e < b && (#[trigger] w.edges@[e]).target@ == id) && !spec_has_node(w, id)
}

/// An `InvalidEdgeSource` or `InvalidEdgeTarget` error for every edge
/// endpoint that names no existing node, reported per violating edge.
#[verifier::loop_isolation(false)]
fn check_edge_endpoints(w: &WorkflowDefinition) -> (r: Vec<ValidationError>)
    ensures
        forall|id: Seq<char>| has_invalid_source(r@, id) <==> spec_bad_source(*w, id),
        forall|id: Seq<char>| has_invalid_target(r@, id) <==> spec_bad_target(*w, id),
        forall|k: int|
            0 <= k < r@.len() ==> (#[trigger] r@[k]) is InvalidEdgeSource || r@[k]
                is InvalidEdgeTarget,
{
    let mut out: Vec<ValidationError> = Vec::new();
    let mut j: usize = 0;
    while j < w.edges.len()
        invariant
            j <= w.edges@.len(),
            forall|id: Seq<char>|
                has_invalid_source(out@, id) <==> spec_bad_source_before(*w, j as int, id),
            forall|id: Seq<char>|
                has_invalid_target(out@, id) <==> spec_bad_target_before(*w, j as int, id),
            forall|k: int|
                0 <= k < out@.len() ==> (#[trigger] out@[k]) is InvalidEdgeSource || out@[k]
                    is InvalidEdgeTarget,
        decreases w.edges@.len() - j,
    {
        let src = &w.edges[j].source;
        if !has_node(w, src.as_str()) {
            let ghost opre = out@;
            let y = ValidationError::InvalidEdgeSource(src.clone());
            out.push(y);
            proof {
                assert forall|id: Seq<char>|
                    has_invalid_source(out@, id) <==> (spec_bad_source_before(*w, j + 1, id)
                        || spec_bad_source_before(*w, j as int, id)) by {
                    let f = pred_invalid_source(id);
                    assert(has_invalid_source(opre, id) <==> spec_bad_source_before(
                        *w,
                        j as int,
                        id,
                    ));
                    lemma_errs_any_push(opre, y, f);
                    if errs_any(opre, f) {
                        let e1 = choose|e1: int|
                            0 <= e1 < j && (#[trigger] w.edges@[e1]).source@ == id;
                        assert(0 <= e1 < j + 1 && w.edges@[e1].source@ == id);
                    }
                    if f(y) {
                        assert(id == src@);
                        assert(0 <= j < j + 1 && (#[trigger] w.edges@[j as int]).source@ == id);
                    }
                    if spec_bad_source_before(*w, j + 1, id) && !spec_bad_source_before(
                        *w,
                        j as int,
                        id,
                    ) {
                        let e1 = choose|e1: int|
                            0 <= e1 < j + 1 && (#[trigger] w.edges@[e1]).source@ == id;
                        assert(e1 == j);
                        assert(id == src@);
                        assert(f(y));
                    }
                }
                assert forall|id: Seq<char>|
                    has_invalid_target(out@, id) <==> spec_bad_target_before(*w, j as int, id) by {
                    let f = pred_invalid_target(id);
                    assert(has_invalid_target(opre, id) <==> spec_bad_target_before(
                        *w,
                        j as int,
                        id,
                    ));
                    lemma_errs_any_push(opre, y, f);
                    assert(!f(y));
                }
            }
        }
        let tgt = &w.edges[j].target;
        if !has_node(w, tgt.as_str()) {
            let ghost opre = out@;
            let y = ValidationError::InvalidEdgeTarget(tgt.clone());
            out.push(y);
            proof {
                assert forall|id: Seq<char>|
                    has_invalid_target(out@, id) <==> (spec_bad_target_before(*w, j + 1, id)
                        || spec_bad_target_before(*w, j as int, id)) by {
                    let f = pred_invalid_target(id);
                    assert(has_invalid_target(opre, id) <==> spec_bad_target_before(
                        *w,
                        j as int,
                        id,
                    ));
                    lemma_errs_any_push(opre, y, f);
                    if errs_any(opre, f) {
                        let e1 = choose|e1: int|
                            0 <= e1 < j && (#[trigger] w.edges@[e1]).target@ == id;
                        assert(0 <= e1 < j + 1 && w.edges@[e1].target@ == id);
                    }
                    if f(y) {
                        assert(id == tgt@);
                        assert(0 <= j < j + 1 && (#[trigger] w.edges@[j as int]).target@ == id);
                    }
                    if spec_bad_target_before(*w, j + 1, id) && !spec_bad_target_before(
                        *w,
                        j as int,
                        id,
                    ) {
                        let e1 = choose|e1: int|
                            0 <= e1 < j + 1 && (#[trigger] w.edges@[e1]).target@ == id;
                        assert(e1 == j);
                        assert(id == tgt@);
                        assert(f(y));
                    }
                }
                assert forall|id: Seq<char>|
                    has_invalid_source(out@, id) <==> has_invalid_source(opre, id) by {
                    let f = pred_invalid_source(id);
                    lemma_errs_any_push(opre, y, f);
                    assert(!f(y));
                }
            }
        }
        proof {
            assert forall|id: Seq<char>|
                has_invalid_source(out@, id) <==> spec_bad_source_before(*w, j + 1, id) by {
                if spec_bad_source_before(*w, j as int, id) {
                    let e1 = choose|e1: int| 0 <= e1 < j && (#[trigger] w.edges@[e1]).source@ == id;
                    assert(0 <= e1 < j + 1 && w.edges@[e1].source@ == id);
                }
                if spec_bad_source_before(*w, j + 1, id) && !spec_bad_source_before(
                    *w,
                    j as int,
                    id,
                ) {
                    let e1 = choose|e1: int|
                        0 <= e1 < j + 1 && (#[trigger] w.edges@[e1]).source@ == id;
                    assert(e1 == j);
                    assert(id == w.edges@[j as int].source@);
                    assert(!spec_has_node(*w, id));
                }
            }
            assert forall|id: Seq<char>|
                has_invalid_target(out@, id) <==> spec_bad_target_before(*w, j + 1, id) by {
                if spec_bad_target_before(*w, j as int, id) {
                    let e1 = choose|e1: int| 0 <= e1 < j && (#[trigger] w.edges@[e1]).target@ == id;
                    assert(0 <= e1 < j + 1 && w.edges@[e1].target@ == id);
                }
                if spec_bad_target_before(*w, j + 1, id) && !spec_bad_target_before(
                    *w,
                    j as int,
                    id,
                ) {
                    let e1 = choose|e1: int|
                        0 <= e1 < j + 1 && (#[trigger] w.edges@[e1]).target@ == id;
                    assert(e1 == j);
                    assert(id == w.edges@[j as int].target@);
                    assert(!spec_has_node(*w, id));
                }
            }
        }
        j = j + 1;
    }
    out
}

/// The id of the unique trigger, where the graph has exactly one.
pub open spec fn spec_the_trigger_id(w: WorkflowDefinition) -> Seq<char> {
    spec_trigger_ids(w)[0]
}

/// A node with this id stands before position `b` and its id is not
/// reachable from the unique trigger.
pub open spec fn spec_unreachable_before(w: WorkflowDefinition, b: int, id: Seq<char>) -> bool {
    (exists|i: int| 0 <= i < b && (#[trigger] w.nodes@[i]).id@ == id) && !spec_reachable(
        w,
        spec_the_trigger_id(w),
        id,
    )
}

/// An `UnreachableNode` error for every node the unique trigger cannot
/// reach over forward edges.  The pass is skipped where the trigger is not
/// unique: that defect is already reported.
#[verifier::loop_isolation(false)]
fn check_unreachable(w: &WorkflowDefinition) -> (r: Vec<ValidationError>)
    ensures
        spec_trigger_count(*w) == 1 ==> (forall|id: Seq<char>|
            has_unreachable(r@, id) <==> (spec_has_node(*w, id) && !spec_reachable(
                *w,
                spec_the_trigger_id(*w),
                id,
            ))),
        spec_trigger_count(*w) != 1 ==> r@.len() == 0,
        forall|k: int| 0 <= k < r@.len() ==> (#[trigger] r@[k]) is UnreachableNode,
{
    let triggers = collect_trigger_ids(w);
    proof {
        assert(spec_trigger_ids(*w).len() == spec_trigger_count(*w));
        assert(triggers.deep_view().len() == triggers@.len());
    }
    let mut out: Vec<ValidationError> = Vec::new();
    if triggers.len() != 1 {
        return out;
    }
    let start = &triggers[0];
    proof {
        assert(start@ == triggers.deep_view()[0]);
        assert(start@ == spec_the_trigger_id(*w));
    }
    let reach = reachable_ids(w, start);
    let mut j: usize = 0;
    while j < w.nodes.len()
        invariant
            j <= w.nodes@.len(),
            forall|id: Seq<char>|
                has_unreachable(out@, id) <==> spec_unreachable_before(*w, j as int, id),
            forall|k: int| 0 <= k < out@.len() ==> (#[trigger] out@[k]) is UnreachableNode,
        decreases w.nodes@.len() - j,
    {
        let idj = &w.nodes[j].id;
        if !crate::graph::contains_id(&reach, idj.as_str()) {
            proof {
                if spec_reachable(*w, start@, idj@) {
                    assert(in_ids(reach@, idj@));
                }
            }
            let ghost opre = out@;
            let y = ValidationError::UnreachableNode { node_id: idj.clone() };
            out.push(y);
            proof {
                assert forall|id: Seq<char>|
                    has_unreachable(out@, id) <==> spec_unreachable_before(*w, j + 1, id) by {
                    let f = pred_unreachable(id);
                    assert(has_unreachable(opre, id) <==> spec_unreachable_before(
                        *w,
                        j as int,
                        id,
                    ));
                    lemma_errs_any_push(opre, y, f);
                    if errs_any(opre, f) {
                        let i1 = choose|i1: int|
                            0 <= i1 < j && (#[trigger] w.nodes@[i1]).id@ == id;
                        assert(0 <= i1 < j + 1 && w.nodes@[i1].id@ == id);
                    }
                    if f(y) {
                        assert(id == idj@);
                        assert(0 <= j < j + 1 && (#[trigger] w.nodes@[j as int]).id@ == id);
                    }
                    if spec_unreachable_before(*w, j + 1, id) && !spec_unreachable_before(
                        *w,
                        j as int,
                        id,
                    ) {
                        let i1 = choose|i1: int|
                            0 <= i1 < j + 1 && (#[trigger] w.nodes@[i1]).id@ == id;
                        assert(i1 == j);
                        assert(id == idj@);
                        assert(f(y));
                    }
                }
            }
        } else {
            proof {
                assert(in_ids(reach@, idj@));
                let m = choose|m: int| 0 <= m < reach@.len() && reach@[m]@ == idj@;
                assert(spec_reachable(*w, start@, idj@));
                assert forall|id: Seq<char>|
                    has_unreachable(out@, id) <==> spec_unreachable_before(*w, j + 1, id) by {
                    assert(has_unreachable(out@, id) <==> spec_unreachable_before(
                        *w,
                        j as int,
                        id,
                    ));
                    if spec_unreachable_before(*w, j as int, id) {
                        let i1 = choose|i1: int|
                            0 <= i1 < j && (#[trigger] w.nodes@[i1]).id@ == id;
                        assert(0 <= i1 < j + 1 && w.nodes@[i1].id@ == id);
                    }
                    if spec_unreachable_before(*w, j + 1, id) && !spec_unreachable_before(
                        *w,
                        j as int,
                        id,
                    ) {
                        let i1 = choose|i1: int|
                            0 <= i1 < j + 1 && (#[trigger] w.nodes@[i1]).id@ == id;
                        assert(i1 == j);
                        assert(id == idj@);
                        assert(false);
                    }
                }
            }
        }
        j = j + 1;
    }
    proof {
        assert forall|id: Seq<char>|
            has_unreachable(out@, id) <==> (spec_has_node(*w, id) && !spec_reachable(
                *w,
                spec_the_trigger_id(*w),
                id,
            )) by {
            assert(has_unreachable(out@, id) <==> spec_unreachable_before(
                *w,
                w.nodes@.len() as int,
                id,
            ));
        }
    }
    out
}

/// One `CycleDetected` error, carrying a real cycle, exactly when the edges
/// contain a directed cycle.  Only the first cycle found is reported.
fn check_cycles(w: &WorkflowDefinition) -> (r: Vec<ValidationError>)
    ensures
        has_cycle_err(*w, r@) <==> spec_has_cycle(*w),
        has_any_cycle_err(r@) <==> spec_has_cycle(*w),
        forall|k: int| 0 <= k < r@.len() ==> (#[trigger] r@[k]) is CycleDetected,
{
    let mut out: Vec<ValidationError> = Vec::new();
    match detect_cycle(w) {
        Option::Some(cyc) => {
            let ghost cv = cyc.deep_view();
            out.push(ValidationError::CycleDetected(cyc));
            proof {
                assert(pred_cycle_of(*w)(out@[0]));
                assert(pred_any_cycle()(out@[0]));
                assert(errs_any(out@, pred_cycle_of(*w)));
                assert(errs_any(out@, pred_any_cycle()));
            }
        },
        Option::None => {
            proof {
                assert(!errs_any(out@, pred_cycle_of(*w)));
                assert(!errs_any(out@, pred_any_cycle()));
            }
        },
    }
    out
}

/// The structural pass: emptiness, duplicate ids, trigger and end
/// cardinality, trigger incoming edges, and orphans.  The contract says for
/// each error kind exactly when it is present.
#[verifier::rlimit(80)]
fn assemble_structure(w: &WorkflowDefinition) -> (r: Vec<ValidationError>)
    ensures
        has_empty_workflow(r@) <==> w.nodes@.len() == 0,
        has_no_start(r@) <==> spec_trigger_count(*w) == 0,
        spec_trigger_count(*w) >= 2 ==> has_multi_start_with(r@, spec_trigger_ids(*w)),
        has_multi_start(r@) ==> spec_trigger_count(*w) >= 2,
        has_no_end(r@) <==> spec_end_count(*w) == 0,
        forall|id: Seq<char>| has_dup_node(r@, id) <==> spec_dup_node_id(*w, id),
        forall|id: Seq<char>| has_dup_edge(r@, id) <==> spec_dup_edge_id(*w, id),
        forall|id: Seq<char>| has_trigger_incoming(r@, id) <==> spec_trigger_incoming(*w, id),
        forall|id: Seq<char>| has_orphan(r@, id) <==> spec_orphan(*w, id),
        forall|k: int|
            0 <= k < r@.len() ==> (#[trigger] r@[k]) is EmptyWorkflow || r@[k] is DuplicateNodeId
                || r@[k] is DuplicateEdgeId || r@[k] is NoStartNode || r@[k] is MultipleStartNodes
                || r@[k] is NoEndNode || r@[k] is TriggerHasIncomingEdges || r@[k] is OrphanNode,
{
    let mut out = check_empty(w);
    let ghost g1 = out@;
    let mut c2 = check_dup_nodes(w);
    let ghost g2 = c2@;
    out.append(&mut c2);
    let ghost a2 = out@;
    let mut c3 = check_dup_edges(w);
    let ghost g3 = c3@;
    out.append(&mut c3);
    let ghost a3 = out@;
    let mut c4 = check_trigger_cardinality(w);
    let ghost g4 = c4@;
    out.append(&mut c4);
    let ghost a4 = out@;
    let mut c5 = check_no_end(w);
    let ghost g5 = c5@;
    out.append(&mut c5);
    let ghost a5 = out@;
    let mut c6 = check_trigger_incoming(w);
    let ghost g6 = c6@;
    out.append(&mut c6);
    let ghost a6 = out@;
    let mut c7 = check_orphans(w);
    let ghost g7 = c7@;
    out.append(&mut c7);
    let ghost a7 = out@;
    proof {
        let a1 = g1;
        assert(a2 == a1 + g2);
        assert(a3 == a2 + g3);
        assert(a4 == a3 + g4);
        assert(a5 == a4 + g5);
        assert(a6 == a5 + g6);
        assert(a7 == a6 + g7);
        assert forall|k: int|
            0 <= k < a7.len() implies (#[trigger] a7[k]) is EmptyWorkflow || a7[k]
                is DuplicateNodeId || a7[k] is DuplicateEdgeId || a7[k] is NoStartNode || a7[k]
                is MultipleStartNodes || a7[k] is NoEndNode || a7[k] is TriggerHasIncomingEdges
                || a7[k] is OrphanNode by {
            if k < a6.len() {
                if k < a5.len() {
                    if k < a4.len() {
                        if k < a3.len() {
                            if k < a2.len() {
                                if k < a1.len() {
                                    assert(a7[k] == g1[k]);
                                } else {
                                    assert(a7[k] == g2[k - a1.len()]);
                                }
                            } else {
                                assert(a7[k] == g3[k - a2.len()]);
                            }
                        } else {
                            assert(a7[k] == g4[k - a3.len()]);
                        }
                    } else {
                        assert(a7[k] == g5[k - a4.len()]);
                    }
                } else {
                    assert(a7[k] == g6[k - a5.len()]);
                }
            } else {
                assert(a7[k] == g7[k - a6.len()]);
            }
        }
        assert(has_empty_workflow(a7) <==> w.nodes@.len() == 0) by {
                let f = pred_empty_workflow();
                lemma_errs_any_concat(a1, g2, f);
                lemma_errs_any_concat(a2, g3, f);
                lemma_errs_any_concat(a3, g4, f);
                lemma_errs_any_concat(a4, g5, f);
                lemma_errs_any_concat(a5, g6, f);
                lemma_errs_any_concat(a6, g7, f);
                if errs_any(g2, f) {
                    let k = choose|k: int| 0 <= k < g2.len() && f(g2[k]);
                    assert(false);
                }
                if errs_any(g3, f) {
                    let k = choose|k: int| 0 <= k < g3.len() && f(g3[k]);
                    assert(false);
                }
                if errs_any(g4, f) {
                    let k = choose|k: int| 0 <= k < g4.len() && f(g4[k]);
                    assert(false);
                }
                if errs_any(g5, f) {
                    let k = choose|k: int| 0 <= k < g5.len() && f(g5[k]);
                    assert(false);
                }
                if errs_any(g6, f) {
                    let k = choose|k: int| 0 <= k < g6.len() && f(g6[k]);
                    assert(false);
                }
                if errs_any(g7, f) {
                    let k = choose|k: int| 0 <= k < g7.len() && f(g7[k]);
                    assert(false);
                }
        }
        assert(has_no_start(a7) <==> spec_trigger_count(*w) == 0) by {
                let f = pred_no_start();
                lemma_errs_any_concat(a1, g2, f);
                lemma_errs_any_concat(a2, g3, f);
                lemma_errs_any_concat(a3, g4, f);
                lemma_errs_any_concat(a4, g5, f);
                lemma_errs_any_concat(a5, g6, f);
                lemma_errs_any_concat(a6, g7, f);
                if errs_any(g1, f) {
                    let k = choose|k: int| 0 <= k < g1.len() && f(g1[k]);
                    assert(false);
                }
                if errs_any(g2, f) {
                    let k = choose|k: int| 0 <= k < g2.len() && f(g2[k]);
                    assert(false);
                }
                if errs_any(g3, f) {
                    let k = choose|k: int| 0 <= k < g3.len() && f(g3[k]);
                    assert(false);
                }
                if errs_any(g5, f) {
                    let k = choose|k: int| 0 <= k < g5.len() && f(g5[k]);
                    assert(false);
                }
                if errs_any(g6, f) {
                    let k = choose|k: int| 0 <= k < g6.len() && f(g6[k]);
                    assert(false);
                }
                if errs_any(g7, f) {
                    let k = choose|k: int| 0 <= k < g7.len() && f(g7[k]);
                    assert(false);
                }
        }
        assert(spec_trigger_count(*w) >= 2 ==> has_multi_start_with(a7, spec_trigger_ids(*w))) by {
                let f = pred_multi_start_with(spec_trigger_ids(*w));
                lemma_errs_any_concat(a1, g2, f);
                lemma_errs_any_concat(a2, g3, f);
                lemma_errs_any_concat(a3, g4, f);
                lemma_errs_any_concat(a4, g5, f);
                lemma_errs_any_concat(a5, g6, f);
                lemma_errs_any_concat(a6, g7, f);
                if errs_any(g1, f) {
                    let k = choose|k: int| 0 <= k < g1.len() && f(g1[k]);
                    assert(false);
                }
                if errs_any(g2, f) {
                    let k = choose|k: int| 0 <= k < g2.len() && f(g2[k]);
                    assert(false);
                }
                if errs_any(g3, f) {
                    let k = choose|k: int| 0 <= k < g3.len() && f(g3[k]);
                    assert(false);
                }
                if errs_any(g5, f) {
                    let k = choose|k: int| 0 <= k < g5.len() && f(g5[k]);
                    assert(false);
                }
                if errs_any(g6, f) {
                    let k = choose|k: int| 0 <= k < g6.len() && f(g6[k]);
                    assert(false);
                }
                if errs_any(g7, f) {
                    let k = choose|k: int| 0 <= k < g7.len() && f(g7[k]);
                    assert(false);
                }
        }
        assert(has_multi_start(a7) ==> spec_trigger_count(*w) >= 2) by {
                let f = pred_multi_start();
                lemma_errs_any_concat(a1, g2, f);
                lemma_errs_any_concat(a2, g3, f);
                lemma_errs_any_concat(a3, g4, f);
                lemma_errs_any_concat(a4, g5, f);
                lemma_errs_any_concat(a5, g6, f);
                lemma_errs_any_concat(a6, g7, f);
                if errs_any(g1, f) {
                    let k = choose|k: int| 0 <= k < g1.len() && f(g1[k]);
                    assert(false);
                }
                if errs_any(g2, f) {
                    let k = choose|k: int| 0 <= k < g2.len() && f(g2[k]);
                    assert(false);
                }
                if errs_any(g3, f) {
                    let k = choose|k: int| 0 <= k < g3.len() && f(g3[k]);
                    assert(false);
                }
                if errs_any(g5, f) {
                    let k = choose|k: int| 0 <= k < g5.len() && f(g5[k]);
                    assert(false);
                }
                if errs_any(g6, f) {
                    let k = choose|k: int| 0 <= k < g6.len() && f(g6[k]);
                    assert(false);
                }
                if errs_any(g7, f) {
                    let k = choose|k: int| 0 <= k < g7.len() && f(g7[k]);
                    assert(false);
                }
        }
        assert(has_no_end(a7) <==> spec_end_count(*w) == 0) by {
                let f = pred_no_end();
                lemma_errs_any_concat(a1, g2, f);
                lemma_errs_any_concat(a2, g3, f);
                lemma_errs_any_concat(a3, g4, f);
                lemma_errs_any_concat(a4, g5, f);
                lemma_errs_any_concat(a5, g6, f);
                lemma_errs_any_concat(a6, g7, f);
                if errs_any(g1, f) {
                    let k = choose|k: int| 0 <= k < g1.len() && f(g1[k]);
                    assert(false);
                }
                if errs_any(g2, f) {
                    let k = choose|k: int| 0 <= k < g2.len() && f(g2[k]);
                    assert(false);
                }
                if errs_any(g3, f) {
                    let k = choose|k: int| 0 <= k < g3.len() && f(g3[k]);
                    assert(false);
                }
                if errs_any(g4, f) {
                    let k = choose|k: int| 0 <= k < g4.len() && f(g4[k]);
                    assert(false);
                }
                if errs_any(g6, f) {
                    let k = choose|k: int| 0 <= k < g6.len() && f(g6[k]);
                    assert(false);
                }
                if errs_any(g7, f) {
                    let k = choose|k: int| 0 <= k < g7.len() && f(g7[k]);
                    assert(false);
                }
        }
        assert forall|id: Seq<char>|
            has_dup_node(a7, id) <==> spec_dup_node_id(*w, id) by {
                let f = pred_dup_node(id);
                lemma_errs_any_concat(a1, g2, f);
                lemma_errs_any_concat(a2, g3, f);
                lemma_errs_any_concat(a3, g4, f);
                lemma_errs_any_concat(a4, g5, f);
                lemma_errs_any_concat(a5, g6, f);
                lemma_errs_any_concat(a6, g7, f);
                if errs_any(g1, f) {
                    let k = choose|k: int| 0 <= k < g1.len() && f(g1[k]);
                    assert(false);
                }
                if errs_any(g3, f) {
                    let k = choose|k: int| 0 <= k < g3.len() && f(g3[k]);
                    assert(false);
                }
                if errs_any(g4, f) {
                    let k = choose|k: int| 0 <= k < g4.len() && f(g4[k]);
                    assert(false);
                }
                if errs_any(g5, f) {
                    let k = choose|k: int| 0 <= k < g5.len() && f(g5[k]);
                    assert(false);
                }
                if errs_any(g6, f) {
                    let k = choose|k: int| 0 <= k < g6.len() && f(g6[k]);
                    assert(false);
                }
                if errs_any(g7, f) {
                    let k = choose|k: int| 0 <= k < g7.len() && f(g7[k]);
                    assert(false);
                }
        }
        assert forall|id: Seq<char>|
            has_dup_edge(a7, id) <==> spec_dup_edge_id(*w, id) by {
                let f = pred_dup_edge(id);
                lemma_errs_any_concat(a1, g2, f);
                lemma_errs_any_concat(a2, g3, f);
                lemma_errs_any_concat(a3, g4, f);
                lemma_errs_any_concat(a4, g5, f);
                lemma_errs_any_concat(a5, g6, f);
                lemma_errs_any_concat(a6, g7, f);
                if errs_any(g1, f) {
                    let k = choose|k: int| 0 <= k < g1.len() && f(g1[k]);
                    assert(false);
                }
                if errs_any(g2, f) {
                    let k = choose|k: int| 0 <= k < g2.len() && f(g2[k]);
                    assert(false);
                }
                if errs_any(g4, f) {
                    let k = choose|k: int| 0 <= k < g4.len() && f(g4[k]);
                    assert(false);
                }
                if errs_any(g5, f) {
                    let k = choose|k: int| 0 <= k < g5.len() && f(g5[k]);
                    assert(false);
                }
                if errs_any(g6, f) {
                    let k = choose|k: int| 0 <= k < g6.len() && f(g6[k]);
                    assert(false);
                }
                if errs_any(g7, f) {
                    let k = choose|k: int| 0 <= k < g7.len() && f(g7[k]);
                    assert(false);
                }
        }
        assert forall|id: Seq<char>|
            has_trigger_incoming(a7, id) <==> spec_trigger_incoming(*w, id) by {
                let f = pred_trigger_incoming(id);
                lemma_errs_any_concat(a1, g2, f);
                lemma_errs_any_concat(a2, g3, f);
                lemma_errs_any_concat(a3, g4, f);
                lemma_errs_any_concat(a4, g5, f);
                lemma_errs_any_concat(a5, g6, f);
                lemma_errs_any_concat(a6, g7, f);
                if errs_any(g1, f) {
                    let k = choose|k: int| 0 <= k < g1.len() && f(g1[k]);
                    assert(false);
                }
                if errs_any(g2, f) {
                    let k = choose|k: int| 0 <= k < g2.len() && f(g2[k]);
                    assert(false);
                }
                if errs_any(g3, f) {
                    let k = choose|k: int| 0 <= k < g3.len() && f(g3[k]);
                    assert(false);
                }
                if errs_any(g4, f) {
                    let k = choose|k: int| 0 <= k < g4.len() && f(g4[k]);
                    assert(false);
                }
                if errs_any(g5, f) {
                    let k = choose|k: int| 0 <= k < g5.len() && f(g5[k]);
                    assert(false);
                }
                if errs_any(g7, f) {
                    let k = choose|k: int| 0 <= k < g7.len() && f(g7[k]);
                    assert(false);
                }
        }
        assert forall|id: Seq<char>|
            has_orphan(a7, id) <==> spec_orphan(*w, id) by {
                let f = pred_orphan(id);
                lemma_errs_any_concat(a1, g2, f);
                lemma_errs_any_concat(a2, g3, f);
                lemma_errs_any_concat(a3, g4, f);
                lemma_errs_any_concat(a4, g5, f);
                lemma_errs_any_concat(a5, g6, f);
                lemma_errs_any_concat(a6, g7, f);
                if errs_any(g1, f) {
                    let k = choose|k: int| 0 <= k < g1.len() && f(g1[k]);
                    assert(false);
                }
                if errs_any(g2, f) {
                    let k = choose|k: int| 0 <= k < g2.len() && f(g2[k]);
                    assert(false);
                }
                if errs_any(g3, f) {
                    let k = choose|k: int| 0 <= k < g3.len() && f(g3[k]);
                    assert(false);
                }
                if errs_any(g4, f) {
                    let k = choose|k: int| 0 <= k < g4.len() && f(g4[k]);
                    assert(false);
                }
                if errs_any(g5, f) {
                    let k = choose|k: int| 0 <= k < g5.len() && f(g5[k]);
                    assert(false);
                }
                if errs_any(g6, f) {
                    let k = choose|k: int| 0 <= k < g6.len() && f(g6[k]);
                    assert(false);
                }
        }
    }
    out
}

/// Validates the shape of the graph: structure, edge endpoints,
/// reachability from the unique trigger, and cycles.  The result's error
/// list holds each kind of error exactly when its condition holds of the
/// graph; this pass emits no warnings.
#[verifier::rlimit(100)]
pub fn validate_graph(w: &WorkflowDefinition) -> (r: ValidationResult)
    ensures
        crate::errors::spec_result_wf(r),
        r.warnings@.len() == 0,
        has_empty_workflow(r.errors@) <==> w.nodes@.len() == 0,
        has_no_start(r.errors@) <==> spec_trigger_count(*w) == 0,
        spec_trigger_count(*w) >= 2 ==> has_multi_start_with(r.errors@, spec_trigger_ids(*w)),
        has_multi_start(r.errors@) ==> spec_trigger_count(*w) >= 2,
        has_no_end(r.errors@) <==> spec_end_count(*w) == 0,
        forall|id: Seq<char>| has_dup_node(r.errors@, id) <==> spec_dup_node_id(*w, id),
        forall|id: Seq<char>| has_dup_edge(r.errors@, id) <==> spec_dup_edge_id(*w, id),
        forall|id: Seq<char>|
            has_trigger_incoming(r.errors@, id) <==> spec_trigger_incoming(*w, id),
        forall|id: Seq<char>| has_orphan(r.errors@, id) <==> spec_orphan(*w, id),
        forall|id: Seq<char>| has_invalid_source(r.errors@, id) <==> spec_bad_source(*w, id),
        forall|id: Seq<char>| has_invalid_target(r.errors@, id) <==> spec_bad_target(*w, id),
        spec_trigger_count(*w) == 1 ==> (forall|id: Seq<char>|
            has_unreachable(r.errors@, id) <==> (spec_has_node(*w, id) && !spec_reachable(
                *w,
                spec_the_trigger_id(*w),
                id,
            ))),
        spec_trigger_count(*w) != 1 ==> (forall|id: Seq<char>| !has_unreachable(r.errors@, id)),
        has_cycle_err(*w, r.errors@) <==> spec_has_cycle(*w),
        has_any_cycle_err(r.errors@) <==> spec_has_cycle(*w),
        forall|k: int|
            0 <= k < r.errors@.len() ==> (#[trigger] r.errors@[k]) is EmptyWorkflow || r.errors@[k]
                is DuplicateNodeId || r.errors@[k] is DuplicateEdgeId || r.errors@[k]
                is NoStartNode || r.errors@[k] is MultipleStartNodes || r.errors@[k] is NoEndNode
                || r.errors@[k] is TriggerHasIncomingEdges || r.errors@[k] is OrphanNode
                || r.errors@[k] is InvalidEdgeSource || r.errors@[k] is InvalidEdgeTarget
                || r.errors@[k] is UnreachableNode || r.errors@[k] is CycleDetected,
{
    let mut errors = assemble_structure(w);
    let ghost s1 = errors@;
    let mut c2 = check_edge_endpoints(w);
    let ghost s2 = c2@;
    errors.append(&mut c2);
    let ghost b2 = errors@;
    let mut c3 = check_unreachable(w);
    let ghost s3 = c3@;
    errors.append(&mut c3);
    let ghost b3 = errors@;
    let mut c4 = check_cycles(w);
    let ghost s4 = c4@;
    errors.append(&mut c4);
    let ghost b4 = errors@;
    proof {
        let b1 = s1;
        assert(b2 == b1 + s2);
        assert(b3 == b2 + s3);
        assert(b4 == b3 + s4);
        assert(has_empty_workflow(b4) <==> w.nodes@.len() == 0) by {
                let f = pred_empty_workflow();
                lemma_errs_any_concat(b1, s2, f);
                lemma_errs_any_concat(b2, s3, f);
                lemma_errs_any_concat(b3, s4, f);
                if errs_any(s2, f) {
                    let k = choose|k: int| 0 <= k < s2.len() && f(s2[k]);
                    assert(false);
                }
                if errs_any(s3, f) {
                    let k = choose|k: int| 0 <= k < s3.len() && f(s3[k]);
                    assert(false);
                }
                if errs_any(s4, f) {
                    let k = choose|k: int| 0 <= k < s4.len() && f(s4[k]);
                    assert(false);
                }
        }
        assert(has_no_start(b4) <==> spec_trigger_count(*w) == 0) by {
                let f = pred_no_start();
                lemma_errs_any_concat(b1, s2, f);
                lemma_errs_any_concat(b2, s3, f);
                lemma_errs_any_concat(b3, s4, f);
                if errs_any(s2, f) {
                    let k = choose|k: int| 0 <= k < s2.len() && f(s2[k]);
                    assert(false);
                }
                if errs_any(s3, f) {
                    let k = choose|k: int| 0 <= k < s3.len() && f(s3[k]);
                    assert(false);
                }
                if errs_any(s4, f) {
                    let k = choose|k: int| 0 <= k < s4.len() && f(s4[k]);
                    assert(false);
                }
        }
        assert(spec_trigger_count(*w) >= 2 ==> has_multi_start_with(b4, spec_trigger_ids(*w))) by {
                let f = pred_multi_start_with(spec_trigger_ids(*w));
                lemma_errs_any_concat(b1, s2, f);
                lemma_errs_any_concat(b2, s3, f);
                lemma_errs_any_concat(b3, s4, f);
                if errs_any(s2, f) {
                    let k = choose|k: int| 0 <= k < s2.len() && f(s2[k]);
                    assert(false);
                }
                if errs_any(s3, f) {
                    let k = choose|k: int| 0 <= k < s3.len() && f(s3[k]);
                    assert(false);
                }
                if errs_any(s4, f) {
                    let k = choose|k: int| 0 <= k < s4.len() && f(s4[k]);
                    assert(false);
                }
        }
        assert(has_multi_start(b4) ==> spec_trigger_count(*w) >= 2) by {
                let f = pred_multi_start();
                lemma_errs_any_concat(b1, s2, f);
                lemma_errs_any_concat(b2, s3, f);
                lemma_errs_any_concat(b3, s4, f);
                if errs_any(s2, f) {
                    let k = choose|k: int| 0 <= k < s2.len() && f(s2[k]);
                    assert(false);
                }
                if errs_any(s3, f) {
                    let k = choose|k: int| 0 <= k < s3.len() && f(s3[k]);
                    assert(false);
                }
                if errs_any(s4, f) {
                    let k = choose|k: int| 0 <= k < s4.len() && f(s4[k]);
                    assert(false);
                }
        }
        assert(has_no_end(b4) <==> spec_end_count(*w) == 0) by {
                let f = pred_no_end();
                lemma_errs_any_concat(b1, s2, f);
                lemma_errs_any_concat(b2, s3, f);
                lemma_errs_any_concat(b3, s4, f);
                if errs_any(s2, f) {
                    let k = choose|k: int| 0 <= k < s2.len() && f(s2[k]);
                    assert(false);
                }
                if errs_any(s3, f) {
                    let k = choose|k: int| 0 <= k < s3.len() && f(s3[k]);
                    assert(false);
                }
                if errs_any(s4, f) {
                    let k = choose|k: int| 0 <= k < s4.len() && f(s4[k]);
                    assert(false);
                }
        }
        assert forall|id: Seq<char>| has_dup_node(b4, id) <==> spec_dup_node_id(*w, id) by {
                let f = pred_dup_node(id);
                lemma_errs_any_concat(b1, s2, f);
                lemma_errs_any_concat(b2, s3, f);
                lemma_errs_any_concat(b3, s4, f);
                if errs_any(s2, f) {
                    let k = choose|k: int| 0 <= k < s2.len() && f(s2[k]);
                    assert(false);
                }
                if errs_any(s3, f) {
                    let k = choose|k: int| 0 <= k < s3.len() && f(s3[k]);
                    assert(false);
                }
                if errs_any(s4, f) {
                    let k = choose|k: int| 0 <= k < s4.len() && f(s4[k]);
                    assert(false);
                }
        }
        assert forall|id: Seq<char>| has_dup_edge(b4, id) <==> spec_dup_edge_id(*w, id) by {
                let f = pred_dup_edge(id);
                lemma_errs_any_concat(b1, s2, f);
                lemma_errs_any_concat(b2, s3, f);
                lemma_errs_any_concat(b3, s4, f);
                if errs_any(s2, f) {
                    let k = choose|k: int| 0 <= k < s2.len() && f(s2[k]);
                    assert(false);
                }
                if errs_any(s3, f) {
                    let k = choose|k: int| 0 <= k < s3.len() && f(s3[k]);
                    assert(false);
                }
                if errs_any(s4, f) {
                    let k = choose|k: int| 0 <= k < s4.len() && f(s4[k]);
                    assert(false);
                }
        }
        assert forall|id: Seq<char>|
            has_trigger_incoming(b4, id) <==> spec_trigger_incoming(*w, id) by {
                let f = pred_trigger_incoming(id);
                lemma_errs_any_concat(b1, s2, f);
                lemma_errs_any_concat(b2, s3, f);
                lemma_errs_any_concat(b3, s4, f);
                if errs_any(s2, f) {
                    let k = choose|k: int| 0 <= k < s2.len() && f(s2[k]);
                    assert(false);
                }
                if errs_any(s3, f) {
                    let k = choose|k: int| 0 <= k < s3.len() && f(s3[k]);
                    assert(false);
                }
                if errs_any(s4, f) {
                    let k = choose|k: int| 0 <= k < s4.len() && f(s4[k]);
                    assert(false);
                }
        }
        assert forall|id: Seq<char>| has_orphan(b4, id) <==> spec_orphan(*w, id) by {
                let f = pred_orphan(id);
                lemma_errs_any_concat(b1, s2, f);
                lemma_errs_any_concat(b2, s3, f);
                lemma_errs_any_concat(b3, s4, f);
                if errs_any(s2, f) {
                    let k = choose|k: int| 0 <= k < s2.len() && f(s2[k]);
                    assert(false);
                }
                if errs_any(s3, f) {
                    let k = choose|k: int| 0 <= k < s3.len() && f(s3[k]);
                    assert(false);
                }
                if errs_any(s4, f) {
                    let k = choose|k: int| 0 <= k < s4.len() && f(s4[k]);
                    assert(false);
                }
        }
        assert forall|id: Seq<char>| has_invalid_source(b4, id) <==> spec_bad_source(*w, id) by {
                let f = pred_invalid_source(id);
                lemma_errs_any_concat(b1, s2, f);
                lemma_errs_any_concat(b2, s3, f);
                lemma_errs_any_concat(b3, s4, f);
                if errs_any(s1, f) {
                    let k = choose|k: int| 0 <= k < s1.len() && f(s1[k]);
                    assert(false);
                }
                if errs_any(s3, f) {
                    let k = choose|k: int| 0 <= k < s3.len() && f(s3[k]);
                    assert(false);
                }
                if errs_any(s4, f) {
                    let k = choose|k: int| 0 <= k < s4.len() && f(s4[k]);
                    assert(false);
                }
        }
        assert forall|id: Seq<char>| has_invalid_target(b4, id) <==> spec_bad_target(*w, id) by {
                let f = pred_invalid_target(id);
                lemma_errs_any_concat(b1, s2, f);
                lemma_errs_any_concat(b2, s3, f);
                lemma_errs_any_concat(b3, s4, f);
                if errs_any(s1, f) {
                    let k = choose|k: int| 0 <= k < s1.len() && f(s1[k]);
                    assert(false);
                }
                if errs_any(s3, f) {
                    let k = choose|k: int| 0 <= k < s3.len() && f(s3[k]);
                    assert(false);
                }
                if errs_any(s4, f) {
                    let k = choose|k: int| 0 <= k < s4.len() && f(s4[k]);
                    assert(false);
                }
        }
        if spec_trigger_count(*w) == 1 {
            assert forall|id: Seq<char>|
                has_unreachable(b4, id) <==> (spec_has_node(*w, id) && !spec_reachable(
                    *w,
                    spec_the_trigger_id(*w),
                    id,
                )) by {
                assert(has_unreachable(s3, id) <==> (spec_has_node(*w, id) && !spec_reachable(
                    *w,
                    spec_the_trigger_id(*w),
                    id,
                )));
                let f = pred_unreachable(id);
                lemma_errs_any_concat(b1, s2, f);
                lemma_errs_any_concat(b2, s3, f);
                lemma_errs_any_concat(b3, s4, f);
                if errs_any(s1, f) {
                    let k = choose|k: int| 0 <= k < s1.len() && f(s1[k]);
                    assert(false);
                }
                if errs_any(s2, f) {
                    let k = choose|k: int| 0 <= k < s2.len() && f(s2[k]);
                    assert(false);
                }
                if errs_any(s4, f) {
                    let k = choose|k: int| 0 <= k < s4.len() && f(s4[k]);
                    assert(false);
                }
            }
        } else {
            assert forall|id: Seq<char>| !has_unreachable(b4, id) by {
                let f = pred_unreachable(id);
                lemma_errs_any_concat(b1, s2, f);
                lemma_errs_any_concat(b2, s3, f);
                lemma_errs_any_concat(b3, s4, f);
                if errs_any(s1, f) {
                    let k = choose|k: int| 0 <= k < s1.len() && f(s1[k]);
                    assert(false);
                }
                if errs_any(s2, f) {
                    let k = choose|k: int| 0 <= k < s2.len() && f(s2[k]);
                    assert(false);
                }
                if errs_any(s4, f) {
                    let k = choose|k: int| 0 <= k < s4.len() && f(s4[k]);
                    assert(false);
                }
                assert(s3.len() == 0);
            }
        }
        assert(has_cycle_err(*w, b4) <==> spec_has_cycle(*w)) by {
                let f = pred_cycle_of(*w);
                lemma_errs_any_concat(b1, s2, f);
                lemma_errs_any_concat(b2, s3, f);
                lemma_errs_any_concat(b3, s4, f);
                if errs_any(s1, f) {
                    let k = choose|k: int| 0 <= k < s1.len() && f(s1[k]);
                    assert(false);
                }
                if errs_any(s2, f) {
                    let k = choose|k: int| 0 <= k < s2.len() && f(s2[k]);
                    assert(false);
                }
                if errs_any(s3, f) {
                    let k = choose|k: int| 0 <= k < s3.len() && f(s3[k]);
                    assert(false);
                }
        }
        assert forall|k: int|
            0 <= k < b4.len() implies (#[trigger] b4[k]) is EmptyWorkflow || b4[k]
                is DuplicateNodeId || b4[k] is DuplicateEdgeId || b4[k] is NoStartNode || b4[k]
                is MultipleStartNodes || b4[k] is NoEndNode || b4[k] is TriggerHasIncomingEdges
                || b4[k] is OrphanNode || b4[k] is InvalidEdgeSource || b4[k] is InvalidEdgeTarget
                || b4[k] is UnreachableNode || b4[k] is CycleDetected by {
            if k < b3.len() {
                if k < b2.len() {
                    if k < b1.len() {
                        assert(b4[k] == s1[k]);
                    } else {
                        assert(b4[k] == s2[k - b1.len()]);
                    }
                } else {
                    assert(b4[k] == s3[k - b2.len()]);
                }
            } else {
                assert(b4[k] == s4[k - b3.len()]);
            }
        }
        assert(has_any_cycle_err(b4) <==> spec_has_cycle(*w)) by {
                let f = pred_any_cycle();
                lemma_errs_any_concat(b1, s2, f);
                lemma_errs_any_concat(b2, s3, f);
                lemma_errs_any_concat(b3, s4, f);
                if errs_any(s1, f) {
                    let k = choose|k: int| 0 <= k < s1.len() && f(s1[k]);
                    assert(false);
                }
                if errs_any(s2, f) {
                    let k = choose|k: int| 0 <= k < s2.len() && f(s2[k]);
                    assert(false);
                }
                if errs_any(s3, f) {
                    let k = choose|k: int| 0 <= k < s3.len() && f(s3[k]);
                    assert(false);
                }
        }
    }
    let valid = errors.len() == 0;
    ValidationResult { valid, errors, warnings: Vec::new() }
}

/// Whether some warning in the list satisfies `f`.
pub open spec fn warns_any(
    s: Seq<ValidationWarning>,
    f: spec_fn(ValidationWarning) -> bool,
) -> bool {
    exists|k: int| 0 <= k < s.len() && f(#[trigger] s[k])
}

/// Pushing a warning changes what the list holds in exactly one way.
pub proof fn lemma_warns_any_push(
    s: Seq<ValidationWarning>,
    y: ValidationWarning,
    f: spec_fn(ValidationWarning) -> bool,
)
    ensures
        warns_any(s.push(y), f) <==> (warns_any(s, f) || f(y)),
{
    if warns_any(s.push(y), f) {
        let k = choose|k: int| 0 <= k < s.push(y).len() && f(s.push(y)[k]);
        if k < s.len() {
            assert(s.push(y)[k] == s[k]);
            assert(warns_any(s, f));
        } else {
            assert(s.push(y)[k] == y);
        }
    }
    if warns_any(s, f) {
        let k = choose|k: int| 0 <= k < s.len() && f(s[k]);
        assert(s.push(y)[k] == s[k]);
        assert(warns_any(s.push(y), f));
    }
    if f(y) {
        assert(s.push(y)[s.len() as int] == y);
        assert(warns_any(s.push(y), f));
    }
}

/// A warning satisfying `f` is in a concatenation exactly when it is in one
/// of the halves.
pub proof fn lemma_warns_any_concat(
    s1: Seq<ValidationWarning>,
    s2: Seq<ValidationWarning>,
    f: spec_fn(ValidationWarning) -> bool,
)
    ensures
        warns_any(s1 + s2, f) <==> (warns_any(s1, f) || warns_any(s2, f)),
{
    if warns_any(s1 + s2, f) {
        let k = choose|k: int| 0 <= k < (s1 + s2).len() && f((s1 + s2)[k]);
        if k < s1.len() {
            assert((s1 + s2)[k] == s1[k]);
            assert(warns_any(s1, f));
        } else {
            assert((s1 + s2)[k] == s2[k - s1.len()]);
            assert(warns_any(s2, f));
        }
    }
    if warns_any(s1, f) {
        let k = choose|k: int| 0 <= k < s1.len() && f(s1[k]);
        assert((s1 + s2)[k] == s1[k]);
        assert(warns_any(s1 + s2, f));
    }
    if warns_any(s2, f) {
        let k = choose|k: int| 0 <= k < s2.len() && f(s2[k]);
        assert((s1 + s2)[s1.len() + k] == s2[k]);
        assert(warns_any(s1 + s2, f));
    }
}

/// The predicate of a `MissingActivityName` error for this node id.
pub open spec fn pred_missing_activity(id: Seq<char>) -> spec_fn(ValidationError) -> bool {
    |e: ValidationError| e matches ValidationError::MissingActivityName { node_id } && node_id@ == id
}

/// The predicate of a `MissingRequiredField` error for this node id and
/// field.
pub open spec fn pred_missing_required(id: Seq<char>, field: Seq<char>) -> spec_fn(
    ValidationError,
) -> bool {
    |e: ValidationError|
        e matches ValidationError::MissingRequiredField { node_id, field: fl } && node_id@ == id
            && fl@ == field
}

/// The predicate of an `InvalidConfig` error for this node id.
pub open spec fn pred_invalid_config(id: Seq<char>) -> spec_fn(ValidationError) -> bool {
    |e: ValidationError| e matches ValidationError::InvalidConfig { node_id, .. } && node_id@ == id
}

/// The predicate of a `NoTimeout` warning for this node id.
pub open spec fn pred_w_no_timeout(id: Seq<char>) -> spec_fn(ValidationWarning) -> bool {
    |e: ValidationWarning| e matches ValidationWarning::NoTimeout { node_id } && node_id@ == id
}

/// The predicate of a `NoRetryPolicy` warning for this node id.
pub open spec fn pred_w_no_retry(id: Seq<char>) -> spec_fn(ValidationWarning) -> bool {
    |e: ValidationWarning| e matches ValidationWarning::NoRetryPolicy { node_id } && node_id@ == id
}

/// The predicate of a `DeadEnd` warning for this node id.
pub open spec fn pred_w_dead_end(id: Seq<char>) -> spec_fn(ValidationWarning) -> bool {
    |e: ValidationWarning| e matches ValidationWarning::DeadEnd { node_id } && node_id@ == id
}

/// The predicate of a `MissingOptionalField` warning for this node id and
/// field.
pub open spec fn pred_w_missing_opt(id: Seq<char>, field: Seq<char>) -> spec_fn(
    ValidationWarning,
) -> bool {
    |e: ValidationWarning|
        e matches ValidationWarning::MissingOptionalField { node_id, field: fl } && node_id@ == id
            && fl@ == field
}

/// The predicate of an `UnusedVariable` warning for this variable name.
pub open spec fn pred_w_unused(name: Seq<char>) -> spec_fn(ValidationWarning) -> bool {
    |e: ValidationWarning|
        e matches ValidationWarning::UnusedVariable { var_name } && var_name@ == name
}

/// The predicate of a `ConfigSuggestion` warning for this node id.
pub open spec fn pred_w_suggestion(id: Seq<char>) -> spec_fn(ValidationWarning) -> bool {
    |e: ValidationWarning|
        e matches ValidationWarning::ConfigSuggestion { node_id, .. } && node_id@ == id
}

/// Whether any edge leaves this id.
fn edge_sources_id(w: &WorkflowDefinition, id: &str) -> (r: bool)
    ensures
        r == exists|e: int| 0 <= e < w.edges@.len() && (#[trigger] w.edges@[e]).source@ == id@,
{
    let mut i: usize = 0;
    while i < w.edges.len()
        invariant
            i <= w.edges@.len(),
            forall|k: int| 0 <= k < i ==> (#[trigger] w.edges@[k]).source@ != id@,
        decreases w.edges@.len() - i,
    {
        if str_eq(w.edges[i].source.as_str(), id) {
            return true;
        }
        i = i + 1;
    }
    false
}

/// A `MissingActivityName` error for every activity node that resolves to no activity identifier.
pub open spec fn spec_missing_activity(w: WorkflowDefinition, id: Seq<char>) -> bool {
    exists|i: int|
        0 <= i < w.nodes@.len() && (#[trigger] w.nodes@[i]).id@ == id && ((w.nodes@[i].node_type is Activity || w.nodes@[i].node_type is Agent) && w.nodes@[i].data.activity_name is None && w.nodes@[i].data.component_name is None)
}

/// The condition of `spec_missing_activity`, restricted to nodes before position `b`.
pub open spec fn spec_missing_activity_before(w: WorkflowDefinition, b: int, id: Seq<char>) -> bool {
    exists|i: int| 0 <= i < b && (#[trigger] w.nodes@[i]).id@ == id && ((w.nodes@[i].node_type is Activity || w.nodes@[i].node_type is Agent) && w.nodes@[i].data.activity_name is None && w.nodes@[i].data.component_name is None)
}

#[verifier::loop_isolation(false)]
fn check_missing_activity(w: &WorkflowDefinition) -> (r: Vec<ValidationError>)
    ensures
        forall|id: Seq<char>| errs_any(r@, pred_missing_activity(id)) <==> spec_missing_activity(*w, id),
        forall|k: int| 0 <= k < r@.len() ==> (#[trigger] r@[k]) is MissingActivityName,
{
    let mut out: Vec<ValidationError> = Vec::new();
    let mut j: usize = 0;
    while j < w.nodes.len()
        invariant
            j <= w.nodes@.len(),
            forall|id: Seq<char>| errs_any(out@, pred_missing_activity(id)) <==> spec_missing_activity_before(*w, j as int, id),
            forall|k: int| 0 <= k < out@.len() ==> (#[trigger] out@[k]) is MissingActivityName,
        decreases w.nodes@.len() - j,
    {
        let node = &w.nodes[j];
        let idj = &node.id;
        if node.node_type.is_activity() && node.data.activity_name.is_none() && node.data.component_name.is_none() {
            let ghost opre = out@;
            let y = ValidationError::MissingActivityName { node_id: idj.clone() };
            out.push(y);
            proof {
                assert forall|id: Seq<char>|
                    errs_any(out@, pred_missing_activity(id)) <==> spec_missing_activity_before(*w, j + 1, id) by {
                    let f = pred_missing_activity(id);
                    assert(errs_any(opre, f) <==> spec_missing_activity_before(*w, j as int, id));
                    lemma_errs_any_push(opre, y, f);
                    if errs_any(opre, f) {
                        let i1 = choose|i1: int|
                            0 <= i1 < j && (#[trigger] w.nodes@[i1]).id@ == id && ((w.nodes@[i1].node_type is Activity || w.nodes@[i1].node_type is Agent) && w.nodes@[i1].data.activity_name is None && w.nodes@[i1].data.component_name is None);
                        assert(0 <= i1 < j + 1 && w.nodes@[i1].id@ == id);
                    }
                    if f(y) {
                        assert(id == idj@);
                        assert(0 <= j < j + 1 && (#[trigger] w.nodes@[j as int]).id@ == id);
                    }
                    if spec_missing_activity_before(*w, j + 1, id) && !spec_missing_activity_before(*w, j as int, id) {
                        let i1 = choose|i1: int|
                            0 <= i1 < j + 1 && (#[trigger] w.nodes@[i1]).id@ == id && ((w.nodes@[i1].node_type is Activity || w.nodes@[i1].node_type is Agent) && w.nodes@[i1].data.activity_name is None && w.nodes@[i1].data.component_name is None);
                        assert(i1 == j);
                        assert(id == idj@);
                        assert(f(y));
                    }
                }
            }
        } else {
            proof {
                assert forall|id: Seq<char>|
                    errs_any(out@, pred_missing_activity(id)) <==> spec_missing_activity_before(*w, j + 1, id) by {
                    assert(errs_any(out@, pred_missing_activity(id)) <==> spec_missing_activity_before(*w, j as int, id));
                    if spec_missing_activity_before(*w, j as int, id) {
                        let i1 = choose|i1: int|
                            0 <= i1 < j && (#[trigger] w.nodes@[i1]).id@ == id && ((w.nodes@[i1].node_type is Activity || w.nodes@[i1].node_type is Agent) && w.nodes@[i1].data.activity_name is None && w.nodes@[i1].data.component_name is None);
                        assert(0 <= i1 < j + 1 && w.nodes@[i1].id@ == id);
                    }
                    if spec_missing_activity_before(*w, j + 1, id) && !spec_missing_activity_before(*w, j as int, id) {
                        let i1 = choose|i1: int|
                            0 <= i1 < j + 1 && (#[trigger] w.nodes@[i1]).id@ == id && ((w.nodes@[i1].node_type is Activity || w.nodes@[i1].node_type is Agent) && w.nodes@[i1].data.activity_name is None && w.nodes@[i1].data.component_name is None);
                        assert(i1 == j);
                        assert(false);
                    }
                }
            }
        }
        j = j + 1;
    }
    proof {
        assert forall|id: Seq<char>|
            errs_any(out@, pred_missing_activity(id)) <==> spec_missing_activity(*w, id) by {
            assert(errs_any(out@, pred_missing_activity(id)) <==> spec_missing_activity_before(*w, w.nodes@.len() as int, id));
            assert(spec_missing_activity_before(*w, w.nodes@.len() as int, id) == spec_missing_activity(*w, id));
        }
    }
    out
}

/// A `NoTimeout` warning for every activity node without a timeout: the workflow default applies.
pub open spec fn spec_activity_no_timeout(w: WorkflowDefinition, id: Seq<char>) -> bool {
    exists|i: int|
        0 <= i < w.nodes@.len() && (#[trigger] w.nodes@[i]).id@ == id && ((w.nodes@[i].node_type is Activity || w.nodes@[i].node_type is Agent) && w.nodes@[i].data.timeout is None)
}

/// The condition of `spec_activity_no_timeout`, restricted to nodes before position `b`.
pub open spec fn spec_activity_no_timeout_before(w: WorkflowDefinition, b: int, id: Seq<char>) -> bool {
    exists|i: int| 0 <= i < b && (#[trigger] w.nodes@[i]).id@ == id && ((w.nodes@[i].node_type is Activity || w.nodes@[i].node_type is Agent) && w.nodes@[i].data.timeout is None)
}

#[verifier::loop_isolation(false)]
fn check_no_timeout(w: &WorkflowDefinition) -> (r: Vec<ValidationWarning>)
    ensures
        forall|id: Seq<char>| warns_any(r@, pred_w_no_timeout(id)) <==> spec_activity_no_timeout(*w, id),
        forall|k: int| 0 <= k < r@.len() ==> (#[trigger] r@[k]) is NoTimeout,
{
    let mut out: Vec<ValidationWarning> = Vec::new();
    let mut j: usize = 0;
    while j < w.nodes.len()
        invariant
            j <= w.nodes@.len(),
            forall|id: Seq<char>| warns_any(out@, pred_w_no_timeout(id)) <==> spec_activity_no_timeout_before(*w, j as int, id),
            forall|k: int| 0 <= k < out@.len() ==> (#[trigger] out@[k]) is NoTimeout,
        decreases w.nodes@.len() - j,
    {
        let node = &w.nodes[j];
        let idj = &node.id;
        if node.node_type.is_activity() && node.data.timeout.is_none() {
            let ghost opre = out@;
            let y = ValidationWarning::NoTimeout { node_id: idj.clone() };
            out.push(y);
            proof {
                assert forall|id: Seq<char>|
                    warns_any(out@, pred_w_no_timeout(id)) <==> spec_activity_no_timeout_before(*w, j + 1, id) by {
                    let f = pred_w_no_timeout(id);
                    assert(warns_any(opre, f) <==> spec_activity_no_timeout_before(*w, j as int, id));
                    lemma_warns_any_push(opre, y, f);
                    if warns_any(opre, f) {
                        let i1 = choose|i1: int|
                            0 <= i1 < j && (#[trigger] w.nodes@[i1]).id@ == id && ((w.nodes@[i1].node_type is Activity || w.nodes@[i1].node_type is Agent) && w.nodes@[i1].data.timeout is None);
                        assert(0 <= i1 < j + 1 && w.nodes@[i1].id@ == id);
                    }
                    if f(y) {
                        assert(id == idj@);
                        assert(0 <= j < j + 1 && (#[trigger] w.nodes@[j as int]).id@ == id);
                    }
                    if spec_activity_no_timeout_before(*w, j + 1, id) && !spec_activity_no_timeout_before(*w, j as int, id) {
                        let i1 = choose|i1: int|
                            0 <= i1 < j + 1 && (#[trigger] w.nodes@[i1]).id@ == id && ((w.nodes@[i1].node_type is Activity || w.nodes@[i1].node_type is Agent) && w.nodes@[i1].data.timeout is None);
                        assert(i1 == j);
                        assert(id == idj@);
                        assert(f(y));
                    }
                }
            }
        } else {
            proof {
                assert forall|id: Seq<char>|
                    warns_any(out@, pred_w_no_timeout(id)) <==> spec_activity_no_timeout_before(*w, j + 1, id) by {
                    assert(warns_any(out@, pred_w_no_timeout(id)) <==> spec_activity_no_timeout_before(*w, j as int, id));
                    if spec_activity_no_timeout_before(*w, j as int, id) {
                        let i1 = choose|i1: int|
                            0 <= i1 < j && (#[trigger] w.nodes@[i1]).id@ == id && ((w.nodes@[i1].node_type is Activity || w.nodes@[i1].node_type is Agent) && w.nodes@[i1].data.timeout is None);
                        assert(0 <= i1 < j + 1 && w.nodes@[i1].id@ == id);
                    }
                    if spec_activity_no_timeout_before(*w, j + 1, id) && !spec_activity_no_timeout_before(*w, j as int, id) {
                        let i1 = choose|i1: int|
                            0 <= i1 < j + 1 && (#[trigger] w.nodes@[i1]).id@ == id && ((w.nodes@[i1].node_type is Activity || w.nodes@[i1].node_type is Agent) && w.nodes@[i1].data.timeout is None);
                        assert(i1 == j);
                        assert(false);
                    }
                }
            }
        }
        j = j + 1;
    }
    proof {
        assert forall|id: Seq<char>|
            warns_any(out@, pred_w_no_timeout(id)) <==> spec_activity_no_timeout(*w, id) by {
            assert(warns_any(out@, pred_w_no_timeout(id)) <==> spec_activity_no_timeout_before(*w, w.nodes@.len() as int, id));
            assert(spec_activity_no_timeout_before(*w, w.nodes@.len() as int, id) == spec_activity_no_timeout(*w, id));
        }
    }
    out
}

/// A `NoRetryPolicy` warning for every activity node without a retry policy.
pub open spec fn spec_activity_no_retry(w: WorkflowDefinition, id: Seq<char>) -> bool {
    exists|i: int|
        0 <= i < w.nodes@.len() && (#[trigger] w.nodes@[i]).id@ == id && ((w.nodes@[i].node_type is Activity || w.nodes@[i].node_type is Agent) && w.nodes@[i].data.retry_policy is None)
}

/// The condition of `spec_activity_no_retry`, restricted to nodes before position `b`.
pub open spec fn spec_activity_no_retry_before(w: WorkflowDefinition, b: int, id: Seq<char>) -> bool {
    exists|i: int| 0 <= i < b && (#[trigger] w.nodes@[i]).id@ == id && ((w.nodes@[i].node_type is Activity || w.nodes@[i].node_type is Agent) && w.nodes@[i].data.retry_policy is None)
}

#[verifier::loop_isolation(false)]
fn check_no_retry(w: &WorkflowDefinition) -> (r: Vec<ValidationWarning>)
    ensures
        forall|id: Seq<char>| warns_any(r@, pred_w_no_retry(id)) <==> spec_activity_no_retry(*w, id),
        forall|k: int| 0 <= k < r@.len() ==> (#[trigger] r@[k]) is NoRetryPolicy,
{
    let mut out: Vec<ValidationWarning> = Vec::new();
    let mut j: usize = 0;
    while j < w.nodes.len()
        invariant
            j <= w.nodes@.len(),
            forall|id: Seq<char>| warns_any(out@, pred_w_no_retry(id)) <==> spec_activity_no_retry_before(*w, j as int, id),
            forall|k: int| 0 <= k < out@.len() ==> (#[trigger] out@[k]) is NoRetryPolicy,
        decreases w.nodes@.len() - j,
    {
        let node = &w.nodes[j];
        let idj = &node.id;
        if node.node_type.is_activity() && node.data.retry_policy.is_none() {
            let ghost opre = out@;
            let y = ValidationWarning::NoRetryPolicy { node_id: idj.clone() };
            out.push(y);
            proof {
                assert forall|id: Seq<char>|
                    warns_any(out@, pred_w_no_retry(id)) <==> spec_activity_no_retry_before(*w, j + 1, id) by {
                    let f = pred_w_no_retry(id);
                    assert(warns_any(opre, f) <==> spec_activity_no_retry_before(*w, j as int, id));
                    lemma_warns_any_push(opre, y, f);
                    if warns_any(opre, f) {
                        let i1 = choose|i1: int|
                            0 <= i1 < j && (#[trigger] w.nodes@[i1]).id@ == id && ((w.nodes@[i1].node_type is Activity || w.nodes@[i1].node_type is Agent) && w.nodes@[i1].data.retry_policy is None);
                        assert(0 <= i1 < j + 1 && w.nodes@[i1].id@ == id);
                    }
                    if f(y) {
                        assert(id == idj@);
                        assert(0 <= j < j + 1 && (#[trigger] w.nodes@[j as int]).id@ == id);
                    }
                    if spec_activity_no_retry_before(*w, j + 1, id) && !spec_activity_no_retry_before(*w, j as int, id) {
                        let i1 = choose|i1: int|
                            0 <= i1 < j + 1 && (#[trigger] w.nodes@[i1]).id@ == id && ((w.nodes@[i1].node_type is Activity || w.nodes@[i1].node_type is Agent) && w.nodes@[i1].data.retry_policy is None);
                        assert(i1 == j);
                        assert(id == idj@);
                        assert(f(y));
                    }
                }
            }
        } else {
            proof {
                assert forall|id: Seq<char>|
                    warns_any(out@, pred_w_no_retry(id)) <==> spec_activity_no_retry_before(*w, j + 1, id) by {
                    assert(warns_any(out@, pred_w_no_retry(id)) <==> spec_activity_no_retry_before(*w, j as int, id));
                    if spec_activity_no_retry_before(*w, j as int, id) {
                        let i1 = choose|i1: int|
                            0 <= i1 < j && (#[trigger] w.nodes@[i1]).id@ == id && ((w.nodes@[i1].node_type is Activity || w.nodes@[i1].node_type is Agent) && w.nodes@[i1].data.retry_policy is None);
                        assert(0 <= i1 < j + 1 && w.nodes@[i1].id@ == id);
                    }
                    if spec_activity_no_retry_before(*w, j + 1, id) && !spec_activity_no_retry_before(*w, j as int, id) {
                        let i1 = choose|i1: int|
                            0 <= i1 < j + 1 && (#[trigger] w.nodes@[i1]).id@ == id && ((w.nodes@[i1].node_type is Activity || w.nodes@[i1].node_type is Agent) && w.nodes@[i1].data.retry_policy is None);
                        assert(i1 == j);
                        assert(false);
                    }
                }
            }
        }
        j = j + 1;
    }
    proof {
        assert forall|id: Seq<char>|
            warns_any(out@, pred_w_no_retry(id)) <==> spec_activity_no_retry(*w, id) by {
            assert(warns_any(out@, pred_w_no_retry(id)) <==> spec_activity_no_retry_before(*w, w.nodes@.len() as int, id));
            assert(spec_activity_no_retry_before(*w, w.nodes@.len() as int, id) == spec_activity_no_retry(*w, id));
        }
    }
    out
}

/// A `MissingRequiredField` error for every signal node without a signal name.
pub open spec fn spec_signal_missing_name(w: WorkflowDefinition, id: Seq<char>) -> bool {
    exists|i: int|
        0 <= i < w.nodes@.len() && (#[trigger] w.nodes@[i]).id@ == id && (w.nodes@[i].node_type is Signal && w.nodes@[i].data.signal_name is None)
}

/// The condition of `spec_signal_missing_name`, restricted to nodes before position `b`.
pub open spec fn spec_signal_missing_name_before(w: WorkflowDefinition, b: int, id: Seq<char>) -> bool {
    exists|i: int| 0 <= i < b && (#[trigger] w.nodes@[i]).id@ == id && (w.nodes@[i].node_type is Signal && w.nodes@[i].data.signal_name is None)
}

#[verifier::loop_isolation(false)]
fn check_signal_names(w: &WorkflowDefinition) -> (r: Vec<ValidationError>)
    ensures
        forall|id: Seq<char>| errs_any(r@, pred_missing_required(id, "signalName"@)) <==> spec_signal_missing_name(*w, id),
        forall|k: int| 0 <= k < r@.len() ==> ((#[trigger] r@[k]) matches ValidationError::MissingRequiredField { node_id, field } && field@ == "signalName"@),
{
    let mut out: Vec<ValidationError> = Vec::new();
    let mut j: usize = 0;
    while j < w.nodes.len()
        invariant
            j <= w.nodes@.len(),
            forall|id: Seq<char>| errs_any(out@, pred_missing_required(id, "signalName"@)) <==> spec_signal_missing_name_before(*w, j as int, id),
            forall|k: int| 0 <= k < out@.len() ==> ((#[trigger] out@[k]) matches ValidationError::MissingRequiredField { node_id, field } && field@ == "signalName"@),
        decreases w.nodes@.len() - j,
    {
        let node = &w.nodes[j];
        let idj = &node.id;
        if matches!(node.node_type, crate::schema::NodeType::Signal) && node.data.signal_name.is_none() {
            let ghost opre = out@;
            let y = ValidationError::MissingRequiredField { node_id: idj.clone(), field: String::from_str("signalName") };
            out.push(y);
            proof {
                assert forall|id: Seq<char>|
                    errs_any(out@, pred_missing_required(id, "signalName"@)) <==> spec_signal_missing_name_before(*w, j + 1, id) by {
                    let f = pred_missing_required(id, "signalName"@);
                    assert(errs_any(opre, f) <==> spec_signal_missing_name_before(*w, j as int, id));
                    lemma_errs_any_push(opre, y, f);
                    if errs_any(opre, f) {
                        let i1 = choose|i1: int|
                            0 <= i1 < j && (#[trigger] w.nodes@[i1]).id@ == id && (w.nodes@[i1].node_type is Signal && w.nodes@[i1].data.signal_name is None);
                        assert(0 <= i1 < j + 1 && w.nodes@[i1].id@ == id);
                    }
                    if f(y) {
                        assert(id == idj@);
                        assert(0 <= j < j + 1 && (#[trigger] w.nodes@[j as int]).id@ == id);
                    }
                    if spec_signal_missing_name_before(*w, j + 1, id) && !spec_signal_missing_name_before(*w, j as int, id) {
                        let i1 = choose|i1: int|
                            0 <= i1 < j + 1 && (#[trigger] w.nodes@[i1]).id@ == id && (w.nodes@[i1].node_type is Signal && w.nodes@[i1].data.signal_name is None);
                        assert(i1 == j);
                        assert(id == idj@);
                        assert(f(y));
                    }
                }
            }
        } else {
            proof {
                assert forall|id: Seq<char>|
                    errs_any(out@, pred_missing_required(id, "signalName"@)) <==> spec_signal_missing_name_before(*w, j + 1, id) by {
                    assert(errs_any(out@, pred_missing_required(id, "signalName"@)) <==> spec_signal_missing_name_before(*w, j as int, id));
                    if spec_signal_missing_name_before(*w, j as int, id) {
                        let i1 = choose|i1: int|
                            0 <= i1 < j && (#[trigger] w.nodes@[i1]).id@ == id && (w.nodes@[i1].node_type is Signal && w.nodes@[i1].data.signal_name is None);
                        assert(0 <= i1 < j + 1 && w.nodes@[i1].id@ == id);
                    }
                    if spec_signal_missing_name_before(*w, j + 1, id) && !spec_signal_missing_name_before(*w, j as int, id) {
                        let i1 = choose|i1: int|
                            0 <= i1 < j + 1 && (#[trigger] w.nodes@[i1]).id@ == id && (w.nodes@[i1].node_type is Signal && w.nodes@[i1].data.signal_name is None);
                        assert(i1 == j);
                        assert(false);
                    }
                }
            }
        }
        j = j + 1;
    }
    proof {
        assert forall|id: Seq<char>|
            errs_any(out@, pred_missing_required(id, "signalName"@)) <==> spec_signal_missing_name(*w, id) by {
            assert(errs_any(out@, pred_missing_required(id, "signalName"@)) <==> spec_signal_missing_name_before(*w, w.nodes@.len() as int, id));
            assert(spec_signal_missing_name_before(*w, w.nodes@.len() as int, id) == spec_signal_missing_name(*w, id));
        }
    }
    out
}

/// A `MissingRequiredField` error for every child-workflow node without a target workflow id.
pub open spec fn spec_child_missing_workflow(w: WorkflowDefinition, id: Seq<char>) -> bool {
    exists|i: int|
        0 <= i < w.nodes@.len() && (#[trigger] w.nodes@[i]).id@ == id && (w.nodes@[i].node_type is ChildWorkflow && w.nodes@[i].data.workflow_id is None)
}

/// The condition of `spec_child_missing_workflow`, restricted to nodes before position `b`.
pub open spec fn spec_child_missing_workflow_before(w: WorkflowDefinition, b: int, id: Seq<char>) -> bool {
    exists|i: int| 0 <= i < b && (#[trigger] w.nodes@[i]).id@ == id && (w.nodes@[i].node_type is ChildWorkflow && w.nodes@[i].data.workflow_id is None)
}

#[verifier::loop_isolation(false)]
fn check_child_workflows(w: &WorkflowDefinition) -> (r: Vec<ValidationError>)
    ensures
        forall|id: Seq<char>| errs_any(r@, pred_missing_required(id, "workflowId"@)) <==> spec_child_missing_workflow(*w, id),
        forall|k: int| 0 <= k < r@.len() ==> ((#[trigger] r@[k]) matches ValidationError::MissingRequiredField { node_id, field } && field@ == "workflowId"@),
{
    let mut out: Vec<ValidationError> = Vec::new();
    let mut j: usize = 0;
    while j < w.nodes.len()
        invariant
            j <= w.nodes@.len(),
            forall|id: Seq<char>| errs_any(out@, pred_missing_required(id, "workflowId"@)) <==> spec_child_missing_workflow_before(*w, j as int, id),
            forall|k: int| 0 <= k < out@.len() ==> ((#[trigger] out@[k]) matches ValidationError::MissingRequiredField { node_id, field } && field@ == "workflowId"@),
        decreases w.nodes@.len() - j,
    {
        let node = &w.nodes[j];
        let idj = &node.id;
        if matches!(node.node_type, crate::schema::NodeType::ChildWorkflow) && node.data.workflow_id.is_none() {
            let ghost opre = out@;
            let y = ValidationError::MissingRequiredField { node_id: idj.clone(), field: String::from_str("workflowId") };
            out.push(y);
            proof {
                assert forall|id: Seq<char>|
                    errs_any(out@, pred_missing_required(id, "workflowId"@)) <==> spec_child_missing_workflow_before(*w, j + 1, id) by {
                    let f = pred_missing_required(id, "workflowId"@);
                    assert(errs_any(opre, f) <==> spec_child_missing_workflow_before(*w, j as int, id));
                    lemma_errs_any_push(opre, y, f);
                    if errs_any(opre, f) {
                        let i1 = choose|i1: int|
                            0 <= i1 < j && (#[trigger] w.nodes@[i1]).id@ == id && (w.nodes@[i1].node_type is ChildWorkflow && w.nodes@[i1].data.workflow_id is None);
                        assert(0 <= i1 < j + 1 && w.nodes@[i1].id@ == id);
                    }
                    if f(y) {
                        assert(id == idj@);
                        assert(0 <= j < j + 1 && (#[trigger] w.nodes@[j as int]).id@ == id);
                    }
                    if spec_child_missing_workflow_before(*w, j + 1, id) && !spec_child_missing_workflow_before(*w, j as int, id) {
                        let i1 = choose|i1: int|
                            0 <= i1 < j + 1 && (#[trigger] w.nodes@[i1]).id@ == id && (w.nodes@[i1].node_type is ChildWorkflow && w.nodes@[i1].data.workflow_id is None);
                        assert(i1 == j);
                        assert(id == idj@);
                        assert(f(y));
                    }
                }
            }
        } else {
            proof {
                assert forall|id: Seq<char>|
                    errs_any(out@, pred_missing_required(id, "workflowId"@)) <==> spec_child_missing_workflow_before(*w, j + 1, id) by {
                    assert(errs_any(out@, pred_missing_required(id, "workflowId"@)) <==> spec_child_missing_workflow_before(*w, j as int, id));
                    if spec_child_missing_workflow_before(*w, j as int, id) {
                        let i1 = choose|i1: int|
                            0 <= i1 < j && (#[trigger] w.nodes@[i1]).id@ == id && (w.nodes@[i1].node_type is ChildWorkflow && w.nodes@[i1].data.workflow_id is None);
                        assert(0 <= i1 < j + 1 && w.nodes@[i1].id@ == id);
                    }
                    if spec_child_missing_workflow_before(*w, j + 1, id) && !spec_child_missing_workflow_before(*w, j as int, id) {
                        let i1 = choose|i1: int|
                            0 <= i1 < j + 1 && (#[trigger] w.nodes@[i1]).id@ == id && (w.nodes@[i1].node_type is ChildWorkflow && w.nodes@[i1].data.workflow_id is None);
                        assert(i1 == j);
                        assert(false);
                    }
                }
            }
        }
        j = j + 1;
    }
    proof {
        assert forall|id: Seq<char>|
            errs_any(out@, pred_missing_required(id, "workflowId"@)) <==> spec_child_missing_workflow(*w, id) by {
            assert(errs_any(out@, pred_missing_required(id, "workflowId"@)) <==> spec_child_missing_workflow_before(*w, w.nodes@.len() as int, id));
            assert(spec_child_missing_workflow_before(*w, w.nodes@.len() as int, id) == spec_child_missing_workflow(*w, id));
        }
    }
    out
}

/// An `InvalidConfig` error for every state-variable node with neither a label nor a configuration map.
pub open spec fn spec_state_var_unconfigured(w: WorkflowDefinition, id: Seq<char>) -> bool {
    exists|i: int|
        0 <= i < w.nodes@.len() && (#[trigger] w.nodes@[i]).id@ == id && (w.nodes@[i].node_type is StateVariable && w.nodes@[i].data.label@.len() == 0 && w.nodes@[i].data.config is None)
}

/// The condition of `spec_state_var_unconfigured`, restricted to nodes before position `b`.
pub open spec fn spec_state_var_unconfigured_before(w: WorkflowDefinition, b: int, id: Seq<char>) -> bool {
    exists|i: int| 0 <= i < b && (#[trigger] w.nodes@[i]).id@ == id && (w.nodes@[i].node_type is StateVariable && w.nodes@[i].data.label@.len() == 0 && w.nodes@[i].data.config is None)
}

#[verifier::loop_isolation(false)]
fn check_state_variables(w: &WorkflowDefinition) -> (r: Vec<ValidationError>)
    ensures
        forall|id: Seq<char>| errs_any(r@, pred_invalid_config(id)) <==> spec_state_var_unconfigured(*w, id),
        forall|k: int| 0 <= k < r@.len() ==> (#[trigger] r@[k]) is InvalidConfig,
{
    let mut out: Vec<ValidationError> = Vec::new();
    let mut j: usize = 0;
    while j < w.nodes.len()
        invariant
            j <= w.nodes@.len(),
            forall|id: Seq<char>| errs_any(out@, pred_invalid_config(id)) <==> spec_state_var_unconfigured_before(*w, j as int, id),
            forall|k: int| 0 <= k < out@.len() ==> (#[trigger] out@[k]) is InvalidConfig,
        decreases w.nodes@.len() - j,
    {
        let node = &w.nodes[j];
        let idj = &node.id;
        if matches!(node.node_type, crate::schema::NodeType::StateVariable) && node.data.label.as_str().is_empty() && node.data.config.is_none() {
            let ghost opre = out@;
            let y = ValidationError::InvalidConfig { node_id: idj.clone(), message: String::from_str("State variable node must have a label or config") };
            out.push(y);
            proof {
                assert forall|id: Seq<char>|
                    errs_any(out@, pred_invalid_config(id)) <==> spec_state_var_unconfigured_before(*w, j + 1, id) by {
                    let f = pred_invalid_config(id);
                    assert(errs_any(opre, f) <==> spec_state_var_unconfigured_before(*w, j as int, id));
                    lemma_errs_any_push(opre, y, f);
                    if errs_any(opre, f) {
                        let i1 = choose|i1: int|
                            0 <= i1 < j && (#[trigger] w.nodes@[i1]).id@ == id && (w.nodes@[i1].node_type is StateVariable && w.nodes@[i1].data.label@.len() == 0 && w.nodes@[i1].data.config is None);
                        assert(0 <= i1 < j + 1 && w.nodes@[i1].id@ == id);
                    }
                    if f(y) {
                        assert(id == idj@);
                        assert(0 <= j < j + 1 && (#[trigger] w.nodes@[j as int]).id@ == id);
                    }
                    if spec_state_var_unconfigured_before(*w, j + 1, id) && !spec_state_var_unconfigured_before(*w, j as int, id) {
                        let i1 = choose|i1: int|
                            0 <= i1 < j + 1 && (#[trigger] w.nodes@[i1]).id@ == id && (w.nodes@[i1].node_type is StateVariable && w.nodes@[i1].data.label@.len() == 0 && w.nodes@[i1].data.config is None);
                        assert(i1 == j);
                        assert(id == idj@);
                        assert(f(y));
                    }
                }
            }
        } else {
            proof {
                assert forall|id: Seq<char>|
                    errs_any(out@, pred_invalid_config(id)) <==> spec_state_var_unconfigured_before(*w, j + 1, id) by {
                    assert(errs_any(out@, pred_invalid_config(id)) <==> spec_state_var_unconfigured_before(*w, j as int, id));
                    if spec_state_var_unconfigured_before(*w, j as int, id) {
                        let i1 = choose|i1: int|
                            0 <= i1 < j && (#[trigger] w.nodes@[i1]).id@ == id && (w.nodes@[i1].node_type is StateVariable && w.nodes@[i1].data.label@.len() == 0 && w.nodes@[i1].data.config is None);
                        assert(0 <= i1 < j + 1 && w.nodes@[i1].id@ == id);
                    }
                    if spec_state_var_unconfigured_before(*w, j + 1, id) && !spec_state_var_unconfigured_before(*w, j as int, id) {
                        let i1 = choose|i1: int|
                            0 <= i1 < j + 1 && (#[trigger] w.nodes@[i1]).id@ == id && (w.nodes@[i1].node_type is StateVariable && w.nodes@[i1].data.label@.len() == 0 && w.nodes@[i1].data.config is None);
                        assert(i1 == j);
                        assert(false);
                    }
                }
            }
        }
        j = j + 1;
    }
    proof {
        assert forall|id: Seq<char>|
            errs_any(out@, pred_invalid_config(id)) <==> spec_state_var_unconfigured(*w, id) by {
            assert(errs_any(out@, pred_invalid_config(id)) <==> spec_state_var_unconfigured_before(*w, w.nodes@.len() as int, id));
            assert(spec_state_var_unconfigured_before(*w, w.nodes@.len() as int, id) == spec_state_var_unconfigured(*w, id));
        }
    }
    out
}

/// A `MissingOptionalField` warning for every conditional node without a condition expression.
pub open spec fn spec_cond_missing(w: WorkflowDefinition, id: Seq<char>) -> bool {
    exists|i: int|
        0 <= i < w.nodes@.len() && (#[trigger] w.nodes@[i]).id@ == id && ((w.nodes@[i].node_type is Conditional || w.nodes@[i].node_type is Condition) && w.nodes@[i].data.condition is None)
}

/// The condition of `spec_cond_missing`, restricted to nodes before position `b`.
pub open spec fn spec_cond_missing_before(w: WorkflowDefinition, b: int, id: Seq<char>) -> bool {
    exists|i: int| 0 <= i < b && (#[trigger] w.nodes@[i]).id@ == id && ((w.nodes@[i].node_type is Conditional || w.nodes@[i].node_type is Condition) && w.nodes@[i].data.condition is None)
}

#[verifier::loop_isolation(false)]
fn check_conditions(w: &WorkflowDefinition) -> (r: Vec<ValidationWarning>)
    ensures
        forall|id: Seq<char>| warns_any(r@, pred_w_missing_opt(id, "condition"@)) <==> spec_cond_missing(*w, id),
        forall|k: int| 0 <= k < r@.len() ==> ((#[trigger] r@[k]) matches ValidationWarning::MissingOptionalField { node_id, field } && field@ == "condition"@),
{
    let mut out: Vec<ValidationWarning> = Vec::new();
    let mut j: usize = 0;
    while j < w.nodes.len()
        invariant
            j <= w.nodes@.len(),
            forall|id: Seq<char>| warns_any(out@, pred_w_missing_opt(id, "condition"@)) <==> spec_cond_missing_before(*w, j as int, id),
            forall|k: int| 0 <= k < out@.len() ==> ((#[trigger] out@[k]) matches ValidationWarning::MissingOptionalField { node_id, field } && field@ == "condition"@),
        decreases w.nodes@.len() - j,
    {
        let node = &w.nodes[j];
        let idj = &node.id;
        if matches!(node.node_type, crate::schema::NodeType::Conditional | crate::schema::NodeType::Condition) && node.data.condition.is_none() {
            let ghost opre = out@;
            let y = ValidationWarning::MissingOptionalField { node_id: idj.clone(), field: String::from_str("condition") };
            out.push(y);
            proof {
                assert forall|id: Seq<char>|
                    warns_any(out@, pred_w_missing_opt(id, "condition"@)) <==> spec_cond_missing_before(*w, j + 1, id) by {
                    let f = pred_w_missing_opt(id, "condition"@);
                    assert(warns_any(opre, f) <==> spec_cond_missing_before(*w, j as int, id));
                    lemma_warns_any_push(opre, y, f);
                    if warns_any(opre, f) {
                        let i1 = choose|i1: int|
                            0 <= i1 < j && (#[trigger] w.nodes@[i1]).id@ == id && ((w.nodes@[i1].node_type is Conditional || w.nodes@[i1].node_type is Condition) && w.nodes@[i1].data.condition is None);
                        assert(0 <= i1 < j + 1 && w.nodes@[i1].id@ == id);
                    }
                    if f(y) {
                        assert(id == idj@);
                        assert(0 <= j < j + 1 && (#[trigger] w.nodes@[j as int]).id@ == id);
                    }
                    if spec_cond_missing_before(*w, j + 1, id) && !spec_cond_missing_before(*w, j as int, id) {
                        let i1 = choose|i1: int|
                            0 <= i1 < j + 1 && (#[trigger] w.nodes@[i1]).id@ == id && ((w.nodes@[i1].node_type is Conditional || w.nodes@[i1].node_type is Condition) && w.nodes@[i1].data.condition is None);
                        assert(i1 == j);
                        assert(id == idj@);
                        assert(f(y));
                    }
                }
            }
        } else {
            proof {
                assert forall|id: Seq<char>|
                    warns_any(out@, pred_w_missing_opt(id, "condition"@)) <==> spec_cond_missing_before(*w, j + 1, id) by {
                    assert(warns_any(out@, pred_w_missing_opt(id, "condition"@)) <==> spec_cond_missing_before(*w, j as int, id));
                    if spec_cond_missing_before(*w, j as int, id) {
                        let i1 = choose|i1: int|
                            0 <= i1 < j && (#[trigger] w.nodes@[i1]).id@ == id && ((w.nodes@[i1].node_type is Conditional || w.nodes@[i1].node_type is Condition) && w.nodes@[i1].data.condition is None);
                        assert(0 <= i1 < j + 1 && w.nodes@[i1].id@ == id);
                    }
                    if spec_cond_missing_before(*w, j + 1, id) && !spec_cond_missing_before(*w, j as int, id) {
                        let i1 = choose|i1: int|
                            0 <= i1 < j + 1 && (#[trigger] w.nodes@[i1]).id@ == id && ((w.nodes@[i1].node_type is Conditional || w.nodes@[i1].node_type is Condition) && w.nodes@[i1].data.condition is None);
                        assert(i1 == j);
                        assert(false);
                    }
                }
            }
        }
        j = j + 1;
    }
    proof {
        assert forall|id: Seq<char>|
            warns_any(out@, pred_w_missing_opt(id, "condition"@)) <==> spec_cond_missing(*w, id) by {
            assert(warns_any(out@, pred_w_missing_opt(id, "condition"@)) <==> spec_cond_missing_before(*w, w.nodes@.len() as int, id));
            assert(spec_cond_missing_before(*w, w.nodes@.len() as int, id) == spec_cond_missing(*w, id));
        }
    }
    out
}

/// A `MissingOptionalField` warning for every Kong component without a configuration map.
pub open spec fn spec_kong_no_config(w: WorkflowDefinition, id: Seq<char>) -> bool {
    exists|i: int|
        0 <= i < w.nodes@.len() && (#[trigger] w.nodes@[i]).id@ == id && ((w.nodes@[i].node_type is KongLogging || w.nodes@[i].node_type is KongCache || w.nodes@[i].node_type is KongCors) && w.nodes@[i].data.config is None)
}

/// The condition of `spec_kong_no_config`, restricted to nodes before position `b`.
pub open spec fn spec_kong_no_config_before(w: WorkflowDefinition, b: int, id: Seq<char>) -> bool {
    exists|i: int| 0 <= i < b && (#[trigger] w.nodes@[i]).id@ == id && ((w.nodes@[i].node_type is KongLogging || w.nodes@[i].node_type is KongCache || w.nodes@[i].node_type is KongCors) && w.nodes@[i].data.config is None)
}

#[verifier::loop_isolation(false)]
fn check_kong_configs(w: &WorkflowDefinition) -> (r: Vec<ValidationWarning>)
    ensures
        forall|id: Seq<char>| warns_any(r@, pred_w_missing_opt(id, "config"@)) <==> spec_kong_no_config(*w, id),
        forall|k: int| 0 <= k < r@.len() ==> ((#[trigger] r@[k]) matches ValidationWarning::MissingOptionalField { node_id, field } && field@ == "config"@),
{
    let mut out: Vec<ValidationWarning> = Vec::new();
    let mut j: usize = 0;
    while j < w.nodes.len()
        invariant
            j <= w.nodes@.len(),
            forall|id: Seq<char>| warns_any(out@, pred_w_missing_opt(id, "config"@)) <==> spec_kong_no_config_before(*w, j as int, id),
            forall|k: int| 0 <= k < out@.len() ==> ((#[trigger] out@[k]) matches ValidationWarning::MissingOptionalField { node_id, field } && field@ == "config"@),
        decreases w.nodes@.len() - j,
    {
        let node = &w.nodes[j];
        let idj = &node.id;
        if node.node_type.is_kong_component() && node.data.config.is_none() {
            let ghost opre = out@;
            let y = ValidationWarning::MissingOptionalField { node_id: idj.clone(), field: String::from_str("config") };
            out.push(y);
            proof {
                assert forall|id: Seq<char>|
                    warns_any(out@, pred_w_missing_opt(id, "config"@)) <==> spec_kong_no_config_before(*w, j + 1, id) by {
                    let f = pred_w_missing_opt(id, "config"@);
                    assert(warns_any(opre, f) <==> spec_kong_no_config_before(*w, j as int, id));
                    lemma_warns_any_push(opre, y, f);
                    if warns_any(opre, f) {
                        let i1 = choose|i1: int|
                            0 <= i1 < j && (#[trigger] w.nodes@[i1]).id@ == id && ((w.nodes@[i1].node_type is KongLogging || w.nodes@[i1].node_type is KongCache || w.nodes@[i1].node_type is KongCors) && w.nodes@[i1].data.config is None);
                        assert(0 <= i1 < j + 1 && w.nodes@[i1].id@ == id);
                    }
                    if f(y) {
                        assert(id == idj@);
                        assert(0 <= j < j + 1 && (#[trigger] w.nodes@[j as int]).id@ == id);
                    }
                    if spec_kong_no_config_before(*w, j + 1, id) && !spec_kong_no_config_before(*w, j as int, id) {
                        let i1 = choose|i1: int|
                            0 <= i1 < j + 1 && (#[trigger] w.nodes@[i1]).id@ == id && ((w.nodes@[i1].node_type is KongLogging || w.nodes@[i1].node_type is KongCache || w.nodes@[i1].node_type is KongCors) && w.nodes@[i1].data.config is None);
                        assert(i1 == j);
                        assert(id == idj@);
                        assert(f(y));
                    }
                }
            }
        } else {
            proof {
                assert forall|id: Seq<char>|
                    warns_any(out@, pred_w_missing_opt(id, "config"@)) <==> spec_kong_no_config_before(*w, j + 1, id) by {
                    assert(warns_any(out@, pred_w_missing_opt(id, "config"@)) <==> spec_kong_no_config_before(*w, j as int, id));
                    if spec_kong_no_config_before(*w, j as int, id) {
                        let i1 = choose|i1: int|
                            0 <= i1 < j && (#[trigger] w.nodes@[i1]).id@ == id && ((w.nodes@[i1].node_type is KongLogging || w.nodes@[i1].node_type is KongCache || w.nodes@[i1].node_type is KongCors) && w.nodes@[i1].data.config is None);
                        assert(0 <= i1 < j + 1 && w.nodes@[i1].id@ == id);
                    }
                    if spec_kong_no_config_before(*w, j + 1, id) && !spec_kong_no_config_before(*w, j as int, id) {
                        let i1 = choose|i1: int|
                            0 <= i1 < j + 1 && (#[trigger] w.nodes@[i1]).id@ == id && ((w.nodes@[i1].node_type is KongLogging || w.nodes@[i1].node_type is KongCache || w.nodes@[i1].node_type is KongCors) && w.nodes@[i1].data.config is None);
                        assert(i1 == j);
                        assert(false);
                    }
                }
            }
        }
        j = j + 1;
    }
    proof {
        assert forall|id: Seq<char>|
            warns_any(out@, pred_w_missing_opt(id, "config"@)) <==> spec_kong_no_config(*w, id) by {
            assert(warns_any(out@, pred_w_missing_opt(id, "config"@)) <==> spec_kong_no_config_before(*w, w.nodes@.len() as int, id));
            assert(spec_kong_no_config_before(*w, w.nodes@.len() as int, id) == spec_kong_no_config(*w, id));
        }
    }
    out
}

/// A `DeadEnd` warning for every non-end node with no outgoing edges.
pub open spec fn spec_dead_end(w: WorkflowDefinition, id: Seq<char>) -> bool {
    exists|i: int|
        0 <= i < w.nodes@.len() && (#[trigger] w.nodes@[i]).id@ == id && (!(w.nodes@[i].node_type is End) && !(exists|e: int| 0 <= e < w.edges@.len() && (#[trigger] w.edges@[e]).source@ == id))
}

/// The condition of `spec_dead_end`, restricted to nodes before position `b`.
pub open spec fn spec_dead_end_before(w: WorkflowDefinition, b: int, id: Seq<char>) -> bool {
    exists|i: int| 0 <= i < b && (#[trigger] w.nodes@[i]).id@ == id && (!(w.nodes@[i].node_type is End) && !(exists|e: int| 0 <= e < w.edges@.len() && (#[trigger] w.edges@[e]).source@ == id))
}

#[verifier::loop_isolation(false)]
fn check_dead_ends(w: &WorkflowDefinition) -> (r: Vec<ValidationWarning>)
    ensures
        forall|id: Seq<char>| warns_any(r@, pred_w_dead_end(id)) <==> spec_dead_end(*w, id),
        forall|k: int| 0 <= k < r@.len() ==> (#[trigger] r@[k]) is DeadEnd,
{
    let mut out: Vec<ValidationWarning> = Vec::new();
    let mut j: usize = 0;
    while j < w.nodes.len()
        invariant
            j <= w.nodes@.len(),
            forall|id: Seq<char>| warns_any(out@, pred_w_dead_end(id)) <==> spec_dead_end_before(*w, j as int, id),
            forall|k: int| 0 <= k < out@.len() ==> (#[trigger] out@[k]) is DeadEnd,
        decreases w.nodes@.len() - j,
    {
        let node = &w.nodes[j];
        let idj = &node.id;
        if !node.node_type.is_end() && !edge_sources_id(w, idj.as_str()) {
            let ghost opre = out@;
            let y = ValidationWarning::DeadEnd { node_id: idj.clone() };
            out.push(y);
            proof {
                assert forall|id: Seq<char>|
                    warns_any(out@, pred_w_dead_end(id)) <==> spec_dead_end_before(*w, j + 1, id) by {
                    let f = pred_w_dead_end(id);
                    assert(warns_any(opre, f) <==> spec_dead_end_before(*w, j as int, id));
                    lemma_warns_any_push(opre, y, f);
                    if warns_any(opre, f) {
                        let i1 = choose|i1: int|
                            0 <= i1 < j && (#[trigger] w.nodes@[i1]).id@ == id && (!(w.nodes@[i1].node_type is End) && !(exists|e: int| 0 <= e < w.edges@.len() && (#[trigger] w.edges@[e]).source@ == id));
                        assert(0 <= i1 < j + 1 && w.nodes@[i1].id@ == id);
                    }
                    if f(y) {
                        assert(id == idj@);
                        assert(0 <= j < j + 1 && (#[trigger] w.nodes@[j as int]).id@ == id);
                    }
                    if spec_dead_end_before(*w, j + 1, id) && !spec_dead_end_before(*w, j as int, id) {
                        let i1 = choose|i1: int|
                            0 <= i1 < j + 1 && (#[trigger] w.nodes@[i1]).id@ == id && (!(w.nodes@[i1].node_type is End) && !(exists|e: int| 0 <= e < w.edges@.len() && (#[trigger] w.edges@[e]).source@ == id));
                        assert(i1 == j);
                        assert(id == idj@);
                        assert(f(y));
                    }
                }
            }
        } else {
            proof {
                assert forall|id: Seq<char>|
                    warns_any(out@, pred_w_dead_end(id)) <==> spec_dead_end_before(*w, j + 1, id) by {
                    assert(warns_any(out@, pred_w_dead_end(id)) <==> spec_dead_end_before(*w, j as int, id));
                    if spec_dead_end_before(*w, j as int, id) {
                        let i1 = choose|i1: int|
                            0 <= i1 < j && (#[trigger] w.nodes@[i1]).id@ == id && (!(w.nodes@[i1].node_type is End) && !(exists|e: int| 0 <= e < w.edges@.len() && (#[trigger] w.edges@[e]).source@ == id));
                        assert(0 <= i1 < j + 1 && w.nodes@[i1].id@ == id);
                    }
                    if spec_dead_end_before(*w, j + 1, id) && !spec_dead_end_before(*w, j as int, id) {
                        let i1 = choose|i1: int|
                            0 <= i1 < j + 1 && (#[trigger] w.nodes@[i1]).id@ == id && (!(w.nodes@[i1].node_type is End) && !(exists|e: int| 0 <= e < w.edges@.len() && (#[trigger] w.edges@[e]).source@ == id));
                        assert(i1 == j);
                        assert(false);
                    }
                }
            }
        }
        j = j + 1;
    }
    proof {
        assert forall|id: Seq<char>|
            warns_any(out@, pred_w_dead_end(id)) <==> spec_dead_end(*w, id) by {
            assert(warns_any(out@, pred_w_dead_end(id)) <==> spec_dead_end_before(*w, w.nodes@.len() as int, id));
            assert(spec_dead_end_before(*w, w.nodes@.len() as int, id) == spec_dead_end(*w, id));
        }
    }
    out
}

/// The variable name that a configuration string references, where the
/// whole string is one wrapped reference: `{{name}}` or `${name}`.
pub open spec fn spec_wrapped_name(s: Seq<char>) -> Option<Seq<char>> {
    if s.len() >= 4 && s[0] == '{' && s[1] == '{' && s[s.len() - 2] == '}' && s[s.len() - 1]
        == '}' {
        Option::Some(s.subrange(2, s.len() - 2))
    } else if s.len() >= 3 && s[0] == '$' && s[1] == '{' && s[s.len() - 1] == '}' {
        Option::Some(s.subrange(2, s.len() - 1))
    } else {
        Option::None
    }
}

/// The name this string references, where the whole string is one wrapped
/// reference.
fn wrapped_name(s: &str) -> (r: Option<String>)
    ensures
        match r {
            Option::Some(n) => spec_wrapped_name(s@) == Option::Some(n@),
            Option::None => spec_wrapped_name(s@) is None,
        },
{
    let len = s.unicode_len();
    if len >= 4 && s.get_char(0) == '{' && s.get_char(1) == '{' && s.get_char(len - 2) == '}'
        && s.get_char(len - 1) == '}' {
        let mut name = String::new();
        let mut i: usize = 2;
        while i < len - 2
            invariant
                2 <= i <= len - 2,
                len == s@.len(),
                4 <= len,
                name@ == s@.subrange(2, i as int),
            decreases len - 2 - i,
        {
            crate::text::push_char(&mut name, s.get_char(i));
            proof {
                assert(s@.subrange(2, i + 1) =~= s@.subrange(2, i as int).push(s@[i as int]));
            }
            i = i + 1;
        }
        Option::Some(name)
    } else if len >= 3 && s.get_char(0) == '$' && s.get_char(1) == '{' && s.get_char(len - 1)
        == '}' {
        let mut name = String::new();
        let mut i: usize = 2;
        while i < len - 1
            invariant
                2 <= i <= len - 1,
                len == s@.len(),
                3 <= len,
                name@ == s@.subrange(2, i as int),
            decreases len - 1 - i,
        {
            crate::text::push_char(&mut name, s.get_char(i));
            proof {
                assert(s@.subrange(2, i + 1) =~= s@.subrange(2, i as int).push(s@[i as int]));
            }
            i = i + 1;
        }
        Option::Some(name)
    } else {
        Option::None
    }
}

/// Whether this configuration value references the name anywhere in its
/// tree, as a whole-string wrapped reference.
pub open spec fn spec_value_has_ref(v: crate::json::JsonValue, name: Seq<char>) -> bool
    decreases v,
{
    match v {
        crate::json::JsonValue::Str(s) => spec_wrapped_name(s@) == Option::Some(name),
        crate::json::JsonValue::Arr(items) => exists|i: int|
            0 <= i < items@.len() && spec_value_has_ref(#[trigger] items@[i], name),
        crate::json::JsonValue::Obj(fields) => exists|i: int|
            0 <= i < fields@.len() && spec_value_has_ref((#[trigger] fields@[i]).1, name),
        _ => false,
    }
}

/// Collects into `used` every name this value references.
#[verifier::loop_isolation(false)]
fn collect_value_refs(v: &crate::json::JsonValue, used: &mut Vec<String>)
    ensures
        forall|name: Seq<char>|
            #![trigger in_ids(final(used)@, name)]
            in_ids(final(used)@, name) <==> in_ids(old(used)@, name) || spec_value_has_ref(
                *v,
                name,
            ),
    decreases *v,
{
    match v {
        crate::json::JsonValue::Str(s) => {
            match wrapped_name(s.as_str()) {
                Option::Some(n) => {
                    if !contains_id(used, n.as_str()) {
                        let ghost upre = used@;
                        used.push(n);
                        proof {
                            assert forall|name: Seq<char>|
                                in_ids(used@, name) <==> in_ids(upre, name) || spec_value_has_ref(
                                    *v,
                                    name,
                                ) by {
                                if in_ids(used@, name) {
                                    let k = choose|k: int|
                                        0 <= k < used@.len() && used@[k]@ == name;
                                    if k < upre.len() {
                                        assert(used@[k] == upre[k]);
                                        assert(in_ids(upre, name));
                                    } else {
                                        assert(spec_value_has_ref(*v, name));
                                    }
                                }
                                if in_ids(upre, name) {
                                    let k = choose|k: int| 0 <= k < upre.len() && upre[k]@ == name;
                                    assert(used@[k] == upre[k]);
                                    assert(in_ids(used@, name));
                                }
                                if spec_value_has_ref(*v, name) {
                                    assert(used@[upre.len() as int]@ == name);
                                    assert(in_ids(used@, name));
                                }
                            }
                        }
                    }
                },
                Option::None => {
                },
            }
        },
        crate::json::JsonValue::Arr(items) => {
            let mut i: usize = 0;
            let ghost u0 = used@;
            while i < items.len()
                invariant
                    i <= items@.len(),
                    forall|name: Seq<char>|
                        #![trigger in_ids(used@, name)]
                        in_ids(used@, name) <==> in_ids(u0, name) || (exists|q: int|
                            0 <= q < i && spec_value_has_ref(#[trigger] items@[q], name)),
                decreases items@.len() - i,
            {
                let ghost upre = used@;
                proof {
                    assert(decreases_to!(*v => (*v)->Arr_0));
                    assert((*v)->Arr_0 == *items);
                    assert(decreases_to!(*items => items@));
                    assert(decreases_to!(items@ => items@[i as int]));
                }
                collect_value_refs(&items[i], used);
                proof {
                    assert forall|name: Seq<char>|
                        in_ids(used@, name) <==> in_ids(u0, name) || (exists|q: int|
                            0 <= q < i + 1 && spec_value_has_ref(#[trigger] items@[q], name)) by {
                        assert(in_ids(upre, name) <==> in_ids(u0, name) || (exists|q: int|
                            0 <= q < i && spec_value_has_ref(#[trigger] items@[q], name)));
                        assert(in_ids(used@, name) <==> in_ids(upre, name) || spec_value_has_ref(
                            items@[i as int],
                            name,
                        ));
                        if in_ids(used@, name) && !in_ids(upre, name) {
                            assert(spec_value_has_ref(items@[i as int], name));
                        }
                        if exists|q: int|
                            0 <= q < i + 1 && spec_value_has_ref(#[trigger] items@[q], name) {
                            let q = choose|q: int|
                                0 <= q < i + 1 && spec_value_has_ref(#[trigger] items@[q], name);
                            if q < i {
                                assert(in_ids(upre, name));
                            } else {
                                assert(spec_value_has_ref(items@[i as int], name));
                            }
                        }
                    }
                }
                i = i + 1;
            }
            proof {
                assert forall|name: Seq<char>|
                    in_ids(used@, name) <==> in_ids(u0, name) || spec_value_has_ref(*v, name) by {
                    assert(in_ids(used@, name) <==> in_ids(u0, name) || (exists|q: int|
                        0 <= q < items@.len() && spec_value_has_ref(#[trigger] items@[q], name)));
                    if spec_value_has_ref(*v, name) {
                        let q = choose|q: int|
                            0 <= q < items@.len() && spec_value_has_ref(#[trigger] items@[q], name);
                        assert(exists|q: int|
                            0 <= q < items@.len() && spec_value_has_ref(
                                #[trigger] items@[q],
                                name,
                            ));
                    }
                }
            }
        },
        crate::json::JsonValue::Obj(fields) => {
            let mut i: usize = 0;
            let ghost u0 = used@;
            while i < fields.len()
                invariant
                    i <= fields@.len(),
                    forall|name: Seq<char>|
                        #![trigger in_ids(used@, name)]
                        in_ids(used@, name) <==> in_ids(u0, name) || (exists|q: int|
                            0 <= q < i && spec_value_has_ref((#[trigger] fields@[q]).1, name)),
                decreases fields@.len() - i,
            {
                let ghost upre = used@;
                let pair = &fields[i];
                proof {
                    assert(decreases_to!(*v => (*v)->Obj_0));
                    assert((*v)->Obj_0 == *fields);
                    assert(decreases_to!(*fields => fields@));
                    assert(decreases_to!(fields@ => fields@[i as int]));
                    assert(decreases_to!(fields@[i as int] => fields@[i as int].1));
                }
                collect_value_refs(&pair.1, used);
                proof {
                    assert forall|name: Seq<char>|
                        in_ids(used@, name) <==> in_ids(u0, name) || (exists|q: int|
                            0 <= q < i + 1 && spec_value_has_ref((#[trigger] fields@[q]).1, name))
                        by {
                        assert(in_ids(upre, name) <==> in_ids(u0, name) || (exists|q: int|
                            0 <= q < i && spec_value_has_ref((#[trigger] fields@[q]).1, name)));
                        assert(in_ids(used@, name) <==> in_ids(upre, name) || spec_value_has_ref(
                            fields@[i as int].1,
                            name,
                        ));
                        if in_ids(used@, name) && !in_ids(upre, name) {
                            assert(spec_value_has_ref(fields@[i as int].1, name));
                        }
                        if exists|q: int|
                            0 <= q < i + 1 && spec_value_has_ref((#[trigger] fields@[q]).1, name) {
                            let q = choose|q: int|
                                0 <= q < i + 1 && spec_value_has_ref(
                                    (#[trigger] fields@[q]).1,
                                    name,
                                );
                            if q < i {
                                assert(in_ids(upre, name));
                            } else {
                                assert(spec_value_has_ref(fields@[i as int].1, name));
                            }
                        }
                    }
                }
                i = i + 1;
            }
            proof {
                assert forall|name: Seq<char>|
                    in_ids(used@, name) <==> in_ids(u0, name) || spec_value_has_ref(*v, name) by {
                    assert(in_ids(used@, name) <==> in_ids(u0, name) || (exists|q: int|
                        0 <= q < fields@.len() && spec_value_has_ref(
                            (#[trigger] fields@[q]).1,
                            name,
                        )));
                    if spec_value_has_ref(*v, name) {
                        let q = choose|q: int|
                            0 <= q < fields@.len() && spec_value_has_ref(
                                (#[trigger] fields@[q]).1,
                                name,
                            );
                        assert(exists|q: int|
                            0 <= q < fields@.len() && spec_value_has_ref(
                                (#[trigger] fields@[q]).1,
                                name,
                            ));
                    }
                }
            }
        },
        _ => {
        },
    }
}

/// Whether a node references the name in its configuration or input map.
pub open spec fn spec_node_uses(n: crate::schema::WorkflowNode, name: Seq<char>) -> bool {
    (n.data.config matches Option::Some(cfg) && exists|j: int|
        0 <= j < cfg@.len() && spec_value_has_ref((#[trigger] cfg@[j]).1, name)) || (n.data.input
        matches Option::Some(inp) && exists|j: int|
        0 <= j < inp@.len() && spec_value_has_ref((#[trigger] inp@[j]).1, name))
}

/// Whether any node of the workflow references the name.
pub open spec fn spec_used_in_workflow(w: WorkflowDefinition, name: Seq<char>) -> bool {
    exists|i: int| 0 <= i < w.nodes@.len() && spec_node_uses(#[trigger] w.nodes@[i], name)
}

/// Collects into `used` every name one node references.
#[verifier::loop_isolation(false)]
fn collect_node_refs(n: &crate::schema::WorkflowNode, used: &mut Vec<String>)
    ensures
        forall|name: Seq<char>|
            #![trigger in_ids(final(used)@, name)]
            in_ids(final(used)@, name) <==> in_ids(old(used)@, name) || spec_node_uses(*n, name),
{
    let ghost u0 = used@;
    match &n.data.config {
        Option::Some(cfg) => {
            let mut j: usize = 0;
            while j < cfg.len()
                invariant
                    j <= cfg@.len(),
                    n.data.config == Option::Some(*cfg),
                    forall|name: Seq<char>|
                        #![trigger in_ids(used@, name)]
                        in_ids(used@, name) <==> in_ids(u0, name) || (exists|q: int|
                            0 <= q < j && spec_value_has_ref((#[trigger] cfg@[q]).1, name)),
                decreases cfg@.len() - j,
            {
                let ghost upre = used@;
                let pair = &cfg[j];
                collect_value_refs(&pair.1, used);
                proof {
                    assert forall|name: Seq<char>|
                        in_ids(used@, name) <==> in_ids(u0, name) || (exists|q: int|
                            0 <= q < j + 1 && spec_value_has_ref((#[trigger] cfg@[q]).1, name)) by {
                        assert(in_ids(upre, name) <==> in_ids(u0, name) || (exists|q: int|
                            0 <= q < j && spec_value_has_ref((#[trigger] cfg@[q]).1, name)));
                        assert(in_ids(used@, name) <==> in_ids(upre, name) || spec_value_has_ref(
                            cfg@[j as int].1,
                            name,
                        ));
                        if in_ids(used@, name) && !in_ids(upre, name) {
                            assert(spec_value_has_ref(cfg@[j as int].1, name));
                        }
                        if exists|q: int|
                            0 <= q < j + 1 && spec_value_has_ref((#[trigger] cfg@[q]).1, name) {
                            let q = choose|q: int|
                                0 <= q < j + 1 && spec_value_has_ref((#[trigger] cfg@[q]).1, name);
                            if q < j {
                                assert(in_ids(upre, name));
                            } else {
                                assert(spec_value_has_ref(cfg@[j as int].1, name));
                            }
                        }
                    }
                }
                j = j + 1;
            }
        },
        Option::None => {
        },
    }
    let ghost u1 = used@;
    match &n.data.input {
        Option::Some(inp) => {
            let mut j: usize = 0;
            while j < inp.len()
                invariant
                    j <= inp@.len(),
                    n.data.input == Option::Some(*inp),
                    forall|name: Seq<char>|
                        #![trigger in_ids(used@, name)]
                        in_ids(used@, name) <==> in_ids(u1, name) || (exists|q: int|
                            0 <= q < j && spec_value_has_ref((#[trigger] inp@[q]).1, name)),
                decreases inp@.len() - j,
            {
                let ghost upre = used@;
                let pair = &inp[j];
                collect_value_refs(&pair.1, used);
                proof {
                    assert forall|name: Seq<char>|
                        in_ids(used@, name) <==> in_ids(u1, name) || (exists|q: int|
                            0 <= q < j + 1 && spec_value_has_ref((#[trigger] inp@[q]).1, name)) by {
                        assert(in_ids(upre, name) <==> in_ids(u1, name) || (exists|q: int|
                            0 <= q < j && spec_value_has_ref((#[trigger] inp@[q]).1, name)));
                        assert(in_ids(used@, name) <==> in_ids(upre, name) || spec_value_has_ref(
                            inp@[j as int].1,
                            name,
                        ));
                        if in_ids(used@, name) && !in_ids(upre, name) {
                            assert(spec_value_has_ref(inp@[j as int].1, name));
                        }
                        if exists|q: int|
                            0 <= q < j + 1 && spec_value_has_ref((#[trigger] inp@[q]).1, name) {
                            let q = choose|q: int|
                                0 <= q < j + 1 && spec_value_has_ref((#[trigger] inp@[q]).1, name);
                            if q < j {
                                assert(in_ids(upre, name));
                            } else {
                                assert(spec_value_has_ref(inp@[j as int].1, name));
                            }
                        }
                    }
                }
                j = j + 1;
            }
        },
        Option::None => {
        },
    }
}

/// Every variable name referenced anywhere in the workflow.
#[verifier::loop_isolation(false)]
pub fn find_used_variables(w: &WorkflowDefinition) -> (r: Vec<String>)
    ensures
        forall|name: Seq<char>| in_ids(r@, name) <==> spec_used_in_workflow(*w, name),
{
    let mut used: Vec<String> = Vec::new();
    let mut i: usize = 0;
    while i < w.nodes.len()
        invariant
            i <= w.nodes@.len(),
            forall|name: Seq<char>|
                #![trigger in_ids(used@, name)]
                in_ids(used@, name) <==> (exists|q: int|
                    0 <= q < i && spec_node_uses(#[trigger] w.nodes@[q], name)),
        decreases w.nodes@.len() - i,
    {
        let ghost upre = used@;
        collect_node_refs(&w.nodes[i], &mut used);
        proof {
            assert forall|name: Seq<char>|
                in_ids(used@, name) <==> (exists|q: int|
                    0 <= q < i + 1 && spec_node_uses(#[trigger] w.nodes@[q], name)) by {
                assert(in_ids(upre, name) <==> (exists|q: int|
                    0 <= q < i && spec_node_uses(#[trigger] w.nodes@[q], name)));
                assert(in_ids(used@, name) <==> in_ids(upre, name) || spec_node_uses(
                    w.nodes@[i as int],
                    name,
                ));
                if in_ids(used@, name) && !in_ids(upre, name) {
                    assert(spec_node_uses(w.nodes@[i as int], name));
                }
                if exists|q: int| 0 <= q < i + 1 && spec_node_uses(#[trigger] w.nodes@[q], name) {
                    let q = choose|q: int|
                        0 <= q < i + 1 && spec_node_uses(#[trigger] w.nodes@[q], name);
                    if q < i {
                        assert(in_ids(upre, name));
                    } else {
                        assert(spec_node_uses(w.nodes@[i as int], name));
                    }
                }
            }
        }
        i = i + 1;
    }
    used
}

/// Whether the workflow declares a variable with this name.
pub open spec fn spec_var_declared(w: WorkflowDefinition, name: Seq<char>) -> bool {
    exists|i: int| 0 <= i < w.variables@.len() && (#[trigger] w.variables@[i]).name@ == name
}

/// Whether a declared variable with this name is never referenced.
pub open spec fn spec_unused_variable(w: WorkflowDefinition, name: Seq<char>) -> bool {
    spec_var_declared(w, name) && !spec_used_in_workflow(w, name)
}

/// Whether the workflow declares a variable with this name.
fn var_declared(w: &WorkflowDefinition, name: &str) -> (r: bool)
    ensures
        r == spec_var_declared(*w, name@),
{
    let mut i: usize = 0;
    while i < w.variables.len()
        invariant
            i <= w.variables@.len(),
            forall|k: int| 0 <= k < i ==> (#[trigger] w.variables@[k]).name@ != name@,
        decreases w.variables@.len() - i,
    {
        if str_eq(w.variables[i].name.as_str(), name) {
            return true;
        }
        i = i + 1;
    }
    false
}

/// The condition of `spec_unused_variable`, restricted to declarations
/// before position `b`.
pub open spec fn spec_unused_before(w: WorkflowDefinition, b: int, name: Seq<char>) -> bool {
    (exists|i: int| 0 <= i < b && (#[trigger] w.variables@[i]).name@ == name)
        && !spec_used_in_workflow(w, name)
}

/// An `UnusedVariable` warning for every declared variable that no node
/// references.
#[verifier::loop_isolation(false)]
fn check_unused_variables(w: &WorkflowDefinition) -> (r: Vec<ValidationWarning>)
    ensures
        forall|name: Seq<char>|
            warns_any(r@, pred_w_unused(name)) <==> spec_unused_variable(*w, name),
        forall|k: int| 0 <= k < r@.len() ==> (#[trigger] r@[k]) is UnusedVariable,
{
    let used = find_used_variables(w);
    let mut out: Vec<ValidationWarning> = Vec::new();
    let mut j: usize = 0;
    while j < w.variables.len()
        invariant
            j <= w.variables@.len(),
            forall|name: Seq<char>|
                warns_any(out@, pred_w_unused(name)) <==> spec_unused_before(*w, j as int, name),
            forall|k: int| 0 <= k < out@.len() ==> (#[trigger] out@[k]) is UnusedVariable,
        decreases w.variables@.len() - j,
    {
        let vj = &w.variables[j].name;
        if !contains_id(&used, vj.as_str()) {
            let ghost opre = out@;
            let y = ValidationWarning::UnusedVariable { var_name: vj.clone() };
            out.push(y);
            proof {
                assert(!spec_used_in_workflow(*w, vj@));
                assert forall|name: Seq<char>|
                    warns_any(out@, pred_w_unused(name)) <==> spec_unused_before(*w, j + 1, name)
                    by {
                    let f = pred_w_unused(name);
                    assert(warns_any(opre, f) <==> spec_unused_before(*w, j as int, name));
                    lemma_warns_any_push(opre, y, f);
                    if warns_any(opre, f) {
                        let i1 = choose|i1: int|
                            0 <= i1 < j && (#[trigger] w.variables@[i1]).name@ == name;
                        assert(0 <= i1 < j + 1 && w.variables@[i1].name@ == name);
                    }
                    if f(y) {
                        assert(name == vj@);
                        assert(0 <= j < j + 1 && (#[trigger] w.variables@[j as int]).name@ == name);
                    }
                    if spec_unused_before(*w, j + 1, name) && !spec_unused_before(
                        *w,
                        j as int,
                        name,
                    ) {
                        let i1 = choose|i1: int|
                            0 <= i1 < j + 1 && (#[trigger] w.variables@[i1]).name@ == name;
                        assert(i1 == j);
                        assert(name == vj@);
                        assert(f(y));
                    }
                }
            }
        } else {
            proof {
                assert(spec_used_in_workflow(*w, vj@));
                assert forall|name: Seq<char>|
                    warns_any(out@, pred_w_unused(name)) <==> spec_unused_before(*w, j + 1, name)
                    by {
                    assert(warns_any(out@, pred_w_unused(name)) <==> spec_unused_before(
                        *w,
                        j as int,
                        name,
                    ));
                    if spec_unused_before(*w, j as int, name) {
                        let i1 = choose|i1: int|
                            0 <= i1 < j && (#[trigger] w.variables@[i1]).name@ == name;
                        assert(0 <= i1 < j + 1 && w.variables@[i1].name@ == name);
                    }
                    if spec_unused_before(*w, j + 1, name) && !spec_unused_before(
                        *w,
                        j as int,
                        name,
                    ) {
                        let i1 = choose|i1: int|
                            0 <= i1 < j + 1 && (#[trigger] w.variables@[i1]).name@ == name;
                        assert(i1 == j);
                        assert(name == vj@);
                        assert(false);
                    }
                }
            }
        }
        j = j + 1;
    }
    proof {
        assert forall|name: Seq<char>|
            warns_any(out@, pred_w_unused(name)) <==> spec_unused_variable(*w, name) by {
            assert(warns_any(out@, pred_w_unused(name)) <==> spec_unused_before(
                *w,
                w.variables@.len() as int,
                name,
            ));
        }
    }
    out
}

/// Whether a node references some name that is neither a declared variable
/// nor an existing node id.
pub open spec fn spec_node_has_unknown_ref(w: WorkflowDefinition, n: crate::schema::WorkflowNode) -> bool {
    exists|name: Seq<char>|
        #[trigger] spec_node_uses(n, name) && !spec_var_declared(w, name) && !spec_has_node(w, name)
}

/// The condition of `spec_suggestion`, over all nodes.
pub open spec fn spec_suggestion(w: WorkflowDefinition, id: Seq<char>) -> bool {
    exists|i: int|
        0 <= i < w.nodes@.len() && (#[trigger] w.nodes@[i]).id@ == id && spec_node_has_unknown_ref(
            w,
            w.nodes@[i],
        )
}

/// The condition of `spec_suggestion`, restricted to nodes before `b`.
pub open spec fn spec_suggestion_before(w: WorkflowDefinition, b: int, id: Seq<char>) -> bool {
    exists|i: int|
        0 <= i < b && (#[trigger] w.nodes@[i]).id@ == id && spec_node_has_unknown_ref(
            w,
            w.nodes@[i],
        )
}

/// The first name this node references that is neither a declared variable
/// nor a node id, if any.
#[verifier::loop_isolation(false)]
fn first_unknown_ref(w: &WorkflowDefinition, n: &crate::schema::WorkflowNode) -> (r: Option<String>)
    ensures
        match r {
            Option::Some(name) => spec_node_uses(*n, name@) && !spec_var_declared(*w, name@)
                && !spec_has_node(*w, name@),
            Option::None => !spec_node_has_unknown_ref(*w, *n),
        },
{
    let mut refs: Vec<String> = Vec::new();
    collect_node_refs(n, &mut refs);
    let mut k: usize = 0;
    while k < refs.len()
        invariant
            k <= refs@.len(),
            forall|name: Seq<char>| in_ids(refs@, name) <==> spec_node_uses(*n, name),
            forall|q: int|
                0 <= q < k ==> spec_var_declared(*w, (#[trigger] refs@[q])@) || spec_has_node(
                    *w,
                    refs@[q]@,
                ),
        decreases refs@.len() - k,
    {
        let name = &refs[k];
        if !var_declared(w, name.as_str()) && !has_node(w, name.as_str()) {
            proof {
                assert(in_ids(refs@, name@));
            }
            return Option::Some(name.clone());
        }
        k = k + 1;
    }
    proof {
        if spec_node_has_unknown_ref(*w, *n) {
            let name = choose|name: Seq<char>|
                #[trigger] spec_node_uses(*n, name) && !spec_var_declared(*w, name)
                    && !spec_has_node(*w, name);
            assert(in_ids(refs@, name));
            let q = choose|q: int| 0 <= q < refs@.len() && refs@[q]@ == name;
            assert(false);
        }
    }
    Option::None
}

/// A `ConfigSuggestion` warning for every node that references a name which
/// is neither a declared variable nor a node id.  Such references may name
/// a node output, so they are a suggestion and not an error.
#[verifier::loop_isolation(false)]
fn check_suggestions(w: &WorkflowDefinition) -> (r: Vec<ValidationWarning>)
    ensures
        forall|id: Seq<char>|
            warns_any(r@, pred_w_suggestion(id)) <==> spec_suggestion(*w, id),
        forall|k: int| 0 <= k < r@.len() ==> (#[trigger] r@[k]) is ConfigSuggestion,
{
    let mut out: Vec<ValidationWarning> = Vec::new();
    let mut j: usize = 0;
    while j < w.nodes.len()
        invariant
            j <= w.nodes@.len(),
            forall|id: Seq<char>|
                warns_any(out@, pred_w_suggestion(id)) <==> spec_suggestion_before(*w, j as int, id),
            forall|k: int| 0 <= k < out@.len() ==> (#[trigger] out@[k]) is ConfigSuggestion,
        decreases w.nodes@.len() - j,
    {
        let node = &w.nodes[j];
        let idj = &node.id;
        match first_unknown_ref(w, node) {
            Option::Some(name) => {
                let ghost opre = out@;
                let mut message = String::new();
                message.append("references '");
                message.append(name.as_str());
                message.append("' which may not exist");
                let y = ValidationWarning::ConfigSuggestion { node_id: idj.clone(), message };
                out.push(y);
                proof {
                    assert(spec_node_has_unknown_ref(*w, w.nodes@[j as int]));
                    assert forall|id: Seq<char>|
                        warns_any(out@, pred_w_suggestion(id)) <==> spec_suggestion_before(
                            *w,
                            j + 1,
                            id,
                        ) by {
                        let f = pred_w_suggestion(id);
                        assert(warns_any(opre, f) <==> spec_suggestion_before(*w, j as int, id));
                        lemma_warns_any_push(opre, y, f);
                        if warns_any(opre, f) {
                            let i1 = choose|i1: int|
                                0 <= i1 < j && (#[trigger] w.nodes@[i1]).id@ == id
                                    && spec_node_has_unknown_ref(*w, w.nodes@[i1]);
                            assert(0 <= i1 < j + 1 && w.nodes@[i1].id@ == id);
                        }
                        if f(y) {
                            assert(id == idj@);
                            assert(0 <= j < j + 1 && (#[trigger] w.nodes@[j as int]).id@ == id);
                        }
                        if spec_suggestion_before(*w, j + 1, id) && !spec_suggestion_before(
                            *w,
                            j as int,
                            id,
                        ) {
                            let i1 = choose|i1: int|
                                0 <= i1 < j + 1 && (#[trigger] w.nodes@[i1]).id@ == id
                                    && spec_node_has_unknown_ref(*w, w.nodes@[i1]);
                            assert(i1 == j);
                            assert(id == idj@);
                            assert(f(y));
                        }
                    }
                }
            },
            Option::None => {
                proof {
                    assert forall|id: Seq<char>|
                        warns_any(out@, pred_w_suggestion(id)) <==> spec_suggestion_before(
                            *w,
                            j + 1,
                            id,
                        ) by {
                        assert(warns_any(out@, pred_w_suggestion(id)) <==> spec_suggestion_before(
                            *w,
                            j as int,
                            id,
                        ));
                        if spec_suggestion_before(*w, j as int, id) {
                            let i1 = choose|i1: int|
                                0 <= i1 < j && (#[trigger] w.nodes@[i1]).id@ == id
                                    && spec_node_has_unknown_ref(*w, w.nodes@[i1]);
                            assert(0 <= i1 < j + 1 && w.nodes@[i1].id@ == id);
                        }
                        if spec_suggestion_before(*w, j + 1, id) && !spec_suggestion_before(
                            *w,
                            j as int,
                            id,
                        ) {
                            let i1 = choose|i1: int|
                                0 <= i1 < j + 1 && (#[trigger] w.nodes@[i1]).id@ == id
                                    && spec_node_has_unknown_ref(*w, w.nodes@[i1]);
                            assert(i1 == j);
                            assert(false);
                        }
                    }
                }
            },
        }
        j = j + 1;
    }
    proof {
        assert forall|id: Seq<char>|
            warns_any(out@, pred_w_suggestion(id)) <==> spec_suggestion(*w, id) by {
            assert(warns_any(out@, pred_w_suggestion(id)) <==> spec_suggestion_before(
                *w,
                w.nodes@.len() as int,
                id,
            ));
        }
    }
    out
}

/// Validates per-node-type configuration and variable usage.  The result's
/// error and warning lists hold each kind exactly when its condition holds.
#[verifier::rlimit(100)]
pub fn validate_components(w: &WorkflowDefinition) -> (r: ValidationResult)
    ensures
        crate::errors::spec_result_wf(r),
        forall|id: Seq<char>|
            has_missing_activity(r.errors@, id) <==> spec_missing_activity(*w, id),
        forall|id: Seq<char>|
            errs_any(r.errors@, pred_missing_required(id, "signalName"@))
                <==> spec_signal_missing_name(*w, id),
        forall|id: Seq<char>|
            errs_any(r.errors@, pred_missing_required(id, "workflowId"@))
                <==> spec_child_missing_workflow(*w, id),
        forall|id: Seq<char>|
            errs_any(r.errors@, pred_invalid_config(id)) <==> spec_state_var_unconfigured(*w, id),
        forall|id: Seq<char>|
            warns_any(r.warnings@, pred_w_no_timeout(id)) <==> spec_activity_no_timeout(*w, id),
        forall|id: Seq<char>|
            warns_any(r.warnings@, pred_w_no_retry(id)) <==> spec_activity_no_retry(*w, id),
        forall|id: Seq<char>|
            warns_any(r.warnings@, pred_w_missing_opt(id, "condition"@)) <==> spec_cond_missing(
                *w,
                id,
            ),
        forall|id: Seq<char>|
            warns_any(r.warnings@, pred_w_missing_opt(id, "config"@)) <==> spec_kong_no_config(
                *w,
                id,
            ),
        forall|id: Seq<char>|
            warns_any(r.warnings@, pred_w_dead_end(id)) <==> spec_dead_end(*w, id),
        forall|name: Seq<char>|
            warns_any(r.warnings@, pred_w_unused(name)) <==> spec_unused_variable(*w, name),
        forall|id: Seq<char>|
            warns_any(r.warnings@, pred_w_suggestion(id)) <==> spec_suggestion(*w, id),
        forall|k: int|
            0 <= k < r.errors@.len() ==> (#[trigger] r.errors@[k]) is MissingActivityName || (
            r.errors@[k] matches ValidationError::MissingRequiredField { node_id, field } && (field@
                == "signalName"@ || field@ == "workflowId"@)) || r.errors@[k] is InvalidConfig,
        forall|k: int|
            0 <= k < r.warnings@.len() ==> (#[trigger] r.warnings@[k]) is NoTimeout
                || r.warnings@[k] is NoRetryPolicy || r.warnings@[k] is MissingOptionalField
                || r.warnings@[k] is DeadEnd || r.warnings@[k] is UnusedVariable || r.warnings@[k]
                is ConfigSuggestion,
{
    let mut errors = check_missing_activity(w);
    let ghost e1 = errors@;
    let mut c2 = check_signal_names(w);
    let ghost e2 = c2@;
    errors.append(&mut c2);
    let ghost d2 = errors@;
    let mut c3 = check_child_workflows(w);
    let ghost e3 = c3@;
    errors.append(&mut c3);
    let ghost d3 = errors@;
    let mut c4 = check_state_variables(w);
    let ghost e4 = c4@;
    errors.append(&mut c4);
    let ghost d4 = errors@;
    let mut warnings = check_no_timeout(w);
    let ghost w1 = warnings@;
    let mut t2 = check_no_retry(w);
    let ghost w2 = t2@;
    warnings.append(&mut t2);
    let ghost v2 = warnings@;
    let mut t3 = check_conditions(w);
    let ghost w3 = t3@;
    warnings.append(&mut t3);
    let ghost v3 = warnings@;
    let mut t4 = check_kong_configs(w);
    let ghost w4 = t4@;
    warnings.append(&mut t4);
    let ghost v4 = warnings@;
    let mut t5 = check_dead_ends(w);
    let ghost w5 = t5@;
    warnings.append(&mut t5);
    let ghost v5 = warnings@;
    let mut t6 = check_unused_variables(w);
    let ghost w6 = t6@;
    warnings.append(&mut t6);
    let ghost v6 = warnings@;
    let mut t7 = check_suggestions(w);
    let ghost w7 = t7@;
    warnings.append(&mut t7);
    let ghost v7 = warnings@;
    proof {
        let d1 = e1;
        assert(d2 == d1 + e2);
        assert(d3 == d2 + e3);
        assert(d4 == d3 + e4);
        let v1 = w1;
        assert(v2 == v1 + w2);
        assert(v3 == v2 + w3);
        assert(v4 == v3 + w4);
        assert(v5 == v4 + w5);
        assert(v6 == v5 + w6);
        assert(v7 == v6 + w7);
        assert forall|k: int|
            0 <= k < d4.len() implies (#[trigger] d4[k]) is MissingActivityName || (d4[k] matches
                ValidationError::MissingRequiredField { node_id, field } && (field@
                == "signalName"@ || field@ == "workflowId"@)) || d4[k] is InvalidConfig by {
            if k < d3.len() {
                if k < d2.len() {
                    if k < d1.len() {
                        assert(d4[k] == e1[k]);
                    } else {
                        assert(d4[k] == e2[k - d1.len()]);
                    }
                } else {
                    assert(d4[k] == e3[k - d2.len()]);
                }
            } else {
                assert(d4[k] == e4[k - d3.len()]);
            }
        }
        assert forall|k: int|
            0 <= k < v7.len() implies (#[trigger] v7[k]) is NoTimeout || v7[k] is NoRetryPolicy
                || v7[k] is MissingOptionalField || v7[k] is DeadEnd || v7[k] is UnusedVariable
                || v7[k] is ConfigSuggestion by {
            if k < v6.len() {
                if k < v5.len() {
                    if k < v4.len() {
                        if k < v3.len() {
                            if k < v2.len() {
                                if k < v1.len() {
                                    assert(v7[k] == w1[k]);
                                } else {
                                    assert(v7[k] == w2[k - v1.len()]);
                                }
                            } else {
                                assert(v7[k] == w3[k - v2.len()]);
                            }
                        } else {
                            assert(v7[k] == w4[k - v3.len()]);
                        }
                    } else {
                        assert(v7[k] == w5[k - v4.len()]);
                    }
                } else {
                    assert(v7[k] == w6[k - v5.len()]);
                }
            } else {
                assert(v7[k] == w7[k - v6.len()]);
            }
        }
        assert forall|id: Seq<char>|
            has_missing_activity(d4, id) <==> spec_missing_activity(*w, id) by {
                let f = pred_missing_activity(id);
                lemma_errs_any_concat(d1, e2, f);
                lemma_errs_any_concat(d2, e3, f);
                lemma_errs_any_concat(d3, e4, f);
                if errs_any(e2, f) {
                    let k = choose|k: int| 0 <= k < e2.len() && f(e2[k]);
                    assert(false);
                }
                if errs_any(e3, f) {
                    let k = choose|k: int| 0 <= k < e3.len() && f(e3[k]);
                    assert(false);
                }
                if errs_any(e4, f) {
                    let k = choose|k: int| 0 <= k < e4.len() && f(e4[k]);
                    assert(false);
                }
        }
        assert forall|id: Seq<char>|
            errs_any(d4, pred_missing_required(id, "signalName"@)) <==> spec_signal_missing_name(
                *w,
                id,
            ) by {
                let f = pred_missing_required(id, "signalName"@);
                reveal_strlit("signalName");
                reveal_strlit("workflowId");
                assert("signalName"@.len() == 10 && "workflowId"@.len() == 10);
                assert("signalName"@[0] == 's' && "workflowId"@[0] == 'w');
                assert("signalName"@ != "workflowId"@);
                lemma_errs_any_concat(d1, e2, f);
                lemma_errs_any_concat(d2, e3, f);
                lemma_errs_any_concat(d3, e4, f);
                if errs_any(e1, f) {
                    let k = choose|k: int| 0 <= k < e1.len() && f(e1[k]);
                    assert(false);
                }
                if errs_any(e3, f) {
                    let k = choose|k: int| 0 <= k < e3.len() && f(e3[k]);
                    assert(false);
                }
                if errs_any(e4, f) {
                    let k = choose|k: int| 0 <= k < e4.len() && f(e4[k]);
                    assert(false);
                }
        }
        assert forall|id: Seq<char>|
            errs_any(d4, pred_missing_required(id, "workflowId"@)) <==> spec_child_missing_workflow(
                *w,
                id,
            ) by {
                let f = pred_missing_required(id, "workflowId"@);
                reveal_strlit("signalName");
                reveal_strlit("workflowId");
                assert("signalName"@.len() == 10 && "workflowId"@.len() == 10);
                assert("signalName"@[0] == 's' && "workflowId"@[0] == 'w');
                assert("signalName"@ != "workflowId"@);
                lemma_errs_any_concat(d1, e2, f);
                lemma_errs_any_concat(d2, e3, f);
                lemma_errs_any_concat(d3, e4, f);
                if errs_any(e1, f) {
                    let k = choose|k: int| 0 <= k < e1.len() && f(e1[k]);
                    assert(false);
                }
                if errs_any(e2, f) {
                    let k = choose|k: int| 0 <= k < e2.len() && f(e2[k]);
                    assert(false);
                }
                if errs_any(e4, f) {
                    let k = choose|k: int| 0 <= k < e4.len() && f(e4[k]);
                    assert(false);
                }
        }
        assert forall|id: Seq<char>|
            errs_any(d4, pred_invalid_config(id)) <==> spec_state_var_unconfigured(*w, id) by {
                let f = pred_invalid_config(id);
                lemma_errs_any_concat(d1, e2, f);
                lemma_errs_any_concat(d2, e3, f);
                lemma_errs_any_concat(d3, e4, f);
                if errs_any(e1, f) {
                    let k = choose|k: int| 0 <= k < e1.len() && f(e1[k]);
                    assert(false);
                }
                if errs_any(e2, f) {
                    let k = choose|k: int| 0 <= k < e2.len() && f(e2[k]);
                    assert(false);
                }
                if errs_any(e3, f) {
                    let k = choose|k: int| 0 <= k < e3.len() && f(e3[k]);
                    assert(false);
                }
        }
        assert forall|id: Seq<char>|
            warns_any(v7, pred_w_no_timeout(id)) <==> spec_activity_no_timeout(*w, id) by {
                let f = pred_w_no_timeout(id);
                lemma_warns_any_concat(v1, w2, f);
                lemma_warns_any_concat(v2, w3, f);
                lemma_warns_any_concat(v3, w4, f);
                lemma_warns_any_concat(v4, w5, f);
                lemma_warns_any_concat(v5, w6, f);
                lemma_warns_any_concat(v6, w7, f);
                if warns_any(w2, f) {
                    let k = choose|k: int| 0 <= k < w2.len() && f(w2[k]);
                    assert(false);
                }
                if warns_any(w3, f) {
                    let k = choose|k: int| 0 <= k < w3.len() && f(w3[k]);
                    assert(false);
                }
                if warns_any(w4, f) {
                    let k = choose|k: int| 0 <= k < w4.len() && f(w4[k]);
                    assert(false);
                }
                if warns_any(w5, f) {
                    let k = choose|k: int| 0 <= k < w5.len() && f(w5[k]);
                    assert(false);
                }
                if warns_any(w6, f) {
                    let k = choose|k: int| 0 <= k < w6.len() && f(w6[k]);
                    assert(false);
                }
                if warns_any(w7, f) {
                    let k = choose|k: int| 0 <= k < w7.len() && f(w7[k]);
                    assert(false);
                }
        }
        assert forall|id: Seq<char>|
            warns_any(v7, pred_w_no_retry(id)) <==> spec_activity_no_retry(*w, id) by {
                let f = pred_w_no_retry(id);
                lemma_warns_any_concat(v1, w2, f);
                lemma_warns_any_concat(v2, w3, f);
                lemma_warns_any_concat(v3, w4, f);
                lemma_warns_any_concat(v4, w5, f);
                lemma_warns_any_concat(v5, w6, f);
                lemma_warns_any_concat(v6, w7, f);
                if warns_any(w1, f) {
                    let k = choose|k: int| 0 <= k < w1.len() && f(w1[k]);
                    assert(false);
                }
                if warns_any(w3, f) {
                    let k = choose|k: int| 0 <= k < w3.len() && f(w3[k]);
                    assert(false);
                }
                if warns_any(w4, f) {
                    let k = choose|k: int| 0 <= k < w4.len() && f(w4[k]);
                    assert(false);
                }
                if warns_any(w5, f) {
                    let k = choose|k: int| 0 <= k < w5.len() && f(w5[k]);
                    assert(false);
                }
                if warns_any(w6, f) {
                    let k = choose|k: int| 0 <= k < w6.len() && f(w6[k]);
                    assert(false);
                }
                if warns_any(w7, f) {
                    let k = choose|k: int| 0 <= k < w7.len() && f(w7[k]);
                    assert(false);
                }
        }
        assert forall|id: Seq<char>|
            warns_any(v7, pred_w_missing_opt(id, "condition"@)) <==> spec_cond_missing(*w, id) by {
                let f = pred_w_missing_opt(id, "condition"@);
                reveal_strlit("condition");
                reveal_strlit("config");
                assert("condition"@.len() == 9 && "config"@.len() == 6);
                assert("condition"@ != "config"@);
                lemma_warns_any_concat(v1, w2, f);
                lemma_warns_any_concat(v2, w3, f);
                lemma_warns_any_concat(v3, w4, f);
                lemma_warns_any_concat(v4, w5, f);
                lemma_warns_any_concat(v5, w6, f);
                lemma_warns_any_concat(v6, w7, f);
                if warns_any(w1, f) {
                    let k = choose|k: int| 0 <= k < w1.len() && f(w1[k]);
                    assert(false);
                }
                if warns_any(w2, f) {
                    let k = choose|k: int| 0 <= k < w2.len() && f(w2[k]);
                    assert(false);
                }
                if warns_any(w4, f) {
                    let k = choose|k: int| 0 <= k < w4.len() && f(w4[k]);
                    assert(false);
                }
                if warns_any(w5, f) {
                    let k = choose|k: int| 0 <= k < w5.len() && f(w5[k]);
                    assert(false);
                }
                if warns_any(w6, f) {
                    let k = choose|k: int| 0 <= k < w6.len() && f(w6[k]);
                    assert(false);
                }
                if warns_any(w7, f) {
                    let k = choose|k: int| 0 <= k < w7.len() && f(w7[k]);
                    assert(false);
                }
        }
        assert forall|id: Seq<char>|
            warns_any(v7, pred_w_missing_opt(id, "config"@)) <==> spec_kong_no_config(*w, id) by {
                let f = pred_w_missing_opt(id, "config"@);
                reveal_strlit("condition");
                reveal_strlit("config");
                assert("condition"@.len() == 9 && "config"@.len() == 6);
                assert("condition"@ != "config"@);
                lemma_warns_any_concat(v1, w2, f);
                lemma_warns_any_concat(v2, w3, f);
                lemma_warns_any_concat(v3, w4, f);
                lemma_warns_any_concat(v4, w5, f);
                lemma_warns_any_concat(v5, w6, f);
                lemma_warns_any_concat(v6, w7, f);
                if warns_any(w1, f) {
                    let k = choose|k: int| 0 <= k < w1.len() && f(w1[k]);
                    assert(false);
                }
                if warns_any(w2, f) {
                    let k = choose|k: int| 0 <= k < w2.len() && f(w2[k]);
                    assert(false);
                }
                if warns_any(w3, f) {
                    let k = choose|k: int| 0 <= k < w3.len() && f(w3[k]);
                    assert(false);
                }
                if warns_any(w5, f) {
                    let k = choose|k: int| 0 <= k < w5.len() && f(w5[k]);
                    assert(false);
                }
                if warns_any(w6, f) {
                    let k = choose|k: int| 0 <= k < w6.len() && f(w6[k]);
                    assert(false);
                }
                if warns_any(w7, f) {
                    let k = choose|k: int| 0 <= k < w7.len() && f(w7[k]);
                    assert(false);
                }
        }
        assert forall|id: Seq<char>|
            warns_any(v7, pred_w_dead_end(id)) <==> spec_dead_end(*w, id) by {
                let f = pred_w_dead_end(id);
                lemma_warns_any_concat(v1, w2, f);
                lemma_warns_any_concat(v2, w3, f);
                lemma_warns_any_concat(v3, w4, f);
                lemma_warns_any_concat(v4, w5, f);
                lemma_warns_any_concat(v5, w6, f);
                lemma_warns_any_concat(v6, w7, f);
                if warns_any(w1, f) {
                    let k = choose|k: int| 0 <= k < w1.len() && f(w1[k]);
                    assert(false);
                }
                if warns_any(w2, f) {
                    let k = choose|k: int| 0 <= k < w2.len() && f(w2[k]);
                    assert(false);
                }
                if warns_any(w3, f) {
                    let k = choose|k: int| 0 <= k < w3.len() && f(w3[k]);
                    assert(false);
                }
                if warns_any(w4, f) {
                    let k = choose|k: int| 0 <= k < w4.len() && f(w4[k]);
                    assert(false);
                }
                if warns_any(w6, f) {
                    let k = choose|k: int| 0 <= k < w6.len() && f(w6[k]);
                    assert(false);
                }
                if warns_any(w7, f) {
                    let k = choose|k: int| 0 <= k < w7.len() && f(w7[k]);
                    assert(false);
                }
        }
        assert forall|name: Seq<char>|
            warns_any(v7, pred_w_unused(name)) <==> spec_unused_variable(*w, name) by {
                let f = pred_w_unused(name);
                lemma_warns_any_concat(v1, w2, f);
                lemma_warns_any_concat(v2, w3, f);
                lemma_warns_any_concat(v3, w4, f);
                lemma_warns_any_concat(v4, w5, f);
                lemma_warns_any_concat(v5, w6, f);
                lemma_warns_any_concat(v6, w7, f);
                if warns_any(w1, f) {
                    let k = choose|k: int| 0 <= k < w1.len() && f(w1[k]);
                    assert(false);
                }
                if warns_any(w2, f) {
                    let k = choose|k: int| 0 <= k < w2.len() && f(w2[k]);
                    assert(false);
                }
                if warns_any(w3, f) {
                    let k = choose|k: int| 0 <= k < w3.len() && f(w3[k]);
                    assert(false);
                }
                if warns_any(w4, f) {
                    let k = choose|k: int| 0 <= k < w4.len() && f(w4[k]);
                    assert(false);
                }
                if warns_any(w5, f) {
                    let k = choose|k: int| 0 <= k < w5.len() && f(w5[k]);
                    assert(false);
                }
                if warns_any(w7, f) {
                    let k = choose|k: int| 0 <= k < w7.len() && f(w7[k]);
                    assert(false);
                }
        }
        assert forall|id: Seq<char>|
            warns_any(v7, pred_w_suggestion(id)) <==> spec_suggestion(*w, id) by {
                let f = pred_w_suggestion(id);
                lemma_warns_any_concat(v1, w2, f);
                lemma_warns_any_concat(v2, w3, f);
                lemma_warns_any_concat(v3, w4, f);
                lemma_warns_any_concat(v4, w5, f);
                lemma_warns_any_concat(v5, w6, f);
                lemma_warns_any_concat(v6, w7, f);
                if warns_any(w1, f) {
                    let k = choose|k: int| 0 <= k < w1.len() && f(w1[k]);
                    assert(false);
                }
                if warns_any(w2, f) {
                    let k = choose|k: int| 0 <= k < w2.len() && f(w2[k]);
                    assert(false);
                }
                if warns_any(w3, f) {
                    let k = choose|k: int| 0 <= k < w3.len() && f(w3[k]);
                    assert(false);
                }
                if warns_any(w4, f) {
                    let k = choose|k: int| 0 <= k < w4.len() && f(w4[k]);
                    assert(false);
                }
                if warns_any(w5, f) {
                    let k = choose|k: int| 0 <= k < w5.len() && f(w5[k]);
                    assert(false);
                }
                if warns_any(w6, f) {
                    let k = choose|k: int| 0 <= k < w6.len() && f(w6[k]);
                    assert(false);
                }
        }
    }
    let valid = errors.len() == 0;
    ValidationResult { valid, errors, warnings }
}

/// The list holds a `MissingActivityName` error for this id.
pub open spec fn has_missing_activity(s: Seq<ValidationError>, id: Seq<char>) -> bool {
    errs_any(s, pred_missing_activity(id))
}

/// Appends the structural findings to the caller's lists.  The appended
/// errors are characterized exactly; no warnings are added.
pub fn validate_graph_structure(
    w: &WorkflowDefinition,
    errors: &mut Vec<ValidationError>,
    warnings: &mut Vec<ValidationWarning>,
)
    ensures
        final(warnings)@ == old(warnings)@,
        final(errors)@.take(old(errors)@.len() as int) == old(errors)@,
        final(errors)@.len() >= old(errors)@.len(),
        has_empty_workflow(final(errors)@.skip(old(errors)@.len() as int)) <==> w.nodes@.len()
            == 0,
        has_no_start(final(errors)@.skip(old(errors)@.len() as int)) <==> spec_trigger_count(*w)
            == 0,
        spec_trigger_count(*w) >= 2 ==> has_multi_start_with(
            final(errors)@.skip(old(errors)@.len() as int),
            spec_trigger_ids(*w),
        ),
        has_no_end(final(errors)@.skip(old(errors)@.len() as int)) <==> spec_end_count(*w) == 0,
        forall|id: Seq<char>|
            has_dup_node(final(errors)@.skip(old(errors)@.len() as int), id) <==> spec_dup_node_id(
                *w,
                id,
            ),
        forall|id: Seq<char>|
            has_dup_edge(final(errors)@.skip(old(errors)@.len() as int), id) <==> spec_dup_edge_id(
                *w,
                id,
            ),
        forall|id: Seq<char>|
            has_trigger_incoming(final(errors)@.skip(old(errors)@.len() as int), id)
                <==> spec_trigger_incoming(*w, id),
        forall|id: Seq<char>|
            has_orphan(final(errors)@.skip(old(errors)@.len() as int), id) <==> spec_orphan(
                *w,
                id,
            ),
{
    let mut seg = assemble_structure(w);
    let ghost segv = seg@;
    errors.append(&mut seg);
    proof {
        assert(final(errors)@.skip(old(errors)@.len() as int) =~= segv);
        assert(final(errors)@.take(old(errors)@.len() as int) =~= old(errors)@);
    }
}

/// Appends the edge-endpoint findings to the caller's lists.
pub fn validate_edges(
    w: &WorkflowDefinition,
    errors: &mut Vec<ValidationError>,
    warnings: &mut Vec<ValidationWarning>,
)
    ensures
        final(warnings)@ == old(warnings)@,
        final(errors)@.take(old(errors)@.len() as int) == old(errors)@,
        final(errors)@.len() >= old(errors)@.len(),
        forall|id: Seq<char>|
            has_invalid_source(final(errors)@.skip(old(errors)@.len() as int), id)
                <==> spec_bad_source(*w, id),
        forall|id: Seq<char>|
            has_invalid_target(final(errors)@.skip(old(errors)@.len() as int), id)
                <==> spec_bad_target(*w, id),
{
    let mut seg = check_edge_endpoints(w);
    let ghost segv = seg@;
    errors.append(&mut seg);
    proof {
        assert(final(errors)@.skip(old(errors)@.len() as int) =~= segv);
        assert(final(errors)@.take(old(errors)@.len() as int) =~= old(errors)@);
    }
}

/// Appends the per-node configuration and variable-usage findings to the
/// caller's lists.
pub fn validate_nodes(
    w: &WorkflowDefinition,
    errors: &mut Vec<ValidationError>,
    warnings: &mut Vec<ValidationWarning>,
)
    ensures
        final(errors)@.take(old(errors)@.len() as int) == old(errors)@,
        final(warnings)@.take(old(warnings)@.len() as int) == old(warnings)@,
        forall|id: Seq<char>|
            has_missing_activity(final(errors)@.skip(old(errors)@.len() as int), id)
                <==> spec_missing_activity(*w, id),
        forall|id: Seq<char>|
            errs_any(
                final(errors)@.skip(old(errors)@.len() as int),
                pred_missing_required(id, "signalName"@),
            ) <==> spec_signal_missing_name(*w, id),
        forall|id: Seq<char>|
            errs_any(
                final(errors)@.skip(old(errors)@.len() as int),
                pred_missing_required(id, "workflowId"@),
            ) <==> spec_child_missing_workflow(*w, id),
        forall|id: Seq<char>|
            errs_any(final(errors)@.skip(old(errors)@.len() as int), pred_invalid_config(id))
                <==> spec_state_var_unconfigured(*w, id),
        forall|id: Seq<char>|
            warns_any(final(warnings)@.skip(old(warnings)@.len() as int), pred_w_no_timeout(id))
                <==> spec_activity_no_timeout(*w, id),
        forall|id: Seq<char>|
            warns_any(final(warnings)@.skip(old(warnings)@.len() as int), pred_w_no_retry(id))
                <==> spec_activity_no_retry(*w, id),
        forall|id: Seq<char>|
            warns_any(final(warnings)@.skip(old(warnings)@.len() as int), pred_w_dead_end(id))
                <==> spec_dead_end(*w, id),
        forall|name: Seq<char>|
            warns_any(final(warnings)@.skip(old(warnings)@.len() as int), pred_w_unused(name))
                <==> spec_unused_variable(*w, name),
        forall|id: Seq<char>|
            warns_any(final(warnings)@.skip(old(warnings)@.len() as int), pred_w_suggestion(id))
                <==> spec_suggestion(*w, id),
{
    let c = validate_components(w);
    let ValidationResult { valid: _, errors: mut ce, warnings: mut cw } = c;
    let ghost cev = ce@;
    let ghost cwv = cw@;
    errors.append(&mut ce);
    warnings.append(&mut cw);
    proof {
        assert(final(errors)@.skip(old(errors)@.len() as int) =~= cev);
        assert(final(errors)@.take(old(errors)@.len() as int) =~= old(errors)@);
        assert(final(warnings)@.skip(old(warnings)@.len() as int) =~= cwv);
        assert(final(warnings)@.take(old(warnings)@.len() as int) =~= old(warnings)@);
    }
}

/// Validates a workflow definition: every pass runs to completion and the
/// findings accumulate into one result.  The error list holds each kind of
/// error exactly when its condition holds of the graph, and likewise for
/// warnings; `valid` is true exactly when no error was found.
#[verifier::rlimit(100)]
pub fn validate(w: &WorkflowDefinition) -> (r: ValidationResult)
    ensures
        crate::errors::spec_result_wf(r),
        r.valid <==> r.errors@.len() == 0,
        has_empty_workflow(r.errors@) <==> w.nodes@.len() == 0,
        has_no_start(r.errors@) <==> spec_trigger_count(*w) == 0,
        spec_trigger_count(*w) >= 2 ==> has_multi_start_with(r.errors@, spec_trigger_ids(*w)),
        has_multi_start(r.errors@) ==> spec_trigger_count(*w) >= 2,
        has_no_end(r.errors@) <==> spec_end_count(*w) == 0,
        forall|id: Seq<char>| has_dup_node(r.errors@, id) <==> spec_dup_node_id(*w, id),
        forall|id: Seq<char>| has_dup_edge(r.errors@, id) <==> spec_dup_edge_id(*w, id),
        forall|id: Seq<char>|
            has_trigger_incoming(r.errors@, id) <==> spec_trigger_incoming(*w, id),
        forall|id: Seq<char>| has_orphan(r.errors@, id) <==> spec_orphan(*w, id),
        forall|id: Seq<char>| has_invalid_source(r.errors@, id) <==> spec_bad_source(*w, id),
        forall|id: Seq<char>| has_invalid_target(r.errors@, id) <==> spec_bad_target(*w, id),
        spec_trigger_count(*w) == 1 ==> (forall|id: Seq<char>|
            has_unreachable(r.errors@, id) <==> (spec_has_node(*w, id) && !spec_reachable(
                *w,
                spec_the_trigger_id(*w),
                id,
            ))),
        spec_trigger_count(*w) != 1 ==> (forall|id: Seq<char>| !has_unreachable(r.errors@, id)),
        has_cycle_err(*w, r.errors@) <==> spec_has_cycle(*w),
        has_any_cycle_err(r.errors@) <==> spec_has_cycle(*w),
        forall|id: Seq<char>|
            has_missing_activity(r.errors@, id) <==> spec_missing_activity(*w, id),
        forall|id: Seq<char>|
            errs_any(r.errors@, pred_missing_required(id, "signalName"@))
                <==> spec_signal_missing_name(*w, id),
        forall|id: Seq<char>|
            errs_any(r.errors@, pred_missing_required(id, "workflowId"@))
                <==> spec_child_missing_workflow(*w, id),
        forall|id: Seq<char>|
            errs_any(r.errors@, pred_invalid_config(id)) <==> spec_state_var_unconfigured(*w, id),
        forall|id: Seq<char>|
            warns_any(r.warnings@, pred_w_no_timeout(id)) <==> spec_activity_no_timeout(*w, id),
        forall|id: Seq<char>|
            warns_any(r.warnings@, pred_w_no_retry(id)) <==> spec_activity_no_retry(*w, id),
        forall|id: Seq<char>|
            warns_any(r.warnings@, pred_w_dead_end(id)) <==> spec_dead_end(*w, id),
        forall|name: Seq<char>|
            warns_any(r.warnings@, pred_w_unused(name)) <==> spec_unused_variable(*w, name),
        forall|id: Seq<char>|
            warns_any(r.warnings@, pred_w_suggestion(id)) <==> spec_suggestion(*w, id),
        forall|k: int|
            0 <= k < r.errors@.len() ==> (#[trigger] r.errors@[k]) is EmptyWorkflow || r.errors@[k]
                is DuplicateNodeId || r.errors@[k] is DuplicateEdgeId || r.errors@[k]
                is NoStartNode || r.errors@[k] is MultipleStartNodes || r.errors@[k] is NoEndNode
                || r.errors@[k] is TriggerHasIncomingEdges || r.errors@[k] is OrphanNode
                || r.errors@[k] is InvalidEdgeSource || r.errors@[k] is InvalidEdgeTarget
                || r.errors@[k] is UnreachableNode || r.errors@[k] is CycleDetected
                || r.errors@[k] is MissingActivityName || (r.errors@[k] matches
                ValidationError::MissingRequiredField { node_id, field } && (field@
                == "signalName"@ || field@ == "workflowId"@)) || r.errors@[k] is InvalidConfig,
{
    let g = validate_graph(w);
    let c = validate_components(w);
    let ghost ga = g.errors@;
    let ghost ca = c.errors@;
    let ghost cw = c.warnings@;
    let ValidationResult { valid: _, errors: mut ge, warnings: gw } = g;
    let ValidationResult { valid: _, errors: mut cerrs, warnings: mut cwarns } = c;
    let mut errors = ge;
    errors.append(&mut cerrs);
    let warnings = cwarns;
    let ghost all = errors@;
    proof {
        assert(all == ga + ca);
        assert(warnings@ == cw);
        assert(has_empty_workflow(all) <==> w.nodes@.len() == 0) by {
                let f = pred_empty_workflow();
                lemma_errs_any_concat(ga, ca, f);
                if errs_any(ca, f) {
                    let k = choose|k: int| 0 <= k < ca.len() && f(ca[k]);
                    assert(false);
                }
        }
        assert(has_no_start(all) <==> spec_trigger_count(*w) == 0) by {
                let f = pred_no_start();
                lemma_errs_any_concat(ga, ca, f);
                if errs_any(ca, f) {
                    let k = choose|k: int| 0 <= k < ca.len() && f(ca[k]);
                    assert(false);
                }
        }
        assert(spec_trigger_count(*w) >= 2 ==> has_multi_start_with(all, spec_trigger_ids(*w))) by {
                let f = pred_multi_start_with(spec_trigger_ids(*w));
                lemma_errs_any_concat(ga, ca, f);
                if errs_any(ca, f) {
                    let k = choose|k: int| 0 <= k < ca.len() && f(ca[k]);
                    assert(false);
                }
        }
        assert(has_multi_start(all) ==> spec_trigger_count(*w) >= 2) by {
                let f = pred_multi_start();
                lemma_errs_any_concat(ga, ca, f);
                if errs_any(ca, f) {
                    let k = choose|k: int| 0 <= k < ca.len() && f(ca[k]);
                    assert(false);
                }
        }
        assert(has_no_end(all) <==> spec_end_count(*w) == 0) by {
                let f = pred_no_end();
                lemma_errs_any_concat(ga, ca, f);
                if errs_any(ca, f) {
                    let k = choose|k: int| 0 <= k < ca.len() && f(ca[k]);
                    assert(false);
                }
        }
        assert forall|id: Seq<char>| has_dup_node(all, id) <==> spec_dup_node_id(*w, id) by {
                let f = pred_dup_node(id);
                lemma_errs_any_concat(ga, ca, f);
                if errs_any(ca, f) {
                    let k = choose|k: int| 0 <= k < ca.len() && f(ca[k]);
                    assert(false);
                }
        }
        assert forall|id: Seq<char>| has_dup_edge(all, id) <==> spec_dup_edge_id(*w, id) by {
                let f = pred_dup_edge(id);
                lemma_errs_any_concat(ga, ca, f);
                if errs_any(ca, f) {
                    let k = choose|k: int| 0 <= k < ca.len() && f(ca[k]);
                    assert(false);
                }
        }
        assert forall|id: Seq<char>|
            has_trigger_incoming(all, id) <==> spec_trigger_incoming(*w, id) by {
                let f = pred_trigger_incoming(id);
                lemma_errs_any_concat(ga, ca, f);
                if errs_any(ca, f) {
                    let k = choose|k: int| 0 <= k < ca.len() && f(ca[k]);
                    assert(false);
                }
        }
        assert forall|id: Seq<char>| has_orphan(all, id) <==> spec_orphan(*w, id) by {
                let f = pred_orphan(id);
                lemma_errs_any_concat(ga, ca, f);
                if errs_any(ca, f) {
                    let k = choose|k: int| 0 <= k < ca.len() && f(ca[k]);
                    assert(false);
                }
        }
        assert forall|id: Seq<char>| has_invalid_source(all, id) <==> spec_bad_source(*w, id) by {
                let f = pred_invalid_source(id);
                lemma_errs_any_concat(ga, ca, f);
                if errs_any(ca, f) {
                    let k = choose|k: int| 0 <= k < ca.len() && f(ca[k]);
                    assert(false);
                }
        }
        assert forall|id: Seq<char>| has_invalid_target(all, id) <==> spec_bad_target(*w, id) by {
                let f = pred_invalid_target(id);
                lemma_errs_any_concat(ga, ca, f);
                if errs_any(ca, f) {
                    let k = choose|k: int| 0 <= k < ca.len() && f(ca[k]);
                    assert(false);
                }
        }
        if spec_trigger_count(*w) == 1 {
            assert forall|id: Seq<char>|
                has_unreachable(all, id) <==> (spec_has_node(*w, id) && !spec_reachable(
                    *w,
                    spec_the_trigger_id(*w),
                    id,
                )) by {
                assert(has_unreachable(ga, id) <==> (spec_has_node(*w, id) && !spec_reachable(
                    *w,
                    spec_the_trigger_id(*w),
                    id,
                )));
                let f = pred_unreachable(id);
                lemma_errs_any_concat(ga, ca, f);
                if errs_any(ca, f) {
                    let k = choose|k: int| 0 <= k < ca.len() && f(ca[k]);
                    assert(false);
                }
            }
        } else {
            assert forall|id: Seq<char>| !has_unreachable(all, id) by {
                assert(!has_unreachable(ga, id));
                let f = pred_unreachable(id);
                lemma_errs_any_concat(ga, ca, f);
                if errs_any(ca, f) {
                    let k = choose|k: int| 0 <= k < ca.len() && f(ca[k]);
                    assert(false);
                }
            }
        }
        assert(has_cycle_err(*w, all) <==> spec_has_cycle(*w)) by {
                let f = pred_cycle_of(*w);
                lemma_errs_any_concat(ga, ca, f);
                if errs_any(ca, f) {
                    let k = choose|k: int| 0 <= k < ca.len() && f(ca[k]);
                    assert(false);
                }
        }
        assert(has_any_cycle_err(all) <==> spec_has_cycle(*w)) by {
                let f = pred_any_cycle();
                lemma_errs_any_concat(ga, ca, f);
                if errs_any(ca, f) {
                    let k = choose|k: int| 0 <= k < ca.len() && f(ca[k]);
                    assert(false);
                }
        }
        assert forall|id: Seq<char>|
            has_missing_activity(all, id) <==> spec_missing_activity(*w, id) by {
            assert(has_missing_activity(ca, id) <==> spec_missing_activity(*w, id));
                let f = pred_missing_activity(id);
                lemma_errs_any_concat(ga, ca, f);
                if errs_any(ga, f) {
                    let k = choose|k: int| 0 <= k < ga.len() && f(ga[k]);
                    assert(false);
                }
        }
        assert forall|id: Seq<char>|
            errs_any(all, pred_missing_required(id, "signalName"@)) <==> spec_signal_missing_name(
                *w,
                id,
            ) by {
            assert(errs_any(ca, pred_missing_required(id, "signalName"@))
                <==> spec_signal_missing_name(*w, id));
                let f = pred_missing_required(id, "signalName"@);
                lemma_errs_any_concat(ga, ca, f);
                if errs_any(ga, f) {
                    let k = choose|k: int| 0 <= k < ga.len() && f(ga[k]);
                    assert(false);
                }
        }
        assert forall|id: Seq<char>|
            errs_any(all, pred_missing_required(id, "workflowId"@)) <==> spec_child_missing_workflow(
                *w,
                id,
            ) by {
            assert(errs_any(ca, pred_missing_required(id, "workflowId"@))
                <==> spec_child_missing_workflow(*w, id));
                let f = pred_missing_required(id, "workflowId"@);
                lemma_errs_any_concat(ga, ca, f);
                if errs_any(ga, f) {
                    let k = choose|k: int| 0 <= k < ga.len() && f(ga[k]);
                    assert(false);
                }
        }
        assert forall|id: Seq<char>|
            errs_any(all, pred_invalid_config(id)) <==> spec_state_var_unconfigured(*w, id) by {
            assert(errs_any(ca, pred_invalid_config(id)) <==> spec_state_var_unconfigured(*w, id));
                let f = pred_invalid_config(id);
                lemma_errs_any_concat(ga, ca, f);
                if errs_any(ga, f) {
                    let k = choose|k: int| 0 <= k < ga.len() && f(ga[k]);
                    assert(false);
                }
        }
    }
    proof {
        assert forall|k: int|
            0 <= k < all.len() implies (#[trigger] all[k]) is EmptyWorkflow || all[k]
                is DuplicateNodeId || all[k] is DuplicateEdgeId || all[k] is NoStartNode || all[k]
                is MultipleStartNodes || all[k] is NoEndNode || all[k] is TriggerHasIncomingEdges
                || all[k] is OrphanNode || all[k] is InvalidEdgeSource || all[k]
                is InvalidEdgeTarget || all[k] is UnreachableNode || all[k] is CycleDetected
                || all[k] is MissingActivityName || (all[k] matches
                ValidationError::MissingRequiredField { node_id, field } && (field@
                == "signalName"@ || field@ == "workflowId"@)) || all[k] is InvalidConfig by {
            if k < ga.len() {
                assert(all[k] == ga[k]);
            } else {
                assert(all[k] == ca[k - ga.len()]);
            }
        }
    }
    let valid = errors.len() == 0;
    ValidationResult { valid, errors, warnings }
}

} // verus!
