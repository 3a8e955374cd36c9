//! Reachability and cycle analysis over the workflow graph.
//!
//! Both analyses work on node ids and forward edges alone.  Reachability
//! computes exactly the set of ids reachable from a start id; cycle
//! detection reports a cycle if and only if the edges contain one.

use crate::schema::{spec_has_edge, spec_has_node, WorkflowDefinition};
use crate::text::str_eq;
use vstd::prelude::*;

verus! {

/// Whether `p` is a walk along forward edges: at least one id, an edge
/// between each consecutive pair.
pub open spec fn spec_is_path(w: WorkflowDefinition, p: Seq<Seq<char>>) -> bool {
    p.len() >= 1 && (forall|i: int|
        0 <= i < p.len() - 1 ==> spec_has_edge(w, p[i], #[trigger] p[i + 1]))
}

/// Whether `to` can be reached from `from` along forward edges.  Every id
/// reaches itself.
pub open spec fn spec_reachable(w: WorkflowDefinition, from: Seq<char>, to: Seq<char>) -> bool {
    exists|p: Seq<Seq<char>>| spec_is_path(w, p) && p[0] == from && p.last() == to
}

/// Whether `p` is a directed cycle: a walk whose last id has an edge back
/// to its first.
pub open spec fn spec_is_cycle(w: WorkflowDefinition, p: Seq<Seq<char>>) -> bool {
    &&& p.len() >= 1
    &&& (forall|i: int| 0 <= i < p.len() - 1 ==> spec_has_edge(w, p[i], #[trigger] p[i + 1]))
    &&& spec_has_edge(w, p.last(), p[0])
}

/// Whether the graph's edges contain any directed cycle.
pub open spec fn spec_has_cycle(w: WorkflowDefinition) -> bool {
    exists|p: Seq<Seq<char>>| spec_is_cycle(w, p)
}

/// Whether the list holds an id with this text.
pub open spec fn in_ids(s: Seq<String>, id: Seq<char>) -> bool {
    exists|k: int| 0 <= k < s.len() && (#[trigger] s[k])@ == id
}

/// Whether the list holds no two ids with the same text.
pub open spec fn ids_nodup(s: Seq<String>) -> bool {
    forall|i: int, j: int| 0 <= i < j < s.len() ==> (#[trigger] s[i])@ != (#[trigger] s[j])@
}

/// Whether the list holds an id with this text.
pub fn contains_id(v: &Vec<String>, id: &str) -> (r: bool)
    ensures
        r == in_ids(v@, id@),
{
    let mut i: usize = 0;
    while i < v.len()
        invariant
            i <= v@.len(),
            forall|k: int| 0 <= k < i ==> (#[trigger] v@[k])@ != id@,
        decreases v@.len() - i,
    {
        if str_eq(v[i].as_str(), id) {
            return true;
        }
        i = i + 1;
    }
    false
}

/// A list of distinct id texts drawn from a pool is no longer than the pool.
proof fn lemma_ids_bound(s: Seq<String>, pool: Seq<Seq<char>>)
    requires
        ids_nodup(s),
        forall|k: int| 0 <= k < s.len() ==> pool.contains((#[trigger] s[k])@),
    ensures
        s.len() <= pool.len(),
{
    let vs = s.map_values(|x: String| x@);
    assert(vs.len() == s.len());
    assert forall|i: int, j: int|
        0 <= i < vs.len() && 0 <= j < vs.len() && i != j implies vs[i] != vs[j] by {
        if i < j {
            assert(s[i]@ != s[j]@);
        } else {
            assert(s[j]@ != s[i]@);
        }
    }
    assert(vs.no_duplicates());
    vs.unique_seq_to_set();
    assert forall|x: Seq<char>| vs.to_set().contains(x) implies pool.to_set().contains(x) by {
        let i = choose|i: int| 0 <= i < vs.len() && vs[i] == x;
        assert(pool.contains(s[i]@));
    }
    vstd::seq_lib::seq_to_set_is_finite(pool);
    vstd::set_lib::lemma_len_subset(vs.to_set(), pool.to_set());
    pool.lemma_cardinality_of_set();
}

/// The pool of ids that a traversal from `start` can ever collect: the
/// start id and every edge target.
pub open spec fn spec_target_pool(w: WorkflowDefinition, start: Seq<char>) -> Seq<Seq<char>> {
    seq![start] + w.edges@.map_values(|e: crate::schema::WorkflowEdge| e.target@)
}

/// A set of ids that contains the start and is closed under forward edges
/// holds every reachable id.
proof fn lemma_closed_covers_path(
    w: WorkflowDefinition,
    visited: Seq<String>,
    p: Seq<Seq<char>>,
)
    requires
        spec_is_path(w, p),
        in_ids(visited, p[0]),
        forall|k: int, e: int|
            0 <= k < visited.len() && 0 <= e < w.edges@.len() && (#[trigger] w.edges@[e]).source@
                == (#[trigger] visited[k])@ ==> in_ids(visited, w.edges@[e].target@),
    ensures
        in_ids(visited, p.last()),
    decreases p.len(),
{
    if p.len() > 1 {
        let q = p.drop_last();
        assert(spec_is_path(w, q));
        assert(q[0] == p[0]);
        lemma_closed_covers_path(w, visited, q);
        assert(in_ids(visited, p[p.len() - 2]));
        let k = choose|k: int| 0 <= k < visited.len() && visited[k]@ == p[p.len() - 2];
        let i = p.len() - 2;
        assert(spec_has_edge(w, p[i], p[i + 1]));
        let e = choose|e: int|
            0 <= e < w.edges@.len() && (#[trigger] w.edges@[e]).source@ == p[p.len() - 2]
                && w.edges@[e].target@ == p.last();
        assert(in_ids(visited, w.edges@[e].target@));
    }
}

/// The ids reachable from `start` along forward edges, the start included,
/// each id once: an id is in the result exactly when the graph's edges
/// admit a walk to it from `start`.
#[verifier::loop_isolation(false)]
pub fn reachable_ids(w: &WorkflowDefinition, start: &String) -> (r: Vec<String>)
    ensures
        forall|k: int| 0 <= k < r@.len() ==> spec_reachable(*w, start@, (#[trigger] r@[k])@),
        forall|id: Seq<char>| spec_reachable(*w, start@, id) ==> in_ids(r@, id),
        ids_nodup(r@),
        in_ids(r@, start@),
{
    let mut visited: Vec<String> = Vec::new();
    let mut stack: Vec<String> = Vec::new();
    visited.push(start.clone());
    stack.push(start.clone());
    proof {
        assert(visited@[0]@ == start@);
        let p = seq![start@];
        assert(spec_is_path(*w, p) && p[0] == start@ && p.last() == start@);
        assert(spec_reachable(*w, start@, start@));
        assert(spec_target_pool(*w, start@).contains(start@)) by {
            assert(spec_target_pool(*w, start@)[0] == start@);
        }
    }
    let mut done: bool = false;
    while !done
        invariant
            done ==> stack@.len() == 0,
            in_ids(visited@, start@),
            ids_nodup(visited@),
            forall|k: int|
                0 <= k < visited@.len() ==> spec_target_pool(*w, start@).contains(
                    (#[trigger] visited@[k])@,
                ),
            forall|k: int|
                0 <= k < stack@.len() ==> in_ids(visited@, (#[trigger] stack@[k])@),
            forall|k: int|
                0 <= k < visited@.len() ==> spec_reachable(*w, start@, (#[trigger] visited@[k])@),
            forall|k: int, e: int|
                0 <= k < visited@.len() && 0 <= e < w.edges@.len() && !in_ids(
                    stack@,
                    (#[trigger] visited@[k])@,
                ) && (#[trigger] w.edges@[e]).source@ == visited@[k]@ ==> in_ids(
                    visited@,
                    w.edges@[e].target@,
                ),
            visited@.len() <= spec_target_pool(*w, start@).len(),
        decreases
            spec_target_pool(*w, start@).len() + 1 - visited@.len(),
            stack@.len(),
            (if done { 0int } else { 1int }),
    {
        proof {
            lemma_ids_bound(visited@, spec_target_pool(*w, start@));
        }
        let ghost stack0 = stack@;
        let ghost v0 = visited@.len();
        let popped = stack.pop();
        match popped {
            Option::None => {
                done = true;
            },
            Option::Some(current) => {
                proof {
                    assert(stack0 =~= stack@.push(current));
                    assert(in_ids(visited@, current@)) by {
                        assert(stack0[stack0.len() - 1] == current);
                    }
                    assert forall|k: int, e: int|
                        0 <= k < visited@.len() && 0 <= e < w.edges@.len() && !in_ids(
                            stack@,
                            (#[trigger] visited@[k])@,
                        ) && (#[trigger] w.edges@[e]).source@ == visited@[k]@ && visited@[k]@
                            != current@ implies in_ids(visited@, w.edges@[e].target@) by {
                        assert(!in_ids(stack0, visited@[k]@)) by {
                            if in_ids(stack0, visited@[k]@) {
                                let m = choose|m: int|
                                    0 <= m < stack0.len() && stack0[m]@ == visited@[k]@;
                                if m < stack0.len() - 1 {
                                    assert(stack@[m] == stack0[m]);
                                    assert(in_ids(stack@, visited@[k]@));
                                } else {
                                    assert(stack0[m] == current);
                                }
                            }
                        }
                    }
                }
                let mut j: usize = 0;
                while j < w.edges.len()
                    invariant
                        in_ids(visited@, current@),
                        in_ids(visited@, start@),
                        ids_nodup(visited@),
                        forall|k: int|
                            0 <= k < visited@.len() ==> spec_target_pool(*w, start@).contains(
                                (#[trigger] visited@[k])@,
                            ),
                        forall|k: int|
                            0 <= k < stack@.len() ==> in_ids(visited@, (#[trigger] stack@[k])@),
                        forall|k: int|
                            0 <= k < visited@.len() ==> spec_reachable(
                                *w,
                                start@,
                                (#[trigger] visited@[k])@,
                            ),
                        forall|k: int, e: int|
                            0 <= k < visited@.len() && 0 <= e < w.edges@.len() && !in_ids(
                                stack@,
                                (#[trigger] visited@[k])@,
                            ) && (#[trigger] w.edges@[e]).source@ == visited@[k]@ && visited@[k]@
                                != current@ ==> in_ids(visited@, w.edges@[e].target@),
                        forall|e: int|
                            0 <= e < j && (#[trigger] w.edges@[e]).source@ == current@ ==> in_ids(
                                visited@,
                                w.edges@[e].target@,
                            ),
                        visited@.len() <= spec_target_pool(*w, start@).len(),
                        visited@.len() >= v0,
                        stack@.len() + v0 <= stack0.len() - 1 + visited@.len(),
                    decreases w.edges@.len() - j,
                {
                    let e = &w.edges[j];
                    if str_eq(e.source.as_str(), current.as_str()) {
                        if !contains_id(&visited, e.target.as_str()) {
                            proof {
                                let kc = choose|k: int|
                                    0 <= k < visited@.len() && visited@[k]@ == current@;
                                let pc = choose|p: Seq<Seq<char>>|
                                    spec_is_path(*w, p) && p[0] == start@ && p.last() == current@;
                                let pt = pc.push(e.target@);
                                assert(spec_has_edge(*w, current@, e.target@)) by {
                                    assert(w.edges@[j as int].source@ == current@);
                                    assert(w.edges@[j as int].target@ == e.target@);
                                }
                                assert forall|i: int| 0 <= i < pt.len() - 1 implies spec_has_edge(
                                    *w,
                                    pt[i],
                                    #[trigger] pt[i + 1],
                                ) by {
                                    if i < pc.len() - 1 {
                                        assert(spec_has_edge(*w, pc[i], pc[i + 1]));
                                    } else {
                                        assert(pt[i] == pc.last() && pt[i + 1] == e.target@);
                                    }
                                }
                                assert(spec_is_path(*w, pt) && pt[0] == start@ && pt.last()
                                    == e.target@);
                                assert(spec_reachable(*w, start@, e.target@));
                                assert(spec_target_pool(*w, start@)[1 + j as int] == w.edges@[
                                    j as int].target@);
                                assert(spec_target_pool(*w, start@).contains(e.target@));
                            }
                            let ghost vpre = visited@;
                            let ghost spre = stack@;
                            visited.push(e.target.clone());
                            stack.push(e.target.clone());
                            proof {
                                assert(visited@ == vpre.push(e.target));
                                assert(stack@ == spre.push(e.target));
                                assert(visited@[vpre.len() as int]@ == e.target@);
                                assert forall|id: Seq<char>| in_ids(vpre, id) implies in_ids(
                                    visited@,
                                    id,
                                ) by {
                                    let m = choose|m: int|
                                        0 <= m < vpre.len() && vpre[m]@ == id;
                                    assert(visited@[m] == vpre[m]);
                                }
                                assert forall|id: Seq<char>| in_ids(spre, id) implies in_ids(
                                    stack@,
                                    id,
                                ) by {
                                    let m = choose|m: int|
                                        0 <= m < spre.len() && spre[m]@ == id;
                                    assert(stack@[m] == spre[m]);
                                }
                                assert(in_ids(stack@, e.target@)) by {
                                    assert(stack@[spre.len() as int] == e.target);
                                }
                                assert(in_ids(visited@, e.target@));
                                assert forall|k: int, ei: int|
                                    0 <= k < visited@.len() && 0 <= ei < w.edges@.len() && !in_ids(
                                        stack@,
                                        (#[trigger] visited@[k])@,
                                    ) && (#[trigger] w.edges@[ei]).source@ == visited@[k]@
                                        && visited@[k]@ != current@ implies in_ids(
                                    visited@,
                                    w.edges@[ei].target@,
                                ) by {
                                    if k < vpre.len() {
                                        assert(visited@[k] == vpre[k]);
                                        assert(!in_ids(spre, vpre[k]@)) by {
                                            if in_ids(spre, vpre[k]@) {
                                                assert(in_ids(stack@, visited@[k]@));
                                            }
                                        }
                                        assert(in_ids(vpre, w.edges@[ei].target@));
                                    } else {
                                        assert(visited@[k]@ == e.target@);
                                        assert(in_ids(stack@, visited@[k]@));
                                    }
                                }
                                assert forall|ei: int|
                                    0 <= ei < j + 1 && (#[trigger] w.edges@[ei]).source@
                                        == current@ implies in_ids(visited@, w.edges@[ei].target@)
                                    by {
                                    if ei < j {
                                        assert(in_ids(vpre, w.edges@[ei].target@));
                                    } else {
                                        assert(w.edges@[ei].target@ == e.target@);
                                    }
                                }
                                lemma_ids_bound(visited@, spec_target_pool(*w, start@));
                            }
                        }
                    }
                    j = j + 1;
                }
            },
        }
    }
    proof {
        assert(stack@.len() == 0);
        assert forall|id: Seq<char>| spec_reachable(*w, start@, id) implies in_ids(
            visited@,
            id,
        ) by {
            let p = choose|p: Seq<Seq<char>>|
                spec_is_path(*w, p) && p[0] == start@ && p.last() == id;
            lemma_closed_covers_path(*w, visited@, p);
        }
    }
    visited
}

/// The first index in `v` holding an id with this text, if any.
pub fn find_in_ids(v: &Vec<String>, id: &str) -> (r: Option<usize>)
    ensures
        match r {
            Option::Some(k) => k < v@.len() && v@[k as int]@ == id@,
            Option::None => !in_ids(v@, id@),
        },
{
    let mut i: usize = 0;
    while i < v.len()
        invariant
            i <= v@.len(),
            forall|k: int| 0 <= k < i ==> (#[trigger] v@[k])@ != id@,
        decreases v@.len() - i,
    {
        if str_eq(v[i].as_str(), id) {
            return Option::Some(i);
        }
        i = i + 1;
    }
    Option::None
}

/// The first edge whose target is `id` and whose source still stands in
/// `remaining`, if any.
fn find_incoming_from(w: &WorkflowDefinition, remaining: &Vec<String>, id: &str) -> (r: Option<
    usize,
>)
    ensures
        match r {
            Option::Some(j) => j < w.edges@.len() && w.edges@[j as int].target@ == id@ && in_ids(
                remaining@,
                w.edges@[j as int].source@,
            ),
            Option::None => forall|e: int|
                0 <= e < w.edges@.len() && (#[trigger] w.edges@[e]).target@ == id@ ==> !in_ids(
                    remaining@,
                    w.edges@[e].source@,
                ),
        },
{
    let mut j: usize = 0;
    while j < w.edges.len()
        invariant
            j <= w.edges@.len(),
            forall|e: int|
                0 <= e < j && (#[trigger] w.edges@[e]).target@ == id@ ==> !in_ids(
                    remaining@,
                    w.edges@[e].source@,
                ),
        decreases w.edges@.len() - j,
    {
        if str_eq(w.edges[j].target.as_str(), id) {
            if contains_id(remaining, w.edges[j].source.as_str()) {
                return Option::Some(j);
            }
        }
        j = j + 1;
    }
    Option::None
}

/// A list of distinct id texts all present in another id list is no longer
/// than that list.
proof fn lemma_ids_in_ids_bound(s: Seq<String>, r: Seq<String>)
    requires
        ids_nodup(s),
        forall|k: int| 0 <= k < s.len() ==> in_ids(r, (#[trigger] s[k])@),
    ensures
        s.len() <= r.len(),
{
    let pool = r.map_values(|x: String| x@);
    assert forall|k: int| 0 <= k < s.len() implies pool.contains((#[trigger] s[k])@) by {
        let m = choose|m: int| 0 <= m < r.len() && r[m]@ == s[k]@;
        assert(pool[m] == s[k]@);
    }
    lemma_ids_bound(s, pool);
}

/// Every id on a cycle is the source of some edge.
proof fn lemma_cycle_ids_are_sources(w: WorkflowDefinition, p: Seq<Seq<char>>, i: int)
    requires
        spec_is_cycle(w, p),
        0 <= i < p.len(),
    ensures
        exists|e: int| 0 <= e < w.edges@.len() && (#[trigger] w.edges@[e]).source@ == p[i],
{
    if i < p.len() - 1 {
        assert(spec_has_edge(w, p[i], p[i + 1]));
        let e = choose|e: int|
            0 <= e < w.edges@.len() && (#[trigger] w.edges@[e]).source@ == p[i] && w.edges@[
                e
            ].target@ == p[i + 1];
        assert(w.edges@[e].source@ == p[i]);
    } else {
        assert(spec_has_edge(w, p.last(), p[0]));
        let e = choose|e: int|
            0 <= e < w.edges@.len() && (#[trigger] w.edges@[e]).source@ == p.last() && w.edges@[
                e
            ].target@ == p[0];
        assert(w.edges@[e].source@ == p[i]);
    }
}

/// Whether every id on any directed cycle of the graph stands in `ids`.
#[verifier::opaque]
pub open spec fn spec_cycles_within(w: WorkflowDefinition, ids: Seq<String>) -> bool {
    forall|p: Seq<Seq<char>>, i: int|
        #![trigger spec_is_cycle(w, p), p[i]]
        spec_is_cycle(w, p) && 0 <= i < p.len() ==> in_ids(ids, p[i])
}

/// Whether the id at position `k` of the list has an incoming edge whose
/// source is also in the list.
pub open spec fn spec_has_incoming_at(w: WorkflowDefinition, ids: Seq<String>, k: int) -> bool {
    exists|e: int|
        0 <= e < w.edges@.len() && (#[trigger] w.edges@[e]).target@ == ids[k]@ && in_ids(
            ids,
            w.edges@[e].source@,
        )
}

/// Whether every id in the list has an incoming edge whose source is also
/// in the list.
#[verifier::opaque]
pub open spec fn spec_all_have_incoming(w: WorkflowDefinition, ids: Seq<String>) -> bool {
    forall|k: int| 0 <= k < ids.len() ==> #[trigger] spec_has_incoming_at(w, ids, k)
}

/// Searches the graph's edges for a directed cycle.  Returns a cycle --
/// consecutive ids joined by edges, the last joined back to the first --
/// exactly when one exists.
#[verifier::loop_isolation(false)]
#[verifier::rlimit(60)]
pub fn detect_cycle(w: &WorkflowDefinition) -> (r: Option<Vec<String>>)
    ensures
        match r {
            Option::Some(c) => spec_is_cycle(*w, c.deep_view()) && spec_has_cycle(*w),
            Option::None => !spec_has_cycle(*w),
        },
{
    // Work on the distinct ids that occur as an edge source: every id on a
    // cycle is one.
    let mut remaining: Vec<String> = Vec::new();
    let mut i: usize = 0;
    while i < w.edges.len()
        invariant
            i <= w.edges@.len(),
            ids_nodup(remaining@),
            forall|k: int|
                0 <= k < remaining@.len() ==> exists|e: int|
                    0 <= e < w.edges@.len() && (#[trigger] w.edges@[e]).source@ == (
                    #[trigger] remaining@[k])@,
            forall|e: int|
                0 <= e < i ==> in_ids(remaining@, (#[trigger] w.edges@[e]).source@),
        decreases w.edges@.len() - i,
    {
        let src = &w.edges[i].source;
        if !contains_id(&remaining, src.as_str()) {
            let ghost rpre = remaining@;
            remaining.push(src.clone());
            proof {
                assert(remaining@[rpre.len() as int]@ == src@);
                assert(w.edges@[i as int].source@ == src@);
                assert forall|id: Seq<char>| in_ids(rpre, id) implies in_ids(remaining@, id) by {
                    let m = choose|m: int| 0 <= m < rpre.len() && rpre[m]@ == id;
                    assert(remaining@[m] == rpre[m]);
                }
            }
        }
        i = i + 1;
    }
    proof {
        assert(spec_cycles_within(*w, remaining@)) by {
            reveal(spec_cycles_within);
            assert forall|p: Seq<Seq<char>>, i: int|
                #![trigger spec_is_cycle(*w, p), p[i]]
                spec_is_cycle(*w, p) && 0 <= i < p.len() implies in_ids(remaining@, p[i]) by {
                lemma_cycle_ids_are_sources(*w, p, i);
                let e = choose|e: int|
                    0 <= e < w.edges@.len() && (#[trigger] w.edges@[e]).source@ == p[i];
                assert(in_ids(remaining@, w.edges@[e].source@));
            }
        }
    }
    // Repeatedly drop an id with no incoming edge from the rest.  Ids on a
    // cycle always keep one and are never dropped.
    let mut stuck: bool = false;
    while !stuck
        invariant
            ids_nodup(remaining@),
            spec_cycles_within(*w, remaining@),
            stuck ==> spec_all_have_incoming(*w, remaining@),
        decreases remaining@.len(), (if stuck { 0int } else { 1int }),
    {
        let mut j: usize = 0;
        let mut removed: bool = false;
        let ghost r_len0 = remaining@.len();
        while j < remaining.len() && !removed
            invariant
                j <= remaining@.len(),
                ids_nodup(remaining@),
                remaining@.len() + (if removed { 1int } else { 0int }) == r_len0,
                spec_cycles_within(*w, remaining@),
                !removed ==> forall|k: int|
                    0 <= k < j ==> #[trigger] spec_has_incoming_at(*w, remaining@, k),
            decreases remaining@.len() - j, (if removed { 0int } else { 1int }),
        {
            match find_incoming_from(w, &remaining, remaining[j].as_str()) {
                Option::Some(fj) => {
                    proof {
                        assert(spec_has_incoming_at(*w, remaining@, j as int)) by {
                            assert(w.edges@[fj as int].target@ == remaining@[j as int]@);
                        }
                    }
                    j = j + 1;
                },
                Option::None => {
                    let ghost rpre = remaining@;
                    let ghost dropped = remaining@[j as int];
                    let _ = remaining.remove(j);
                    proof {
                        assert forall|id: Seq<char>|
                            in_ids(rpre, id) && id != dropped@ implies in_ids(remaining@, id) by {
                            let m = choose|m: int| 0 <= m < rpre.len() && rpre[m]@ == id;
                            if m < j {
                                assert(remaining@[m] == rpre[m]);
                            } else {
                                assert(remaining@[m - 1] == rpre[m]);
                            }
                        }
                        assert(spec_cycles_within(*w, remaining@)) by {
                        reveal(spec_cycles_within);
                        assert forall|p: Seq<Seq<char>>, i: int|
                            #![trigger spec_is_cycle(*w, p), p[i]]
                            spec_is_cycle(*w, p) && 0 <= i < p.len() implies in_ids(
                            remaining@,
                            p[i],
                        ) by {
                            assert(in_ids(rpre, p[i]));
                            if p[i] == dropped@ {
                                let pred: int = if i == 0 {
                                    p.len() - 1
                                } else {
                                    i - 1
                                };
                                assert(spec_has_edge(*w, p[pred], p[i])) by {
                                    if i == 0 {
                                        assert(spec_has_edge(*w, p.last(), p[0]));
                                    } else {
                                        assert(spec_has_edge(*w, p[i - 1], p[(i - 1) + 1]));
                                    }
                                }
                                let e = choose|e: int|
                                    0 <= e < w.edges@.len() && (#[trigger] w.edges@[e]).source@
                                        == p[pred] && w.edges@[e].target@ == p[i];
                                assert(in_ids(rpre, p[pred]));
                                assert(!in_ids(rpre, w.edges@[e].source@));
                                assert(false);
                            }
                        }
                        }
                    }
                    removed = true;
                },
            }
        }
        if !removed {
            proof {
                assert(spec_all_have_incoming(*w, remaining@)) by {
                    reveal(spec_all_have_incoming);
                    assert forall|k: int|
                        0 <= k < remaining@.len() implies #[trigger] spec_has_incoming_at(
                        *w,
                        remaining@,
                        k,
                    ) by {
                        assert(k < j);
                    }
                }
            }
            stuck = true;
        }
    }
    if remaining.len() == 0 {
        proof {
            if spec_has_cycle(*w) {
                reveal(spec_cycles_within);
                let p = choose|p: Seq<Seq<char>>| spec_is_cycle(*w, p);
                assert(in_ids(remaining@, p[0]));
            }
        }
        return Option::None;
    }
    // Every id left has an incoming edge from another id left: walk
    // backwards until an id repeats, then cut the loop out of the walk.
    let mut walk: Vec<String> = Vec::new();
    walk.push(remaining[0].clone());
    proof {
        assert(walk@[0]@ == remaining@[0]@);
    }
    loop
        invariant
            remaining@.len() > 0,
            ids_nodup(remaining@),
            walk@.len() >= 1,
            ids_nodup(walk@),
            forall|k: int| 0 <= k < walk@.len() ==> in_ids(remaining@, (#[trigger] walk@[k])@),
            forall|k: int|
                0 <= k < walk@.len() - 1 ==> spec_has_edge(
                    *w,
                    (#[trigger] walk@[k + 1])@,
                    walk@[k]@,
                ),
            spec_all_have_incoming(*w, remaining@),
        decreases remaining@.len() - walk@.len(),
    {
        proof {
            lemma_ids_in_ids_bound(walk@, remaining@);
        }
        let last_idx = walk.len() - 1;
        let tail_owned = walk[last_idx].clone();
        let eidx = match find_incoming_from(w, &remaining, tail_owned.as_str()) {
            Option::Some(j) => j,
            Option::None => {
                proof {
                    reveal(spec_all_have_incoming);
                    let k = choose|k: int|
                        0 <= k < remaining@.len() && remaining@[k]@ == tail_owned@;
                    assert(spec_has_incoming_at(*w, remaining@, k));
                    let e = choose|e: int|
                        0 <= e < w.edges@.len() && (#[trigger] w.edges@[e]).target@
                            == remaining@[k]@ && in_ids(remaining@, w.edges@[e].source@);
                    assert(false);
                }
                vstd::pervasive::unreached()
            },
        };
        let pred = w.edges[eidx].source.clone();
        proof {
            assert(spec_has_edge(*w, pred@, tail_owned@)) by {
                assert(w.edges@[eidx as int].source@ == pred@);
                assert(w.edges@[eidx as int].target@ == tail_owned@);
            }
        }
        match find_in_ids(&walk, pred.as_str()) {
            Option::Some(k) => {
                // walk[k] is pred again: the ids walk[k], walk[last],
                // walk[last - 1], ..., walk[k + 1] form a cycle.
                let mut cyc: Vec<String> = Vec::new();
                cyc.push(walk[k].clone());
                let ghost big_l = walk@.len();
                let mut t: usize = 0;
                proof {
                    assert(cyc@[0]@ == walk@[k as int]@);
                }
                while t < walk.len() - 1 - k
                    invariant
                        k < walk@.len(),
                        t <= walk@.len() - 1 - k,
                        cyc@.len() == 1 + t,
                        cyc@[0]@ == walk@[k as int]@,
                        forall|u: int|
                            1 <= u <= t ==> (#[trigger] cyc@[u])@ == walk@[big_l - u]@,
                    decreases walk@.len() - 1 - k - t,
                {
                    let idx = walk.len() - 1 - t;
                    cyc.push(walk[idx].clone());
                    t = t + 1;
                }
                proof {
                    let cv = cyc.deep_view();
                    assert(cv.len() == big_l - k);
                    assert forall|u: int| 0 <= u < cv.len() implies cv[u] == cyc@[u]@ by {}
                    assert(cv[0] == walk@[k as int]@);
                    assert(walk@[k as int]@ == pred@);
                    assert forall|m: int| 0 <= m < cv.len() - 1 implies spec_has_edge(
                        *w,
                        cv[m],
                        #[trigger] cv[m + 1],
                    ) by {
                        if m == 0 {
                            assert(cv[1] == walk@[big_l - 1]@);
                            assert(spec_has_edge(*w, pred@, tail_owned@));
                            assert(tail_owned@ == walk@[big_l - 1]@);
                        } else {
                            assert(cv[m] == walk@[big_l - m]@);
                            assert(cv[m + 1] == walk@[big_l - m - 1]@);
                            let q = big_l - m - 1;
                            assert(spec_has_edge(*w, walk@[q + 1]@, walk@[q]@));
                        }
                    }
                    assert(spec_has_edge(*w, cv.last(), cv[0])) by {
                        if cv.len() == 1 {
                            assert(cv[0] == walk@[big_l - 1]@);
                            assert(pred@ == walk@[k as int]@);
                            assert(spec_has_edge(*w, pred@, tail_owned@));
                        } else {
                            assert(cv.last() == walk@[k + 1]@);
                            assert(spec_has_edge(*w, walk@[k + 1]@, walk@[k as int]@));
                        }
                    }
                    assert(spec_is_cycle(*w, cv));
                }
                return Option::Some(cyc);
            },
            Option::None => {
                let ghost wpre = walk@;
                walk.push(pred);
                proof {
                    assert(walk@[wpre.len() as int]@ == w.edges@[eidx as int].source@);
                    assert forall|id: Seq<char>| in_ids(wpre, id) implies in_ids(walk@, id) by {
                        let m = choose|m: int| 0 <= m < wpre.len() && wpre[m]@ == id;
                        assert(walk@[m] == wpre[m]);
                    }
                    assert(in_ids(remaining@, walk@[wpre.len() as int]@));
                    lemma_ids_in_ids_bound(walk@, remaining@);
                }
            },
        }
    }
}

} // verus!
