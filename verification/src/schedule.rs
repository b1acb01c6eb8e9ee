//! The order in which the nodes of a graph are evaluated.

use crate::error::ModelError;
use tract_onnx::tract_core::model::order::eval_order_for_nodes;
use tract_onnx::tract_core::model::{Node, OutletId, TypedFact};
use tract_onnx::tract_core::ops::dummy::Dummy;
use tract_onnx::tract_core::ops::TypedOp;
use vstd::prelude::*;

verus! {

/// The lists of predecessors of a graph as sequences.
pub open spec fn preds_view(preds: Seq<Vec<usize>>) -> Seq<Seq<usize>> {
    preds.map_values(|p: Vec<usize>| p@)
}

/// Whether every index in `ids` names one of `n` nodes.
pub open spec fn ids_in_range(ids: Seq<usize>, n: nat) -> bool {
    forall|i: int| 0 <= i < ids.len() ==> ids[i] < n
}

/// The first node at or after `from` with a predecessor that the graph does
/// not hold.
pub open spec fn first_dangling(preds: Seq<Seq<usize>>, from: nat) -> Option<usize>
    decreases preds.len() - from,
{
    if from >= preds.len() {
        None
    } else if !ids_in_range(preds[from as int], preds.len()) {
        Some(from as usize)
    } else {
        first_dangling(preds, from + 1)
    }
}

/// The first index at or after `from` in `ids` that names none of `n` nodes.
pub open spec fn first_outside(ids: Seq<usize>, n: nat, from: nat) -> Option<usize>
    decreases ids.len() - from,
{
    if from >= ids.len() {
        None
    } else if ids[from as int] >= n {
        Some(ids[from as int])
    } else {
        first_outside(ids, n, from + 1)
    }
}

/// Whether the node at position `k` of `order` may run there: it is a node
/// of the graph, it has not run before, and all its predecessors have.
pub open spec fn ready_at(preds: Seq<Seq<usize>>, order: Seq<usize>, k: int) -> bool {
    &&& order[k] < preds.len()
    &&& !order.take(k).contains(order[k])
    &&& forall|p: int|
        0 <= p < preds[order[k] as int].len() ==> order.take(k).contains(
            #[trigger] preds[order[k] as int][p],
        )
}

/// Whether `order` lists nodes of the graph, none of them twice and each
/// after all its predecessors.
pub open spec fn is_linear_extension(preds: Seq<Seq<usize>>, order: Seq<usize>) -> bool {
    forall|k: int| 0 <= k < order.len() ==> #[trigger] ready_at(preds, order, k)
}

/// The order that the scheduler finds for a graph, given by the predecessors
/// of each node, the nodes that are the graph's inputs and those whose
/// outputs are wanted; `None` where it finds none.
pub uninterp spec fn scheduled_order(
    preds: Seq<Seq<usize>>,
    inputs: Seq<usize>,
    targets: Seq<usize>,
) -> Option<Seq<usize>>;

/// What the compiler makes of the scheduler's answer: it accepts an order
/// that is a linear extension of the graph and nothing else.
pub open spec fn accepted_order(preds: Seq<Seq<usize>>, found: Option<Seq<usize>>) -> Result<
    Seq<usize>,
    ModelError,
> {
    match found {
        Some(order) => if is_linear_extension(preds, order) {
            Ok(order)
        } else {
            Err(ModelError::NoEvalOrder)
        },
        None => Err(ModelError::NoEvalOrder),
    }
}

/// The evaluation order of a graph: an error for the first node with a
/// dangling predecessor, else for the first wanted node that the graph does
/// not hold, else what the compiler makes of the scheduler's answer.
pub open spec fn evaluation_order(
    preds: Seq<Seq<usize>>,
    inputs: Seq<usize>,
    targets: Seq<usize>,
) -> Result<Seq<usize>, ModelError> {
    match first_dangling(preds, 0) {
        Some(node) => Err(ModelError::MalformedGraph { node }),
        None => match first_outside(targets, preds.len(), 0) {
            Some(node) => Err(ModelError::MalformedGraph { node }),
            None => accepted_order(preds, scheduled_order(preds, inputs, targets)),
        },
    }
}

/// Calls `tract_core::model::order::eval_order_for_nodes` on nodes that have
/// the given predecessors and nothing else. The scheduler reads of a node
/// only its list of inputs, and walks the graph depth-first from each target
/// in turn, so what it returns is determined by the three arguments; the
/// contract gives that result its name and claims no more. It indexes the
/// node table with every target and every predecessor, hence the
/// preconditions.
#[verifier::external_body]
fn schedule(preds: &Vec<Vec<usize>>, inputs: &Vec<usize>, targets: &Vec<usize>) -> (r: Option<
    Vec<usize>,
>)
    requires
        forall|i: int| 0 <= i < preds@.len() ==> ids_in_range(#[trigger] preds@[i]@, preds@.len()),
        ids_in_range(targets@, preds@.len()),
    ensures
        match r {
            Some(order) => scheduled_order(preds_view(preds@), inputs@, targets@) == Some(order@),
            None => scheduled_order(preds_view(preds@), inputs@, targets@) is None,
        },
{
    let nodes: Vec<Node<TypedFact, Box<dyn TypedOp>>> = preds.iter().enumerate().map(
        |(id, p)| Node {
            id,
            name: String::new(),
            inputs: p.iter().map(|n| OutletId::new(*n, 0)).collect(),
            op: Box::new(Dummy::new()) as Box<dyn TypedOp>,
            outputs: Default::default(),
        },
    ).collect();
    eval_order_for_nodes(&nodes, inputs, targets, &[]).ok()
}

/// Whether every index in `ids` names one of `n` nodes.
pub fn all_in_range(ids: &Vec<usize>, n: usize) -> (r: bool)
    ensures
        r == ids_in_range(ids@, n as nat),
{
    let len: usize = ids.len();
    let mut i: usize = 0;
    while i < len
        invariant
            i <= len,
            len == ids@.len(),
            forall|j: int| 0 <= j < i ==> ids@[j] < n,
        decreases len - i,
    {
        if ids[i] >= n {
            return false;
        }
        i = i + 1;
    }
    true
}

/// The first node with a predecessor that the graph does not hold.
pub fn find_dangling(preds: &Vec<Vec<usize>>) -> (r: Option<usize>)
    ensures
        r == first_dangling(preds_view(preds@), 0),
        r is None ==> forall|i: int|
            0 <= i < preds@.len() ==> ids_in_range(#[trigger] preds@[i]@, preds@.len()),
{
    let n: usize = preds.len();
    let mut i: usize = 0;
    while i < n
        invariant
            i <= n,
            n == preds@.len(),
            first_dangling(preds_view(preds@), 0) == first_dangling(preds_view(preds@), i as nat),
            forall|j: int| 0 <= j < i ==> ids_in_range(#[trigger] preds@[j]@, n as nat),
        decreases n - i,
    {
        if !all_in_range(&preds[i], n) {
            return Some(i);
        }
        i = i + 1;
    }
    None
}

/// The first index in `ids` that names none of `n` nodes.
pub fn find_outside(ids: &Vec<usize>, n: usize) -> (r: Option<usize>)
    ensures
        r == first_outside(ids@, n as nat, 0),
        r is None ==> ids_in_range(ids@, n as nat),
{
    let len: usize = ids.len();
    let mut i: usize = 0;
    while i < len
        invariant
            i <= len,
            len == ids@.len(),
            first_outside(ids@, n as nat, 0) == first_outside(ids@, n as nat, i as nat),
            forall|j: int| 0 <= j < i ==> ids@[j] < n,
        decreases len - i,
    {
        if ids[i] >= n {
            return Some(ids[i]);
        }
        i = i + 1;
    }
    None
}

/// Whether `order` is a linear extension of the graph.
pub fn check_order(preds: &Vec<Vec<usize>>, order: &Vec<usize>) -> (r: bool)
    ensures
        r == is_linear_extension(preds_view(preds@), order@),
{
    let n: usize = preds.len();
    let len: usize = order.len();
    let ghost graph = preds_view(preds@);
    let mut done: Vec<bool> = Vec::new();
    let mut i: usize = 0;
    while i < n
        invariant
            i <= n,
            done@.len() == i,
            forall|j: int| 0 <= j < i ==> !done@[j],
        decreases n - i,
    {
        done.push(false);
        i = i + 1;
    }
    let mut k: usize = 0;
    while k < len
        invariant
            k <= len,
            len == order@.len(),
            n == preds@.len(),
            graph == preds_view(preds@),
            done@.len() == n,
            forall|j: int| 0 <= j < k ==> #[trigger] ready_at(graph, order@, j),
            forall|id: int| 0 <= id < n ==> (#[trigger] done@[id] <==> order@.take(k as int).contains(id as usize)),
            forall|id: usize| order@.take(k as int).contains(id) ==> id < n,
        decreases len - k,
    {
        let node: usize = order[k];
        if node >= n {
            assert(!ready_at(graph, order@, k as int));
            return false;
        }
        if done[node] {
            assert(!ready_at(graph, order@, k as int));
            return false;
        }
        let ins: &Vec<usize> = &preds[node];
        let m: usize = ins.len();
        let mut p: usize = 0;
        while p < m
            invariant
                p <= m,
                m == ins@.len(),
                graph == preds_view(preds@),
                graph.len() == n,
                ins@ == graph[node as int],
                node == order@[k as int],
                node < n,
                k < len,
                len == order@.len(),
                done@.len() == n,
                forall|q: int| 0 <= q < p ==> order@.take(k as int).contains(#[trigger] ins@[q]),
                forall|id: int| 0 <= id < n ==> (#[trigger] done@[id] <==> order@.take(k as int).contains(id as usize)),
                forall|id: usize| order@.take(k as int).contains(id) ==> id < n,
            decreases m - p,
        {
            let before: usize = ins[p];
            if before >= n || !done[before] {
                assert(!order@.take(k as int).contains(graph[node as int][p as int]));
                assert(!ready_at(graph, order@, k as int));
                return false;
            }
            p = p + 1;
        }
        assert(ready_at(graph, order@, k as int));
        done.set(node, true);
        proof {
            let old_seen = order@.take(k as int);
            let seen = order@.take(k + 1);
            assert(seen =~= old_seen.push(node));
            assert forall|id: usize| seen.contains(id) <==> (old_seen.contains(id) || id == node) by {
                if seen.contains(id) {
                    let j = choose|j: int| 0 <= j < seen.len() && seen[j] == id;
                    if j < k {
                        assert(old_seen[j] == id);
                    }
                }
                if old_seen.contains(id) {
                    let j = choose|j: int| 0 <= j < old_seen.len() && old_seen[j] == id;
                    assert(seen[j] == id);
                }
                if id == node {
                    assert(seen[k as int] == id);
                }
            }
        }
        k = k + 1;
    }
    true
}

/// What the compiler makes of the scheduler's answer.
pub fn accept_order(preds: &Vec<Vec<usize>>, found: Option<Vec<usize>>) -> (r: Result<
    Vec<usize>,
    ModelError,
>)
    ensures
        match r {
            Ok(order) => found matches Some(f) && f@ == order@ && accepted_order(
                preds_view(preds@),
                Some(f@),
            ) == Ok::<Seq<usize>, ModelError>(order@),
            Err(e) => accepted_order(
                preds_view(preds@),
                match found {
                    Some(f) => Some(f@),
                    None => None,
                },
            ) == Err::<Seq<usize>, ModelError>(e),
        },
{
    match found {
        Some(order) => {
            if check_order(preds, &order) {
                Ok(order)
            } else {
                Err(ModelError::NoEvalOrder)
            }
        },
        None => Err(ModelError::NoEvalOrder),
    }
}

/// The evaluation order of a graph given by the predecessors of each node,
/// the nodes that are its inputs and those whose outputs are wanted.
pub fn eval_order(preds: &Vec<Vec<usize>>, inputs: &Vec<usize>, targets: &Vec<usize>) -> (r:
    Result<Vec<usize>, ModelError>)
    ensures
        r matches Ok(order) ==> is_linear_extension(preds_view(preds@), order@),
        match r {
            Ok(order) => evaluation_order(preds_view(preds@), inputs@, targets@) == Ok::<
                Seq<usize>,
                ModelError,
            >(order@),
            Err(e) => evaluation_order(preds_view(preds@), inputs@, targets@) == Err::<
                Seq<usize>,
                ModelError,
            >(e),
        },
{
    if let Some(node) = find_dangling(preds) {
        return Err(ModelError::MalformedGraph { node });
    }
    if let Some(node) = find_outside(targets, preds.len()) {
        return Err(ModelError::MalformedGraph { node });
    }
    let found = schedule(preds, inputs, targets);
    accept_order(preds, found)
}

} // verus!
