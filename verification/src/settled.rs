//! The forward pass leaves a graph that a second forward pass does not
//! change.

use crate::error::ModelError;
use crate::model::{predecessors, ModelView};
use crate::node::NodeView;
use crate::quantize::{node_update, operand, operand_id, quantize_pass, quantize_step};
use crate::schedule::{is_linear_extension, ready_at};
use vstd::prelude::*;

verus! {

/// A visit keeps what the importer reported of the node.
pub proof fn lemma_update_keeps_facts(
    n: NodeView,
    idx: usize,
    a: Option<NodeView>,
    w: Option<NodeView>,
    b: Option<NodeView>,
)
    ensures
        node_update(n, idx, a, w, b) matches Ok(s) ==> s.facts == n.facts,
{
}

/// A node that was visited is not changed by a second visit with the same
/// operands.
pub proof fn lemma_update_idempotent(
    n: NodeView,
    idx: usize,
    a: Option<NodeView>,
    w: Option<NodeView>,
    b: Option<NodeView>,
)
    ensures
        node_update(n, idx, a, w, b) matches Ok(s) ==> node_update(s, idx, a, w, b) == Ok::<
            NodeView,
            ModelError,
        >(s),
{
}

/// An index is listed in a non-empty order if it is the first entry or is
/// listed in the rest.
pub proof fn lemma_listed(order: Seq<usize>, id: usize)
    requires
        order.len() > 0,
    ensures
        order.contains(id) <==> (order[0] == id || order.skip(1).contains(id)),
{
    let rest = order.skip(1);
    if order.contains(id) {
        let j = choose|j: int| 0 <= j < order.len() && order[j] == id;
        if j > 0 {
            assert(rest[j - 1] == id);
        }
    }
    if rest.contains(id) {
        let j = choose|j: int| 0 <= j < rest.len() && rest[j] == id;
        assert(order[j + 1] == id);
    }
    if order[0] == id {
        assert(order.contains(id));
    }
}

/// The forward pass keeps the number of nodes, changes only nodes that the
/// order lists, and keeps of every node what the importer reported.
pub proof fn lemma_quantize_pass_frame(nodes: Seq<NodeView>, order: Seq<usize>)
    ensures
        quantize_pass(nodes, order).0.len() == nodes.len(),
        forall|id: usize|
            id < nodes.len() && !order.contains(id) ==> quantize_pass(nodes, order).0[id as int]
                == nodes[id as int],
        forall|i: int|
            0 <= i < nodes.len() ==> (#[trigger] quantize_pass(nodes, order).0[i]).facts
                == nodes[i].facts,
    decreases order.len(),
{
    if order.len() > 0 {
        let idx = order[0];
        let rest = order.skip(1);
        match quantize_step(nodes, idx) {
            Ok(n) => {
                let next = nodes.update(idx as int, n);
                lemma_quantize_pass_frame(next, rest);
                lemma_update_keeps_facts(
                    nodes[idx as int],
                    idx,
                    operand(nodes, idx as int, 0),
                    operand(nodes, idx as int, 1),
                    operand(nodes, idx as int, 2),
                );
                let last = quantize_pass(nodes, order).0;
                assert(last == quantize_pass(next, rest).0);
                assert forall|id: usize|
                    id < nodes.len() && !order.contains(id) implies last[id as int]
                    == nodes[id as int] by {
                    lemma_listed(order, id);
                }
                assert forall|i: int| 0 <= i < nodes.len() implies (#[trigger] last[i]).facts
                    == nodes[i].facts by {
                    assert(last[i].facts == next[i].facts);
                }
            },
            Err(_) => {},
        }
    }
}

/// Whether each listed node is listed once, is not in `seen`, and has every
/// producer of its operands in `seen` or listed before it.
pub open spec fn follows(nodes: Seq<NodeView>, order: Seq<usize>, seen: Set<usize>) -> bool {
    &&& forall|j: int, k: int| 0 <= j < k < order.len() ==> order[j] != order[k]
    &&& forall|k: int| 0 <= k < order.len() ==> !seen.contains(#[trigger] order[k])
    &&& forall|k: int, p: int|
        #![trigger order[k], nodes[order[k] as int].facts.inputs[p]]
        0 <= k < order.len() && order[k] < nodes.len() && 0 <= p
            < nodes[order[k] as int].facts.inputs.len() ==> {
            let id = nodes[order[k] as int].facts.inputs[p].node;
            seen.contains(id) || order.take(k).contains(id)
        }
}

/// Whether a second visit of node `idx` leaves the node as it is.
pub open spec fn settled(nodes: Seq<NodeView>, idx: usize) -> bool {
    idx < nodes.len() && quantize_step(nodes, idx) == Ok::<NodeView, ModelError>(nodes[idx as int])
}

/// After a forward pass that visited each node behind the producers of its
/// operands, every visited node is settled.
pub proof fn lemma_visited_are_settled(nodes: Seq<NodeView>, order: Seq<usize>, seen: Set<usize>)
    requires
        quantize_pass(nodes, order).1 is None,
        follows(nodes, order, seen),
    ensures
        forall|k: int|
            0 <= k < order.len() ==> settled(quantize_pass(nodes, order).0, #[trigger] order[k]),
    decreases order.len(),
{
    if order.len() > 0 {
        let idx = order[0];
        let rest = order.skip(1);
        let last = quantize_pass(nodes, order).0;
        let s = quantize_step(nodes, idx).unwrap();
        let next = nodes.update(idx as int, s);
        let a = operand(nodes, idx as int, 0);
        let w = operand(nodes, idx as int, 1);
        let b = operand(nodes, idx as int, 2);
        lemma_update_keeps_facts(nodes[idx as int], idx, a, w, b);
        assert(follows(next, rest, seen.insert(idx))) by {
            assert forall|k: int, p: int|
                #![trigger rest[k], next[rest[k] as int].facts.inputs[p]]
                0 <= k < rest.len() && rest[k] < next.len() && 0 <= p
                    < next[rest[k] as int].facts.inputs.len() implies {
                let id = next[rest[k] as int].facts.inputs[p].node;
                seen.insert(idx).contains(id) || rest.take(k).contains(id)
            } by {
                let id = next[rest[k] as int].facts.inputs[p].node;
                assert(rest[k] == order[k + 1]);
                assert(order[k + 1] != order[0]);
                assert(next[rest[k] as int] == nodes[order[k + 1] as int]);
                assert(id == nodes[order[k + 1] as int].facts.inputs[p].node);
                if !seen.contains(id) {
                    assert(order.take(k + 1).contains(id));
                    lemma_listed(order.take(k + 1), id);
                    assert(order.take(k + 1).skip(1) =~= rest.take(k));
                }
            }
            assert forall|j: int, k: int| 0 <= j < k < rest.len() implies rest[j] != rest[k] by {
                assert(rest[j] == order[j + 1] && rest[k] == order[k + 1]);
            }
            assert forall|k: int| 0 <= k < rest.len() implies !seen.insert(idx).contains(
                #[trigger] rest[k],
            ) by {
                assert(rest[k] == order[k + 1]);
            }
        }
        lemma_visited_are_settled(next, rest, seen.insert(idx));
        lemma_quantize_pass_frame(next, rest);
        assert(last == quantize_pass(next, rest).0);
        assert forall|k: int| 0 <= k < order.len() implies settled(last, #[trigger] order[k]) by {
            if k > 0 {
                assert(order[k] == rest[k - 1]);
            } else {
                assert(!rest.contains(idx)) by {
                    if rest.contains(idx) {
                        let j = choose|j: int| 0 <= j < rest.len() && rest[j] == idx;
                        assert(order[j + 1] == order[0]);
                    }
                }
                assert(last[idx as int] == s);
                assert forall|j: int| 0 <= j < 3 implies operand(last, idx as int, j) == operand(
                    nodes,
                    idx as int,
                    j,
                ) by {
                    if operand_id(nodes, idx as int, j) is Some {
                        let id = nodes[idx as int].facts.inputs[j].node;
                        assert(order.take(0) =~= Seq::<usize>::empty());
                        assert(seen.contains(id));
                        assert(!order.contains(id)) by {
                            if order.contains(id) {
                                let q = choose|q: int| 0 <= q < order.len() && order[q] == id;
                                assert(!seen.contains(order[q]));
                            }
                        }
                        lemma_listed(order, id);
                        assert(last[id as int] == next[id as int]);
                    }
                }
                lemma_update_idempotent(nodes[idx as int], idx, a, w, b);
                assert(operand(last, idx as int, 0) == a);
                assert(operand(last, idx as int, 1) == w);
                assert(operand(last, idx as int, 2) == b);
            }
        }
    }
}

/// A forward pass over settled nodes changes nothing and does not fail.
pub proof fn lemma_settled_pass(nodes: Seq<NodeView>, order: Seq<usize>)
    requires
        forall|k: int| 0 <= k < order.len() ==> settled(nodes, #[trigger] order[k]),
    ensures
        quantize_pass(nodes, order) == (nodes, None::<ModelError>),
    decreases order.len(),
{
    if order.len() > 0 {
        let idx = order[0];
        let rest = order.skip(1);
        assert(settled(nodes, order[0]));
        assert(nodes.update(idx as int, nodes[idx as int]) =~= nodes);
        assert forall|k: int| 0 <= k < rest.len() implies settled(nodes, #[trigger] rest[k]) by {
            assert(rest[k] == order[k + 1]);
        }
        lemma_settled_pass(nodes, rest);
    }
}

/// The forward pass is idempotent: where it ran to its end over an order
/// that is a linear extension of the graph, a second run over the graph it
/// left, in the same order, ends without failure and changes no node.
pub proof fn lemma_quantize_pass_idempotent(nodes: Seq<NodeView>, order: Seq<usize>)
    requires
        is_linear_extension(predecessors(nodes), order),
        quantize_pass(nodes, order).1 is None,
    ensures
        quantize_pass(quantize_pass(nodes, order).0, order) == (
            quantize_pass(nodes, order).0,
            None::<ModelError>,
        ),
{
    let graph = predecessors(nodes);
    assert(follows(nodes, order, Set::empty())) by {
        assert forall|j: int, k: int| 0 <= j < k < order.len() implies order[j] != order[k] by {
            assert(ready_at(graph, order, k));
            if order[j] == order[k] {
                assert(order.take(k)[j] == order[k]);
            }
        }
        assert forall|k: int, p: int|
            #![trigger order[k], nodes[order[k] as int].facts.inputs[p]]
            0 <= k < order.len() && order[k] < nodes.len() && 0 <= p
                < nodes[order[k] as int].facts.inputs.len() implies {
            let id = nodes[order[k] as int].facts.inputs[p].node;
            Set::<usize>::empty().contains(id) || order.take(k).contains(id)
        } by {
            assert(ready_at(graph, order, k));
            assert(graph[order[k] as int][p] == nodes[order[k] as int].facts.inputs[p].node);
        }
    }
    lemma_visited_are_settled(nodes, order, Set::empty());
    lemma_settled_pass(quantize_pass(nodes, order).0, order);
}

/// The forward pass of a model is idempotent: where it ran to its end, a
/// second run on the model it left ends without failure and changes nothing.
pub proof fn lemma_forward_pass_idempotent(m: ModelView)
    requires
        m.quantized().1 is None,
    ensures
        m.quantized().0.quantized() == (m.quantized().0, None::<ModelError>),
{
    let order = m.eval_order().unwrap();
    let after = m.quantized().0;
    lemma_quantize_pass_frame(m.nodes, order);
    assert(predecessors(after.nodes) =~= predecessors(m.nodes));
    lemma_quantize_pass_idempotent(m.nodes, order);
}

} // verus!
