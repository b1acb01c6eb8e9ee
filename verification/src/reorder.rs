//! The passes do not depend on where an evaluation order lists the
//! constants.

use crate::config::{
    configure_pass, configure_step, unconfigured, ConfigState, NodeConfigView,
};
use crate::model::ModelView;
use crate::node::NodeView;
use crate::quantize::{quantize_pass, quantize_step};
use crate::settled::lemma_listed;
use vstd::prelude::*;

verus! {

/// Whether `idx` names a constant of the graph.
pub open spec fn is_constant(nodes: Seq<NodeView>, idx: usize) -> bool {
    idx < nodes.len() && nodes[idx as int].opkind is Const
}

/// The order with the constants of the graph left out.
pub open spec fn without_constants(nodes: Seq<NodeView>, order: Seq<usize>) -> Seq<usize>
    decreases order.len(),
{
    if order.len() == 0 {
        order
    } else if is_constant(nodes, order[0]) {
        without_constants(nodes, order.skip(1))
    } else {
        seq![order[0]] + without_constants(nodes, order.skip(1))
    }
}

/// What is left of an order without the constants was listed in it and is no
/// constant.
pub proof fn lemma_without_constants_listed(nodes: Seq<NodeView>, order: Seq<usize>, id: usize)
    ensures
        without_constants(nodes, order).contains(id) <==> (order.contains(id) && !is_constant(
            nodes,
            id,
        )),
    decreases order.len(),
{
    if order.len() > 0 {
        let rest = order.skip(1);
        lemma_without_constants_listed(nodes, rest, id);
        lemma_listed(order, id);
        if !is_constant(nodes, order[0]) {
            let kept = seq![order[0]] + without_constants(nodes, rest);
            lemma_listed(kept, id);
            assert(kept.skip(1) =~= without_constants(nodes, rest));
        }
    }
}

/// Two graphs with the same constants leave the same of an order.
pub proof fn lemma_without_constants_of(
    nodes: Seq<NodeView>,
    other: Seq<NodeView>,
    order: Seq<usize>,
)
    requires
        nodes.len() == other.len(),
        forall|i: int|
            0 <= i < nodes.len() ==> (nodes[i].opkind is Const <==> other[i].opkind is Const),
    ensures
        without_constants(nodes, order) == without_constants(other, order),
    decreases order.len(),
{
    if order.len() > 0 {
        lemma_without_constants_of(nodes, other, order.skip(1));
    }
}

/// The forward pass over an order comes to what it comes to over the order
/// without the constants: it neither changes a constant nor fails at one.
pub proof fn lemma_quantize_pass_skips_constants(nodes: Seq<NodeView>, order: Seq<usize>)
    ensures
        quantize_pass(nodes, order) == quantize_pass(nodes, without_constants(nodes, order)),
    decreases order.len(),
{
    if order.len() > 0 {
        let idx = order[0];
        let rest = order.skip(1);
        if is_constant(nodes, idx) {
            assert(nodes.update(idx as int, nodes[idx as int]) =~= nodes);
            lemma_quantize_pass_skips_constants(nodes, rest);
        } else {
            let kept = seq![idx] + without_constants(nodes, rest);
            assert(kept[0] == idx);
            assert(kept.skip(1) =~= without_constants(nodes, rest));
            match quantize_step(nodes, idx) {
                Ok(n) => {
                    let next = nodes.update(idx as int, n);
                    lemma_quantize_pass_skips_constants(next, rest);
                    lemma_without_constants_of(nodes, next, rest);
                },
                Err(_) => {},
            }
        }
    }
}

/// Two orders that list the rest of the nodes alike, wherever they list the
/// constants, give the same graph and the same failure, if any, in the
/// forward pass.
pub proof fn lemma_quantize_pass_ignores_constants(
    nodes: Seq<NodeView>,
    first: Seq<usize>,
    second: Seq<usize>,
)
    requires
        without_constants(nodes, first) == without_constants(nodes, second),
    ensures
        quantize_pass(nodes, first) == quantize_pass(nodes, second),
{
    lemma_quantize_pass_skips_constants(nodes, first);
    lemma_quantize_pass_skips_constants(nodes, second);
}

/// The configuration pass keeps the number of configurations and changes
/// only those of nodes that the order lists.
pub proof fn lemma_configure_pass_frame(
    nodes: Seq<NodeView>,
    bits: usize,
    state: ConfigState,
    order: Seq<usize>,
)
    requires
        state.configs.len() == nodes.len(),
    ensures
        configure_pass(nodes, bits, state, order).0.configs.len() == state.configs.len(),
        forall|id: usize|
            id < nodes.len() && !order.contains(id) ==> configure_pass(
                nodes,
                bits,
                state,
                order,
            ).0.configs[id as int] == state.configs[id as int],
    decreases order.len(),
{
    if order.len() > 0 {
        let idx = order[0];
        let rest = order.skip(1);
        match configure_step(nodes, bits, state.last_shape, idx) {
            Ok((c, last_shape)) => {
                let next = ConfigState { configs: state.configs.update(idx as int, c), last_shape };
                lemma_configure_pass_frame(nodes, bits, next, rest);
                let end = configure_pass(nodes, bits, state, order).0;
                assert forall|id: usize|
                    id < nodes.len() && !order.contains(id) implies end.configs[id as int]
                    == state.configs[id as int] by {
                    lemma_listed(order, id);
                }
            },
            Err(_) => {},
        }
    }
}

/// What the configuration pass makes of the listed nodes does not depend on
/// the configurations it starts from: from two states with the same last
/// shape it fails alike, leaves the same last shape and, where it does not
/// fail, the same configuration of every listed node.
pub proof fn lemma_configure_pass_start(
    nodes: Seq<NodeView>,
    bits: usize,
    one: ConfigState,
    two: ConfigState,
    order: Seq<usize>,
)
    requires
        one.last_shape == two.last_shape,
        one.configs.len() == nodes.len(),
        two.configs.len() == nodes.len(),
    ensures
        configure_pass(nodes, bits, one, order).1 == configure_pass(nodes, bits, two, order).1,
        configure_pass(nodes, bits, one, order).0.last_shape == configure_pass(
            nodes,
            bits,
            two,
            order,
        ).0.last_shape,
        configure_pass(nodes, bits, one, order).1 is None ==> forall|id: usize|
            id < nodes.len() && order.contains(id) ==> configure_pass(
                nodes,
                bits,
                one,
                order,
            ).0.configs[id as int] == configure_pass(nodes, bits, two, order).0.configs[id as int],
    decreases order.len(),
{
    if order.len() > 0 {
        let idx = order[0];
        let rest = order.skip(1);
        match configure_step(nodes, bits, one.last_shape, idx) {
            Ok((c, last_shape)) => {
                let next_one = ConfigState { configs: one.configs.update(idx as int, c), last_shape };
                let next_two = ConfigState { configs: two.configs.update(idx as int, c), last_shape };
                lemma_configure_pass_start(nodes, bits, next_one, next_two, rest);
                lemma_configure_pass_frame(nodes, bits, next_one, rest);
                lemma_configure_pass_frame(nodes, bits, next_two, rest);
                let end_one = configure_pass(nodes, bits, one, order).0;
                let end_two = configure_pass(nodes, bits, two, order).0;
                if configure_pass(nodes, bits, one, order).1 is None {
                    assert forall|id: usize|
                        id < nodes.len() && order.contains(id) implies end_one.configs[id as int]
                        == end_two.configs[id as int] by {
                        lemma_listed(order, id);
                        if !rest.contains(id) {
                            assert(end_one == configure_pass(nodes, bits, next_one, rest).0);
                            assert(end_two == configure_pass(nodes, bits, next_two, rest).0);
                            assert(end_one.configs[id as int] == next_one.configs[id as int]);
                            assert(end_two.configs[id as int] == next_two.configs[id as int]);
                        }
                    }
                }
            },
            Err(_) => {},
        }
    }
}

/// The configuration pass over an order fails as it does over the order
/// without the constants and leaves the same last shape. Where it does not
/// fail, it leaves the same configurations but for the listed constants,
/// which it marks as constants.
pub proof fn lemma_configure_pass_skips_constants(
    nodes: Seq<NodeView>,
    bits: usize,
    state: ConfigState,
    order: Seq<usize>,
)
    requires
        state.configs.len() == nodes.len(),
    ensures
        configure_pass(nodes, bits, state, order).1 == configure_pass(
            nodes,
            bits,
            state,
            without_constants(nodes, order),
        ).1,
        configure_pass(nodes, bits, state, order).0.last_shape == configure_pass(
            nodes,
            bits,
            state,
            without_constants(nodes, order),
        ).0.last_shape,
        configure_pass(nodes, bits, state, order).1 is None ==> forall|id: usize|
            id < nodes.len() ==> #[trigger] configure_pass(
                nodes,
                bits,
                state,
                order,
            ).0.configs[id as int] == if is_constant(nodes, id) && order.contains(id) {
                NodeConfigView::Const
            } else {
                configure_pass(nodes, bits, state, without_constants(nodes, order)).0.configs[id as int]
            },
    decreases order.len(),
{
    if order.len() > 0 {
        let idx = order[0];
        let rest = order.skip(1);
        let kept = without_constants(nodes, rest);
        let end = configure_pass(nodes, bits, state, order);
        if is_constant(nodes, idx) {
            let next = ConfigState {
                configs: state.configs.update(idx as int, NodeConfigView::Const),
                last_shape: state.last_shape,
            };
            assert(end == configure_pass(nodes, bits, next, rest));
            lemma_configure_pass_skips_constants(nodes, bits, next, rest);
            lemma_configure_pass_start(nodes, bits, next, state, kept);
            lemma_configure_pass_frame(nodes, bits, next, kept);
            lemma_configure_pass_frame(nodes, bits, state, kept);
            if end.1 is None {
                let short = configure_pass(nodes, bits, state, kept).0;
                let short_next = configure_pass(nodes, bits, next, kept).0;
                assert forall|id: usize| id < nodes.len() implies #[trigger] end.0.configs[id as int]
                    == if is_constant(nodes, id) && order.contains(id) {
                    NodeConfigView::Const
                } else {
                    short.configs[id as int]
                } by {
                    lemma_listed(order, id);
                    lemma_without_constants_listed(nodes, rest, id);
                    if !(is_constant(nodes, id) && rest.contains(id)) {
                        assert(end.0.configs[id as int] == short_next.configs[id as int]);
                        if kept.contains(id) {
                            assert(short_next.configs[id as int] == short.configs[id as int]);
                        } else {
                            assert(short_next.configs[id as int] == next.configs[id as int]);
                            assert(short.configs[id as int] == state.configs[id as int]);
                        }
                    }
                }
            }
        } else {
            let whole = seq![idx] + kept;
            assert(whole[0] == idx);
            assert(whole.skip(1) =~= kept);
            match configure_step(nodes, bits, state.last_shape, idx) {
                Ok((c, last_shape)) => {
                    let next = ConfigState {
                        configs: state.configs.update(idx as int, c),
                        last_shape,
                    };
                    lemma_configure_pass_skips_constants(nodes, bits, next, rest);
                    if end.1 is None {
                        let short = configure_pass(nodes, bits, state, whole).0;
                        assert(short == configure_pass(nodes, bits, next, kept).0);
                        assert forall|id: usize|
                            id < nodes.len() implies #[trigger] end.0.configs[id as int]
                            == if is_constant(nodes, id) && order.contains(id) {
                            NodeConfigView::Const
                        } else {
                            short.configs[id as int]
                        } by {
                            lemma_listed(order, id);
                        }
                    }
                },
                Err(_) => {},
            }
        }
    }
}

/// Two orders that list the same nodes, and the nodes that are no constants
/// alike, fail alike in the configuration pass and leave the same last
/// shape; where the pass does not fail they give the same configuration to
/// every node.
pub proof fn lemma_configure_pass_ignores_constants(
    nodes: Seq<NodeView>,
    bits: usize,
    state: ConfigState,
    first: Seq<usize>,
    second: Seq<usize>,
)
    requires
        state.configs.len() == nodes.len(),
        nodes.len() <= usize::MAX,
        without_constants(nodes, first) == without_constants(nodes, second),
        forall|id: usize| first.contains(id) <==> second.contains(id),
    ensures
        configure_pass(nodes, bits, state, first).1 == configure_pass(nodes, bits, state, second).1,
        configure_pass(nodes, bits, state, first).1 is None ==> configure_pass(
            nodes,
            bits,
            state,
            first,
        ).0 == configure_pass(nodes, bits, state, second).0,
{
    lemma_configure_pass_skips_constants(nodes, bits, state, first);
    lemma_configure_pass_skips_constants(nodes, bits, state, second);
    lemma_configure_pass_frame(nodes, bits, state, first);
    lemma_configure_pass_frame(nodes, bits, state, second);
    let one = configure_pass(nodes, bits, state, first);
    let two = configure_pass(nodes, bits, state, second);
    if one.1 is None {
        assert forall|i: int| 0 <= i < nodes.len() implies one.0.configs[i] == two.0.configs[i] by {
            let id = i as usize;
            assert(first.contains(id) <==> second.contains(id));
            assert(one.0.configs[id as int] == two.0.configs[id as int]);
        }
        assert(one.0.configs =~= two.0.configs);
    }
}

/// Two evaluation orders of a model that list the same nodes, and the
/// nodes that are no constants alike, give the same model and the same
/// failure, if any, in the forward pass; they fail alike in the
/// configuration pass, and where it does not fail they give every node the
/// same configuration and leave the same last shape.
pub proof fn lemma_model_ignores_constant_positions(
    m: ModelView,
    first: Seq<usize>,
    second: Seq<usize>,
)
    requires
        m.nodes.len() <= usize::MAX,
        without_constants(m.nodes, first) == without_constants(m.nodes, second),
        forall|id: usize| first.contains(id) <==> second.contains(id),
    ensures
        m.quantized_in(first) == m.quantized_in(second),
        m.configured_in(first).1 == m.configured_in(second).1,
        m.configured_in(first).1 is None ==> m.configured_in(first).0 == m.configured_in(second).0,
{
    lemma_quantize_pass_ignores_constants(m.nodes, first, second);
    lemma_configure_pass_ignores_constants(
        m.nodes,
        m.bits,
        unconfigured(m.nodes.len(), m.last_shape),
        first,
        second,
    );
}

} // verus!
