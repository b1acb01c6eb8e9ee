//! The schedule by which configured nodes are laid out.
//!
//! Laying a node out runs its operator on the tensor that the nodes before
//! it produced. This module decides, node by node, whether an operator runs,
//! with which configuration, and with which constants in front of the
//! running tensor.

use crate::config::{configs_view, NodeConfigView, OnnxNodeConfig};
use crate::error::ModelError;
use crate::node::{nodes_view, NodeView, OnnxNode};
use crate::opkind::OpKind;
use crate::quantize::operand_id;
use crate::tensor::{Tensor, TensorView};
use vstd::prelude::*;

verus! {

/// One run of an operator: the node, its configuration, and the constants
/// that are handed to the operator in front of the running tensor (weight
/// and bias for an affine or convolution node, none for an elementwise one).
#[derive(Debug, PartialEq, Eq)]
pub struct LayoutStep {
    pub node: usize,
    pub config: OnnxNodeConfig,
    pub constants: Vec<Tensor>,
}

/// What a [`LayoutStep`] holds.
pub struct LayoutStepView {
    pub node: usize,
    pub config: NodeConfigView,
    pub constants: Seq<TensorView>,
}

/// The views of a list of tensors.
pub open spec fn tensors_view(tensors: Seq<Tensor>) -> Seq<TensorView> {
    tensors.map_values(|t: Tensor| t@)
}

impl View for LayoutStep {
    type V = LayoutStepView;

    open spec fn view(&self) -> LayoutStepView {
        LayoutStepView {
            node: self.node,
            config: self.config@,
            constants: tensors_view(self.constants@),
        }
    }
}

/// The views of a list of steps.
pub open spec fn steps_view(steps: Seq<LayoutStep>) -> Seq<LayoutStepView> {
    steps.map_values(|s: LayoutStep| s@)
}

/// Whether a configuration is of the variant that belongs to a kind. No
/// variant belongs to the unknown kind, and the marker of a node that was
/// not reached belongs to no kind.
pub open spec fn kinds_match(kind: OpKind, config: NodeConfigView) -> bool {
    match kind {
        OpKind::Affine => config is Affine,
        OpKind::Convolution => config is Conv,
        OpKind::ReLU => config is ReLU,
        OpKind::ReLU64 => config is ReLU64,
        OpKind::ReLU128 => config is ReLU128,
        OpKind::Sigmoid => config is Sigmoid,
        OpKind::Const => config is Const,
        OpKind::Input => config is Input,
        OpKind::Unknown => false,
    }
}

/// What laying out node `idx` with `config` comes to: a run of its operator,
/// nothing for a constant or an input, or a failure.
pub open spec fn layout_step(nodes: Seq<NodeView>, idx: usize, config: NodeConfigView) -> Result<
    Option<LayoutStepView>,
    ModelError,
> {
    if idx >= nodes.len() {
        Err(ModelError::MalformedGraph { node: idx })
    } else if !kinds_match(nodes[idx as int].opkind, config) {
        Err(ModelError::ConfigOpMismatch { node: idx })
    } else {
        match nodes[idx as int].opkind {
            OpKind::Affine | OpKind::Convolution => match (
                operand_id(nodes, idx as int, 1),
                operand_id(nodes, idx as int, 2),
            ) {
                (Some(w_id), Some(b_id)) => if nodes[w_id as int].constant_value is None {
                    Err(ModelError::ConstantConcretizationFailure { node: w_id })
                } else if nodes[b_id as int].constant_value is None {
                    Err(ModelError::ConstantConcretizationFailure { node: b_id })
                } else {
                    Ok(
                        Some(
                            LayoutStepView {
                                node: idx,
                                config,
                                constants: seq![
                                    nodes[w_id as int].constant_value.unwrap(),
                                    nodes[b_id as int].constant_value.unwrap(),
                                ],
                            },
                        ),
                    )
                },
                _ => Err(ModelError::MalformedGraph { node: idx }),
            },
            OpKind::Const | OpKind::Input => Ok(None),
            _ => Ok(Some(LayoutStepView { node: idx, config, constants: Seq::empty() })),
        }
    }
}

/// The runs that laying out the nodes listed in `order` comes to, behind
/// those in `done`; or the first failure. A node without a configuration of
/// its own fails as a mismatch.
pub open spec fn layout_pass(
    nodes: Seq<NodeView>,
    configs: Seq<NodeConfigView>,
    order: Seq<usize>,
    done: Seq<LayoutStepView>,
) -> Result<Seq<LayoutStepView>, ModelError>
    decreases order.len(),
{
    if order.len() == 0 {
        Ok(done)
    } else if order[0] < nodes.len() && order[0] >= configs.len() {
        Err(ModelError::ConfigOpMismatch { node: order[0] })
    } else {
        match layout_step(nodes, order[0], configs[order[0] as int]) {
            Ok(Some(s)) => layout_pass(nodes, configs, order.skip(1), done.push(s)),
            Ok(None) => layout_pass(nodes, configs, order.skip(1), done),
            Err(e) => Err(e),
        }
    }
}

/// Whether a configuration is of the variant that belongs to a kind.
pub fn config_matches(kind: OpKind, config: &OnnxNodeConfig) -> (r: bool)
    ensures
        r == kinds_match(kind, config@),
{
    match (kind, config) {
        (OpKind::Affine, OnnxNodeConfig::Affine(_)) => true,
        (OpKind::Convolution, OnnxNodeConfig::Conv(_)) => true,
        (OpKind::ReLU, OnnxNodeConfig::ReLU(_)) => true,
        (OpKind::ReLU64, OnnxNodeConfig::ReLU64(_)) => true,
        (OpKind::ReLU128, OnnxNodeConfig::ReLU128(_)) => true,
        (OpKind::Sigmoid, OnnxNodeConfig::Sigmoid(_)) => true,
        (OpKind::Const, OnnxNodeConfig::Const) => true,
        (OpKind::Input, OnnxNodeConfig::Input) => true,
        _ => false,
    }
}

/// The index of the node that feeds operand `k` of node `idx`.
fn producer(nodes: &Vec<OnnxNode>, idx: usize, k: usize) -> (r: Option<usize>)
    requires
        idx < nodes@.len(),
    ensures
        r == operand_id(nodes_view(nodes@), idx as int, k as int),
        r matches Some(i) ==> i < nodes@.len(),
{
    let ins = &nodes[idx].facts.inputs;
    if k < ins.len() && ins[k].node < nodes.len() {
        Some(ins[k].node)
    } else {
        None
    }
}

/// Lays out node `idx` with `config`. A configuration of another kind than
/// the node's is refused before anything else is looked at.
pub fn layout_node(nodes: &Vec<OnnxNode>, idx: usize, config: &OnnxNodeConfig) -> (r: Result<
    Option<LayoutStep>,
    ModelError,
>)
    ensures
        match r {
            Ok(Some(s)) => layout_step(nodes_view(nodes@), idx, config@) == Ok::<
                Option<LayoutStepView>,
                ModelError,
            >(Some(s@)),
            Ok(None) => layout_step(nodes_view(nodes@), idx, config@) == Ok::<
                Option<LayoutStepView>,
                ModelError,
            >(None),
            Err(e) => layout_step(nodes_view(nodes@), idx, config@) == Err::<
                Option<LayoutStepView>,
                ModelError,
            >(e),
        },
        (r == Err::<Option<LayoutStep>, ModelError>(ModelError::ConfigOpMismatch { node: idx }))
            <==> (idx < nodes@.len() && !kinds_match(nodes@[idx as int]@.opkind, config@)),
{
    if idx >= nodes.len() {
        return Err(ModelError::MalformedGraph { node: idx });
    }
    let kind: OpKind = nodes[idx].opkind;
    if !config_matches(kind, config) {
        return Err(ModelError::ConfigOpMismatch { node: idx });
    }
    match kind {
        OpKind::Affine | OpKind::Convolution => {
            let (w_id, b_id) = match (producer(nodes, idx, 1), producer(nodes, idx, 2)) {
                (Some(w_id), Some(b_id)) => (w_id, b_id),
                _ => {
                    return Err(ModelError::MalformedGraph { node: idx });
                },
            };
            let weight: Tensor = match &nodes[w_id].constant_value {
                Some(t) => t.clone(),
                None => {
                    return Err(ModelError::ConstantConcretizationFailure { node: w_id });
                },
            };
            let bias: Tensor = match &nodes[b_id].constant_value {
                Some(t) => t.clone(),
                None => {
                    return Err(ModelError::ConstantConcretizationFailure { node: b_id });
                },
            };
            let mut constants: Vec<Tensor> = Vec::new();
            constants.push(weight);
            constants.push(bias);
            proof {
                assert(tensors_view(constants@) =~= seq![
                    nodes@[w_id as int]@.constant_value.unwrap(),
                    nodes@[b_id as int]@.constant_value.unwrap(),
                ]);
            }
            Ok(Some(LayoutStep { node: idx, config: config.clone(), constants }))
        },
        OpKind::Const | OpKind::Input => Ok(None),
        _ => {
            let constants: Vec<Tensor> = Vec::new();
            proof {
                assert(tensors_view(constants@) =~= Seq::<TensorView>::empty());
            }
            Ok(Some(LayoutStep { node: idx, config: config.clone(), constants }))
        },
    }
}

/// Lays out the nodes listed in `order` one after the other, each with the
/// configuration stored at its index, and stops at the first failure.
pub fn layout_in_order(nodes: &Vec<OnnxNode>, configs: &Vec<OnnxNodeConfig>, order: &Vec<usize>) -> (r:
    Result<Vec<LayoutStep>, ModelError>)
    ensures
        match r {
            Ok(steps) => layout_pass(
                nodes_view(nodes@),
                configs_view(configs@),
                order@,
                Seq::empty(),
            ) == Ok::<Seq<LayoutStepView>, ModelError>(steps_view(steps@)),
            Err(e) => layout_pass(
                nodes_view(nodes@),
                configs_view(configs@),
                order@,
                Seq::empty(),
            ) == Err::<Seq<LayoutStepView>, ModelError>(e),
        },
{
    let mut steps: Vec<LayoutStep> = Vec::new();
    let len: usize = order.len();
    let mut i: usize = 0;
    proof {
        assert(order@.skip(0) =~= order@);
        assert(steps_view(steps@) =~= Seq::<LayoutStepView>::empty());
    }
    while i < len
        invariant
            i <= len,
            len == order@.len(),
            layout_pass(nodes_view(nodes@), configs_view(configs@), order@, Seq::empty())
                == layout_pass(
                nodes_view(nodes@),
                configs_view(configs@),
                order@.skip(i as int),
                steps_view(steps@),
            ),
        decreases len - i,
    {
        let idx: usize = order[i];
        let ghost before = steps_view(steps@);
        proof {
            assert(order@.skip(i as int).skip(1) =~= order@.skip(i + 1));
        }
        if idx < nodes.len() && idx >= configs.len() {
            return Err(ModelError::ConfigOpMismatch { node: idx });
        }
        if idx >= nodes.len() {
            return Err(ModelError::MalformedGraph { node: idx });
        }
        match layout_node(nodes, idx, &configs[idx]) {
            Ok(Some(s)) => {
                steps.push(s);
                proof {
                    assert(steps_view(steps@) =~= before.push(s@));
                }
            },
            Ok(None) => {},
            Err(e) => {
                return Err(e);
            },
        }
        i = i + 1;
    }
    Ok(steps)
}

} // verus!
