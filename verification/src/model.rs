//! The model: the graph's nodes, its inputs and outputs, and the passes over
//! them.

use crate::config::{
    configs_view, configure_in_order, configure_node, configure_pass, configure_step, unconfigured,
    ConfigState, NodeConfigView, OnnxNodeConfig,
};
use crate::error::ModelError;
use crate::facts::{NodeFacts, NodeFactsView, Outlet};
use crate::layout::{
    kinds_match, layout_in_order, layout_node, layout_pass, layout_step, steps_view, LayoutStep,
    LayoutStepView,
};
use crate::node::{node_from_facts, nodes_view, NodeView, OnnxNode};
use crate::quantize::{quantize_in_order, quantize_pass};
use crate::schedule::{eval_order, evaluation_order, is_linear_extension, preds_view};
use crate::shape::{shape1, slots_view};
use vstd::prelude::*;

verus! {

/// The bit width of the lookup tables of elementwise layers.
pub const DEFAULT_BITS: usize = 15;

/// The columns added to the widest dimension to get the width of the pools.
pub const WIDTH_MARGIN: usize = 5;

/// A model: its nodes, the outlets that are its inputs and outputs, the bit
/// width of its elementwise layers, and the shape that the configuration pass
/// hands from an affine or convolution node to the elementwise nodes behind
/// it.
#[derive(Debug, PartialEq, Eq)]
pub struct OnnxModel {
    pub onnx_nodes: Vec<OnnxNode>,
    pub inputs: Vec<Outlet>,
    pub outputs: Vec<Outlet>,
    pub bits: usize,
    pub last_shape: Vec<usize>,
}

/// What an [`OnnxModel`] holds.
pub struct ModelView {
    pub nodes: Seq<NodeView>,
    pub inputs: Seq<Outlet>,
    pub outputs: Seq<Outlet>,
    pub bits: usize,
    pub last_shape: Seq<usize>,
}

impl View for OnnxModel {
    type V = ModelView;

    open spec fn view(&self) -> ModelView {
        ModelView {
            nodes: nodes_view(self.onnx_nodes@),
            inputs: self.inputs@,
            outputs: self.outputs@,
            bits: self.bits,
            last_shape: self.last_shape@,
        }
    }
}

/// The request for the column that exposes the model's output.
#[derive(Clone, Copy, Debug, PartialEq, Eq, Structural)]
pub struct PublicOutput {
    /// Whether the column takes part in equality constraints.
    pub equality: bool,
}

/// The outcome of the configuration pass: the configuration of each node at
/// the node's index, the model as it stood at the end of the pass, and the
/// request for the public output column.
#[derive(Debug, PartialEq, Eq)]
pub struct OnnxModelConfig {
    pub configs: Vec<OnnxNodeConfig>,
    pub model: OnnxModel,
    pub public_output: PublicOutput,
}

/// What an [`OnnxModelConfig`] holds.
pub struct ModelConfigView {
    pub configs: Seq<NodeConfigView>,
    pub model: ModelView,
    pub public_output: PublicOutput,
}

impl View for OnnxModelConfig {
    type V = ModelConfigView;

    open spec fn view(&self) -> ModelConfigView {
        ModelConfigView {
            configs: configs_view(self.configs@),
            model: self.model@,
            public_output: self.public_output,
        }
    }
}

/// The nodes that a list of outlets names.
pub open spec fn outlet_nodes(outlets: Seq<Outlet>) -> Seq<usize> {
    outlets.map_values(|o: Outlet| o.node)
}

/// The predecessors of each node: the producers of its operands.
pub open spec fn predecessors(nodes: Seq<NodeView>) -> Seq<Seq<usize>> {
    nodes.map_values(|n: NodeView| outlet_nodes(n.facts.inputs))
}

/// The nodes made of the importer's reports in `facts`, behind those in
/// `done`; or the failure of the first report of which no node can be made.
pub open spec fn nodes_from_facts(facts: Seq<NodeFactsView>, done: Seq<NodeView>) -> Result<
    Seq<NodeView>,
    ModelError,
>
    decreases facts.len(),
{
    if facts.len() == 0 {
        Ok(done)
    } else {
        match node_from_facts(facts[0]) {
            Ok(n) => nodes_from_facts(facts.skip(1), done.push(n)),
            Err(e) => Err(e),
        }
    }
}

/// The views of a list of reports.
pub open spec fn facts_view(facts: Seq<NodeFacts>) -> Seq<NodeFactsView> {
    facts.map_values(|f: NodeFacts| f@)
}

/// The largest dimension of a shape, 0 for a shape without axes.
pub open spec fn widest_dim(dims: Seq<usize>) -> usize
    decreases dims.len(),
{
    if dims.len() == 0 {
        0
    } else if dims.last() > widest_dim(dims.drop_last()) {
        dims.last()
    } else {
        widest_dim(dims.drop_last())
    }
}

/// The largest dimension among the known shapes of a node's slots.
pub open spec fn widest_slot(slots: Seq<Option<Seq<usize>>>) -> usize
    decreases slots.len(),
{
    if slots.len() == 0 {
        0
    } else {
        let here = match slots.last() {
            Some(d) => widest_dim(d),
            None => 0,
        };
        if here > widest_slot(slots.drop_last()) {
            here
        } else {
            widest_slot(slots.drop_last())
        }
    }
}

/// The largest dimension that the importer reported for any output of any
/// node, but at least 1, and the first node that reports it (0 where none
/// does).
pub open spec fn widest(nodes: Seq<NodeView>) -> (usize, usize)
    decreases nodes.len(),
{
    if nodes.len() == 0 {
        (1, 0)
    } else {
        let (most, at) = widest(nodes.drop_last());
        let here = match nodes.last().facts.output_shapes {
            Some(s) => widest_slot(s),
            None => 0,
        };
        if here > most {
            (here, (nodes.len() - 1) as usize)
        } else {
            (most, at)
        }
    }
}

/// The first node at or after `from` of which the importer reported no
/// output shapes at all.
pub open spec fn first_unshaped(nodes: Seq<NodeView>, from: nat) -> Option<usize>
    decreases nodes.len() - from,
{
    if from >= nodes.len() {
        None
    } else if nodes[from as int].facts.output_shapes is None {
        Some(from as usize)
    } else {
        first_unshaped(nodes, from + 1)
    }
}

/// The largest of the column counts that the nodes ask for, 0 where there is
/// no node.
pub open spec fn most_advices(nodes: Seq<NodeView>) -> usize
    decreases nodes.len(),
{
    if nodes.len() == 0 {
        0
    } else if nodes.last().min_advice_cols > most_advices(nodes.drop_last()) {
        nodes.last().min_advice_cols
    } else {
        most_advices(nodes.drop_last())
    }
}

impl ModelView {
    /// The order in which the model's nodes are evaluated.
    pub open spec fn eval_order(self) -> Result<Seq<usize>, ModelError> {
        evaluation_order(
            predecessors(self.nodes),
            outlet_nodes(self.inputs),
            outlet_nodes(self.outputs),
        )
    }

    /// The model after the forward pass over its nodes in `order`, and the
    /// failure that stopped the pass if one did.
    pub open spec fn quantized_in(self, order: Seq<usize>) -> (ModelView, Option<ModelError>) {
        let (nodes, failure) = quantize_pass(self.nodes, order);
        (ModelView { nodes, ..self }, failure)
    }

    /// The model after the forward pass in its evaluation order; unchanged
    /// where it has none.
    pub open spec fn quantized(self) -> (ModelView, Option<ModelError>) {
        match self.eval_order() {
            Ok(order) => self.quantized_in(order),
            Err(e) => (self, Some(e)),
        }
    }

    /// The configurations and the last shape after the configuration pass
    /// over the nodes in `order`, and the failure that stopped it if one did.
    pub open spec fn configured_in(self, order: Seq<usize>) -> (ConfigState, Option<ModelError>) {
        configure_pass(
            self.nodes,
            self.bits,
            unconfigured(self.nodes.len(), self.last_shape),
            order,
        )
    }

    /// The width of the column pools: the widest reported dimension and a
    /// margin. It fails at the first node without reported shapes, and at the
    /// node with the widest dimension where the sum does not fit the machine.
    pub open spec fn advices_width(self) -> Result<usize, ModelError> {
        match first_unshaped(self.nodes, 0) {
            Some(node) => Err(ModelError::ShapeInferenceFailure { node }),
            None => {
                let (most, at) = widest(self.nodes);
                if most + WIDTH_MARGIN <= usize::MAX {
                    Ok((most + WIDTH_MARGIN) as usize)
                } else {
                    Err(ModelError::ShapeInferenceFailure { node: at })
                }
            },
        }
    }
}

/// The model that [`OnnxModel::new`] makes, or why it makes none: the first
/// report of which no node can be made, the lack of an evaluation order, or
/// the first failure of the forward pass.
pub open spec fn model_from_facts(
    facts: Seq<NodeFactsView>,
    inputs: Seq<Outlet>,
    outputs: Seq<Outlet>,
) -> Result<ModelView, ModelError> {
    match nodes_from_facts(facts, Seq::empty()) {
        Err(e) => Err(e),
        Ok(nodes) => {
            let fresh = ModelView {
                nodes,
                inputs,
                outputs,
                bits: DEFAULT_BITS,
                last_shape: seq![0usize],
            };
            match fresh.quantized() {
                (m, None) => Ok(m),
                (_, Some(e)) => Err(e),
            }
        },
    }
}

/// The nodes that a list of outlets names.
fn nodes_of(outlets: &Vec<Outlet>) -> (r: Vec<usize>)
    ensures
        r@ == outlet_nodes(outlets@),
{
    let n: usize = outlets.len();
    let mut r: Vec<usize> = Vec::new();
    let mut i: usize = 0;
    while i < n
        invariant
            i <= n,
            n == outlets@.len(),
            r@.len() == i,
            forall|j: int| 0 <= j < i ==> r@[j] == outlets@[j].node,
        decreases n - i,
    {
        r.push(outlets[i].node);
        i = i + 1;
    }
    proof {
        assert(r@ =~= outlet_nodes(outlets@));
    }
    r
}

/// The largest dimension of a shape.
fn widest_of_dims(dims: &Vec<usize>) -> (r: usize)
    ensures
        r == widest_dim(dims@),
{
    let n: usize = dims.len();
    let mut most: usize = 0;
    let mut i: usize = 0;
    while i < n
        invariant
            i <= n,
            n == dims@.len(),
            most == widest_dim(dims@.take(i as int)),
        decreases n - i,
    {
        proof {
            assert(dims@.take(i + 1).drop_last() =~= dims@.take(i as int));
        }
        if dims[i] > most {
            most = dims[i];
        }
        i = i + 1;
    }
    proof {
        assert(dims@.take(n as int) =~= dims@);
    }
    most
}

/// The largest dimension among the known shapes of a node's slots.
fn widest_of_slots(slots: &Vec<Option<Vec<usize>>>) -> (r: usize)
    ensures
        r == widest_slot(slots_view(slots@)),
{
    let n: usize = slots.len();
    let ghost view = slots_view(slots@);
    let mut most: usize = 0;
    let mut i: usize = 0;
    while i < n
        invariant
            i <= n,
            n == slots@.len(),
            view == slots_view(slots@),
            most == widest_slot(view.take(i as int)),
        decreases n - i,
    {
        proof {
            assert(view.take(i + 1).drop_last() =~= view.take(i as int));
        }
        let here: usize = match &slots[i] {
            Some(d) => widest_of_dims(d),
            None => 0,
        };
        if here > most {
            most = here;
        }
        i = i + 1;
    }
    proof {
        assert(view.take(n as int) =~= view);
    }
    most
}

impl Clone for OnnxModel {
    fn clone(&self) -> (r: Self)
        ensures
            r@ == self@,
    {
        let n: usize = self.onnx_nodes.len();
        let mut nodes: Vec<OnnxNode> = Vec::new();
        let mut i: usize = 0;
        while i < n
            invariant
                i <= n,
                n == self.onnx_nodes@.len(),
                nodes@.len() == i,
                forall|j: int| 0 <= j < i ==> nodes@[j]@ == self.onnx_nodes@[j]@,
            decreases n - i,
        {
            nodes.push(self.onnx_nodes[i].clone());
            i = i + 1;
        }
        proof {
            assert(nodes_view(nodes@) =~= nodes_view(self.onnx_nodes@));
        }
        OnnxModel {
            onnx_nodes: nodes,
            inputs: self.inputs.clone(),
            outputs: self.outputs.clone(),
            bits: self.bits,
            last_shape: self.last_shape.clone(),
        }
    }
}

impl OnnxModel {
    /// Makes a model of what the importer reports: a node of each report,
    /// then the forward pass over the nodes in evaluation order.
    pub fn new(facts: Vec<NodeFacts>, inputs: Vec<Outlet>, outputs: Vec<Outlet>) -> (r: Result<
        OnnxModel,
        ModelError,
    >)
        ensures
            match r {
                Ok(m) => model_from_facts(facts_view(facts@), inputs@, outputs@) == Ok::<
                    ModelView,
                    ModelError,
                >(m@),
                Err(e) => model_from_facts(facts_view(facts@), inputs@, outputs@) == Err::<
                    ModelView,
                    ModelError,
                >(e),
            },
    {
        let n: usize = facts.len();
        let ghost all = facts_view(facts@);
        let mut nodes: Vec<OnnxNode> = Vec::new();
        let mut i: usize = 0;
        proof {
            assert(all.skip(0) =~= all);
            assert(nodes_view(nodes@) =~= Seq::<NodeView>::empty());
        }
        while i < n
            invariant
                i <= n,
                n == facts@.len(),
                all == facts_view(facts@),
                nodes_from_facts(all, Seq::empty()) == nodes_from_facts(
                    all.skip(i as int),
                    nodes_view(nodes@),
                ),
            decreases n - i,
        {
            let ghost before = nodes_view(nodes@);
            proof {
                assert(all.skip(i as int).skip(1) =~= all.skip(i + 1));
            }
            match OnnxNode::new(facts[i].clone()) {
                Ok(node) => {
                    nodes.push(node);
                    proof {
                        assert(nodes_view(nodes@) =~= before.push(node@));
                    }
                },
                Err(e) => {
                    return Err(e);
                },
            }
            i = i + 1;
        }
        let mut model = OnnxModel {
            onnx_nodes: nodes,
            inputs,
            outputs,
            bits: DEFAULT_BITS,
            last_shape: shape1(0),
        };
        match model.forward_shape_and_quantize_pass() {
            Ok(_) => Ok(model),
            Err(e) => Err(e),
        }
    }

    /// The order in which the nodes are evaluated: what the scheduler finds
    /// for the graph, accepted only if it lists nodes of the graph, none
    /// twice and each behind all its predecessors.
    pub fn eval_order(&self) -> (r: Result<Vec<usize>, ModelError>)
        ensures
            r matches Ok(order) ==> is_linear_extension(predecessors(self@.nodes), order@),
            match r {
                Ok(order) => self@.eval_order() == Ok::<Seq<usize>, ModelError>(order@),
                Err(e) => self@.eval_order() == Err::<Seq<usize>, ModelError>(e),
            },
    {
        let n: usize = self.onnx_nodes.len();
        let mut preds: Vec<Vec<usize>> = Vec::new();
        let mut i: usize = 0;
        while i < n
            invariant
                i <= n,
                n == self.onnx_nodes@.len(),
                preds@.len() == i,
                forall|j: int|
                    0 <= j < i ==> preds@[j]@ == outlet_nodes(self.onnx_nodes@[j]@.facts.inputs),
            decreases n - i,
        {
            preds.push(nodes_of(&self.onnx_nodes[i].facts.inputs));
            i = i + 1;
        }
        proof {
            assert(preds_view(preds@) =~= predecessors(self@.nodes));
        }
        let inputs: Vec<usize> = nodes_of(&self.inputs);
        let targets: Vec<usize> = nodes_of(&self.outputs);
        eval_order(&preds, &inputs, &targets)
    }

    /// The forward pass: visits the nodes in evaluation order and infers the
    /// shapes, scales, bound and column count of each from its operands. The
    /// visits before a failing one stand; without an evaluation order the
    /// model is left as it was.
    pub fn forward_shape_and_quantize_pass(&mut self) -> (r: Result<(), ModelError>)
        ensures
            final(self)@ == old(self)@.quantized().0,
            match r {
                Ok(_) => old(self)@.quantized().1 is None,
                Err(e) => old(self)@.quantized().1 == Some(e),
            },
    {
        let order: Vec<usize> = match self.eval_order() {
            Ok(order) => order,
            Err(e) => {
                return Err(e);
            },
        };
        quantize_in_order(&mut self.onnx_nodes, &order)
    }

    /// The configuration pass: configures the nodes in evaluation order and
    /// asks for one public output column that takes part in equality
    /// constraints. Only the last shape of the model changes.
    pub fn configure(&mut self) -> (r: Result<OnnxModelConfig, ModelError>)
        ensures
            match old(self)@.eval_order() {
                Ok(order) => {
                    let (state, failure) = old(self)@.configured_in(order);
                    &&& final(self)@ == ModelView { last_shape: state.last_shape, ..old(self)@ }
                    &&& match r {
                        Ok(c) => failure is None && c@ == ModelConfigView {
                            configs: state.configs,
                            model: final(self)@,
                            public_output: PublicOutput { equality: true },
                        },
                        Err(e) => failure == Some(e),
                    }
                },
                Err(e) => final(self)@ == old(self)@ && r == Err::<OnnxModelConfig, ModelError>(e),
            },
    {
        let order: Vec<usize> = match self.eval_order() {
            Ok(order) => order,
            Err(e) => {
                return Err(e);
            },
        };
        let configs = match configure_in_order(
            &self.onnx_nodes,
            self.bits,
            &mut self.last_shape,
            &order,
        ) {
            Ok(configs) => configs,
            Err(e) => {
                return Err(e);
            },
        };
        Ok(
            OnnxModelConfig {
                configs,
                model: self.clone(),
                public_output: PublicOutput { equality: true },
            },
        )
    }

    /// Configures one node against the last shape as it stands.
    pub fn configure_node(&mut self, node_idx: usize) -> (r: Result<OnnxNodeConfig, ModelError>)
        ensures
            match configure_step(old(self)@.nodes, old(self)@.bits, old(self)@.last_shape, node_idx) {
                Ok((c, last_shape)) => r matches Ok(config) && config@ == c && final(self)@
                    == ModelView { last_shape, ..old(self)@ },
                Err(e) => r == Err::<OnnxNodeConfig, ModelError>(e) && final(self)@ == old(self)@,
            },
    {
        configure_node(&self.onnx_nodes, self.bits, &mut self.last_shape, node_idx)
    }

    /// The layout pass: the runs of operators, in evaluation order, that
    /// turn an input tensor into the model's output.
    pub fn layout(&self, config: &OnnxModelConfig) -> (r: Result<Vec<LayoutStep>, ModelError>)
        ensures
            match self@.eval_order() {
                Ok(order) => match r {
                    Ok(steps) => layout_pass(self@.nodes, config@.configs, order, Seq::empty())
                        == Ok::<Seq<LayoutStepView>, ModelError>(steps_view(steps@)),
                    Err(e) => layout_pass(self@.nodes, config@.configs, order, Seq::empty())
                        == Err::<Seq<LayoutStepView>, ModelError>(e),
                },
                Err(e) => r == Err::<Vec<LayoutStep>, ModelError>(e),
            },
    {
        let order: Vec<usize> = match self.eval_order() {
            Ok(order) => order,
            Err(e) => {
                return Err(e);
            },
        };
        layout_in_order(&self.onnx_nodes, &config.configs, &order)
    }

    /// Lays out one node with the configuration handed in.
    pub fn layout_node(&self, node_idx: usize, config: &OnnxNodeConfig) -> (r: Result<
        Option<LayoutStep>,
        ModelError,
    >)
        ensures
            match r {
                Ok(Some(s)) => layout_step(self@.nodes, node_idx, config@) == Ok::<
                    Option<LayoutStepView>,
                    ModelError,
                >(Some(s@)),
                Ok(None) => layout_step(self@.nodes, node_idx, config@) == Ok::<
                    Option<LayoutStepView>,
                    ModelError,
                >(None),
                Err(e) => layout_step(self@.nodes, node_idx, config@) == Err::<
                    Option<LayoutStepView>,
                    ModelError,
                >(e),
            },
            (r == Err::<Option<LayoutStep>, ModelError>(
                ModelError::ConfigOpMismatch { node: node_idx },
            )) <==> (node_idx < self@.nodes.len() && !kinds_match(
                self@.nodes[node_idx as int].opkind,
                config@,
            )),
    {
        layout_node(&self.onnx_nodes, node_idx, config)
    }

    /// The nodes that feed `node`, in operand order; an error where the
    /// model does not hold one of them.
    pub fn extract_node_inputs(&self, node: &OnnxNode) -> (r: Result<Vec<&OnnxNode>, ModelError>)
        ensures
            match r {
                Ok(v) => {
                    &&& v@.len() == node@.facts.inputs.len()
                    &&& forall|k: int|
                        0 <= k < v@.len() ==> (#[trigger] node@.facts.inputs[k]).node
                            < self.onnx_nodes@.len()
                    &&& forall|k: int|
                        0 <= k < v@.len() ==> *(#[trigger] v@[k])
                            == self.onnx_nodes@[node@.facts.inputs[k].node as int]
                },
                Err(e) => e == (ModelError::MalformedGraph { node: node@.facts.id }) && exists|
                    k: int,
                |
                    0 <= k < node@.facts.inputs.len() && node@.facts.inputs[k].node
                        >= self@.nodes.len(),
            },
    {
        let ins = &node.facts.inputs;
        let n: usize = ins.len();
        let mut r: Vec<&OnnxNode> = Vec::new();
        let mut i: usize = 0;
        while i < n
            invariant
                i <= n,
                n == ins@.len(),
                ins@ == node@.facts.inputs,
                r@.len() == i,
                forall|k: int| 0 <= k < i ==> (#[trigger] ins@[k]).node < self.onnx_nodes@.len(),
                forall|k: int|
                    0 <= k < i ==> *(#[trigger] r@[k]) == self.onnx_nodes@[ins@[k].node as int],
            decreases n - i,
        {
            let id: usize = ins[i].node;
            if id >= self.onnx_nodes.len() {
                return Err(ModelError::MalformedGraph { node: node.facts.id });
            }
            r.push(&self.onnx_nodes[id]);
            i = i + 1;
        }
        Ok(r)
    }

    /// What the importer reported of each node.
    pub fn nodes(&self) -> (r: Vec<NodeFacts>)
        ensures
            r@.len() == self@.nodes.len(),
            forall|i: int| 0 <= i < r@.len() ==> (#[trigger] r@[i])@ == self@.nodes[i].facts,
    {
        let n: usize = self.onnx_nodes.len();
        let mut r: Vec<NodeFacts> = Vec::new();
        let mut i: usize = 0;
        while i < n
            invariant
                i <= n,
                n == self.onnx_nodes@.len(),
                r@.len() == i,
                forall|j: int| 0 <= j < i ==> (#[trigger] r@[j])@ == self.onnx_nodes@[j]@.facts,
            decreases n - i,
        {
            r.push(self.onnx_nodes[i].facts.clone());
            i = i + 1;
        }
        r
    }

    /// The outlets that are the model's inputs.
    pub fn input_outlets(&self) -> (r: Result<Vec<Outlet>, ModelError>)
        ensures
            r matches Ok(v) && v@ == self@.inputs,
    {
        Ok(self.inputs.clone())
    }

    /// The outlets that are the model's outputs.
    pub fn output_outlets(&self) -> (r: Result<Vec<Outlet>, ModelError>)
        ensures
            r matches Ok(v) && v@ == self@.outputs,
    {
        Ok(self.outputs.clone())
    }

    /// The width of the pool of fixed columns: that of the witness pool.
    pub fn max_fixeds_width(&self) -> (r: Result<usize, ModelError>)
        ensures
            r == self@.advices_width(),
    {
        self.max_advices_width()
    }

    /// The largest of the column counts that the nodes ask for; `None` for a
    /// model without nodes.
    pub fn max_node_advices(&self) -> (r: Option<usize>)
        ensures
            r == if self@.nodes.len() == 0 {
                None
            } else {
                Some(most_advices(self@.nodes))
            },
    {
        let n: usize = self.onnx_nodes.len();
        let ghost all = nodes_view(self.onnx_nodes@);
        let mut most: usize = 0;
        let mut i: usize = 0;
        while i < n
            invariant
                i <= n,
                n == self.onnx_nodes@.len(),
                all == nodes_view(self.onnx_nodes@),
                most == most_advices(all.take(i as int)),
            decreases n - i,
        {
            proof {
                assert(all.take(i + 1).drop_last() =~= all.take(i as int));
            }
            if self.onnx_nodes[i].min_advice_cols > most {
                most = self.onnx_nodes[i].min_advice_cols;
            }
            i = i + 1;
        }
        proof {
            assert(all.take(n as int) =~= all);
        }
        if n == 0 {
            None
        } else {
            Some(most)
        }
    }

    /// The width of the pool of witness columns.
    pub fn max_advices_width(&self) -> (r: Result<usize, ModelError>)
        ensures
            r == self@.advices_width(),
    {
        let n: usize = self.onnx_nodes.len();
        let ghost all = nodes_view(self.onnx_nodes@);
        let mut most: usize = 1;
        let mut at: usize = 0;
        let mut i: usize = 0;
        while i < n
            invariant
                i <= n,
                n == self.onnx_nodes@.len(),
                all == nodes_view(self.onnx_nodes@),
                first_unshaped(all, 0) == first_unshaped(all, i as nat),
                forall|j: int| 0 <= j < i ==> all[j].facts.output_shapes is Some,
                (most, at) == widest(all.take(i as int)),
            decreases n - i,
        {
            proof {
                assert(all.take(i + 1).drop_last() =~= all.take(i as int));
            }
            match &self.onnx_nodes[i].facts.output_shapes {
                None => {
                    return Err(ModelError::ShapeInferenceFailure { node: i });
                },
                Some(slots) => {
                    let here: usize = widest_of_slots(slots);
                    if here > most {
                        most = here;
                        at = i;
                    }
                },
            }
            i = i + 1;
        }
        proof {
            assert(all.take(n as int) =~= all);
        }
        match most.checked_add(WIDTH_MARGIN) {
            Some(w) => Ok(w),
            None => Err(ModelError::ShapeInferenceFailure { node: at }),
        }
    }
}

} // verus!
