//! The circuit resources that each node is given.
//!
//! A configuration names columns and shapes; it holds no handle into a
//! proving backend. Witness columns come from one shared pool and are named
//! by a half-open range of the pool; fixed columns are asked for afresh.

use crate::error::ModelError;
use crate::node::{nodes_view, NodeView, OnnxNode};
use crate::opkind::OpKind;
use crate::quantize::operand;
use crate::shape::{checked_product, product, shape1, shape2, shape3, shape4};
use vstd::prelude::*;

verus! {

/// A window of the shared pool of witness columns: the columns from `start`
/// up to but without `end`, read as a tensor of shape `dims`.
#[derive(Debug, PartialEq, Eq)]
pub struct Window {
    pub start: usize,
    pub end: usize,
    pub dims: Vec<usize>,
}

/// What a [`Window`] holds.
pub struct WindowView {
    pub start: usize,
    pub end: usize,
    pub dims: Seq<usize>,
}

impl View for Window {
    type V = WindowView;

    open spec fn view(&self) -> WindowView {
        WindowView { start: self.start, end: self.end, dims: self.dims@ }
    }
}

impl Clone for Window {
    fn clone(&self) -> (r: Self)
        ensures
            r@ == self@,
    {
        Window { start: self.start, end: self.end, dims: self.dims.clone() }
    }
}

/// A request for fresh fixed columns: how many, and the shape they are read
/// in.
#[derive(Debug, PartialEq, Eq)]
pub struct FixedBlock {
    pub columns: usize,
    pub dims: Vec<usize>,
}

/// What a [`FixedBlock`] holds.
pub struct FixedBlockView {
    pub columns: usize,
    pub dims: Seq<usize>,
}

impl View for FixedBlock {
    type V = FixedBlockView;

    open spec fn view(&self) -> FixedBlockView {
        FixedBlockView { columns: self.columns, dims: self.dims@ }
    }
}

impl Clone for FixedBlock {
    fn clone(&self) -> (r: Self)
        ensures
            r@ == self@,
    {
        FixedBlock { columns: self.columns, dims: self.dims.clone() }
    }
}

/// The columns of an affine layer.
#[derive(Debug, PartialEq, Eq)]
pub struct AffineConfig {
    pub weight: Window,
    pub bias: Window,
    pub input: Window,
    pub output: Window,
}

/// What an [`AffineConfig`] holds.
pub struct AffineConfigView {
    pub weight: WindowView,
    pub bias: WindowView,
    pub input: WindowView,
    pub output: WindowView,
}

impl View for AffineConfig {
    type V = AffineConfigView;

    open spec fn view(&self) -> AffineConfigView {
        AffineConfigView {
            weight: self.weight@,
            bias: self.bias@,
            input: self.input@,
            output: self.output@,
        }
    }
}

impl Clone for AffineConfig {
    fn clone(&self) -> (r: Self)
        ensures
            r@ == self@,
    {
        AffineConfig {
            weight: self.weight.clone(),
            bias: self.bias.clone(),
            input: self.input.clone(),
            output: self.output.clone(),
        }
    }
}

/// The columns and the static parameters of a convolution layer.
#[derive(Debug, PartialEq, Eq)]
pub struct ConvConfig {
    pub kernel: FixedBlock,
    pub bias: FixedBlock,
    pub input: Window,
    pub output: Window,
    /// Padding height and width, stride height and width.
    pub hyperparams: Vec<usize>,
}

/// What a [`ConvConfig`] holds.
pub struct ConvConfigView {
    pub kernel: FixedBlockView,
    pub bias: FixedBlockView,
    pub input: WindowView,
    pub output: WindowView,
    pub hyperparams: Seq<usize>,
}

impl View for ConvConfig {
    type V = ConvConfigView;

    open spec fn view(&self) -> ConvConfigView {
        ConvConfigView {
            kernel: self.kernel@,
            bias: self.bias@,
            input: self.input@,
            output: self.output@,
            hyperparams: self.hyperparams@,
        }
    }
}

impl Clone for ConvConfig {
    fn clone(&self) -> (r: Self)
        ensures
            r@ == self@,
    {
        ConvConfig {
            kernel: self.kernel.clone(),
            bias: self.bias.clone(),
            input: self.input.clone(),
            output: self.output.clone(),
            hyperparams: self.hyperparams.clone(),
        }
    }
}

/// The columns of an elementwise layer and the bit width of its table.
#[derive(Debug, PartialEq, Eq)]
pub struct EltwiseConfig {
    pub window: Window,
    pub bits: usize,
}

/// What an [`EltwiseConfig`] holds.
pub struct EltwiseConfigView {
    pub window: WindowView,
    pub bits: usize,
}

impl View for EltwiseConfig {
    type V = EltwiseConfigView;

    open spec fn view(&self) -> EltwiseConfigView {
        EltwiseConfigView { window: self.window@, bits: self.bits }
    }
}

impl Clone for EltwiseConfig {
    fn clone(&self) -> (r: Self)
        ensures
            r@ == self@,
    {
        EltwiseConfig { window: self.window.clone(), bits: self.bits }
    }
}

/// The configuration of one node: that of its operator, a marker for a node
/// that needs no resources, or a marker for a node that was not reached.
#[derive(Debug, PartialEq, Eq)]
pub enum OnnxNodeConfig {
    Affine(AffineConfig),
    Conv(ConvConfig),
    ReLU(EltwiseConfig),
    ReLU64(EltwiseConfig),
    ReLU128(EltwiseConfig),
    Sigmoid(EltwiseConfig),
    Const,
    Input,
    NotConfigured,
}

/// What an [`OnnxNodeConfig`] holds.
pub enum NodeConfigView {
    Affine(AffineConfigView),
    Conv(ConvConfigView),
    ReLU(EltwiseConfigView),
    ReLU64(EltwiseConfigView),
    ReLU128(EltwiseConfigView),
    Sigmoid(EltwiseConfigView),
    Const,
    Input,
    NotConfigured,
}

impl View for OnnxNodeConfig {
    type V = NodeConfigView;

    open spec fn view(&self) -> NodeConfigView {
        match self {
            OnnxNodeConfig::Affine(c) => NodeConfigView::Affine(c@),
            OnnxNodeConfig::Conv(c) => NodeConfigView::Conv(c@),
            OnnxNodeConfig::ReLU(c) => NodeConfigView::ReLU(c@),
            OnnxNodeConfig::ReLU64(c) => NodeConfigView::ReLU64(c@),
            OnnxNodeConfig::ReLU128(c) => NodeConfigView::ReLU128(c@),
            OnnxNodeConfig::Sigmoid(c) => NodeConfigView::Sigmoid(c@),
            OnnxNodeConfig::Const => NodeConfigView::Const,
            OnnxNodeConfig::Input => NodeConfigView::Input,
            OnnxNodeConfig::NotConfigured => NodeConfigView::NotConfigured,
        }
    }
}

impl Clone for OnnxNodeConfig {
    fn clone(&self) -> (r: Self)
        ensures
            r@ == self@,
    {
        match self {
            OnnxNodeConfig::Affine(c) => OnnxNodeConfig::Affine(c.clone()),
            OnnxNodeConfig::Conv(c) => OnnxNodeConfig::Conv(c.clone()),
            OnnxNodeConfig::ReLU(c) => OnnxNodeConfig::ReLU(c.clone()),
            OnnxNodeConfig::ReLU64(c) => OnnxNodeConfig::ReLU64(c.clone()),
            OnnxNodeConfig::ReLU128(c) => OnnxNodeConfig::ReLU128(c.clone()),
            OnnxNodeConfig::Sigmoid(c) => OnnxNodeConfig::Sigmoid(c.clone()),
            OnnxNodeConfig::Const => OnnxNodeConfig::Const,
            OnnxNodeConfig::Input => OnnxNodeConfig::Input,
            OnnxNodeConfig::NotConfigured => OnnxNodeConfig::NotConfigured,
        }
    }
}

/// The views of a list of configurations.
pub open spec fn configs_view(configs: Seq<OnnxNodeConfig>) -> Seq<NodeConfigView> {
    configs.map_values(|c: OnnxNodeConfig| c@)
}

/// Whether an affine node has the two dimensions that its windows are cut
/// by, and the last window ends within the machine's range.
pub open spec fn affine_columns_ok(n: NodeView) -> bool {
    &&& n.in_dims matches Some(i) && i.len() >= 1
    &&& n.out_dims matches Some(o) && o.len() >= 1
    &&& n.out_dims.unwrap()[0] + 4 <= usize::MAX
}

/// The four windows of an affine node: the weight takes the first `out`
/// columns, and bias, input and output one column each behind a gap of one.
pub open spec fn affine_config(n: NodeView) -> AffineConfigView {
    let in_dim = n.in_dims.unwrap()[0];
    let out_dim = n.out_dims.unwrap()[0];
    AffineConfigView {
        weight: WindowView { start: 0, end: out_dim, dims: seq![out_dim, in_dim] },
        bias: WindowView {
            start: (out_dim + 1) as usize,
            end: (out_dim + 2) as usize,
            dims: seq![out_dim],
        },
        input: WindowView {
            start: (out_dim + 2) as usize,
            end: (out_dim + 3) as usize,
            dims: seq![in_dim],
        },
        output: WindowView {
            start: (out_dim + 3) as usize,
            end: (out_dim + 4) as usize,
            dims: seq![out_dim],
        },
    }
}

/// Whether a convolution node and its kernel have the shapes that its
/// columns are sized by, the kernel's channels are those of the activations,
/// and every column count fits the machine.
pub open spec fn conv_columns_ok(n: NodeView, w: NodeView) -> bool {
    &&& n.in_dims matches Some(i) && i.len() >= 3
    &&& n.out_dims matches Some(o) && o.len() >= 3
    &&& w.out_dims matches Some(k) && k.len() >= 4
    &&& n.layer_hyperparams is Some
    &&& w.out_dims.unwrap()[1] == n.in_dims.unwrap()[0]
    &&& w.out_dims.unwrap()[0] == n.out_dims.unwrap()[0]
    &&& product(w.out_dims.unwrap().take(4)) <= usize::MAX
    &&& n.in_dims.unwrap()[1] * n.in_dims.unwrap()[0] <= usize::MAX
    &&& n.out_dims.unwrap()[1] * n.out_dims.unwrap()[0] <= usize::MAX
}

/// The columns of a convolution node: fresh fixed columns, one for each
/// element of the kernel and of the bias, and windows at the start of the
/// pool for input and output, one column for each row of each channel.
pub open spec fn conv_config(n: NodeView, w: NodeView) -> ConvConfigView {
    let i = n.in_dims.unwrap();
    let o = n.out_dims.unwrap();
    let k = w.out_dims.unwrap();
    ConvConfigView {
        kernel: FixedBlockView {
            columns: product(k.take(4)) as usize,
            dims: seq![o[0], i[0], k[2], k[3]],
        },
        bias: FixedBlockView { columns: o[0], dims: seq![o[0]] },
        input: WindowView { start: 0, end: (i[1] * i[0]) as usize, dims: seq![i[0], i[1], i[2]] },
        output: WindowView { start: 0, end: (o[1] * o[0]) as usize, dims: seq![o[0], o[1], o[2]] },
        hyperparams: n.layer_hyperparams.unwrap(),
    }
}

/// The columns of an elementwise node: as many from the start of the pool as
/// the last shape has elements.
pub open spec fn eltwise_config(bits: usize, last_shape: Seq<usize>) -> EltwiseConfigView {
    let length = product(last_shape) as usize;
    EltwiseConfigView { window: WindowView { start: 0, end: length, dims: seq![length] }, bits }
}

/// The configuration of an elementwise node of the given kind.
pub open spec fn eltwise_of(kind: OpKind, c: EltwiseConfigView) -> NodeConfigView {
    match kind {
        OpKind::ReLU => NodeConfigView::ReLU(c),
        OpKind::ReLU64 => NodeConfigView::ReLU64(c),
        OpKind::ReLU128 => NodeConfigView::ReLU128(c),
        _ => NodeConfigView::Sigmoid(c),
    }
}

/// The configuration of node `idx` and the shape that it leaves for the
/// elementwise nodes behind it, given the shape that the nodes before left;
/// or why the node cannot be configured.
pub open spec fn configure_step(
    nodes: Seq<NodeView>,
    bits: usize,
    last_shape: Seq<usize>,
    idx: usize,
) -> Result<(NodeConfigView, Seq<usize>), ModelError> {
    if idx >= nodes.len() {
        Err(ModelError::MalformedGraph { node: idx })
    } else {
        let n = nodes[idx as int];
        match n.opkind {
            OpKind::Affine => if affine_columns_ok(n) {
                Ok((NodeConfigView::Affine(affine_config(n)), seq![n.out_dims.unwrap()[0]]))
            } else {
                Err(ModelError::ShapeInferenceFailure { node: idx })
            },
            OpKind::Convolution => match operand(nodes, idx as int, 1) {
                None => Err(ModelError::MalformedGraph { node: idx }),
                Some(w) => if conv_columns_ok(n, w) {
                    Ok((NodeConfigView::Conv(conv_config(n, w)), n.out_dims.unwrap()))
                } else {
                    Err(ModelError::ShapeInferenceFailure { node: idx })
                },
            },
            OpKind::ReLU | OpKind::ReLU64 | OpKind::ReLU128 | OpKind::Sigmoid => if product(
                last_shape,
            ) <= usize::MAX {
                Ok((eltwise_of(n.opkind, eltwise_config(bits, last_shape)), last_shape))
            } else {
                Err(ModelError::ShapeInferenceFailure { node: idx })
            },
            OpKind::Const => Ok((NodeConfigView::Const, last_shape)),
            OpKind::Input => Ok((NodeConfigView::Input, last_shape)),
            OpKind::Unknown => Err(ModelError::UnsupportedOperator { node: idx }),
        }
    }
}

/// The configurations made so far and the shape left by the last affine or
/// convolution node.
pub struct ConfigState {
    pub configs: Seq<NodeConfigView>,
    pub last_shape: Seq<usize>,
}

/// The state after the nodes listed in `order` were configured one after the
/// other, each configuration stored at its node's index, and the failure
/// that stopped the pass if one did.
pub open spec fn configure_pass(
    nodes: Seq<NodeView>,
    bits: usize,
    state: ConfigState,
    order: Seq<usize>,
) -> (ConfigState, Option<ModelError>)
    decreases order.len(),
{
    if order.len() == 0 {
        (state, None)
    } else {
        match configure_step(nodes, bits, state.last_shape, order[0]) {
            Ok((c, last_shape)) => configure_pass(
                nodes,
                bits,
                ConfigState { configs: state.configs.update(order[0] as int, c), last_shape },
                order.skip(1),
            ),
            Err(e) => (state, Some(e)),
        }
    }
}

/// The state before any node is configured: no node has a configuration.
pub open spec fn unconfigured(n: nat, last_shape: Seq<usize>) -> ConfigState {
    ConfigState { configs: Seq::new(n, |i: int| NodeConfigView::NotConfigured), last_shape }
}

/// The columns of an elementwise node.
fn configure_eltwise(bits: usize, last_shape: &Vec<usize>) -> (r: Option<EltwiseConfig>)
    ensures
        match r {
            Some(c) => product(last_shape@) <= usize::MAX && c@ == eltwise_config(
                bits,
                last_shape@,
            ),
            None => product(last_shape@) > usize::MAX,
        },
{
    match checked_product(last_shape) {
        Some(length) => Some(
            EltwiseConfig { window: Window { start: 0, end: length, dims: shape1(length) }, bits },
        ),
        None => None,
    }
}

/// The columns of an affine node.
fn configure_affine(n: &OnnxNode) -> (r: Option<(AffineConfig, Vec<usize>)>)
    ensures
        match r {
            Some((c, last)) => affine_columns_ok(n@) && c@ == affine_config(n@) && last@
                == seq![n@.out_dims.unwrap()[0]],
            None => !affine_columns_ok(n@),
        },
{
    let in_dim: usize = match &n.in_dims {
        Some(i) => {
            if i.len() < 1 {
                return None;
            }
            i[0]
        },
        None => {
            return None;
        },
    };
    let out_dim: usize = match &n.out_dims {
        Some(o) => {
            if o.len() < 1 {
                return None;
            }
            o[0]
        },
        None => {
            return None;
        },
    };
    if out_dim > usize::MAX - 4 {
        return None;
    }
    let c = AffineConfig {
        weight: Window { start: 0, end: out_dim, dims: shape2(out_dim, in_dim) },
        bias: Window { start: out_dim + 1, end: out_dim + 2, dims: shape1(out_dim) },
        input: Window { start: out_dim + 2, end: out_dim + 3, dims: shape1(in_dim) },
        output: Window { start: out_dim + 3, end: out_dim + 4, dims: shape1(out_dim) },
    };
    Some((c, shape1(out_dim)))
}

/// The columns of a convolution node with kernel node `w`.
fn configure_conv(n: &OnnxNode, w: &OnnxNode) -> (r: Option<(ConvConfig, Vec<usize>)>)
    ensures
        match r {
            Some((c, last)) => conv_columns_ok(n@, w@) && c@ == conv_config(n@, w@) && last@
                == n@.out_dims.unwrap(),
            None => !conv_columns_ok(n@, w@),
        },
{
    let i: &Vec<usize> = match &n.in_dims {
        Some(i) => i,
        None => {
            return None;
        },
    };
    let o: &Vec<usize> = match &n.out_dims {
        Some(o) => o,
        None => {
            return None;
        },
    };
    let k: &Vec<usize> = match &w.out_dims {
        Some(k) => k,
        None => {
            return None;
        },
    };
    let h: &Vec<usize> = match &n.layer_hyperparams {
        Some(h) => h,
        None => {
            return None;
        },
    };
    if i.len() < 3 || o.len() < 3 || k.len() < 4 {
        return None;
    }
    if k[1] != i[0] || k[0] != o[0] {
        return None;
    }
    let kernel_dims: Vec<usize> = shape4(o[0], i[0], k[2], k[3]);
    proof {
        assert(kernel_dims@ =~= k@.take(4));
    }
    let kernel_columns: usize = match checked_product(&kernel_dims) {
        Some(v) => v,
        None => {
            return None;
        },
    };
    let in_columns: usize = match i[1].checked_mul(i[0]) {
        Some(v) => v,
        None => {
            return None;
        },
    };
    let out_columns: usize = match o[1].checked_mul(o[0]) {
        Some(v) => v,
        None => {
            return None;
        },
    };
    let c = ConvConfig {
        kernel: FixedBlock { columns: kernel_columns, dims: kernel_dims },
        bias: FixedBlock { columns: o[0], dims: shape1(o[0]) },
        input: Window { start: 0, end: in_columns, dims: shape3(i[0], i[1], i[2]) },
        output: Window { start: 0, end: out_columns, dims: shape3(o[0], o[1], o[2]) },
        hyperparams: h.clone(),
    };
    Some((c, o.clone()))
}

/// Configures node `idx`: cuts the windows of the witness pool and sizes the
/// fixed columns that its operator needs. An affine or convolution node
/// leaves its output shape in `last_shape`; an elementwise node is sized by
/// what it finds there.
pub fn configure_node(
    nodes: &Vec<OnnxNode>,
    bits: usize,
    last_shape: &mut Vec<usize>,
    idx: usize,
) -> (r: Result<OnnxNodeConfig, ModelError>)
    ensures
        match r {
            Ok(c) => configure_step(nodes_view(nodes@), bits, old(last_shape)@, idx) == Ok::<
                (NodeConfigView, Seq<usize>),
                ModelError,
            >((c@, final(last_shape)@)),
            Err(e) => configure_step(nodes_view(nodes@), bits, old(last_shape)@, idx) == Err::<
                (NodeConfigView, Seq<usize>),
                ModelError,
            >(e) && final(last_shape)@ == old(last_shape)@,
        },
{
    if idx >= nodes.len() {
        return Err(ModelError::MalformedGraph { node: idx });
    }
    let n = &nodes[idx];
    match n.opkind {
        OpKind::Affine => match configure_affine(n) {
            Some((c, last)) => {
                *last_shape = last;
                Ok(OnnxNodeConfig::Affine(c))
            },
            None => Err(ModelError::ShapeInferenceFailure { node: idx }),
        },
        OpKind::Convolution => {
            let ins = &n.facts.inputs;
            if ins.len() < 2 || ins[1].node >= nodes.len() {
                return Err(ModelError::MalformedGraph { node: idx });
            }
            match configure_conv(n, &nodes[ins[1].node]) {
                Some((c, last)) => {
                    *last_shape = last;
                    Ok(OnnxNodeConfig::Conv(c))
                },
                None => Err(ModelError::ShapeInferenceFailure { node: idx }),
            }
        },
        OpKind::ReLU => match configure_eltwise(bits, last_shape) {
            Some(c) => Ok(OnnxNodeConfig::ReLU(c)),
            None => Err(ModelError::ShapeInferenceFailure { node: idx }),
        },
        OpKind::ReLU64 => match configure_eltwise(bits, last_shape) {
            Some(c) => Ok(OnnxNodeConfig::ReLU64(c)),
            None => Err(ModelError::ShapeInferenceFailure { node: idx }),
        },
        OpKind::ReLU128 => match configure_eltwise(bits, last_shape) {
            Some(c) => Ok(OnnxNodeConfig::ReLU128(c)),
            None => Err(ModelError::ShapeInferenceFailure { node: idx }),
        },
        OpKind::Sigmoid => match configure_eltwise(bits, last_shape) {
            Some(c) => Ok(OnnxNodeConfig::Sigmoid(c)),
            None => Err(ModelError::ShapeInferenceFailure { node: idx }),
        },
        OpKind::Const => Ok(OnnxNodeConfig::Const),
        OpKind::Input => Ok(OnnxNodeConfig::Input),
        OpKind::Unknown => Err(ModelError::UnsupportedOperator { node: idx }),
    }
}

/// Configures the nodes listed in `order` one after the other and stores
/// each configuration at its node's index; stops at the first failure.
pub fn configure_in_order(
    nodes: &Vec<OnnxNode>,
    bits: usize,
    last_shape: &mut Vec<usize>,
    order: &Vec<usize>,
) -> (r: Result<Vec<OnnxNodeConfig>, ModelError>)
    ensures
        final(last_shape)@ == configure_pass(
            nodes_view(nodes@),
            bits,
            unconfigured(nodes@.len(), old(last_shape)@),
            order@,
        ).0.last_shape,
        match r {
            Ok(configs) => configure_pass(
                nodes_view(nodes@),
                bits,
                unconfigured(nodes@.len(), old(last_shape)@),
                order@,
            ) == (
                ConfigState { configs: configs_view(configs@), last_shape: final(last_shape)@ },
                None::<ModelError>,
            ),
            Err(e) => configure_pass(
                nodes_view(nodes@),
                bits,
                unconfigured(nodes@.len(), old(last_shape)@),
                order@,
            ).1 == Some(e),
        },
{
    let n: usize = nodes.len();
    let mut configs: Vec<OnnxNodeConfig> = Vec::new();
    let mut j: usize = 0;
    while j < n
        invariant
            j <= n,
            configs@.len() == j,
            forall|i: int| 0 <= i < j ==> configs@[i]@ is NotConfigured,
        decreases n - j,
    {
        configs.push(OnnxNodeConfig::NotConfigured);
        j = j + 1;
    }
    let ghost start = unconfigured(nodes@.len(), old(last_shape)@);
    proof {
        assert(configs_view(configs@) =~= start.configs);
        assert(order@.skip(0) =~= order@);
    }
    let len: usize = order.len();
    let mut i: usize = 0;
    while i < len
        invariant
            i <= len,
            len == order@.len(),
            n == nodes@.len(),
            configs@.len() == n,
            start == unconfigured(nodes@.len(), old(last_shape)@),
            configure_pass(nodes_view(nodes@), bits, start, order@) == configure_pass(
                nodes_view(nodes@),
                bits,
                ConfigState { configs: configs_view(configs@), last_shape: last_shape@ },
                order@.skip(i as int),
            ),
        decreases len - i,
    {
        let idx: usize = order[i];
        let ghost before = configs_view(configs@);
        proof {
            assert(order@.skip(i as int).skip(1) =~= order@.skip(i + 1));
        }
        match configure_node(nodes, bits, last_shape, idx) {
            Ok(c) => {
                configs.set(idx, c);
                proof {
                    assert(configs_view(configs@) =~= before.update(idx as int, c@));
                }
            },
            Err(e) => {
                return Err(e);
            },
        }
        i = i + 1;
    }
    Ok(configs)
}

} // verus!
