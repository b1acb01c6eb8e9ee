//! The forward pass that infers shapes and fixed-point parameters.
//!
//! The pass visits the nodes in evaluation order. At each node it reads the
//! node's operands, which were visited before, and writes the node once.

use crate::error::ModelError;
use crate::magnitude::Magnitude;
use crate::node::{nodes_view, NodeView, OnnxNode};
use crate::opkind::OpKind;
use crate::shape::{clone_dims, dims_view, shape1, shape3, slots_view};
use vstd::prelude::*;

verus! {

/// The input scale at which a rectifier is replaced by its rescaling variant.
pub const RESCALE_AT: i32 = 14;

/// The number of fractional bits that the rescaling rectifier drops.
pub const RESCALE_BITS: u32 = 7;

/// [`RESCALE_BITS`] as a difference of scales.
pub const RESCALE_STEP: i32 = 7;

/// The index of the node that feeds operand `k` of node `idx`, where the
/// node has such an operand and the graph holds its producer.
pub open spec fn operand_id(nodes: Seq<NodeView>, idx: int, k: int) -> Option<usize> {
    let ins = nodes[idx].facts.inputs;
    if 0 <= k < ins.len() && ins[k].node < nodes.len() {
        Some(ins[k].node)
    } else {
        None
    }
}

/// The node that feeds operand `k` of node `idx`.
pub open spec fn operand(nodes: Seq<NodeView>, idx: int, k: int) -> Option<NodeView> {
    match operand_id(nodes, idx, k) {
        Some(i) => Some(nodes[i as int]),
        None => None,
    }
}

/// The larger of two numbers.
pub open spec fn larger(a: int, b: int) -> int {
    if a >= b {
        a
    } else {
        b
    }
}

/// The size of a convolution's output along one spatial axis.
pub open spec fn conv_out_size(input: int, pad: int, kernel: int, stride: int) -> int {
    (input + 2 * pad - kernel) / stride + 1
}

/// Whether the output size along one axis is defined and fits the machine.
pub open spec fn conv_axis_ok(input: int, pad: int, kernel: int, stride: int) -> bool {
    &&& stride > 0
    &&& input + 2 * pad >= kernel
    &&& conv_out_size(input, pad, kernel, stride) <= usize::MAX
}

/// Whether the three operands agree on their output scale.
pub open spec fn scales_agree(a: NodeView, w: NodeView, b: NodeView) -> bool {
    a.out_scale == w.out_scale && a.out_scale == b.out_scale
}

/// Whether the sum of two scales fits the scale type.
pub open spec fn scale_sum_fits(a: NodeView, w: NodeView) -> bool {
    i32::MIN <= a.out_scale + w.out_scale <= i32::MAX
}

/// An affine node after its visit, given its operands: activation, weight
/// and bias.
pub open spec fn affine_update(
    n: NodeView,
    idx: usize,
    a: Option<NodeView>,
    w: Option<NodeView>,
    b: Option<NodeView>,
) -> Result<NodeView, ModelError> {
    if a is None || w is None || b is None {
        Err(ModelError::MalformedGraph { node: idx })
    } else if !scales_agree(a.unwrap(), w.unwrap(), b.unwrap()) {
        Err(ModelError::ScaleMismatch { node: idx })
    } else if !(w.unwrap().out_dims is Some && w.unwrap().out_dims.unwrap().len() >= 2) {
        Err(ModelError::ShapeInferenceFailure { node: idx })
    } else if !scale_sum_fits(a.unwrap(), w.unwrap()) {
        Err(ModelError::ScaleOverflow { node: idx })
    } else {
        let a = a.unwrap();
        let w = w.unwrap();
        let out_dim = w.out_dims.unwrap()[0];
        let in_dim = w.out_dims.unwrap()[1];
        Ok(
            NodeView {
                in_dims: Some(seq![in_dim]),
                out_dims: Some(seq![out_dim]),
                output_max: a.output_max.times(w.output_max).scaled(in_dim as nat),
                in_scale: a.out_scale,
                out_scale: (w.out_scale + a.out_scale) as i32,
                min_advice_cols: larger(in_dim as int, out_dim as int) as usize,
                ..n
            },
        )
    }
}

/// Whether the shapes that a convolution node reads are there and give an
/// output shape and a column count that fit the machine.
pub open spec fn conv_shapes_ok(n: NodeView, a: NodeView, w: NodeView) -> bool {
    &&& w.out_dims matches Some(k) && k.len() >= 4
    &&& n.layer_hyperparams matches Some(h) && h.len() >= 4
    &&& a.out_dims matches Some(i) && i.len() >= 3
    &&& conv_axis_ok(
        a.out_dims.unwrap()[1] as int,
        n.layer_hyperparams.unwrap()[0] as int,
        w.out_dims.unwrap()[2] as int,
        n.layer_hyperparams.unwrap()[2] as int,
    )
    &&& conv_axis_ok(
        a.out_dims.unwrap()[2] as int,
        n.layer_hyperparams.unwrap()[1] as int,
        w.out_dims.unwrap()[3] as int,
        n.layer_hyperparams.unwrap()[3] as int,
    )
    &&& conv_out_height(n, a, w) * w.out_dims.unwrap()[0] <= usize::MAX
    &&& a.out_dims.unwrap()[1] * w.out_dims.unwrap()[1] <= usize::MAX
}

/// The height of a convolution's output.
pub open spec fn conv_out_height(n: NodeView, a: NodeView, w: NodeView) -> int {
    conv_out_size(
        a.out_dims.unwrap()[1] as int,
        n.layer_hyperparams.unwrap()[0] as int,
        w.out_dims.unwrap()[2] as int,
        n.layer_hyperparams.unwrap()[2] as int,
    )
}

/// The width of a convolution's output.
pub open spec fn conv_out_width(n: NodeView, a: NodeView, w: NodeView) -> int {
    conv_out_size(
        a.out_dims.unwrap()[2] as int,
        n.layer_hyperparams.unwrap()[1] as int,
        w.out_dims.unwrap()[3] as int,
        n.layer_hyperparams.unwrap()[3] as int,
    )
}

/// A convolution node after its visit, given its operands: activation,
/// kernel and bias.
pub open spec fn conv_update(
    n: NodeView,
    idx: usize,
    a: Option<NodeView>,
    w: Option<NodeView>,
    b: Option<NodeView>,
) -> Result<NodeView, ModelError> {
    if a is None || w is None || b is None {
        Err(ModelError::MalformedGraph { node: idx })
    } else if !scales_agree(a.unwrap(), w.unwrap(), b.unwrap()) {
        Err(ModelError::ScaleMismatch { node: idx })
    } else if !conv_shapes_ok(n, a.unwrap(), w.unwrap()) {
        Err(ModelError::ShapeInferenceFailure { node: idx })
    } else if !scale_sum_fits(a.unwrap(), w.unwrap()) {
        Err(ModelError::ScaleOverflow { node: idx })
    } else {
        let a = a.unwrap();
        let w = w.unwrap();
        let kernel = w.out_dims.unwrap();
        let out_h = conv_out_height(n, a, w);
        let out_w = conv_out_width(n, a, w);
        Ok(
            NodeView {
                in_dims: a.out_dims,
                out_dims: Some(seq![kernel[0], out_h as usize, out_w as usize]),
                output_max: a.output_max.times(w.output_max).scaled(
                    (kernel[2] * kernel[3]) as nat,
                ),
                in_scale: a.out_scale,
                out_scale: (w.out_scale + a.out_scale) as i32,
                min_advice_cols: larger(
                    1,
                    larger(out_h * kernel[0], a.out_dims.unwrap()[1] * kernel[1]),
                ) as usize,
                ..n
            },
        )
    }
}

/// A rectifier node after its visit, given the node that feeds it. At input
/// scale [`RESCALE_AT`] it becomes the variant that also divides by
/// `2^RESCALE_BITS`; at any other scale it stays as it is and hands the scale
/// on.
pub open spec fn relu_update(n: NodeView, idx: usize, a: Option<NodeView>) -> Result<
    NodeView,
    ModelError,
> {
    if a is None {
        Err(ModelError::MalformedGraph { node: idx })
    } else if !(a.unwrap().out_dims is Some && a.unwrap().out_dims.unwrap().len() >= 1) {
        Err(ModelError::ShapeInferenceFailure { node: idx })
    } else {
        let a = a.unwrap();
        let rescale = a.out_scale == RESCALE_AT;
        Ok(
            NodeView {
                opkind: if rescale {
                    OpKind::ReLU128
                } else {
                    OpKind::ReLU
                },
                in_dims: a.out_dims,
                out_dims: a.out_dims,
                input_shapes: if n.input_shapes is None {
                    Some(seq![a.out_dims])
                } else {
                    n.input_shapes
                },
                output_shapes: if n.output_shapes is None {
                    Some(seq![a.out_dims])
                } else {
                    n.output_shapes
                },
                output_max: if rescale {
                    a.output_max.shifted(RESCALE_BITS as nat)
                } else {
                    a.output_max
                },
                in_scale: a.out_scale,
                out_scale: if rescale {
                    (a.out_scale - RESCALE_STEP) as i32
                } else {
                    a.out_scale
                },
                min_advice_cols: larger(1, a.out_dims.unwrap()[0] as int) as usize,
                ..n
            },
        )
    }
}

/// A node after its visit, given its first three operands. Only affine,
/// convolution and plain rectifier nodes change.
pub open spec fn node_update(
    n: NodeView,
    idx: usize,
    a: Option<NodeView>,
    w: Option<NodeView>,
    b: Option<NodeView>,
) -> Result<NodeView, ModelError> {
    match n.opkind {
        OpKind::Affine => affine_update(n, idx, a, w, b),
        OpKind::Convolution => conv_update(n, idx, a, w, b),
        OpKind::ReLU => relu_update(n, idx, a),
        _ => Ok(n),
    }
}

/// Node `idx` after its visit in the graph as it stands, or why the visit
/// fails.
pub open spec fn quantize_step(nodes: Seq<NodeView>, idx: usize) -> Result<NodeView, ModelError> {
    if idx >= nodes.len() {
        Err(ModelError::MalformedGraph { node: idx })
    } else {
        node_update(
            nodes[idx as int],
            idx,
            operand(nodes, idx as int, 0),
            operand(nodes, idx as int, 1),
            operand(nodes, idx as int, 2),
        )
    }
}

/// The graph after the nodes listed in `order` were visited one after the
/// other, and the failure that stopped the pass if one did: the visits before
/// the failing one stand.
pub open spec fn quantize_pass(nodes: Seq<NodeView>, order: Seq<usize>) -> (Seq<NodeView>, Option<ModelError>)
    decreases order.len(),
{
    if order.len() == 0 {
        (nodes, None)
    } else {
        match quantize_step(nodes, order[0]) {
            Ok(n) => quantize_pass(nodes.update(order[0] as int, n), order.skip(1)),
            Err(e) => (nodes, Some(e)),
        }
    }
}

/// The index of the node that feeds operand `k` of node `idx`.
fn find_operand(nodes: &Vec<OnnxNode>, idx: usize, k: usize) -> (r: Option<usize>)
    requires
        idx < nodes@.len(),
    ensures
        r == operand_id(nodes_view(nodes@), idx as int, k as int),
        r matches Some(i) ==> i < nodes@.len() && operand(nodes_view(nodes@), idx as int, k as int)
            == Some(nodes@[i as int]@),
        r is None ==> operand(nodes_view(nodes@), idx as int, k as int) is None,
{
    let node = &nodes[idx];
    if k < node.facts.inputs.len() {
        let i: usize = node.facts.inputs[k].node;
        if i < nodes.len() {
            return Some(i);
        }
    }
    None
}

/// The size of a convolution's output along one axis, where it is defined
/// and fits the machine.
fn conv_axis(input: usize, pad: usize, kernel: usize, stride: usize) -> (r: Option<usize>)
    ensures
        match r {
            Some(v) => conv_axis_ok(input as int, pad as int, kernel as int, stride as int) && v
                == conv_out_size(input as int, pad as int, kernel as int, stride as int),
            None => !conv_axis_ok(input as int, pad as int, kernel as int, stride as int),
        },
{
    if stride == 0 {
        return None;
    }
    let padded: u128 = input as u128 + 2 * (pad as u128);
    if padded < kernel as u128 {
        return None;
    }
    let size: u128 = (padded - kernel as u128) / (stride as u128) + 1;
    if size > usize::MAX as u128 {
        return None;
    }
    Some(size as usize)
}

/// The sum of the output scales of two operands, where it fits.
fn add_scales(a: i32, w: i32) -> (r: Option<i32>)
    ensures
        match r {
            Some(s) => s == a + w,
            None => !(i32::MIN <= a + w <= i32::MAX),
        },
{
    w.checked_add(a)
}

/// Visits an affine node.
fn quantize_affine(nodes: &Vec<OnnxNode>, idx: usize) -> (r: Result<OnnxNode, ModelError>)
    requires
        idx < nodes@.len(),
        nodes@[idx as int].opkind is Affine,
    ensures
        match r {
            Ok(n) => quantize_step(nodes_view(nodes@), idx) == Ok::<NodeView, ModelError>(n@),
            Err(e) => quantize_step(nodes_view(nodes@), idx) == Err::<NodeView, ModelError>(e),
        },
{
    let (a_id, w_id, b_id) = match (
        find_operand(nodes, idx, 0),
        find_operand(nodes, idx, 1),
        find_operand(nodes, idx, 2),
    ) {
        (Some(a_id), Some(w_id), Some(b_id)) => (a_id, w_id, b_id),
        _ => {
            return Err(ModelError::MalformedGraph { node: idx });
        },
    };
    let a = &nodes[a_id];
    let w = &nodes[w_id];
    let b = &nodes[b_id];
    if a.out_scale != w.out_scale || a.out_scale != b.out_scale {
        return Err(ModelError::ScaleMismatch { node: idx });
    }
    let (out_dim, in_dim) = match &w.out_dims {
        Some(d) => {
            if d.len() < 2 {
                return Err(ModelError::ShapeInferenceFailure { node: idx });
            }
            (d[0], d[1])
        },
        None => {
            return Err(ModelError::ShapeInferenceFailure { node: idx });
        },
    };
    let out_scale: i32 = match add_scales(a.out_scale, w.out_scale) {
        Some(s) => s,
        None => {
            return Err(ModelError::ScaleOverflow { node: idx });
        },
    };
    let mut this = nodes[idx].clone();
    this.in_dims = Some(shape1(in_dim));
    this.out_dims = Some(shape1(out_dim));
    this.output_max = a.output_max.multiply(w.output_max).multiply_count(in_dim);
    this.in_scale = a.out_scale;
    this.out_scale = out_scale;
    this.min_advice_cols = if in_dim >= out_dim {
        in_dim
    } else {
        out_dim
    };
    Ok(this)
}

/// Visits a convolution node.
fn quantize_conv(nodes: &Vec<OnnxNode>, idx: usize) -> (r: Result<OnnxNode, ModelError>)
    requires
        idx < nodes@.len(),
        nodes@[idx as int].opkind is Convolution,
    ensures
        match r {
            Ok(n) => quantize_step(nodes_view(nodes@), idx) == Ok::<NodeView, ModelError>(n@),
            Err(e) => quantize_step(nodes_view(nodes@), idx) == Err::<NodeView, ModelError>(e),
        },
{
    let (a_id, w_id, b_id) = match (
        find_operand(nodes, idx, 0),
        find_operand(nodes, idx, 1),
        find_operand(nodes, idx, 2),
    ) {
        (Some(a_id), Some(w_id), Some(b_id)) => (a_id, w_id, b_id),
        _ => {
            return Err(ModelError::MalformedGraph { node: idx });
        },
    };
    let n = &nodes[idx];
    let a = &nodes[a_id];
    let w = &nodes[w_id];
    let b = &nodes[b_id];
    if a.out_scale != w.out_scale || a.out_scale != b.out_scale {
        return Err(ModelError::ScaleMismatch { node: idx });
    }
    let failure = ModelError::ShapeInferenceFailure { node: idx };
    let (out_ch, in_ch, kernel_h, kernel_w) = match &w.out_dims {
        Some(k) => {
            if k.len() < 4 {
                return Err(failure);
            }
            (k[0], k[1], k[2], k[3])
        },
        None => {
            return Err(failure);
        },
    };
    let (pad_h, pad_w, stride_h, stride_w) = match &n.layer_hyperparams {
        Some(h) => {
            if h.len() < 4 {
                return Err(failure);
            }
            (h[0], h[1], h[2], h[3])
        },
        None => {
            return Err(failure);
        },
    };
    let (in_h, in_w) = match &a.out_dims {
        Some(i) => {
            if i.len() < 3 {
                return Err(failure);
            }
            (i[1], i[2])
        },
        None => {
            return Err(failure);
        },
    };
    let out_h: usize = match conv_axis(in_h, pad_h, kernel_h, stride_h) {
        Some(v) => v,
        None => {
            return Err(failure);
        },
    };
    let out_w: usize = match conv_axis(in_w, pad_w, kernel_w, stride_w) {
        Some(v) => v,
        None => {
            return Err(failure);
        },
    };
    let out_cols: usize = match out_h.checked_mul(out_ch) {
        Some(v) => v,
        None => {
            return Err(failure);
        },
    };
    let in_cols: usize = match in_h.checked_mul(in_ch) {
        Some(v) => v,
        None => {
            return Err(failure);
        },
    };
    let out_scale: i32 = match add_scales(a.out_scale, w.out_scale) {
        Some(s) => s,
        None => {
            return Err(ModelError::ScaleOverflow { node: idx });
        },
    };
    assert((kernel_h as u128) * (kernel_w as u128) <= u128::MAX) by (nonlinear_arith)
        requires
            kernel_h <= u64::MAX,
            kernel_w <= u64::MAX,
    ;
    let taps: u128 = (kernel_h as u128) * (kernel_w as u128);
    let mut this = n.clone();
    this.in_dims = clone_dims(&a.out_dims);
    this.out_dims = Some(shape3(out_ch, out_h, out_w));
    this.output_max = a.output_max.multiply(w.output_max).multiply(
        Magnitude::Bounded { mantissa: taps, shift: 0 },
    );
    this.in_scale = a.out_scale;
    this.out_scale = out_scale;
    let most: usize = if out_cols >= in_cols {
        out_cols
    } else {
        in_cols
    };
    this.min_advice_cols = if most >= 1 {
        most
    } else {
        1
    };
    Ok(this)
}

/// Visits a rectifier node.
fn quantize_relu(nodes: &Vec<OnnxNode>, idx: usize) -> (r: Result<OnnxNode, ModelError>)
    requires
        idx < nodes@.len(),
        nodes@[idx as int].opkind is ReLU,
    ensures
        match r {
            Ok(n) => quantize_step(nodes_view(nodes@), idx) == Ok::<NodeView, ModelError>(n@),
            Err(e) => quantize_step(nodes_view(nodes@), idx) == Err::<NodeView, ModelError>(e),
        },
{
    let a_id: usize = match find_operand(nodes, idx, 0) {
        Some(a_id) => a_id,
        None => {
            return Err(ModelError::MalformedGraph { node: idx });
        },
    };
    let a = &nodes[a_id];
    let first: usize = match &a.out_dims {
        Some(d) => {
            if d.len() < 1 {
                return Err(ModelError::ShapeInferenceFailure { node: idx });
            }
            d[0]
        },
        None => {
            return Err(ModelError::ShapeInferenceFailure { node: idx });
        },
    };
    let mut this = nodes[idx].clone();
    this.in_dims = clone_dims(&a.out_dims);
    this.out_dims = clone_dims(&a.out_dims);
    if this.input_shapes.is_none() {
        let mut slots: Vec<Option<Vec<usize>>> = Vec::new();
        slots.push(clone_dims(&a.out_dims));
        proof {
            assert(slots_view(slots@) =~= seq![dims_view(a.out_dims)]);
        }
        this.input_shapes = Some(slots);
    }
    if this.output_shapes.is_none() {
        let mut slots: Vec<Option<Vec<usize>>> = Vec::new();
        slots.push(clone_dims(&a.out_dims));
        proof {
            assert(slots_view(slots@) =~= seq![dims_view(a.out_dims)]);
        }
        this.output_shapes = Some(slots);
    }
    this.output_max = a.output_max;
    this.in_scale = a.out_scale;
    if a.out_scale == RESCALE_AT {
        this.opkind = OpKind::ReLU128;
        this.output_max = a.output_max.shift_down(RESCALE_BITS);
        this.out_scale = a.out_scale - RESCALE_STEP;
    } else {
        this.out_scale = a.out_scale;
    }
    this.min_advice_cols = if first >= 1 {
        first
    } else {
        1
    };
    Ok(this)
}

/// Visits node `idx`: infers its shapes and fixed-point parameters from its
/// operands as they stand, and returns the node as it is to be written back.
pub fn quantize_node(nodes: &Vec<OnnxNode>, idx: usize) -> (r: Result<OnnxNode, ModelError>)
    ensures
        match r {
            Ok(n) => quantize_step(nodes_view(nodes@), idx) == Ok::<NodeView, ModelError>(n@),
            Err(e) => quantize_step(nodes_view(nodes@), idx) == Err::<NodeView, ModelError>(e),
        },
{
    if idx >= nodes.len() {
        return Err(ModelError::MalformedGraph { node: idx });
    }
    match nodes[idx].opkind {
        OpKind::Affine => quantize_affine(nodes, idx),
        OpKind::Convolution => quantize_conv(nodes, idx),
        OpKind::ReLU => quantize_relu(nodes, idx),
        _ => Ok(nodes[idx].clone()),
    }
}

/// Visits the nodes listed in `order` one after the other, writing each back
/// before the next is visited, and stops at the first failure.
pub fn quantize_in_order(nodes: &mut Vec<OnnxNode>, order: &Vec<usize>) -> (r: Result<
    (),
    ModelError,
>)
    ensures
        nodes_view(final(nodes)@) == quantize_pass(nodes_view(old(nodes)@), order@).0,
        match r {
            Ok(_) => quantize_pass(nodes_view(old(nodes)@), order@).1 is None,
            Err(e) => quantize_pass(nodes_view(old(nodes)@), order@).1 == Some(e),
        },
{
    let len: usize = order.len();
    let mut i: usize = 0;
    proof {
        assert(order@.skip(0) =~= order@);
    }
    while i < len
        invariant
            i <= len,
            len == order@.len(),
            quantize_pass(nodes_view(old(nodes)@), order@) == quantize_pass(
                nodes_view(nodes@),
                order@.skip(i as int),
            ),
        decreases len - i,
    {
        let idx: usize = order[i];
        let ghost before = nodes_view(nodes@);
        proof {
            assert(order@.skip(i as int).skip(1) =~= order@.skip(i + 1));
        }
        match quantize_node(nodes, idx) {
            Ok(n) => {
                nodes.set(idx, n);
                proof {
                    assert(nodes_view(nodes@) =~= before.update(idx as int, n@));
                }
            },
            Err(e) => {
                return Err(e);
            },
        }
        i = i + 1;
    }
    Ok(())
}

/// The output size of a convolution along one axis is the quotient of
/// `input + 2 * pad - kernel` by the stride, rounded down, plus one. Without
/// padding and at stride one it is `input - kernel + 1`; with an odd kernel,
/// half of it (rounded down) as padding and stride one it is the input size.
pub proof fn lemma_conv_out_size(input: int, pad: int, kernel: int, stride: int)
    requires
        stride > 0,
        input + 2 * pad >= kernel,
    ensures
        stride * (conv_out_size(input, pad, kernel, stride) - 1) <= input + 2 * pad - kernel,
        input + 2 * pad - kernel < stride * conv_out_size(input, pad, kernel, stride),
        stride == 1 && pad == 0 ==> conv_out_size(input, pad, kernel, stride) == input - kernel
            + 1,
        stride == 1 && kernel % 2 == 1 && pad == kernel / 2 ==> conv_out_size(
            input,
            pad,
            kernel,
            stride,
        ) == input,
{
    let x = input + 2 * pad - kernel;
    vstd::arithmetic::div_mod::lemma_fundamental_div_mod(x, stride);
    vstd::arithmetic::div_mod::lemma_mod_bound(x, stride);
    let q = x / stride;
    assert(stride * (q + 1 - 1) == stride * q) by (nonlinear_arith);
    assert(stride * (q + 1) == stride * q + stride) by (nonlinear_arith);
}

/// The output of a visited convolution node has the kernel's output
/// channels and, along each spatial axis, the size of [`conv_out_size`].
pub proof fn lemma_conv_output_shape(nodes: Seq<NodeView>, idx: usize)
    requires
        idx < nodes.len(),
        nodes[idx as int].opkind is Convolution,
        quantize_step(nodes, idx) is Ok,
    ensures
        ({
            let n = nodes[idx as int];
            let a = operand(nodes, idx as int, 0).unwrap();
            let w = operand(nodes, idx as int, 1).unwrap();
            let h = n.layer_hyperparams.unwrap();
            quantize_step(nodes, idx).unwrap().out_dims == Some(
                seq![
                    w.out_dims.unwrap()[0],
                    conv_out_size(
                        a.out_dims.unwrap()[1] as int,
                        h[0] as int,
                        w.out_dims.unwrap()[2] as int,
                        h[2] as int,
                    ) as usize,
                    conv_out_size(
                        a.out_dims.unwrap()[2] as int,
                        h[1] as int,
                        w.out_dims.unwrap()[3] as int,
                        h[3] as int,
                    ) as usize,
                ],
            )
        }),
{
}

/// A visit fails for a mismatch of scales exactly at an affine or
/// convolution node whose three operands are there and do not all have the
/// same output scale; the failure names the node.
pub proof fn lemma_scale_mismatch(nodes: Seq<NodeView>, idx: usize, blamed: usize)
    ensures
        quantize_step(nodes, idx) == Err::<NodeView, ModelError>(
            ModelError::ScaleMismatch { node: blamed },
        ) <==> {
            &&& blamed == idx
            &&& idx < nodes.len()
            &&& nodes[idx as int].opkind is Affine || nodes[idx as int].opkind is Convolution
            &&& operand(nodes, idx as int, 0) matches Some(a)
            &&& operand(nodes, idx as int, 1) matches Some(w)
            &&& operand(nodes, idx as int, 2) matches Some(b)
            &&& a.out_scale != w.out_scale || a.out_scale != b.out_scale || w.out_scale
                != b.out_scale
        },
{
}

/// A visited rectifier takes the output scale of the node that feeds it as
/// its input scale. It becomes the rescaling variant exactly at input scale
/// [`RESCALE_AT`]; then its output scale is lower by [`RESCALE_STEP`] and its
/// bound is that of the feeding node divided by `2^RESCALE_BITS`. At any
/// other input scale it stays a plain rectifier and hands scale and bound on
/// as they are.
pub proof fn lemma_relu_rescale(nodes: Seq<NodeView>, idx: usize)
    requires
        idx < nodes.len(),
        nodes[idx as int].opkind is ReLU,
        quantize_step(nodes, idx) is Ok,
    ensures
        ({
            let after = quantize_step(nodes, idx).unwrap();
            let a = operand(nodes, idx as int, 0).unwrap();
            &&& after.in_scale == a.out_scale
            &&& after.opkind is ReLU128 <==> after.in_scale == RESCALE_AT
            &&& after.in_scale == RESCALE_AT ==> {
                &&& after.out_scale == after.in_scale - RESCALE_STEP
                &&& after.output_max == a.output_max.shifted(RESCALE_BITS as nat)
            }
            &&& after.in_scale != RESCALE_AT ==> {
                &&& after.opkind is ReLU
                &&& after.out_scale == after.in_scale
                &&& after.output_max == a.output_max
            }
        }),
{
}

} // verus!
