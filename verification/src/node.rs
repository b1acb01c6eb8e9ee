//! A node of the graph together with what the compiler has inferred of it.

use crate::error::ModelError;
use crate::facts::{ConvFactsView, DataFormat, DimFact, KernelFormat, NodeFacts, NodeFactsView};
use crate::magnitude::Magnitude;
use crate::opkind::{classify, OpKind};
use crate::shape::{clone_dims, clone_shapes, clone_slots, dims_view, shapes_view, slots_view};
use crate::tensor::{max_abs, Tensor, TensorView};
use vstd::prelude::*;

verus! {

/// The fixed-point scale of constants and of the model's inputs.
pub const BASE_SCALE: i32 = 7;

/// [`BASE_SCALE`] as a count of fractional bits.
pub const BASE_SCALE_BITS: u32 = 7;

/// The bound assumed on the absolute value of a model input.
pub const INPUT_MAX: usize = 256;

/// A node of the graph: what the importer reported of it, its kind, and the
/// shapes and quantization parameters inferred for it.
#[derive(Debug, PartialEq, Eq)]
pub struct OnnxNode {
    /// What the importer reported.
    pub facts: NodeFacts,
    /// The kind of the operator.
    pub opkind: OpKind,
    /// A bound on the absolute value of the output.
    pub output_max: Magnitude,
    /// The least number of witness columns that the node needs.
    pub min_advice_cols: usize,
    /// The fixed-point scale of the input.
    pub in_scale: i32,
    /// The fixed-point scale of the output.
    pub out_scale: i32,
    /// The quantized value of a constant.
    pub constant_value: Option<Tensor>,
    /// The shape of each input slot, parameters included.
    pub input_shapes: Option<Vec<Option<Vec<usize>>>>,
    /// The shape of each output slot.
    pub output_shapes: Option<Vec<Option<Vec<usize>>>>,
    /// The shape of the activation that enters.
    pub in_dims: Option<Vec<usize>>,
    /// The shape of the activation that leaves.
    pub out_dims: Option<Vec<usize>>,
    /// Padding and stride of a convolution: height and width of each.
    pub layer_hyperparams: Option<Vec<usize>>,
}

/// What an [`OnnxNode`] holds.
pub struct NodeView {
    pub facts: NodeFactsView,
    pub opkind: OpKind,
    pub output_max: Magnitude,
    pub min_advice_cols: usize,
    pub in_scale: i32,
    pub out_scale: i32,
    pub constant_value: Option<TensorView>,
    pub input_shapes: Option<Seq<Option<Seq<usize>>>>,
    pub output_shapes: Option<Seq<Option<Seq<usize>>>>,
    pub in_dims: Option<Seq<usize>>,
    pub out_dims: Option<Seq<usize>>,
    pub layer_hyperparams: Option<Seq<usize>>,
}

impl View for OnnxNode {
    type V = NodeView;

    open spec fn view(&self) -> NodeView {
        NodeView {
            facts: self.facts@,
            opkind: self.opkind,
            output_max: self.output_max,
            min_advice_cols: self.min_advice_cols,
            in_scale: self.in_scale,
            out_scale: self.out_scale,
            constant_value: match self.constant_value {
                Some(t) => Some(t@),
                None => None,
            },
            input_shapes: shapes_view(self.input_shapes),
            output_shapes: shapes_view(self.output_shapes),
            in_dims: dims_view(self.in_dims),
            out_dims: dims_view(self.out_dims),
            layer_hyperparams: dims_view(self.layer_hyperparams),
        }
    }
}

/// The views of a list of nodes.
pub open spec fn nodes_view(nodes: Seq<OnnxNode>) -> Seq<NodeView> {
    nodes.map_values(|n: OnnxNode| n@)
}

/// The declared dimensions resolved one by one: an undeclared one is left
/// out, a number is kept if it is a non-negative 32-bit value, and anything
/// else makes the whole shape unresolvable.
pub open spec fn resolved_dims(dims: Seq<DimFact>) -> Option<Seq<usize>>
    decreases dims.len(),
{
    if dims.len() == 0 {
        Some(Seq::empty())
    } else {
        match resolved_dims(dims.drop_last()) {
            None => None,
            Some(rest) => match dims.last() {
                DimFact::Any => Some(rest),
                DimFact::Symbolic => None,
                DimFact::Value(v) => if 0 <= v <= i32::MAX {
                    Some(rest.push(v as usize))
                } else {
                    None
                },
            },
        }
    }
}

/// The shape of a model input: that of its only output slot where it is
/// known, else the declared dimensions resolved one by one.
pub open spec fn input_dims(f: NodeFactsView) -> Option<Seq<usize>> {
    if f.output_shapes is Some && f.output_shapes.unwrap().len() == 1
        && f.output_shapes.unwrap()[0] is Some {
        f.output_shapes.unwrap()[0]
    } else {
        match f.declared_dims {
            Some(d) => resolved_dims(d),
            None => None,
        }
    }
}

/// Whether a convolution follows the one supported convention: activations
/// channel-first, kernel as output/input/height/width, and a stride and a
/// literal padding, where there is one, for at least two spatial axes.
pub open spec fn conv_convention(c: ConvFactsView) -> bool {
    &&& c.data_format == DataFormat::NCHW
    &&& c.kernel_format == KernelFormat::OIHW
    &&& c.strides matches Some(s) && s.len() >= 2
    &&& c.padding matches Some(p) ==> p.len() >= 2
}

/// Padding and stride of a convolution in the order padding height, padding
/// width, stride height, stride width.
pub open spec fn conv_hyperparams(c: ConvFactsView) -> Seq<usize> {
    seq![c.padding.unwrap()[0], c.padding.unwrap()[1], c.strides.unwrap()[0], c.strides.unwrap()[1]]
}

/// A node as it stands before anything is extracted for its kind.
pub open spec fn blank_node(f: NodeFactsView) -> NodeView {
    NodeView {
        facts: f,
        opkind: classify(f.op_name),
        output_max: Magnitude::Unbounded,
        min_advice_cols: 1,
        in_scale: 0,
        out_scale: 0,
        constant_value: None,
        input_shapes: None,
        output_shapes: f.output_shapes,
        in_dims: None,
        out_dims: None,
        layer_hyperparams: None,
    }
}

/// The node that [`OnnxNode::new`] makes of an importer's report, or the
/// reason why it makes none.
pub open spec fn node_from_facts(f: NodeFactsView) -> Result<NodeView, ModelError> {
    let blank = blank_node(f);
    match blank.opkind {
        OpKind::Const => match f.constant {
            Some(t) => {
                let q = t.quantized(BASE_SCALE_BITS as nat);
                if q.data.len() == 0 {
                    Err(ModelError::ConstantConcretizationFailure { node: f.id })
                } else {
                    Ok(
                        NodeView {
                            out_scale: BASE_SCALE,
                            out_dims: Some(q.dims),
                            output_max: Magnitude::whole(max_abs(q.data)),
                            constant_value: Some(q),
                            ..blank
                        },
                    )
                }
            },
            None => Err(ModelError::ConstantConcretizationFailure { node: f.id }),
        },
        OpKind::Input => match input_dims(f) {
            Some(d) => Ok(
                NodeView {
                    out_dims: Some(d),
                    output_max: Magnitude::whole(INPUT_MAX as nat),
                    in_scale: BASE_SCALE,
                    out_scale: BASE_SCALE,
                    ..blank
                },
            ),
            None => Err(ModelError::ShapeInferenceFailure { node: f.id }),
        },
        OpKind::Convolution => match f.conv {
            None => Err(ModelError::UnsupportedOperator { node: f.id }),
            Some(c) => if !conv_convention(c) {
                Err(ModelError::UnsupportedLayoutConvention { node: f.id })
            } else if c.padding is None {
                Err(ModelError::PaddingNotExplicit { node: f.id })
            } else {
                Ok(NodeView { layer_hyperparams: Some(conv_hyperparams(c)), ..blank })
            },
        },
        _ => Ok(blank),
    }
}

/// Resolves declared dimensions one by one.
fn resolve_dims(dims: &Vec<DimFact>) -> (r: Option<Vec<usize>>)
    ensures
        dims_view(r) == resolved_dims(dims@),
{
    let n: usize = dims.len();
    let mut out: Vec<usize> = Vec::new();
    let mut failed: bool = false;
    let mut i: usize = 0;
    while i < n
        invariant
            i <= n,
            n == dims@.len(),
            failed ==> resolved_dims(dims@.take(i as int)) is None,
            !failed ==> resolved_dims(dims@.take(i as int)) == Some(out@),
        decreases n - i,
    {
        proof {
            assert(dims@.take(i + 1).drop_last() =~= dims@.take(i as int));
        }
        if !failed {
            match dims[i] {
                DimFact::Any => {},
                DimFact::Symbolic => {
                    failed = true;
                },
                DimFact::Value(v) => {
                    if 0 <= v && v <= 0x7fff_ffff {
                        out.push(v as usize);
                    } else {
                        failed = true;
                    }
                },
            }
        }
        i = i + 1;
    }
    proof {
        assert(dims@.take(n as int) =~= dims@);
    }
    if failed {
        None
    } else {
        Some(out)
    }
}

/// The shape of a model input.
fn find_input_dims(facts: &NodeFacts) -> (r: Option<Vec<usize>>)
    ensures
        dims_view(r) == input_dims(facts@),
{
    if let Some(slots) = &facts.output_shapes {
        if slots.len() == 1 {
            if let Some(v) = &slots[0] {
                return Some(v.clone());
            }
        }
    }
    match &facts.declared_dims {
        Some(d) => resolve_dims(d),
        None => None,
    }
}

impl Clone for OnnxNode {
    fn clone(&self) -> (r: Self)
        ensures
            r@ == self@,
    {
        OnnxNode {
            facts: self.facts.clone(),
            opkind: self.opkind,
            output_max: self.output_max,
            min_advice_cols: self.min_advice_cols,
            in_scale: self.in_scale,
            out_scale: self.out_scale,
            constant_value: match &self.constant_value {
                Some(t) => Some(t.clone()),
                None => None,
            },
            input_shapes: clone_shapes(&self.input_shapes),
            output_shapes: clone_shapes(&self.output_shapes),
            in_dims: clone_dims(&self.in_dims),
            out_dims: clone_dims(&self.out_dims),
            layer_hyperparams: clone_dims(&self.layer_hyperparams),
        }
    }
}

impl OnnxNode {
    /// Classifies a node by the name of its operator and extracts what is
    /// static for its kind: the quantized value, shape and bound of a
    /// constant; the shape of an input; the padding and stride of a
    /// convolution.
    pub fn new(facts: NodeFacts) -> (r: Result<OnnxNode, ModelError>)
        ensures
            match r {
                Ok(n) => node_from_facts(facts@) == Ok::<NodeView, ModelError>(n@),
                Err(e) => node_from_facts(facts@) == Err::<NodeView, ModelError>(e),
            },
    {
        let opkind: OpKind = OpKind::from_name(&facts.op_name);
        let id: usize = facts.id;
        let output_shapes = clone_shapes(&facts.output_shapes);
        let mut constant_value: Option<Tensor> = None;
        let mut in_scale: i32 = 0;
        let mut out_scale: i32 = 0;
        let mut out_dims: Option<Vec<usize>> = None;
        let mut output_max: Magnitude = Magnitude::Unbounded;
        let mut layer_hyperparams: Option<Vec<usize>> = None;
        match opkind {
            OpKind::Const => {
                match &facts.constant {
                    None => {
                        return Err(ModelError::ConstantConcretizationFailure { node: id });
                    },
                    Some(t) => {
                        let q: Tensor = t.quantize(BASE_SCALE_BITS);
                        match q.max_abs() {
                            None => {
                                return Err(ModelError::ConstantConcretizationFailure { node: id });
                            },
                            Some(m) => {
                                out_scale = BASE_SCALE;
                                out_dims = Some(q.dims.clone());
                                output_max = Magnitude::Bounded { mantissa: m as u128, shift: 0 };
                                constant_value = Some(q);
                            },
                        }
                    },
                }
            },
            OpKind::Input => {
                match find_input_dims(&facts) {
                    None => {
                        return Err(ModelError::ShapeInferenceFailure { node: id });
                    },
                    Some(d) => {
                        out_dims = Some(d);
                        output_max = Magnitude::from_count(INPUT_MAX);
                        in_scale = BASE_SCALE;
                        out_scale = BASE_SCALE;
                    },
                }
            },
            OpKind::Convolution => {
                match &facts.conv {
                    None => {
                        return Err(ModelError::UnsupportedOperator { node: id });
                    },
                    Some(c) => {
                        if c.data_format != DataFormat::NCHW || c.kernel_format
                            != KernelFormat::OIHW {
                            return Err(ModelError::UnsupportedLayoutConvention { node: id });
                        }
                        match &c.strides {
                            None => {
                                return Err(ModelError::UnsupportedLayoutConvention { node: id });
                            },
                            Some(s) => {
                                if s.len() < 2 {
                                    return Err(
                                        ModelError::UnsupportedLayoutConvention { node: id },
                                    );
                                }
                                match &c.padding {
                                    None => {
                                        return Err(ModelError::PaddingNotExplicit { node: id });
                                    },
                                    Some(p) => {
                                        if p.len() < 2 {
                                            return Err(
                                                ModelError::UnsupportedLayoutConvention {
                                                    node: id,
                                                },
                                            );
                                        }
                                        let mut h: Vec<usize> = Vec::new();
                                        h.push(p[0]);
                                        h.push(p[1]);
                                        h.push(s[0]);
                                        h.push(s[1]);
                                        proof {
                                            assert(h@ =~= conv_hyperparams(c@));
                                        }
                                        layer_hyperparams = Some(h);
                                    },
                                }
                            },
                        }
                    },
                }
            },
            _ => {},
        }
        Ok(
            OnnxNode {
                facts,
                opkind,
                output_max,
                min_advice_cols: 1,
                in_scale,
                out_scale,
                constant_value,
                input_shapes: None,
                output_shapes,
                in_dims: None,
                out_dims,
                layer_hyperparams,
            },
        )
    }

    /// The shape of each output slot as the importer reported it; an error
    /// where it could report none.
    pub fn output_shapes(&self) -> (r: Result<Vec<Option<Vec<usize>>>, ModelError>)
        ensures
            match r {
                Ok(s) => self@.facts.output_shapes == Some(slots_view(s@)),
                Err(e) => self@.facts.output_shapes is None && e
                    == (ModelError::ShapeInferenceFailure { node: self@.facts.id }),
            },
    {
        match &self.facts.output_shapes {
            Some(s) => Ok(clone_slots(s)),
            None => Err(ModelError::ShapeInferenceFailure { node: self.facts.id }),
        }
    }

    /// The node's name.
    pub fn name(&self) -> (r: String)
        ensures
            r@ == self@.facts.name,
    {
        self.facts.name.clone()
    }
}

} // verus!
