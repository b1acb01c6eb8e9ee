//! What the importer of a model reports of each node, as plain values.

use crate::shape::{clone_dims, clone_shapes, dims_view, shapes_view};
use crate::tensor::{FloatTensor, FloatTensorView};
use vstd::prelude::*;

verus! {

/// An output slot of a node: where a tensor is produced.
#[derive(Clone, Copy, Debug, PartialEq, Eq, Structural)]
pub struct Outlet {
    /// The index of the producing node.
    pub node: usize,
    /// The rank of the slot among the node's outputs.
    pub slot: usize,
}

/// What is known of one declared dimension.
#[derive(Clone, Copy, Debug, PartialEq, Eq, Structural)]
pub enum DimFact {
    /// Nothing was declared.
    Any,
    /// The dimension is an expression over symbols.
    Symbolic,
    /// The dimension is this number.
    Value(i64),
}

/// The order of the axes of an activation tensor.
#[derive(Clone, Copy, Debug, PartialEq, Eq, Structural)]
pub enum DataFormat {
    NCHW,
    NHWC,
    CHW,
    HWC,
}

/// The order of the axes of a convolution kernel.
#[derive(Clone, Copy, Debug, PartialEq, Eq, Structural)]
pub enum KernelFormat {
    OIHW,
    HWIO,
}

/// The static attributes of a convolution operator.
#[derive(Debug, PartialEq, Eq)]
pub struct ConvFacts {
    pub data_format: DataFormat,
    pub kernel_format: KernelFormat,
    /// The stride of each spatial axis, where the operator states them.
    pub strides: Option<Vec<usize>>,
    /// The leading padding of each spatial axis, where it is given
    /// literally; `None` where a policy derives it.
    pub padding: Option<Vec<usize>>,
}

/// What a [`ConvFacts`] holds.
pub struct ConvFactsView {
    pub data_format: DataFormat,
    pub kernel_format: KernelFormat,
    pub strides: Option<Seq<usize>>,
    pub padding: Option<Seq<usize>>,
}

impl View for ConvFacts {
    type V = ConvFactsView;

    open spec fn view(&self) -> ConvFactsView {
        ConvFactsView {
            data_format: self.data_format,
            kernel_format: self.kernel_format,
            strides: dims_view(self.strides),
            padding: dims_view(self.padding),
        }
    }
}

impl Clone for ConvFacts {
    fn clone(&self) -> (r: Self)
        ensures
            r@ == self@,
    {
        ConvFacts {
            data_format: self.data_format,
            kernel_format: self.kernel_format,
            strides: clone_dims(&self.strides),
            padding: clone_dims(&self.padding),
        }
    }
}

/// What the importer reports of one node of the graph.
#[derive(Debug, PartialEq, Eq)]
pub struct NodeFacts {
    /// The node's index in the graph.
    pub id: usize,
    /// The node's name.
    pub name: String,
    /// The name of the node's operator.
    pub op_name: String,
    /// The outlets that feed the node, in operand order.
    pub inputs: Vec<Outlet>,
    /// The concrete shape of each output slot, as far as it is known;
    /// `None` where the shapes could not be read at all.
    pub output_shapes: Option<Vec<Option<Vec<usize>>>>,
    /// The dimensions declared for the first output, `None` where the node
    /// has no output.
    pub declared_dims: Option<Vec<DimFact>>,
    /// The folded value of the first output, where there is one and it is
    /// single-precision.
    pub constant: Option<FloatTensor>,
    /// The operator's attributes where it is a convolution.
    pub conv: Option<ConvFacts>,
}

/// What a [`NodeFacts`] holds.
pub struct NodeFactsView {
    pub id: usize,
    pub name: Seq<char>,
    pub op_name: Seq<char>,
    pub inputs: Seq<Outlet>,
    pub output_shapes: Option<Seq<Option<Seq<usize>>>>,
    pub declared_dims: Option<Seq<DimFact>>,
    pub constant: Option<FloatTensorView>,
    pub conv: Option<ConvFactsView>,
}

impl View for NodeFacts {
    type V = NodeFactsView;

    open spec fn view(&self) -> NodeFactsView {
        NodeFactsView {
            id: self.id,
            name: self.name@,
            op_name: self.op_name@,
            inputs: self.inputs@,
            output_shapes: shapes_view(self.output_shapes),
            declared_dims: match self.declared_dims {
                Some(d) => Some(d@),
                None => None,
            },
            constant: match self.constant {
                Some(t) => Some(t@),
                None => None,
            },
            conv: match self.conv {
                Some(c) => Some(c@),
                None => None,
            },
        }
    }
}

impl Clone for NodeFacts {
    fn clone(&self) -> (r: Self)
        ensures
            r@ == self@,
    {
        NodeFacts {
            id: self.id,
            name: self.name.clone(),
            op_name: self.op_name.clone(),
            inputs: self.inputs.clone(),
            output_shapes: clone_shapes(&self.output_shapes),
            declared_dims: match &self.declared_dims {
                Some(d) => Some(d.clone()),
                None => None,
            },
            constant: match &self.constant {
                Some(t) => Some(t.clone()),
                None => None,
            },
            conv: match &self.conv {
                Some(c) => Some(c.clone()),
                None => None,
            },
        }
    }
}

} // verus!
