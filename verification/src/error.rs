//! Failures of the compiler passes.

use vstd::prelude::*;

verus! {

/// Why a pass gave up. Every failure is a structural incompatibility between
/// the model and the compiler, never a transient condition; where a single
/// node is to blame the error carries its index.
#[derive(Clone, Copy, Debug, PartialEq, Eq, Structural)]
pub enum ModelError {
    /// A node of unknown kind reached a pass that has to lower it.
    UnsupportedOperator { node: usize },
    /// A shape that a pass needs is missing, symbolic, inconsistent or too
    /// large for the machine.
    ShapeInferenceFailure { node: usize },
    /// The operands of an affine or convolution node disagree on their
    /// fixed-point scale.
    ScaleMismatch { node: usize },
    /// A convolution that is not channel-first with an
    /// output/input/height/width kernel, two strides and two paddings.
    UnsupportedLayoutConvention { node: usize },
    /// A convolution whose padding is derived from a policy.
    PaddingNotExplicit { node: usize },
    /// A constant without a usable folded value.
    ConstantConcretizationFailure { node: usize },
    /// A node and the configuration handed in for it are of different kinds.
    ConfigOpMismatch { node: usize },
    /// The graph lacks what the step at `node` reads: the node itself or one
    /// of its operands.
    MalformedGraph { node: usize },
    /// The sum of two operand scales does not fit the scale type.
    ScaleOverflow { node: usize },
    /// The graph has no evaluation order: the scheduler found none, or what
    /// it found does not respect the dependencies.
    NoEvalOrder,
}

impl ModelError {
    /// The node that the error blames, if it blames one.
    pub open spec fn node_spec(self) -> Option<usize> {
        match self {
            ModelError::UnsupportedOperator { node } => Some(node),
            ModelError::ShapeInferenceFailure { node } => Some(node),
            ModelError::ScaleMismatch { node } => Some(node),
            ModelError::UnsupportedLayoutConvention { node } => Some(node),
            ModelError::PaddingNotExplicit { node } => Some(node),
            ModelError::ConstantConcretizationFailure { node } => Some(node),
            ModelError::ConfigOpMismatch { node } => Some(node),
            ModelError::MalformedGraph { node } => Some(node),
            ModelError::ScaleOverflow { node } => Some(node),
            ModelError::NoEvalOrder => None,
        }
    }

    /// The node that the error blames, if it blames one.
    pub fn node(&self) -> (r: Option<usize>)
        ensures
            r == self.node_spec(),
    {
        match self {
            ModelError::UnsupportedOperator { node } => Some(*node),
            ModelError::ShapeInferenceFailure { node } => Some(*node),
            ModelError::ScaleMismatch { node } => Some(*node),
            ModelError::UnsupportedLayoutConvention { node } => Some(*node),
            ModelError::PaddingNotExplicit { node } => Some(*node),
            ModelError::ConstantConcretizationFailure { node } => Some(*node),
            ModelError::ConfigOpMismatch { node } => Some(*node),
            ModelError::MalformedGraph { node } => Some(*node),
            ModelError::ScaleOverflow { node } => Some(*node),
            ModelError::NoEvalOrder => None,
        }
    }

    /// Whether the error reports a defect of the compiler itself rather than
    /// of the model: only a node/configuration mismatch does.
    pub fn is_internal(&self) -> (r: bool)
        ensures
            r == (*self is ConfigOpMismatch),
    {
        match self {
            ModelError::ConfigOpMismatch { .. } => true,
            _ => false,
        }
    }
}

} // verus!
