//! Operator kinds and the classification of operator names.

use vstd::prelude::*;
use vstd::string::StringExecFns;

verus! {

/// The operator categories that the compiler knows how to lower.
#[derive(Clone, Copy, Debug, PartialEq, Eq, Structural)]
pub enum OpKind {
    Affine,
    Convolution,
    ReLU,
    ReLU64,
    ReLU128,
    Sigmoid,
    Const,
    Input,
    Unknown,
}

/// The kind that an operator name stands for. Names outside the table are
/// `Unknown`.
pub open spec fn classify(name: Seq<char>) -> OpKind {
    if name == "Gemm"@ {
        OpKind::Affine
    } else if name == "Conv"@ {
        OpKind::Convolution
    } else if name == "ConvHir"@ {
        OpKind::Convolution
    } else if name == "Clip"@ {
        OpKind::ReLU
    } else if name == "Sigmoid"@ {
        OpKind::Sigmoid
    } else if name == "Const"@ {
        OpKind::Const
    } else if name == "Source"@ {
        OpKind::Input
    } else {
        OpKind::Unknown
    }
}

impl OpKind {
    /// Whether the kind is an elementwise nonlinearity.
    pub open spec fn is_eltwise(self) -> bool {
        self is ReLU || self is ReLU64 || self is ReLU128 || self is Sigmoid
    }

    /// Classifies an operator by its name. This never fails: a name that the
    /// table does not hold gives `Unknown`.
    pub fn from_name(name: &String) -> (kind: OpKind)
        ensures
            kind == classify(name@),
    {
        if *name == String::from_str("Gemm") {
            OpKind::Affine
        } else if *name == String::from_str("Conv") {
            OpKind::Convolution
        } else if *name == String::from_str("ConvHir") {
            OpKind::Convolution
        } else if *name == String::from_str("Clip") {
            OpKind::ReLU
        } else if *name == String::from_str("Sigmoid") {
            OpKind::Sigmoid
        } else if *name == String::from_str("Const") {
            OpKind::Const
        } else if *name == String::from_str("Source") {
            OpKind::Input
        } else {
            OpKind::Unknown
        }
    }

    /// Executable form of [`OpKind::is_eltwise`].
    pub fn eltwise(self) -> (r: bool)
        ensures
            r == self.is_eltwise(),
    {
        match self {
            OpKind::ReLU | OpKind::ReLU64 | OpKind::ReLU128 | OpKind::Sigmoid => true,
            _ => false,
        }
    }
}

} // verus!
