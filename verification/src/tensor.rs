//! Tensors of quantized values and of the single-precision values they are
//! made from.

use crate::fixed::{quantize, quantized};
use vstd::prelude::*;

verus! {

/// A tensor of fixed-point values: row-major data and its shape.
#[derive(Debug, PartialEq, Eq)]
pub struct Tensor {
    pub data: Vec<i32>,
    pub dims: Vec<usize>,
}

/// What a [`Tensor`] holds.
pub struct TensorView {
    pub data: Seq<i32>,
    pub dims: Seq<usize>,
}

impl View for Tensor {
    type V = TensorView;

    open spec fn view(&self) -> TensorView {
        TensorView { data: self.data@, dims: self.dims@ }
    }
}

/// A tensor of single-precision numbers, each given by its bit pattern.
#[derive(Debug, PartialEq, Eq)]
pub struct FloatTensor {
    pub bits: Vec<u32>,
    pub dims: Vec<usize>,
}

/// What a [`FloatTensor`] holds.
pub struct FloatTensorView {
    pub bits: Seq<u32>,
    pub dims: Seq<usize>,
}

impl View for FloatTensor {
    type V = FloatTensorView;

    open spec fn view(&self) -> FloatTensorView {
        FloatTensorView { bits: self.bits@, dims: self.dims@ }
    }
}

/// The absolute value of a fixed-point value.
pub open spec fn abs_value(x: i32) -> nat {
    if x < 0 {
        (-x) as nat
    } else {
        x as nat
    }
}

/// The largest absolute value among `data`; 0 where there is none.
pub open spec fn max_abs(data: Seq<i32>) -> nat
    decreases data.len(),
{
    if data.len() == 0 {
        0
    } else {
        let rest = max_abs(data.drop_last());
        if abs_value(data.last()) > rest {
            abs_value(data.last())
        } else {
            rest
        }
    }
}

/// The values of `bits` quantized one by one.
pub open spec fn quantized_values(bits: Seq<u32>, scale: nat) -> Seq<i32> {
    Seq::new(bits.len(), |i: int| quantized(bits[i], scale) as i32)
}

impl FloatTensorView {
    /// The tensor quantized at `scale` fractional bits: same shape, each
    /// value replaced by its fixed-point image.
    pub open spec fn quantized(self, scale: nat) -> TensorView {
        TensorView { data: quantized_values(self.bits, scale), dims: self.dims }
    }
}

impl Clone for Tensor {
    fn clone(&self) -> (r: Self)
        ensures
            r@ == self@,
    {
        Tensor { data: self.data.clone(), dims: self.dims.clone() }
    }
}

impl Clone for FloatTensor {
    fn clone(&self) -> (r: Self)
        ensures
            r@ == self@,
    {
        FloatTensor { bits: self.bits.clone(), dims: self.dims.clone() }
    }
}

impl Tensor {
    /// The largest absolute value in the tensor, `None` for an empty one.
    pub fn max_abs(&self) -> (r: Option<u32>)
        ensures
            r == if self@.data.len() == 0 {
                None
            } else {
                Some(max_abs(self@.data) as u32)
            },
            max_abs(self@.data) <= 0x8000_0000,
    {
        let n: usize = self.data.len();
        let mut best: u32 = 0;
        let mut i: usize = 0;
        while i < n
            invariant
                i <= n,
                n == self.data@.len(),
                best == max_abs(self.data@.take(i as int)),
                best <= 0x8000_0000,
            decreases n - i,
        {
            let x: i32 = self.data[i];
            let a: u32 = if x < 0 {
                (-(x as i64)) as u32
            } else {
                x as u32
            };
            proof {
                assert(self.data@.take(i + 1).drop_last() =~= self.data@.take(i as int));
            }
            if a > best {
                best = a;
            }
            i = i + 1;
        }
        proof {
            assert(self.data@.take(n as int) =~= self.data@);
        }
        if n == 0 {
            None
        } else {
            Some(best)
        }
    }
}

impl FloatTensor {
    /// Quantizes the tensor at `scale` fractional bits.
    pub fn quantize(&self, scale: u32) -> (r: Tensor)
        ensures
            r@ == self@.quantized(scale as nat),
    {
        let n: usize = self.bits.len();
        let mut data: Vec<i32> = Vec::new();
        let mut i: usize = 0;
        while i < n
            invariant
                i <= n,
                n == self.bits@.len(),
                data@.len() == i,
                forall|j: int| 0 <= j < i ==> data@[j] == quantized(self.bits@[j], scale as nat),
            decreases n - i,
        {
            data.push(quantize(self.bits[i], scale));
            i = i + 1;
        }
        proof {
            assert(data@ =~= quantized_values(self.bits@, scale as nat));
        }
        Tensor { data, dims: self.dims.clone() }
    }
}

} // verus!
