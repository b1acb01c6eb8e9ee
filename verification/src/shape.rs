//! Shapes, the optional shapes of a node's output slots, and their views.

use vstd::prelude::*;

verus! {

/// The view of a shape that may be unknown.
pub open spec fn dims_view(dims: Option<Vec<usize>>) -> Option<Seq<usize>> {
    match dims {
        Some(v) => Some(v@),
        None => None,
    }
}

/// The view of the shapes of a node's slots, each of which may be unknown.
pub open spec fn slots_view(slots: Seq<Option<Vec<usize>>>) -> Seq<Option<Seq<usize>>> {
    slots.map_values(|d: Option<Vec<usize>>| dims_view(d))
}

/// The view of the shapes of a node's slots where nothing at all may be known
/// of them.
pub open spec fn shapes_view(shapes: Option<Vec<Option<Vec<usize>>>>) -> Option<
    Seq<Option<Seq<usize>>>,
> {
    match shapes {
        Some(v) => Some(slots_view(v@)),
        None => None,
    }
}

/// A copy of a shape that may be unknown.
pub fn clone_dims(dims: &Option<Vec<usize>>) -> (r: Option<Vec<usize>>)
    ensures
        dims_view(r) == dims_view(*dims),
{
    match dims {
        Some(v) => Some(v.clone()),
        None => None,
    }
}

/// A copy of the shapes of a node's slots.
pub fn clone_slots(slots: &Vec<Option<Vec<usize>>>) -> (r: Vec<Option<Vec<usize>>>)
    ensures
        slots_view(r@) == slots_view(slots@),
{
    let n: usize = slots.len();
    let mut r: Vec<Option<Vec<usize>>> = Vec::new();
    let mut i: usize = 0;
    while i < n
        invariant
            i <= n,
            n == slots@.len(),
            r@.len() == i,
            forall|j: int| 0 <= j < i ==> dims_view(r@[j]) == dims_view(slots@[j]),
        decreases n - i,
    {
        r.push(clone_dims(&slots[i]));
        i = i + 1;
    }
    proof {
        assert(slots_view(r@) =~= slots_view(slots@));
    }
    r
}

/// A copy of the shapes of a node's slots where nothing may be known of them.
pub fn clone_shapes(shapes: &Option<Vec<Option<Vec<usize>>>>) -> (r: Option<
    Vec<Option<Vec<usize>>>,
>)
    ensures
        shapes_view(r) == shapes_view(*shapes),
{
    match shapes {
        Some(v) => Some(clone_slots(v)),
        None => None,
    }
}

/// The shape with one axis.
pub fn shape1(a: usize) -> (r: Vec<usize>)
    ensures
        r@ == seq![a],
{
    let mut r: Vec<usize> = Vec::new();
    r.push(a);
    assert(r@ =~= seq![a]);
    r
}

/// The shape with two axes.
pub fn shape2(a: usize, b: usize) -> (r: Vec<usize>)
    ensures
        r@ == seq![a, b],
{
    let mut r: Vec<usize> = Vec::new();
    r.push(a);
    r.push(b);
    assert(r@ =~= seq![a, b]);
    r
}

/// The shape with three axes.
pub fn shape3(a: usize, b: usize, c: usize) -> (r: Vec<usize>)
    ensures
        r@ == seq![a, b, c],
{
    let mut r: Vec<usize> = Vec::new();
    r.push(a);
    r.push(b);
    r.push(c);
    assert(r@ =~= seq![a, b, c]);
    r
}

/// The shape with four axes.
pub fn shape4(a: usize, b: usize, c: usize, d: usize) -> (r: Vec<usize>)
    ensures
        r@ == seq![a, b, c, d],
{
    let mut r: Vec<usize> = Vec::new();
    r.push(a);
    r.push(b);
    r.push(c);
    r.push(d);
    assert(r@ =~= seq![a, b, c, d]);
    r
}

/// The number of elements of a tensor of the given shape.
pub open spec fn product(dims: Seq<usize>) -> nat
    decreases dims.len(),
{
    if dims.len() == 0 {
        1
    } else {
        product(dims.drop_last()) * dims.last() as nat
    }
}

/// A shape with an axis of length zero has no elements.
pub proof fn lemma_product_zero(dims: Seq<usize>, at: int)
    requires
        0 <= at < dims.len(),
        dims[at] == 0,
    ensures
        product(dims) == 0,
    decreases dims.len(),
{
    if at == dims.len() - 1 {
        assert(product(dims.drop_last()) * 0 == 0) by (nonlinear_arith);
    } else {
        lemma_product_zero(dims.drop_last(), at);
        assert(0 * dims.last() as nat == 0) by (nonlinear_arith);
    }
}

/// Where no axis has length zero, a leading part of a shape has no more
/// elements than the whole.
pub proof fn lemma_product_grows(dims: Seq<usize>, upto: int)
    requires
        0 <= upto <= dims.len(),
        forall|i: int| 0 <= i < dims.len() ==> dims[i] > 0,
    ensures
        1 <= product(dims.take(upto)) <= product(dims),
    decreases dims.len() - upto,
{
    if upto == dims.len() {
        assert(dims.take(upto) =~= dims);
        lemma_product_positive(dims);
    } else {
        lemma_product_grows(dims, upto + 1);
        assert(dims.take(upto + 1).drop_last() =~= dims.take(upto));
        let p = product(dims.take(upto));
        let d = dims[upto] as nat;
        lemma_product_positive(dims.take(upto));
        assert(p <= p * d) by (nonlinear_arith)
            requires
                d >= 1,
        ;
    }
}

/// A shape without an axis of length zero has at least one element.
pub proof fn lemma_product_positive(dims: Seq<usize>)
    requires
        forall|i: int| 0 <= i < dims.len() ==> dims[i] > 0,
    ensures
        product(dims) >= 1,
    decreases dims.len(),
{
    if dims.len() > 0 {
        lemma_product_positive(dims.drop_last());
        let p = product(dims.drop_last());
        let d = dims.last() as nat;
        assert(p * d >= 1) by (nonlinear_arith)
            requires
                p >= 1,
                d >= 1,
        ;
    }
}

/// The number of elements of a tensor of the given shape, where it fits the
/// machine.
pub fn checked_product(dims: &Vec<usize>) -> (r: Option<usize>)
    ensures
        match r {
            Some(p) => p == product(dims@),
            None => product(dims@) > usize::MAX,
        },
{
    let n: usize = dims.len();
    let mut z: usize = 0;
    while z < n
        invariant
            z <= n,
            n == dims@.len(),
            forall|i: int| 0 <= i < z ==> dims@[i] > 0,
        decreases n - z,
    {
        if dims[z] == 0 {
            proof {
                lemma_product_zero(dims@, z as int);
            }
            return Some(0);
        }
        z = z + 1;
    }
    let mut p: usize = 1;
    let mut i: usize = 0;
    while i < n
        invariant
            i <= n,
            n == dims@.len(),
            forall|j: int| 0 <= j < n ==> dims@[j] > 0,
            p == product(dims@.take(i as int)),
        decreases n - i,
    {
        proof {
            assert(dims@.take(i + 1).drop_last() =~= dims@.take(i as int));
            lemma_product_grows(dims@, i + 1);
        }
        match p.checked_mul(dims[i]) {
            Some(q) => {
                p = q;
            },
            None => {
                return None;
            },
        }
        i = i + 1;
    }
    proof {
        assert(dims@.take(n as int) =~= dims@);
    }
    Some(p)
}

} // verus!
