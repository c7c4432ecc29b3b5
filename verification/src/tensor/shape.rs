//! Element counts of tensor shapes.

use vstd::prelude::*;

verus! {

/// Number of elements of a tensor with the given dimensions: their product,
/// which is 1 for the empty shape of a scalar.
pub open spec fn shape_product(shape: Seq<usize>) -> nat
    decreases shape.len(),
{
    if shape.len() == 0 {
        1
    } else {
        shape_product(shape.drop_last()) * (shape.last() as nat)
    }
}

/// A scalar, whose shape has no dimensions, holds exactly one element.
pub proof fn lemma_scalar_shape()
    ensures
        shape_product(Seq::<usize>::empty()) == 1,
{
}

/// Appending a dimension multiplies the element count by its size.
pub proof fn lemma_product_push(shape: Seq<usize>, dim: usize)
    ensures
        shape_product(shape.push(dim)) == shape_product(shape) * (dim as nat),
{
    assert(shape.push(dim).drop_last() =~= shape);
}

/// A shape with an empty dimension holds no elements.
pub proof fn lemma_product_zero(shape: Seq<usize>, at: int)
    requires
        0 <= at < shape.len(),
        shape[at] == 0,
    ensures
        shape_product(shape) == 0,
    decreases shape.len(),
{
    if at == shape.len() - 1 {
        assert(shape_product(shape.drop_last()) * 0 == 0) by (nonlinear_arith);
    } else {
        lemma_product_zero(shape.drop_last(), at);
        assert(0 * (shape.last() as nat) == 0) by (nonlinear_arith);
    }
}

/// Among shapes without an empty dimension, the element count never shrinks
/// when dimensions are appended.
pub proof fn lemma_product_grows(shape: Seq<usize>, upto: int)
    requires
        0 <= upto <= shape.len(),
        forall|k: int| 0 <= k < shape.len() ==> shape[k] != 0,
    ensures
        1 <= shape_product(shape.take(upto)) <= shape_product(shape),
    decreases shape.len() - upto,
{
    if upto == shape.len() {
        assert(shape.take(upto) =~= shape);
        lemma_product_positive(shape);
    } else {
        lemma_product_grows(shape, upto + 1);
        let longer = shape.take(upto + 1);
        assert(longer.drop_last() =~= shape.take(upto));
        assert(longer.last() == shape[upto]);
        lemma_product_positive(shape.take(upto));
        let p = shape_product(shape.take(upto));
        let d = shape[upto] as nat;
        assert(p <= p * d) by (nonlinear_arith)
            requires
                d >= 1,
        ;
    }
}

/// A shape without an empty dimension holds at least one element.
pub proof fn lemma_product_positive(shape: Seq<usize>)
    requires
        forall|k: int| 0 <= k < shape.len() ==> shape[k] != 0,
    ensures
        shape_product(shape) >= 1,
    decreases shape.len(),
{
    if shape.len() > 0 {
        lemma_product_positive(shape.drop_last());
        let p = shape_product(shape.drop_last());
        let d = shape.last() as nat;
        assert(p * d >= 1) by (nonlinear_arith)
            requires
                p >= 1,
                d >= 1,
        ;
    }
}

/// Computes the element count of `shape`, or reports that it does not fit in
/// a `usize`.
///
/// An empty dimension makes the count 0 whatever the other dimensions are, so
/// such a shape always fits.
pub fn element_count(shape: &Vec<usize>) -> (count: Option<usize>)
    ensures
        match count {
            Some(n) => n == shape_product(shape@),
            None => shape_product(shape@) > usize::MAX,
        },
{
    let mut i: usize = 0;
    while i < shape.len()
        invariant
            i <= shape.len(),
            forall|k: int| 0 <= k < i ==> shape@[k] != 0,
        decreases shape.len() - i,
    {
        if shape[i] == 0 {
            proof {
                lemma_product_zero(shape@, i as int);
            }
            return Some(0);
        }
        i += 1;
    }
    let mut count: usize = 1;
    let mut j: usize = 0;
    while j < shape.len()
        invariant
            j <= shape.len(),
            forall|k: int| 0 <= k < shape.len() ==> shape@[k] != 0,
            count == shape_product(shape@.take(j as int)),
        decreases shape.len() - j,
    {
        proof {
            lemma_product_push(shape@.take(j as int), shape@[j as int]);
            assert(shape@.take(j as int).push(shape@[j as int]) =~= shape@.take(j + 1));
        }
        match count.checked_mul(shape[j]) {
            Some(next) => {
                count = next;
            },
            None => {
                proof {
                    lemma_product_grows(shape@, j + 1);
                }
                return None;
            },
        }
        j += 1;
    }
    proof {
        assert(shape@.take(j as int) =~= shape@);
    }
    Some(count)
}

} // verus!
