//! Shapes in the form that `ndarray` takes them.

use vstd::prelude::*;
use ndarray::{Dim, IxDyn, IxDynImpl};
use crate::tensor::ort_output_tensor::OrtOutputTensor;

verus! {

/// `ndarray::Dim`, the dimension of an array: opaque here.
#[verifier::external_type_specification]
#[verifier::external_body]
#[verifier::reject_recursive_types(I)]
pub struct ExDim<I: ?Sized>(Dim<I>);

/// `ndarray::IxDynImpl`, the axis lengths inside a dynamic dimension: opaque
/// here.
#[verifier::external_type_specification]
#[verifier::external_body]
pub struct ExIxDynImpl(IxDynImpl);

/// The axis lengths that a dynamic dimension holds, outermost first.
pub uninterp spec fn dim_axes(dim: IxDyn) -> Seq<usize>;

/// `ndarray::IxDyn`, the function: builds a dynamic dimension with a copy of
/// the given axis lengths, in the given order.
#[verifier::external_body]
fn ix_dyn(shape: &Vec<usize>) -> (dim: IxDyn)
    ensures
        dim_axes(dim) == shape@,
{
    IxDyn(shape)
}

impl OrtOutputTensor {
    /// The shape of the tensor as the dimension of a multi-dimensional view.
    pub fn dimension(&self) -> (dim: IxDyn)
        ensures
            dim_axes(dim) == self@.shape,
    {
        ix_dyn(self.shape())
    }
}

} // verus!
