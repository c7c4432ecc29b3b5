//! Tensors whose memory is owned by the native engine.
//!
//! An inference call hands back one native value per output. The value is
//! checked once, read through views that alias the memory of the engine, and
//! given back once. The functions here decide what each answer of the engine
//! means; the native calls themselves, and the views over raw memory, are made
//! by the caller.

use vstd::prelude::*;
use crate::error::{DataAccessCause, OrtApiError, OrtError};
use crate::tensor::shape::{element_count, shape_product};

verus! {

/// What an output tensor is, apart from the memory it refers to.
pub struct OutputTensorView {
    /// Address of the native value, null once the value was given back.
    pub tensor_ptr: usize,
    /// Size of each dimension, outermost first.
    pub shape: Seq<usize>,
}

/// A native value that came out of an inference call and was not checked
/// yet.
#[derive(Debug)]
pub struct OrtOwnedTensorExtractor {
    /// Address of the native value, null until the inference call wrote it.
    pub tensor_ptr: usize,
    /// Size of each dimension, outermost first.
    pub shape: Vec<usize>,
}

/// What the answer of the native "is this a tensor" query means for the
/// value at `tensor_ptr`: `status` is what the query returned and `is_tensor`
/// the flag it wrote, which is 1 for a tensor.
pub open spec fn validation(
    tensor_ptr: usize,
    shape: Seq<usize>,
    status: Result<(), OrtApiError>,
    is_tensor: i32,
) -> Result<OutputTensorView, OrtError> {
    match status {
        Err(error) => Err(OrtError::IsTensor(error)),
        Ok(_) => if is_tensor == 1 {
            Ok(OutputTensorView { tensor_ptr, shape })
        } else {
            Err(OrtError::IsTensorCheck)
        },
    }
}

/// Validation is repeatable: two checks of the same native value with the
/// same shape, answered alike by the engine, end alike. A check that
/// succeeds yields a tensor with the address and shape that went in, so that
/// checking the tensor it yields changes nothing either.
pub proof fn lemma_validation_repeats(
    first: OrtOwnedTensorExtractor,
    second: OrtOwnedTensorExtractor,
    status: Result<(), OrtApiError>,
    is_tensor: i32,
)
    requires
        first.tensor_ptr == second.tensor_ptr,
        first.shape@ == second.shape@,
    ensures
        validation(first.tensor_ptr, first.shape@, status, is_tensor) == validation(
            second.tensor_ptr,
            second.shape@,
            status,
            is_tensor,
        ),
        match validation(first.tensor_ptr, first.shape@, status, is_tensor) {
            Ok(tensor) => tensor.tensor_ptr == first.tensor_ptr && tensor.shape == first.shape@
                && validation(tensor.tensor_ptr, tensor.shape, status, is_tensor) == Ok::<
                _,
                OrtError,
            >(tensor),
            Err(_) => true,
        },
{
}

impl OrtOwnedTensorExtractor {
    /// An extractor for a value of the given shape, whose address is still
    /// to be written.
    pub fn new(shape: Vec<usize>) -> (extractor: OrtOwnedTensorExtractor)
        ensures
            extractor.tensor_ptr == 0,
            extractor.shape == shape,
    {
        OrtOwnedTensorExtractor { tensor_ptr: 0, shape }
    }

    /// Turns the value into an output tensor if the engine confirms that it
    /// is one. `status` is what the native "is this a tensor" query returned
    /// and `is_tensor` the flag it wrote.
    ///
    /// Nothing is copied: the tensor refers to the same native value.
    /// The address must have been written: it is not null.
    pub fn extract(self, status: Result<(), OrtApiError>, is_tensor: i32) -> (result: Result<
        OrtOutputTensor,
        OrtError,
    >)
        requires
            self.tensor_ptr != 0,
        ensures
            match result {
                Ok(tensor) => Ok::<_, OrtError>(tensor@) == validation(
                    self.tensor_ptr,
                    self.shape@,
                    status,
                    is_tensor,
                ),
                Err(error) => Err::<OutputTensorView, _>(error) == validation(
                    self.tensor_ptr,
                    self.shape@,
                    status,
                    is_tensor,
                ),
            },
    {
        match status {
            Err(error) => Err(OrtError::IsTensor(error)),
            Ok(_) => {
                if is_tensor == 1 {
                    Ok(OrtOutputTensor { tensor_ptr: self.tensor_ptr, shape: self.shape })
                } else {
                    Err(OrtError::IsTensorCheck)
                }
            },
        }
    }
}

/// A tensor whose data is owned by the native engine.
///
/// It is made by [`OrtOwnedTensorExtractor::extract`] only. After
/// [`OrtOutputTensor::release`] it is inert: it refers to no native value and
/// every access to its data fails.
#[derive(Debug)]
pub struct OrtOutputTensor {
    tensor_ptr: usize,
    shape: Vec<usize>,
}

impl View for OrtOutputTensor {
    type V = OutputTensorView;

    closed spec fn view(&self) -> OutputTensorView {
        OutputTensorView { tensor_ptr: self.tensor_ptr, shape: self.shape@ }
    }
}

/// The part of native memory that holds the elements of a tensor: `len`
/// elements from the address `data_ptr` on.
#[derive(Debug, Clone, Copy, PartialEq, Eq, Structural)]
pub struct DataRegion {
    pub data_ptr: usize,
    pub len: usize,
}

impl OutputTensorView {
    /// The native value was not given back yet.
    pub open spec fn is_live(self) -> bool {
        self.tensor_ptr != 0
    }

    /// What the answer of the native "get the data" call means for this
    /// tensor: `status` is what the call returned and `data_ptr` the address
    /// it wrote. The result is the address and the number of elements.
    pub open spec fn data_access(self, status: Result<(), OrtApiError>, data_ptr: usize) -> Result<
        (usize, nat),
        OrtError,
    > {
        if !self.is_live() {
            Err(OrtError::DataAccess(DataAccessCause::Released))
        } else {
            match status {
                Err(error) => Err(OrtError::DataAccess(DataAccessCause::Native(error))),
                Ok(_) => if data_ptr == 0 {
                    Err(OrtError::DataAccess(DataAccessCause::NullData))
                } else {
                    Ok((data_ptr, shape_product(self.shape)))
                },
            }
        }
    }
}

impl OrtOutputTensor {
    /// Address of the native value, null once it was given back.
    pub fn tensor_ptr(&self) -> (tensor_ptr: usize)
        ensures
            tensor_ptr == self@.tensor_ptr,
    {
        self.tensor_ptr
    }

    /// Size of each dimension, outermost first.
    pub fn shape(&self) -> (shape: &Vec<usize>)
        ensures
            shape@ == self@.shape,
    {
        &self.shape
    }

    /// Whether the native value was given back.
    pub fn is_released(&self) -> (released: bool)
        ensures
            released == !self@.is_live(),
    {
        self.tensor_ptr == 0
    }

    /// Says where the elements of the tensor lie, from the answer of the
    /// native "get the data" call: `status` is what the call returned and
    /// `data_ptr` the address it wrote.
    ///
    /// The region has as many elements as the shape says: the product of
    /// its dimensions, 1 for a scalar. That number must fit in a `usize`.
    pub fn data_region(&self, status: Result<(), OrtApiError>, data_ptr: usize) -> (result: Result<
        DataRegion,
        OrtError,
    >)
        requires
            shape_product(self@.shape) <= usize::MAX,
        ensures
            match result {
                Ok(region) => Ok::<_, OrtError>((region.data_ptr, region.len as nat))
                    == self@.data_access(status, data_ptr),
                Err(error) => Err::<(usize, nat), _>(error) == self@.data_access(status, data_ptr),
            },
    {
        if self.tensor_ptr == 0 {
            return Err(OrtError::DataAccess(DataAccessCause::Released));
        }
        match status {
            Err(error) => Err(OrtError::DataAccess(DataAccessCause::Native(error))),
            Ok(_) => {
                if data_ptr == 0 {
                    Err(OrtError::DataAccess(DataAccessCause::NullData))
                } else {
                    match element_count(&self.shape) {
                        Some(len) => Ok(DataRegion { data_ptr, len }),
                        None => vstd::pervasive::unreached(),
                    }
                }
            },
        }
    }

    /// Gives the native value back.
    ///
    /// The first call returns the address that has to be handed to the
    /// native release call, and leaves the tensor inert. Every later call
    /// returns `None`: the value is released once.
    pub fn release(&mut self) -> (released: Option<usize>)
        ensures
            !final(self)@.is_live(),
            final(self)@.shape == old(self)@.shape,
            released == if old(self)@.is_live() {
                Some(old(self)@.tensor_ptr)
            } else {
                None
            },
    {
        if self.tensor_ptr == 0 {
            None
        } else {
            let tensor_ptr = self.tensor_ptr;
            self.tensor_ptr = 0;
            Some(tensor_ptr)
        }
    }
}

/// Once a tensor was given back, its data cannot be reached: whatever the
/// engine answers, the access fails, and giving it back again releases
/// nothing.
pub proof fn lemma_released_is_inert(
    tensor: OutputTensorView,
    status: Result<(), OrtApiError>,
    data_ptr: usize,
)
    requires
        !tensor.is_live(),
    ensures
        tensor.data_access(status, data_ptr) == Err::<(usize, nat), _>(
            OrtError::DataAccess(DataAccessCause::Released),
        ),
{
}

/// An output tensor together with a view of its elements.
///
/// The view aliases memory of the engine, so it is reachable only through
/// the wrapper, and the tensor of a wrapper is never released: to give the
/// native value back, take the wrapper apart with
/// [`WithOutputTensor::into_tensor`], which ends the view.
#[derive(Debug)]
pub struct WithOutputTensor<T> {
    tensor: OrtOutputTensor,
    item: T,
}

impl<T> WithOutputTensor<T> {
    /// The tensor of a wrapper is live.
    #[verifier::type_invariant]
    spec fn live(&self) -> bool {
        self.tensor@.is_live()
    }

    /// The tensor that the view belongs to.
    pub closed spec fn tensor_view(&self) -> OutputTensorView {
        self.tensor@
    }

    /// The view.
    pub closed spec fn item_view(&self) -> T {
        self.item
    }

    /// Joins a tensor and a view of its elements. A tensor that was given
    /// back has no elements to view.
    pub fn new(tensor: OrtOutputTensor, item: T) -> (result: Result<WithOutputTensor<T>, OrtError>)
        ensures
            match result {
                Ok(with) => tensor@.is_live() && with.tensor_view() == tensor@ && with.item_view()
                    == item,
                Err(error) => !tensor@.is_live() && error == OrtError::DataAccess(
                    DataAccessCause::Released,
                ),
            },
    {
        if tensor.is_released() {
            Err(OrtError::DataAccess(DataAccessCause::Released))
        } else {
            Ok(WithOutputTensor { tensor, item })
        }
    }

    /// The tensor that the view belongs to. It is live.
    pub fn tensor(&self) -> (tensor: &OrtOutputTensor)
        ensures
            tensor@ == self.tensor_view(),
            tensor@.is_live(),
    {
        proof {
            use_type_invariant(self);
        }
        &self.tensor
    }

    /// Ends the view and hands out the tensor, which is live and can then be
    /// released.
    pub fn into_tensor(self) -> (tensor: OrtOutputTensor)
        ensures
            tensor@ == self.tensor_view(),
            tensor@.is_live(),
    {
        proof {
            use_type_invariant(&self);
        }
        self.tensor
    }
}

impl<T> std::ops::Deref for WithOutputTensor<T> {
    type Target = T;

    fn deref(&self) -> (item: &T)
        ensures
            *item == self.item_view(),
    {
        &self.item
    }
}

} // verus!
