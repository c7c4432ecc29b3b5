//! Failures reported by the native engine, sorted into a fixed set of kinds.

use vstd::prelude::*;

verus! {

/// What the native engine said when a call into it did not succeed.
#[derive(Debug, PartialEq, Eq)]
pub struct OrtApiError {
    pub message: String,
}

/// Why the elements of an output value could not be reached.
#[derive(Debug, PartialEq, Eq)]
pub enum DataAccessCause {
    /// The native call that fetches the data address reported a failure.
    Native(OrtApiError),
    /// The native call succeeded but handed back a null data address.
    NullData,
    /// The value was already given back to the engine.
    Released,
}

/// Every failure this crate reports. None of them is transient, so nothing
/// is retried.
#[derive(Debug, PartialEq, Eq)]
pub enum OrtError {
    /// The native engine could not create the environment.
    Environment(OrtApiError),
    /// The native query whether a value is a tensor failed.
    IsTensor(OrtApiError),
    /// The native query succeeded and said the value is no tensor.
    IsTensorCheck,
    /// The elements of an output value could not be reached.
    DataAccess(DataAccessCause),
}

} // verus!
