//! Ownership and lifetime rules for the handles of a native inference engine.
//!
//! The engine hands out opaque addresses: one environment per process, and one
//! value per inference output. This crate holds the decisions that keep those
//! handles sound. It never dereferences an address itself: the caller performs
//! each native call and reports what came back, and the functions here say
//! what happens next.

use vstd::prelude::*;

pub mod environment;
pub mod error;
pub mod lifecycle;
pub mod tensor;

pub use error::{OrtApiError, OrtError};

verus! {

/// Severity threshold handed to the native engine when the environment is
/// created.
#[derive(Debug, Clone, Copy, PartialEq, Eq, Structural)]
pub enum LoggingLevel {
    Verbose,
    Info,
    Warning,
    Error,
    Fatal,
}

} // verus!
