//! Output values of the native engine and the shapes that describe them.

pub mod dimension;
pub mod ort_output_tensor;
pub mod shape;

pub use ort_output_tensor::{DataRegion, OrtOutputTensor, OrtOwnedTensorExtractor, WithOutputTensor};
