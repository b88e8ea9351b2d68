//! Verified core of a handwritten-digit classification service.
//!
//! The pipeline accepts a base64-encoded raster image, normalizes it into a
//! fixed 28x28 grayscale grid, runs it through a pre-trained model, and
//! selects the highest-scoring class. This crate holds the verified parts:
//! request decoding and normalization, prediction selection, and the error
//! taxonomy. The model runtime itself (loading and executing the saved
//! model) lives outside, in the unverified serving binary.

pub mod errors;
pub mod image_input;
pub mod pipeline;
pub mod selector;
