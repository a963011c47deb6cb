//! The unified failure taxonomy of the crate.
//!
//! Failures coming from outside collaborators (the inference runtime, image
//! codecs, the operating system) are carried as plain messages; the
//! model-specific failures keep their own structured variant.

use vstd::prelude::*;

use crate::models::ModelError;

verus! {

/// Result type alias for operations that may fail with [`BgrError`].
pub type BgrResult<T> = Result<T, BgrError>;

/// Error types that can occur during background removal operations.
///
/// This enum covers errors from model inference, image handling, mask
/// processing, and vectorization operations.
#[derive(Debug)]
pub enum BgrError {
    /// Inference runtime error, carried as its rendered message.
    Ort(String),
    /// Image loading, decoding, or encoding error, carried as its rendered
    /// message.
    Image(String),
    /// File system I/O error, carried as its rendered message.
    Io(String),
    /// Tensor shape mismatch or invalid dimensions, carried as its rendered
    /// message.
    Shape(String),
    /// Vectorization or tracing operation failed.
    Trace(String),
    /// Alpha matte dimensions do not match the source image.
    AlphaMismatch { expected: (u32, u32), found: (u32, u32) },
    /// Model-related error (not found, download failed, etc.)
    Model(ModelError),
}

impl From<ModelError> for BgrError {
    fn from(e: ModelError) -> (r: BgrError) {
        BgrError::Model(e)
    }
}

impl vstd::std_specs::convert::FromSpecImpl<ModelError> for BgrError {
    open spec fn obeys_from_spec() -> bool {
        true
    }

    open spec fn from_spec(e: ModelError) -> BgrError {
        BgrError::Model(e)
    }
}

} // verus!
