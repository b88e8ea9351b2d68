//! Error taxonomy of the classification pipeline.
//!
//! Each stage of the pipeline fails into exactly one category, and each
//! category maps to a distinct externally observable status: a malformed
//! request is the caller's fault, a failed inference pass is the server's,
//! and a model that cannot be loaded is fatal at startup (never produced
//! while serving requests).

use vstd::prelude::*;

verus! {

/// One failure category per pipeline stage.
#[derive(Debug)]
pub enum MnistError {
    /// The request payload is not valid base64, or the decoded bytes are not
    /// a recognized raster image convertible to the 28x28 grayscale grid.
    /// Recovered at the request boundary; the caller's fault.
    DecodeError(String),
    /// The model directory is missing or malformed, or its serving signature
    /// lacks the expected input/output tensors. Fatal at startup.
    ModelLoadError(String),
    /// The model runtime failed during one inference pass. Recovered at the
    /// request boundary; the server's fault.
    InferenceError(String),
}

impl MnistError {
    /// The message carried by the error, whichever category it is.
    pub closed spec fn message_view(&self) -> Seq<char> {
        match self {
            MnistError::DecodeError(m) => m@,
            MnistError::ModelLoadError(m) => m@,
            MnistError::InferenceError(m) => m@,
        }
    }

    /// Borrow the human-readable message.
    pub fn message(&self) -> (m: &String)
        ensures
            m@ == self.message_view(),
    {
        match self {
            MnistError::DecodeError(m) => m,
            MnistError::ModelLoadError(m) => m,
            MnistError::InferenceError(m) => m,
        }
    }

    /// The HTTP status this category surfaces as: a decode failure is a
    /// client error, everything else a server error.
    pub fn status_code(&self) -> (s: u16)
        ensures
            self is DecodeError ==> s == 400,
            !(self is DecodeError) ==> s == 500,
    {
        match self {
            MnistError::DecodeError(_) => 400,
            MnistError::ModelLoadError(_) => 500,
            MnistError::InferenceError(_) => 500,
        }
    }
}

} // verus!
