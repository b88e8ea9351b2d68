//! Request coordination: the verified halves of `classify`.
//!
//! One classification request runs base64 decoding, image normalization, one
//! inference pass on the shared model, and prediction selection. The
//! inference pass itself is the model runtime's work and happens outside this
//! crate; everything around it is here. [`prepare_input`] takes the request
//! payload to a normalized model input, and [`crate::selector::select`]
//! takes the score bits the runtime handed back to the selected class. Both
//! are pure functions of their arguments, so concurrent requests cannot
//! contaminate one another through this crate: each caller's result is fixed
//! by its own input alone. Serializing access to the shared model handle is
//! the unverified serving binary's duty.

use vstd::prelude::*;

use crate::errors::MnistError;
use crate::image_input::gray_samples;
use crate::image_input::MnistInput;

verus! {

/// The bytes that standard-alphabet base64 decoding of `s` yields; `None`
/// when `s` is not valid base64. A pure function of the input string.
pub uninterp spec fn b64_decoded(s: Seq<char>) -> Option<Seq<u8>>;

/// Relies on base64::decode: standard-alphabet decoding (padding accepted,
/// and a final chunk of two or three symbols may also stand unpadded), a
/// pure function of the input that fails exactly on input that is not valid
/// base64; the empty string is valid and decodes to no bytes.
#[verifier::external_body]
fn decode_base64(s: &String) -> (r: Result<Vec<u8>, String>)
    ensures
        r matches Ok(v) ==> b64_decoded(s@) == Some(v@),
        r is Ok <==> b64_decoded(s@) is Some,
        s@.len() == 0 ==> r is Ok,
        s@.len() == 0 ==> (r matches Ok(v) ==> v@.len() == 0),
{
    match base64::decode(s.as_str()) {
        Ok(v) => Ok(v),
        Err(e) => Err(format!("{}", e)),
    }
}

/// The normalized input that the request payload `s` stands for: its base64
/// decoding, decoded and normalized to the 28x28 grayscale grid; `None` when
/// either stage rejects it.
pub open spec fn pipeline_input(s: Seq<char>) -> Option<Seq<u8>> {
    match b64_decoded(s) {
        Some(bytes) => gray_samples(bytes, 28, 28),
        None => None,
    }
}

/// Decode a request payload — a base64-encoded raster image — into the
/// normalized model input. Succeeds exactly when the payload is valid base64
/// of a recognized image that normalizes to the 784-sample grid; every
/// failure is a `DecodeError`, the caller's fault. The empty payload decodes
/// to no image bytes and is always rejected.
pub fn prepare_input(image_b64: &String) -> (r: Result<MnistInput, MnistError>)
    ensures
        r matches Ok(inp) ==> pipeline_input(image_b64@) == Some(inp@) && inp.wf(),
        r is Ok <==> pipeline_input(image_b64@) is Some,
        r matches Err(e) ==> e is DecodeError,
        image_b64@.len() == 0 ==> r is Err,
{
    match decode_base64(image_b64) {
        Ok(bytes) => MnistInput::from_image_bytes(bytes),
        Err(m) => Err(MnistError::DecodeError(m)),
    }
}

} // verus!
