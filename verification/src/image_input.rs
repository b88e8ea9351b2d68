//! Image normalization: from an encoded raster image to the fixed-size
//! grayscale grid the model consumes.
//!
//! The model expects 28x28 = 784 grayscale samples in row-major order, each
//! scaled to [0,1] by dividing by 255. The integer part of that work — which
//! bytes make up the grid, and that there are exactly 784 of them — is
//! verified here; a [`MnistInput`] holds the raw 8-bit samples, and the
//! divide-by-255 scaling is applied at the numeric boundary by the caller
//! that feeds the model (sample/255 lies in [0,1] since every sample is at
//! most 255).

use vstd::prelude::*;

use crate::errors::MnistError;

verus! {

/// The grayscale samples that decoding `bytes` as a raster image, resizing it
/// to `w` x `h` with nearest-neighbor interpolation, and converting it to
/// 8-bit single-channel grayscale yields, in row-major order; `None` when
/// `bytes` is not a recognized, well-formed image, or when the image it
/// decodes to has a zero dimension (such a degenerate image holds no samples
/// to resize from). A pure function of its arguments: the same bytes always
/// decode to the same grid.
pub uninterp spec fn gray_samples(bytes: Seq<u8>, w: u32, h: u32) -> Option<Seq<u8>>;

/// Relies on image::load_from_memory, DynamicImage::resize_exact (with the
/// nearest-neighbor filter), DynamicImage::to_luma8 and ImageBuffer::into_raw:
/// decoding is a pure function of the input bytes, failing exactly on input
/// that is not a recognized, well-formed image; an empty buffer matches no
/// format and always fails; resizing and grayscale conversion are total on a
/// decoded image of nonzero dimensions (a decoded image with a zero
/// dimension is rejected here, as resampling from it has no source pixels),
/// and the 8-bit single-channel buffer holds one byte per pixel.
#[verifier::external_body]
fn decode_gray(bytes: &Vec<u8>, w: u32, h: u32) -> (r: Result<Vec<u8>, String>)
    requires
        w >= 1,
        h >= 1,
    ensures
        r matches Ok(v) ==> gray_samples(bytes@, w, h) == Some(v@),
        r is Ok <==> gray_samples(bytes@, w, h) is Some,
        r matches Ok(v) ==> v@.len() == w as int * h as int,
        bytes@.len() == 0 ==> r is Err,
{
    match image::load_from_memory(bytes.as_slice()) {
        Ok(im) => {
            if image::GenericImageView::width(&im) == 0
                || image::GenericImageView::height(&im) == 0
            {
                Err("image has a zero dimension".to_string())
            } else {
                Ok(im.resize_exact(w, h, image::imageops::FilterType::Nearest)
                    .to_luma8()
                    .into_raw())
            }
        },
        Err(e) => Err(format!("{}", e)),
    }
}

/// A normalized model input: exactly 784 grayscale samples (28x28, row-major).
/// Immutable once constructed; the view is the sample sequence.
#[derive(Debug)]
pub struct MnistInput {
    samples: Vec<u8>,
}

impl View for MnistInput {
    type V = Seq<u8>;

    closed spec fn view(&self) -> Seq<u8> {
        self.samples@
    }
}

impl MnistInput {
    /// Well-formedness: the grid has exactly 28 x 28 samples.
    pub open spec fn wf(&self) -> bool {
        self@.len() == 784
    }

    /// Borrow the samples, for the caller that scales them to [0,1] and
    /// feeds the model.
    pub fn samples(&self) -> (s: &Vec<u8>)
        ensures
            s@ == self@,
    {
        &self.samples
    }

    /// Decode an encoded raster image into the normalized 28x28 grayscale
    /// grid. Succeeds exactly when the bytes decode as a recognized,
    /// well-formed image of nonzero dimensions — resizing and grayscale
    /// conversion are total on such an image, whatever its depth or channels
    /// — and every failure is a `DecodeError`.
    pub fn from_image_bytes(bytes: Vec<u8>) -> (r: Result<MnistInput, MnistError>)
        ensures
            r matches Ok(inp) ==> {
                &&& gray_samples(bytes@, 28, 28) matches Some(s) && inp@ == s
                &&& inp.wf()
            },
            r is Ok <==> gray_samples(bytes@, 28, 28) is Some,
            r matches Err(e) ==> e is DecodeError,
            bytes@.len() == 0 ==> r is Err,
    {
        match decode_gray(&bytes, 28, 28) {
            Ok(samples) => Ok(MnistInput { samples }),
            Err(m) => Err(MnistError::DecodeError(m)),
        }
    }
}

} // verus!
