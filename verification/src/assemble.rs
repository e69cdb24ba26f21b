//! Handing a decoded capture out as the outside image type.
//!
//! The canonical buffer is the verified artifact; the outside image crate
//! only re-wraps it, and its constructor is the one trusted call here.
//! The wrapped image is opaque to the proofs, so what it holds is spoken
//! of through the two names below.

use vstd::prelude::*;

use crate::capture::{image_wf, CanonicalImage};
use crate::error::CaptureError;

verus! {

/// A finished capture as the outside image type, ready for encoding or
/// saving by the embedding program.
#[verifier::external_body]
pub struct RgbaOutput {
    /// The wrapped image value of the outside crate.
    pub inner: image::RgbaImage,
}

/// The raw bytes the wrapped image holds.
pub uninterp spec fn rgba_bytes(img: RgbaOutput) -> Seq<u8>;

/// The dimensions the wrapped image reports.
pub uninterp spec fn rgba_dims(img: RgbaOutput) -> (u32, u32);

/// Relies on image::ImageBuffer::from_raw: it returns Some exactly when
/// the container holds at least 4 bytes (one per RGBA channel) for each of
/// the width times height pixels, that byte count being computed without
/// overflowing the machine word; the container is stored unchanged.
#[verifier::external_body]
fn rgba_from_raw(width: u32, height: u32, data: Vec<u8>) -> (r: Option<RgbaOutput>)
    ensures
        r is Some <==> 4 * (width as int) * (height as int) <= data@.len(),
        r matches Some(img) ==> rgba_bytes(img) == data@ && rgba_dims(img) == (width, height),
{
    match image::RgbaImage::from_raw(width, height, data) {
        Some(inner) => Some(RgbaOutput { inner }),
        None => None,
    }
}

/// Re-wrap a canonical image as the outside image type; a well-formed
/// canonical image always fits, and its bytes are carried unchanged.
pub fn to_rgba_image(img: CanonicalImage) -> (r: Result<RgbaOutput, CaptureError>)
    requires
        image_wf(img),
    ensures
        r matches Ok(out) && rgba_bytes(out) == img.data@ && rgba_dims(out) == (
            img.width,
            img.height,
        ),
{
    proof {
        assert(4 * (img.width as int) * (img.height as int) == (img.width as int) * (
        img.height as int) * 4) by (nonlinear_arith);
    }
    match rgba_from_raw(img.width, img.height, img.data) {
        Some(out) => Ok(out),
        None => Err(CaptureError::ImageAssemblyFailure),
    }
}

} // verus!
