//! Decisions of the overlay interface: what a reply of the runtime means
//! for the caller, and how large the buffers of an image are.

use vstd::prelude::*;
use crate::enums::{OverlayError, OVERLAY_ERROR_ARRAY_TOO_SMALL, OVERLAY_ERROR_NONE};
use crate::reply::{keep_reported, kept};

verus! {

/// Pixels of an overlay as the runtime hands them out: `width * height`
/// texels of four bytes each.
pub struct OverlayImageData {
    pub width: u32,
    pub height: u32,
    pub data: Vec<u8>,
}

/// What the sizing request of an overlay image asks the caller to do next.
#[derive(Copy, Clone, PartialEq, Eq, Debug, Structural)]
pub enum ImageProbe {
    /// The request succeeded without a buffer: the image has no bytes.
    Done,
    /// The request ends with this error.
    Fail(OverlayError),
    /// Fetch the pixels into a buffer of this many bytes.
    Fetch(u32),
}

/// Bytes per texel of an overlay image.
pub const IMAGE_BYTES_PER_TEXEL: u32 = 4;

/// What an overlay status code means: success is the code for "no error",
/// every other code is the error itself.
pub open spec fn status(err: u32) -> Result<(), OverlayError> {
    if err == OVERLAY_ERROR_NONE {
        Ok(())
    } else {
        Err(OverlayError(err))
    }
}

/// Byte size of an image of `width` by `height` texels, as a mathematical
/// integer.
pub open spec fn image_bytes(width: u32, height: u32) -> int {
    width as int * height as int * IMAGE_BYTES_PER_TEXEL as int
}

/// What the sizing request means. The request is made without a buffer. On
/// success there is nothing to fetch. On "array too small" the reported
/// dimensions give the size of the buffer to fetch into; where a 32-bit count
/// cannot name that size, no array that can be offered is large enough, and
/// "array too small" stays the error. Every other code is the error.
pub open spec fn probe_outcome(err: u32, width: u32, height: u32) -> ImageProbe {
    if err == OVERLAY_ERROR_NONE {
        ImageProbe::Done
    } else if err != OVERLAY_ERROR_ARRAY_TOO_SMALL {
        ImageProbe::Fail(OverlayError(err))
    } else if image_bytes(width, height) > u32::MAX as int {
        ImageProbe::Fail(OverlayError(OVERLAY_ERROR_ARRAY_TOO_SMALL))
    } else {
        ImageProbe::Fetch(image_bytes(width, height) as u32)
    }
}

/// Byte size of raw pixels of `width` by `height` texels of `depth` bytes
/// each, where the machine can count that far: both the texel count and the
/// byte count have to fit.
pub open spec fn raw_image_bytes(width: u32, height: u32, depth: u32) -> Option<usize> {
    let texels = width as int * height as int;
    let bytes = texels * depth as int;
    if texels <= usize::MAX as int && bytes <= usize::MAX as int {
        Some(bytes as usize)
    } else {
        None
    }
}

/// Result of an overlay request from its status code.
pub fn mk_err(err: u32) -> (r: Result<(), OverlayError>)
    ensures
        r == status(err),
{
    if err == OVERLAY_ERROR_NONE {
        Ok(())
    } else {
        Err(OverlayError::from_raw(err))
    }
}

/// Byte size of the buffer that holds an image of `width` by `height`
/// texels, or `None` where a 32-bit count cannot name it.
pub fn image_byte_len(width: u32, height: u32) -> (r: Option<u32>)
    ensures
        r == if image_bytes(width, height) <= u32::MAX as int {
            Some(image_bytes(width, height) as u32)
        } else {
            None
        },
{
    match width.checked_mul(height) {
        Some(texels) => {
            assert(texels as int * 4 == image_bytes(width, height));
            texels.checked_mul(IMAGE_BYTES_PER_TEXEL)
        },
        None => {
            assert(image_bytes(width, height) > u32::MAX as int) by (nonlinear_arith)
                requires
                    width as int * height as int > u32::MAX as int,
                    image_bytes(width, height) == width as int * height as int * 4,
            ;
            None
        },
    }
}

/// Decides on the reply to the sizing request of an overlay image.
pub fn image_probe(err: u32, width: u32, height: u32) -> (r: ImageProbe)
    ensures
        r == probe_outcome(err, width, height),
{
    if err == OVERLAY_ERROR_NONE {
        ImageProbe::Done
    } else if err != OVERLAY_ERROR_ARRAY_TOO_SMALL {
        ImageProbe::Fail(OverlayError::from_raw(err))
    } else {
        match image_byte_len(width, height) {
            Some(len) => ImageProbe::Fetch(len),
            None => ImageProbe::Fail(OverlayError::from_raw(OVERLAY_ERROR_ARRAY_TOO_SMALL)),
        }
    }
}

/// Builds the image from the reply to the fetching request: the pixels with
/// the dimensions that the runtime reported, or the error it raised.
pub fn image_result(err: u32, width: u32, height: u32, data: Vec<u8>) -> (r: Result<
    OverlayImageData,
    OverlayError,
>)
    ensures
        err == OVERLAY_ERROR_NONE ==> r == Ok::<OverlayImageData, OverlayError>(
            (OverlayImageData { width, height, data }),
        ),
        err != OVERLAY_ERROR_NONE ==> r == Err::<OverlayImageData, OverlayError>(
            OverlayError(err),
        ),
{
    match mk_err(err) {
        Ok(_) => Ok(OverlayImageData { width, height, data }),
        Err(e) => Err(e),
    }
}

/// The text from the reply to a request for an overlay's key or name: the
/// error where the runtime raised one, else the bytes of the buffer that it
/// reported to have written.
pub fn text_reply(err: u32, reported: u32, buffer: Vec<u8>) -> (r: Result<Vec<u8>, OverlayError>)
    ensures
        err != OVERLAY_ERROR_NONE ==> r == Err::<Vec<u8>, OverlayError>(OverlayError(err)),
        err == OVERLAY_ERROR_NONE ==> r.is_ok() && r.unwrap()@ == kept(buffer@, reported as int),
{
    match mk_err(err) {
        Ok(_) => {
            let mut text = buffer;
            keep_reported(&mut text, reported);
            Ok(text)
        },
        Err(e) => Err(e),
    }
}

/// Byte size of raw pixels of the given dimensions, or nothing where the
/// machine cannot count that far.
pub fn raw_image_len(width: u32, height: u32, depth_in_bytes: u32) -> (r: Option<usize>)
    ensures
        r == raw_image_bytes(width, height, depth_in_bytes),
{
    match (width as usize).checked_mul(height as usize) {
        Some(texels) => texels.checked_mul(depth_in_bytes as usize),
        None => None,
    }
}

/// Whether a buffer of `buffer_len` bytes holds exactly the raw pixels of the
/// given dimensions.
pub fn raw_image_fits(buffer_len: usize, width: u32, height: u32, depth_in_bytes: u32) -> (fits:
    bool)
    ensures
        fits == (raw_image_bytes(width, height, depth_in_bytes) == Some(buffer_len)),
{
    match raw_image_len(width, height, depth_in_bytes) {
        Some(len) => len == buffer_len,
        None => false,
    }
}

/// A time-out in milliseconds as the 32-bit count that the runtime takes:
/// what does not fit becomes the largest count.
pub fn saturating_millis(millis: u128) -> (r: u32)
    ensures
        r as int == if millis <= u32::MAX as u128 {
            millis as int
        } else {
            u32::MAX as int
        },
{
    if millis <= 0xffff_ffffu128 {
        millis as u32
    } else {
        u32::MAX
    }
}

} // verus!
