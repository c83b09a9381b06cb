//! Resampling of a pixel buffer with a box filter.
//!
//! The arithmetic of the filter is the resize engine's
//! (`fast_image_resize`); what is proved here is everything around it: which
//! geometries are handed to the engine, and what becomes of its answer.

use fast_image_resize::images::{Image, ImageRef};
use fast_image_resize::{FilterType, PixelType, ResizeAlg, ResizeError, ResizeOptions, Resizer};
use vstd::prelude::*;

use crate::buffer::{PixelBuffer, Raster};

verus! {

/// Why a transform of the pipeline did not produce an image.
#[derive(Clone, Copy, Debug, PartialEq, Eq, Structural)]
pub enum TransformError {
    /// The geometry asks for buffers beyond what the machine can address.
    TooLarge,
    /// The resize engine does not support the pixel format it was handed.
    UnsupportedPixelType,
    /// The resize engine failed, or answered with a buffer of the wrong size.
    ResizeFailed,
    /// The blur filter answered with an image of other dimensions.
    DimensionsChanged,
}

/// How the resize engine can fail.
#[derive(Clone, Copy, Debug, PartialEq, Eq, Structural)]
pub enum EngineFault {
    /// It does not support the pixel format of one of the images.
    UnsupportedPixelType,
    /// Any other failure.
    Failed,
}

/// The samples that the engine's box-filter convolution computes for a
/// `width` by `height` image from the `src_width` by `src_height` image
/// `samples`.
pub uninterp spec fn box_resampled(
    samples: Seq<u8>,
    src_width: nat,
    src_height: nat,
    width: nat,
    height: nat,
) -> Seq<u8>;

/// The larger of two extents.
pub open spec fn larger(a: nat, b: nat) -> nat {
    if a >= b {
        a
    } else {
        b
    }
}

/// Whether every buffer that a resampling from `src_width` by `src_height`
/// to `width` by `height` allocates (source, destination, the intermediate
/// image between the two passes, the tables of coefficients) stays below
/// half of the address space, the largest size an allocation may have.
pub open spec fn within_capacity(src_width: nat, src_height: nat, width: nat, height: nat) -> bool {
    (larger(src_width, width) + 1) * (larger(src_height, height) + 1) * 64 <= usize::MAX / 2
}

/// Decides [`within_capacity`].
pub fn fits_capacity(src_width: u32, src_height: u32, width: u32, height: u32) -> (fits: bool)
    ensures
        fits == within_capacity(src_width as nat, src_height as nat, width as nat, height as nat),
{
    let wide: u128 = (if src_width >= width { src_width } else { width }) as u128 + 1;
    let tall: u128 = (if src_height >= height { src_height } else { height }) as u128 + 1;
    assert(wide * tall <= 0x1_0000_0000 * 0x1_0000_0000) by (nonlinear_arith)
        requires
            wide <= 0x1_0000_0000,
            tall <= 0x1_0000_0000,
    ;
    wide * tall * 64 <= (usize::MAX / 2) as u128
}

/// Calls `fast_image_resize::Resizer::resize` with a box-filter convolution
/// (`ResizeAlg::Convolution(FilterType::Box)`), on an 8-bit RGB view of
/// `src` (`ImageRef::new`) and a fresh 8-bit RGB destination of `width` by
/// `height` pixels (`Image::new`), and hands out the destination's bytes
/// (`Image::into_vec`).
///
/// Believed of the engine, not proved:
/// - it succeeds. `ImageRef::new` refuses only a buffer that is shorter than
///   its dimensions say or misaligned for its pixels, and `resize` only
///   pixel types that differ or are unsupported and a crop box outside the
///   source; with two 8-bit RGB images, a source of the stated length and no
///   cropping none of these arises;
/// - the bytes are those that [`box_resampled`] names. The engine computes
///   them in integer fixed point from weights that depend on the four
///   extents alone, and its vectorised paths add up the same products, so
///   the same arguments give the same bytes on every machine;
/// - there are three bytes for each destination pixel: `Image::new`
///   allocates that many and the engine writes in place;
/// - where the destination has the dimensions of the source, the bytes are
///   those of the source: the engine copies and does not filter.
///
/// The geometry must be [`within_capacity`], where none of the engine's
/// size computations overflows.
#[verifier::external_body]
fn engine_resize(src: &Vec<u8>, src_width: u32, src_height: u32, width: u32, height: u32) -> (done:
    Result<Vec<u8>, EngineFault>)
    requires
        src@.len() == src_width * src_height * 3,
        within_capacity(src_width as nat, src_height as nat, width as nat, height as nat),
    ensures
        done is Ok,
        done matches Ok(bytes) ==> bytes@ == box_resampled(
            src@,
            src_width as nat,
            src_height as nat,
            width as nat,
            height as nat,
        ) && bytes@.len() == width * height * 3,
        done matches Ok(bytes) ==> (src_width == width && src_height == height ==> bytes@
            == src@),
{
    let Ok(view) = ImageRef::new(src_width, src_height, src, PixelType::U8x3) else {
        return Err(EngineFault::Failed);
    };
    let mut dst = Image::new(width, height, PixelType::U8x3);
    let options = ResizeOptions::new().resize_alg(ResizeAlg::Convolution(FilterType::Box));
    match Resizer::new().resize(&view, &mut dst, &options) {
        Ok(()) => Ok(dst.into_vec()),
        Err(ResizeError::ImageError(_)) => Err(EngineFault::UnsupportedPixelType),
        Err(_) => Err(EngineFault::Failed),
    }
}

/// What a resampling to `width` by `height` returns once the engine has
/// answered with `outcome`: its bytes as an image when there are three for
/// each pixel, a failed resize when there are not, and its own failure
/// otherwise.
pub open spec fn accepted(width: nat, height: nat, outcome: Result<Seq<u8>, EngineFault>) -> Result<
    Raster,
    TransformError,
> {
    match outcome {
        Ok(bytes) => if bytes.len() == width * height * 3 {
            Ok(Raster { width, height, samples: bytes })
        } else {
            Err(TransformError::ResizeFailed)
        },
        Err(EngineFault::UnsupportedPixelType) => Err(TransformError::UnsupportedPixelType),
        Err(EngineFault::Failed) => Err(TransformError::ResizeFailed),
    }
}

/// The model of what a transform returned.
pub open spec fn outcome_view(r: Result<PixelBuffer, TransformError>) -> Result<
    Raster,
    TransformError,
> {
    match r {
        Ok(buffer) => Ok(buffer@),
        Err(e) => Err(e),
    }
}

/// The model of what the engine answered.
pub open spec fn answer_view(r: Result<Vec<u8>, EngineFault>) -> Result<Seq<u8>, EngineFault> {
    match r {
        Ok(bytes) => Ok(bytes@),
        Err(e) => Err(e),
    }
}

/// Turns the engine's answer into the image of `width` by `height` pixels
/// that it was asked for.
pub fn accept_resized(width: u32, height: u32, outcome: Result<Vec<u8>, EngineFault>) -> (r: Result<
    PixelBuffer,
    TransformError,
>)
    ensures
        outcome_view(r) == accepted(width as nat, height as nat, answer_view(outcome)),
{
    match outcome {
        Ok(bytes) => match PixelBuffer::from_raw(width, height, bytes) {
            Some(buffer) => Ok(buffer),
            None => Err(TransformError::ResizeFailed),
        },
        Err(EngineFault::UnsupportedPixelType) => Err(TransformError::UnsupportedPixelType),
        Err(EngineFault::Failed) => Err(TransformError::ResizeFailed),
    }
}

/// Whether `out` is what resampling `src` to `width` by `height` yields:
/// an image of the dimensions asked for, with the samples that the engine
/// computes, which are those of `src` itself where the dimensions agree.
pub open spec fn resized_from(out: Raster, src: Raster, width: nat, height: nat) -> bool {
    &&& out.width == width
    &&& out.height == height
    &&& out.well_formed()
    &&& out.samples == box_resampled(src.samples, src.width, src.height, width, height)
    &&& src.width == width && src.height == height ==> out.samples == src.samples
}

/// Whether `r` is the end of resampling `src` to `width` by `height`: within
/// [`within_capacity`] the image that is [`resized_from`] `src`, and beyond
/// it [`TransformError::TooLarge`].
pub open spec fn resampling_of(
    r: Result<PixelBuffer, TransformError>,
    src: Raster,
    width: nat,
    height: nat,
) -> bool {
    match r {
        Ok(out) => within_capacity(src.width, src.height, width, height) && resized_from(
            out@,
            src,
            width,
            height,
        ),
        Err(e) => e == TransformError::TooLarge && !within_capacity(
            src.width,
            src.height,
            width,
            height,
        ),
    }
}

/// Resamples `src` to `width` by `height` pixels with a box filter. The two
/// extents are independent: the aspect ratio may change.
///
/// Within [`within_capacity`] an image always comes back. It has exactly
/// `width * height * 3` bytes, those of [`box_resampled`]; resampling to the
/// dimensions of `src` gives the samples of `src`. Geometries beyond
/// [`within_capacity`] are refused with [`TransformError::TooLarge`].
pub fn fast_resize(src: &PixelBuffer, width: u32, height: u32) -> (r: Result<
    PixelBuffer,
    TransformError,
>)
    ensures
        r is Ok <==> within_capacity(src@.width, src@.height, width as nat, height as nat),
        resampling_of(r, src@, width as nat, height as nat),
        r matches Ok(out) ==> {
            &&& out@.width == width
            &&& out@.height == height
            &&& out@.samples.len() == width * height * 3
        },
{
    let src_width: u32 = src.width();
    let src_height: u32 = src.height();
    if !fits_capacity(src_width, src_height, width, height) {
        return Err(TransformError::TooLarge);
    }
    let outcome = engine_resize(src.as_raw(), src_width, src_height, width, height);
    accept_resized(width, height, outcome)
}

/// Resampling an image to its own dimensions, and the result once more,
/// gives the image back: the same dimensions, the same number of bytes and
/// the same samples.
pub proof fn lemma_same_size_round_trip(src: Raster, mid: Raster, out: Raster)
    requires
        src.well_formed(),
        resized_from(mid, src, src.width, src.height),
        resized_from(out, mid, src.width, src.height),
    ensures
        out.width == src.width,
        out.height == src.height,
        out.samples.len() == src.samples.len(),
        out.samples == src.samples,
        out == src,
{
}

} // verus!
