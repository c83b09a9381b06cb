//! The pipeline: shrink, blur, grow.
//!
//! Blurring at a quarter of the resolution costs a sixteenth of blurring at
//! full size and, once grown back, looks softer.

use vstd::prelude::*;

use crate::buffer::{PixelBuffer, Raster};
use crate::geometry::Geometry;
use crate::resize::{
    fast_resize, fits_capacity, resampling_of, resized_from, within_capacity, TransformError,
};

verus! {

/// Radius of the blur, in pixels of the quarter-size image.
pub const BLUR_RADIUS: u32 = 3;

/// Whether two images have the same width and the same height.
pub open spec fn same_dimensions(a: Raster, b: Raster) -> bool {
    a.width == b.width && a.height == b.height
}

/// Whether a blur of `image` at `radius` has anything to do: the radius is
/// not zero and the image has pixels.
pub open spec fn needs_filter(image: Raster, radius: u32) -> bool {
    radius != 0 && image.width != 0 && image.height != 0
}

/// Blurs `image` with `filter`, which is handed the image and the radius.
///
/// A radius of zero leaves the image as it is, and so does an image without
/// pixels; `filter` is not asked then. Otherwise the answer of `filter` is
/// the result, provided that it has the dimensions of `image`: a blur never
/// changes them.
pub fn box_blur<F: FnOnce(&PixelBuffer, u32) -> PixelBuffer>(
    image: PixelBuffer,
    radius: u32,
    filter: F,
) -> (r: Result<PixelBuffer, TransformError>)
    requires
        needs_filter(image@, radius) ==> call_requires(filter, (&image, radius)),
    ensures
        !needs_filter(image@, radius) ==> (r matches Ok(out) && out@ == image@
            && out@.well_formed()),
        (forall|answer: PixelBuffer|
            call_ensures(filter, (&image, radius), answer) ==> same_dimensions(answer@, image@))
            ==> r is Ok,
        needs_filter(image@, radius) ==> match r {
            Ok(out) => call_ensures(filter, (&image, radius), out) && same_dimensions(out@, image@)
                && out@.well_formed(),
            Err(e) => e == TransformError::DimensionsChanged && exists|answer: PixelBuffer|
                call_ensures(filter, (&image, radius), answer) && !same_dimensions(
                    answer@,
                    image@,
                ),
        },
{
    if image.is_empty() || radius == 0 {
        return Ok(image);
    }
    let answer = filter(&image, radius);
    if answer.width() == image.width() && answer.height() == image.height() {
        Ok(answer)
    } else {
        Err(TransformError::DimensionsChanged)
    }
}

/// Shrinks `source` to a quarter of the screen in each dimension, whatever
/// the dimensions of `source` are.
pub fn downscale(source: &PixelBuffer, screen: Geometry) -> (r: Result<PixelBuffer, TransformError>)
    ensures
        r is Ok <==> within_capacity(
            source@.width,
            source@.height,
            screen.quartered().width as nat,
            screen.quartered().height as nat,
        ),
        resampling_of(
            r,
            source@,
            screen.quartered().width as nat,
            screen.quartered().height as nat,
        ),
{
    let small = screen.quartered();
    fast_resize(source, small.width, small.height)
}

/// Grows `blurred` to exactly the size of the screen.
pub fn upscale(blurred: &PixelBuffer, screen: Geometry) -> (r: Result<PixelBuffer, TransformError>)
    ensures
        r is Ok <==> within_capacity(
            blurred@.width,
            blurred@.height,
            screen.width as nat,
            screen.height as nat,
        ),
        resampling_of(r, blurred@, screen.width as nat, screen.height as nat),
{
    fast_resize(blurred, screen.width, screen.height)
}

/// Whether the machine can hold both resampling steps of the pipeline for
/// `source` on `screen`.
pub open spec fn renderable(source: Raster, screen: Geometry) -> bool {
    &&& within_capacity(
        source.width,
        source.height,
        screen.quartered().width as nat,
        screen.quartered().height as nat,
    )
    &&& within_capacity(
        screen.quartered().width as nat,
        screen.quartered().height as nat,
        screen.width as nat,
        screen.height as nat,
    )
}

/// Whether `frame` is a backdrop of `source` for `screen`, with `small` the
/// shrunk image and `soft` what `filter` made of it.
pub open spec fn rendered_through<F: FnOnce(&PixelBuffer, u32) -> PixelBuffer>(
    frame: Raster,
    source: Raster,
    screen: Geometry,
    filter: F,
    small: PixelBuffer,
    soft: PixelBuffer,
) -> bool {
    &&& resized_from(
        small@,
        source,
        screen.quartered().width as nat,
        screen.quartered().height as nat,
    )
    &&& if needs_filter(small@, BLUR_RADIUS) {
        call_ensures(filter, (&small, BLUR_RADIUS), soft)
    } else {
        soft@ == small@
    }
    &&& same_dimensions(soft@, small@)
    &&& resized_from(frame, soft@, screen.width as nat, screen.height as nat)
}

/// Whether `filter` broke the pipeline by answering to the shrunk image of
/// `source` with an image of other dimensions.
pub open spec fn filter_misbehaved<F: FnOnce(&PixelBuffer, u32) -> PixelBuffer>(
    source: Raster,
    screen: Geometry,
    filter: F,
    small: PixelBuffer,
    answer: PixelBuffer,
) -> bool {
    &&& resized_from(
        small@,
        source,
        screen.quartered().width as nat,
        screen.quartered().height as nat,
    )
    &&& needs_filter(small@, BLUR_RADIUS)
    &&& call_ensures(filter, (&small, BLUR_RADIUS), answer)
    &&& !same_dimensions(answer@, small@)
}

/// Runs the pipeline once: shrinks `source` to a quarter of the screen in
/// each dimension, blurs that with `filter` at [`BLUR_RADIUS`], and grows
/// the result to exactly the size of the screen.
///
/// The frame that comes back has `screen.width * screen.height * 3` bytes,
/// whatever the dimensions of `source`. A frame comes back unless the
/// geometry is beyond the machine or `filter` answers with an image of
/// other dimensions; then nothing comes back: there is no partial frame.
pub fn render<F: FnOnce(&PixelBuffer, u32) -> PixelBuffer>(
    source: &PixelBuffer,
    screen: Geometry,
    filter: F,
) -> (r: Result<PixelBuffer, TransformError>)
    requires
        forall|image: &PixelBuffer| call_requires(filter, (image, BLUR_RADIUS)),
    ensures
        r matches Ok(frame) ==> {
            &&& frame@.width == screen.width
            &&& frame@.height == screen.height
            &&& frame@.samples.len() == screen.width * screen.height * 3
            &&& exists|small: PixelBuffer, soft: PixelBuffer|
                rendered_through(frame@, source@, screen, filter, small, soft)
        },
        r matches Err(e) ==> {
            &&& e == TransformError::TooLarge || e == TransformError::DimensionsChanged
            &&& e == TransformError::TooLarge <==> !renderable(source@, screen)
            &&& e == TransformError::DimensionsChanged ==> exists|
                small: PixelBuffer,
                answer: PixelBuffer,
            | filter_misbehaved(source@, screen, filter, small, answer)
        },
        !renderable(source@, screen) ==> r is Err,
        renderable(source@, screen) && (forall|small: PixelBuffer, answer: PixelBuffer|
            call_ensures(filter, (&small, BLUR_RADIUS), answer) ==> same_dimensions(
                answer@,
                small@,
            )) ==> r is Ok,
{
    let quartered = screen.quartered();
    if !fits_capacity(quartered.width, quartered.height, screen.width, screen.height) {
        return Err(TransformError::TooLarge);
    }
    let small = match downscale(source, screen) {
        Ok(small) => small,
        Err(e) => {
            return Err(e);
        },
    };
    let ghost shrunk = small;
    let soft = match box_blur(small, BLUR_RADIUS, filter) {
        Ok(soft) => soft,
        Err(e) => {
            proof {
                let answer = choose|answer: PixelBuffer|
                    call_ensures(filter, (&shrunk, BLUR_RADIUS), answer) && !same_dimensions(
                        answer@,
                        shrunk@,
                    );
                assert(filter_misbehaved(source@, screen, filter, shrunk, answer));
            }
            return Err(e);
        },
    };
    let r = upscale(&soft, screen);
    proof {
        if r is Ok {
            assert(rendered_through(r->Ok_0@, source@, screen, filter, shrunk, soft));
        }
    }
    r
}

} // verus!
