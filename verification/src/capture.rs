//! Decoding of a screen capture from the display's native pixel values.
//!
//! The layout of a native pixel varies with the depth and the visual of the
//! display, so each channel is found through the bitmask that comes with
//! the captured image: the pixel is masked, and the field is shifted down by
//! the number of trailing zeros of the mask.

use vstd::prelude::*;
use vstd::std_specs::bits::{axiom_u64_trailing_zeros, u64_trailing_zeros};

use crate::buffer::{lemma_pixel_in_bounds, PixelBuffer, Raster, Rgb};

verus! {

/// The bitmasks of the three colour channels of a captured image.
#[derive(Clone, Copy, Debug, PartialEq, Eq, Structural)]
pub struct ChannelMasks {
    pub red: u64,
    pub green: u64,
    pub blue: u64,
}

/// The value of the channel that `mask` selects from `pixel`: the masked
/// bits, shifted down by the trailing zeros of the mask, of which the low
/// eight are kept. A mask without bits selects nothing.
pub open spec fn channel(pixel: u64, mask: u64) -> u8 {
    if mask == 0 {
        0u8
    } else {
        (((pixel & mask) >> (u64_trailing_zeros(mask) as u64)) & 0xff) as u8
    }
}

/// The colour of a native pixel under `masks`.
pub open spec fn decoded(pixel: u64, masks: ChannelMasks) -> Rgb {
    Rgb {
        red: channel(pixel, masks.red),
        green: channel(pixel, masks.green),
        blue: channel(pixel, masks.blue),
    }
}

/// The sample at index `i` of the bytes decoded from `pixels`.
pub open spec fn decoded_sample(pixels: Seq<u64>, masks: ChannelMasks, i: int) -> u8 {
    let colour = decoded(pixels[i / 3], masks);
    if i % 3 == 0 {
        colour.red
    } else if i % 3 == 1 {
        colour.green
    } else {
        colour.blue
    }
}

/// The bytes decoded from `pixels`: red, green and blue of each, in order.
pub open spec fn decoded_samples(pixels: Seq<u64>, masks: ChannelMasks) -> Seq<u8> {
    Seq::new(pixels.len() * 3, |i: int| decoded_sample(pixels, masks, i))
}

/// Extracts from `pixel` the channel that `mask` selects.
pub fn extract_channel(pixel: u64, mask: u64) -> (value: u8)
    ensures
        value == channel(pixel, mask),
{
    if mask == 0 {
        return 0;
    }
    let shift: u32 = mask.trailing_zeros();
    proof {
        axiom_u64_trailing_zeros(mask);
    }
    let field: u64 = (pixel & mask) >> shift;
    let low: u64 = field & 0xff;
    assert(low < 256) by (bit_vector)
        requires
            low == field & 0xff,
    ;
    assert((pixel & mask) >> shift == (pixel & mask) >> (shift as u64)) by (bit_vector);
    low as u8
}

/// Decodes one native pixel.
pub fn decode_pixel(pixel: u64, masks: ChannelMasks) -> (colour: Rgb)
    ensures
        colour == decoded(pixel, masks),
{
    Rgb {
        red: extract_channel(pixel, masks.red),
        green: extract_channel(pixel, masks.green),
        blue: extract_channel(pixel, masks.blue),
    }
}

/// Decodes a capture of `width` by `height` native pixels, given row by row
/// from the top, into an RGB buffer of the same dimensions.
///
/// The capture is unusable, and nothing is returned, unless it holds exactly
/// one value for each pixel.
pub fn decode_capture(pixels: &Vec<u64>, width: u32, height: u32, masks: ChannelMasks) -> (made:
    Option<PixelBuffer>)
    ensures
        made is Some <==> pixels@.len() == width * height,
        made matches Some(buffer) ==> buffer@ == (Raster {
            width: width as nat,
            height: height as nat,
            samples: decoded_samples(pixels@, masks),
        }),
{
    assert(width * height <= 0xffff_ffff * 0xffff_ffff) by (nonlinear_arith)
        requires
            width <= 0xffff_ffff,
            height <= 0xffff_ffff,
    ;
    let wanted: u64 = (width as u64) * (height as u64);
    let count: usize = pixels.len();
    if count as u64 != wanted {
        return None;
    }
    let mut data: Vec<u8> = Vec::new();
    let mut k: usize = 0;
    while k < count
        invariant
            count == pixels@.len(),
            k <= count,
            data@.len() == k * 3,
            forall|i: int| 0 <= i < data@.len() ==> data@[i] == decoded_sample(pixels@, masks, i),
        decreases count - k,
    {
        let colour = decode_pixel(pixels[k], masks);
        data.push(colour.red);
        data.push(colour.green);
        data.push(colour.blue);
        k = k + 1;
    }
    assert(data@ =~= decoded_samples(pixels@, masks));
    PixelBuffer::from_raw(width, height, data)
}

/// The pixel at column `x` of row `y` of a decoded capture is the colour of
/// the native value at that place, counted row by row.
pub proof fn lemma_decoded_pixel(
    pixels: Seq<u64>,
    width: nat,
    height: nat,
    masks: ChannelMasks,
    x: nat,
    y: nat,
)
    requires
        pixels.len() == width * height,
        x < width,
        y < height,
    ensures
        0 <= y * width + x < pixels.len(),
        (Raster { width, height, samples: decoded_samples(pixels, masks) }).pixel(x, y) == decoded(
            pixels[(y * width + x) as int],
            masks,
        ),
{
    let image = Raster { width, height, samples: decoded_samples(pixels, masks) };
    let place = (y * width + x) as int;
    assert(image.well_formed());
    lemma_pixel_in_bounds(image, x, y);
    assert(0 <= y * width) by (nonlinear_arith);
    assert(image.offset(x, y) == place * 3);
    assert((place * 3) / 3 == place && (place * 3) % 3 == 0);
    assert((place * 3 + 1) / 3 == place && (place * 3 + 1) % 3 == 1);
    assert((place * 3 + 2) / 3 == place && (place * 3 + 2) % 3 == 2);
}

/// A mask of eight adjacent bits selects the byte at its position: with
/// `0xFF0000` the channel is bits 16 to 23 of the pixel.
pub proof fn lemma_byte_mask(pixel: u64, shift: u64)
    requires
        shift <= 56,
    ensures
        channel(pixel, 0xffu64 << shift) == ((pixel >> shift) & 0xff) as u8,
{
    let mask: u64 = 0xffu64 << shift;
    let zeros: u64 = u64_trailing_zeros(mask) as u64;
    axiom_u64_trailing_zeros(mask);
    assert(mask != 0) by (bit_vector)
        requires
            shift <= 56,
            mask == 0xffu64 << shift,
    ;
    assert(zeros >= shift) by (bit_vector)
        requires
            shift <= 56,
            mask == 0xffu64 << shift,
            zeros < 64,
            (mask >> zeros) & 1u64 == 1u64,
    ;
    if zeros > shift {
        assert((mask >> shift) & 1u64 == 1u64) by (bit_vector)
            requires
                shift <= 56,
                mask == 0xffu64 << shift,
        ;
        assert(false);
    }
    assert(((pixel & mask) >> shift) & 0xff == (pixel >> shift) & 0xff) by (bit_vector)
        requires
            shift <= 56,
            mask == 0xffu64 << shift,
    ;
}

} // verus!
