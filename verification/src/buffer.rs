//! The RGB pixel buffer that every stage of the pipeline works on.

use vstd::prelude::*;

verus! {

/// One pixel.
#[derive(Clone, Copy, Debug, PartialEq, Eq, Structural)]
pub struct Rgb {
    pub red: u8,
    pub green: u8,
    pub blue: u8,
}

/// The mathematical model of an image: its extent in pixels and its samples,
/// row by row from the top, three per pixel, without padding.
pub struct Raster {
    pub width: nat,
    pub height: nat,
    pub samples: Seq<u8>,
}

impl Raster {
    /// There are exactly three samples for each pixel of the grid.
    pub open spec fn well_formed(self) -> bool {
        self.samples.len() == self.width * self.height * 3
    }

    /// Whether `(x, y)` names a pixel of the grid.
    pub open spec fn contains(self, x: nat, y: nat) -> bool {
        x < self.width && y < self.height
    }

    /// Index of the red sample of the pixel at column `x` of row `y`.
    pub open spec fn offset(self, x: nat, y: nat) -> int {
        ((y * self.width + x) * 3) as int
    }

    /// The pixel at column `x` of row `y`.
    pub open spec fn pixel(self, x: nat, y: nat) -> Rgb {
        Rgb {
            red: self.samples[self.offset(x, y)],
            green: self.samples[self.offset(x, y) + 1],
            blue: self.samples[self.offset(x, y) + 2],
        }
    }
}

/// Every pixel of a well-formed raster lies wholly inside its samples.
pub proof fn lemma_pixel_in_bounds(r: Raster, x: nat, y: nat)
    requires
        r.well_formed(),
        r.contains(x, y),
    ensures
        0 <= r.offset(x, y),
        r.offset(x, y) + 3 <= r.samples.len(),
{
    assert(y * r.width + x + 1 <= r.height * r.width) by (nonlinear_arith)
        requires
            x < r.width,
            y < r.height,
    ;
    assert(r.width * r.height == r.height * r.width) by (nonlinear_arith);
    assert(r.width * r.height * 3 == (r.width * r.height) * 3);
}

/// A rectangular grid of RGB pixels held as a flat byte sequence in row-major
/// order, three bytes per pixel.
///
/// The length of the byte sequence is always `width * height * 3`.
#[derive(Debug, PartialEq, Eq)]
pub struct PixelBuffer {
    width: u32,
    height: u32,
    data: Vec<u8>,
}

impl View for PixelBuffer {
    type V = Raster;

    closed spec fn view(&self) -> Raster {
        Raster { width: self.width as nat, height: self.height as nat, samples: self.data@ }
    }
}

impl PixelBuffer {
    #[verifier::type_invariant]
    spec fn sized(self) -> bool {
        self.data@.len() == self.width * self.height * 3
    }

    /// Takes `data` as the pixels of a `width` by `height` image, if it holds
    /// exactly three bytes for each of them.
    pub fn from_raw(width: u32, height: u32, data: Vec<u8>) -> (made: Option<PixelBuffer>)
        ensures
            made is Some <==> data@.len() == width * height * 3,
            made matches Some(buffer) ==> buffer@ == (Raster {
                width: width as nat,
                height: height as nat,
                samples: data@,
            }),
    {
        assert(width * height <= 0xffff_ffff * 0xffff_ffff) by (nonlinear_arith)
            requires
                width <= 0xffff_ffff,
                height <= 0xffff_ffff,
        ;
        let pixels: u64 = (width as u64) * (height as u64);
        let wanted: u128 = (pixels as u128) * 3;
        if data.len() as u128 == wanted {
            Some(PixelBuffer { width, height, data })
        } else {
            None
        }
    }

    /// Width in pixels.
    pub fn width(&self) -> (w: u32)
        ensures
            w == self@.width,
            self@.well_formed(),
    {
        proof {
            use_type_invariant(self);
        }
        self.width
    }

    /// Height in pixels.
    pub fn height(&self) -> (h: u32)
        ensures
            h == self@.height,
            self@.well_formed(),
    {
        proof {
            use_type_invariant(self);
        }
        self.height
    }

    /// Whether the image has no pixel at all.
    pub fn is_empty(&self) -> (empty: bool)
        ensures
            empty <==> self@.samples.len() == 0,
            empty <==> (self@.width == 0 || self@.height == 0),
            self@.well_formed(),
    {
        proof {
            use_type_invariant(self);
            let w = self.width as int;
            let h = self.height as int;
            assert((w * h * 3 == 0) <==> (w == 0 || h == 0)) by (nonlinear_arith);
        }
        self.data.len() == 0
    }

    /// The bytes of the image, as they are written to the locker.
    pub fn as_raw(&self) -> (bytes: &Vec<u8>)
        ensures
            bytes@ == self@.samples,
            self@.well_formed(),
    {
        proof {
            use_type_invariant(self);
        }
        &self.data
    }

    /// Gives up the image for its bytes.
    pub fn into_raw(self) -> (bytes: Vec<u8>)
        ensures
            bytes@ == self@.samples,
            self@.well_formed(),
    {
        proof {
            use_type_invariant(&self);
        }
        self.data
    }

    /// The pixel at column `x` of row `y`, if there is one.
    pub fn pixel(&self, x: u32, y: u32) -> (found: Option<Rgb>)
        ensures
            found is Some <==> self@.contains(x as nat, y as nat),
            found matches Some(p) ==> p == self@.pixel(x as nat, y as nat),
    {
        if x >= self.width || y >= self.height {
            return None;
        }
        let len: usize = self.data.len();
        proof {
            use_type_invariant(self);
            lemma_pixel_in_bounds(self@, x as nat, y as nat);
            assert(0 <= y * self.width) by (nonlinear_arith);
            // Every index below is smaller than the length, which fits.
            assert((y * self.width + x) * 3 + 3 <= len);
        }
        let at: usize = ((y as usize) * (self.width as usize) + (x as usize)) * 3;
        Some(Rgb { red: self.data[at], green: self.data[at + 1], blue: self.data[at + 2] })
    }
}

} // verus!
