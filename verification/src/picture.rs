//! Pictures as plain values: eight-bit RGB samples in rows from the top.

use vstd::prelude::*;

verus! {

/// What an [`RgbImage`] holds: `height` rows of `width` pixels, each pixel
/// three samples (red, green, blue).
pub struct RgbView {
    pub width: nat,
    pub height: nat,
    pub samples: Seq<u8>,
}

impl RgbView {
    /// The samples are exactly those of `width * height` pixels.
    pub open spec fn well_formed(self) -> bool {
        self.samples.len() == 3 * self.width * self.height
    }

    /// Whether `(x, y)` names a pixel.
    pub open spec fn contains(self, x: int, y: int) -> bool {
        0 <= x < self.width && 0 <= y < self.height
    }

    /// Red, green and blue of the pixel in column `x` of row `y`.
    pub open spec fn pixel(self, x: int, y: int) -> (u8, u8, u8) {
        let at = 3 * (y * self.width + x);
        (self.samples[at], self.samples[at + 1], self.samples[at + 2])
    }
}

/// Among `width * height` pixels, the one in column `x` of row `y` has its
/// three samples inside the buffer.
pub proof fn lemma_pixel_in_bounds(width: int, height: int, x: int, y: int)
    requires
        0 <= x < width,
        0 <= y < height,
    ensures
        0 <= y * width,
        y * width + x < width * height,
        3 * (y * width + x) + 2 < 3 * width * height,
        3 * width * height == 3 * (width * height),
{
    assert(0 <= y * width) by (nonlinear_arith)
        requires
            0 <= y,
            0 <= width,
    ;
    assert(y * width + width <= width * height) by (nonlinear_arith)
        requires
            0 <= y < height,
            0 <= width,
    ;
    assert(3 * width * height == 3 * (width * height)) by (nonlinear_arith);
}

/// An eight-bit RGB picture.
pub struct RgbImage {
    pub(crate) width: u32,
    pub(crate) height: u32,
    pub(crate) samples: Vec<u8>,
}

impl View for RgbImage {
    type V = RgbView;

    closed spec fn view(&self) -> RgbView {
        RgbView {
            width: self.width as nat,
            height: self.height as nat,
            samples: self.samples@,
        }
    }
}

impl RgbImage {
    #[verifier::type_invariant]
    spec fn holds_all_pixels(self) -> bool {
        self.samples@.len() == 3 * self.width * self.height
    }

    /// The picture of `width * height` pixels whose samples are `samples`;
    /// `None` where `samples` has another length than `3 * width * height`.
    pub fn new(width: u32, height: u32, samples: Vec<u8>) -> (r: Option<RgbImage>)
        ensures
            r is Some <==> samples@.len() == 3 * width * height,
            r matches Some(image) ==> image@ == (RgbView {
                width: width as nat,
                height: height as nat,
                samples: samples@,
            }),
    {
        assert(width * height <= 0xFFFF_FFFF * 0xFFFF_FFFF) by (nonlinear_arith)
            requires
                0 <= width <= 0xFFFF_FFFF,
                0 <= height <= 0xFFFF_FFFF,
        ;
        assert(3 * width * height == 3 * (width * height)) by (nonlinear_arith);
        let pixels: u128 = (width as u128) * (height as u128);
        if samples.len() as u128 == 3 * pixels {
            Some(RgbImage { width, height, samples })
        } else {
            None
        }
    }

    /// The number of pixels in a row.
    pub fn width(&self) -> (w: u32)
        ensures
            w == self@.width,
            self@.well_formed(),
    {
        proof {
            use_type_invariant(self);
        }
        self.width
    }

    /// The number of rows.
    pub fn height(&self) -> (h: u32)
        ensures
            h == self@.height,
            self@.well_formed(),
    {
        proof {
            use_type_invariant(self);
        }
        self.height
    }

    /// The samples, row by row from the top, three for each pixel.
    pub fn samples(&self) -> (s: &[u8])
        ensures
            s@ == self@.samples,
            self@.well_formed(),
    {
        proof {
            use_type_invariant(self);
        }
        self.samples.as_slice()
    }

    /// Red, green and blue of the pixel in column `x` of row `y`.
    pub fn pixel(&self, x: u32, y: u32) -> (p: (u8, u8, u8))
        requires
            self@.contains(x as int, y as int),
        ensures
            p == self@.pixel(x as int, y as int),
    {
        let len = self.samples.len();
        proof {
            use_type_invariant(self);
            lemma_pixel_in_bounds(self.width as int, self.height as int, x as int, y as int);
            assert(3 * (y * self.width + x) + 2 < len);
        }
        let at: usize = 3 * ((y as usize) * (self.width as usize) + (x as usize));
        (self.samples[at], self.samples[at + 1], self.samples[at + 2])
    }
}

} // verus!
