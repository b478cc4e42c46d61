//! Decoded images: a grid of RGB pixels held as one row-major byte buffer.

use vstd::prelude::*;
use crate::color::Rgb;

verus! {

/// The pixel at column `x` of row `y` in a row-major buffer of RGB triples
/// that is `width` pixels wide.
pub open spec fn sample_at(width: nat, data: Seq<u8>, x: int, y: int) -> Rgb {
    let start: int = 3 * (y * width + x);
    Rgb { r: data[start], g: data[start + 1], b: data[start + 2] }
}

/// The grid that `data` holds: `height` rows of `width` pixels, top row first.
pub open spec fn grid_of(width: nat, height: nat, data: Seq<u8>) -> Seq<Seq<Rgb>> {
    Seq::new(height, |y: int| Seq::new(width, |x: int| sample_at(width, data, x, y)))
}

/// An image of 8-bit RGB pixels. Its buffer holds exactly three bytes for each
/// pixel, so every pixel inside its width and height can be read.
#[derive(Debug)]
pub struct Bitmap {
    width: u32,
    height: u32,
    data: Vec<u8>,
}

impl View for Bitmap {
    type V = Seq<Seq<Rgb>>;

    /// The rows of the image, each a sequence of pixels.
    open spec fn view(&self) -> Seq<Seq<Rgb>> {
        grid_of(self.spec_width(), self.spec_height(), self.samples())
    }
}

impl Bitmap {
    #[verifier::type_invariant]
    spec fn well_formed(&self) -> bool {
        self.data@.len() == 3 * self.width * self.height
    }

    /// The number of pixels in a row.
    pub closed spec fn spec_width(&self) -> nat {
        self.width as nat
    }

    /// The number of rows.
    pub closed spec fn spec_height(&self) -> nat {
        self.height as nat
    }

    /// The buffer: the rows from top to bottom, three bytes for each pixel.
    pub closed spec fn samples(&self) -> Seq<u8> {
        self.data@
    }

    /// Takes a row-major RGB buffer as an image of the given size. The buffer
    /// must hold exactly `3 * width * height` bytes, else there is no image.
    pub fn from_raw(width: u32, height: u32, data: Vec<u8>) -> (bitmap: Option<Bitmap>)
        ensures
            bitmap is Some <==> data@.len() == 3 * width * height,
            bitmap matches Some(b) ==> {
                &&& b.spec_width() == width
                &&& b.spec_height() == height
                &&& b.samples() == data@
            },
    {
        assert(3 * width * height <= 3 * 0xffff_ffff * 0xffff_ffff) by (nonlinear_arith)
            requires
                width <= 0xffff_ffff,
                height <= 0xffff_ffff,
        ;
        let needed: u128 = 3 * (width as u128) * (height as u128);
        if data.len() as u128 == needed {
            Some(Bitmap { width, height, data })
        } else {
            None
        }
    }

    /// The number of pixels in a row.
    pub fn width(&self) -> (w: u32)
        ensures
            w == self.spec_width(),
    {
        self.width
    }

    /// The number of rows.
    pub fn height(&self) -> (h: u32)
        ensures
            h == self.spec_height(),
    {
        self.height
    }

    /// The buffer of the image, three bytes for each pixel.
    pub fn as_raw(&self) -> (data: &Vec<u8>)
        ensures
            data@ == self.samples(),
            data@.len() == 3 * self.spec_width() * self.spec_height(),
    {
        proof {
            use_type_invariant(self);
        }
        &self.data
    }

    /// The pixel at column `x` of row `y`.
    pub fn pixel(&self, x: u32, y: u32) -> (p: Rgb)
        requires
            x < self.spec_width(),
            y < self.spec_height(),
        ensures
            p == self@[y as int][x as int],
    {
        proof {
            use_type_invariant(self);
            lemma_sample_in_buffer(self.width as nat, self.height as nat, x as nat, y as nat);
        }
        assert(0 <= y * self.width <= y * self.width + x) by (nonlinear_arith)
            requires
                0 <= y,
                0 <= self.width,
                0 <= x,
        ;
        assert(3 * (y * self.width + x) + 3 <= self.data.len());
        let start: usize = 3 * (y as usize * self.width as usize + x as usize);
        Rgb { r: self.data[start], g: self.data[start + 1], b: self.data[start + 2] }
    }
}

/// The three bytes of a pixel inside the grid lie inside the buffer.
pub proof fn lemma_sample_in_buffer(width: nat, height: nat, x: nat, y: nat)
    requires
        x < width,
        y < height,
    ensures
        y * width + x < width * height,
        3 * (y * width + x) + 3 <= 3 * width * height,
{
    assert((y + 1) * width <= height * width) by (nonlinear_arith)
        requires
            y + 1 <= height,
    ;
    assert((y + 1) * width == y * width + width) by (nonlinear_arith);
    assert(3 * width * height == 3 * (height * width)) by (nonlinear_arith);
    assert(width * height == height * width) by (nonlinear_arith);
}

} // verus!
