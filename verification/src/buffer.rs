//! An immutable 2D grid of RGB pixels with known width and height.
//!
//! The buffer is handed to the library already decoded; it stores its pixels
//! row-major, so the pixel at column `x` of row `y` sits at index
//! `y * width + x`.

use vstd::prelude::*;

verus! {

use crate::color::Pixel;

/// The error reported when a buffer with a zero dimension, or with a pixel
/// count that does not match its dimensions, is rejected.
#[derive(Clone, Copy, Debug, PartialEq, Eq, Structural)]
pub struct InvalidBuffer;

/// A decoded image: `width * height` RGB pixels, stored row-major.
#[derive(Debug)]
pub struct PixelBuffer {
    pub width: usize,
    pub height: usize,
    pub pixels: Vec<Pixel>,
}

impl PixelBuffer {
    /// A buffer is well formed when both dimensions are positive and every
    /// coordinate pair resolves to exactly one stored pixel.
    pub open spec fn wf(self) -> bool {
        &&& self.width >= 1
        &&& self.height >= 1
        &&& self.pixels@.len() == self.width * self.height
    }

    /// The pixel at column `x` of row `y`.
    pub open spec fn pix(self, x: int, y: int) -> Pixel {
        self.pixels@[y * self.width + x]
    }

    /// Builds a buffer from its dimensions and row-major pixels, rejecting
    /// a zero width, a zero height, and a pixel count that does not equal
    /// `width * height`.
    pub fn new(width: usize, height: usize, pixels: Vec<Pixel>) -> (r: Result<
        PixelBuffer,
        InvalidBuffer,
    >)
        ensures
            r is Ok <==> (width >= 1 && height >= 1 && pixels@.len() == width * height),
            r is Ok ==> r->Ok_0 == (PixelBuffer { width, height, pixels }) && r->Ok_0.wf(),
    {
        if width == 0 || height == 0 {
            return Err(InvalidBuffer);
        }
        if pixels.len() % width != 0 || pixels.len() / width != height {
            proof {
                if pixels@.len() == width * height {
                    vstd::arithmetic::div_mod::lemma_fundamental_div_mod_converse(
                        pixels@.len() as int,
                        width as int,
                        height as int,
                        0,
                    );
                }
            }
            return Err(InvalidBuffer);
        }
        proof {
            vstd::arithmetic::div_mod::lemma_fundamental_div_mod(
                pixels@.len() as int,
                width as int,
            );
        }
        Ok(PixelBuffer { width, height, pixels })
    }

    /// Reads the pixel at column `x` of row `y`.
    pub fn get(&self, x: usize, y: usize) -> (p: Pixel)
        requires
            self.wf(),
            x < self.width,
            y < self.height,
        ensures
            p == self.pix(x as int, y as int),
    {
        let stored: usize = self.pixels.len();
        proof {
            assert(y * self.width + x < self.width * self.height) by (nonlinear_arith)
                requires
                    0 <= x < self.width,
                    0 <= y < self.height,
            ;
            assert(y * self.width + x < stored);
        }
        self.pixels[y * self.width + x]
    }
}

} // verus!
