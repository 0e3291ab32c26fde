//! The image value: an RGBA raster addressed by pixel coordinates.

use vstd::prelude::*;

verus! {

/// One RGBA pixel: four 8-bit channels.
#[derive(Clone, Copy, PartialEq, Eq, Structural, Debug)]
pub struct Pixel {
    pub r: u8,
    pub g: u8,
    pub b: u8,
    pub a: u8,
}

/// The fully transparent black pixel, the neutral value of a diff image.
pub open spec fn transparent_black() -> Pixel {
    Pixel { r: 0, g: 0, b: 0, a: 0 }
}

impl Pixel {
    /// Builds the fully transparent black pixel.
    pub fn transparent() -> (p: Pixel)
        ensures
            p == transparent_black(),
    {
        Pixel { r: 0, g: 0, b: 0, a: 0 }
    }
}

/// An immutable-once-built RGBA raster: `width * height` pixels stored row
/// major with the origin at the top left, four bytes per pixel.
#[derive(Clone)]
pub struct Image {
    pub width: u32,
    pub height: u32,
    pub data: Vec<u8>,
}

/// Within an image's bounds, a pixel's linear index lies below the pixel count.
pub proof fn lemma_pixel_linear_index(width: int, height: int, x: int, y: int)
    by (nonlinear_arith)
    requires
        0 <= x < width,
        0 <= y < height,
    ensures
        0 <= y * width,
        y * width + x < width * height,
{
}

/// A product of bounded non-negative factors stays below the product of the bounds.
pub proof fn lemma_mul_bounds(a: int, b: int, bound_a: int, bound_b: int)
    by (nonlinear_arith)
    requires
        0 <= a < bound_a,
        0 <= b < bound_b,
    ensures
        0 <= a * b,
        a * b < bound_a * bound_b,
{
}

impl Image {
    /// The pixel buffer holds exactly four bytes for each of the
    /// `width * height` pixels.
    pub open spec fn wf(&self) -> bool {
        self.data@.len() == self.width * self.height * 4
    }

    /// Offset of pixel `(x, y)` in the row-major byte buffer.
    pub open spec fn pixel_index(&self, x: int, y: int) -> int {
        4 * (y * self.width + x)
    }

    /// The pixel stored at `(x, y)`.
    pub open spec fn pixel_at(&self, x: int, y: int) -> Pixel {
        Pixel {
            r: self.data@[self.pixel_index(x, y)],
            g: self.data@[self.pixel_index(x, y) + 1],
            b: self.data@[self.pixel_index(x, y) + 2],
            a: self.data@[self.pixel_index(x, y) + 3],
        }
    }

    pub open spec fn spec_in_bounds(&self, x: int, y: int) -> bool {
        0 <= x < self.width && 0 <= y < self.height
    }

    /// Builds an image from raw RGBA bytes; refuses a buffer whose length does
    /// not match the dimensions.
    pub fn from_raw(width: u32, height: u32, data: Vec<u8>) -> (r: Option<Image>)
        ensures
            r is Some <==> data@.len() == width * height * 4,
            r matches Some(img) ==> img.width == width && img.height == height
                && img.data@ == data@,
    {
        proof {
            lemma_mul_bounds(width as int, height as int, 0x1_0000_0000, 0x1_0000_0000);
        }
        let expected_len: u128 = (width as u128) * (height as u128) * 4;
        if (data.len() as u128) == expected_len {
            Some(Image { width, height, data })
        } else {
            None
        }
    }

    /// Whether `(x, y)` lies within this image.
    pub fn in_bounds(&self, x: u32, y: u32) -> (r: bool)
        ensures
            r == self.spec_in_bounds(x as int, y as int),
    {
        x < self.width && y < self.height
    }

    /// Reads the pixel at `(x, y)`; the coordinate must lie within bounds.
    pub fn get_pixel(&self, x: u32, y: u32) -> (p: Pixel)
        requires
            self.wf(),
            self.spec_in_bounds(x as int, y as int),
        ensures
            p == self.pixel_at(x as int, y as int),
    {
        proof {
            lemma_pixel_linear_index(self.width as int, self.height as int, x as int, y as int);
            assert(self.data.len() <= usize::MAX);
            assert(self.data@.len() == (self.width * self.height) * 4);
            assert((y as int) * (self.width as int) + (x as int) < self.width * self.height);
            assert(4 * ((y as int) * (self.width as int) + (x as int)) + 3 < self.data@.len());
        }
        let base: usize = 4 * ((y as usize) * (self.width as usize) + (x as usize));
        Pixel {
            r: self.data[base],
            g: self.data[base + 1],
            b: self.data[base + 2],
            a: self.data[base + 3],
        }
    }
}

} // verus!
