//! RGBA images held as rows of bytes.
use vstd::prelude::*;
use crate::geometry::{Size, MAX_DIMENSION};

verus! {

/// An 8-bit RGBA image: `width * height` pixels, row by row, four bytes each
/// in the order red, green, blue, alpha.
#[derive(Debug)]
pub struct Image {
    pub width: u32,
    pub height: u32,
    pub pixels: Vec<u8>,
}

/// The number of bytes of a `width` by `height` RGBA raster.
pub open spec fn raster_len(width: int, height: int) -> int {
    width * height * 4
}

impl Image {
    /// A valid size, and four bytes for each pixel.
    pub open spec fn wf(&self) -> bool {
        &&& self.size().wf()
        &&& self.pixels@.len() == raster_len(self.width as int, self.height as int)
    }

    pub open spec fn size(&self) -> Size {
        Size { width: self.width, height: self.height }
    }

    /// The image of the given size and bytes, or `None` when the size is not
    /// within `1..=MAX_DIMENSION` on both axes or the bytes do not hold exactly
    /// four per pixel.
    pub fn from_raw(width: u32, height: u32, pixels: Vec<u8>) -> (r: Option<Image>)
        ensures
            r.is_some() <==> ((Size { width, height }).wf() && pixels@.len() == raster_len(
                width as int,
                height as int,
            )),
            r matches Some(img) ==> img.width == width && img.height == height && img.pixels@
                == pixels@,
    {
        if width < 1 || width > MAX_DIMENSION || height < 1 || height > MAX_DIMENSION {
            return None;
        }
        proof {
            lemma_raster_len_bound(width as int, height as int);
        }
        if pixels.len() != (width as usize) * (height as usize) * 4 {
            return None;
        }
        Some(Image { width, height, pixels })
    }

    /// The image's width and height.
    pub fn dimensions(&self) -> (s: Size)
        ensures
            s == self.size(),
    {
        Size { width: self.width, height: self.height }
    }

    /// Gives up the image's bytes.
    pub fn into_raw(self) -> (r: Vec<u8>)
        ensures
            r@ == self.pixels@,
    {
        self.pixels
    }

    /// A copy of the image.
    pub fn duplicate(&self) -> (r: Image)
        ensures
            r.width == self.width,
            r.height == self.height,
            r.pixels@ == self.pixels@,
    {
        Image { width: self.width, height: self.height, pixels: self.pixels.clone() }
    }
}

/// A raster within the largest size fits easily in memory indices.
pub proof fn lemma_raster_len_bound(width: int, height: int)
    requires
        1 <= width <= MAX_DIMENSION,
        1 <= height <= MAX_DIMENSION,
    ensures
        4 <= raster_len(width, height) <= 1_073_741_824,
        width * height <= 268_435_456,
{
    assert(width * height <= 16384 * 16384) by (nonlinear_arith)
        requires 1 <= width <= 16384, 1 <= height <= 16384;
    assert(width * height >= 1) by (nonlinear_arith)
        requires 1 <= width, 1 <= height;
}

} // verus!
