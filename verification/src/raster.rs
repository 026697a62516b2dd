//! In-memory raster models: an 8-bit RGB raster and an 8-bit single-channel
//! (luma) raster, each a flat row-major pixel buffer with its dimensions.

use vstd::prelude::*;

verus! {

/// An 8-bit RGB raster: `pixels` holds `3 * width * height` bytes, three
/// consecutive bytes (red, green, blue) per pixel, rows first.
#[derive(Debug, Clone, PartialEq, Eq)]
pub struct Raster {
    pub width: u32,
    pub height: u32,
    pub pixels: Vec<u8>,
}

/// An 8-bit single-channel raster: `pixels` holds `width * height` bytes,
/// one byte per pixel, rows first.
#[derive(Debug, Clone, PartialEq, Eq)]
pub struct LumaRaster {
    pub width: u32,
    pub height: u32,
    pub pixels: Vec<u8>,
}

impl Raster {
    /// The buffer holds exactly three bytes for each pixel.
    pub open spec fn wf(&self) -> bool {
        self.pixels@.len() == 3 * self.width * self.height
    }

    /// Builds an RGB raster from a flat buffer, rejecting a buffer whose
    /// length does not match the dimensions.
    pub fn from_pixels(width: u32, height: u32, pixels: Vec<u8>) -> (r: Option<Raster>)
        ensures
            r is Some <==> pixels@.len() == 3 * width * height,
            r matches Some(img) ==> img == (Raster { width, height, pixels }) && img.wf(),
    {
        let n: usize = pixels.len();
        proof {
            assert((width as int) * (height as int) <= u64::MAX) by (nonlinear_arith)
                requires
                    width <= u32::MAX,
                    height <= u32::MAX,
            ;
        }
        let count: u64 = (width as u64) * (height as u64);
        proof {
            assert(3 * width * height == 3 * ((width as int) * (height as int)))
                by (nonlinear_arith);
        }
        if n % 3 == 0 && (n / 3) as u64 == count {
            Some(Raster { width, height, pixels })
        } else {
            None
        }
    }
}

impl LumaRaster {
    /// The buffer holds exactly one byte for each pixel.
    pub open spec fn wf(&self) -> bool {
        self.pixels@.len() == self.width * self.height
    }

    /// Builds a single-channel raster from a flat buffer, rejecting a buffer
    /// whose length does not match the dimensions.
    pub fn from_pixels(width: u32, height: u32, pixels: Vec<u8>) -> (r: Option<LumaRaster>)
        ensures
            r is Some <==> pixels@.len() == width * height,
            r matches Some(img) ==> img == (LumaRaster { width, height, pixels }) && img.wf(),
    {
        let n: usize = pixels.len();
        proof {
            assert((width as int) * (height as int) <= u64::MAX) by (nonlinear_arith)
                requires
                    width <= u32::MAX,
                    height <= u32::MAX,
            ;
        }
        let count: u64 = (width as u64) * (height as u64);
        if (n as u64) == count {
            Some(LumaRaster { width, height, pixels })
        } else {
            None
        }
    }
}

} // verus!
