//! The mask-vectorization contract: what any algorithm that turns a raster
//! mask into a vector representation must look like, decoupled from every
//! concrete tracing algorithm.

use vstd::prelude::*;

use crate::error::BgrResult;

verus! {

/// A single-channel (grayscale) raster mask: per-pixel foreground opacity,
/// row-major, exactly one byte per pixel.
pub struct GrayMask {
    width: u32,
    height: u32,
    data: Vec<u8>,
}

impl GrayMask {
    /// The mask holds exactly one byte per pixel.
    pub closed spec fn wf(&self) -> bool {
        self.data@.len() == self.width * self.height
    }

    /// The pixel bytes, row-major.
    pub closed spec fn pixels(&self) -> Seq<u8> {
        self.data@
    }

    /// The width in pixels.
    pub closed spec fn spec_width(&self) -> u32 {
        self.width
    }

    /// The height in pixels.
    pub closed spec fn spec_height(&self) -> u32 {
        self.height
    }

    /// Build a mask from raw row-major bytes; fails exactly when the byte
    /// count does not match the dimensions.
    pub fn new(width: u32, height: u32, data: Vec<u8>) -> (r: Option<GrayMask>)
        ensures
            r is Some <==> data@.len() == width * height,
            r matches Some(m) ==> m.wf() && m.spec_width() == width && m.spec_height() == height
                && m.pixels() == data@,
    {
        proof {
            assert((width as int) * (height as int) <= 0xffff_ffff * 0xffff_ffff)
                by (nonlinear_arith)
                requires
                    width <= 0xffff_ffffu64,
                    height <= 0xffff_ffffu64,
            ;
        }
        if data.len() as u64 == (width as u64) * (height as u64) {
            Some(GrayMask { width, height, data })
        } else {
            None
        }
    }

    /// The width in pixels.
    pub fn width(&self) -> (r: u32)
        ensures
            r == self.spec_width(),
    {
        self.width
    }

    /// The height in pixels.
    pub fn height(&self) -> (r: u32)
        ensures
            r == self.spec_height(),
    {
        self.height
    }

    /// The opacity of the pixel at column `x` of row `y`.
    pub fn get(&self, x: u32, y: u32) -> (r: u8)
        requires
            self.wf(),
            x < self.spec_width(),
            y < self.spec_height(),
        ensures
            r == self.pixels()[y * self.spec_width() + x],
    {
        let n = self.data.len();
        proof {
            assert((y * self.width + x) < (self.width * self.height)) by (nonlinear_arith)
                requires
                    x < self.width,
                    y < self.height,
            ;
            assert(self.width * self.height == n);
        }
        let idx: usize = (y as usize) * (self.width as usize) + (x as usize);
        self.data[idx]
    }
}

/// An algorithm that can turn a raster mask into a vector representation.
///
/// The contract is stateless across calls: an implementation decides its own
/// options and output types, takes a mask by shared reference, and either
/// produces an output or fails; nothing more is imposed, so independent
/// vectorizers may run concurrently over independent masks.
pub trait MaskVectorizer {
    type Options;

    type Output;

    fn vectorize(&self, mask: &GrayMask, options: &Self::Options) -> BgrResult<Self::Output>;
}

} // verus!
