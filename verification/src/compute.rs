//! Plain values that describe a fragment: spans of the shared buffer, the
//! pixel grid, the region of the plane, and one computed pixel.

use vstd::prelude::*;

verus! {

/// A span of the pixel buffer: where it starts and how many pixels it holds.
#[derive(Debug, Clone, Copy, PartialEq, Eq, Structural)]
pub struct Pixels {
    offset: u32,
    count: u32,
}

/// A point of the plane, each coordinate held as binary64 bits.
#[derive(Debug, Clone, Copy, PartialEq, Eq, Structural)]
pub struct Point {
    /// Bits of the horizontal coordinate.
    pub x: u64,
    /// Bits of the vertical coordinate.
    pub y: u64,
}

/// A span of raw bytes inside the buffer that the peer maintains.
#[derive(Debug, Clone, Copy, PartialEq, Eq, Structural)]
pub struct U8Data {
    /// First byte of the span.
    pub offset: u32,
    /// Number of bytes in the span.
    pub count: u32,
}

/// Dimensions of a pixel grid.
#[derive(Debug, Clone, Copy, PartialEq, Eq, Structural)]
pub struct Resolution {
    /// Pixels per row.
    pub nx: u16,
    /// Number of rows.
    pub ny: u16,
}

/// A rectangle of the plane, given by two opposite corners.
#[derive(Debug, Clone, Copy, PartialEq, Eq, Structural)]
pub struct Range {
    /// Corner with the smallest coordinates.
    pub min: Point,
    /// Corner with the largest coordinates.
    pub max: Point,
}

/// A span of pixels inside the buffer that the peer maintains.
#[derive(Debug, Clone, Copy, PartialEq, Eq, Structural)]
pub struct PixelData {
    /// First pixel of the span.
    pub offset: u32,
    /// Number of pixels in the span.
    pub count: u32,
}

/// One computed pixel: two binary32 values held as their bits. What the two
/// values mean depends on the algorithm: an escape magnitude or a root index
/// in `zn`, and a normalized iteration ratio in `count`.
#[derive(Debug, Clone, Copy, PartialEq, Eq, Structural)]
pub struct PixelIntensity {
    /// Bits of the algorithm's first output.
    pub zn: u32,
    /// Bits of the normalized iteration ratio.
    pub count: u32,
}

impl Resolution {
    /// A grid is well formed when it has at least one pixel on each axis.
    pub open spec fn wf(&self) -> bool {
        self.nx > 0 && self.ny > 0
    }

    /// Number of pixels of the grid.
    pub open spec fn spec_pixel_count(&self) -> int {
        self.nx * self.ny
    }

    /// Tells whether the grid is well formed.
    pub fn is_valid(&self) -> (b: bool)
        ensures
            b == self.wf(),
    {
        self.nx > 0 && self.ny > 0
    }

    /// Number of pixels of the grid, `nx * ny`.
    pub fn pixel_count(&self) -> (n: u32)
        ensures
            n == self.spec_pixel_count(),
    {
        let nx: u32 = self.nx as u32;
        let ny: u32 = self.ny as u32;
        assert(nx * ny <= 0xffff * 0xffff) by (nonlinear_arith)
            requires
                nx <= 0xffff,
                ny <= 0xffff,
        ;
        nx * ny
    }
}

impl PixelIntensity {
    /// Builds a pixel from the bits of its two values.
    pub fn new(zn: u32, count: u32) -> (p: PixelIntensity)
        ensures
            p.zn == zn,
            p.count == count,
    {
        PixelIntensity { zn, count }
    }
}

} // verus!
