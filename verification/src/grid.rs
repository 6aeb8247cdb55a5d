use vstd::prelude::*;

verus! {

/// Do the dimensions and sample count make an analyzable grid?
/// At least one pixel on each axis, an area the analyzers' accumulators
/// can handle, and a sample vector that exactly fills the grid.
pub open spec fn grid_dims_ok(w: int, h: int, len: int) -> bool {
    &&& 1 <= w
    &&& 1 <= h
    &&& w * h <= crate::AREA_MAX
    &&& len == w * h
}

/// An owned luminance grid: `width * height` 8-bit intensity samples in
/// row-major order.  Immutable after construction; every analyzer takes
/// it by shared reference and requires `wf()`.
pub struct PixelGrid {
    pub width: usize,
    pub height: usize,
    pub data: Vec<u8>,
}

impl PixelGrid {
    /// The grid invariant: non-degenerate dimensions, bounded area, and
    /// exactly one sample per pixel.
    pub open spec fn wf(self) -> bool {
        grid_dims_ok(self.width as int, self.height as int, self.data@.len() as int)
    }

    /// Pixel count of the full grid (the normalization denominator).
    pub open spec fn spec_area(self) -> int {
        self.width * self.height
    }

    /// The sample at column `x`, row `y`.
    pub open spec fn sample(self, x: int, y: int) -> u8 {
        self.data@[y * self.width + x]
    }

    /// Builds a grid, checking every well-formedness condition at run
    /// time; returns `None` exactly when one of them fails.
    pub fn try_new(width: u32, height: u32, data: Vec<u8>) -> (r: Option<PixelGrid>)
        ensures
            match r {
                Some(g) => {
                    &&& g.wf()
                    &&& g.width == width as usize
                    &&& g.height == height as usize
                    &&& g.data@ == data@
                    &&& grid_dims_ok(width as int, height as int, data@.len() as int)
                },
                None => !grid_dims_ok(width as int, height as int, data@.len() as int),
            },
    {
        if width == 0 || height == 0 {
            return None;
        }
        proof {
            let wi = width as int;
            let hi = height as int;
            assert(wi * hi < 0x10000000000000000) by (nonlinear_arith)
                requires
                    0 <= wi < 0x100000000,
                    0 <= hi < 0x100000000,
            ;
        }
        let area: u64 = (width as u64) * (height as u64);
        if area > crate::AREA_MAX {
            return None;
        }
        if (data.len() as u64) != area {
            return None;
        }
        Some(PixelGrid { width: width as usize, height: height as usize, data })
    }

    /// Pixel count of the full grid, as a machine integer.
    pub fn area(&self) -> (a: u64)
        requires
            self.wf(),
        ensures
            a == self.spec_area(),
            1 <= a <= crate::AREA_MAX,
    {
        proof {
            let wi = self.width as int;
            let hi = self.height as int;
            assert(1 <= wi * hi) by (nonlinear_arith)
                requires
                    1 <= wi,
                    1 <= hi,
            ;
        }
        (self.width as u64) * (self.height as u64)
    }
}

} // verus!
