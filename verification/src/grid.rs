//! Pixel grids laid over byte buffers.

use vstd::prelude::*;

verus! {

/// A grid of pixels over a byte buffer: `height` rows of `width` pixels with
/// `channels` bytes each, the rows starting `stride` bytes apart.
#[derive(Clone, Copy, Debug, PartialEq, Eq, Structural)]
pub struct Grid {
    pub width: usize,
    pub height: usize,
    pub stride: usize,
    pub channels: usize,
}

impl Grid {
    /// The bytes of one row that hold pixels.
    pub open spec fn spec_row_bytes(self) -> int {
        self.width * self.channels
    }

    /// The bytes of the whole grid that hold pixels.
    pub open spec fn spec_pixel_bytes(self) -> int {
        self.width * self.height * self.channels
    }

    /// Whether the grid is not empty, its rows do not overlap, and all of its
    /// pixels lie within a buffer of `len` bytes.
    pub open spec fn spec_fits(self, len: int) -> bool {
        &&& self.width > 0
        &&& self.height > 0
        &&& self.channels > 0
        &&& self.stride >= self.spec_row_bytes()
        &&& len >= (self.height - 1) * self.stride + self.spec_row_bytes()
    }

    /// Whether the grid is not empty, its rows do not overlap, and all of its
    /// pixels lie within a buffer of `len` bytes.
    pub fn fits(&self, len: usize) -> (fits: bool)
        ensures
            fits == self.spec_fits(len as int),
    {
        if self.width == 0 || self.height == 0 || self.channels == 0 {
            return false;
        }
        let row_bytes = match self.width.checked_mul(self.channels) {
            Some(n) => n,
            None => {
                return false;
            },
        };
        if self.stride < row_bytes {
            return false;
        }
        let last_row = match (self.height - 1).checked_mul(self.stride) {
            Some(n) => n,
            None => {
                return false;
            },
        };
        match last_row.checked_add(row_bytes) {
            Some(n) => len >= n,
            None => false,
        }
    }

    /// A grid that fits a buffer leaves room for all of its pixel bytes.
    pub proof fn lemma_fits_pixel_bytes(self, len: int)
        requires
            self.spec_fits(len),
        ensures
            0 < self.spec_pixel_bytes() <= len,
    {
        let w = self.width as int;
        let h = self.height as int;
        let c = self.channels as int;
        let s = self.stride as int;
        assert((h - 1) * s >= (h - 1) * (w * c)) by (nonlinear_arith)
            requires
                s >= w * c,
                h >= 1,
        ;
        assert((h - 1) * (w * c) + w * c == w * h * c) by (nonlinear_arith);
        assert(0 < w * h * c) by (nonlinear_arith)
            requires
                w > 0,
                h > 0,
                c > 0,
        ;
    }
}

} // verus!
