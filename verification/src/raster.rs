use vstd::prelude::*;
use crate::color::{clamped_channel, quantize_pixel, Pixel};

verus! {

/// Row-major index of the pixel at `(row, col)` in a raster `width`
/// pixels wide.
pub open spec fn slot(width: int, row: int, col: int) -> int {
    row * width + col
}

/// The in-memory output image: an 8-bit-per-channel RGB raster, stored
/// row-major with row 0 at the top of the frame.
pub struct Raster {
    pub width: usize,
    pub height: usize,
    pub data: Vec<Pixel>,
}

impl Raster {
    /// The raster holds exactly `width * height` pixels, both sides
    /// positive. The product is bounded so that every slot computation
    /// stays inside `usize`.
    pub open spec fn wf(self) -> bool {
        &&& 1 <= self.width
        &&& 1 <= self.height
        &&& self.width * self.height <= usize::MAX
        &&& self.data@.len() == self.width * self.height
    }

    /// A fresh all-black raster of the given dimensions.
    pub fn new(width: usize, height: usize) -> (r: Raster)
        requires
            1 <= width,
            1 <= height,
            width * height <= usize::MAX,
        ensures
            r.wf(),
            r.width == width,
            r.height == height,
            forall|i: int| 0 <= i < r.data@.len() ==> r.data@[i] == Pixel::black(),
    {
        let total: usize = width * height;
        let mut data: Vec<Pixel> = Vec::new();
        let mut k: usize = 0;
        while k < total
            invariant
                k <= total,
                data@.len() == k,
                forall|i: int| 0 <= i < k ==> data@[i] == Pixel::black(),
            decreases total - k,
        {
            data.push(Pixel { r: 0, g: 0, b: 0 });
            k = k + 1;
        }
        Raster { width, height, data }
    }

    /// Every in-bounds coordinate pair lies inside the pixel buffer.
    proof fn lemma_slot_in_bounds(self, row: int, col: int)
        requires
            self.wf(),
            0 <= row < self.height,
            0 <= col < self.width,
        ensures
            0 <= slot(self.width as int, row, col) < self.data@.len(),
    {
        lemma_slot_in_range(self.width as int, self.height as int, row, col);
    }

    /// The pixel stored at `(row, col)`.
    pub fn get(&self, row: usize, col: usize) -> (p: Pixel)
        requires
            self.wf(),
            row < self.height,
            col < self.width,
        ensures
            p == self.data@[slot(self.width as int, row as int, col as int)],
    {
        proof {
            self.lemma_slot_in_bounds(row as int, col as int);
        }
        let idx: usize = row * self.width + col;
        self.data[idx]
    }

    /// Store a pixel at `(row, col)`; every other pixel is unchanged.
    pub fn set(&mut self, row: usize, col: usize, p: Pixel)
        requires
            old(self).wf(),
            row < old(self).height,
            col < old(self).width,
        ensures
            final(self).wf(),
            final(self).width == old(self).width,
            final(self).height == old(self).height,
            final(self).data@ == old(self).data@.update(
                slot(old(self).width as int, row as int, col as int),
                p,
            ),
    {
        proof {
            self.lemma_slot_in_bounds(row as int, col as int);
        }
        let idx: usize = row * self.width + col;
        self.data.set(idx, p);
    }

    /// Quantize an accumulated color and store it at `(row, col)`: each
    /// channel, already averaged, gamma-corrected and scaled by 256 by the
    /// driver, is clamped to one byte.
    pub fn write_scaled(&mut self, row: usize, col: usize, r: u64, g: u64, b: u64)
        requires
            old(self).wf(),
            row < old(self).height,
            col < old(self).width,
        ensures
            final(self).wf(),
            final(self).width == old(self).width,
            final(self).height == old(self).height,
            final(self).data@ == old(self).data@.update(
                slot(old(self).width as int, row as int, col as int),
                Pixel { r: clamped_channel(r), g: clamped_channel(g), b: clamped_channel(b) },
            ),
    {
        let p = quantize_pixel(r, g, b);
        self.set(row, col, p);
    }
}

/// The image row that camera row `row` lands in: sampling walks rows
/// bottom-up (camera parameter `v` grows upward) while the raster keeps
/// row 0 at the top, so the row index is mirrored.
pub fn flip_row(row: usize, height: usize) -> (r: usize)
    requires
        row < height,
    ensures
        r == height - 1 - row,
        r < height,
{
    height - 1 - row
}

/// Mirroring rows is an involution: applying `flip_row` twice gives the
/// original row back, so the mirrored traversal covers each raster row
/// exactly once.
pub proof fn lemma_flip_row_involution(row: int, height: int)
    requires
        0 <= row < height,
    ensures
        height - 1 - (height - 1 - row) == row,
{
}

/// An in-bounds coordinate pair indexes inside a `width * height` buffer.
pub proof fn lemma_slot_in_range(width: int, height: int, row: int, col: int)
    requires
        0 <= row < height,
        0 <= col < width,
    ensures
        0 <= slot(width, row, col) < width * height,
{
    assert(0 <= row * width + col < width * height) by (nonlinear_arith)
        requires
            0 <= row < height,
            0 <= col < width,
    {
    }
}

/// Distinct pixel coordinates occupy distinct slots of the pixel buffer.
/// This is the write-race freedom of the parallel sampler: workers that
/// own different pixels write disjoint parts of the raster.
pub proof fn lemma_slot_injective(width: int, r1: int, c1: int, r2: int, c2: int)
    requires
        1 <= width,
        0 <= c1 < width,
        0 <= c2 < width,
        0 <= r1,
        0 <= r2,
        !(r1 == r2 && c1 == c2),
    ensures
        slot(width, r1, c1) != slot(width, r2, c2),
{
    assert(r1 * width + c1 != r2 * width + c2) by (nonlinear_arith)
        requires
            1 <= width,
            0 <= c1 < width,
            0 <= c2 < width,
            0 <= r1,
            0 <= r2,
            !(r1 == r2 && c1 == c2),
    {
    }
}

} // verus!
