use vstd::prelude::*;
use crate::color::{clamped_channel, Pixel};
use crate::raster::{flip_row, lemma_slot_in_range, lemma_slot_injective, slot, Raster};

verus! {

/// The pixel a sampled color quantizes to: each channel, already averaged,
/// gamma-corrected and scaled by 256, clamped to one byte.
pub open spec fn quantized(c: (u64, u64, u64)) -> Pixel {
    Pixel { r: clamped_channel(c.0), g: clamped_channel(c.1), b: clamped_channel(c.2) }
}

/// Assemble the output raster from the sampled frame: one scaled color per
/// pixel, rows indexed bottom-up as the sampler walks them (camera
/// parameter `v` grows upward). Each color is quantized and stored at its
/// mirrored row, so row 0 of the result is the top of the frame, and every
/// pixel of the raster holds exactly the color sampled for it.
pub fn assemble_frame(colors: &Vec<Vec<(u64, u64, u64)>>, width: usize, height: usize) -> (r:
    Raster)
    requires
        1 <= width,
        1 <= height,
        width * height <= usize::MAX,
        colors@.len() == height,
        forall|i: int| 0 <= i < height ==> colors@[i]@.len() == width,
    ensures
        r.wf(),
        r.width == width,
        r.height == height,
        forall|i: int, j: int|
            0 <= i < height && 0 <= j < width ==> r.data@[slot(
                width as int,
                height - 1 - i,
                j,
            )] == quantized(#[trigger] colors@[i]@[j]),
{
    let mut r = Raster::new(width, height);
    let mut row: usize = 0;
    while row < height
        invariant
            r.wf(),
            r.width == width,
            r.height == height,
            row <= height,
            colors@.len() == height,
            forall|i: int| 0 <= i < height ==> colors@[i]@.len() == width,
            forall|i: int, j: int|
                0 <= i < row && 0 <= j < width ==> r.data@[slot(
                    width as int,
                    height - 1 - i,
                    j,
                )] == quantized(#[trigger] colors@[i]@[j]),
        decreases height - row,
    {
        let out_row = flip_row(row, height);
        let mut col: usize = 0;
        while col < width
            invariant
                r.wf(),
                r.width == width,
                r.height == height,
                row < height,
                out_row == height - 1 - row,
                col <= width,
                colors@.len() == height,
                forall|i: int| 0 <= i < height ==> colors@[i]@.len() == width,
                forall|i: int, j: int|
                    0 <= i < row && 0 <= j < width ==> r.data@[slot(
                        width as int,
                        height - 1 - i,
                        j,
                    )] == quantized(#[trigger] colors@[i]@[j]),
                forall|j: int|
                    0 <= j < col ==> r.data@[slot(width as int, height - 1 - row, j)] == quantized(
                        #[trigger] colors@[row as int]@[j],
                    ),
            decreases width - col,
        {
            let c: (u64, u64, u64) = colors[row][col];
            r.write_scaled(out_row, col, c.0, c.1, c.2);
            proof {
                let w = width as int;
                let h = height as int;
                let written = slot(w, h - 1 - row, col as int);
                lemma_slot_in_range(w, h, h - 1 - row, col as int);
                assert forall|i: int, j: int| 0 <= i < row && 0 <= j < width implies r.data@[slot(
                    w,
                    h - 1 - i,
                    j,
                )] == quantized(#[trigger] colors@[i]@[j]) by {
                    lemma_slot_in_range(w, h, h - 1 - i, j);
                    lemma_slot_injective(w, h - 1 - i, j, h - 1 - row, col as int);
                }
                assert forall|j: int| 0 <= j < col + 1 implies r.data@[slot(w, h - 1 - row, j)]
                    == quantized(#[trigger] colors@[row as int]@[j]) by {
                    if j < col {
                        lemma_slot_in_range(w, h, h - 1 - row, j);
                        lemma_slot_injective(w, h - 1 - row, j, h - 1 - row, col as int);
                    }
                }
            }
            col = col + 1;
        }
        row = row + 1;
    }
    r
}

} // verus!
