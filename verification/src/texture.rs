use vstd::prelude::*;
use crate::color::Pixel;
use crate::raster::{slot, Raster};

verus! {

/// The diagnostic color handed out when the texture's image could not be
/// decoded: pure cyan.
pub open spec fn decode_failure_color() -> Pixel {
    Pixel { r: 0, g: 255, b: 255 }
}

/// Clamp a pixel index to `[0, extent - 1]`. Indices are unsigned, so
/// only the upper bound needs work.
pub open spec fn clamped_index(i: int, extent: int) -> int {
    if i < extent {
        i
    } else {
        extent - 1
    }
}

/// A texture backed by a decoded raster. Decoding is a collaborator's
/// job: the texture is built from its result, and a decode failure is a
/// permanent state that turns every lookup into a fixed diagnostic color.
pub struct ImageTexture {
    pub img: Option<Raster>,
}

impl ImageTexture {
    /// The backing raster, when there is one, is well-formed.
    pub open spec fn wf(self) -> bool {
        self.img matches Some(r) ==> r.wf()
    }

    /// Wrap a decode result: the raster on success, `None` on failure.
    pub fn new(img: Option<Raster>) -> (t: ImageTexture)
        requires
            img matches Some(r) ==> r.wf(),
        ensures
            t.wf(),
            t.img == img,
    {
        ImageTexture { img }
    }

    /// Look up the texel at pixel coordinates `(i, j)`, clamping each
    /// coordinate into the raster's bounds; `j` counts rows from the top.
    /// If decoding failed there is nothing to sample and the diagnostic
    /// color comes back instead.
    pub fn sample(&self, i: usize, j: usize) -> (p: Pixel)
        requires
            self.wf(),
        ensures
            self.img is None ==> p == decode_failure_color(),
            self.img matches Some(r) ==> p == r.data@[slot(
                r.width as int,
                clamped_index(j as int, r.height as int),
                clamped_index(i as int, r.width as int),
            )],
    {
        match &self.img {
            None => Pixel { r: 0, g: 255, b: 255 },
            Some(r) => {
                let col: usize = if i < r.width {
                    i
                } else {
                    r.width - 1
                };
                let row: usize = if j < r.height {
                    j
                } else {
                    r.height - 1
                };
                r.get(row, col)
            },
        }
    }
}

} // verus!
