//! Colour images of the textures that the GUI library manages, and their
//! partial updates.

use vstd::arithmetic::div_mod::{lemma_fundamental_div_mod, lemma_fundamental_div_mod_converse};
use vstd::prelude::*;

verus! {

/// One pixel: red, green, blue and alpha.
#[derive(Clone, Copy, Debug, PartialEq, Eq, Hash, Structural)]
pub struct Color32 {
    /// The four channels.
    pub rgba: u32,
}

/// An image in memory, row by row from the top.
#[derive(Debug, PartialEq, Eq)]
pub struct ColorImage {
    /// Width in pixels.
    pub width: usize,
    /// Height in pixels.
    pub height: usize,
    /// The pixels, row by row.
    pub pixels: Vec<Color32>,
}

/// Whether column `col` and row `row` lie in the rectangle at `(x, y)` of
/// `width` by `height` pixels.
pub open spec fn spec_in_rect(col: int, row: int, x: int, y: int, width: int, height: int) -> bool {
    x <= col < x + width && y <= row < y + height
}

impl ColorImage {
    /// There is a pixel for every position.
    pub open spec fn wf(&self) -> bool {
        self.pixels@.len() == self.width * self.height
    }

    /// The pixel at column `col` of row `row`.
    pub open spec fn spec_pixel(&self, col: int, row: int) -> Color32 {
        self.pixels@[row * self.width + col]
    }

    /// An image of `src`'s size fits at `(x, y)`.
    pub open spec fn spec_region_fits(&self, x: usize, y: usize, src: &ColorImage) -> bool {
        x + src.width <= self.width && y + src.height <= self.height
    }

    /// The pixels after `src` was copied to `(x, y)`: those of `src` inside
    /// the rectangle that it covers, and the old ones outside.
    pub open spec fn spec_updated(&self, x: usize, y: usize, src: &ColorImage) -> Seq<Color32> {
        Seq::new(
            self.pixels@.len(),
            |i: int|
                {
                    let col = i % (self.width as int);
                    let row = i / (self.width as int);
                    if spec_in_rect(
                        col,
                        row,
                        x as int,
                        y as int,
                        src.width as int,
                        src.height as int,
                    ) {
                        src.spec_pixel(col - x, row - y)
                    } else {
                        self.pixels@[i]
                    }
                },
        )
    }

    /// Whether there is a pixel for every position.
    pub fn is_wf(&self) -> (r: bool)
        ensures
            r == self.wf(),
    {
        proof {
            assert(self.pixels.len() == self.pixels@.len());
        }
        match self.width.checked_mul(self.height) {
            Some(count) => self.pixels.len() == count,
            None => false,
        }
    }

    /// Whether an image of `src`'s size fits at `(x, y)`.
    pub fn region_fits(&self, x: usize, y: usize, src: &ColorImage) -> (r: bool)
        ensures
            r == self.spec_region_fits(x, y, src),
    {
        x <= self.width && src.width <= self.width - x && y <= self.height && src.height
            <= self.height - y
    }

    /// Copies `src` into the image with its top-left corner at `(x, y)`.
    /// Nothing outside the rectangle that `src` covers changes.
    pub fn update_rect(&mut self, x: usize, y: usize, src: &ColorImage)
        requires
            old(self).wf(),
            src.wf(),
            old(self).spec_region_fits(x, y, src),
        ensures
            final(self).wf(),
            final(self).width == old(self).width,
            final(self).height == old(self).height,
            final(self).pixels@ == old(self).spec_updated(x, y, src),
    {
        let width = self.width;
        let ghost w = self.width as int;
        let ghost sw = src.width as int;
        let ghost start = self.pixels@;
        let mut sy: usize = 0;
        while sy < src.height
            invariant
                sy <= src.height,
                src.wf(),
                self.width == width,
                w == width,
                sw == src.width,
                self.height == old(self).height,
                self.width == old(self).width,
                old(self).wf(),
                old(self).spec_region_fits(x, y, src),
                start == old(self).pixels@,
                self.pixels@.len() == start.len(),
                forall|i: int|
                    0 <= i < start.len() ==> #[trigger] self.pixels@[i] == (if spec_in_rect(
                        i % w,
                        i / w,
                        x as int,
                        y as int,
                        sw,
                        sy as int,
                    ) {
                        src.spec_pixel(i % w - x, i / w - y)
                    } else {
                        start[i]
                    }),
            decreases src.height - sy,
        {
            let mut sx: usize = 0;
            while sx < src.width
                invariant
                    sx <= src.width,
                    sy < src.height,
                    src.wf(),
                    self.width == width,
                    w == width,
                    sw == src.width,
                    self.height == old(self).height,
                    self.width == old(self).width,
                    old(self).wf(),
                    old(self).spec_region_fits(x, y, src),
                    start == old(self).pixels@,
                    self.pixels@.len() == start.len(),
                    forall|i: int|
                        0 <= i < start.len() ==> #[trigger] self.pixels@[i] == (if spec_in_rect(
                            i % w,
                            i / w,
                            x as int,
                            y as int,
                            sw,
                            sy as int,
                        ) || (i / w == y + sy && x <= i % w < x + sx) {
                            src.spec_pixel(i % w - x, i / w - y)
                        } else {
                            start[i]
                        }),
                decreases src.width - sx,
            {
                proof {
                    lemma_index_in_bounds(sx as int, sy as int, sw, src.height as int);
                    lemma_index_in_bounds(
                        (x + sx) as int,
                        (y + sy) as int,
                        w,
                        self.height as int,
                    );
                    assert(src.pixels.len() == src.pixels@.len());
                    assert(self.pixels.len() == self.pixels@.len());
                }
                let from: usize = sy * src.width + sx;
                let to: usize = (y + sy) * width + (x + sx);
                let pixel = src.pixels[from];
                self.pixels[to] = pixel;
                proof {
                    lemma_fundamental_div_mod_converse(
                        to as int,
                        w,
                        (y + sy) as int,
                        (x + sx) as int,
                    );
                    assert forall|i: int| 0 <= i < start.len() implies #[trigger] self.pixels@[i]
                        == (if spec_in_rect(i % w, i / w, x as int, y as int, sw, sy as int) || (i
                        / w == y + sy && x <= i % w < x + sx + 1) {
                        src.spec_pixel(i % w - x, i / w - y)
                    } else {
                        start[i]
                    }) by {
                        if i != to {
                            lemma_fundamental_div_mod(i, w);
                            if i / w == y + sy && i % w == x + sx {
                                assert(i == w * (y + sy) + (x + sx));
                            }
                        }
                    }
                }
                sx += 1;
            }
            sy += 1;
        }
    }
}

/// The position of column `col` of row `row` in an image of `width` by
/// `height` pixels lies among its pixels.
proof fn lemma_index_in_bounds(col: int, row: int, width: int, height: int)
    requires
        0 <= col < width,
        0 <= row < height,
    ensures
        0 <= row * width + col < width * height,
        0 <= row * width,
{
    assert(row * width + width <= height * width) by (nonlinear_arith)
        requires
            row + 1 <= height,
            0 <= width,
    ;
    assert(0 <= row * width) by (nonlinear_arith)
        requires
            0 <= row,
            0 <= width,
    ;
}

} // verus!
