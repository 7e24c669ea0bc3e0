//! RGBA images.

use crate::number::Number;
use crate::pixels;
use crate::pixels::Quad;
use vstd::prelude::*;

verus! {

/// An image of `width` by `height` pixels, four bytes each, row by row.
#[derive(Debug)]
pub struct RgbaBuffer {
    pub width: i32,
    pub height: i32,
    pub data: Vec<u8>,
}

impl RgbaBuffer {
    /// The data holds exactly the pixels of the image, and their number of
    /// bytes fits the type of the image's sides.
    pub open spec fn wf(self) -> bool {
        &&& 0 <= self.width
        &&& 0 <= self.height
        &&& self.data@.len() == self.width * self.height * 4
        &&& self.width * self.height * 4 <= i32::MAX
    }

    /// Whether the image has a pixel `(x, y)`.
    pub open spec fn has(self, x: int, y: int) -> bool {
        pixels::inside(self.width as int, self.height as int, x, y)
    }

    /// The bytes of pixel `(x, y)`.
    pub open spec fn at(self, x: int, y: int) -> Quad {
        pixels::px_at(self.data@, self.width as int, x, y)
    }

    /// A fully transparent image.
    pub fn new(width: i32, height: i32) -> (r: RgbaBuffer)
        requires
            0 <= width * height * 4 <= i32::MAX,
        ensures
            r.width == width,
            r.height == height,
            r.data@.len() == width * height * 4,
            forall|i: int| 0 <= i < r.data@.len() ==> r.data@[i] == 0,
            0 <= width && 0 <= height ==> r.wf(),
            forall|x: int, y: int| r.has(x, y) ==> #[trigger] r.at(x, y) == (0u8, 0u8, 0u8, 0u8),
    {
        assert(-0x8000_0000 <= width * height <= i32::MAX) by {
            assert(0 <= width * height);
        }
        let count: i32 = width * height;
        let r = RgbaBuffer { width, height, data: vec![0u8; (count * 4) as usize] };
        proof {
            assert forall|x: int, y: int| r.has(x, y) implies #[trigger] r.at(x, y) == (
                0u8,
                0u8,
                0u8,
                0u8,
            ) by {
                pixels::lemma_inside(width as int, height as int, x, y);
            }
        }
        r
    }

    /// The pixel at `(x, y)`, or `None` outside the image.
    pub fn pixel(&self, x: i32, y: i32) -> (r: Option<[u8; 4]>)
        requires
            self.has(x as int, y as int) ==> pixels::byte_at(self.width as int, x as int, y as int)
                + 4 <= self.data@.len(),
        ensures
            r.is_some() == self.has(x as int, y as int),
            r.is_some() ==> pixels::quad(r.unwrap()) == self.at(x as int, y as int),
    {
        if x < 0 || y < 0 || x >= self.width || y >= self.height {
            return None;
        }
        proof {
            pixels::lemma_inside(self.width as int, self.height as int, x as int, y as int);
            assert(self.data@.len() == self.data.len());
        }
        let idx: usize = (y as usize * self.width as usize + x as usize) * 4;
        Some([self.data[idx], self.data[idx + 1], self.data[idx + 2], self.data[idx + 3]])
    }

    /// Sets the pixel at `(x, y)`; outside the image nothing happens.
    pub fn set_pixel(&mut self, x: i32, y: i32, rgba: [u8; 4])
        requires
            old(self).wf(),
        ensures
            final(self).wf(),
            final(self).width == old(self).width,
            final(self).height == old(self).height,
            pixels::painted(
                old(self).data@,
                final(self).data@,
                old(self).width as int,
                old(self).height as int,
                |px: int, py: int, p: Quad| if px == x && py == y { pixels::quad(rgba) } else { p },
            ),
    {
        if x < 0 || y < 0 || x >= self.width || y >= self.height {
            return;
        }
        let w: usize = self.width as usize;
        let h: usize = self.height as usize;
        pixels::put_px(self.data.as_mut_slice(), w, h, x as usize, y as usize, rgba);
    }

    /// The image as seen through a sampling grid: pixel `(x, y)` of the result
    /// is the pixel at column `cols[x]`, row `rows[y]` of this one, and
    /// transparent where this one has no such pixel.
    ///
    /// For a nearest-neighbour magnification by `scale`, the grid has
    /// `round(width * scale)` columns, column `x` being `floor(x / scale)`, and
    /// rows likewise.
    pub fn nearest_neighbor_scale(&self, cols: &Vec<i32>, rows: &Vec<i32>) -> (r: RgbaBuffer)
        requires
            self.wf(),
            cols@.len() <= i32::MAX,
            rows@.len() <= i32::MAX,
            cols@.len() * rows@.len() * 4 <= i32::MAX,
        ensures
            r.wf(),
            r.width == cols@.len(),
            r.height == rows@.len(),
            forall|x: int, y: int|
                r.has(x, y) ==> #[trigger] r.at(x, y) == (if self.has(
                    cols@[x] as int,
                    rows@[y] as int,
                ) {
                    self.at(cols@[x] as int, rows@[y] as int)
                } else {
                    (0u8, 0u8, 0u8, 0u8)
                }),
    {
        let new_width: i32 = cols.len() as i32;
        let new_height: i32 = rows.len() as i32;
        let mut result = RgbaBuffer::new(new_width, new_height);
        let mut y: i32 = 0;
        while y < new_height
            invariant
                self.wf(),
                result.wf(),
                0 <= y <= new_height,
                new_width == cols@.len(),
                new_height == rows@.len(),
                result.width == new_width,
                result.height == new_height,
                forall|px: int, py: int|
                    result.has(px, py) ==> #[trigger] result.at(px, py) == (if py < y && self.has(
                        cols@[px] as int,
                        rows@[py] as int,
                    ) {
                        self.at(cols@[px] as int, rows@[py] as int)
                    } else {
                        (0u8, 0u8, 0u8, 0u8)
                    }),
            decreases new_height - y,
        {
            let mut x: i32 = 0;
            while x < new_width
                invariant
                    self.wf(),
                    result.wf(),
                    0 <= y < new_height,
                    0 <= x <= new_width,
                    new_width == cols@.len(),
                    new_height == rows@.len(),
                    result.width == new_width,
                    result.height == new_height,
                    forall|px: int, py: int|
                        result.has(px, py) ==> #[trigger] result.at(px, py) == (if (py < y || (py
                            == y && px < x)) && self.has(cols@[px] as int, rows@[py] as int) {
                            self.at(cols@[px] as int, rows@[py] as int)
                        } else {
                            (0u8, 0u8, 0u8, 0u8)
                        }),
                decreases new_width - x,
            {
                let sx: i32 = cols[x as usize];
                let sy: i32 = rows[y as usize];
                proof {
                    if self.has(sx as int, sy as int) {
                        pixels::lemma_inside(
                            self.width as int,
                            self.height as int,
                            sx as int,
                            sy as int,
                        );
                    }
                }
                let ghost before = result;
                if let Some(pixel) = self.pixel(sx, sy) {
                    result.set_pixel(x, y, pixel);
                }
                assert forall|px: int, py: int| result.has(px, py) implies #[trigger] result.at(
                    px,
                    py,
                ) == (if px == x && py == y && self.has(sx as int, sy as int) {
                    self.at(sx as int, sy as int)
                } else {
                    before.at(px, py)
                }) by {}
                x += 1;
            }
            y += 1;
        }
        result
    }
}

impl Clone for RgbaBuffer {
    fn clone(&self) -> (r: Self)
        ensures
            r.width == self.width,
            r.height == self.height,
            r.data@ == self.data@,
    {
        RgbaBuffer { width: self.width, height: self.height, data: self.data.clone() }
    }
}

/// A pixel that was set reads back as it was written, and every other pixel
/// reads as before.
pub proof fn set_pixel_reads_back(before: RgbaBuffer, after: RgbaBuffer, x: int, y: int, q: Quad)
    requires
        before.has(x, y),
        after.width == before.width,
        after.height == before.height,
        pixels::painted(
            before.data@,
            after.data@,
            before.width as int,
            before.height as int,
            |px: int, py: int, p: Quad| if px == x && py == y { q } else { p },
        ),
    ensures
        after.at(x, y) == q,
        forall|px: int, py: int|
            before.has(px, py) && (px != x || py != y) ==> #[trigger] after.at(px, py)
                == before.at(px, py),
{
}

/// Scales images by a factor that it remembers.
#[derive(Clone, Copy, Debug)]
pub struct Renderer {
    pub scale_factor: Number,
}

impl Renderer {
    pub fn new(scale_factor: Number) -> (r: Renderer)
        ensures
            r == (Renderer { scale_factor }),
    {
        Renderer { scale_factor }
    }

    /// Scales an image through the sampling grid for the factor in force.
    pub fn render_nearest_neighbor(
        &self,
        source: &RgbaBuffer,
        cols: &Vec<i32>,
        rows: &Vec<i32>,
    ) -> (r: RgbaBuffer)
        requires
            source.wf(),
            cols@.len() <= i32::MAX,
            rows@.len() <= i32::MAX,
            cols@.len() * rows@.len() * 4 <= i32::MAX,
        ensures
            r.wf(),
            r.width == cols@.len(),
            r.height == rows@.len(),
            forall|x: int, y: int|
                r.has(x, y) ==> #[trigger] r.at(x, y) == (if source.has(
                    cols@[x] as int,
                    rows@[y] as int,
                ) {
                    source.at(cols@[x] as int, rows@[y] as int)
                } else {
                    (0u8, 0u8, 0u8, 0u8)
                }),
    {
        source.nearest_neighbor_scale(cols, rows)
    }

    pub fn update_scale_factor(&mut self, new_scale_factor: Number)
        ensures
            *final(self) == (Renderer { scale_factor: new_scale_factor }),
    {
        self.scale_factor = new_scale_factor;
    }

    pub fn scale_factor(&self) -> (r: Number)
        ensures
            r == self.scale_factor,
    {
        self.scale_factor
    }
}

/// A pixel of an image is found row by row from the top, each row from the left,
/// four bytes each.
pub proof fn image_pixels_are_stored_row_by_row(b: RgbaBuffer, x: int, y: int)
    ensures
        b.has(x, y) <==> 0 <= x < b.width && 0 <= y < b.height,
        b.at(x, y).0 == b.data@[4 * (y * b.width + x)],
        b.at(x, y).1 == b.data@[4 * (y * b.width + x) + 1],
        b.at(x, y).2 == b.data@[4 * (y * b.width + x) + 2],
        b.at(x, y).3 == b.data@[4 * (y * b.width + x) + 3],
{
}

} // verus!
