//! Captured screens, and the one that stands in where there is none.

use crate::pixels;
use crate::pixels::Quad;
use vstd::prelude::*;

verus! {

/// A captured screen, four bytes a pixel.
#[derive(Debug)]
pub struct CapturedScreen {
    pub rgba: Vec<u8>,
    pub width: u32,
    pub height: u32,
}

impl CapturedScreen {
    /// The bytes are those of the pixels.
    pub open spec fn wf(self) -> bool {
        self.rgba@.len() == self.width * self.height * 4
    }

    /// The pixel at `(x, y)`.
    pub open spec fn at(self, x: int, y: int) -> Quad {
        pixels::px_at(self.rgba@, self.width as int, x, y)
    }
}

/// Sides of the picture that stands in for a captured screen.
pub const DEMO_WIDTH: u32 = 800;

pub const DEMO_HEIGHT: u32 = 600;

/// A picture to try the magnifier on: red grows to the right, green downwards.
pub fn demo_screen() -> (r: CapturedScreen)
    ensures
        r.wf(),
        r.width == DEMO_WIDTH,
        r.height == DEMO_HEIGHT,
        forall|x: int, y: int|
            pixels::inside(800, 600, x, y) ==> #[trigger] r.at(x, y) == (
                (x * 255 / 800) as u8,
                (y * 255 / 600) as u8,
                128u8,
                255u8,
            ),
{
    let mut rgba: Vec<u8> = vec![0u8; 1_920_000];
    let ghost blank = rgba@;
    let mut y: usize = 0;
    while y < 600
        invariant
            y <= 600,
            rgba@.len() == 800 * 600 * 4,
            pixels::painted(
                blank,
                rgba@,
                800,
                600,
                |qx: int, qy: int, p: Quad|
                    if qy < y {
                        ((qx * 255 / 800) as u8, (qy * 255 / 600) as u8, 128u8, 255u8)
                    } else {
                        p
                    },
            ),
        decreases 600 - y,
    {
        let mut x: usize = 0;
        while x < 800
            invariant
                y < 600,
                x <= 800,
                rgba@.len() == 800 * 600 * 4,
                pixels::painted(
                    blank,
                    rgba@,
                    800,
                    600,
                    |qx: int, qy: int, p: Quad|
                        if qy < y || (qy == y && qx < x) {
                            ((qx * 255 / 800) as u8, (qy * 255 / 600) as u8, 128u8, 255u8)
                        } else {
                            p
                        },
                ),
            decreases 800 - x,
        {
            let red: u8 = (x * 255 / 800) as u8;
            let green: u8 = (y * 255 / 600) as u8;
            pixels::put_px(rgba.as_mut_slice(), 800, 600, x, y, [red, green, 128, 255]);
            x += 1;
        }
        y += 1;
    }
    CapturedScreen { rgba, width: DEMO_WIDTH, height: DEMO_HEIGHT }
}

/// The pixel with red and blue exchanged.
pub open spec fn swapped(p: Quad) -> Quad {
    (p.2, p.1, p.0, p.3)
}

/// Reads a screen from memory whose pixels have blue first and whose rows are
/// `pitch` bytes apart.
pub fn unpack_bgra(memory: &[u8], pitch: usize, width: u32, height: u32) -> (r: CapturedScreen)
    requires
        width * height * 4 <= u32::MAX,
        width * 4 <= pitch,
        pitch * height <= memory@.len(),
    ensures
        r.wf(),
        r.width == width,
        r.height == height,
        forall|x: int, y: int|
            pixels::inside(width as int, height as int, x, y) ==> #[trigger] r.at(x, y) == swapped(
                (
                    memory@[y * pitch + 4 * x],
                    memory@[y * pitch + 4 * x + 1],
                    memory@[y * pitch + 4 * x + 2],
                    memory@[y * pitch + 4 * x + 3],
                ),
            ),
{
    let w: usize = width as usize;
    let h: usize = height as usize;
    assert(0 <= width * height * 4);
    let count: u32 = width * height;
    let mut rgba: Vec<u8> = vec![0u8; (count * 4) as usize];
    let ghost blank = rgba@;
    let mut y: usize = 0;
    while y < h
        invariant
            y <= h,
            w == width,
            h == height,
            w * 4 <= pitch,
            pitch * h <= memory@.len(),
            rgba@.len() == w * h * 4,
            pixels::painted(
                blank,
                rgba@,
                w as int,
                h as int,
                |qx: int, qy: int, p: Quad|
                    if qy < y {
                        swapped(
                            (
                                memory@[qy * pitch + 4 * qx],
                                memory@[qy * pitch + 4 * qx + 1],
                                memory@[qy * pitch + 4 * qx + 2],
                                memory@[qy * pitch + 4 * qx + 3],
                            ),
                        )
                    } else {
                        p
                    },
            ),
        decreases h - y,
    {
        proof {
            assert(memory.len() == memory@.len());
            assert(0 <= y * pitch && y * pitch + pitch <= pitch * h) by (nonlinear_arith)
                requires
                    0 <= y < h,
                    0 <= pitch,
            ;
        }
        let start: usize = y * pitch;
        let mut x: usize = 0;
        while x < w
            invariant
                y < h,
                x <= w,
                w == width,
                h == height,
                w * 4 <= pitch,
                start == y * pitch,
                start + pitch <= memory@.len() <= usize::MAX,
                rgba@.len() == w * h * 4,
                pixels::painted(
                    blank,
                    rgba@,
                    w as int,
                    h as int,
                    |qx: int, qy: int, p: Quad|
                        if qy < y || (qy == y && qx < x) {
                            swapped(
                                (
                                    memory@[qy * pitch + 4 * qx],
                                    memory@[qy * pitch + 4 * qx + 1],
                                    memory@[qy * pitch + 4 * qx + 2],
                                    memory@[qy * pitch + 4 * qx + 3],
                                ),
                            )
                        } else {
                            p
                        },
                ),
            decreases w - x,
        {
            let i: usize = start + 4 * x;
            let px: [u8; 4] = [memory[i + 2], memory[i + 1], memory[i], memory[i + 3]];
            pixels::put_px(rgba.as_mut_slice(), w, h, x, y, px);
            x += 1;
        }
        y += 1;
    }
    CapturedScreen { rgba, width, height }
}

/// Exchanging red and blue keeps green and the opacity, and doing it twice
/// changes nothing.
pub proof fn exchange_swaps_red_and_blue(p: Quad)
    ensures
        swapped(p).0 == p.2,
        swapped(p).1 == p.1,
        swapped(p).2 == p.0,
        swapped(p).3 == p.3,
        swapped(swapped(p)) == p,
{
}

/// A pixel of a captured screen is found row by row from the top, four bytes
/// each.
pub proof fn screen_pixels_are_stored_row_by_row(s: CapturedScreen, x: int, y: int)
    ensures
        s.at(x, y).0 == s.rgba@[4 * (y * s.width + x)],
        s.at(x, y).1 == s.rgba@[4 * (y * s.width + x) + 1],
        s.at(x, y).2 == s.rgba@[4 * (y * s.width + x) + 2],
        s.at(x, y).3 == s.rgba@[4 * (y * s.width + x) + 3],
{
}

} // verus!
