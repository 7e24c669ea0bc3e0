//! The minimap: a dimmed overview of the captured frame with a marker for the
//! part that is magnified and a dot for the pointer.

use crate::osd;
use crate::osd::{Corner, OsdSprite};
use crate::pixels;
use crate::pixels::Quad;
use crate::render::RgbaBuffer;
use crate::screenshot;
use vstd::prelude::*;

verus! {

/// Half the edge length of the square that is painted over around the pointer
/// position at launch.
pub const CURSOR_BAKE_HALF: i32 = 24;

/// Smallest edge of the visible region for which its brackets are drawn.
pub const MINIMAP_MARKER_MIN_EDGE: i32 = 12;

/// Length of each leg of a bracket.
pub const MINIMAP_CORNER_TICK: i32 = 7;

/// How much of its brightness the overview keeps, in parts of `DIM_WHOLE`:
/// 0.45 to single precision.
pub const MINIMAP_DIM: u32 = 15099494;

/// Full brightness.
pub const DIM_WHOLE: u32 = 33554432;

/// The sum of `f(x)` over `lo..hi`.
pub open spec fn row_sum(f: spec_fn(int) -> int, lo: int, hi: int) -> int
    decreases hi - lo,
{
    if hi <= lo {
        0
    } else {
        row_sum(f, lo, hi - 1) + f(hi - 1)
    }
}

/// The sum of `f(x, y)` over `x0..x1` by `y0..y1`.
pub open spec fn area_sum(f: spec_fn(int, int) -> int, x0: int, x1: int, y0: int, y1: int) -> int
    decreases y1 - y0,
{
    if y1 <= y0 {
        0
    } else {
        area_sum(f, x0, x1, y0, y1 - 1) + row_sum(|x: int| f(x, y1 - 1), x0, x1)
    }
}

/// Channel `c` of a pixel.
pub open spec fn channel(p: Quad, c: int) -> u8 {
    if c == 0 {
        p.0
    } else if c == 1 {
        p.1
    } else if c == 2 {
        p.2
    } else {
        p.3
    }
}

/// Sums of the first three channels of some pixels, and their number.
#[derive(Clone, Copy)]
struct Tally {
    red: u64,
    green: u64,
    blue: u64,
    count: u64,
}

/// What one pixel adds to a tally: channel `c`, or 1 for `c == 3`; nothing
/// where the pixel is in the rectangle left out.
pub open spec fn weight(img: RgbaBuffer, c: int, skip: (int, int, int, int), x: int, y: int) -> int {
    if pixels::in_rect(x, y, skip.0, skip.2, skip.1, skip.3) {
        0
    } else if c == 3 {
        1
    } else {
        channel(img.at(x, y), c) as int
    }
}

/// The sum of channel `c` (or with `c == 3` the number) of the pixels of
/// `x0..x1` by `y0..y1` that are not in `skip`.
pub open spec fn total(
    img: RgbaBuffer,
    c: int,
    skip: (int, int, int, int),
    x0: int,
    x1: int,
    y0: int,
    y1: int,
) -> int {
    area_sum(|x: int, y: int| weight(img, c, skip, x, y), x0, x1, y0, y1)
}

/// The part of [`total`] that a scan has seen before it reaches `(x, y)`.
spec fn seen(
    img: RgbaBuffer,
    c: int,
    skip: (int, int, int, int),
    x0: int,
    x1: int,
    y0: int,
    x: int,
    y: int,
) -> int {
    total(img, c, skip, x0, x1, y0, y) + row_sum(
        |px: int| weight(img, c, skip, px, y),
        x0,
        x,
    )
}

impl Tally {
    spec fn is(self, sums: spec_fn(int) -> int) -> bool {
        &&& self.red == sums(0)
        &&& self.green == sums(1)
        &&& self.blue == sums(2)
        &&& self.count == sums(3)
        &&& self.red <= 255 * self.count
        &&& self.green <= 255 * self.count
        &&& self.blue <= 255 * self.count
    }
}

/// Tallies the pixels of `x0..x1` by `y0..y1` that are not in `skip`.
fn tally(
    img: &RgbaBuffer,
    skip: (i32, i32, i32, i32),
    x0: i32,
    x1: i32,
    y0: i32,
    y1: i32,
) -> (r: Tally)
    requires
        img.wf(),
        0 <= x0,
        x1 <= img.width,
        0 <= y0,
        y1 <= img.height,
    ensures
        r.is(
            |c: int|
                total(
                    *img,
                    c,
                    (skip.0 as int, skip.1 as int, skip.2 as int, skip.3 as int),
                    x0 as int,
                    x1 as int,
                    y0 as int,
                    y1 as int,
                ),
        ),
{
    let ghost sk = (skip.0 as int, skip.1 as int, skip.2 as int, skip.3 as int);
    let w: usize = img.width as usize;
    let h: usize = img.height as usize;
    let mut t = Tally { red: 0, green: 0, blue: 0, count: 0 };
    let mut y: i32 = y0;
    while y < y1
        invariant
            img.wf(),
            w == img.width,
            h == img.height,
            0 <= x0,
            x1 <= w,
            0 <= y0 <= y,
            y <= y1 || y == y0,
            y1 <= h,
            sk == (skip.0 as int, skip.1 as int, skip.2 as int, skip.3 as int),
            t.count <= y * w,
            t.is(|c: int| total(*img, c, sk, x0 as int, x1 as int, y0 as int, y as int)),
        decreases y1 - y,
    {
        let ghost start = t;
        let mut x: i32 = x0;
        assert(y * w + w == (y + 1) * w) by (nonlinear_arith);
        while x < x1
            invariant
                img.wf(),
                w == img.width,
                h == img.height,
                0 <= x0 <= x,
                x <= x1 || x == x0,
                x1 <= w,
                0 <= y0 <= y < y1 <= h,
                sk == (skip.0 as int, skip.1 as int, skip.2 as int, skip.3 as int),
                t.count <= y * w + x,
                t.is(|c: int| seen(*img, c, sk, x0 as int, x1 as int, y0 as int, x as int, y as int)),
            decreases x1 - x,
        {
            proof {
                pixels::lemma_inside(w as int, h as int, x as int, y as int);
            }
            let ghost before = t;
            let px: [u8; 4] = pixels::get_px(
                img.data.as_slice(),
                w,
                h,
                x as usize,
                y as usize,
            );
            if !(x >= skip.0 && x < skip.2 && y >= skip.1 && y < skip.3) {
                t = Tally {
                    red: t.red + px[0] as u64,
                    green: t.green + px[1] as u64,
                    blue: t.blue + px[2] as u64,
                    count: t.count + 1,
                };
            }
            proof {
                assert(img.at(x as int, y as int) == pixels::quad(px));
                assert forall|c: int|
                    #[trigger] seen(
                        *img,
                        c,
                        sk,
                        x0 as int,
                        x1 as int,
                        y0 as int,
                        x + 1,
                        y as int,
                    ) == seen(*img, c, sk, x0 as int, x1 as int, y0 as int, x as int, y as int)
                        + weight(*img, c, sk, x as int, y as int) by {
                    let f = |px: int| weight(*img, c, sk, px, y as int);
                    assert(row_sum(f, x0 as int, x + 1) == row_sum(f, x0 as int, x as int) + f(
                        x as int,
                    ));
                }
            }
            x += 1;
        }
        proof {
            let end = x as int;
            assert forall|c: int|
                #[trigger] seen(*img, c, sk, x0 as int, x1 as int, y0 as int, end, y as int)
                    == total(*img, c, sk, x0 as int, x1 as int, y0 as int, y + 1) by {
                let f = |px: int, py: int| weight(*img, c, sk, px, py);
                let g = |px: int| weight(*img, c, sk, px, y as int);
                assert((|px: int| f(px, y as int)) =~= g);
                if x1 <= x0 {
                    assert(row_sum(g, x0 as int, end) == row_sum(g, x0 as int, x1 as int));
                }
            }
        }
        y += 1;
    }
    proof {
        if y1 < y0 {
            assert forall|c: int|
                #[trigger] total(*img, c, sk, x0 as int, x1 as int, y0 as int, y as int) == total(
                    *img,
                    c,
                    sk,
                    x0 as int,
                    x1 as int,
                    y0 as int,
                    y1 as int,
                ) by {}
        }
    }
    t
}

/// The rectangle that is painted over around `(cx, cy)`: left, top, right,
/// bottom.
pub open spec fn bake_rect(cx: int, cy: int, half: int) -> (int, int, int, int) {
    (cx - half, cy - half, cx + half, cy + half)
}

/// The sum of channel `c` (or with `c == 3` the number) of the pixels of the
/// image in the ring one pixel wide around the rectangle.
pub open spec fn ring_total(img: RgbaBuffer, c: int, rect: (int, int, int, int)) -> int {
    total(
        img,
        c,
        rect,
        screenshot::max_of(rect.0 - 1, 0),
        screenshot::min_of(rect.2 + 1, img.width as int),
        screenshot::max_of(rect.1 - 1, 0),
        screenshot::min_of(rect.3 + 1, img.height as int),
    )
}

/// The pixel at `(x, y)` once the rectangle has the average colour of the ring
/// around it. Opacity stays, and without a ring everything stays.
pub open spec fn inpainted(img: RgbaBuffer, rect: (int, int, int, int), x: int, y: int) -> Quad {
    let n = ring_total(img, 3, rect);
    if n > 0 && pixels::in_rect(x, y, rect.0, rect.2, rect.1, rect.3) {
        (
            (ring_total(img, 0, rect) / n) as u8,
            (ring_total(img, 1, rect) / n) as u8,
            (ring_total(img, 2, rect) / n) as u8,
            img.at(x, y).3,
        )
    } else {
        img.at(x, y)
    }
}

proof fn lemma_average(sum: u64, n: u64)
    requires
        0 < n,
        sum <= 255 * n,
    ensures
        sum / n <= 255,
{
    assert(sum / n <= 255) by (nonlinear_arith)
        requires
            0 < n,
            sum <= 255 * n,
    ;
}

/// Paints over the square around `(cx, cy)` with the average colour of the
/// pixels just outside it. This takes a pointer image that was captured with
/// the frame off the overview.
pub fn inpaint_cursor_region(capture: &RgbaBuffer, cx: i32, cy: i32, half: i32) -> (r: RgbaBuffer)
    requires
        capture.wf(),
        i32::MIN < cx - half,
        i32::MIN < cy - half,
        cx - half <= i32::MAX,
        cy - half <= i32::MAX,
        i32::MIN <= cx + half < i32::MAX,
        i32::MIN <= cy + half < i32::MAX,
    ensures
        r.wf(),
        r.width == capture.width,
        r.height == capture.height,
        forall|x: int, y: int|
            r.has(x, y) ==> #[trigger] r.at(x, y) == inpainted(
                *capture,
                bake_rect(cx as int, cy as int, half as int),
                x,
                y,
            ),
{
    let mut out: RgbaBuffer = capture.clone();
    let w: i32 = capture.width;
    let h: i32 = capture.height;
    let (x0, y0): (i32, i32) = (cx - half, cy - half);
    let (x1, y1): (i32, i32) = (cx + half, cy + half);
    let ghost rect = bake_rect(cx as int, cy as int, half as int);
    let rx0: i32 = if x0 - 1 < 0 { 0 } else { x0 - 1 };
    let ry0: i32 = if y0 - 1 < 0 { 0 } else { y0 - 1 };
    let rx1: i32 = if x1 + 1 < w { x1 + 1 } else { w };
    let ry1: i32 = if y1 + 1 < h { y1 + 1 } else { h };
    let t: Tally = tally(capture, (x0, y0, x1, y1), rx0, rx1, ry0, ry1);
    if t.count == 0 {
        return out;
    }
    proof {
        lemma_average(t.red, t.count);
        lemma_average(t.green, t.count);
        lemma_average(t.blue, t.count);
    }
    let red: u8 = (t.red / t.count) as u8;
    let green: u8 = (t.green / t.count) as u8;
    let blue: u8 = (t.blue / t.count) as u8;
    let px0: i32 = if x0 < 0 { 0 } else { x0 };
    let py0: i32 = if y0 < 0 { 0 } else { y0 };
    let px1: i32 = if x1 < w { x1 } else { w };
    let py1: i32 = if y1 < h { y1 } else { h };
    let mut y: i32 = py0;
    while y < py1
        invariant
            capture.wf(),
            out.wf(),
            out.width == capture.width == w,
            out.height == capture.height == h,
            0 <= px0,
            px1 <= w,
            0 <= py0 <= y,
            y <= py1 || y == py0,
            py1 <= h,
            forall|px: int, py: int|
                out.has(px, py) ==> #[trigger] out.at(px, py) == (if pixels::in_rect(
                    px,
                    py,
                    px0 as int,
                    px1 as int,
                    py0 as int,
                    y as int,
                ) {
                    (red, green, blue, capture.at(px, py).3)
                } else {
                    capture.at(px, py)
                }),
        decreases py1 - y,
    {
        let mut x: i32 = px0;
        while x < px1
            invariant
                capture.wf(),
                out.wf(),
                out.width == capture.width == w,
                out.height == capture.height == h,
                0 <= px0 <= x,
                x <= px1 || x == px0,
                px1 <= w,
                0 <= py0 <= y < py1 <= h,
                forall|px: int, py: int|
                    out.has(px, py) ==> #[trigger] out.at(px, py) == (if pixels::in_rect(
                        px,
                        py,
                        px0 as int,
                        px1 as int,
                        py0 as int,
                        y as int,
                    ) || pixels::in_rect(px, py, px0 as int, x as int, y as int, y + 1) {
                        (red, green, blue, capture.at(px, py).3)
                    } else {
                        capture.at(px, py)
                    }),
            decreases px1 - x,
        {
            let old_px: [u8; 4] = pixels::get_px(
                capture.data.as_slice(),
                w as usize,
                h as usize,
                x as usize,
                y as usize,
            );
            let ghost before = out;
            out.set_pixel(x, y, [red, green, blue, old_px[3]]);
            assert forall|px: int, py: int| out.has(px, py) implies #[trigger] out.at(px, py) == (
            if px == x && py == y {
                (red, green, blue, capture.at(px, py).3)
            } else {
                before.at(px, py)
            }) by {
                assert(before.has(px, py));
            }
            x += 1;
        }
        y += 1;
    }
    out
}

/// The part of the source that destination position `i` of `n` stands for, of
/// `len` source positions: every source position that it touches.
pub open spec fn box_of(i: int, n: int, len: int) -> (int, int) {
    (i * len / n, screenshot::min_of(((i + 1) * len + n - 1) / n, len))
}

/// A channel value dimmed to `dim` parts of [`DIM_WHOLE`], rounded down.
pub open spec fn dimmed(v: int, dim: int) -> int {
    v * dim / (DIM_WHOLE as int)
}

/// No pixel is left out.
pub open spec fn nothing() -> (int, int, int, int) {
    (0, 0, 0, 0)
}

/// The pixel at `(x, y)` of the image scaled down to `w` by `h`: the average
/// of the source pixels that it stands for, dimmed.
pub open spec fn downscaled(img: RgbaBuffer, w: int, h: int, dim: int, x: int, y: int) -> Quad {
    let (x0, x1) = box_of(x, w, img.width as int);
    let (y0, y1) = box_of(y, h, img.height as int);
    let n = screenshot::max_of(total(img, 3, nothing(), x0, x1, y0, y1), 1);
    (
        dimmed(total(img, 0, nothing(), x0, x1, y0, y1) / n, dim) as u8,
        dimmed(total(img, 1, nothing(), x0, x1, y0, y1) / n, dim) as u8,
        dimmed(total(img, 2, nothing(), x0, x1, y0, y1) / n, dim) as u8,
        255u8,
    )
}

fn box_bounds(i: i32, n: i32, len: i32) -> (r: (i32, i32))
    requires
        0 <= i < n,
        0 <= len,
    ensures
        (r.0 as int, r.1 as int) == box_of(i as int, n as int, len as int),
        0 <= r.0 <= len,
        r.1 <= len,
{
    let ghost (a, b, l) = (i as int, n as int, len as int);
    assert(0 <= a * l <= 0x8000_0000 * 0x8000_0000 && a * l <= b * l) by (nonlinear_arith)
        requires
            0 <= a < b <= 0x7fff_ffff,
            0 <= l <= 0x7fff_ffff,
    ;
    assert(0 <= (a + 1) * l <= 0x8000_0000 * 0x8000_0000) by (nonlinear_arith)
        requires
            0 <= a < b <= 0x7fff_ffff,
            0 <= l <= 0x7fff_ffff,
    ;
    assert(0 <= a * l / b <= l) by (nonlinear_arith)
        requires
            0 <= a * l <= b * l,
            0 < b,
    ;
    let low: u64 = i as u64 * len as u64 / n as u64;
    let high: u64 = ((i as u64 + 1) * len as u64 + n as u64 - 1) / n as u64;
    let end: i32 = if high < len as u64 { high as i32 } else { len };
    (low as i32, end)
}

fn dim_value(v: u64, dim: u32) -> (r: u8)
    requires
        v <= 255,
        dim <= DIM_WHOLE,
    ensures
        r == dimmed(v as int, dim as int) as u8,
{
    assert(0 <= v * dim <= 255 * 33554432) by (nonlinear_arith)
        requires
            0 <= v <= 255,
            0 <= dim <= 33554432,
    ;
    (v * dim as u64 / DIM_WHOLE as u64) as u8
}

/// Scales an image down to `dst_w` by `dst_h` by averaging, and dims it to
/// `dim` parts of [`DIM_WHOLE`]. The result is opaque.
pub fn downscale_dimmed(src: &RgbaBuffer, dst_w: i32, dst_h: i32, dim: u32) -> (r: RgbaBuffer)
    requires
        src.wf(),
        0 <= dst_w,
        0 <= dst_h,
        dst_w * dst_h * 4 <= i32::MAX,
        dim <= DIM_WHOLE,
    ensures
        r.wf(),
        r.width == dst_w,
        r.height == dst_h,
        forall|x: int, y: int|
            r.has(x, y) ==> #[trigger] r.at(x, y) == downscaled(
                *src,
                dst_w as int,
                dst_h as int,
                dim as int,
                x,
                y,
            ),
{
    assert(0 <= dst_w * dst_h) by (nonlinear_arith)
        requires
            0 <= dst_w,
            0 <= dst_h,
    ;
    let mut out = RgbaBuffer::new(dst_w, dst_h);
    let mut y: i32 = 0;
    while y < dst_h
        invariant
            src.wf(),
            out.wf(),
            dim <= DIM_WHOLE,
            out.width == dst_w,
            out.height == dst_h,
            0 <= y <= dst_h,
            forall|px: int, py: int|
                out.has(px, py) && py < y ==> #[trigger] out.at(px, py) == downscaled(
                    *src,
                    dst_w as int,
                    dst_h as int,
                    dim as int,
                    px,
                    py,
                ),
        decreases dst_h - y,
    {
        let (y0, y1): (i32, i32) = box_bounds(y, dst_h, src.height);
        let mut x: i32 = 0;
        while x < dst_w
            invariant
                src.wf(),
                out.wf(),
                dim <= DIM_WHOLE,
                out.width == dst_w,
                out.height == dst_h,
                0 <= y < dst_h,
                0 <= x <= dst_w,
                (y0 as int, y1 as int) == box_of(y as int, dst_h as int, src.height as int),
                0 <= y0,
                y1 <= src.height,
                forall|px: int, py: int|
                    out.has(px, py) && (py < y || (py == y && px < x)) ==> #[trigger] out.at(px, py)
                        == downscaled(*src, dst_w as int, dst_h as int, dim as int, px, py),
            decreases dst_w - x,
        {
            let (x0, x1): (i32, i32) = box_bounds(x, dst_w, src.width);
            let t: Tally = tally(src, (0, 0, 0, 0), x0, x1, y0, y1);
            let n: u64 = if t.count < 1 { 1 } else { t.count };
            proof {
                lemma_average(t.red, n);
                lemma_average(t.green, n);
                lemma_average(t.blue, n);
            }
            let px: [u8; 4] = [
                dim_value(t.red / n, dim),
                dim_value(t.green / n, dim),
                dim_value(t.blue / n, dim),
                255,
            ];
            let ghost before = out;
            out.set_pixel(x, y, px);
            assert(pixels::quad(px) == downscaled(
                *src,
                dst_w as int,
                dst_h as int,
                dim as int,
                x as int,
                y as int,
            ));
            assert forall|qx: int, qy: int|
                out.has(qx, qy) && (qy < y || (qy == y && qx < x + 1)) implies #[trigger] out.at(
                qx,
                qy,
            ) == downscaled(*src, dst_w as int, dst_h as int, dim as int, qx, qy) by {
                assert(before.has(qx, qy));
                assert(before.at(qx, qy) == pixels::px_at(before.data@, dst_w as int, qx, qy));
            }
            x += 1;
        }
        y += 1;
    }
    out
}

/// Where the parts of a minimap go, in its own pixels.
#[derive(Clone, Copy, Debug)]
pub struct MinimapPlan {
    /// Size of the minimap image.
    pub buf_w: i32,
    pub buf_h: i32,
    /// Room that the outline takes along every edge.
    pub inset: i32,
    /// Size of the overview within the room that is left.
    pub thumb_w: i32,
    pub thumb_h: i32,
    /// The magnified region: left, top, right, bottom. `None` hides it.
    pub region: Option<(i32, i32, i32, i32)>,
    /// The pointer.
    pub pointer: (i32, i32),
    /// The rectangle that the image fills on the screen.
    pub x: i32,
    pub y: i32,
    pub width: i32,
    pub height: i32,
}

impl MinimapPlan {
    /// The room for the overview along one edge of `len` pixels.
    pub open spec fn room(self, len: int) -> int {
        screenshot::max_of(len - 2 * self.inset, 1)
    }

    /// Where the overview starts: in the middle of its room.
    pub open spec fn thumb_x(self) -> int {
        self.inset + (self.room(self.buf_w as int) - self.thumb_w) / 2
    }

    pub open spec fn thumb_y(self) -> int {
        self.inset + (self.room(self.buf_h as int) - self.thumb_h) / 2
    }

    /// The sizes fit each other.
    pub open spec fn wf(self) -> bool {
        &&& 0 <= self.buf_w
        &&& 0 <= self.buf_h
        &&& self.buf_w * self.buf_h * 4 <= i32::MAX
        &&& 0 <= 2 * self.inset <= i32::MAX
        &&& 1 <= self.thumb_w <= self.room(self.buf_w as int)
        &&& 1 <= self.thumb_h <= self.room(self.buf_h as int)
        &&& self.thumb_w * self.thumb_h * 4 <= i32::MAX
    }
}

/// `s` is the captured frame, with the pointer image at `bake` painted over.
pub open spec fn is_scrubbed(s: RgbaBuffer, capture: RgbaBuffer, bake: Option<(i32, i32)>) -> bool {
    &&& s.wf()
    &&& s.width == capture.width
    &&& s.height == capture.height
    &&& forall|x: int, y: int|
        s.has(x, y) ==> #[trigger] s.at(x, y) == match bake {
            Some((cx, cy)) => inpainted(
                capture,
                bake_rect(cx as int, cy as int, CURSOR_BAKE_HALF as int),
                x,
                y,
            ),
            None => capture.at(x, y),
        }
}

/// The pixel at `(x, y)` of the minimap without outline and markers: the
/// dimmed overview on black.
pub open spec fn base_px(s: RgbaBuffer, plan: MinimapPlan, x: int, y: int) -> Quad {
    let tx = x - plan.thumb_x();
    let ty = y - plan.thumb_y();
    if pixels::inside(plan.thumb_w as int, plan.thumb_h as int, tx, ty) {
        downscaled(s, plan.thumb_w as int, plan.thumb_h as int, MINIMAP_DIM as int, tx, ty)
    } else {
        (0u8, 0u8, 0u8, 255u8)
    }
}

/// `b` is the minimap without outline and markers.
pub open spec fn is_base(
    b: RgbaBuffer,
    capture: RgbaBuffer,
    plan: MinimapPlan,
    bake: Option<(i32, i32)>,
) -> bool {
    &&& b.wf()
    &&& b.width == plan.buf_w
    &&& b.height == plan.buf_h
    &&& exists|s: RgbaBuffer|
        #[trigger] is_scrubbed(s, capture, bake) && forall|x: int, y: int|
            b.has(x, y) ==> #[trigger] b.at(x, y) == base_px(s, plan, x, y)
}

/// A pointer position around which the square to paint over can be counted.
pub open spec fn bakeable(bake: Option<(i32, i32)>) -> bool {
    bake matches Some((cx, cy)) ==> {
        &&& i32::MIN < cx - CURSOR_BAKE_HALF && cx + CURSOR_BAKE_HALF < i32::MAX
        &&& i32::MIN < cy - CURSOR_BAKE_HALF && cy + CURSOR_BAKE_HALF < i32::MAX
    }
}

fn build_base(capture: &RgbaBuffer, plan: &MinimapPlan, bake: Option<(i32, i32)>) -> (r: RgbaBuffer)
    requires
        capture.wf(),
        plan.wf(),
        bakeable(bake),
    ensures
        is_base(r, *capture, *plan, bake),
{
    assert(0 <= plan.buf_w * plan.buf_h) by (nonlinear_arith)
        requires
            0 <= plan.buf_w,
            0 <= plan.buf_h,
    ;
    let w: i32 = plan.buf_w;
    let h: i32 = plan.buf_h;
    let mut b = RgbaBuffer::new(w, h);
    pixels::fill_px(b.data.as_mut_slice(), w, h, 0, w, 0, h, [0, 0, 0, 255]);
    let scrubbed: RgbaBuffer = match bake {
        Some((cx, cy)) => inpaint_cursor_region(capture, cx, cy, CURSOR_BAKE_HALF),
        None => capture.clone(),
    };
    proof {
        if bake is None {
            assert(scrubbed.data@ == capture.data@);
        }
    }
    assert(is_scrubbed(scrubbed, *capture, bake));
    let room_w: i32 = if w - 2 * plan.inset < 1 { 1 } else { w - 2 * plan.inset };
    let room_h: i32 = if h - 2 * plan.inset < 1 { 1 } else { h - 2 * plan.inset };
    let ox: i32 = plan.inset + (room_w - plan.thumb_w) / 2;
    let oy: i32 = plan.inset + (room_h - plan.thumb_h) / 2;
    let thumb: RgbaBuffer = downscale_dimmed(&scrubbed, plan.thumb_w, plan.thumb_h, MINIMAP_DIM);
    let ghost black = b;
    pixels::paste_opaque(
        b.data.as_mut_slice(),
        w,
        h,
        thumb.data.as_slice(),
        plan.thumb_w,
        plan.thumb_h,
        ox,
        oy,
    );
    assert forall|x: int, y: int| b.has(x, y) implies #[trigger] b.at(x, y) == base_px(
        scrubbed,
        *plan,
        x,
        y,
    ) by {
        assert(black.has(x, y));
        assert(black.at(x, y) == (0u8, 0u8, 0u8, 255u8));
        let tx = x - plan.thumb_x();
        let ty = y - plan.thumb_y();
        if thumb.has(tx, ty) {
            assert(thumb.at(tx, ty) == downscaled(
                scrubbed,
                plan.thumb_w as int,
                plan.thumb_h as int,
                MINIMAP_DIM as int,
                tx,
                ty,
            ));
        }
    }
    b
}

/// How much of each pixel, row by row, lies within the rounded frame of the
/// minimap and within its outline.
#[derive(Debug)]
pub struct OutlineShape {
    pub inside: Vec<u8>,
    pub stroke: Vec<u8>,
}

impl OutlineShape {
    pub open spec fn covers(self, w: int, h: int) -> bool {
        self.inside@.len() == w * h && self.stroke@.len() == w * h
    }
}

/// A pixel of the minimap once the frame is cut out: transparent outside the
/// frame and under its outline.
pub open spec fn masked(inside: u8, stroke: u8, p: Quad) -> Quad {
    if inside < 255 || stroke > 0 {
        (0u8, 0u8, 0u8, 0u8)
    } else {
        p
    }
}

/// Makes every pixel transparent that is not wholly within the frame, or that
/// the outline touches.
pub fn apply_minimap_mask(buf: &mut RgbaBuffer, shape: &OutlineShape)
    requires
        old(buf).wf(),
        shape.covers(old(buf).width as int, old(buf).height as int),
    ensures
        final(buf).wf(),
        final(buf).width == old(buf).width,
        final(buf).height == old(buf).height,
        pixels::painted(
            old(buf).data@,
            final(buf).data@,
            old(buf).width as int,
            old(buf).height as int,
            |x: int, y: int, p: Quad|
                masked(
                    shape.inside@[y * old(buf).width + x],
                    shape.stroke@[y * old(buf).width + x],
                    p,
                ),
        ),
{
    let w: i32 = buf.width;
    let h: i32 = buf.height;
    let ghost before = buf.data@;
    let mut y: i32 = 0;
    while y < h
        invariant
            buf.wf(),
            buf.width == w,
            buf.height == h,
            0 <= y <= h,
            shape.covers(w as int, h as int),
            pixels::painted(
                before,
                buf.data@,
                w as int,
                h as int,
                |px: int, py: int, p: Quad|
                    if py < y {
                        masked(shape.inside@[py * w + px], shape.stroke@[py * w + px], p)
                    } else {
                        p
                    },
            ),
        decreases h - y,
    {
        let mut x: i32 = 0;
        while x < w
            invariant
                buf.wf(),
                buf.width == w,
                buf.height == h,
                0 <= y < h,
                0 <= x <= w,
                shape.covers(w as int, h as int),
                pixels::painted(
                    before,
                    buf.data@,
                    w as int,
                    h as int,
                    |px: int, py: int, p: Quad|
                        if py < y || (py == y && px < x) {
                            masked(shape.inside@[py * w + px], shape.stroke@[py * w + px], p)
                        } else {
                            p
                        },
                ),
            decreases w - x,
        {
            proof {
                pixels::lemma_inside(w as int, h as int, x as int, y as int);
            }
            let i: usize = y as usize * w as usize + x as usize;
            if shape.inside[i] < 255 || shape.stroke[i] > 0 {
                buf.set_pixel(x, y, [0, 0, 0, 0]);
            }
            x += 1;
        }
        y += 1;
    }
}

/// The colours of the outline at one moment.
#[derive(Debug)]
pub enum OutlinePaint {
    /// One colour all around.
    Gradient([u8; 3]),
    /// A colour for each pixel, row by row.
    AngularGradient(Vec<[u8; 3]>),
    /// Whether each pixel, row by row, is on a dash.
    MarchingAnts(Vec<bool>),
}

/// Brightness of the dashes.
pub const DASH_LEVEL: u8 = 192;

/// Brightness of the gaps between the dashes.
pub const GAP_LEVEL: u8 = 48;

impl OutlinePaint {
    /// There is a colour for every one of `n` pixels.
    pub open spec fn covers(self, n: int) -> bool {
        match self {
            OutlinePaint::Gradient(_) => true,
            OutlinePaint::AngularGradient(colors) => colors@.len() == n,
            OutlinePaint::MarchingAnts(dashes) => dashes@.len() == n,
        }
    }

    /// The colour of pixel `i` where the outline covers `stroke` of it.
    pub open spec fn px(self, i: int, stroke: u8) -> Quad {
        if stroke == 0 {
            (0u8, 0u8, 0u8, 0u8)
        } else {
            match self {
                OutlinePaint::Gradient(c) => (c[0], c[1], c[2], stroke),
                OutlinePaint::AngularGradient(colors) => (
                    colors@[i][0],
                    colors@[i][1],
                    colors@[i][2],
                    stroke,
                ),
                OutlinePaint::MarchingAnts(dashes) => if dashes@[i] {
                    (DASH_LEVEL, DASH_LEVEL, DASH_LEVEL, stroke)
                } else {
                    (GAP_LEVEL, GAP_LEVEL, GAP_LEVEL, stroke)
                },
            }
        }
    }
}

/// Paints the outline: the colour of the moment, as opaque as the outline
/// covers the pixel.
pub fn apply_outline_colors(
    coverage: &Vec<u8>,
    buf_w: i32,
    buf_h: i32,
    paint: &OutlinePaint,
) -> (r: RgbaBuffer)
    requires
        0 <= buf_w,
        0 <= buf_h,
        buf_w * buf_h * 4 <= i32::MAX,
        coverage@.len() == buf_w * buf_h,
        paint.covers(buf_w * buf_h),
    ensures
        r.wf(),
        r.width == buf_w,
        r.height == buf_h,
        forall|x: int, y: int|
            r.has(x, y) ==> #[trigger] r.at(x, y) == paint.px(
                y * buf_w + x,
                coverage@[y * buf_w + x],
            ),
{
    assert(0 <= buf_w * buf_h) by (nonlinear_arith)
        requires
            0 <= buf_w,
            0 <= buf_h,
    ;
    let mut out = RgbaBuffer::new(buf_w, buf_h);
    let mut y: i32 = 0;
    while y < buf_h
        invariant
            out.wf(),
            out.width == buf_w,
            out.height == buf_h,
            0 <= y <= buf_h,
            coverage@.len() == buf_w * buf_h,
            paint.covers(buf_w * buf_h),
            forall|px: int, py: int|
                out.has(px, py) ==> #[trigger] out.at(px, py) == (if py < y {
                    paint.px(py * buf_w + px, coverage@[py * buf_w + px])
                } else {
                    (0u8, 0u8, 0u8, 0u8)
                }),
        decreases buf_h - y,
    {
        let mut x: i32 = 0;
        while x < buf_w
            invariant
                out.wf(),
                out.width == buf_w,
                out.height == buf_h,
                0 <= y < buf_h,
                0 <= x <= buf_w,
                coverage@.len() == buf_w * buf_h,
                paint.covers(buf_w * buf_h),
                forall|px: int, py: int|
                    out.has(px, py) ==> #[trigger] out.at(px, py) == (if py < y || (py == y && px
                        < x) {
                        paint.px(py * buf_w + px, coverage@[py * buf_w + px])
                    } else {
                        (0u8, 0u8, 0u8, 0u8)
                    }),
            decreases buf_w - x,
        {
            proof {
                pixels::lemma_inside(buf_w as int, buf_h as int, x as int, y as int);
            }
            let i: usize = y as usize * buf_w as usize + x as usize;
            let stroke: u8 = coverage[i];
            let ghost before = out;
            if stroke != 0 {
                let c: [u8; 3] = match paint {
                    OutlinePaint::Gradient(c) => *c,
                    OutlinePaint::AngularGradient(colors) => colors[i],
                    OutlinePaint::MarchingAnts(dashes) => if dashes[i] {
                        [DASH_LEVEL, DASH_LEVEL, DASH_LEVEL]
                    } else {
                        [GAP_LEVEL, GAP_LEVEL, GAP_LEVEL]
                    },
                };
                out.set_pixel(x, y, [c[0], c[1], c[2], stroke]);
            }
            assert forall|px: int, py: int| out.has(px, py) implies #[trigger] out.at(px, py) == (
            if px == x && py == y {
                paint.px(i as int, stroke)
            } else {
                before.at(px, py)
            }) by {
                assert(before.has(px, py));
            }
            x += 1;
        }
        y += 1;
    }
    out
}

/// The magnified region as it is marked: at least one pixel either way.
pub open spec fn marked_region(region: (i32, i32, i32, i32)) -> (int, int, int, int) {
    let (x0, y0, x1, y1) = region;
    (
        screenshot::min_of(x0 as int, x1 - 1),
        screenshot::min_of(y0 as int, y1 - 1),
        screenshot::max_of(x1 as int, x0 + 1),
        screenshot::max_of(y1 as int, y0 + 1),
    )
}

/// Length of the legs of the brackets around a region of the given size.
pub open spec fn tick_of(w: int, h: int) -> int {
    screenshot::max_of(
        screenshot::min_of(
            screenshot::min_of(MINIMAP_CORNER_TICK as int, w / 2),
            h / 2,
        ),
        1,
    )
}

/// Whether the brackets at the corners of the region cover `(x, y)`. A region
/// that the dot would hide has none.
pub open spec fn on_bracket(region: (i32, i32, i32, i32), x: int, y: int) -> bool {
    let (x0, y0, x1, y1) = marked_region(region);
    let t = tick_of(x1 - x0, y1 - y0);
    let along_x = x0 <= x < x0 + t || x1 - t <= x < x1;
    let along_y = y0 <= y < y0 + t || y1 - t <= y < y1;
    &&& x1 - x0 >= MINIMAP_MARKER_MIN_EDGE
    &&& y1 - y0 >= MINIMAP_MARKER_MIN_EDGE
    &&& (along_x && (y == y0 || y == y1 - 1)) || (along_y && (x == x0 || x == x1 - 1))
}

/// The distance of two coordinates.
pub open spec fn gap(a: int, b: int) -> int {
    if a < b {
        b - a
    } else {
        a - b
    }
}

/// The colour of the pointer dot `ax` columns and `ay` rows from its middle: a
/// red disc with a black rim.
pub open spec fn dot_px(ax: int, ay: int) -> Option<Quad> {
    if (ay <= 1 && ax <= 2) || (ay == 2 && ax <= 1) {
        Some((255u8, 60u8, 60u8, 255u8))
    } else if (ay <= 1 && ax <= 4) || (ay == 2 && ax <= 3) || (ay == 3 && ax <= 2) {
        Some((0u8, 0u8, 0u8, 255u8))
    } else {
        None
    }
}

/// A pixel of the minimap with the markers on it: the brackets, and the dot
/// over them.
pub open spec fn marked(plan: MinimapPlan, x: int, y: int, p: Quad) -> Quad {
    match dot_px(gap(x, plan.pointer.0 as int), gap(y, plan.pointer.1 as int)) {
        Some(q) => q,
        None => match plan.region {
            Some(region) => if on_bracket(region, x, y) {
                (255u8, 200u8, 70u8, 255u8)
            } else {
                p
            },
            None => p,
        },
    }
}

fn draw_brackets(data: &mut [u8], w: i32, h: i32, region: (i32, i32, i32, i32))
    requires
        0 <= w,
        0 <= h,
        w * h * 4 <= old(data)@.len(),
    ensures
        pixels::painted(
            old(data)@,
            final(data)@,
            w as int,
            h as int,
            |x: int, y: int, p: Quad|
                if on_bracket(region, x, y) {
                    (255u8, 200u8, 70u8, 255u8)
                } else {
                    p
                },
        ),
{
    let (rx0, ry0, rx1, ry1): (i64, i64, i64, i64) = (
        region.0 as i64,
        region.1 as i64,
        region.2 as i64,
        region.3 as i64,
    );
    let x0: i64 = if rx0 < rx1 - 1 { rx0 } else { rx1 - 1 };
    let y0: i64 = if ry0 < ry1 - 1 { ry0 } else { ry1 - 1 };
    let x1: i64 = if rx1 < rx0 + 1 { rx0 + 1 } else { rx1 };
    let y1: i64 = if ry1 < ry0 + 1 { ry0 + 1 } else { ry1 };
    if x1 - x0 < MINIMAP_MARKER_MIN_EDGE as i64 || y1 - y0 < MINIMAP_MARKER_MIN_EDGE as i64 {
        return;
    }
    let half_w: i64 = (x1 - x0) / 2;
    let half_h: i64 = (y1 - y0) / 2;
    let longest: i64 = MINIMAP_CORNER_TICK as i64;
    let a: i64 = if longest < half_w { longest } else { half_w };
    let t: i64 = if a < half_h { a } else { half_h };
    assert(t == tick_of(x1 - x0, y1 - y0));
    let c: [u8; 4] = [255, 200, 70, 255];
    pixels::fill_far(data, w, h, x0, x0 + t, y0, y0 + 1, c);
    pixels::fill_far(data, w, h, x0, x0 + 1, y0, y0 + t, c);
    pixels::fill_far(data, w, h, x1 - t, x1, y0, y0 + 1, c);
    pixels::fill_far(data, w, h, x1 - 1, x1, y0, y0 + t, c);
    pixels::fill_far(data, w, h, x0, x0 + t, y1 - 1, y1, c);
    pixels::fill_far(data, w, h, x0, x0 + 1, y1 - t, y1, c);
    pixels::fill_far(data, w, h, x1 - t, x1, y1 - 1, y1, c);
    pixels::fill_far(data, w, h, x1 - 1, x1, y1 - t, y1, c);
}

fn draw_dot(data: &mut [u8], w: i32, h: i32, pointer: (i32, i32))
    requires
        0 <= w,
        0 <= h,
        w * h * 4 <= old(data)@.len(),
    ensures
        pixels::painted(
            old(data)@,
            final(data)@,
            w as int,
            h as int,
            |x: int, y: int, p: Quad|
                match dot_px(gap(x, pointer.0 as int), gap(y, pointer.1 as int)) {
                    Some(q) => q,
                    None => p,
                },
        ),
{
    let (dx, dy): (i64, i64) = (pointer.0 as i64, pointer.1 as i64);
    let black: [u8; 4] = [0, 0, 0, 255];
    let red: [u8; 4] = [255, 60, 60, 255];
    pixels::fill_far(data, w, h, dx - 2, dx + 3, dy - 3, dy + 4, black);
    pixels::fill_far(data, w, h, dx - 3, dx + 4, dy - 2, dy + 3, black);
    pixels::fill_far(data, w, h, dx - 4, dx + 5, dy - 1, dy + 2, black);
    pixels::fill_far(data, w, h, dx - 1, dx + 2, dy - 2, dy + 3, red);
    pixels::fill_far(data, w, h, dx - 2, dx + 3, dy - 1, dy + 2, red);
}

/// The frame that is shown is `m` with the markers on it.
pub open spec fn is_marked(frame: RgbaBuffer, m: RgbaBuffer, plan: MinimapPlan) -> bool {
    &&& frame.wf()
    &&& frame.width == m.width
    &&& frame.height == m.height
    &&& forall|x: int, y: int|
        frame.has(x, y) ==> #[trigger] frame.at(x, y) == marked(plan, x, y, m.at(x, y))
}

/// `m` is `b` with everything outside the frame cut away.
pub open spec fn is_masked(m: RgbaBuffer, b: RgbaBuffer, shape: OutlineShape) -> bool {
    &&& m.wf()
    &&& m.width == b.width
    &&& m.height == b.height
    &&& forall|x: int, y: int|
        m.has(x, y) ==> #[trigger] m.at(x, y) == masked(
            shape.inside@[y * b.width + x],
            shape.stroke@[y * b.width + x],
            b.at(x, y),
        )
}

/// An image of the size of the minimap.
pub open spec fn fits(cached: Option<RgbaBuffer>, plan: MinimapPlan) -> bool {
    cached matches Some(b) && b.width == plan.buf_w && b.height == plan.buf_h
}

/// What a minimap frame is made of: the image with the markers, the outline to
/// blend over it, and the base to hand back for the next frame.
#[derive(Debug)]
pub struct MinimapFrame {
    pub sprite: OsdSprite,
    pub outline: RgbaBuffer,
    pub base: RgbaBuffer,
}

/// Draws one frame of the minimap.
///
/// `base` is the base of the frame before; it serves again where it has the
/// size of this one, and the masked image in `cache` then serves again too
/// where `same_outline` says that the outline has kept its width. Otherwise
/// both are made anew. `cache` is left holding the masked image.
pub fn build_minimap_sprite(
    capture: &RgbaBuffer,
    plan: &MinimapPlan,
    bake_pos: Option<(i32, i32)>,
    base: Option<RgbaBuffer>,
    shape: &OutlineShape,
    same_outline: bool,
    cache: &mut Option<RgbaBuffer>,
    paint: &OutlinePaint,
) -> (r: MinimapFrame)
    requires
        capture.wf(),
        plan.wf(),
        bakeable(bake_pos),
        fits(base, *plan) ==> base->0.wf(),
        fits(*old(cache), *plan) ==> (*old(cache))->0.wf(),
        shape.covers(plan.buf_w as int, plan.buf_h as int),
        paint.covers(plan.buf_w * plan.buf_h),
    ensures
        fits(base, *plan) ==> r.base == base->0,
        !fits(base, *plan) ==> is_base(r.base, *capture, *plan, bake_pos),
        (*final(cache)) is Some,
        fits(base, *plan) && same_outline && fits(*old(cache), *plan) ==> *final(cache) == *old(
            cache,
        ),
        !(fits(base, *plan) && same_outline && fits(*old(cache), *plan)) ==> is_masked(
            (*final(cache))->0,
            r.base,
            *shape,
        ),
        is_marked(r.sprite.buffer, (*final(cache))->0, *plan),
        r.sprite.x == plan.x,
        r.sprite.y == plan.y,
        r.sprite.width == plan.width,
        r.sprite.height == plan.height,
        r.outline.wf(),
        r.outline.width == plan.buf_w,
        r.outline.height == plan.buf_h,
        forall|x: int, y: int|
            r.outline.has(x, y) ==> #[trigger] r.outline.at(x, y) == paint.px(
                y * plan.buf_w + x,
                shape.stroke@[y * plan.buf_w + x],
            ),
{
    let w: i32 = plan.buf_w;
    let h: i32 = plan.buf_h;
    let kept: bool = match &base {
        Some(b) => b.width == w && b.height == h,
        None => false,
    };
    let base: RgbaBuffer = match base {
        Some(b) if b.width == w && b.height == h => b,
        _ => build_base(capture, plan, bake_pos),
    };
    let mask_valid: bool = kept && same_outline && match &*cache {
        Some(m) => m.width == w && m.height == h,
        None => false,
    };
    if !mask_valid {
        let mut m: RgbaBuffer = base.clone();
        apply_minimap_mask(&mut m, shape);
        assert forall|x: int, y: int| m.has(x, y) implies #[trigger] m.at(x, y) == masked(
            shape.inside@[y * base.width + x],
            shape.stroke@[y * base.width + x],
            base.at(x, y),
        ) by {
            assert(base.has(x, y));
        }
        *cache = Some(m);
    }
    let mut frame: RgbaBuffer = match &*cache {
        Some(m) => m.clone(),
        None => base.clone(),
    };
    let ghost m = (*cache)->0;
    assert(frame.data@ == m.data@);
    if let Some(region) = plan.region {
        draw_brackets(frame.data.as_mut_slice(), w, h, region);
    }
    let ghost bracketed = frame;
    draw_dot(frame.data.as_mut_slice(), w, h, plan.pointer);
    assert forall|x: int, y: int| frame.has(x, y) implies #[trigger] frame.at(x, y) == marked(
        *plan,
        x,
        y,
        m.at(x, y),
    ) by {
        assert(bracketed.has(x, y));
        assert(bracketed.at(x, y) == pixels::px_at(bracketed.data@, w as int, x, y));
    }
    let outline: RgbaBuffer = apply_outline_colors(&shape.stroke, w, h, paint);
    MinimapFrame {
        sprite: OsdSprite {
            buffer: frame,
            x: plan.x,
            y: plan.y,
            width: plan.width,
            height: plan.height,
        },
        outline,
        base,
    }
}

/// The dot hides the brackets wherever it reaches them.
pub proof fn dot_is_on_top(plan: MinimapPlan, x: int, y: int, p: Quad)
    requires
        gap(x, plan.pointer.0 as int) <= 2,
        gap(y, plan.pointer.1 as int) <= 1,
    ensures
        marked(plan, x, y, p) == (255u8, 60u8, 60u8, 255u8),
{
}

/// Brackets lie within the region that they mark.
pub proof fn brackets_stay_in_region(region: (i32, i32, i32, i32), x: int, y: int)
    requires
        region.0 <= region.2,
        region.1 <= region.3,
        on_bracket(region, x, y),
    ensures
        region.0 <= x < region.2,
        region.1 <= y < region.3,
{
}

/// Least and largest width of the minimap, and its least height.
pub const MINIMAP_MIN_WIDTH: i32 = 140;

pub const MINIMAP_MAX_WIDTH: i32 = 360;

pub const MINIMAP_MIN_HEIGHT: i32 = 40;

/// The size of the minimap: 22 percent of the width of the viewport, within its
/// limits, and as high as the shape of the captured frame asks for. Both are
/// rounded to the nearest pixel.
pub open spec fn minimap_size(viewport_w: int, capture: (int, int)) -> (int, int) {
    let w = screenshot::clamped(
        (22 * viewport_w + 50) / 100,
        MINIMAP_MIN_WIDTH as int,
        MINIMAP_MAX_WIDTH as int,
    );
    let cw = screenshot::max_of(capture.0, 1);
    (w, screenshot::max_of((2 * (w * capture.1) + cw) / (2 * cw), MINIMAP_MIN_HEIGHT as int))
}

/// Where the minimap goes on the viewport, and its size.
pub fn minimap_layout(
    viewport: (i32, i32),
    capture: (i32, i32),
    margin: i32,
    corner: Corner,
) -> (r: (i32, i32, i32, i32))
    requires
        0 <= viewport.0,
        0 <= viewport.1,
        0 <= capture.0,
        0 <= capture.1,
        0 <= margin,
        minimap_size(viewport.0 as int, (capture.0 as int, capture.1 as int)).0 + margin
            <= i32::MAX,
        minimap_size(viewport.0 as int, (capture.0 as int, capture.1 as int)).1 + margin
            <= i32::MAX,
    ensures
        (r.2 as int, r.3 as int) == minimap_size(
            viewport.0 as int,
            (capture.0 as int, capture.1 as int),
        ),
        (r.0 as int, r.1 as int) == osd::corner_position(
            corner,
            (viewport.0 as int, viewport.1 as int),
            (r.2 as int, r.3 as int),
            margin as int,
        ),
{
    let wanted: i64 = (22 * viewport.0 as i64 + 50) / 100;
    let w: i64 = if wanted < MINIMAP_MIN_WIDTH as i64 {
        MINIMAP_MIN_WIDTH as i64
    } else if wanted > MINIMAP_MAX_WIDTH as i64 {
        MINIMAP_MAX_WIDTH as i64
    } else {
        wanted
    };
    let cw: i64 = if capture.0 < 1 { 1 } else { capture.0 as i64 };
    assert(0 <= w * capture.1 <= 360 * i32::MAX) by (nonlinear_arith)
        requires
            0 <= w <= 360,
            0 <= capture.1 <= i32::MAX,
    ;
    let area: i64 = w * capture.1 as i64;
    let tall: i64 = (2 * area + cw) / (2 * cw);
    let h: i32 = if tall < MINIMAP_MIN_HEIGHT as i64 {
        MINIMAP_MIN_HEIGHT
    } else {
        tall as i32
    };
    let w: i32 = w as i32;
    let (x, y): (i32, i32) = corner.position(viewport.0, viewport.1, w, h, margin);
    (x, y, w, h)
}

/// The minimap keeps within its limits, whatever the viewport and the frame.
pub proof fn minimap_size_is_limited(viewport_w: int, capture: (int, int))
    ensures
        MINIMAP_MIN_WIDTH <= minimap_size(viewport_w, capture).0 <= MINIMAP_MAX_WIDTH,
        MINIMAP_MIN_HEIGHT <= minimap_size(viewport_w, capture).1,
{
}

proof fn lemma_row_scaled(f: spec_fn(int) -> int, g: spec_fn(int) -> int, c: int, lo: int, hi: int)
    requires
        forall|x: int| lo <= x < hi ==> #[trigger] f(x) == c * g(x),
    ensures
        row_sum(f, lo, hi) == c * row_sum(g, lo, hi),
    decreases hi - lo,
{
    if lo < hi {
        lemma_row_scaled(f, g, c, lo, hi - 1);
        assert(f(hi - 1) == c * g(hi - 1));
        assert(c * (row_sum(g, lo, hi - 1) + g(hi - 1)) == c * row_sum(g, lo, hi - 1) + c * g(
            hi - 1,
        )) by (nonlinear_arith);
    } else {
        assert(c * 0 == 0);
    }
}

proof fn lemma_area_scaled(
    f: spec_fn(int, int) -> int,
    g: spec_fn(int, int) -> int,
    c: int,
    x0: int,
    x1: int,
    y0: int,
    y1: int,
)
    requires
        forall|x: int, y: int| x0 <= x < x1 && y0 <= y < y1 ==> #[trigger] f(x, y) == c * g(x, y),
    ensures
        area_sum(f, x0, x1, y0, y1) == c * area_sum(g, x0, x1, y0, y1),
    decreases y1 - y0,
{
    if y0 < y1 {
        lemma_area_scaled(f, g, c, x0, x1, y0, y1 - 1);
        let fr = |x: int| f(x, y1 - 1);
        let gr = |x: int| g(x, y1 - 1);
        assert forall|x: int| x0 <= x < x1 implies #[trigger] fr(x) == c * gr(x) by {
            assert(f(x, y1 - 1) == c * g(x, y1 - 1));
        }
        lemma_row_scaled(fr, gr, c, x0, x1);
        assert(c * (area_sum(g, x0, x1, y0, y1 - 1) + row_sum(gr, x0, x1)) == c * area_sum(
            g,
            x0,
            x1,
            y0,
            y1 - 1,
        ) + c * row_sum(gr, x0, x1)) by (nonlinear_arith);
    } else {
        assert(c * 0 == 0);
    }
}

proof fn lemma_row_count(f: spec_fn(int) -> int, lo: int, hi: int)
    requires
        lo <= hi,
        forall|x: int| lo <= x < hi ==> #[trigger] f(x) == 1,
    ensures
        row_sum(f, lo, hi) == hi - lo,
    decreases hi - lo,
{
    if lo < hi {
        lemma_row_count(f, lo, hi - 1);
        assert(f(hi - 1) == 1);
    }
}

proof fn lemma_area_count(f: spec_fn(int, int) -> int, x0: int, x1: int, y0: int, y1: int)
    requires
        x0 <= x1,
        y0 <= y1,
        forall|x: int, y: int| x0 <= x < x1 && y0 <= y < y1 ==> #[trigger] f(x, y) == 1,
    ensures
        area_sum(f, x0, x1, y0, y1) == (x1 - x0) * (y1 - y0),
    decreases y1 - y0,
{
    if y0 < y1 {
        lemma_area_count(f, x0, x1, y0, y1 - 1);
        let fr = |x: int| f(x, y1 - 1);
        assert forall|x: int| x0 <= x < x1 implies #[trigger] fr(x) == 1 by {
            assert(f(x, y1 - 1) == 1);
        }
        lemma_row_count(fr, x0, x1);
        assert((x1 - x0) * (y1 - 1 - y0) + (x1 - x0) == (x1 - x0) * (y1 - y0)) by (nonlinear_arith);
    } else {
        assert((x1 - x0) * 0 == 0);
    }
}

proof fn lemma_row_positive(f: spec_fn(int) -> int, lo: int, hi: int, at: int)
    requires
        lo <= at < hi,
        forall|x: int| lo <= x < hi ==> 0 <= #[trigger] f(x),
        0 < f(at),
    ensures
        0 < row_sum(f, lo, hi),
    decreases hi - lo,
{
    assert(0 <= f(hi - 1));
    if at < hi - 1 {
        lemma_row_positive(f, lo, hi - 1, at);
    } else {
        lemma_row_natural(f, lo, hi - 1);
    }
}

proof fn lemma_row_natural(f: spec_fn(int) -> int, lo: int, hi: int)
    requires
        forall|x: int| lo <= x < hi ==> 0 <= #[trigger] f(x),
    ensures
        0 <= row_sum(f, lo, hi),
    decreases hi - lo,
{
    if lo < hi {
        lemma_row_natural(f, lo, hi - 1);
        assert(0 <= f(hi - 1));
    }
}

proof fn lemma_area_natural(f: spec_fn(int, int) -> int, x0: int, x1: int, y0: int, y1: int)
    requires
        forall|x: int, y: int| x0 <= x < x1 && y0 <= y < y1 ==> 0 <= #[trigger] f(x, y),
    ensures
        0 <= area_sum(f, x0, x1, y0, y1),
    decreases y1 - y0,
{
    if y0 < y1 {
        lemma_area_natural(f, x0, x1, y0, y1 - 1);
        let fr = |x: int| f(x, y1 - 1);
        assert forall|x: int| x0 <= x < x1 implies 0 <= #[trigger] fr(x) by {
            assert(0 <= f(x, y1 - 1));
        }
        lemma_row_natural(fr, x0, x1);
    }
}

proof fn lemma_area_positive(
    f: spec_fn(int, int) -> int,
    x0: int,
    x1: int,
    y0: int,
    y1: int,
    ax: int,
    ay: int,
)
    requires
        x0 <= ax < x1,
        y0 <= ay < y1,
        forall|x: int, y: int| x0 <= x < x1 && y0 <= y < y1 ==> 0 <= #[trigger] f(x, y),
        0 < f(ax, ay),
    ensures
        0 < area_sum(f, x0, x1, y0, y1),
    decreases y1 - y0,
{
    let fr = |x: int| f(x, y1 - 1);
    assert forall|x: int| x0 <= x < x1 implies 0 <= #[trigger] fr(x) by {
        assert(0 <= f(x, y1 - 1));
    }
    if ay < y1 - 1 {
        lemma_area_positive(f, x0, x1, y0, y1 - 1, ax, ay);
        lemma_row_natural(fr, x0, x1);
    } else {
        lemma_area_natural(f, x0, x1, y0, y1 - 1);
        assert(0 < fr(ax));
        lemma_row_positive(fr, x0, x1, ax);
    }
}

proof fn lemma_box(i: int, n: int, len: int)
    requires
        0 <= i < n,
        0 < len,
    ensures
        0 <= i * len / n < len,
        i * len / n < ((i + 1) * len + n - 1) / n,
        n == len ==> i * len / n == i && ((i + 1) * len + n - 1) / n == i + 1,
{
    let q = i * len / n;
    let e = ((i + 1) * len + n - 1) / n;
    assert(i * len < n * len && 0 <= i * len && (i + 1) * len == i * len + len) by (nonlinear_arith)
        requires
            0 <= i < n,
            0 < len,
    ;
    vstd::arithmetic::div_mod::lemma_fundamental_div_mod(i * len, n);
    vstd::arithmetic::div_mod::lemma_mod_bound(i * len, n);
    vstd::arithmetic::div_mod::lemma_fundamental_div_mod((i + 1) * len + n - 1, n);
    vstd::arithmetic::div_mod::lemma_mod_bound((i + 1) * len + n - 1, n);
    assert(0 <= q && q < len) by (nonlinear_arith)
        requires
            i * len == n * q + (i * len) % n,
            0 <= (i * len) % n < n,
            0 <= i * len < n * len,
            0 < n,
    ;
    assert(q < e) by (nonlinear_arith)
        requires
            i * len == n * q + (i * len) % n,
            0 <= (i * len) % n,
            (i + 1) * len + n - 1 == n * e + ((i + 1) * len + n - 1) % n,
            ((i + 1) * len + n - 1) % n < n,
            (i + 1) * len == i * len + len,
            0 < len,
            0 < n,
    ;
    if n == len {
        assert(q == i) by (nonlinear_arith)
            requires
                i * len == n * q + (i * len) % n,
                0 <= (i * len) % n < n,
                n == len,
                0 < n,
        ;
        assert(e == i + 1) by (nonlinear_arith)
            requires
                (i + 1) * len + n - 1 == n * e + ((i + 1) * len + n - 1) % n,
                0 <= ((i + 1) * len + n - 1) % n < n,
                n == len,
                0 < n,
        ;
    }
}

/// A pixel of the overview stands for the part of the frame at the same place:
/// in each channel it is the average of the source pixels in the columns from
/// `x * W / w` and before `(x + 1) * W / w`, rounded up, and the rows likewise,
/// dimmed and rounded down.
pub proof fn overview_averages_in_place(
    src: RgbaBuffer,
    w: int,
    h: int,
    dim: int,
    x: int,
    y: int,
    c: int,
)
    requires
        src.wf(),
        0 < src.width,
        0 < src.height,
        0 <= x < w,
        0 <= y < h,
        0 <= dim <= 33554432,
        0 <= c < 3,
    ensures
        ({
            let up = |n: int, m: int| (n + m - 1) / m;
            let least = |a: int, b: int| if a < b { a } else { b };
            let (x0, x1) = (x * src.width / w, least(up((x + 1) * src.width, w), src.width as int));
            let (y0, y1) = (
                y * src.height / h,
                least(up((y + 1) * src.height, h), src.height as int),
            );
            let light = |i: int, j: int|
                if c == 0 {
                    src.at(i, j).0 as int
                } else if c == 1 {
                    src.at(i, j).1 as int
                } else {
                    src.at(i, j).2 as int
                };
            let shown = downscaled(src, w, h, dim, x, y);
            let average = area_sum(light, x0, x1, y0, y1) / ((x1 - x0) * (y1 - y0));
            &&& 0 <= x0 < x1 <= src.width && 0 <= y0 < y1 <= src.height
            &&& (if c == 0 {
                shown.0
            } else if c == 1 {
                shown.1
            } else {
                shown.2
            }) == average * dim / 33554432
            &&& shown.3 == 255
        }),
{
    let (x0, x1) = box_of(x, w, src.width as int);
    let (y0, y1) = box_of(y, h, src.height as int);
    lemma_box(x, w, src.width as int);
    lemma_box(y, h, src.height as int);
    let light = |i: int, j: int|
        if c == 0 {
            src.at(i, j).0 as int
        } else if c == 1 {
            src.at(i, j).1 as int
        } else {
            src.at(i, j).2 as int
        };
    let f = |px: int, py: int| weight(src, c, nothing(), px, py);
    let ones = |px: int, py: int| weight(src, 3, nothing(), px, py);
    assert forall|px: int, py: int| x0 <= px < x1 && y0 <= py < y1 implies #[trigger] f(px, py) == 1
        * light(px, py) by {}
    lemma_area_scaled(f, light, 1, x0, x1, y0, y1);
    lemma_area_count(ones, x0, x1, y0, y1);
    let n = (x1 - x0) * (y1 - y0);
    assert(0 < n) by (nonlinear_arith)
        requires
            x0 < x1,
            y0 < y1,
            n == (x1 - x0) * (y1 - y0),
    ;
    let s = area_sum(light, x0, x1, y0, y1);
    lemma_area_natural(light, x0, x1, y0, y1);
    lemma_area_at_most(light, x0, x1, y0, y1);
    assert(0 <= s / n <= 255) by (nonlinear_arith)
        requires
            0 < n,
            0 <= s <= 255 * n,
    ;
    let v = s / n;
    assert(0 <= v * dim <= 255 * 33554432) by (nonlinear_arith)
        requires
            0 <= v <= 255,
            0 <= dim <= 33554432,
    ;
}

proof fn lemma_area_at_most(f: spec_fn(int, int) -> int, x0: int, x1: int, y0: int, y1: int)
    requires
        x0 <= x1,
        y0 <= y1,
        forall|x: int, y: int| x0 <= x < x1 && y0 <= y < y1 ==> #[trigger] f(x, y) <= 255,
    ensures
        area_sum(f, x0, x1, y0, y1) <= 255 * ((x1 - x0) * (y1 - y0)),
    decreases y1 - y0,
{
    if y0 < y1 {
        lemma_area_at_most(f, x0, x1, y0, y1 - 1);
        let fr = |x: int| f(x, y1 - 1);
        assert forall|x: int| x0 <= x < x1 implies #[trigger] fr(x) <= 255 by {
            assert(f(x, y1 - 1) <= 255);
        }
        lemma_row_at_most(fr, x0, x1);
        assert((x1 - x0) * (y1 - 1 - y0) + (x1 - x0) == (x1 - x0) * (y1 - y0)) by (nonlinear_arith);
    } else {
        assert((x1 - x0) * 0 == 0);
    }
}

proof fn lemma_row_at_most(f: spec_fn(int) -> int, lo: int, hi: int)
    requires
        lo <= hi,
        forall|x: int| lo <= x < hi ==> #[trigger] f(x) <= 255,
    ensures
        row_sum(f, lo, hi) <= 255 * (hi - lo),
    decreases hi - lo,
{
    if lo < hi {
        lemma_row_at_most(f, lo, hi - 1);
        assert(f(hi - 1) <= 255);
    }
}

/// Where the part of the frame that a pixel of the overview stands for has one
/// colour, the pixel has that colour, dimmed.
pub proof fn overview_keeps_even_colors(
    src: RgbaBuffer,
    w: int,
    h: int,
    dim: int,
    x: int,
    y: int,
    color: (u8, u8, u8),
)
    requires
        src.wf(),
        0 < src.width,
        0 < src.height,
        0 <= x < w,
        0 <= y < h,
        0 <= dim <= 33554432,
        forall|i: int, j: int|
            x * src.width / w <= i < ((x + 1) * src.width + w - 1) / w && y * src.height / h <= j < ((
            y + 1) * src.height + h - 1) / h && src.has(i, j) ==> {
                let p = #[trigger] src.at(i, j);
                (p.0, p.1, p.2) == color
            },
    ensures
        downscaled(src, w, h, dim, x, y) == (
            (color.0 * dim / 33554432) as u8,
            (color.1 * dim / 33554432) as u8,
            (color.2 * dim / 33554432) as u8,
            255u8,
        ),
{
    let (x0, x1) = box_of(x, w, src.width as int);
    let (y0, y1) = box_of(y, h, src.height as int);
    lemma_box(x, w, src.width as int);
    lemma_box(y, h, src.height as int);
    let ones = |px: int, py: int| weight(src, 3, nothing(), px, py);
    lemma_area_count(ones, x0, x1, y0, y1);
    let n = (x1 - x0) * (y1 - y0);
    assert(0 < n) by (nonlinear_arith)
        requires
            x0 < x1,
            y0 < y1,
            n == (x1 - x0) * (y1 - y0),
    ;
    lemma_even(src, 0, color.0 as int, x0, x1, y0, y1);
    lemma_even(src, 1, color.1 as int, x0, x1, y0, y1);
    lemma_even(src, 2, color.2 as int, x0, x1, y0, y1);
    lemma_quotient(color.0 as int, n);
    lemma_quotient(color.1 as int, n);
    lemma_quotient(color.2 as int, n);
}

proof fn lemma_quotient(c: int, n: int)
    requires
        0 <= c,
        0 < n,
    ensures
        (c * n) / n == c,
{
    vstd::arithmetic::div_mod::lemma_div_by_multiple(c, n);
}

proof fn lemma_even(src: RgbaBuffer, c: int, v: int, x0: int, x1: int, y0: int, y1: int)
    requires
        x0 <= x1,
        y0 <= y1,
        0 <= c < 3,
        forall|i: int, j: int|
            x0 <= i < x1 && y0 <= j < y1 ==> channel(#[trigger] src.at(i, j), c) == v,
    ensures
        total(src, c, nothing(), x0, x1, y0, y1) == v * ((x1 - x0) * (y1 - y0)),
{
    let f = |px: int, py: int| weight(src, c, nothing(), px, py);
    let ones = |px: int, py: int| weight(src, 3, nothing(), px, py);
    assert forall|px: int, py: int| x0 <= px < x1 && y0 <= py < y1 implies #[trigger] f(px, py) == v
        * ones(px, py) by {
        assert(channel(src.at(px, py), c) == v);
    }
    lemma_area_scaled(f, ones, v, x0, x1, y0, y1);
    lemma_area_count(ones, x0, x1, y0, y1);
}

/// At the size of the frame and at full brightness the overview is the frame,
/// pixel by pixel, and opaque.
pub proof fn overview_at_full_size_is_the_frame(src: RgbaBuffer, x: int, y: int)
    requires
        src.wf(),
        src.has(x, y),
    ensures
        downscaled(src, src.width as int, src.height as int, 33554432, x, y) == (
            src.at(x, y).0,
            src.at(x, y).1,
            src.at(x, y).2,
            255u8,
        ),
{
    lemma_box(x, src.width as int, src.width as int);
    lemma_box(y, src.height as int, src.height as int);
    overview_keeps_even_colors(
        src,
        src.width as int,
        src.height as int,
        33554432,
        x,
        y,
        (src.at(x, y).0, src.at(x, y).1, src.at(x, y).2),
    );
}

/// Whether a pixel lies in the ring one pixel wide around the square of half edge
/// `half` around `(cx, cy)`.
pub open spec fn around(cx: int, cy: int, half: int, x: int, y: int) -> bool {
    &&& cx - half - 1 <= x <= cx + half
    &&& cy - half - 1 <= y <= cy + half
    &&& x < cx - half || x == cx + half || y < cy - half || y == cy + half
}

/// Whether a pixel of an image lies in that ring.
pub open spec fn surrounds(img: RgbaBuffer, cx: int, cy: int, half: int, x: int, y: int) -> bool {
    around(cx, cy, half, x, y) && img.has(x, y)
}

/// A square that is painted over takes the colour of what surrounds it: where
/// the ring of pixels around it has one colour, every pixel of the square has
/// that colour and its own opacity. Nothing outside the square changes, and
/// nothing at all where no pixel of the frame surrounds it.
pub proof fn painting_over_blends_in(
    img: RgbaBuffer,
    cx: int,
    cy: int,
    half: int,
    color: (u8, u8, u8),
    x: int,
    y: int,
)
    requires
        img.wf(),
        img.has(x, y),
        0 <= half,
        forall|i: int, j: int|
            around(cx, cy, half, i, j) && img.has(i, j) ==> {
                let p = #[trigger] img.at(i, j);
                (p.0, p.1, p.2) == color
            },
    ensures
        ({
            let shown = inpainted(img, bake_rect(cx, cy, half), x, y);
            let within = cx - half <= x < cx + half && cy - half <= y < cy + half;
            let some = exists|i: int, j: int| #[trigger] surrounds(img, cx, cy, half, i, j);
            &&& within && some ==> shown == (color.0, color.1, color.2, img.at(x, y).3)
            &&& !within || !some ==> shown == img.at(x, y)
        }),
{
    let rect = bake_rect(cx, cy, half);
    let (x0, x1) = (
        screenshot::max_of(rect.0 - 1, 0),
        screenshot::min_of(rect.2 + 1, img.width as int),
    );
    let (y0, y1) = (
        screenshot::max_of(rect.1 - 1, 0),
        screenshot::min_of(rect.3 + 1, img.height as int),
    );
    let ones = |px: int, py: int| weight(img, 3, rect, px, py);
    lemma_area_natural(ones, x0, x1, y0, y1);
    let n = ring_total(img, 3, rect);
    assert(n == area_sum(ones, x0, x1, y0, y1));
    if exists|i: int, j: int| #[trigger] surrounds(img, cx, cy, half, i, j) {
        let (i, j) = choose|i: int, j: int| #[trigger] surrounds(img, cx, cy, half, i, j);
        assert(ones(i, j) == 1);
        lemma_area_positive(ones, x0, x1, y0, y1, i, j);
    } else {
        let none = |px: int, py: int| 0int;
        assert forall|px: int, py: int| x0 <= px < x1 && y0 <= py < y1 implies #[trigger] ones(
            px,
            py,
        ) == 0 * none(px, py) by {
            assert(!surrounds(img, cx, cy, half, px, py));
        }
        lemma_area_scaled(ones, none, 0, x0, x1, y0, y1);
    }
    if n > 0 {
        lemma_ring_even(img, 0, color.0 as int, rect, x0, x1, y0, y1);
        lemma_ring_even(img, 1, color.1 as int, rect, x0, x1, y0, y1);
        lemma_ring_even(img, 2, color.2 as int, rect, x0, x1, y0, y1);
        lemma_quotient(color.0 as int, n);
        lemma_quotient(color.1 as int, n);
        lemma_quotient(color.2 as int, n);
    }
}

proof fn lemma_ring_even(
    img: RgbaBuffer,
    c: int,
    v: int,
    skip: (int, int, int, int),
    x0: int,
    x1: int,
    y0: int,
    y1: int,
)
    requires
        0 <= c < 3,
        forall|i: int, j: int|
            x0 <= i < x1 && y0 <= j < y1 && !pixels::in_rect(i, j, skip.0, skip.2, skip.1, skip.3)
                ==> channel(#[trigger] img.at(i, j), c) == v,
    ensures
        total(img, c, skip, x0, x1, y0, y1) == v * total(img, 3, skip, x0, x1, y0, y1),
{
    let f = |px: int, py: int| weight(img, c, skip, px, py);
    let ones = |px: int, py: int| weight(img, 3, skip, px, py);
    assert forall|px: int, py: int| x0 <= px < x1 && y0 <= py < y1 implies #[trigger] f(px, py) == v
        * ones(px, py) by {
        if !pixels::in_rect(px, py, skip.0, skip.2, skip.1, skip.3) {
            assert(channel(img.at(px, py), c) == v);
        }
    }
    lemma_area_scaled(f, ones, v, x0, x1, y0, y1);
}

/// The overview lies in the middle of the minimap: what it leaves free on the two
/// sides differs by at most a pixel, and around it the minimap is black. Within
/// it the minimap shows the scrubbed frame, scaled down and dimmed to the given
/// brightness, pixel by pixel from its top left corner on.
pub proof fn overview_lies_in_the_middle(s: RgbaBuffer, plan: MinimapPlan, i: int, j: int)
    requires
        plan.wf(),
        2 * plan.inset < plan.buf_w,
        2 * plan.inset < plan.buf_h,
    ensures
        ({
            let left = plan.thumb_x();
            let right = plan.buf_w - left - plan.thumb_w;
            let top = plan.thumb_y();
            let bottom = plan.buf_h - top - plan.thumb_h;
            &&& plan.inset <= left <= right <= left + 1
            &&& plan.inset <= top <= bottom <= top + 1
            &&& 0 <= i < plan.thumb_w && 0 <= j < plan.thumb_h ==> base_px(
                s,
                plan,
                left + i,
                top + j,
            ) == downscaled(s, plan.thumb_w as int, plan.thumb_h as int, 15099494, i, j)
            &&& !(0 <= i < plan.thumb_w && 0 <= j < plan.thumb_h) ==> base_px(
                s,
                plan,
                left + i,
                top + j,
            ) == (0u8, 0u8, 0u8, 255u8)
        }),
{
}

/// A frame without a pointer image in it is scaled down as it is; with one, only
/// the square of 48 pixels around the pointer may look different.
pub proof fn only_the_pointer_is_scrubbed(
    s: RgbaBuffer,
    capture: RgbaBuffer,
    bake: Option<(i32, i32)>,
    x: int,
    y: int,
)
    requires
        is_scrubbed(s, capture, bake),
        capture.has(x, y),
        bake matches Some((cx, cy)) ==> x < cx - 24 || x >= cx + 24 || y < cy - 24 || y >= cy + 24,
    ensures
        s.at(x, y) == capture.at(x, y),
{
    assert(s.has(x, y));
}

/// The frame of the minimap cuts it out: a pixel stays where the frame holds all
/// of it and the outline touches none of it, else it is clear.
pub proof fn mask_cuts_the_frame_out(inside: u8, stroke: u8, p: Quad)
    ensures
        inside == 255 && stroke == 0 ==> masked(inside, stroke, p) == p,
        inside != 255 || stroke != 0 ==> masked(inside, stroke, p) == (0u8, 0u8, 0u8, 0u8),
{
}

/// The outline is as opaque as it covers a pixel, and clear where it does not. It
/// has the colour of the moment: one for all, one for each pixel, or light dashes
/// with dark gaps.
pub proof fn outline_has_its_colors(paint: OutlinePaint, i: int, stroke: u8)
    ensures
        paint.px(i, stroke).3 == stroke,
        stroke > 0 ==> {
            let q = paint.px(i, stroke);
            match paint {
                OutlinePaint::Gradient(c) => (q.0, q.1, q.2) == (c[0], c[1], c[2]),
                OutlinePaint::AngularGradient(all) => (q.0, q.1, q.2) == (
                    all@[i][0],
                    all@[i][1],
                    all@[i][2],
                ),
                OutlinePaint::MarchingAnts(on) => if on@[i] {
                    (q.0, q.1, q.2) == (192u8, 192u8, 192u8)
                } else {
                    (q.0, q.1, q.2) == (48u8, 48u8, 48u8)
                },
            }
        },
{
}

/// The magnified region is marked at its four corners: seven pixels along each
/// side from every corner, or half the side where that is less. The brackets are
/// orange and lie under the dot of the pointer. What lies between the corners,
/// inside or outside the region is not marked.
pub proof fn brackets_mark_the_corners(
    plan: MinimapPlan,
    x0: i32,
    y0: i32,
    x1: i32,
    y1: i32,
    x: int,
    y: int,
    p: Quad,
)
    requires
        plan.region == Some((x0, y0, x1, y1)),
        x1 - x0 >= 12,
        y1 - y0 >= 12,
        plan.pointer.0 < x - 4 || x + 4 < plan.pointer.0 || plan.pointer.1 < y - 3 || y + 3
            < plan.pointer.1,
    ensures
        ({
            let half_w = (x1 - x0) / 2;
            let half_h = (y1 - y0) / 2;
            let shorter = if half_w < half_h {
                half_w
            } else {
                half_h
            };
            let t = if shorter < 7 {
                shorter
            } else {
                7
            };
            let from_side = if x - x0 < x1 - 1 - x {
                x - x0
            } else {
                x1 - 1 - x
            };
            let from_end = if y - y0 < y1 - 1 - y {
                y - y0
            } else {
                y1 - 1 - y
            };
            marked(plan, x, y, p) == if (from_end == 0 && 0 <= from_side < t) || (from_side == 0 && 0
                <= from_end < t) {
                (255u8, 200u8, 70u8, 255u8)
            } else {
                p
            }
        }),
{
}

/// A region less than twelve pixels wide or high has no brackets.
pub proof fn small_regions_have_no_brackets(
    plan: MinimapPlan,
    x0: i32,
    y0: i32,
    x1: i32,
    y1: i32,
    x: int,
    y: int,
    p: Quad,
)
    requires
        plan.region == Some((x0, y0, x1, y1)),
        x0 < x1,
        y0 < y1,
        x1 - x0 < 12 || y1 - y0 < 12,
        plan.pointer.0 < x - 4 || x + 4 < plan.pointer.0 || plan.pointer.1 < y - 3 || y + 3
            < plan.pointer.1,
    ensures
        marked(plan, x, y, p) == p,
{
}

/// The dot of the pointer is a red disc with a black rim around the pointer's own
/// pixel: nine pixels wide and seven high with its rim. Beyond it the minimap
/// shows.
pub proof fn dot_marks_the_pointer(plan: MinimapPlan, i: int, j: int, p: Quad)
    requires
        plan.region is None,
    ensures
        ({
            let shown = marked(plan, plan.pointer.0 + i, plan.pointer.1 + j, p);
            let red = (255u8, 60u8, 60u8, 255u8);
            let black = (0u8, 0u8, 0u8, 255u8);
            &&& shown == marked(plan, plan.pointer.0 - i, plan.pointer.1 + j, p)
            &&& shown == marked(plan, plan.pointer.0 + i, plan.pointer.1 - j, p)
            &&& -2 <= i <= 2 && -1 <= j <= 1 || -1 <= i <= 1 && -2 <= j <= 2 ==> shown == red
            &&& (i == 3 || i == 4) && -1 <= j <= 1 ==> shown == black
            &&& (i == 2 || i == 3) && j == 2 ==> shown == black
            &&& -2 <= i <= 2 && j == 3 ==> shown == black
            &&& i > 4 || j > 3 || (i > 3 && j > 1) || (i > 2 && j > 2) ==> shown == p
        }),
{
}

/// The minimap is 22 percent of the viewport wide, to the nearest pixel, from 140
/// to 360 pixels, and has the shape of the captured frame, to the nearest pixel,
/// unless that would make it less than 40 pixels high.
pub proof fn minimap_has_the_shape_of_the_frame(viewport_w: int, capture: (int, int))
    requires
        0 <= viewport_w,
        0 < capture.0,
        0 <= capture.1,
    ensures
        ({
            let (w, h) = minimap_size(viewport_w, capture);
            &&& 140 < w < 360 ==> -50 <= 22 * viewport_w - 100 * w <= 50
            &&& w == 140 ==> 22 * viewport_w < 14050
            &&& w == 360 ==> 22 * viewport_w >= 35950
            &&& 140 <= w <= 360
            &&& h > 40 ==> -capture.0 <= 2 * (w * capture.1) - 2 * (h * capture.0) <= capture.0
            &&& h == 40 ==> 2 * (w * capture.1) < 81 * capture.0
            &&& 40 <= h
        }),
{
    let (w, h) = minimap_size(viewport_w, capture);
    let n = 2 * (w * capture.1) + capture.0;
    let d = 2 * capture.0;
    vstd::arithmetic::div_mod::lemma_fundamental_div_mod(n, d);
    vstd::arithmetic::div_mod::lemma_mod_bound(n, d);
    let q = n / d;
    assert(d * q == 2 * (q * capture.0)) by (nonlinear_arith)
        requires
            d == 2 * capture.0,
    ;
    if q <= 40 {
        assert(d * q <= 80 * capture.0) by (nonlinear_arith)
            requires
                q <= 40,
                d == 2 * capture.0,
                0 < capture.0,
        ;
    }
}

/// The region that is marked is the magnified one, but at least a pixel wide and
/// high.
pub proof fn marked_region_has_pixels(region: (i32, i32, i32, i32))
    ensures
        ({
            let (x0, y0, x1, y1) = marked_region(region);
            &&& region.0 < region.2 ==> x0 == region.0 && x1 == region.2
            &&& region.1 < region.3 ==> y0 == region.1 && y1 == region.3
            &&& region.2 <= region.0 ==> x0 == region.2 - 1 && x1 == region.0 + 1
            &&& region.3 <= region.1 ==> y0 == region.3 - 1 && y1 == region.1 + 1
        }),
{
}

/// The legs of the brackets are seven pixels long, but no longer than half of the
/// region.
pub proof fn bracket_legs_are_seven_pixels(w: int, h: int)
    requires
        12 <= w,
        12 <= h,
    ensures
        14 <= w && 14 <= h ==> tick_of(w, h) == 7,
        w < 14 || h < 14 ==> tick_of(w, h) == 6,
{
}

/// The minimap shows the screen: with no pointer image in the frame, a pixel of
/// the overview that the frame of the minimap holds, that no marker is near and
/// that stands for a part of the screen of one colour has that colour, dimmed to
/// 0.45.
pub proof fn minimap_shows_the_screen(
    shown: RgbaBuffer,
    m: RgbaBuffer,
    b: RgbaBuffer,
    capture: RgbaBuffer,
    plan: MinimapPlan,
    shape: OutlineShape,
    i: int,
    j: int,
    color: (u8, u8, u8),
)
    requires
        plan.wf(),
        2 * plan.inset < plan.buf_w,
        2 * plan.inset < plan.buf_h,
        capture.wf(),
        0 < capture.width,
        0 < capture.height,
        is_base(b, capture, plan, None),
        is_masked(m, b, shape),
        is_marked(shown, m, plan),
        plan.region is None,
        0 <= i < plan.thumb_w,
        0 <= j < plan.thumb_h,
        shape.inside@[(plan.thumb_y() + j) * plan.buf_w + plan.thumb_x() + i] == 255,
        shape.stroke@[(plan.thumb_y() + j) * plan.buf_w + plan.thumb_x() + i] == 0,
        plan.thumb_x() + i < plan.pointer.0 - 4 || plan.thumb_x() + i > plan.pointer.0 + 4,
        forall|u: int, v: int|
            i * capture.width / (plan.thumb_w as int) <= u < ((i + 1) * capture.width + plan.thumb_w
                - 1) / (plan.thumb_w as int) && j * capture.height / (plan.thumb_h as int) <= v < ((j
                + 1) * capture.height + plan.thumb_h - 1) / (plan.thumb_h as int) && capture.has(
                u,
                v,
            ) ==> {
                let p = #[trigger] capture.at(u, v);
                (p.0, p.1, p.2) == color
            },
    ensures
        shown.width == plan.buf_w,
        shown.height == plan.buf_h,
        shown.at(plan.thumb_x() + i, plan.thumb_y() + j) == (
            (color.0 * 15099494 / 33554432) as u8,
            (color.1 * 15099494 / 33554432) as u8,
            (color.2 * 15099494 / 33554432) as u8,
            255u8,
        ),
{
    let x = plan.thumb_x() + i;
    let y = plan.thumb_y() + j;
    let s = choose|s: RgbaBuffer|
        #[trigger] is_scrubbed(s, capture, None) && forall|x: int, y: int|
            b.has(x, y) ==> #[trigger] b.at(x, y) == base_px(s, plan, x, y);
    overview_lies_in_the_middle(s, plan, i, j);
    assert forall|u: int, v: int|
        i * s.width / (plan.thumb_w as int) <= u < ((i + 1) * s.width + plan.thumb_w - 1) / (
        plan.thumb_w as int) && j * s.height / (plan.thumb_h as int) <= v < ((j + 1) * s.height
            + plan.thumb_h - 1) / (plan.thumb_h as int) && s.has(u, v) implies {
        let p = #[trigger] s.at(u, v);
        (p.0, p.1, p.2) == color
    } by {
        assert(capture.has(u, v));
        only_the_pointer_is_scrubbed(s, capture, None, u, v);
        let p = capture.at(u, v);
    }
    overview_keeps_even_colors(
        s,
        plan.thumb_w as int,
        plan.thumb_h as int,
        15099494,
        i,
        j,
        color,
    );
    assert(b.has(x, y));
    assert(m.has(x, y));
    assert(shown.has(x, y));
}

} // verus!
