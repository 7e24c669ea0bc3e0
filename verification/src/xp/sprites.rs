//! The pictures that are laid over the magnified frame: the pointer, the
//! screenshot frame, strokes and the minimap.

use crate::pixels;
use crate::pixels::Quad;
use vstd::prelude::*;

verus! {

/// An image: its bytes, four a pixel, its width and its height.
pub type Picture = (Vec<u8>, u32, u32);

/// Whether a picture has a size and its pixels are given by a function.
pub open spec fn shows(r: Picture, w: u32, h: u32, f: spec_fn(int, int) -> Quad) -> bool {
    &&& r.1 == w
    &&& r.2 == h
    &&& r.0@.len() == w * h * 4
    &&& forall|x: int, y: int|
        pixels::inside(w as int, h as int, x, y) ==> #[trigger] pixels::px_at(
            r.0@,
            w as int,
            x,
            y,
        ) == f(x, y)
}

/// Largest side of a pointer: the bytes of its picture can be counted in 32
/// bits.
pub const MAX_POINTER: u32 = 0x7FFF;

/// How far a pixel is from the middle of a line of pixels, in half pixels.
pub open spec fn off_middle(size: int, x: int) -> int {
    if 2 * x + 1 >= size {
        2 * x + 1 - size
    } else {
        size - (2 * x + 1)
    }
}

/// Whether a distance lies within an arm: a twenty-fifth of the size, or a
/// pixel if that is more.
pub open spec fn in_arm(size: int, d: int) -> bool {
    if size > 25 {
        25 * d < 2 * size
    } else {
        d < 2
    }
}

/// Whether a distance lies within an arm and its outline of a pixel.
pub open spec fn in_outline(size: int, d: int) -> bool {
    if size > 25 {
        25 * d < 2 * size + 50
    } else {
        d < 4
    }
}

/// Whether a distance lies beyond the gap in the middle: two twenty-fifths of
/// the size.
pub open spec fn beyond_gap(size: int, d: int) -> bool {
    25 * d >= 4 * size
}

/// Whether a distance lies beyond the gap or less than a pixel within.
pub open spec fn near_gap(size: int, d: int) -> bool {
    25 * d >= 4 * size - 50
}

/// Whether a pixel belongs to the cross: to one of its arms or to the dot in
/// the middle.
pub open spec fn on_cross(size: int, x: int, y: int) -> bool {
    let dx = off_middle(size, x);
    let dy = off_middle(size, y);
    ||| in_arm(size, dy) && beyond_gap(size, dx)
    ||| in_arm(size, dx) && beyond_gap(size, dy)
    ||| 625 * (dx * dx + dy * dy) < 8 * (size * size)
}

/// Whether a pixel belongs to the cross or its outline.
pub open spec fn around_cross(size: int, x: int, y: int) -> bool {
    let dx = off_middle(size, x);
    let dy = off_middle(size, y);
    ||| in_outline(size, dy) && near_gap(size, dx)
    ||| in_outline(size, dx) && near_gap(size, dy)
}

/// A pixel of the pointer: white, with a dark outline.
pub open spec fn crosshair_px(size: int, outlined: bool, x: int, y: int) -> Quad {
    if on_cross(size, x, y) {
        (255, 255, 255, 255)
    } else if outlined && around_cross(size, x, y) {
        (0, 0, 0, 200)
    } else {
        (0, 0, 0, 0)
    }
}

/// The pointer looks the same from all four sides: mirrored, and with its axes
/// exchanged.
pub proof fn crosshair_is_symmetric(size: int, outlined: bool, x: int, y: int)
    ensures
        crosshair_px(size, outlined, x, y) == crosshair_px(size, outlined, y, x),
        crosshair_px(size, outlined, x, y) == crosshair_px(size, outlined, size - 1 - x, y),
        crosshair_px(size, outlined, x, y) == crosshair_px(size, outlined, x, size - 1 - y),
{
    assert(off_middle(size, size - 1 - x) == off_middle(size, x));
    assert(off_middle(size, size - 1 - y) == off_middle(size, y));
}

/// Without an outline the pointer is the same but for the outline's pixels,
/// which are clear.
pub proof fn outline_is_all_that_differs(size: int, x: int, y: int)
    ensures
        crosshair_px(size, false, x, y) == (if crosshair_px(size, true, x, y) == (
            0u8,
            0u8,
            0u8,
            200u8,
        ) {
            (0u8, 0u8, 0u8, 0u8)
        } else {
            crosshair_px(size, true, x, y)
        }),
{
}

fn distance(size: u32, x: u32) -> (r: u32)
    requires
        size <= MAX_POINTER,
        x < size,
    ensures
        r == off_middle(size as int, x as int),
        r <= size,
{
    let middle: u32 = 2 * x + 1;
    if middle >= size {
        middle - size
    } else {
        size - middle
    }
}

fn cross_pixel(size: u32, outlined: bool, x: u32, y: u32) -> (r: [u8; 4])
    requires
        size <= MAX_POINTER,
        x < size,
        y < size,
    ensures
        pixels::quad(r) == crosshair_px(size as int, outlined, x as int, y as int),
{
    let dx: u64 = distance(size, x) as u64;
    let dy: u64 = distance(size, y) as u64;
    let size: u64 = size as u64;
    assert(dx * dx <= 0x7FFF * 0x7FFF && dy * dy <= 0x7FFF * 0x7FFF && size * size <= 0x7FFF
        * 0x7FFF) by (nonlinear_arith)
        requires
            dx <= 0x7FFF,
            dy <= 0x7FFF,
            size <= 0x7FFF,
    ;
    let big: bool = size > 25;
    let arm_x: bool = if big { 25 * dx < 2 * size } else { dx < 2 };
    let arm_y: bool = if big { 25 * dy < 2 * size } else { dy < 2 };
    let out_x: bool = if big { 25 * dx < 2 * size + 50 } else { dx < 4 };
    let out_y: bool = if big { 25 * dy < 2 * size + 50 } else { dy < 4 };
    let dot: bool = 625 * (dx * dx + dy * dy) < 8 * (size * size);
    if (arm_y && 25 * dx >= 4 * size) || (arm_x && 25 * dy >= 4 * size) || dot {
        [255, 255, 255, 255]
    } else if outlined && ((out_y && 25 * dx + 50 >= 4 * size) || (out_x && 25 * dy + 50 >= 4
        * size)) {
        [0, 0, 0, 200]
    } else {
        [0, 0, 0, 0]
    }
}

fn build_cross(size: u32, outlined: bool) -> (r: Picture)
    requires
        size <= MAX_POINTER,
    ensures
        shows(r, size, size, |x: int, y: int| crosshair_px(size as int, outlined, x, y)),
{
    assert(size * size <= 0x7FFF * 0x7FFF) by (nonlinear_arith)
        requires
            size <= 0x7FFF,
    ;
    let n: usize = size as usize;
    let mut rgba: Vec<u8> = vec![0u8; (size * size * 4) as usize];
    let ghost blank = rgba@;
    let mut y: u32 = 0;
    while y < size
        invariant
            y <= size <= MAX_POINTER,
            n == size,
            rgba@.len() == n * n * 4,
            pixels::painted(
                blank,
                rgba@,
                n as int,
                n as int,
                |qx: int, qy: int, p: Quad|
                    if qy < y {
                        crosshair_px(size as int, outlined, qx, qy)
                    } else {
                        p
                    },
            ),
        decreases size - y,
    {
        let mut x: u32 = 0;
        while x < size
            invariant
                y < size <= MAX_POINTER,
                x <= size,
                n == size,
                rgba@.len() == n * n * 4,
                pixels::painted(
                    blank,
                    rgba@,
                    n as int,
                    n as int,
                    |qx: int, qy: int, p: Quad|
                        if qy < y || (qy == y && qx < x) {
                            crosshair_px(size as int, outlined, qx, qy)
                        } else {
                            p
                        },
                ),
            decreases size - x,
        {
            let px: [u8; 4] = cross_pixel(size, outlined, x, y);
            pixels::put_px(rgba.as_mut_slice(), n, n, x as usize, y as usize, px);
            x += 1;
        }
        y += 1;
    }
    (rgba, size, size)
}

/// The magnified pointer: a white cross with a dark outline.
pub fn build_crosshair_sprite(size: u32) -> (r: Picture)
    requires
        size <= MAX_POINTER,
    ensures
        shows(r, size, size, |x: int, y: int| crosshair_px(size as int, true, x, y)),
{
    build_cross(size, true)
}

/// The pointer of the annotation mode: a white cross that inverts what is under
/// it.
pub fn build_annotation_cursor(size: u32) -> (r: Picture)
    requires
        size <= MAX_POINTER,
    ensures
        shows(r, size, size, |x: int, y: int| crosshair_px(size as int, false, x, y)),
{
    build_cross(size, false)
}

/// Width of the border in screenshot mode.
pub const SHOT_BORDER: u32 = 3;

/// Whether a pixel lies on the border of a `w` by `h` screen.
pub open spec fn on_shot_border(w: int, h: int, x: int, y: int) -> bool {
    x < SHOT_BORDER || x >= w - SHOT_BORDER || y < SHOT_BORDER || y >= h - SHOT_BORDER
}

/// A pixel of the overlay of the screenshot mode: a dark scrim with a bright
/// border. A pulse of 1 lights the border up.
pub open spec fn shot_px(w: int, h: int, pulse: u8, x: int, y: int) -> Quad {
    if on_shot_border(w, h, x, y) {
        ((50 * pulse) as u8, (200 * pulse) as u8, 255, 220)
    } else {
        (0, 0, 0, 120)
    }
}

/// The overlay of the screenshot mode.
pub fn build_screenshot_overlay(w: u32, h: u32, pulse: u8) -> (r: Picture)
    requires
        w * h * 4 <= u32::MAX,
        pulse <= 1,
    ensures
        shows(r, w, h, |x: int, y: int| shot_px(w as int, h as int, pulse, x, y)),
{
    assert(0 <= w * h);
    let count: u32 = w * h;
    let wide: usize = w as usize;
    let high: usize = h as usize;
    let mut rgba: Vec<u8> = vec![0u8; (count * 4) as usize];
    let ghost blank = rgba@;
    let border: [u8; 4] = [50 * pulse, 200 * pulse, 255, 220];
    let mut y: u32 = 0;
    while y < h
        invariant
            y <= h,
            wide == w,
            high == h,
            pulse <= 1,
            pixels::quad(border) == ((50 * pulse) as u8, (200 * pulse) as u8, 255u8, 220u8),
            rgba@.len() == wide * high * 4,
            pixels::painted(
                blank,
                rgba@,
                wide as int,
                high as int,
                |qx: int, qy: int, p: Quad|
                    if qy < y {
                        shot_px(w as int, h as int, pulse, qx, qy)
                    } else {
                        p
                    },
            ),
        decreases h - y,
    {
        let mut x: u32 = 0;
        while x < w
            invariant
                y < h,
                x <= w,
                wide == w,
                high == h,
                pixels::quad(border) == ((50 * pulse) as u8, (200 * pulse) as u8, 255u8, 220u8),
                rgba@.len() == wide * high * 4,
                pixels::painted(
                    blank,
                    rgba@,
                    wide as int,
                    high as int,
                    |qx: int, qy: int, p: Quad|
                        if qy < y || (qy == y && qx < x) {
                            shot_px(w as int, h as int, pulse, qx, qy)
                        } else {
                            p
                        },
                ),
            decreases w - x,
        {
            let on_border: bool = x < SHOT_BORDER || x >= w - SHOT_BORDER || y < SHOT_BORDER || y
                >= h - SHOT_BORDER;
            let px: [u8; 4] = if on_border {
                border
            } else {
                [0, 0, 0, 120]
            };
            pixels::put_px(rgba.as_mut_slice(), wide, high, x as usize, y as usize, px);
            x += 1;
        }
        y += 1;
    }
    (rgba, w, h)
}

/// Whether a pixel lies within a disc around a point. No pixel lies within one
/// of a negative radius.
pub open spec fn in_disc(center: (i32, i32), radius: int, x: int, y: int) -> bool {
    &&& 0 <= radius
    &&& (x - center.0) * (x - center.0) + (y - center.1) * (y - center.1) <= radius * radius
}

/// Whether a pixel lies within one of the first `n` discs.
pub open spec fn in_discs(points: Seq<(i32, i32)>, n: int, radius: int, x: int, y: int) -> bool {
    exists|i: int| 0 <= i < n && in_disc(#[trigger] points[i], radius, x, y)
}

/// The colour of a stroke.
pub open spec fn stroke_color() -> Quad {
    (255, 80, 80, 200)
}

fn stamp(data: &mut [u8], w: usize, h: usize, center: (i32, i32), radius: i32)
    requires
        w * h * 4 <= old(data)@.len(),
        w <= i32::MAX,
        h <= i32::MAX,
    ensures
        pixels::painted(
            old(data)@,
            final(data)@,
            w as int,
            h as int,
            |x: int, y: int, p: Quad|
                if in_disc(center, radius as int, x, y) {
                    stroke_color()
                } else {
                    p
                },
        ),
{
    let ghost before = data@;
    proof {
        lemma_disc_extent(center, radius as int);
    }
    let r: i64 = radius as i64;
    let (cx, cy): (i64, i64) = (center.0 as i64, center.1 as i64);
    // The square around the disc, on the canvas.
    let left: i64 = if cx - r < 0 { 0 } else { cx - r };
    let top: i64 = if cy - r < 0 { 0 } else { cy - r };
    let right: i64 = if cx + r >= w as i64 { w as i64 } else { cx + r + 1 };
    let bottom: i64 = if cy + r >= h as i64 { h as i64 } else { cy + r + 1 };
    let mut y: i64 = top;
    while y < bottom && r >= 0
        invariant
            r == radius,
            cx == center.0,
            cy == center.1,
            0 <= top <= y,
            y <= bottom || y == top,
            bottom <= h,
            cy - r <= top,
            0 <= left,
            cx - r <= left <= 0x1_0000_0000,
            right <= w,
            left == 0 || left == cx - r,
            top == 0 || top == cy - r,
            right == w || right == cx + r + 1,
            bottom == h || bottom == cy + r + 1,
            forall|x: int, y: int| #[trigger]
                in_disc(center, radius as int, x, y) ==> -radius <= x - center.0 <= radius
                    && -radius <= y - center.1 <= radius,
            w * h * 4 <= data@.len(),
            w <= i32::MAX,
            h <= i32::MAX,
            pixels::painted(
                before,
                data@,
                w as int,
                h as int,
                |qx: int, qy: int, p: Quad|
                    if qy < y && in_disc(center, radius as int, qx, qy) {
                        stroke_color()
                    } else {
                        p
                    },
            ),
        decreases bottom - y,
    {
        let mut x: i64 = left;
        while x < right
            invariant
                r == radius,
                0 <= r,
                cx == center.0,
                cy == center.1,
                0 <= y < h,
                0 <= left <= x,
                x <= right || x == left,
                right <= w,
                left == 0 || left == cx - r,
                right == w || right == cx + r + 1,
                forall|x: int, y: int| #[trigger]
                    in_disc(center, radius as int, x, y) ==> -radius <= x - center.0 <= radius
                        && -radius <= y - center.1 <= radius,
                w * h * 4 <= data@.len(),
                w <= i32::MAX,
                h <= i32::MAX,
                pixels::painted(
                    before,
                    data@,
                    w as int,
                    h as int,
                    |qx: int, qy: int, p: Quad|
                        if (qy < y || (qy == y && qx < x)) && in_disc(
                            center,
                            radius as int,
                            qx,
                            qy,
                        ) {
                            stroke_color()
                        } else {
                            p
                        },
                ),
            decreases right - x,
        {
            let dx: i128 = (x - cx) as i128;
            let dy: i128 = (y - cy) as i128;
            let wide: i128 = r as i128;
            assert(0 <= dx * dx <= 0x1_0000_0000 * 0x1_0000_0000 && 0 <= dy * dy <= 0x1_0000_0000
                * 0x1_0000_0000 && 0 <= wide * wide <= 0x1_0000_0000 * 0x1_0000_0000)
                by (nonlinear_arith)
                requires
                    -0x1_0000_0000 <= dx <= 0x1_0000_0000,
                    -0x1_0000_0000 <= dy <= 0x1_0000_0000,
                    0 <= wide <= 0x1_0000_0000,
            ;
            if dx * dx + dy * dy <= wide * wide {
                pixels::put_px(data, w, h, x as usize, y as usize, [255, 80, 80, 200]);
            }
            x += 1;
        }
        y += 1;
    }
}

proof fn lemma_disc_extent(center: (i32, i32), radius: int)
    ensures
        forall|x: int, y: int| #[trigger]
            in_disc(center, radius, x, y) ==> -radius <= x - center.0 <= radius && -radius <= y
                - center.1 <= radius,
{
    assert forall|x: int, y: int| #[trigger] in_disc(center, radius, x, y) implies -radius <= x
        - center.0 <= radius && -radius <= y - center.1 <= radius by {
        let dx = x - center.0;
        let dy = y - center.1;
        assert(-radius <= dx <= radius && -radius <= dy <= radius) by (nonlinear_arith)
            requires
                dx * dx + dy * dy <= radius * radius,
                0 <= radius,
        ;
    }
}

/// Draws a stroke onto the annotation overlay: a disc at each of the points
/// that it goes through.
pub fn draw_stroke_line(overlay: &mut Picture, points: &Vec<(i32, i32)>, radius: i32)
    requires
        old(overlay).0@.len() == old(overlay).1 * old(overlay).2 * 4,
        old(overlay).1 <= i32::MAX,
        old(overlay).2 <= i32::MAX,
    ensures
        final(overlay).1 == old(overlay).1,
        final(overlay).2 == old(overlay).2,
        pixels::painted(
            old(overlay).0@,
            final(overlay).0@,
            old(overlay).1 as int,
            old(overlay).2 as int,
            |x: int, y: int, p: Quad|
                if in_discs(points@, points@.len() as int, radius as int, x, y) {
                    stroke_color()
                } else {
                    p
                },
        ),
{
    let w: usize = overlay.1 as usize;
    let h: usize = overlay.2 as usize;
    let ghost before = overlay.0@;
    let mut i: usize = 0;
    while i < points.len()
        invariant
            i <= points@.len(),
            w == overlay.1,
            h == overlay.2,
            overlay.1 == old(overlay).1,
            overlay.2 == old(overlay).2,
            w <= i32::MAX,
            h <= i32::MAX,
            overlay.0@.len() == w * h * 4,
            pixels::painted(
                before,
                overlay.0@,
                w as int,
                h as int,
                |x: int, y: int, p: Quad|
                    if in_discs(points@, i as int, radius as int, x, y) {
                        stroke_color()
                    } else {
                        p
                    },
            ),
        decreases points.len() - i,
    {
        let center: (i32, i32) = points[i];
        stamp(overlay.0.as_mut_slice(), w, h, center, radius);
        i += 1;
        proof {
            assert forall|x: int, y: int|
                #![trigger in_discs(points@, i as int, radius as int, x, y)]
                in_discs(points@, i as int, radius as int, x, y) == (in_discs(
                    points@,
                    i - 1,
                    radius as int,
                    x,
                    y,
                ) || in_disc(center, radius as int, x, y)) by {
                if in_disc(center, radius as int, x, y) {
                    assert(in_disc(points@[i - 1], radius as int, x, y));
                }
                if in_discs(points@, i as int, radius as int, x, y) {
                    let k = choose|k: int|
                        0 <= k < i && in_disc(#[trigger] points@[k], radius as int, x, y);
                    assert(in_disc(points@[k], radius as int, x, y));
                }
                if in_discs(points@, i - 1, radius as int, x, y) {
                    let k = choose|k: int|
                        0 <= k < i - 1 && in_disc(#[trigger] points@[k], radius as int, x, y);
                    assert(in_disc(points@[k], radius as int, x, y));
                }
            }
        }
    }
}

/// Width of the minimap.
pub const MINIMAP_WIDTH: u32 = 200;

/// Whether a pixel lies on the rim of a rectangle `(x0, y0, x1, y1)`.
pub open spec fn on_rim(view: (i32, i32, i32, i32), x: int, y: int) -> bool {
    &&& view.0 <= x < view.2
    &&& view.1 <= y < view.3
    &&& x < view.0 + 2 || x >= view.2 - 2 || y < view.1 + 2 || y >= view.3 - 2
}

/// A pixel of the minimap without the mark: a third of the brightness of the
/// captured pixel that it stands for, or nothing where there is none.
pub open spec fn thumb_px(
    frame: Seq<u8>,
    frame_w: int,
    cols: Seq<u32>,
    rows: Seq<u32>,
    x: int,
    y: int,
) -> Quad {
    let i = (rows[y] * frame_w + cols[x]) * 4;
    if i + 3 < frame.len() {
        (frame[i] / 3, frame[i + 1] / 3, frame[i + 2] / 3, 200)
    } else {
        (0, 0, 0, 0)
    }
}

/// A pixel of the minimap.
pub open spec fn minimap_px(
    frame: Seq<u8>,
    frame_w: int,
    cols: Seq<u32>,
    rows: Seq<u32>,
    view: (i32, i32, i32, i32),
    x: int,
    y: int,
) -> Quad {
    if on_rim(view, x, y) {
        (255, 255, 255, 255)
    } else {
        thumb_px(frame, frame_w, cols, rows, x, y)
    }
}

fn minimap_pixel(
    frame: &[u8],
    frame_w: u32,
    col: u32,
    row: u32,
    view: (i32, i32, i32, i32),
    x: u32,
    y: u32,
) -> (r: [u8; 4])
    requires
        x < 200,
        y <= i32::MAX,
    ensures
        pixels::quad(r) == minimap_px(
            frame@,
            frame_w as int,
            Seq::new(200, |i: int| col),
            Seq::new((y + 1) as nat, |i: int| row),
            view,
            x as int,
            y as int,
        ),
{
    let (mx, my): (i64, i64) = (x as i64, y as i64);
    let (x0, y0, x1, y1): (i64, i64, i64, i64) = (
        view.0 as i64,
        view.1 as i64,
        view.2 as i64,
        view.3 as i64,
    );
    if mx >= x0 && mx < x1 && my >= y0 && my < y1 && (mx < x0 + 2 || mx >= x1 - 2 || my < y0 + 2
        || my >= y1 - 2) {
        return [255, 255, 255, 255];
    }
    assert(0 <= row * frame_w <= 0xFFFF_FFFF * 0xFFFF_FFFF) by (nonlinear_arith)
        requires
            row <= 0xFFFF_FFFF,
            frame_w <= 0xFFFF_FFFF,
    ;
    let wide: u128 = (row as u128 * frame_w as u128 + col as u128) * 4;
    if wide + 3 < frame.len() as u128 {
        assert(frame.len() == frame@.len());
        let i: usize = wide as usize;
        [frame[i] / 3, frame[i + 1] / 3, frame[i + 2] / 3, 200]
    } else {
        [0, 0, 0, 0]
    }
}

/// The minimap: the captured frame, small and dark, with the view marked on it.
/// Pixel `(x, y)` stands for column `cols[x]`, row `rows[y]` of the frame.
pub fn build_minimap(
    frame: &[u8],
    frame_w: u32,
    cols: &Vec<u32>,
    rows: &Vec<u32>,
    view: (i32, i32, i32, i32),
) -> (r: Picture)
    requires
        cols@.len() == MINIMAP_WIDTH,
        rows@.len() * 800 <= u32::MAX,
    ensures
        shows(
            r,
            MINIMAP_WIDTH,
            rows@.len() as u32,
            |x: int, y: int| minimap_px(frame@, frame_w as int, cols@, rows@, view, x, y),
        ),
{
    let h: usize = rows.len();
    let mut rgba: Vec<u8> = vec![0u8; 200 * h * 4];
    let ghost blank = rgba@;
    let mut y: usize = 0;
    while y < h
        invariant
            y <= h,
            h == rows@.len(),
            h * 800 <= u32::MAX,
            cols@.len() == 200,
            rgba@.len() == 200 * h * 4,
            pixels::painted(
                blank,
                rgba@,
                200,
                h as int,
                |qx: int, qy: int, p: Quad|
                    if qy < y {
                        minimap_px(frame@, frame_w as int, cols@, rows@, view, qx, qy)
                    } else {
                        p
                    },
            ),
        decreases h - y,
    {
        let mut x: usize = 0;
        while x < 200
            invariant
                y < h,
                x <= 200,
                h == rows@.len(),
                h * 800 <= u32::MAX,
                cols@.len() == 200,
                rgba@.len() == 200 * h * 4,
                pixels::painted(
                    blank,
                    rgba@,
                    200,
                    h as int,
                    |qx: int, qy: int, p: Quad|
                        if qy < y || (qy == y && qx < x) {
                            minimap_px(frame@, frame_w as int, cols@, rows@, view, qx, qy)
                        } else {
                            p
                        },
                ),
            decreases 200 - x,
        {
            let px: [u8; 4] = minimap_pixel(
                frame,
                frame_w,
                cols[x],
                rows[y],
                view,
                x as u32,
                y as u32,
            );
            pixels::put_px(rgba.as_mut_slice(), 200, h, x, y, px);
            x += 1;
        }
        y += 1;
    }
    (rgba, 200, h as u32)
}

/// The pointer is a cross of four arms with a gap and a dot in the middle: white
/// on the arms and on the dot, clear in the gap and in the corners. Distances
/// from the middle are counted in half pixels.
pub proof fn pointer_is_a_cross_with_a_dot(size: int, outlined: bool, x: int, y: int)
    requires
        26 <= size,
        0 <= x < size,
        0 <= y < size,
    ensures
        ({
            let p = crosshair_px(size, outlined, x, y);
            let dx = if 2 * x + 1 >= size {
                2 * x + 1 - size
            } else {
                size - 2 * x - 1
            };
            let dy = if 2 * y + 1 >= size {
                2 * y + 1 - size
            } else {
                size - 2 * y - 1
            };
            let white = (255u8, 255u8, 255u8, 255u8);
            let arm = 25 * dy < 2 * size && 25 * dx >= 4 * size || 25 * dx < 2 * size && 25 * dy >= 4
                * size;
            let dot = 625 * (dx * dx + dy * dy) < 8 * (size * size);
            let rim = 25 * dy < 2 * size + 50 && 25 * dx >= 4 * size - 50 || 25 * dx < 2 * size + 50
                && 25 * dy >= 4 * size - 50;
            &&& arm || dot ==> p == white
            &&& !(arm || dot) && outlined && rim ==> p == (0u8, 0u8, 0u8, 200u8)
            &&& !(arm || dot) && !(outlined && rim) ==> p == (0u8, 0u8, 0u8, 0u8)
        }),
{
}

/// The overlay of the screenshot mode has a border of three pixels on every side
/// and is dark within; the pulse lights the border up.
pub proof fn screenshot_border_is_three_pixels(w: int, h: int, pulse: u8, x: int, y: int)
    requires
        0 <= x < w,
        0 <= y < h,
        pulse <= 1,
    ensures
        ({
            let p = shot_px(w, h, pulse, x, y);
            let border = x < 3 || w - 3 <= x || y < 3 || h - 3 <= y;
            &&& border && pulse == 1 ==> p == (50u8, 200u8, 255u8, 220u8)
            &&& border && pulse == 0 ==> p == (0u8, 0u8, 255u8, 220u8)
            &&& !border ==> p == (0u8, 0u8, 0u8, 120u8)
        }),
{
}

/// A stroke covers every pixel within the radius of one of its points, and none
/// that is further from all of them.
pub proof fn strokes_cover_their_points(
    points: Seq<(i32, i32)>,
    radius: int,
    i: int,
    x: int,
    y: int,
)
    requires
        0 <= radius,
        0 <= i < points.len(),
    ensures
        ({
            let dx = x - points[i].0;
            let dy = y - points[i].1;
            dx * dx + dy * dy <= radius * radius ==> in_discs(
                points,
                points.len() as int,
                radius,
                x,
                y,
            )
        }),
        (forall|j: int|
            #![trigger points[j]]
            0 <= j < points.len() ==> (x - points[j].0) * (x - points[j].0) + (y - points[j].1) * (y
                - points[j].1) > radius * radius) ==> !in_discs(
            points,
            points.len() as int,
            radius,
            x,
            y,
        ),
        stroke_color() == (255u8, 80u8, 80u8, 200u8),
{
    let dx = x - points[i].0;
    let dy = y - points[i].1;
    if dx * dx + dy * dy <= radius * radius {
        assert(in_disc(points[i], radius, x, y));
    }
}

/// A pixel of the minimap is a third as bright as the pixel of the frame that it
/// stands for; the view is marked by a white rim of two pixels.
pub proof fn small_map_shows_the_frame(
    frame: Seq<u8>,
    frame_w: int,
    cols: Seq<u32>,
    rows: Seq<u32>,
    view: (i32, i32, i32, i32),
    x: int,
    y: int,
)
    requires
        0 <= frame_w,
        (rows[y] * frame_w + cols[x]) * 4 + 3 < frame.len(),
    ensures
        ({
            let p = minimap_px(frame, frame_w, cols, rows, view, x, y);
            let q = pixels::px_at(frame, frame_w, cols[x] as int, rows[y] as int);
            let within = view.0 <= x < view.2 && view.1 <= y < view.3;
            let inner = view.0 + 2 <= x < view.2 - 2 && view.1 + 2 <= y < view.3 - 2;
            &&& within && !inner ==> p == (255u8, 255u8, 255u8, 255u8)
            &&& !within || inner ==> p.0 == q.0 / 3 && p.1 == q.1 / 3 && p.2 == q.2 / 3 && p.3 == 200
        }),
{
}

/// A small pointer has arms a pixel thick on each side of its middle line, and an
/// outline of a pixel more.
pub proof fn small_pointer_has_thin_arms(size: int, x: int, y: int)
    requires
        1 <= size <= 25,
        0 <= x < size,
        0 <= y < size,
    ensures
        ({
            let dx = if 2 * x + 1 >= size {
                2 * x + 1 - size
            } else {
                size - 2 * x - 1
            };
            let dy = if 2 * y + 1 >= size {
                2 * y + 1 - size
            } else {
                size - 2 * y - 1
            };
            let p = crosshair_px(size, true, x, y);
            let arm = dy < 2 && 25 * dx >= 4 * size || dx < 2 && 25 * dy >= 4 * size;
            let dot = 625 * (dx * dx + dy * dy) < 8 * (size * size);
            let rim = dy < 4 && 25 * dx >= 4 * size - 50 || dx < 4 && 25 * dy >= 4 * size - 50;
            &&& arm || dot ==> p == (255u8, 255u8, 255u8, 255u8)
            &&& !(arm || dot) && rim ==> p == (0u8, 0u8, 0u8, 200u8)
            &&& !(arm || dot) && !rim ==> p == (0u8, 0u8, 0u8, 0u8)
        }),
{
}

/// A picture shows what it is made to show at every pixel, at its size.
pub proof fn pictures_show_what_they_are_made_of(
    r: Picture,
    w: u32,
    h: u32,
    f: spec_fn(int, int) -> Quad,
    x: int,
    y: int,
)
    requires
        shows(r, w, h, f),
        0 <= x < w,
        0 <= y < h,
    ensures
        r.1 == w,
        r.2 == h,
        r.0@.len() == w * h * 4,
        pixels::px_at(r.0@, w as int, x, y) == f(x, y),
{
}

/// Where the frame has no pixel for it, the minimap is clear.
pub proof fn small_map_is_clear_beyond_the_frame(
    frame: Seq<u8>,
    frame_w: int,
    cols: Seq<u32>,
    rows: Seq<u32>,
    x: int,
    y: int,
)
    requires
        (rows[y] * frame_w + cols[x]) * 4 + 3 >= frame.len(),
    ensures
        thumb_px(frame, frame_w, cols, rows, x, y) == (0u8, 0u8, 0u8, 0u8),
{
}

} // verus!
