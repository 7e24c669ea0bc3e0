//! Tightly packed four-byte pixels in a flat byte buffer.
//!
//! A canvas of `w` by `h` pixels holds pixel `(x, y)` in the four bytes that
//! start at `byte_at(w, x, y)`. Every drawing function of the crate says what
//! it does to a canvas through [`painted`]: which colour each pixel ends up
//! with, given the one it had.

use vstd::prelude::*;

verus! {

/// One pixel: its four bytes in memory order.
pub type Quad = (u8, u8, u8, u8);

/// The four bytes of a colour.
pub open spec fn quad(px: [u8; 4]) -> Quad {
    (px[0], px[1], px[2], px[3])
}

/// Where the bytes of pixel `(x, y)` start on a canvas `w` pixels wide.
pub open spec fn byte_at(w: int, x: int, y: int) -> int {
    (y * w + x) * 4
}

/// Whether `(x, y)` is a pixel of a `w` by `h` canvas.
pub open spec fn inside(w: int, h: int, x: int, y: int) -> bool {
    0 <= x < w && 0 <= y < h
}

/// The pixel at `(x, y)` of a canvas `w` pixels wide.
pub open spec fn px_at(d: Seq<u8>, w: int, x: int, y: int) -> Quad {
    (
        d[byte_at(w, x, y)],
        d[byte_at(w, x, y) + 1],
        d[byte_at(w, x, y) + 2],
        d[byte_at(w, x, y) + 3],
    )
}

/// The `i`-th pixel, row by row.
pub open spec fn nth_px(d: Seq<u8>, i: int) -> Quad {
    (d[4 * i], d[4 * i + 1], d[4 * i + 2], d[4 * i + 3])
}

/// `new` is the `w` by `h` canvas `old` with every pixel replaced by what `f`
/// makes of its position and its former colour. Bytes beyond the canvas stay.
pub open spec fn painted(
    old_bytes: Seq<u8>,
    new_bytes: Seq<u8>,
    w: int,
    h: int,
    f: spec_fn(int, int, Quad) -> Quad,
) -> bool {
    &&& new_bytes.len() == old_bytes.len()
    &&& forall|x: int, y: int|
        inside(w, h, x, y) ==> #[trigger] px_at(new_bytes, w, x, y) == f(
            x,
            y,
            px_at(old_bytes, w, x, y),
        )
    &&& forall|i: int| w * h * 4 <= i < old_bytes.len() ==> new_bytes[i] == old_bytes[i]
}

/// The bytes of a pixel of a canvas lie within `w * h * 4`.
pub proof fn lemma_inside(w: int, h: int, x: int, y: int)
    requires
        inside(w, h, x, y),
    ensures
        0 <= y * w,
        0 <= y * w + x < w * h,
        0 <= byte_at(w, x, y),
        byte_at(w, x, y) + 4 <= w * h * 4,
{
    assert(0 <= y * w) by (nonlinear_arith)
        requires
            0 <= y,
            0 <= w,
    ;
    assert(y * w + w <= w * h) by (nonlinear_arith)
        requires
            0 <= y < h,
            0 <= w,
    ;
}

/// Two different pixels share no byte.
pub proof fn lemma_apart(w: int, h: int, x: int, y: int, x2: int, y2: int)
    requires
        inside(w, h, x, y),
        inside(w, h, x2, y2),
        x != x2 || y != y2,
    ensures
        byte_at(w, x, y) + 4 <= byte_at(w, x2, y2) || byte_at(w, x2, y2) + 4 <= byte_at(w, x, y),
{
    if y < y2 {
        assert(y * w + w <= y2 * w) by (nonlinear_arith)
            requires
                y < y2,
                0 <= w,
        ;
    } else if y2 < y {
        assert(y2 * w + w <= y * w) by (nonlinear_arith)
            requires
                y2 < y,
                0 <= w,
        ;
    }
}

/// Writes one pixel.
pub fn put_px(d: &mut [u8], w: usize, h: usize, x: usize, y: usize, px: [u8; 4])
    requires
        inside(w as int, h as int, x as int, y as int),
        w * h * 4 <= old(d)@.len(),
    ensures
        painted(
            old(d)@,
            final(d)@,
            w as int,
            h as int,
            |px_x: int, px_y: int, p: Quad| if px_x == x && px_y == y { quad(px) } else { p },
        ),
{
    proof {
        lemma_inside(w as int, h as int, x as int, y as int);
        assert(d.len() == d@.len());
    }
    let ghost before = d@;
    let i: usize = (y * w + x) * 4;
    d[i] = px[0];
    d[i + 1] = px[1];
    d[i + 2] = px[2];
    d[i + 3] = px[3];
    proof {
        assert forall|x2: int, y2: int| inside(w as int, h as int, x2, y2) implies #[trigger] px_at(
            d@,
            w as int,
            x2,
            y2,
        ) == (if x2 == x && y2 == y { quad(px) } else { px_at(before, w as int, x2, y2) }) by {
            lemma_inside(w as int, h as int, x2, y2);
            if x2 != x || y2 != y {
                lemma_apart(w as int, h as int, x as int, y as int, x2, y2);
            }
        }
    }
}

/// Reads one pixel.
pub fn get_px(d: &[u8], w: usize, h: usize, x: usize, y: usize) -> (px: [u8; 4])
    requires
        inside(w as int, h as int, x as int, y as int),
        w * h * 4 <= d@.len(),
    ensures
        quad(px) == px_at(d@, w as int, x as int, y as int),
{
    proof {
        lemma_inside(w as int, h as int, x as int, y as int);
        assert(d.len() == d@.len());
    }
    let i: usize = (y * w + x) * 4;
    [d[i], d[i + 1], d[i + 2], d[i + 3]]
}

/// Whether `(x, y)` lies in the half-open rectangle `x0..x1` by `y0..y1`.
pub open spec fn in_rect(x: int, y: int, x0: int, x1: int, y0: int, y1: int) -> bool {
    x0 <= x < x1 && y0 <= y < y1
}

/// Fills one solid rectangle, `x0..x1` by `y0..y1`, clipped to the canvas. An
/// empty or inverted range draws nothing.
pub fn fill_px(
    ov: &mut [u8],
    width: i32,
    height: i32,
    x0: i32,
    x1: i32,
    y0: i32,
    y1: i32,
    px: [u8; 4],
)
    requires
        0 <= width,
        0 <= height,
        width * height * 4 <= old(ov)@.len(),
    ensures
        painted(
            old(ov)@,
            final(ov)@,
            width as int,
            height as int,
            |x: int, y: int, p: Quad|
                if in_rect(x, y, x0 as int, x1 as int, y0 as int, y1 as int) {
                    quad(px)
                } else {
                    p
                },
        ),
{
    let w: usize = width as usize;
    let h: usize = height as usize;
    let cx0: usize = if x0 < 0 { 0 } else if x0 > width { w } else { x0 as usize };
    let cx1: usize = if x1 < 0 { 0 } else if x1 > width { w } else { x1 as usize };
    let cy0: usize = if y0 < 0 { 0 } else if y0 > height { h } else { y0 as usize };
    let cy1: usize = if y1 < 0 { 0 } else if y1 > height { h } else { y1 as usize };
    let ghost before = ov@;
    let mut y: usize = cy0;
    while y < cy1
        invariant
            cy0 <= y,
            y <= cy1 || y == cy0,
            cy1 <= h,
            cx1 <= w,
            w * h * 4 <= ov@.len(),
            painted(
                before,
                ov@,
                w as int,
                h as int,
                |px_x: int, px_y: int, p: Quad|
                    if in_rect(px_x, px_y, cx0 as int, cx1 as int, cy0 as int, y as int) {
                        quad(px)
                    } else {
                        p
                    },
            ),
        decreases cy1 - y,
    {
        let mut x: usize = cx0;
        while x < cx1
            invariant
                cy0 <= y < cy1 <= h,
                cx0 <= x,
                x <= cx1 || x == cx0,
                cx1 <= w,
                w * h * 4 <= ov@.len(),
                painted(
                    before,
                    ov@,
                    w as int,
                    h as int,
                    |px_x: int, px_y: int, p: Quad|
                        if in_rect(px_x, px_y, cx0 as int, cx1 as int, cy0 as int, y as int)
                            || in_rect(px_x, px_y, cx0 as int, x as int, y as int, y + 1) {
                            quad(px)
                        } else {
                            p
                        },
                ),
            decreases cx1 - x,
        {
            put_px(ov, w, h, x, y, px);
            x += 1;
        }
        y += 1;
    }
}

fn within_i32(v: i64) -> (r: i32)
    ensures
        i32::MIN <= v <= i32::MAX ==> r == v,
        v > i32::MAX ==> r == i32::MAX,
        v < i32::MIN ==> r == i32::MIN,
{
    if v > i32::MAX as i64 {
        i32::MAX
    } else if v < i32::MIN as i64 {
        i32::MIN
    } else {
        v as i32
    }
}

/// Paints a rectangle as [`fill_px`] does. Its edges may lie anywhere.
pub fn fill_far(
    ov: &mut [u8],
    width: i32,
    height: i32,
    x0: i64,
    x1: i64,
    y0: i64,
    y1: i64,
    px: [u8; 4],
)
    requires
        0 <= width,
        0 <= height,
        width * height * 4 <= old(ov)@.len(),
    ensures
        painted(
            old(ov)@,
            final(ov)@,
            width as int,
            height as int,
            |x: int, y: int, p: Quad|
                if in_rect(x, y, x0 as int, x1 as int, y0 as int, y1 as int) {
                    quad(px)
                } else {
                    p
                },
        ),
{
    let (left, right): (i32, i32) = (within_i32(x0), within_i32(x1));
    let (top, bottom): (i32, i32) = (within_i32(y0), within_i32(y1));
    fill_px(ov, width, height, left, right, top, bottom, px);
}

/// What a canvas pixel becomes when an image is pasted with its top left pixel
/// at `(ox, oy)`: the pixel of the image there, unless that is fully
/// transparent.
pub open spec fn pasted(
    img: Seq<u8>,
    img_w: int,
    img_h: int,
    ox: int,
    oy: int,
    x: int,
    y: int,
    p: Quad,
) -> Quad {
    if inside(img_w, img_h, x - ox, y - oy) && px_at(img, img_w, x - ox, y - oy).3 != 0 {
        px_at(img, img_w, x - ox, y - oy)
    } else {
        p
    }
}

/// Pastes an image onto the canvas, clipped to it. Fully transparent pixels of
/// the image leave the canvas as it is, the others are copied.
pub fn paste_opaque(
    canvas: &mut [u8],
    canvas_w: i32,
    canvas_h: i32,
    img: &[u8],
    img_w: i32,
    img_h: i32,
    ox: i32,
    oy: i32,
)
    requires
        0 <= canvas_w,
        0 <= canvas_h,
        canvas_w * canvas_h * 4 <= old(canvas)@.len(),
        0 <= img_w,
        0 <= img_h,
        img_w * img_h * 4 <= img@.len(),
    ensures
        painted(
            old(canvas)@,
            final(canvas)@,
            canvas_w as int,
            canvas_h as int,
            |x: int, y: int, p: Quad|
                pasted(img@, img_w as int, img_h as int, ox as int, oy as int, x, y, p),
        ),
{
    let w: usize = canvas_w as usize;
    let h: usize = canvas_h as usize;
    let ghost before = canvas@;
    let mut sy: i32 = 0;
    while sy < img_h
        invariant
            0 <= sy <= img_h,
            0 <= img_w,
            w == canvas_w,
            h == canvas_h,
            w * h * 4 <= canvas@.len(),
            img_w * img_h * 4 <= img@.len(),
            painted(
                before,
                canvas@,
                w as int,
                h as int,
                |x: int, y: int, p: Quad|
                    if y - oy < sy {
                        pasted(img@, img_w as int, img_h as int, ox as int, oy as int, x, y, p)
                    } else {
                        p
                    },
            ),
        decreases img_h - sy,
    {
        let mut sx: i32 = 0;
        while sx < img_w
            invariant
                0 <= sy < img_h,
                0 <= sx <= img_w,
                w == canvas_w,
                h == canvas_h,
                w * h * 4 <= canvas@.len(),
                img_w * img_h * 4 <= img@.len(),
                painted(
                    before,
                    canvas@,
                    w as int,
                    h as int,
                    |x: int, y: int, p: Quad|
                        if y - oy < sy || (y - oy == sy && x - ox < sx) {
                            pasted(img@, img_w as int, img_h as int, ox as int, oy as int, x, y, p)
                        } else {
                            p
                        },
                ),
            decreases img_w - sx,
        {
            let px: [u8; 4] = get_px(img, img_w as usize, img_h as usize, sx as usize, sy as usize);
            let x: i64 = ox as i64 + sx as i64;
            let y: i64 = oy as i64 + sy as i64;
            if px[3] != 0 && 0 <= x && x < canvas_w as i64 && 0 <= y && y < canvas_h as i64 {
                put_px(canvas, w, h, x as usize, y as usize, px);
            }
            sx += 1;
        }
        sy += 1;
    }
}

/// A pasted image shows each of its pixels that is not clear at its own place,
/// from the top left pixel on, and nothing else of the canvas changes.
pub proof fn pasted_image_is_in_place(
    before: Seq<u8>,
    after: Seq<u8>,
    w: int,
    h: int,
    img: Seq<u8>,
    img_w: int,
    img_h: int,
    ox: int,
    oy: int,
    i: int,
    j: int,
)
    requires
        painted(
            before,
            after,
            w,
            h,
            |x: int, y: int, p: Quad| pasted(img, img_w, img_h, ox, oy, x, y, p),
        ),
        inside(w, h, ox + i, oy + j),
    ensures
        inside(img_w, img_h, i, j) && img[(j * img_w + i) * 4 + 3] != 0 ==> px_at(
            after,
            w,
            ox + i,
            oy + j,
        ) == px_at(img, img_w, i, j),
        inside(img_w, img_h, i, j) && img[(j * img_w + i) * 4 + 3] == 0 ==> px_at(
            after,
            w,
            ox + i,
            oy + j,
        ) == px_at(before, w, ox + i, oy + j),
        !inside(img_w, img_h, i, j) ==> px_at(after, w, ox + i, oy + j) == px_at(
            before,
            w,
            ox + i,
            oy + j,
        ),
{
}

/// Images are stored row by row from the top, each row from the left, four bytes
/// a pixel: red, green, blue and opacity in this order.
pub proof fn pixels_are_stored_row_by_row(d: Seq<u8>, w: int, x: int, y: int, px: [u8; 4])
    ensures
        px_at(d, w, x, y) == (
            d[4 * (y * w + x)],
            d[4 * (y * w + x) + 1],
            d[4 * (y * w + x) + 2],
            d[4 * (y * w + x) + 3],
        ),
        px_at(d, w, x, y) == nth_px(d, y * w + x),
        px_at(d, w, x, 0) == nth_px(d, x),
        quad(px) == (px[0], px[1], px[2], px[3]),
{
}

/// A pixel lies in a rectangle from its first column and row on, and before its
/// last ones.
pub proof fn rectangles_end_before_their_ends(x: int, y: int, x0: int, x1: int, y0: int, y1: int)
    ensures
        in_rect(x, y, x0, x1, y0, y1) <==> x0 <= x && x < x1 && y0 <= y && y < y1,
        inside(x1, y1, x, y) <==> 0 <= x && x < x1 && 0 <= y && y < y1,
{
}

} // verus!
