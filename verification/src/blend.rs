//! Alpha blending onto a canvas.

use crate::pixels;
use crate::pixels::Quad;
use crate::render::RgbaBuffer;
use vstd::prelude::*;

verus! {

/// `s` over `d` at opacity `a`, rounded down.
pub open spec fn mixed(s: u8, d: u8, a: u8) -> u8 {
    ((s * a + d * (255 - a)) / 255) as u8
}

/// `s` over `d` at opacity `a`, rounded to the nearest value. There are no
/// ties: 255 is odd.
pub open spec fn mixed_nearest(s: u8, d: u8, a: u8) -> u8 {
    ((s * a + d * (255 - a) + 127) / 255) as u8
}

proof fn lemma_weights(s: u8, d: u8, a: u8)
    ensures
        0 <= s * a,
        0 <= d * (255 - a),
        s * a + d * (255 - a) <= 255 * 255,
{
    assert(0 <= s * a && 0 <= d * (255 - a) && s * a <= 255 * a && d * (255 - a) <= 255 * (255
        - a)) by (nonlinear_arith)
        requires
            0 <= s <= 255,
            0 <= d <= 255,
            0 <= a <= 255,
    ;
}

fn mix(s: u8, d: u8, a: u8) -> (r: u8)
    ensures
        r == mixed(s, d, a),
{
    proof {
        lemma_weights(s, d, a);
    }
    ((s as u32 * a as u32 + d as u32 * (255 - a as u32)) / 255) as u8
}

fn mix_nearest(s: u8, d: u8, a: u8) -> (r: u8)
    ensures
        r == mixed_nearest(s, d, a),
{
    proof {
        lemma_weights(s, d, a);
    }
    ((s as u32 * a as u32 + d as u32 * (255 - a as u32) + 127) / 255) as u8
}

/// At full opacity the upper value wins, at none the lower one stays, with
/// either way of rounding.
pub proof fn mixing_extremes(s: u8, d: u8)
    ensures
        mixed(s, d, 255) == s,
        mixed(s, d, 0) == d,
        mixed_nearest(s, d, 255) == s,
        mixed_nearest(s, d, 0) == d,
{
    assert(s * 255 + d * (255 - 255) == s * 255);
    assert(s * 0 + d * (255 - 0) == d * 255);
}

/// A mix lies between the two values.
pub proof fn mix_lies_between(s: u8, d: u8, a: u8)
    ensures
        s <= d ==> s <= mixed(s, d, a) <= d && s <= mixed_nearest(s, d, a) <= d,
        d <= s ==> d <= mixed(s, d, a) <= s && d <= mixed_nearest(s, d, a) <= s,
{
    let n = s * a + d * (255 - a);
    if s <= d {
        assert(255 * s <= n <= 255 * d) by (nonlinear_arith)
            requires
                n == s * a + d * (255 - a),
                0 <= s <= d,
                0 <= a <= 255,
        ;
    }
    if d <= s {
        assert(255 * d <= n <= 255 * s) by (nonlinear_arith)
            requires
                n == s * a + d * (255 - a),
                0 <= d <= s,
                0 <= a <= 255,
        ;
    }
    lemma_weights(s, d, a);
}

/// A pixel after a colour went over it at opacity `a`.
pub open spec fn blended(p: Quad, color: [u8; 3], a: u8) -> Quad {
    (mixed(color[0], p.0, a), mixed(color[1], p.1, a), mixed(color[2], p.2, a), mixed(255, p.3, a))
}

/// Blends a colour onto one pixel, the first four bytes of `dst`.
pub fn blend_pixel(dst: &mut [u8], src_color: [u8; 3], src_alpha: u8)
    requires
        4 <= old(dst)@.len(),
    ensures
        final(dst)@.len() == old(dst)@.len(),
        (final(dst)@[0], final(dst)@[1], final(dst)@[2], final(dst)@[3]) == blended(
            (old(dst)@[0], old(dst)@[1], old(dst)@[2], old(dst)@[3]),
            src_color,
            src_alpha,
        ),
        forall|i: int| 4 <= i < old(dst)@.len() ==> final(dst)@[i] == old(dst)@[i],
{
    if src_alpha == 0 {
        proof {
            mixing_extremes(src_color[0], dst@[0]);
            mixing_extremes(src_color[1], dst@[1]);
            mixing_extremes(src_color[2], dst@[2]);
            mixing_extremes(255, dst@[3]);
        }
        return;
    }
    dst[0] = mix(src_color[0], dst[0], src_alpha);
    dst[1] = mix(src_color[1], dst[1], src_alpha);
    dst[2] = mix(src_color[2], dst[2], src_alpha);
    dst[3] = mix(255, dst[3], src_alpha);
}

/// Blends a colour onto one pixel of a canvas.
pub fn blend_at(
    canvas: &mut [u8],
    w: usize,
    h: usize,
    x: usize,
    y: usize,
    color: [u8; 3],
    alpha: u8,
)
    requires
        pixels::inside(w as int, h as int, x as int, y as int),
        w * h * 4 <= old(canvas)@.len(),
    ensures
        pixels::painted(
            old(canvas)@,
            final(canvas)@,
            w as int,
            h as int,
            |px: int, py: int, p: Quad|
                if px == x && py == y {
                    blended(p, color, alpha)
                } else {
                    p
                },
        ),
{
    let mut px: [u8; 4] = pixels::get_px(canvas, w, h, x, y);
    let ghost before = px;
    px[0] = mix(color[0], px[0], alpha);
    px[1] = mix(color[1], px[1], alpha);
    px[2] = mix(color[2], px[2], alpha);
    px[3] = mix(255, px[3], alpha);
    assert(pixels::quad(px) == blended(pixels::quad(before), color, alpha));
    pixels::put_px(canvas, w, h, x, y, px);
}

/// Blends a colour through a mask: mask value `mask[i]` is the opacity of the
/// `i`-th pixel, row by row, of the `mask_w` by `mask_h` rectangle whose top
/// left pixel is `(ox, oy)`. Clipped to the canvas.
pub fn blend_mask(
    canvas: &mut [u8],
    canvas_w: i32,
    canvas_h: i32,
    mask: &[u8],
    mask_w: i32,
    mask_h: i32,
    ox: i32,
    oy: i32,
    color: [u8; 3],
)
    requires
        0 <= canvas_w,
        0 <= canvas_h,
        canvas_w * canvas_h * 4 <= old(canvas)@.len(),
        0 <= mask_w,
        0 <= mask_h,
        mask_w * mask_h <= mask@.len(),
    ensures
        pixels::painted(
            old(canvas)@,
            final(canvas)@,
            canvas_w as int,
            canvas_h as int,
            |x: int, y: int, p: Quad|
                if pixels::inside(mask_w as int, mask_h as int, x - ox, y - oy) {
                    blended(p, color, mask@[(y - oy) * mask_w + (x - ox)])
                } else {
                    p
                },
        ),
{
    let w: usize = canvas_w as usize;
    let h: usize = canvas_h as usize;
    let ghost before = canvas@;
    let mut sy: i32 = 0;
    while sy < mask_h
        invariant
            0 <= sy <= mask_h,
            0 <= mask_w,
            w == canvas_w,
            h == canvas_h,
            w * h * 4 <= canvas@.len(),
            mask_w * mask_h <= mask@.len(),
            pixels::painted(
                before,
                canvas@,
                w as int,
                h as int,
                |x: int, y: int, p: Quad|
                    if y - oy < sy && pixels::inside(mask_w as int, mask_h as int, x - ox, y - oy) {
                        blended(p, color, mask@[(y - oy) * mask_w + (x - ox)])
                    } else {
                        p
                    },
            ),
        decreases mask_h - sy,
    {
        let mut sx: i32 = 0;
        while sx < mask_w
            invariant
                0 <= sy < mask_h,
                0 <= sx <= mask_w,
                w == canvas_w,
                h == canvas_h,
                w * h * 4 <= canvas@.len(),
                mask_w * mask_h <= mask@.len(),
                pixels::painted(
                    before,
                    canvas@,
                    w as int,
                    h as int,
                    |x: int, y: int, p: Quad|
                        if (y - oy < sy || (y - oy == sy && x - ox < sx)) && pixels::inside(
                            mask_w as int,
                            mask_h as int,
                            x - ox,
                            y - oy,
                        ) {
                            blended(p, color, mask@[(y - oy) * mask_w + (x - ox)])
                        } else {
                            p
                        },
                ),
            decreases mask_w - sx,
        {
            proof {
                pixels::lemma_inside(mask_w as int, mask_h as int, sx as int, sy as int);
                assert(mask.len() == mask@.len());
            }
            let alpha: u8 = mask[sy as usize * mask_w as usize + sx as usize];
            let x: i64 = ox as i64 + sx as i64;
            let y: i64 = oy as i64 + sy as i64;
            if 0 <= x && x < canvas_w as i64 && 0 <= y && y < canvas_h as i64 {
                blend_at(canvas, w, h, x as usize, y as usize, color, alpha);
            }
            sx += 1;
        }
        sy += 1;
    }
}

/// A pixel after an outline pixel went over it. Its opacity stays.
pub open spec fn outlined(p: Quad, o: Quad) -> Quad {
    (mixed(o.0, p.0, o.3), mixed(o.1, p.1, o.3), mixed(o.2, p.2, o.3), p.3)
}

/// A pixel after an overlay pixel went over it: replaced where the overlay is
/// opaque, kept where it is fully transparent, else mixed and opaque.
pub open spec fn overlaid(p: Quad, o: Quad) -> Quad {
    if o.3 == 0 {
        p
    } else if o.3 == 255 {
        o
    } else {
        (
            mixed_nearest(o.0, p.0, o.3),
            mixed_nearest(o.1, p.1, o.3),
            mixed_nearest(o.2, p.2, o.3),
            255u8,
        )
    }
}

/// A pixel after a cursor pixel went over it, all four channels alike.
pub open spec fn under_cursor(p: Quad, o: Quad) -> Quad {
    (
        mixed_nearest(o.0, p.0, o.3),
        mixed_nearest(o.1, p.1, o.3),
        mixed_nearest(o.2, p.2, o.3),
        mixed_nearest(o.3, p.3, o.3),
    )
}

/// How a pixel of an image goes over a pixel of the canvas.
#[derive(Clone, Copy, Debug, PartialEq, Eq, Structural)]
pub enum Over {
    Outline,
    Overlay,
    Cursor,
    Straight,
}

/// What becomes of a canvas pixel under an image pixel.
pub open spec fn over(how: Over, p: Quad, o: Quad) -> Quad {
    match how {
        Over::Outline => outlined(p, o),
        Over::Overlay => overlaid(p, o),
        Over::Cursor => under_cursor(p, o),
        Over::Straight => blended(p, [o.0, o.1, o.2], o.3),
    }
}

fn combine(how: Over, p: [u8; 4], o: [u8; 4]) -> (r: [u8; 4])
    ensures
        pixels::quad(r) == over(how, pixels::quad(p), pixels::quad(o)),
{
    match how {
        Over::Outline => [mix(o[0], p[0], o[3]), mix(o[1], p[1], o[3]), mix(o[2], p[2], o[3]), p[3]],
        Over::Overlay => if o[3] == 0 {
            p
        } else if o[3] == 255 {
            o
        } else {
            [
                mix_nearest(o[0], p[0], o[3]),
                mix_nearest(o[1], p[1], o[3]),
                mix_nearest(o[2], p[2], o[3]),
                255,
            ]
        },
        Over::Cursor => [
            mix_nearest(o[0], p[0], o[3]),
            mix_nearest(o[1], p[1], o[3]),
            mix_nearest(o[2], p[2], o[3]),
            mix_nearest(o[3], p[3], o[3]),
        ],
        Over::Straight => [
            mix(o[0], p[0], o[3]),
            mix(o[1], p[1], o[3]),
            mix(o[2], p[2], o[3]),
            mix(255, p[3], o[3]),
        ],
    }
}

/// Puts an image over the canvas with its top left pixel at `(ox, oy)`,
/// clipped to the canvas.
pub fn put_over(
    canvas: &mut [u8],
    canvas_w: usize,
    canvas_h: usize,
    img: &[u8],
    img_w: i32,
    img_h: i32,
    ox: i32,
    oy: i32,
    how: Over,
)
    requires
        canvas_w <= i32::MAX,
        canvas_h <= i32::MAX,
        canvas_w * canvas_h * 4 <= old(canvas)@.len(),
        0 <= img_w,
        0 <= img_h,
        img_w * img_h * 4 <= img@.len(),
    ensures
        pixels::painted(
            old(canvas)@,
            final(canvas)@,
            canvas_w as int,
            canvas_h as int,
            |x: int, y: int, p: Quad|
                if pixels::inside(img_w as int, img_h as int, x - ox, y - oy) {
                    over(how, p, pixels::px_at(img@, img_w as int, x - ox, y - oy))
                } else {
                    p
                },
        ),
{
    let ghost before = canvas@;
    let mut sy: i32 = 0;
    while sy < img_h
        invariant
            0 <= sy <= img_h,
            0 <= img_w,
            canvas_w <= i32::MAX,
            canvas_h <= i32::MAX,
            canvas_w * canvas_h * 4 <= canvas@.len(),
            img_w * img_h * 4 <= img@.len(),
            pixels::painted(
                before,
                canvas@,
                canvas_w as int,
                canvas_h as int,
                |x: int, y: int, p: Quad|
                    if y - oy < sy && pixels::inside(img_w as int, img_h as int, x - ox, y - oy) {
                        over(how, p, pixels::px_at(img@, img_w as int, x - ox, y - oy))
                    } else {
                        p
                    },
            ),
        decreases img_h - sy,
    {
        let mut sx: i32 = 0;
        while sx < img_w
            invariant
                0 <= sy < img_h,
                0 <= sx <= img_w,
                canvas_w <= i32::MAX,
                canvas_h <= i32::MAX,
                canvas_w * canvas_h * 4 <= canvas@.len(),
                img_w * img_h * 4 <= img@.len(),
                pixels::painted(
                    before,
                    canvas@,
                    canvas_w as int,
                    canvas_h as int,
                    |x: int, y: int, p: Quad|
                        if (y - oy < sy || (y - oy == sy && x - ox < sx)) && pixels::inside(
                            img_w as int,
                            img_h as int,
                            x - ox,
                            y - oy,
                        ) {
                            over(how, p, pixels::px_at(img@, img_w as int, x - ox, y - oy))
                        } else {
                            p
                        },
                ),
            decreases img_w - sx,
        {
            let o: [u8; 4] = pixels::get_px(
                img,
                img_w as usize,
                img_h as usize,
                sx as usize,
                sy as usize,
            );
            let x: i64 = ox as i64 + sx as i64;
            let y: i64 = oy as i64 + sy as i64;
            if 0 <= x && x < canvas_w as i64 && 0 <= y && y < canvas_h as i64 {
                let p: [u8; 4] = pixels::get_px(canvas, canvas_w, canvas_h, x as usize, y as usize);
                let q: [u8; 4] = combine(how, p, o);
                pixels::put_px(canvas, canvas_w, canvas_h, x as usize, y as usize, q);
            }
            sx += 1;
        }
        sy += 1;
    }
}

/// The image lies within a canvas of the given width and number of bytes.
pub open spec fn lies_within(
    canvas_len: int,
    stride: int,
    width: int,
    height: int,
    ox: int,
    oy: int,
) -> bool {
    &&& 0 <= width
    &&& 0 <= height
    &&& 0 <= ox
    &&& 0 <= oy
    &&& ox + width <= stride
    &&& oy + height <= i32::MAX
    &&& stride * (oy + height) * 4 <= canvas_len
}

/// Blends an image with its top left pixel at `(ox, oy)` into a canvas
/// `stride` pixels wide, as a rounded down mix that keeps the opacity.
pub fn blend_outline_into(
    canvas: &mut [u8],
    stride: i32,
    outline: &[u8],
    width: i32,
    height: i32,
    ox: i32,
    oy: i32,
)
    requires
        lies_within(
            old(canvas)@.len() as int,
            stride as int,
            width as int,
            height as int,
            ox as int,
            oy as int,
        ),
        width * height * 4 <= outline@.len(),
    ensures
        pixels::painted(
            old(canvas)@,
            final(canvas)@,
            stride as int,
            oy + height,
            |x: int, y: int, p: Quad|
                if pixels::inside(width as int, height as int, x - ox, y - oy) {
                    outlined(p, pixels::px_at(outline@, width as int, x - ox, y - oy))
                } else {
                    p
                },
        ),
{
    let rows: i32 = oy + height;
    put_over(
        canvas,
        stride as usize,
        rows as usize,
        outline,
        width,
        height,
        ox,
        oy,
        Over::Outline,
    );
}

/// Blends an image with its top left pixel at `(ox, oy)` into a canvas
/// `stride` pixels wide: opaque pixels replace, others mix to an opaque result.
pub fn blend_overlay_into(
    canvas: &mut [u8],
    stride: i32,
    overlay: &[u8],
    width: i32,
    height: i32,
    ox: i32,
    oy: i32,
)
    requires
        lies_within(
            old(canvas)@.len() as int,
            stride as int,
            width as int,
            height as int,
            ox as int,
            oy as int,
        ),
        width * height * 4 <= overlay@.len(),
    ensures
        pixels::painted(
            old(canvas)@,
            final(canvas)@,
            stride as int,
            oy + height,
            |x: int, y: int, p: Quad|
                if pixels::inside(width as int, height as int, x - ox, y - oy) {
                    overlaid(p, pixels::px_at(overlay@, width as int, x - ox, y - oy))
                } else {
                    p
                },
        ),
{
    let rows: i32 = oy + height;
    put_over(
        canvas,
        stride as usize,
        rows as usize,
        overlay,
        width,
        height,
        ox,
        oy,
        Over::Overlay,
    );
}

/// Draws a cursor image with its top left pixel at `pos` into a canvas of
/// `stride` bytes per row, clipped to the canvas.
pub fn draw_cursor_at(canvas: &mut [u8], stride: i32, pos: (i32, i32), cursor: &RgbaBuffer)
    requires
        0 < stride,
        stride % 4 == 0,
        old(canvas)@.len() <= i32::MAX,
        cursor.wf(),
    ensures
        pixels::painted(
            old(canvas)@,
            final(canvas)@,
            stride as int / 4,
            old(canvas)@.len() as int / stride as int,
            |x: int, y: int, p: Quad|
                if cursor.has(x - pos.0, y - pos.1) {
                    under_cursor(p, cursor.at(x - pos.0, y - pos.1))
                } else {
                    p
                },
        ),
{
    let canvas_w: usize = stride as usize / 4;
    let canvas_h: usize = canvas.len() / stride as usize;
    proof {
        assert(canvas.len() == canvas@.len());
        let len = canvas@.len() as int;
        let s = stride as int;
        vstd::arithmetic::div_mod::lemma_fundamental_div_mod(len, s);
        assert(canvas_w * 4 == s);
        assert(canvas_w * canvas_h * 4 == s * canvas_h) by (nonlinear_arith)
            requires
                canvas_w * 4 == s,
        ;
        assert(s * canvas_h <= len);
        assert(0 <= len / s <= len) by (nonlinear_arith)
            requires
                0 <= len,
                0 < s,
        ;
    }
    put_over(
        canvas,
        canvas_w,
        canvas_h,
        cursor.data.as_slice(),
        cursor.width,
        cursor.height,
        pos.0,
        pos.1,
        Over::Cursor,
    );
}

/// A fully transparent cursor pixel or overlay pixel changes nothing, an
/// opaque one is copied.
pub proof fn over_extremes(p: Quad, o: Quad)
    ensures
        o.3 == 0 ==> overlaid(p, o) == p && outlined(p, o) == p && under_cursor(p, o) == p,
        o.3 == 255 ==> overlaid(p, o) == o && under_cursor(p, o) == o,
{
    mixing_extremes(o.0, p.0);
    mixing_extremes(o.1, p.1);
    mixing_extremes(o.2, p.2);
    mixing_extremes(o.3, p.3);
}

/// Clears a rectangle of the canvas to transparent, `x0..x1` by `y0..y1`,
/// clipped to the canvas.
pub fn clear_region(data: &mut [u8], vp_w: i32, vp_h: i32, x0: i32, y0: i32, x1: i32, y1: i32)
    requires
        0 <= vp_w,
        0 <= vp_h,
        vp_w * vp_h * 4 <= old(data)@.len(),
    ensures
        pixels::painted(
            old(data)@,
            final(data)@,
            vp_w as int,
            vp_h as int,
            |x: int, y: int, p: Quad|
                if pixels::in_rect(x, y, x0 as int, x1 as int, y0 as int, y1 as int) {
                    (0u8, 0u8, 0u8, 0u8)
                } else {
                    p
                },
        ),
{
    pixels::fill_px(data, vp_w, vp_h, x0, x1, y0, y1, [0, 0, 0, 0]);
}

/// A mix is the weighted sum of its parts over 255: rounded down, or to the
/// nearest value.
pub proof fn mixes_are_weighted_sums(s: u8, d: u8, a: u8)
    ensures
        255 * mixed(s, d, a) <= s * a + d * (255 - a) < 255 * mixed(s, d, a) + 255,
        -127 <= s * a + d * (255 - a) - 255 * mixed_nearest(s, d, a) <= 127,
{
    lemma_weights(s, d, a);
}

/// A colour that goes over a pixel replaces it at full opacity, channel by
/// channel, and leaves it alone at none.
pub proof fn colors_cover_by_opacity(p: Quad, color: [u8; 3])
    ensures
        blended(p, color, 255) == (color[0], color[1], color[2], 255u8),
        blended(p, color, 0) == p,
{
    mixing_extremes(color[0], p.0);
    mixing_extremes(color[1], p.1);
    mixing_extremes(color[2], p.2);
    mixing_extremes(255, p.3);
}

/// A pixel of an image that is neither clear nor opaque goes over a canvas pixel
/// as a mix of the two by its opacity `a`: rounded to the nearest value in an
/// overlay, whose result is opaque, and in a pointer, rounded down in an outline,
/// which leaves the opacity of the canvas.
pub proof fn images_mix_by_opacity(p: Quad, o: Quad)
    requires
        0 < o.3 < 255,
    ensures
        ({
            let a = o.3 as int;
            let r = over(Over::Overlay, p, o);
            &&& -127 <= o.0 * a + p.0 * (255 - a) - 255 * r.0 <= 127
            &&& -127 <= o.1 * a + p.1 * (255 - a) - 255 * r.1 <= 127
            &&& -127 <= o.2 * a + p.2 * (255 - a) - 255 * r.2 <= 127
            &&& r.3 == 255
        }),
        ({
            let a = o.3 as int;
            let r = over(Over::Cursor, p, o);
            &&& -127 <= o.0 * a + p.0 * (255 - a) - 255 * r.0 <= 127
            &&& -127 <= o.1 * a + p.1 * (255 - a) - 255 * r.1 <= 127
            &&& -127 <= o.2 * a + p.2 * (255 - a) - 255 * r.2 <= 127
            &&& -127 <= o.3 * a + p.3 * (255 - a) - 255 * r.3 <= 127
        }),
        ({
            let a = o.3 as int;
            let r = over(Over::Outline, p, o);
            &&& 0 <= o.0 * a + p.0 * (255 - a) - 255 * r.0 <= 254
            &&& 0 <= o.1 * a + p.1 * (255 - a) - 255 * r.1 <= 254
            &&& 0 <= o.2 * a + p.2 * (255 - a) - 255 * r.2 <= 254
            &&& r.3 == p.3
        }),
        ({
            let a = o.3 as int;
            let r = over(Over::Straight, p, o);
            &&& 0 <= o.0 * a + p.0 * (255 - a) - 255 * r.0 <= 254
            &&& 0 <= o.1 * a + p.1 * (255 - a) - 255 * r.1 <= 254
            &&& 0 <= o.2 * a + p.2 * (255 - a) - 255 * r.2 <= 254
            &&& 0 <= 255 * a + p.3 * (255 - a) - 255 * r.3 <= 254
        }),
{
    mixes_are_weighted_sums(o.0, p.0, o.3);
    mixes_are_weighted_sums(o.1, p.1, o.3);
    mixes_are_weighted_sums(o.2, p.2, o.3);
    mixes_are_weighted_sums(o.3, p.3, o.3);
    mixes_are_weighted_sums(255, p.3, o.3);
}

/// Where an image pixel is opaque it is what the canvas shows, in every way to
/// put images over each other; an outline shows its colours at the opacity of the
/// canvas. Where it is clear the canvas shows.
pub proof fn images_show_or_let_through(how: Over, p: Quad, o: Quad)
    ensures
        o.3 == 0 ==> over(how, p, o) == p,
        o.3 == 255 && how != Over::Outline ==> over(how, p, o) == o,
        o.3 == 255 && how == Over::Outline ==> over(how, p, o) == (o.0, o.1, o.2, p.3),
{
    over_extremes(p, o);
    mixing_extremes(o.0, p.0);
    mixing_extremes(o.1, p.1);
    mixing_extremes(o.2, p.2);
    mixing_extremes(o.3, p.3);
    mixing_extremes(255, p.3);
}

} // verus!
