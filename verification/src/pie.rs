//! The pie menu of the annotation tools: a ring of colours, a ring of tool
//! buttons around it, and a tooltip.

use crate::blend;
use crate::osd;
use crate::osd::OsdSprite;
use crate::pixels;
use crate::pixels::Quad;
use crate::render::RgbaBuffer;
use crate::text;
use vstd::prelude::*;
use vstd::utf8::encode_utf8;

verus! {

/// A tool to draw with.
#[derive(Clone, Copy, Debug, PartialEq, Eq, Structural)]
pub enum DrawTool {
    Select,
    Freehand,
    Erase,
    Line,
    Box,
    Arrow,
    Circle,
    Number,
}

impl DrawTool {
    pub open spec fn short_name(self) -> Seq<char> {
        match self {
            DrawTool::Select => "Sel"@,
            DrawTool::Freehand => "Pen"@,
            DrawTool::Erase => "Ers"@,
            DrawTool::Line => "Line"@,
            DrawTool::Box => "Box"@,
            DrawTool::Arrow => "Arr"@,
            DrawTool::Circle => "Cir"@,
            DrawTool::Number => "#"@,
        }
    }

    pub open spec fn long_name(self) -> Seq<char> {
        match self {
            DrawTool::Select => "Select"@,
            DrawTool::Freehand => "Draw"@,
            DrawTool::Erase => "Erase"@,
            DrawTool::Line => "Line"@,
            DrawTool::Box => "Rectangle"@,
            DrawTool::Arrow => "Arrow"@,
            DrawTool::Circle => "Circle"@,
            DrawTool::Number => "Number"@,
        }
    }

    pub fn label(self) -> (r: &'static str)
        ensures
            r@ == self.short_name(),
    {
        match self {
            DrawTool::Select => "Sel",
            DrawTool::Freehand => "Pen",
            DrawTool::Erase => "Ers",
            DrawTool::Line => "Line",
            DrawTool::Box => "Box",
            DrawTool::Arrow => "Arr",
            DrawTool::Circle => "Cir",
            DrawTool::Number => "#",
        }
    }

    pub fn label_long(self) -> (r: &'static str)
        ensures
            r@ == self.long_name(),
    {
        match self {
            DrawTool::Select => "Select",
            DrawTool::Freehand => "Draw",
            DrawTool::Erase => "Erase",
            DrawTool::Line => "Line",
            DrawTool::Box => "Rectangle",
            DrawTool::Arrow => "Arrow",
            DrawTool::Circle => "Circle",
            DrawTool::Number => "Number",
        }
    }
}

/// How the button under the pointer is found.
#[derive(Clone, Copy, Debug, PartialEq, Eq, Structural)]
pub enum SelectionStyle {
    /// By direction alone.
    Nearest,
    /// By the buttons' own areas first.
    Overlap,
}

/// What a button of the menu does.
#[derive(Clone, Copy, Debug, PartialEq, Eq)]
pub enum PieAction {
    Tool(DrawTool),
    Color([u8; 3]),
}

/// Number of colours, and of tools.
pub const RING: usize = 8;

/// The colour of a button of the inner ring.
pub open spec fn ring_color(i: int) -> [u8; 3] {
    if i == 0 {
        [255, 0, 0]
    } else if i == 1 {
        [255, 140, 0]
    } else if i == 2 {
        [255, 255, 0]
    } else if i == 3 {
        [0, 200, 0]
    } else if i == 4 {
        [0, 150, 255]
    } else if i == 5 {
        [140, 0, 255]
    } else if i == 6 {
        [255, 255, 255]
    } else {
        [0, 0, 0]
    }
}

pub fn color_button(i: usize) -> (r: [u8; 3])
    ensures
        r == ring_color(i as int),
{
    match i {
        0 => [255, 0, 0],
        1 => [255, 140, 0],
        2 => [255, 255, 0],
        3 => [0, 200, 0],
        4 => [0, 150, 255],
        5 => [140, 0, 255],
        6 => [255, 255, 255],
        _ => [0, 0, 0],
    }
}

/// The tool of a button of the outer ring.
pub open spec fn ring_tool(i: int) -> DrawTool {
    if i == 0 {
        DrawTool::Select
    } else if i == 1 {
        DrawTool::Freehand
    } else if i == 2 {
        DrawTool::Erase
    } else if i == 3 {
        DrawTool::Line
    } else if i == 4 {
        DrawTool::Box
    } else if i == 5 {
        DrawTool::Arrow
    } else if i == 6 {
        DrawTool::Circle
    } else {
        DrawTool::Number
    }
}

pub fn tool_button(i: usize) -> (r: DrawTool)
    ensures
        r == ring_tool(i as int),
{
    match i {
        0 => DrawTool::Select,
        1 => DrawTool::Freehand,
        2 => DrawTool::Erase,
        3 => DrawTool::Line,
        4 => DrawTool::Box,
        5 => DrawTool::Arrow,
        6 => DrawTool::Circle,
        _ => DrawTool::Number,
    }
}

/// The name of the icon of a tool button.
pub fn icon_name(i: usize) -> (r: &'static str)
    ensures
        r@ == (match i {
            0 => "mouse-pointer"@,
            1 => "pencil"@,
            2 => "eraser"@,
            3 => "minus"@,
            4 => "square"@,
            5 => "arrow-up-right"@,
            6 => "circle"@,
            _ => "hash"@,
        }),
{
    match i {
        0 => "mouse-pointer",
        1 => "pencil",
        2 => "eraser",
        3 => "minus",
        4 => "square",
        5 => "arrow-up-right",
        6 => "circle",
        _ => "hash",
    }
}

/// What a button does: the first eight pick a colour, the next eight a tool.
pub open spec fn button_action(idx: int) -> Option<PieAction> {
    if 0 <= idx < RING {
        Some(PieAction::Color(ring_color(idx)))
    } else if RING <= idx < 2 * RING {
        Some(PieAction::Tool(ring_tool(idx - RING)))
    } else {
        None
    }
}

pub fn action_of(idx: usize) -> (r: Option<PieAction>)
    ensures
        r == button_action(idx as int),
{
    if idx < RING {
        Some(PieAction::Color(color_button(idx)))
    } else if idx < 16 {
        Some(PieAction::Tool(tool_button(idx - RING)))
    } else {
        None
    }
}

/// The short name of a button.
pub open spec fn short_label(idx: int) -> Option<Seq<char>> {
    if 0 <= idx < RING {
        Some(
            if idx == 0 {
                "Red"@
            } else if idx == 1 {
                "Org"@
            } else if idx == 2 {
                "Yel"@
            } else if idx == 3 {
                "Grn"@
            } else if idx == 4 {
                "Blu"@
            } else if idx == 5 {
                "Pur"@
            } else if idx == 6 {
                "Wht"@
            } else {
                "Blk"@
            },
        )
    } else if RING <= idx < 2 * RING {
        Some(ring_tool(idx - RING).short_name())
    } else {
        None
    }
}

pub fn flat_label(idx: usize) -> (r: Option<&'static str>)
    ensures
        match r {
            Some(s) => short_label(idx as int) == Some(s@),
            None => short_label(idx as int) is None,
        },
{
    if idx < RING {
        Some(
            match idx {
                0 => "Red",
                1 => "Org",
                2 => "Yel",
                3 => "Grn",
                4 => "Blu",
                5 => "Pur",
                6 => "Wht",
                _ => "Blk",
            },
        )
    } else if idx < 16 {
        Some(tool_button(idx - RING).label())
    } else {
        None
    }
}

/// The full name of a button.
pub open spec fn long_label(idx: int) -> Option<Seq<char>> {
    if 0 <= idx < RING {
        Some(
            if idx == 0 {
                "Red"@
            } else if idx == 1 {
                "Orange"@
            } else if idx == 2 {
                "Yellow"@
            } else if idx == 3 {
                "Green"@
            } else if idx == 4 {
                "Blue"@
            } else if idx == 5 {
                "Purple"@
            } else if idx == 6 {
                "White"@
            } else {
                "Black"@
            },
        )
    } else if RING <= idx < 2 * RING {
        Some(ring_tool(idx - RING).long_name())
    } else {
        None
    }
}

pub fn flat_label_long(idx: usize) -> (r: Option<&'static str>)
    ensures
        match r {
            Some(s) => long_label(idx as int) == Some(s@),
            None => long_label(idx as int) is None,
        },
{
    if idx < RING {
        Some(
            match idx {
                0 => "Red",
                1 => "Orange",
                2 => "Yellow",
                3 => "Green",
                4 => "Blue",
                5 => "Purple",
                6 => "White",
                _ => "Black",
            },
        )
    } else if idx < 16 {
        Some(tool_button(idx - RING).label_long())
    } else {
        None
    }
}

/// A colour with every channel raised by some amount, up to the largest value.
pub open spec fn brighter(c: [u8; 3], amount: u8) -> [u8; 3] {
    [raised(c[0], amount), raised(c[1], amount), raised(c[2], amount)]
}

pub open spec fn raised(v: u8, amount: u8) -> u8 {
    if v + amount > 255 {
        255
    } else {
        (v + amount) as u8
    }
}

pub fn brighten(c: [u8; 3], amount: u8) -> (r: [u8; 3])
    ensures
        r == brighter(c, amount),
{
    let r: [u8; 3] = [
        c[0].saturating_add(amount),
        c[1].saturating_add(amount),
        c[2].saturating_add(amount),
    ];
    assert(r@ =~= brighter(c, amount)@);
    r
}

/// The square of the distance of two points.
pub open spec fn distance2(x: int, y: int, cx: int, cy: int) -> int {
    (x - cx) * (x - cx) + (y - cy) * (y - cy)
}

/// Whether a point is in a rectangle of the given size with corners rounded by
/// radius `cr`: within the radius of one of the corner centres, or between them.
pub open spec fn in_rounded(lx: int, ly: int, rw: int, rh: int, cr: int) -> bool {
    &&& 0 <= lx < rw
    &&& 0 <= ly < rh
    &&& {
        ||| distance2(lx, ly, cr, cr) <= cr * cr
        ||| distance2(lx, ly, rw - 1 - cr, cr) <= cr * cr
        ||| distance2(lx, ly, cr, rh - 1 - cr) <= cr * cr
        ||| distance2(lx, ly, rw - 1 - cr, rh - 1 - cr) <= cr * cr
        ||| cr <= lx <= rw - 1 - cr
        ||| cr <= ly <= rh - 1 - cr
    }
}

fn within(x: i32, y: i32, cx: i64, cy: i64, cr: i32) -> (r: bool)
    requires
        -0x2_0000_0000 <= cx <= 0x2_0000_0000,
        -0x2_0000_0000 <= cy <= 0x2_0000_0000,
    ensures
        r == (distance2(x as int, y as int, cx as int, cy as int) <= cr * cr),
{
    let dx: i128 = x as i128 - cx as i128;
    let dy: i128 = y as i128 - cy as i128;
    let c: i128 = cr as i128;
    assert(0 <= dx * dx <= 0x4_0000_0000 * 0x4_0000_0000 && 0 <= dy * dy <= 0x4_0000_0000
        * 0x4_0000_0000 && 0 <= c * c <= 0x4_0000_0000 * 0x4_0000_0000) by (nonlinear_arith)
        requires
            -0x4_0000_0000 <= dx <= 0x4_0000_0000,
            -0x4_0000_0000 <= dy <= 0x4_0000_0000,
            -0x4_0000_0000 <= c <= 0x4_0000_0000,
    ;
    dx * dx + dy * dy <= c * c
}

/// Whether a point, relative to the top left corner, is in a rectangle with
/// rounded corners.
pub fn point_in_rounded_rect(lx: i32, ly: i32, rw: i32, rh: i32, cr: i32) -> (r: bool)
    ensures
        r == in_rounded(lx as int, ly as int, rw as int, rh as int, cr as int),
{
    if lx < 0 || ly < 0 || lx >= rw || ly >= rh {
        return false;
    }
    let near: i64 = cr as i64;
    let right: i64 = rw as i64 - 1 - near;
    let bottom: i64 = rh as i64 - 1 - near;
    within(lx, ly, near, near, cr) || within(lx, ly, right, near, cr) || within(
        lx,
        ly,
        near,
        bottom,
        cr,
    ) || within(lx, ly, right, bottom, cr) || (lx as i64 >= near && lx as i64 <= right) || (
    ly as i64 >= near && ly as i64 <= bottom)
}

/// A rounded rectangle looks the same in a mirror.
pub proof fn rounded_rect_is_symmetric(lx: int, ly: int, rw: int, rh: int, cr: int)
    ensures
        in_rounded(lx, ly, rw, rh, cr) == in_rounded(rw - 1 - lx, ly, rw, rh, cr),
        in_rounded(lx, ly, rw, rh, cr) == in_rounded(lx, rh - 1 - ly, rw, rh, cr),
{
    lemma_mirror(lx, cr, rw);
    lemma_mirror(lx, rw - 1 - cr, rw);
    lemma_mirror(ly, cr, rh);
    lemma_mirror(ly, rh - 1 - cr, rh);
}

proof fn lemma_mirror(x: int, c: int, w: int)
    ensures
        ((w - 1 - x) - (w - 1 - c)) * ((w - 1 - x) - (w - 1 - c)) == (x - c) * (x - c),
        ((w - 1 - x) - c) * ((w - 1 - x) - c) == (x - (w - 1 - c)) * (x - (w - 1 - c)),
{
    assert(((w - 1 - x) - (w - 1 - c)) * ((w - 1 - x) - (w - 1 - c)) == (x - c) * (x - c))
        by (nonlinear_arith);
    assert(((w - 1 - x) - c) * ((w - 1 - x) - c) == (x - (w - 1 - c)) * (x - (w - 1 - c)))
        by (nonlinear_arith);
}

/// Blends a colour over a rectangle with rounded corners, clipped to the canvas.
pub fn fill_rounded_rect(
    buf: &mut [u8],
    bw: i32,
    bh: i32,
    x0: i32,
    y0: i32,
    rw: i32,
    rh: i32,
    cr: i32,
    color: [u8; 4],
)
    requires
        0 <= bw,
        0 <= bh,
        bw * bh * 4 <= old(buf)@.len(),
    ensures
        pixels::painted(
            old(buf)@,
            final(buf)@,
            bw as int,
            bh as int,
            |x: int, y: int, p: Quad|
                if in_rounded(x - x0, y - y0, rw as int, rh as int, cr as int) {
                    blend::blended(p, [color[0], color[1], color[2]], color[3])
                } else {
                    p
                },
        ),
{
    let w: usize = bw as usize;
    let h: usize = bh as usize;
    let c: [u8; 3] = [color[0], color[1], color[2]];
    let ghost before = buf@;
    // The part of the rectangle that is on the canvas.
    let left: i64 = if x0 < 0 { -(x0 as i64) } else { 0 };
    let top: i64 = if y0 < 0 { -(y0 as i64) } else { 0 };
    let right: i64 = if rw as i64 > bw as i64 - x0 as i64 { bw as i64 - x0 as i64 } else { rw as i64 };
    let bottom: i64 = if rh as i64 > bh as i64 - y0 as i64 { bh as i64 - y0 as i64 } else { rh as i64 };
    let mut ly: i64 = top;
    while ly < bottom
        invariant
            top <= ly,
            ly <= bottom || ly == top,
            left == if x0 < 0 { -x0 } else { 0 },
            top == if y0 < 0 { -y0 } else { 0 },
            right == if rw > bw - x0 { bw - x0 } else { rw as int },
            bottom == if rh > bh - y0 { bh - y0 } else { rh as int },
            w == bw,
            h == bh,
            w * h * 4 <= buf@.len(),
            c == [color[0], color[1], color[2]],
            pixels::painted(
                before,
                buf@,
                w as int,
                h as int,
                |x: int, y: int, p: Quad|
                    if y - y0 < ly && in_rounded(x - x0, y - y0, rw as int, rh as int, cr as int) {
                        blend::blended(p, c, color[3])
                    } else {
                        p
                    },
            ),
        decreases bottom - ly,
    {
        let mut lx: i64 = left;
        while lx < right
            invariant
                0 <= ly < rh,
                0 <= y0 + ly < bh,
                left <= lx,
                lx <= right || lx == left,
                left == if x0 < 0 { -x0 } else { 0 },
                right == if rw > bw - x0 { bw - x0 } else { rw as int },
                w == bw,
                h == bh,
                w * h * 4 <= buf@.len(),
                pixels::painted(
                    before,
                    buf@,
                    w as int,
                    h as int,
                    |x: int, y: int, p: Quad|
                        if (y - y0 < ly || (y - y0 == ly && x - x0 < lx)) && in_rounded(
                            x - x0,
                            y - y0,
                            rw as int,
                            rh as int,
                            cr as int,
                        ) {
                            blend::blended(p, c, color[3])
                        } else {
                            p
                        },
                ),
            decreases right - lx,
        {
            if point_in_rounded_rect(lx as i32, ly as i32, rw, rh, cr) {
                let x: i64 = x0 as i64 + lx;
                let y: i64 = y0 as i64 + ly;
                blend::blend_at(buf, w, h, x as usize, y as usize, c, color[3]);
            }
            lx += 1;
        }
        ly += 1;
    }
}

/// Whether text in cells of `s` by `s` pixels that starts at the origin covers
/// `(dx, dy)`. Characters are six cells apart.
pub open spec fn scaled_covers(line: Seq<char>, s: int, dx: int, dy: int) -> bool {
    &&& 0 <= dx
    &&& 0 <= dy
    &&& dx / s / 6 < line.len()
    &&& osd::cell_set(line[dx / s / 6], dx / s % 6, dy / s)
}

proof fn lemma_cell(s: int, k: int)
    requires
        0 < s,
        0 <= k,
    ensures
        forall|d: int| #![trigger d / s] (k * s <= d < k * s + s) <==> (0 <= d && d / s == k),
{
    assert forall|d: int| #![trigger d / s] (k * s <= d < k * s + s) <==> (0 <= d && d / s
        == k) by {
        assert(0 <= k * s) by (nonlinear_arith)
            requires
                0 < s,
                0 <= k,
        ;
        if k * s <= d < k * s + s {
            assert(d == k * s + (d - k * s));
            vstd::arithmetic::div_mod::lemma_fundamental_div_mod_converse(d, s, k, d - k * s);
        }
        if 0 <= d && d / s == k {
            vstd::arithmetic::div_mod::lemma_fundamental_div_mod(d, s);
            assert(k * s == s * k) by (nonlinear_arith);
            vstd::arithmetic::div_mod::lemma_mod_bound(d, s);
        }
    }
}

/// Whether a cell of a character is set.
fn has_cell(c: char, col: usize, row: usize) -> (r: bool)
    requires
        col < 6,
        row < 7,
    ensures
        r == osd::cell_set(c, col as int, row as int),
{
    let rows: [u8; 7] = match osd::glyph(c) {
        Some(rows) => rows,
        None => {
            return false;
        },
    };
    let bit: u8 = if col == 0 {
        16
    } else if col == 1 {
        8
    } else if col == 2 {
        4
    } else if col == 3 {
        2
    } else {
        1
    };
    col < 5 && (rows[row] / bit) % 2 == 1
}

/// Draws text in cells of `s` by `s` pixels, clipped to the canvas. A scale
/// below one counts as one.
pub fn draw_text_scaled(
    buf: &mut [u8],
    bw: i32,
    bh: i32,
    x: i32,
    y: i32,
    text: &str,
    color: [u8; 3],
    s: i32,
)
    requires
        0 <= bw,
        0 <= bh,
        bw * bh * 4 <= old(buf)@.len(),
    ensures
        pixels::painted(
            old(buf)@,
            final(buf)@,
            bw as int,
            bh as int,
            |px: int, py: int, p: Quad|
                if scaled_covers(text@, if s < 1 { 1 } else { s as int }, px - x, py - y) {
                    (color[0], color[1], color[2], 255u8)
                } else {
                    p
                },
        ),
{
    let s: i32 = if s < 1 { 1 } else { s };
    let line: Vec<char> = text::chars_of(text);
    let px: [u8; 4] = [color[0], color[1], color[2], 255];
    let ghost before = buf@;
    let mut k: u64 = 0;
    let mut pen: i64 = x as i64;
    assert(0 * s == 0) by (nonlinear_arith);
    while k / 6 < line.len() as u64 && pen < bw as i64
        invariant
            pen == x + k * s,
            pen <= bw + s || k == 0,
            k <= 0x1_0000_0000,
            line@ == text@,
            1 <= s,
            0 <= bw,
            0 <= bh,
            bw * bh * 4 <= buf@.len(),
            pixels::quad(px) == (color[0], color[1], color[2], 255u8),
            pixels::painted(
                before,
                buf@,
                bw as int,
                bh as int,
                |qx: int, qy: int, p: Quad|
                    if (qx - x) / (s as int) < k && scaled_covers(
                        text@,
                        s as int,
                        qx - x,
                        qy - y,
                    ) {
                        (color[0], color[1], color[2], 255u8)
                    } else {
                        p
                    },
            ),
        decreases bw + s - pen,
    {
        let mut row: u64 = 0;
        while row < 7
            invariant
                row <= 7,
                k / 6 < line@.len(),
                pen == x + k * s,
                pen < bw,
                line@ == text@,
                1 <= s,
                0 <= bw,
                0 <= bh,
                bw * bh * 4 <= buf@.len(),
                pixels::quad(px) == (color[0], color[1], color[2], 255u8),
                pixels::painted(
                    before,
                    buf@,
                    bw as int,
                    bh as int,
                    |qx: int, qy: int, p: Quad|
                        if ((qx - x) / (s as int) < k || ((qx - x) / (s as int) == k && (qy - y)
                            / (s as int) < row)) && scaled_covers(
                            text@,
                            s as int,
                            qx - x,
                            qy - y,
                        ) {
                            (color[0], color[1], color[2], 255u8)
                        } else {
                            p
                        },
                ),
            decreases 7 - row,
        {
            proof {
                lemma_cell(s as int, k as int);
                lemma_cell(s as int, row as int);
                assert(0 <= row * s <= 7 * s && 0 <= k * s) by (nonlinear_arith)
                    requires
                        0 <= row <= 7,
                        0 <= k,
                        1 <= s,
                ;
            }
            if has_cell(line[(k / 6) as usize], (k % 6) as usize, row as usize) {
                let top: i64 = y as i64 + row as i64 * s as i64;
                let (right, bottom): (i64, i64) = (pen + s as i64, top + s as i64);
                pixels::fill_far(buf, bw, bh, pen, right, top, bottom, px);
            }
            row += 1;
        }
        assert((k + 1) * s == k * s + s) by (nonlinear_arith);
        assert(k <= k * s) by (nonlinear_arith)
            requires
                0 <= k,
                1 <= s,
        ;
        pen += s as i64;
        k += 1;
    }
    assert forall|qx: int, qy: int|
        0 <= qx < bw && #[trigger] scaled_covers(text@, s as int, qx - x, qy - y) implies (qx - x)
        / (s as int) < k by {
        let d = qx - x;
        if pen >= bw && d / (s as int) >= k {
            vstd::arithmetic::div_mod::lemma_fundamental_div_mod(d, s as int);
            vstd::arithmetic::div_mod::lemma_mod_bound(d, s as int);
            assert(s * (d / (s as int)) >= k * s) by (nonlinear_arith)
                requires
                    d / (s as int) >= k,
                    1 <= s,
            ;
        }
    }
}

/// In cells of two by two pixels the text is that of [`osd::draw_text`].
pub proof fn double_cells_are_plain_text(line: Seq<char>, dx: int, dy: int)
    ensures
        scaled_covers(line, 2, dx, dy) == osd::text_covers(line, dx, dy),
{
}

/// Side of the menu, in pixels.
pub const DIAMETER: i32 = 660;

/// The sector of the colour ring that a pixel belongs to. The ring reaches from
/// 70 to 130 pixels around the centre, and its eight sectors of equal angle
/// start on the right and go round with the clock. Positions are those of the
/// pixels' midpoints, in half pixels from the centre.
pub open spec fn ring_sector(x: int, y: int) -> Option<int> {
    let mx = 2 * x + 1 - DIAMETER;
    let my = 2 * y + 1 - DIAMETER;
    if !(140 * 140 <= mx * mx + my * my <= 260 * 260) {
        None
    } else if my > 0 {
        Some(
            if mx > 0 {
                if my < mx {
                    0
                } else {
                    1int
                }
            } else if -mx < my {
                2
            } else {
                3
            },
        )
    } else {
        Some(
            if mx < 0 {
                if -my < -mx {
                    4
                } else {
                    5int
                }
            } else if mx < -my {
                6
            } else {
                7
            },
        )
    }
}

fn annulus_sector(x: i32, y: i32) -> (r: Option<usize>)
    requires
        -1 <= x <= DIAMETER,
        -1 <= y <= DIAMETER,
    ensures
        match r {
            Some(s) => ring_sector(x as int, y as int) == Some(s as int) && s < RING,
            None => ring_sector(x as int, y as int) is None,
        },
{
    let mx: i32 = 2 * x + 1 - DIAMETER;
    let my: i32 = 2 * y + 1 - DIAMETER;
    assert(0 <= mx * mx <= 0x7000 * 0x7000 && 0 <= my * my <= 0x7000 * 0x7000)
        by (nonlinear_arith)
        requires
            -0x7000 <= mx <= 0x7000,
            -0x7000 <= my <= 0x7000,
    ;
    let r2: i32 = mx * mx + my * my;
    if r2 < 19600 || r2 > 67600 {
        None
    } else if my > 0 {
        Some(
            if mx > 0 {
                if my < mx {
                    0
                } else {
                    1
                }
            } else if -mx < my {
                2
            } else {
                3
            },
        )
    } else {
        Some(
            if mx < 0 {
                if -my < -mx {
                    4
                } else {
                    5
                }
            } else if mx < -my {
                6
            } else {
                7
            },
        )
    }
}

/// Whether a pixel of a sector has a neighbour outside it.
pub open spec fn on_sector_edge(s: int, x: int, y: int) -> bool {
    ||| ring_sector(x, y + 1) != Some(s)
    ||| ring_sector(x, y - 1) != Some(s)
    ||| ring_sector(x + 1, y) != Some(s)
    ||| ring_sector(x - 1, y) != Some(s)
}

/// A pixel of the colour ring: its sector's colour, brighter and with a white
/// rim if the sector is hovered.
pub open spec fn ring_px(hovered: Option<int>, x: int, y: int, p: Quad) -> Quad {
    match ring_sector(x, y) {
        None => p,
        Some(s) => {
            let c = if hovered == Some(s) {
                if on_sector_edge(s, x, y) {
                    [255, 255, 255]
                } else {
                    brighter(ring_color(s), 70)
                }
            } else {
                ring_color(s)
            };
            (c[0], c[1], c[2], 255)
        },
    }
}

/// A quarter turn of the menu takes every sector to the next but one.
pub proof fn ring_turns_onto_itself(x: int, y: int)
    ensures
        ring_sector(DIAMETER - 1 - y, x) == (match ring_sector(x, y) {
            Some(s) => Some((s + 2) % 8),
            None => None,
        }),
{
    let mx = 2 * x + 1 - DIAMETER;
    let my = 2 * y + 1 - DIAMETER;
    let tx = 2 * (DIAMETER - 1 - y) + 1 - DIAMETER;
    assert(tx == -my);
    assert(tx * tx == my * my) by (nonlinear_arith)
        requires
            tx == -my,
    ;
}

proof fn lemma_ring_extent(x: int, y: int)
    ensures
        ring_sector(x, y) is Some ==> 200 <= x < 460 && 200 <= y < 460,
{
    let mx = 2 * x + 1 - DIAMETER;
    let my = 2 * y + 1 - DIAMETER;
    assert(0 <= mx * mx && 0 <= my * my && (mx >= 261 || mx <= -261 ==> mx * mx > 67600) && (my
        >= 261 || my <= -261 ==> my * my > 67600)) by (nonlinear_arith);
}

fn ring_pixel(hovered: Option<usize>, x: i32, y: i32) -> (r: Option<[u8; 4]>)
    requires
        0 <= x < DIAMETER,
        0 <= y < DIAMETER,
    ensures
        match r {
            Some(px) => forall|p: Quad| #[trigger]
                ring_px(at(hovered), x as int, y as int, p) == pixels::quad(px),
            None => ring_sector(x as int, y as int) is None,
        },
{
    match annulus_sector(x, y) {
        None => None,
        Some(s) => {
            let lit: bool = match hovered {
                Some(h) => h == s,
                None => false,
            };
            let c: [u8; 3] = if lit {
                if differs(x, y + 1, s) || differs(x, y - 1, s) || differs(x + 1, y, s) || differs(
                    x - 1,
                    y,
                    s,
                ) {
                    [255, 255, 255]
                } else {
                    brighten(color_button(s), 70)
                }
            } else {
                color_button(s)
            };
            Some([c[0], c[1], c[2], 255])
        },
    }
}

fn differs(x: i32, y: i32, s: usize) -> (r: bool)
    requires
        -1 <= x <= DIAMETER,
        -1 <= y <= DIAMETER,
    ensures
        r == (ring_sector(x as int, y as int) != Some(s as int)),
{
    match annulus_sector(x, y) {
        Some(t) => t != s,
        None => true,
    }
}

/// The index of a button as a number.
pub open spec fn at(button: Option<usize>) -> Option<int> {
    match button {
        Some(i) => Some(i as int),
        None => None,
    }
}

/// Draws the colour ring onto a canvas of the menu's size.
fn draw_color_annulus(buf: &mut [u8], hovered: Option<usize>)
    requires
        DIAMETER * DIAMETER * 4 <= old(buf)@.len(),
    ensures
        pixels::painted(
            old(buf)@,
            final(buf)@,
            DIAMETER as int,
            DIAMETER as int,
            |x: int, y: int, p: Quad| ring_px(at(hovered), x, y, p),
        ),
{
    let ghost before = buf@;
    proof {
        assert forall|qx: int, qy: int| (#[trigger] ring_sector(qx, qy)) is Some implies 200 <= qx
            < 460 && 200 <= qy < 460 by {
            lemma_ring_extent(qx, qy);
        }
    }
    let mut y: i32 = 200;
    while y < 460
        invariant
            200 <= y <= 460,
            forall|qx: int, qy: int|
                (#[trigger] ring_sector(qx, qy)) is Some ==> 200 <= qx < 460 && 200 <= qy < 460,
            660 * 660 * 4 <= buf@.len(),
            pixels::painted(
                before,
                buf@,
                660,
                660,
                |qx: int, qy: int, p: Quad| if qy < y { ring_px(at(hovered), qx, qy, p) } else { p },
            ),
        decreases 460 - y,
    {
        let mut x: i32 = 200;
        while x < 460
            invariant
                200 <= y < 460,
                200 <= x <= 460,
                forall|qx: int, qy: int|
                    (#[trigger] ring_sector(qx, qy)) is Some ==> 200 <= qx < 460 && 200 <= qy < 460,
                660 * 660 * 4 <= buf@.len(),
                pixels::painted(
                    before,
                    buf@,
                    660,
                    660,
                    |qx: int, qy: int, p: Quad|
                        if qy < y || (qy == y && qx < x) {
                            ring_px(at(hovered), qx, qy, p)
                        } else {
                            p
                        },
                ),
            decreases 460 - x,
        {
            if let Some(px) = ring_pixel(hovered, x, y) {
                pixels::put_px(buf, 660, 660, x as usize, y as usize, px);
            }
            x += 1;
        }
        y += 1;
    }
}

/// Side of a tool button.
pub const BUTTON: i32 = 100;

/// Radius of a tool button's corners.
pub const BUTTON_CORNER: i32 = 16;

/// Width of the rim of a hovered button, and how far it reaches outside.
pub const RIM: i32 = 3;

/// The top left corner of a tool button. The buttons stand around the centre,
/// the first at the top, the others going round with the clock.
pub open spec fn button_corner(i: int) -> (int, int) {
    if i == 0 {
        (280, 60)
    } else if i == 1 {
        (436, 124)
    } else if i == 2 {
        (500, 280)
    } else if i == 3 {
        (436, 436)
    } else if i == 4 {
        (280, 500)
    } else if i == 5 {
        (124, 436)
    } else if i == 6 {
        (60, 280)
    } else {
        (124, 124)
    }
}

fn corner_of(i: usize) -> (r: (i32, i32))
    ensures
        (r.0 as int, r.1 as int) == button_corner(i as int),
{
    match i {
        0 => (280, 60),
        1 => (436, 124),
        2 => (500, 280),
        3 => (436, 436),
        4 => (280, 500),
        5 => (124, 436),
        6 => (60, 280),
        _ => (124, 124),
    }
}

/// The pixel at the middle of a tool button.
pub open spec fn button_middle(i: int) -> (int, int) {
    if i == 0 {
        (330, 110)
    } else if i == 1 {
        (485, 174)
    } else if i == 2 {
        (550, 330)
    } else if i == 3 {
        (485, 485)
    } else if i == 4 {
        (330, 550)
    } else if i == 5 {
        (174, 485)
    } else if i == 6 {
        (110, 330)
    } else {
        (174, 174)
    }
}

fn middle_of(i: usize) -> (r: (i32, i32))
    ensures
        (r.0 as int, r.1 as int) == button_middle(i as int),
        0 <= r.0 <= 660,
        0 <= r.1 <= 660,
{
    match i {
        0 => (330, 110),
        1 => (485, 174),
        2 => (550, 330),
        3 => (485, 485),
        4 => (330, 550),
        5 => (174, 485),
        6 => (110, 330),
        _ => (174, 174),
    }
}

/// The icons of the tool buttons: one place for each, and what is there fits a
/// button.
pub open spec fn icons_fit(icons: Seq<Option<RgbaBuffer>>) -> bool {
    &&& icons.len() == RING
    &&& forall|i: int|
        0 <= i < RING ==> match #[trigger] icons[i] {
            Some(icon) => icon.wf() && icon.width <= BUTTON && icon.height <= BUTTON,
            None => true,
        }
}

/// The background of a tool button.
pub open spec fn button_color(active: bool, lit: bool) -> [u8; 3] {
    let c: [u8; 3] = if active {
        [60, 80, 130]
    } else {
        [40, 40, 45]
    };
    if lit {
        brighter(c, 80)
    } else {
        c
    }
}

/// How a tool button changes a pixel: its background, a white rim if it is
/// hovered, and its icon in the middle. `rim` is how much of the rim covers
/// each pixel of the button and of the three pixels around it.
pub open spec fn button_px(
    i: int,
    active: bool,
    lit: bool,
    icon: Option<RgbaBuffer>,
    rim: Seq<u8>,
    x: int,
    y: int,
    p: Quad,
) -> Quad {
    let (bx, by) = button_corner(i);
    let based = if in_rounded(x - bx, y - by, BUTTON as int, BUTTON as int, BUTTON_CORNER as int) {
        blend::blended(
            p,
            button_color(active, lit),
            if lit {
                255
            } else {
                220
            },
        )
    } else {
        p
    };
    let rimmed = if lit && pixels::inside(106, 106, x - (bx - RIM), y - (by - RIM)) {
        blend::blended(based, [255, 255, 255], rim[(y - (by - RIM)) * 106 + (x - (bx - RIM))])
    } else {
        based
    };
    match icon {
        Some(m) => {
            let ix = bx + (BUTTON - m.width) / 2;
            let iy = by + (BUTTON - m.height) / 2;
            if m.has(x - ix, y - iy) {
                blend::over(blend::Over::Straight, rimmed, m.at(x - ix, y - iy))
            } else {
                rimmed
            }
        },
        None => rimmed,
    }
}

/// Draws one tool button onto a canvas of the menu's size.
fn draw_tool_button(
    buf: &mut [u8],
    i: usize,
    active: bool,
    lit: bool,
    icon: &Option<RgbaBuffer>,
    rim: &[u8],
)
    requires
        DIAMETER * DIAMETER * 4 <= old(buf)@.len(),
        rim@.len() == 106 * 106,
        match icon {
            Some(m) => m.wf() && m.width <= BUTTON && m.height <= BUTTON,
            None => true,
        },
    ensures
        pixels::painted(
            old(buf)@,
            final(buf)@,
            DIAMETER as int,
            DIAMETER as int,
            |x: int, y: int, p: Quad| button_px(i as int, active, lit, *icon, rim@, x, y, p),
        ),
{
    let (x0, y0): (i32, i32) = corner_of(i);
    let base: [u8; 3] = if active {
        [60, 80, 130]
    } else {
        [40, 40, 45]
    };
    let c: [u8; 3] = if lit {
        brighten(base, 80)
    } else {
        base
    };
    let alpha: u8 = if lit {
        255
    } else {
        220
    };
    assert([c[0], c[1], c[2]] == c) by {
        assert([c[0], c[1], c[2]]@ =~= c@);
    }
    fill_rounded_rect(
        buf,
        DIAMETER,
        DIAMETER,
        x0,
        y0,
        BUTTON,
        BUTTON,
        BUTTON_CORNER,
        [c[0], c[1], c[2], alpha],
    );
    if lit {
        blend::blend_mask(
            buf,
            DIAMETER,
            DIAMETER,
            rim,
            106,
            106,
            x0 - RIM,
            y0 - RIM,
            [255, 255, 255],
        );
    }
    if let Some(m) = icon {
        let ix: i32 = x0 + (BUTTON - m.width) / 2;
        let iy: i32 = y0 + (BUTTON - m.height) / 2;
        blend::put_over(
            buf,
            660,
            660,
            m.data.as_slice(),
            m.width,
            m.height,
            ix,
            iy,
            blend::Over::Straight,
        );
    }
}

/// How the first `n` tool buttons change a pixel.
pub open spec fn buttons_px(
    n: int,
    tool: DrawTool,
    hovered: Option<int>,
    icons: Seq<Option<RgbaBuffer>>,
    rim: Seq<u8>,
    x: int,
    y: int,
    p: Quad,
) -> Quad
    decreases n,
{
    if n <= 0 {
        p
    } else {
        button_px(
            n - 1,
            ring_tool(n - 1) == tool,
            hovered == Some(RING + n - 1),
            icons[n - 1],
            rim,
            x,
            y,
            buttons_px(n - 1, tool, hovered, icons, rim, x, y, p),
        )
    }
}

/// How the tooltip of a tool button changes a pixel: white text on a dark pill
/// above the button.
pub open spec fn tooltip_px(i: int, x: int, y: int, p: Quad) -> Quad {
    let label = ring_tool(i).long_name();
    let tx = button_middle(i).0 - 12 * label.len();
    let ty = button_middle(i).1 - 106;
    if scaled_covers(label, 4, x - tx, y - ty) {
        (255, 255, 255, 255)
    } else if in_rounded(x - (tx - 12), y - (ty - 8), 24 * (label.len() as int) + 24, 48, 10) {
        blend::blended(p, [30, 30, 35], 220)
    } else {
        p
    }
}

proof fn lemma_names_are_short(tool: DrawTool)
    ensures
        tool.long_name().len() <= 9,
{
    reveal_strlit("Select");
    reveal_strlit("Draw");
    reveal_strlit("Erase");
    reveal_strlit("Line");
    reveal_strlit("Rectangle");
    reveal_strlit("Arrow");
    reveal_strlit("Circle");
    reveal_strlit("Number");
}

fn draw_tooltip(buf: &mut [u8], i: usize)
    requires
        DIAMETER * DIAMETER * 4 <= old(buf)@.len(),
    ensures
        pixels::painted(
            old(buf)@,
            final(buf)@,
            DIAMETER as int,
            DIAMETER as int,
            |x: int, y: int, p: Quad| tooltip_px(i as int, x, y, p),
        ),
{
    let label: &'static str = tool_button(i).label_long();
    proof {
        lemma_names_are_short(ring_tool(i as int));
    }
    let n: usize = label.unicode_len();
    let lw: i32 = n as i32 * 24;
    let (bx, by): (i32, i32) = middle_of(i);
    let tx: i32 = bx - lw / 2;
    let ty: i32 = by - 106;
    assert(tx == bx - 12 * n);
    let pill: [u8; 4] = [30, 30, 35, 220];
    assert([pill[0], pill[1], pill[2]]@ =~= [30u8, 30u8, 35u8]@);
    fill_rounded_rect(buf, DIAMETER, DIAMETER, tx - 12, ty - 8, lw + 24, 48, 10, pill);
    draw_text_scaled(buf, DIAMETER, DIAMETER, tx, ty, label, [255, 255, 255], 4);
}

/// A pixel of the pie menu.
pub open spec fn pie_px(
    tool: DrawTool,
    hovered: Option<int>,
    tooltip: bool,
    icons: Seq<Option<RgbaBuffer>>,
    rim: Seq<u8>,
    x: int,
    y: int,
) -> Quad {
    let drawn = buttons_px(
        RING as int,
        tool,
        hovered,
        icons,
        rim,
        x,
        y,
        ring_px(hovered, x, y, (0, 0, 0, 0)),
    );
    if tooltip && hovered is Some && RING <= hovered->0 < 2 * RING {
        tooltip_px(hovered->0 - RING, x, y, drawn)
    } else {
        drawn
    }
}

/// Whether a sprite is the pie menu.
pub open spec fn shows_pie(
    sprite: OsdSprite,
    tool: DrawTool,
    hovered: Option<usize>,
    tooltip: bool,
    icons: Seq<Option<RgbaBuffer>>,
    rim: Seq<u8>,
) -> bool {
    &&& sprite.x == 0
    &&& sprite.y == 0
    &&& sprite.width == DIAMETER
    &&& sprite.height == DIAMETER
    &&& sprite.buffer.wf()
    &&& sprite.buffer.width == DIAMETER
    &&& sprite.buffer.height == DIAMETER
    &&& forall|x: int, y: int|
        sprite.buffer.has(x, y) ==> #[trigger] sprite.buffer.at(x, y) == pie_px(
            tool,
            at(hovered),
            tooltip,
            icons,
            rim,
            x,
            y,
        )
}

/// Draws the pie menu: the colour ring, the tool buttons and, for a hovered
/// tool, its tooltip.
pub fn render_pie_menu(
    tool: DrawTool,
    hovered: Option<usize>,
    tooltip: bool,
    icons: &Vec<Option<RgbaBuffer>>,
    rim: &Vec<u8>,
) -> (r: OsdSprite)
    requires
        icons_fit(icons@),
        rim@.len() == 106 * 106,
    ensures
        shows_pie(r, tool, hovered, tooltip, icons@, rim@),
{
    let mut buffer: RgbaBuffer = RgbaBuffer::new(DIAMETER, DIAMETER);
    let ghost blank = buffer.data@;
    assert(forall|x: int, y: int|
        pixels::inside(660, 660, x, y) ==> #[trigger] pixels::px_at(blank, 660, x, y) == (
            0u8,
            0u8,
            0u8,
            0u8,
        )) by {
        assert forall|x: int, y: int| pixels::inside(660, 660, x, y) implies #[trigger]
            pixels::px_at(blank, 660, x, y) == (0u8, 0u8, 0u8, 0u8) by {
            assert(buffer.has(x, y));
            assert(buffer.at(x, y) == (0u8, 0u8, 0u8, 0u8));
        }
    }
    draw_color_annulus(buffer.data.as_mut_slice(), hovered);
    let mut i: usize = 0;
    while i < RING
        invariant
            i <= RING,
            icons_fit(icons@),
            rim@.len() == 106 * 106,
            buffer.width == DIAMETER,
            buffer.height == DIAMETER,
            buffer.data@.len() == 660 * 660 * 4,
            pixels::painted(
                blank,
                buffer.data@,
                660,
                660,
                |x: int, y: int, p: Quad|
                    buttons_px(
                        i as int,
                        tool,
                        at(hovered),
                        icons@,
                        rim@,
                        x,
                        y,
                        ring_px(at(hovered), x, y, p),
                    ),
            ),
        decreases RING - i,
    {
        let active: bool = tool_button(i) == tool;
        let lit: bool = match hovered {
            Some(h) => h == RING + i,
            None => false,
        };
        draw_tool_button(
            buffer.data.as_mut_slice(),
            i,
            active,
            lit,
            &icons[i],
            rim.as_slice(),
        );
        i += 1;
    }
    if tooltip {
        if let Some(h) = hovered {
            if RING <= h && h < 16 {
                draw_tooltip(buffer.data.as_mut_slice(), h - RING);
            }
        }
    }
    let r = OsdSprite { buffer, x: 0, y: 0, width: DIAMETER, height: DIAMETER };
    proof {
        assert forall|x: int, y: int| r.buffer.has(x, y) implies #[trigger] r.buffer.at(x, y)
            == pie_px(tool, at(hovered), tooltip, icons@, rim@, x, y) by {
            assert(pixels::px_at(blank, 660, x, y) == (0u8, 0u8, 0u8, 0u8));
            assert(r.buffer.at(x, y) == pixels::px_at(r.buffer.data@, 660, x, y));
        }
    }
    r
}

/// Tints an icon: every pixel that is not fully transparent takes the colour
/// and keeps its opacity.
pub fn tint_icon(icon: &mut RgbaBuffer, color: [u8; 3])
    requires
        old(icon).wf(),
    ensures
        final(icon).wf(),
        final(icon).width == old(icon).width,
        final(icon).height == old(icon).height,
        pixels::painted(
            old(icon).data@,
            final(icon).data@,
            old(icon).width as int,
            old(icon).height as int,
            |x: int, y: int, p: Quad| tinted(color, p),
        ),
{
    let w: usize = icon.width as usize;
    let h: usize = icon.height as usize;
    let ghost before = icon.data@;
    let mut y: usize = 0;
    while y < h
        invariant
            y <= h,
            w == icon.width,
            h == icon.height,
            icon.wf(),
            w == old(icon).width,
            h == old(icon).height,
            pixels::painted(
                before,
                icon.data@,
                w as int,
                h as int,
                |qx: int, qy: int, p: Quad|
                    if qy < y && p.3 > 0 {
                        (color[0], color[1], color[2], p.3)
                    } else {
                        p
                    },
            ),
        decreases h - y,
    {
        let mut x: usize = 0;
        while x < w
            invariant
                y < h,
                x <= w,
                w == icon.width,
                h == icon.height,
                icon.wf(),
                w == old(icon).width,
                h == old(icon).height,
                pixels::painted(
                    before,
                    icon.data@,
                    w as int,
                    h as int,
                    |qx: int, qy: int, p: Quad|
                        if (qy < y || (qy == y && qx < x)) && p.3 > 0 {
                            (color[0], color[1], color[2], p.3)
                        } else {
                            p
                        },
                ),
            decreases w - x,
        {
            let p: [u8; 4] = pixels::get_px(icon.data.as_slice(), w, h, x, y);
            if p[3] > 0 {
                pixels::put_px(
                    icon.data.as_mut_slice(),
                    w,
                    h,
                    x,
                    y,
                    [color[0], color[1], color[2], p[3]],
                );
            }
            x += 1;
        }
        y += 1;
    }
}

/// The SVG of the icon of a tool button. An icon is 24 by 24 units large.
pub open spec fn icon_svg(i: usize) -> Seq<char> {
    match i {
        0 => "<svg xmlns='http://www.w3.org/2000/svg' width='24' height='24' fill='none' stroke='black' stroke-width='2'><path d='M4 4l7 17 2.5-7.5L21 11z'/></svg>"@,
        1 => "<svg xmlns='http://www.w3.org/2000/svg' width='24' height='24' fill='none' stroke='black' stroke-width='2'><path d='M17 3l4 4L8 20l-5 1 1-5z'/></svg>"@,
        2 => "<svg xmlns='http://www.w3.org/2000/svg' width='24' height='24' fill='none' stroke='black' stroke-width='2'><path d='M7 21l-4-4L14 6l6 6-9 9zM7 21h14'/></svg>"@,
        3 => "<svg xmlns='http://www.w3.org/2000/svg' width='24' height='24' fill='none' stroke='black' stroke-width='2'><path d='M5 12h14'/></svg>"@,
        4 => "<svg xmlns='http://www.w3.org/2000/svg' width='24' height='24' fill='none' stroke='black' stroke-width='2'><path d='M4 4h16v16H4z'/></svg>"@,
        5 => "<svg xmlns='http://www.w3.org/2000/svg' width='24' height='24' fill='none' stroke='black' stroke-width='2'><path d='M7 17L17 7M8 7h9v9'/></svg>"@,
        6 => "<svg xmlns='http://www.w3.org/2000/svg' width='24' height='24' fill='none' stroke='black' stroke-width='2'><path d='M12 3a9 9 0 1 0 0.01 0z'/></svg>"@,
        _ => "<svg xmlns='http://www.w3.org/2000/svg' width='24' height='24' fill='none' stroke='black' stroke-width='2'><path d='M4 9h16M4 15h16M10 3L8 21M16 3l-2 18'/></svg>"@,
    }
}

pub fn icon_source(i: usize) -> (r: &'static str)
    ensures
        r@ == icon_svg(i),
        is_icon(encode_utf8(r@)),
{
    proof {
        let k: usize = if i < RING { i } else { 7 };
        assert(icon_svg(k) == icon_svg(i));
    }
    match i {
        0 => "<svg xmlns='http://www.w3.org/2000/svg' width='24' height='24' fill='none' stroke='black' stroke-width='2'><path d='M4 4l7 17 2.5-7.5L21 11z'/></svg>",
        1 => "<svg xmlns='http://www.w3.org/2000/svg' width='24' height='24' fill='none' stroke='black' stroke-width='2'><path d='M17 3l4 4L8 20l-5 1 1-5z'/></svg>",
        2 => "<svg xmlns='http://www.w3.org/2000/svg' width='24' height='24' fill='none' stroke='black' stroke-width='2'><path d='M7 21l-4-4L14 6l6 6-9 9zM7 21h14'/></svg>",
        3 => "<svg xmlns='http://www.w3.org/2000/svg' width='24' height='24' fill='none' stroke='black' stroke-width='2'><path d='M5 12h14'/></svg>",
        4 => "<svg xmlns='http://www.w3.org/2000/svg' width='24' height='24' fill='none' stroke='black' stroke-width='2'><path d='M4 4h16v16H4z'/></svg>",
        5 => "<svg xmlns='http://www.w3.org/2000/svg' width='24' height='24' fill='none' stroke='black' stroke-width='2'><path d='M7 17L17 7M8 7h9v9'/></svg>",
        6 => "<svg xmlns='http://www.w3.org/2000/svg' width='24' height='24' fill='none' stroke='black' stroke-width='2'><path d='M12 3a9 9 0 1 0 0.01 0z'/></svg>",
        _ => "<svg xmlns='http://www.w3.org/2000/svg' width='24' height='24' fill='none' stroke='black' stroke-width='2'><path d='M4 9h16M4 15h16M10 3L8 21M16 3l-2 18'/></svg>",
    }
}

/// Whether bytes are the SVG of one of the icons.
pub open spec fn is_icon(svg: Seq<u8>) -> bool {
    exists|i: usize| i < RING && svg == encode_utf8(#[trigger] icon_svg(i))
}

/// How many pixels a unit of an icon has on each side.
pub const ICON_SCALE: u16 = 4;

/// Side of a drawn icon, in pixels.
pub const ICON_SIDE: u32 = 96;

/// Whether `resvg` may draw an SVG as these bytes: `times` as large as it says,
/// onto `w` by `h` pixels.
pub uninterp spec fn svg_may_draw(
    svg: Seq<u8>,
    times: u16,
    w: u32,
    h: u32,
    data: Seq<u8>,
) -> bool;

/// Draws an SVG, `times` as large as it says, onto `w` by `h` pixels: reads it
/// with `resvg::usvg::Tree::from_data`, makes a `tiny_skia::Pixmap`, and calls
/// `resvg::render`. Claimed is that each icon of the library can be read and
/// drawn at its scale, and that there are four bytes a pixel. Other documents are
/// left out: on some of them the reader panics.
///
/// Two calls may draw an icon differently: its curves go through sines and
/// cosines, whose last digits depend on the machine. So the bytes are those of
/// some drawing, and no more is said of them.
#[verifier::external_body]
fn render_svg(svg: &[u8], times: u16, w: u32, h: u32) -> (r: Option<Vec<u8>>)
    requires
        is_icon(svg@),
        times == ICON_SCALE,
        w == ICON_SIDE,
        h == ICON_SIDE,
    ensures
        r is Some,
        r->0@.len() == w * h * 4,
        svg_may_draw(svg@, times, w, h, r->0@),
{
    let tree = resvg::usvg::Tree::from_data(svg, &resvg::usvg::Options::default()).ok()?;
    let mut pixmap = resvg::tiny_skia::Pixmap::new(w, h)?;
    let scale = resvg::tiny_skia::Transform::from_scale(times.into(), times.into());
    resvg::render(&tree, scale, &mut pixmap.as_mut());
    Some(pixmap.take())
}

/// A pixel of an icon: of one colour, as opaque as it was drawn.
pub open spec fn tinted(color: [u8; 3], p: Quad) -> Quad {
    if p.3 > 0 {
        (color[0], color[1], color[2], p.3)
    } else {
        p
    }
}

/// The icon that drawn bytes make.
pub fn icon_from(data: Vec<u8>, w: i32, h: i32, color: [u8; 3]) -> (r: RgbaBuffer)
    requires
        0 <= w,
        0 <= h,
        data@.len() == w * h * 4,
        w * h * 4 <= i32::MAX,
    ensures
        r.wf(),
        r.width == w,
        r.height == h,
        pixels::painted(
            data@,
            r.data@,
            w as int,
            h as int,
            |x: int, y: int, p: Quad| tinted(color, p),
        ),
{
    let mut icon = RgbaBuffer { width: w, height: h, data };
    tint_icon(&mut icon, color);
    icon
}

/// Draws an icon of the library in one colour, [`ICON_SIDE`] pixels wide and
/// high.
pub fn load_svg_icon(svg: &[u8], color: [u8; 3]) -> (r: Option<RgbaBuffer>)
    requires
        is_icon(svg@),
    ensures
        r is Some,
        r->0.wf(),
        r->0.width == ICON_SIDE,
        r->0.height == ICON_SIDE,
        exists|data: Seq<u8>| #[trigger]
            svg_may_draw(svg@, ICON_SCALE, ICON_SIDE, ICON_SIDE, data) && pixels::painted(
                data,
                r->0.data@,
                ICON_SIDE as int,
                ICON_SIDE as int,
                |x: int, y: int, p: Quad| tinted(color, p),
            ),
{
    match render_svg(svg, ICON_SCALE, ICON_SIDE, ICON_SIDE) {
        Some(data) => {
            let ghost drawn = data@;
            let icon: RgbaBuffer = icon_from(data, ICON_SIDE as i32, ICON_SIDE as i32, color);
            assert(svg_may_draw(svg@, ICON_SCALE, ICON_SIDE, ICON_SIDE, drawn));
            Some(icon)
        },
        None => None,
    }
}

/// What the buttons of the menu do and what they are called: eight colours and
/// eight tools. Beyond them there is no button.
pub proof fn buttons_do_what_they_are_called(i: int)
    ensures
        i == 0 ==> button_action(i) == Some(PieAction::Color([255u8, 0u8, 0u8])) && long_label(i) == Some(
            "Red"@,
        ) && short_label(i) == Some("Red"@),
        i == 1 ==> button_action(i) == Some(PieAction::Color([255u8, 140u8, 0u8])) && long_label(i) == Some(
            "Orange"@,
        ) && short_label(i) == Some("Org"@),
        i == 2 ==> button_action(i) == Some(PieAction::Color([255u8, 255u8, 0u8])) && long_label(i) == Some(
            "Yellow"@,
        ) && short_label(i) == Some("Yel"@),
        i == 3 ==> button_action(i) == Some(PieAction::Color([0u8, 200u8, 0u8])) && long_label(i) == Some(
            "Green"@,
        ) && short_label(i) == Some("Grn"@),
        i == 4 ==> button_action(i) == Some(PieAction::Color([0u8, 150u8, 255u8])) && long_label(i) == Some(
            "Blue"@,
        ) && short_label(i) == Some("Blu"@),
        i == 5 ==> button_action(i) == Some(PieAction::Color([140u8, 0u8, 255u8])) && long_label(i) == Some(
            "Purple"@,
        ) && short_label(i) == Some("Pur"@),
        i == 6 ==> button_action(i) == Some(PieAction::Color([255u8, 255u8, 255u8])) && long_label(i) == Some(
            "White"@,
        ) && short_label(i) == Some("Wht"@),
        i == 7 ==> button_action(i) == Some(PieAction::Color([0u8, 0u8, 0u8])) && long_label(i) == Some(
            "Black"@,
        ) && short_label(i) == Some("Blk"@),
        i == 8 ==> button_action(i) == Some(PieAction::Tool(DrawTool::Select)) && long_label(i)
            == Some("Select"@) && short_label(i) == Some("Sel"@),
        i == 9 ==> button_action(i) == Some(PieAction::Tool(DrawTool::Freehand)) && long_label(i)
            == Some("Draw"@) && short_label(i) == Some("Pen"@),
        i == 10 ==> button_action(i) == Some(PieAction::Tool(DrawTool::Erase)) && long_label(i)
            == Some("Erase"@) && short_label(i) == Some("Ers"@),
        i == 11 ==> button_action(i) == Some(PieAction::Tool(DrawTool::Line)) && long_label(i)
            == Some("Line"@) && short_label(i) == Some("Line"@),
        i == 12 ==> button_action(i) == Some(PieAction::Tool(DrawTool::Box)) && long_label(i)
            == Some("Rectangle"@) && short_label(i) == Some("Box"@),
        i == 13 ==> button_action(i) == Some(PieAction::Tool(DrawTool::Arrow)) && long_label(i)
            == Some("Arrow"@) && short_label(i) == Some("Arr"@),
        i == 14 ==> button_action(i) == Some(PieAction::Tool(DrawTool::Circle)) && long_label(i)
            == Some("Circle"@) && short_label(i) == Some("Cir"@),
        i == 15 ==> button_action(i) == Some(PieAction::Tool(DrawTool::Number)) && long_label(i)
            == Some("Number"@) && short_label(i) == Some("#"@),
        i < 0 || i >= 16 ==> button_action(i) is None && long_label(i) is None && short_label(i)
            is None,
{
}

/// Brightening raises every channel by the same amount, as far as there is room.
pub proof fn brightening_raises_every_channel(c: [u8; 3], amount: u8, k: int)
    requires
        0 <= k < 3,
    ensures
        c[k] + amount <= 255 ==> brighter(c, amount)[k] == c[k] + amount,
        c[k] + amount > 255 ==> brighter(c, amount)[k] == 255,
{
}

/// A rounded rectangle is the rectangle without its corners: near a corner it
/// ends at the circle around that corner's centre, elsewhere at its sides.
pub proof fn rounding_cuts_only_the_corners(lx: int, ly: int, rw: int, rh: int, cr: int)
    requires
        0 <= cr,
        2 * cr < rw,
        2 * cr < rh,
    ensures
        in_rounded(lx, ly, rw, rh, cr) ==> 0 <= lx < rw && 0 <= ly < rh,
        0 <= lx < rw && cr <= ly < rh - cr ==> in_rounded(lx, ly, rw, rh, cr),
        cr <= lx < rw - cr && 0 <= ly < rh ==> in_rounded(lx, ly, rw, rh, cr),
        0 <= lx < cr && 0 <= ly < cr ==> in_rounded(lx, ly, rw, rh, cr) == ((cr - lx) * (cr - lx) + (
        cr - ly) * (cr - ly) <= cr * cr),
{
    if 0 <= lx < cr && 0 <= ly < cr {
        let near_x = cr - lx;
        let near_y = cr - ly;
        let far_x = rw - 1 - cr - lx;
        let far_y = rh - 1 - cr - ly;
        assert((lx - cr) * (lx - cr) == near_x * near_x) by (nonlinear_arith)
            requires
                near_x == cr - lx,
        ;
        assert((ly - cr) * (ly - cr) == near_y * near_y) by (nonlinear_arith)
            requires
                near_y == cr - ly,
        ;
        assert((lx - (rw - 1 - cr)) * (lx - (rw - 1 - cr)) == far_x * far_x) by (nonlinear_arith)
            requires
                far_x == rw - 1 - cr - lx,
        ;
        assert((ly - (rh - 1 - cr)) * (ly - (rh - 1 - cr)) == far_y * far_y) by (nonlinear_arith)
            requires
                far_y == rh - 1 - cr - ly,
        ;
        assert(near_x * near_x <= far_x * far_x) by (nonlinear_arith)
            requires
                0 <= near_x <= far_x,
        ;
        assert(near_y * near_y <= far_y * far_y) by (nonlinear_arith)
            requires
                0 <= near_y <= far_y,
        ;
    }
}

/// Text in larger cells shows the same characters in the same order: each cell
/// of a character fills a square, and the characters follow each other to the
/// right.
pub proof fn scaled_text_shows_its_characters(
    line: Seq<char>,
    s: int,
    k: int,
    col: int,
    row: int,
    u: int,
    v: int,
)
    requires
        1 <= s,
        0 <= k < line.len(),
        0 <= col < 6,
        0 <= row < 7,
        0 <= u < s,
        0 <= v < s,
    ensures
        scaled_covers(line, s, (6 * k + col) * s + u, row * s + v) == osd::cell_set(
            line[k],
            col,
            row,
        ),
{
    let dx = (6 * k + col) * s + u;
    let dy = row * s + v;
    assert(0 <= (6 * k + col) * s && 0 <= row * s) by (nonlinear_arith)
        requires
            0 <= k,
            0 <= col,
            0 <= row,
            1 <= s,
    ;
    vstd::arithmetic::div_mod::lemma_fundamental_div_mod_converse(dx, s, 6 * k + col, u);
    vstd::arithmetic::div_mod::lemma_fundamental_div_mod_converse(dy, s, row, v);
    assert((6 * k + col) / 6 == k && (6 * k + col) % 6 == col);
}

/// The buttons stand around the middle of the menu: the first at the top, the
/// second to its right, and a quarter turn takes each to the next but one.
pub proof fn buttons_stand_around_the_middle(i: int)
    requires
        0 <= i < 8,
    ensures
        button_corner(0) == (280int, 60int),
        button_corner(1) == (436int, 124int),
        ({
            let (x, y) = button_corner(i);
            let (mx, my) = button_middle(i);
            &&& button_corner((i + 2) % 8) == (560 - y, x)
            &&& x + 49 <= mx <= x + 50
            &&& y + 49 <= my <= y + 50
        }),
{
}

/// A pixel that a button, its rim and its icon do not reach stays as it is.
proof fn lemma_button_reach(
    i: int,
    active: bool,
    lit: bool,
    icon: Option<RgbaBuffer>,
    rim: Seq<u8>,
    x: int,
    y: int,
    p: Quad,
)
    requires
        icon matches Some(m) ==> m.wf() && m.width <= BUTTON && m.height <= BUTTON,
        ({
            let (bx, by) = button_corner(i);
            !(bx - 3 <= x < bx + 103 && by - 3 <= y < by + 103)
        }),
    ensures
        button_px(i, active, lit, icon, rim, x, y, p) == p,
{
}

/// The colour ring of the menu shows its eight colours, one after the other,
/// with the clock, from the right: each fills an eighth of the ring.
pub proof fn ring_shows_its_colors(
    sprite: OsdSprite,
    tool: DrawTool,
    hovered: Option<usize>,
    icons: Seq<Option<RgbaBuffer>>,
    rim: Seq<u8>,
    x: int,
    y: int,
)
    requires
        shows_pie(sprite, tool, hovered, false, icons, rim),
        icons_fit(icons),
        hovered matches Some(h) ==> h >= 8,
        ({
            let mx = 2 * x - 659;
            let my = 2 * y - 659;
            140 * 140 <= mx * mx + my * my <= 260 * 260
        }),
    ensures
        ({
            let mx = 2 * x - 659;
            let my = 2 * y - 659;
            let p = sprite.buffer.at(x, y);
            &&& sprite.buffer.has(x, y)
            &&& 0 < my < mx ==> p == (255u8, 0u8, 0u8, 255u8)
            &&& 0 < mx <= my ==> p == (255u8, 140u8, 0u8, 255u8)
            &&& mx < 0 < my && -mx < my ==> p == (255u8, 255u8, 0u8, 255u8)
            &&& mx < 0 < my && my <= -mx ==> p == (0u8, 200u8, 0u8, 255u8)
            &&& mx < my < 0 ==> p == (0u8, 150u8, 255u8, 255u8)
            &&& my <= mx < 0 ==> p == (140u8, 0u8, 255u8, 255u8)
            &&& my < 0 < mx && mx < -my ==> p == (255u8, 255u8, 255u8, 255u8)
            &&& my < 0 < mx && -my <= mx ==> p == (0u8, 0u8, 0u8, 255u8)
        }),
{
    lemma_ring_is_bare(tool, at(hovered), icons, rim, x, y);
    lemma_ring_extent(x, y);
    assert(sprite.buffer.has(x, y));
}

/// Where the colour ring is, no button is.
proof fn lemma_ring_is_bare(
    tool: DrawTool,
    hovered: Option<int>,
    icons: Seq<Option<RgbaBuffer>>,
    rim: Seq<u8>,
    x: int,
    y: int,
)
    requires
        icons_fit(icons),
        ring_sector(x, y) is Some,
    ensures
        pie_px(tool, hovered, false, icons, rim, x, y) == ring_px(hovered, x, y, (0, 0, 0, 0)),
{
    lemma_ring_extent(x, y);
    let mx = 2 * x + 1 - DIAMETER;
    let my = 2 * y + 1 - DIAMETER;
    assert((mx >= 207 || mx <= -207) && (my >= 207 || my <= -207) ==> mx * mx + my * my > 67600)
        by (nonlinear_arith);
    let p = ring_px(hovered, x, y, (0, 0, 0, 0));
    lemma_buttons_reach(8, tool, hovered, icons, rim, x, y, p);
}

proof fn lemma_buttons_reach(
    n: int,
    tool: DrawTool,
    hovered: Option<int>,
    icons: Seq<Option<RgbaBuffer>>,
    rim: Seq<u8>,
    x: int,
    y: int,
    p: Quad,
)
    requires
        0 <= n <= 8,
        icons_fit(icons),
        forall|i: int|
            0 <= i < n ==> !((#[trigger] button_corner(i)).0 - 3 <= x < button_corner(i).0 + 103
                && button_corner(i).1 - 3 <= y < button_corner(i).1 + 103),
    ensures
        buttons_px(n, tool, hovered, icons, rim, x, y, p) == p,
    decreases n,
{
    if n > 0 {
        lemma_buttons_reach(n - 1, tool, hovered, icons, rim, x, y, p);
        assert(icons[n - 1] matches Some(m) ==> m.wf());
        let c = button_corner(n - 1);
        lemma_button_reach(
            n - 1,
            ring_tool(n - 1) == tool,
            hovered == Some(RING + n - 1),
            icons[n - 1],
            rim,
            x,
            y,
            p,
        );
    }
}

/// The hovered colour is brighter than the others and has a white edge.
pub proof fn hovered_color_stands_out(
    sprite: OsdSprite,
    tool: DrawTool,
    h: usize,
    icons: Seq<Option<RgbaBuffer>>,
    rim: Seq<u8>,
    x: int,
    y: int,
)
    requires
        shows_pie(sprite, tool, Some(h), false, icons, rim),
        icons_fit(icons),
        h < 8,
        ring_sector(x, y) == Some(h as int),
    ensures
        ({
            let p = sprite.buffer.at(x, y);
            let c = brighter(ring_color(h as int), 70);
            let within = ring_sector(x - 1, y) == Some(h as int) && ring_sector(x + 1, y) == Some(
                h as int,
            ) && ring_sector(x, y - 1) == Some(h as int) && ring_sector(x, y + 1) == Some(h as int);
            &&& within ==> p == (c[0], c[1], c[2], 255u8)
            &&& !within ==> p == (255u8, 255u8, 255u8, 255u8)
        }),
{
    lemma_ring_is_bare(tool, at(Some(h)), icons, rim, x, y);
    lemma_ring_extent(x, y);
    assert(sprite.buffer.has(x, y));
}

/// What the tool buttons before the `i`-th and behind it leave alone: where a
/// button stands, no other reaches.
proof fn lemma_only_its_button(
    n: int,
    i: int,
    tool: DrawTool,
    hovered: Option<int>,
    icons: Seq<Option<RgbaBuffer>>,
    rim: Seq<u8>,
    x: int,
    y: int,
    p: Quad,
)
    requires
        0 <= i < n <= 8,
        icons_fit(icons),
        button_corner(i).0 <= x < button_corner(i).0 + 100,
        button_corner(i).1 <= y < button_corner(i).1 + 100,
    ensures
        buttons_px(n, tool, hovered, icons, rim, x, y, p) == button_px(
            i,
            ring_tool(i) == tool,
            hovered == Some(8 + i),
            icons[i],
            rim,
            x,
            y,
            p,
        ),
    decreases n,
{
    let k = n - 1;
    if k == i {
        assert forall|j: int| 0 <= j < k implies !((#[trigger] button_corner(j)).0 - 3 <= x
            < button_corner(j).0 + 103 && button_corner(j).1 - 3 <= y < button_corner(j).1 + 103) by {}
        lemma_buttons_reach(k, tool, hovered, icons, rim, x, y, p);
    } else {
        lemma_only_its_button(k, i, tool, hovered, icons, rim, x, y, p);
        assert(icons[k] matches Some(m) ==> m.wf());
        lemma_button_reach(
            k,
            ring_tool(k) == tool,
            hovered == Some(RING + k),
            icons[k],
            rim,
            x,
            y,
            button_px(
                i,
                ring_tool(i) == tool,
                hovered == Some(8 + i),
                icons[i],
                rim,
                x,
                y,
                p,
            ),
        );
    }
}

proof fn lemma_no_ring_under_buttons(i: int, x: int, y: int)
    requires
        0 <= i < 8,
        button_corner(i).0 <= x < button_corner(i).0 + 100,
        button_corner(i).1 <= y < button_corner(i).1 + 100,
    ensures
        ring_sector(x, y) is None,
        0 <= x < 660,
        0 <= y < 660,
{
    lemma_ring_extent(x, y);
    let mx = 2 * x + 1 - DIAMETER;
    let my = 2 * y + 1 - DIAMETER;
    assert((mx >= 207 || mx <= -207) && (my >= 207 || my <= -207) ==> mx * mx + my * my > 67600)
        by (nonlinear_arith);
}

/// A tool button is a rounded square in its place: blue for the tool in use, grey
/// for the others, and brighter while it is hovered.
pub proof fn buttons_are_drawn_in_their_place(
    sprite: OsdSprite,
    tool: DrawTool,
    hovered: Option<usize>,
    icons: Seq<Option<RgbaBuffer>>,
    rim: Seq<u8>,
    i: int,
    u: int,
    v: int,
)
    requires
        shows_pie(sprite, tool, hovered, false, icons, rim),
        icons_fit(icons),
        0 <= i < 8,
        icons[i] is None,
        in_rounded(u, v, 100, 100, 16),
    ensures
        ({
            let p = sprite.buffer.at(button_corner(i).0 + u, button_corner(i).1 + v);
            let clear = (0u8, 0u8, 0u8, 0u8);
            let blue = [60u8, 80u8, 130u8];
            let grey = [40u8, 40u8, 45u8];
            &&& at(hovered) != Some(8 + i) && ring_tool(i) == tool ==> p == blend::blended(
                clear,
                blue,
                220,
            )
            &&& at(hovered) != Some(8 + i) && ring_tool(i) != tool ==> p == blend::blended(
                clear,
                grey,
                220,
            )
            &&& at(hovered) == Some(8 + i) && ring_tool(i) == tool ==> p == blend::blended(
                (140u8, 160u8, 210u8, 255u8),
                [255u8, 255u8, 255u8],
                rim[(v + 3) * 106 + u + 3],
            )
            &&& at(hovered) == Some(8 + i) && ring_tool(i) != tool ==> p == blend::blended(
                (120u8, 120u8, 125u8, 255u8),
                [255u8, 255u8, 255u8],
                rim[(v + 3) * 106 + u + 3],
            )
        }),
{
    let x = button_corner(i).0 + u;
    let y = button_corner(i).1 + v;
    let clear = (0u8, 0u8, 0u8, 0u8);
    lemma_no_ring_under_buttons(i, x, y);
    lemma_only_its_button(8, i, tool, at(hovered), icons, rim, x, y, clear);
    assert(sprite.buffer.has(x, y));
    assert((v + 3) * 106 + u + 3 == (v + 3) * 106 + (u + 3));
    let c = button_color(ring_tool(i) == tool, true);
    blend::mixing_extremes(c[0], 0);
    blend::mixing_extremes(c[1], 0);
    blend::mixing_extremes(c[2], 0);
    blend::mixing_extremes(255, 0);
}

/// The icon of a button stands in its middle, and covers it where it is opaque.
pub proof fn icons_stand_in_the_middle_of_their_button(
    sprite: OsdSprite,
    tool: DrawTool,
    hovered: Option<usize>,
    icons: Seq<Option<RgbaBuffer>>,
    rim: Seq<u8>,
    i: int,
    m: RgbaBuffer,
    u: int,
    v: int,
)
    requires
        shows_pie(sprite, tool, hovered, false, icons, rim),
        icons_fit(icons),
        0 <= i < 8,
        icons[i] == Some(m),
        m.has(u, v),
        m.at(u, v).3 == 255,
    ensures
        sprite.buffer.at(
            button_corner(i).0 + (100 - m.width) / 2 + u,
            button_corner(i).1 + (100 - m.height) / 2 + v,
        ) == m.at(u, v),
{
    let x = button_corner(i).0 + (100 - m.width) / 2 + u;
    let y = button_corner(i).1 + (100 - m.height) / 2 + v;
    let clear = (0u8, 0u8, 0u8, 0u8);
    lemma_no_ring_under_buttons(i, x, y);
    lemma_only_its_button(8, i, tool, at(hovered), icons, rim, x, y, clear);
    assert(sprite.buffer.has(x, y));
    let lit = at(hovered) == Some(8 + i);
    let bare = button_px(i, ring_tool(i) == tool, lit, None, rim, x, y, clear);
    blend::images_show_or_let_through(blend::Over::Straight, bare, m.at(u, v));
}

/// The tooltip of a hovered tool shows its name in white, in cells of four by
/// four pixels, centred above its button.
pub proof fn tooltip_names_the_tool(
    sprite: OsdSprite,
    tool: DrawTool,
    h: usize,
    icons: Seq<Option<RgbaBuffer>>,
    rim: Seq<u8>,
    x: int,
    y: int,
)
    requires
        shows_pie(sprite, tool, Some(h), true, icons, rim),
        8 <= h < 16,
        sprite.buffer.has(x, y),
    ensures
        ({
            let name = long_label(h as int)->0;
            let left = button_middle(h - 8).0 - 12 * name.len();
            let top = button_middle(h - 8).1 - 106;
            scaled_covers(name, 4, x - left, y - top) ==> sprite.buffer.at(x, y) == (
                255u8,
                255u8,
                255u8,
                255u8,
            )
        }),
{
}

/// A tinted icon has one colour, and is as opaque everywhere as it was.
pub proof fn tinting_keeps_the_shape(color: [u8; 3], p: Quad)
    ensures
        tinted(color, p).3 == p.3,
        p.3 > 0 ==> tinted(color, p).0 == color[0] && tinted(color, p).1 == color[1] && tinted(
            color,
            p,
        ).2 == color[2],
        p.3 == 0 ==> tinted(color, p) == p,
{
}

/// The drawings of the icons, in the order of the tools.
pub proof fn icons_are_those_of_their_tools()
    ensures
        icon_svg(0)
            == "<svg xmlns='http://www.w3.org/2000/svg' width='24' height='24' fill='none' stroke='black' stroke-width='2'><path d='M4 4l7 17 2.5-7.5L21 11z'/></svg>"@,
        icon_svg(1)
            == "<svg xmlns='http://www.w3.org/2000/svg' width='24' height='24' fill='none' stroke='black' stroke-width='2'><path d='M17 3l4 4L8 20l-5 1 1-5z'/></svg>"@,
        icon_svg(2)
            == "<svg xmlns='http://www.w3.org/2000/svg' width='24' height='24' fill='none' stroke='black' stroke-width='2'><path d='M7 21l-4-4L14 6l6 6-9 9zM7 21h14'/></svg>"@,
        icon_svg(3)
            == "<svg xmlns='http://www.w3.org/2000/svg' width='24' height='24' fill='none' stroke='black' stroke-width='2'><path d='M5 12h14'/></svg>"@,
        icon_svg(4)
            == "<svg xmlns='http://www.w3.org/2000/svg' width='24' height='24' fill='none' stroke='black' stroke-width='2'><path d='M4 4h16v16H4z'/></svg>"@,
        icon_svg(5)
            == "<svg xmlns='http://www.w3.org/2000/svg' width='24' height='24' fill='none' stroke='black' stroke-width='2'><path d='M7 17L17 7M8 7h9v9'/></svg>"@,
        icon_svg(6)
            == "<svg xmlns='http://www.w3.org/2000/svg' width='24' height='24' fill='none' stroke='black' stroke-width='2'><path d='M12 3a9 9 0 1 0 0.01 0z'/></svg>"@,
        icon_svg(7)
            == "<svg xmlns='http://www.w3.org/2000/svg' width='24' height='24' fill='none' stroke='black' stroke-width='2'><path d='M4 9h16M4 15h16M10 3L8 21M16 3l-2 18'/></svg>"@,
{
}

/// Every tool has an icon that can be drawn.
pub proof fn every_tool_has_an_icon(i: usize)
    requires
        i < 8,
    ensures
        is_icon(encode_utf8(icon_svg(i))),
{
}

/// Only tools have a tooltip: over a colour, or over nothing, the menu looks the
/// same with and without one.
pub proof fn only_tools_have_tooltips(
    tool: DrawTool,
    hovered: Option<int>,
    icons: Seq<Option<RgbaBuffer>>,
    rim: Seq<u8>,
    x: int,
    y: int,
)
    requires
        hovered matches Some(h) ==> h < 8 || 16 <= h,
    ensures
        pie_px(tool, hovered, true, icons, rim, x, y) == pie_px(
            tool,
            hovered,
            false,
            icons,
            rim,
            x,
            y,
        ),
{
}

/// Where an icon is clear its button shows, and where it is partly opaque the two
/// mix by its opacity, rounded down.
pub proof fn icons_mix_with_their_button(
    sprite: OsdSprite,
    tool: DrawTool,
    hovered: Option<usize>,
    icons: Seq<Option<RgbaBuffer>>,
    rim: Seq<u8>,
    i: int,
    m: RgbaBuffer,
    u: int,
    v: int,
)
    requires
        shows_pie(sprite, tool, hovered, false, icons, rim),
        icons_fit(icons),
        0 <= i < 8,
        at(hovered) != Some(8 + i),
        icons[i] == Some(m),
        m.has(u, v),
        in_rounded((100 - m.width) / 2 + u, (100 - m.height) / 2 + v, 100, 100, 16),
    ensures
        ({
            let p = sprite.buffer.at(
                button_corner(i).0 + (100 - m.width) / 2 + u,
                button_corner(i).1 + (100 - m.height) / 2 + v,
            );
            let o = m.at(u, v);
            let a = o.3 as int;
            let d = blend::blended(
                (0u8, 0u8, 0u8, 0u8),
                if ring_tool(i) == tool {
                    [60u8, 80u8, 130u8]
                } else {
                    [40u8, 40u8, 45u8]
                },
                220,
            );
            &&& a == 0 ==> p == d
            &&& 0 < a < 255 ==> {
                &&& 0 <= o.0 * a + d.0 * (255 - a) - 255 * p.0 <= 254
                &&& 0 <= o.1 * a + d.1 * (255 - a) - 255 * p.1 <= 254
                &&& 0 <= o.2 * a + d.2 * (255 - a) - 255 * p.2 <= 254
                &&& 0 <= 255 * a + d.3 * (255 - a) - 255 * p.3 <= 254
            }
        }),
{
    let x = button_corner(i).0 + (100 - m.width) / 2 + u;
    let y = button_corner(i).1 + (100 - m.height) / 2 + v;
    let clear = (0u8, 0u8, 0u8, 0u8);
    lemma_no_ring_under_buttons(i, x, y);
    lemma_only_its_button(8, i, tool, at(hovered), icons, rim, x, y, clear);
    assert(sprite.buffer.has(x, y));
    let d = button_px(i, ring_tool(i) == tool, false, None, rim, x, y, clear);
    let o = m.at(u, v);
    blend::images_show_or_let_through(blend::Over::Straight, d, o);
    if 0 < o.3 < 255 {
        blend::images_mix_by_opacity(d, o);
    }
}

/// The tooltip lies on a dark pill around its text, over the rest of the menu,
/// and changes nothing beside the pill.
pub proof fn tooltip_lies_on_a_pill(
    tool: DrawTool,
    i: int,
    icons: Seq<Option<RgbaBuffer>>,
    rim: Seq<u8>,
    x: int,
    y: int,
)
    requires
        0 <= i < 8,
    ensures
        ({
            let with = pie_px(tool, Some(8 + i), true, icons, rim, x, y);
            let without = pie_px(tool, Some(8 + i), false, icons, rim, x, y);
            let name = long_label(8 + i)->0;
            let n = name.len() as int;
            let left = button_middle(i).0 - 12 * n;
            let top = button_middle(i).1 - 106;
            let text = scaled_covers(name, 4, x - left, y - top);
            let pill = in_rounded(x - left + 12, y - top + 8, 24 * n + 24, 48, 10);
            &&& text ==> with == (255u8, 255u8, 255u8, 255u8)
            &&& !text && pill ==> with == blend::blended(without, [30u8, 30u8, 35u8], 220)
            &&& !text && !pill ==> with == without
        }),
{
}

/// The middles of the buttons: 220 pixels from that of the menu, in eight
/// directions, cut down to whole pixels.
pub proof fn button_middles_are_220_pixels_out(i: int)
    requires
        0 <= i < 8,
    ensures
        ({
            let (x, y) = button_middle(i);
            &&& i % 4 == 0 ==> x == 330
            &&& i % 4 == 2 ==> y == 330
            &&& i == 0 ==> y == 110
            &&& i == 2 ==> x == 550
            &&& i == 4 ==> y == 550
            &&& i == 6 ==> x == 110
            &&& i == 1 || i == 3 ==> x == 485
            &&& i == 5 || i == 7 ==> x == 174
            &&& i == 3 || i == 5 ==> y == 485
            &&& i == 1 || i == 7 ==> y == 174
        }),
{
}

} // verus!
