//! The on-screen display: a bitmap font, and a box of text lines in a corner.

use crate::pixels;
use crate::pixels::Quad;
use crate::render::RgbaBuffer;
use crate::text;
use vstd::prelude::*;

verus! {

/// Columns of a glyph.
pub const GLYPH_WIDTH: i32 = 5;

/// Rows of a glyph.
pub const GLYPH_HEIGHT: i32 = 7;

/// Distance on the canvas from one character to the next.
pub const GLYPH_ADVANCE: i32 = 12;

/// Distance on the canvas from one line to the next.
pub const LINE_HEIGHT: i32 = 18;

/// Space between the edge of the box and the text, both sides together.
pub const BOX_PADDING: i32 = 16;

/// Distance of the box from the edges of the screen.
pub const BOX_MARGIN: i32 = 14;

/// Opacity of the box.
pub const BOX_ALPHA: u8 = 255;

/// Brightness of the text in each channel.
pub const TEXT_LEVEL: u8 = 0xE6;

/// The seven rows of a character of the font, top first. The lowest five bits
/// of a row are its columns, leftmost highest.
pub open spec fn font(c: char) -> Option<Seq<u8>> {
    match c {
        ' ' => Some(seq![0b00000u8, 0b00000, 0b00000, 0b00000, 0b00000, 0b00000, 0b00000]),
        '0' => Some(seq![0b01110u8, 0b10001, 0b10011, 0b10101, 0b11001, 0b10001, 0b01110]),
        '1' => Some(seq![0b00100u8, 0b01100, 0b00100, 0b00100, 0b00100, 0b00100, 0b01110]),
        '2' => Some(seq![0b01110u8, 0b10001, 0b00001, 0b00010, 0b00100, 0b01000, 0b11111]),
        '3' => Some(seq![0b11111u8, 0b00010, 0b00100, 0b00010, 0b00001, 0b10001, 0b01110]),
        '4' => Some(seq![0b00010u8, 0b00110, 0b01010, 0b10010, 0b11111, 0b00010, 0b00010]),
        '5' => Some(seq![0b11111u8, 0b10000, 0b11110, 0b00001, 0b00001, 0b10001, 0b01110]),
        '6' => Some(seq![0b00110u8, 0b01000, 0b10000, 0b11110, 0b10001, 0b10001, 0b01110]),
        '7' => Some(seq![0b11111u8, 0b00001, 0b00010, 0b00100, 0b01000, 0b01000, 0b01000]),
        '8' => Some(seq![0b01110u8, 0b10001, 0b10001, 0b01110, 0b10001, 0b10001, 0b01110]),
        '9' => Some(seq![0b01110u8, 0b10001, 0b10001, 0b01111, 0b00001, 0b00010, 0b01100]),
        'a' | 'A' => Some(seq![0b00000u8, 0b00000, 0b01110, 0b00001, 0b01111, 0b10001, 0b01111]),
        'b' | 'B' => Some(seq![0b10000u8, 0b10000, 0b10110, 0b11001, 0b10001, 0b10001, 0b01110]),
        'c' | 'C' => Some(seq![0b00000u8, 0b00000, 0b01110, 0b10000, 0b10000, 0b10001, 0b01110]),
        'd' | 'D' => Some(seq![0b00001u8, 0b00001, 0b01101, 0b10011, 0b10001, 0b10001, 0b01111]),
        'e' | 'E' => Some(seq![0b00000u8, 0b00000, 0b01110, 0b10001, 0b11111, 0b10000, 0b01110]),
        'f' | 'F' => Some(seq![0b00110u8, 0b01001, 0b01000, 0b11100, 0b01000, 0b01000, 0b01000]),
        'g' | 'G' => Some(seq![0b00000u8, 0b01111, 0b10001, 0b10001, 0b01111, 0b00001, 0b01110]),
        'h' | 'H' => Some(seq![0b10000u8, 0b10000, 0b10110, 0b11001, 0b10001, 0b10001, 0b10001]),
        'i' | 'I' => Some(seq![0b00100u8, 0b00000, 0b01100, 0b00100, 0b00100, 0b00100, 0b01110]),
        'j' | 'J' => Some(seq![0b00010u8, 0b00000, 0b00110, 0b00010, 0b00010, 0b10010, 0b01100]),
        'k' | 'K' => Some(seq![0b10000u8, 0b10000, 0b10010, 0b10100, 0b11000, 0b10100, 0b10010]),
        'l' | 'L' => Some(seq![0b01100u8, 0b00100, 0b00100, 0b00100, 0b00100, 0b00100, 0b01110]),
        'm' | 'M' => Some(seq![0b00000u8, 0b00000, 0b11010, 0b10101, 0b10101, 0b10101, 0b10101]),
        'n' | 'N' => Some(seq![0b00000u8, 0b00000, 0b10110, 0b11001, 0b10001, 0b10001, 0b10001]),
        'o' | 'O' => Some(seq![0b00000u8, 0b00000, 0b01110, 0b10001, 0b10001, 0b10001, 0b01110]),
        'p' | 'P' => Some(seq![0b00000u8, 0b00000, 0b10110, 0b11001, 0b10001, 0b11110, 0b10000]),
        'q' | 'Q' => Some(seq![0b00000u8, 0b00000, 0b01101, 0b10011, 0b10001, 0b01111, 0b00001]),
        'r' | 'R' => Some(seq![0b00000u8, 0b00000, 0b10110, 0b11001, 0b10000, 0b10000, 0b10000]),
        's' | 'S' => Some(seq![0b00000u8, 0b00000, 0b01111, 0b10000, 0b01110, 0b00001, 0b11110]),
        't' | 'T' => Some(seq![0b01000u8, 0b01000, 0b11100, 0b01000, 0b01000, 0b01001, 0b00110]),
        'u' | 'U' => Some(seq![0b00000u8, 0b00000, 0b10001, 0b10001, 0b10001, 0b10011, 0b01101]),
        'v' | 'V' => Some(seq![0b00000u8, 0b00000, 0b10001, 0b10001, 0b10001, 0b01010, 0b00100]),
        'w' | 'W' => Some(seq![0b00000u8, 0b00000, 0b10101, 0b10101, 0b10101, 0b10101, 0b01010]),
        'x' | 'X' => Some(seq![0b00000u8, 0b00000, 0b10001, 0b01010, 0b00100, 0b01010, 0b10001]),
        'y' | 'Y' => Some(seq![0b00000u8, 0b00000, 0b10001, 0b10001, 0b10001, 0b01111, 0b00001]),
        'z' | 'Z' => Some(seq![0b00000u8, 0b00000, 0b11111, 0b00010, 0b00100, 0b01000, 0b11111]),
        '-' => Some(seq![0b00000u8, 0b00000, 0b00000, 0b11111, 0b00000, 0b00000, 0b00000]),
        '/' => Some(seq![0b00001u8, 0b00001, 0b00010, 0b00100, 0b01000, 0b10000, 0b10000]),
        '+' => Some(seq![0b00000u8, 0b00100, 0b00100, 0b11111, 0b00100, 0b00100, 0b00000]),
        '.' => Some(seq![0b00000u8, 0b00000, 0b00000, 0b00000, 0b00000, 0b01100, 0b01100]),
        ':' => Some(seq![0b00000u8, 0b01100, 0b01100, 0b00000, 0b01100, 0b01100, 0b00000]),
        _ => None,
    }
}

/// The bit of a row that stands for a column.
pub open spec fn column_bit(col: int) -> int {
    if col == 0 {
        16
    } else if col == 1 {
        8
    } else if col == 2 {
        4
    } else if col == 3 {
        2
    } else {
        1
    }
}

/// Whether a cell of a character is set. Characters that the font lacks have
/// no cell set.
pub open spec fn cell_set(c: char, col: int, row: int) -> bool {
    &&& 0 <= col < GLYPH_WIDTH
    &&& 0 <= row < GLYPH_HEIGHT
    &&& font(c) is Some
    &&& (font(c)->0[row] as int / column_bit(col)) % 2 == 1
}

/// Whether a character whose top left corner is the origin covers `(dx, dy)`.
pub open spec fn glyph_covers(c: char, dx: int, dy: int) -> bool {
    dx >= 0 && dy >= 0 && cell_set(c, dx / 2, dy / 2)
}

/// Whether a line of text that starts at the origin covers `(dx, dy)`.
pub open spec fn text_covers(line: Seq<char>, dx: int, dy: int) -> bool {
    dx >= 0 && dx / 12 < line.len() && glyph_covers(line[dx / 12], dx % 12, dy)
}

/// Upper and lower case letters look alike.
pub proof fn font_ignores_case(upper: char, lower: char)
    requires
        'A' <= upper <= 'Z',
        lower as int == upper as int + 32,
    ensures
        font(upper) == font(lower),
{
}

/// Every row of the font fits its five columns.
pub proof fn font_rows_fit(c: char, row: int)
    requires
        font(c) is Some,
        0 <= row < GLYPH_HEIGHT,
    ensures
        font(c)->0.len() == GLYPH_HEIGHT,
        font(c)->0[row] < 32,
{
}

/// The rows of a character, or `None` where the font lacks it.
pub fn glyph(character: char) -> (r: Option<[u8; 7]>)
    ensures
        match r {
            Some(rows) => font(character) == Some(rows@),
            None => font(character) is None,
        },
{
    match character {
        ' ' => Some([0b00000, 0b00000, 0b00000, 0b00000, 0b00000, 0b00000, 0b00000]),
        '0' => Some([0b01110, 0b10001, 0b10011, 0b10101, 0b11001, 0b10001, 0b01110]),
        '1' => Some([0b00100, 0b01100, 0b00100, 0b00100, 0b00100, 0b00100, 0b01110]),
        '2' => Some([0b01110, 0b10001, 0b00001, 0b00010, 0b00100, 0b01000, 0b11111]),
        '3' => Some([0b11111, 0b00010, 0b00100, 0b00010, 0b00001, 0b10001, 0b01110]),
        '4' => Some([0b00010, 0b00110, 0b01010, 0b10010, 0b11111, 0b00010, 0b00010]),
        '5' => Some([0b11111, 0b10000, 0b11110, 0b00001, 0b00001, 0b10001, 0b01110]),
        '6' => Some([0b00110, 0b01000, 0b10000, 0b11110, 0b10001, 0b10001, 0b01110]),
        '7' => Some([0b11111, 0b00001, 0b00010, 0b00100, 0b01000, 0b01000, 0b01000]),
        '8' => Some([0b01110, 0b10001, 0b10001, 0b01110, 0b10001, 0b10001, 0b01110]),
        '9' => Some([0b01110, 0b10001, 0b10001, 0b01111, 0b00001, 0b00010, 0b01100]),
        'a' | 'A' => Some([0b00000, 0b00000, 0b01110, 0b00001, 0b01111, 0b10001, 0b01111]),
        'b' | 'B' => Some([0b10000, 0b10000, 0b10110, 0b11001, 0b10001, 0b10001, 0b01110]),
        'c' | 'C' => Some([0b00000, 0b00000, 0b01110, 0b10000, 0b10000, 0b10001, 0b01110]),
        'd' | 'D' => Some([0b00001, 0b00001, 0b01101, 0b10011, 0b10001, 0b10001, 0b01111]),
        'e' | 'E' => Some([0b00000, 0b00000, 0b01110, 0b10001, 0b11111, 0b10000, 0b01110]),
        'f' | 'F' => Some([0b00110, 0b01001, 0b01000, 0b11100, 0b01000, 0b01000, 0b01000]),
        'g' | 'G' => Some([0b00000, 0b01111, 0b10001, 0b10001, 0b01111, 0b00001, 0b01110]),
        'h' | 'H' => Some([0b10000, 0b10000, 0b10110, 0b11001, 0b10001, 0b10001, 0b10001]),
        'i' | 'I' => Some([0b00100, 0b00000, 0b01100, 0b00100, 0b00100, 0b00100, 0b01110]),
        'j' | 'J' => Some([0b00010, 0b00000, 0b00110, 0b00010, 0b00010, 0b10010, 0b01100]),
        'k' | 'K' => Some([0b10000, 0b10000, 0b10010, 0b10100, 0b11000, 0b10100, 0b10010]),
        'l' | 'L' => Some([0b01100, 0b00100, 0b00100, 0b00100, 0b00100, 0b00100, 0b01110]),
        'm' | 'M' => Some([0b00000, 0b00000, 0b11010, 0b10101, 0b10101, 0b10101, 0b10101]),
        'n' | 'N' => Some([0b00000, 0b00000, 0b10110, 0b11001, 0b10001, 0b10001, 0b10001]),
        'o' | 'O' => Some([0b00000, 0b00000, 0b01110, 0b10001, 0b10001, 0b10001, 0b01110]),
        'p' | 'P' => Some([0b00000, 0b00000, 0b10110, 0b11001, 0b10001, 0b11110, 0b10000]),
        'q' | 'Q' => Some([0b00000, 0b00000, 0b01101, 0b10011, 0b10001, 0b01111, 0b00001]),
        'r' | 'R' => Some([0b00000, 0b00000, 0b10110, 0b11001, 0b10000, 0b10000, 0b10000]),
        's' | 'S' => Some([0b00000, 0b00000, 0b01111, 0b10000, 0b01110, 0b00001, 0b11110]),
        't' | 'T' => Some([0b01000, 0b01000, 0b11100, 0b01000, 0b01000, 0b01001, 0b00110]),
        'u' | 'U' => Some([0b00000, 0b00000, 0b10001, 0b10001, 0b10001, 0b10011, 0b01101]),
        'v' | 'V' => Some([0b00000, 0b00000, 0b10001, 0b10001, 0b10001, 0b01010, 0b00100]),
        'w' | 'W' => Some([0b00000, 0b00000, 0b10101, 0b10101, 0b10101, 0b10101, 0b01010]),
        'x' | 'X' => Some([0b00000, 0b00000, 0b10001, 0b01010, 0b00100, 0b01010, 0b10001]),
        'y' | 'Y' => Some([0b00000, 0b00000, 0b10001, 0b10001, 0b10001, 0b01111, 0b00001]),
        'z' | 'Z' => Some([0b00000, 0b00000, 0b11111, 0b00010, 0b00100, 0b01000, 0b11111]),
        '-' => Some([0b00000, 0b00000, 0b00000, 0b11111, 0b00000, 0b00000, 0b00000]),
        '/' => Some([0b00001, 0b00001, 0b00010, 0b00100, 0b01000, 0b10000, 0b10000]),
        '+' => Some([0b00000, 0b00100, 0b00100, 0b11111, 0b00100, 0b00100, 0b00000]),
        '.' => Some([0b00000, 0b00000, 0b00000, 0b00000, 0b00000, 0b01100, 0b01100]),
        ':' => Some([0b00000, 0b01100, 0b01100, 0b00000, 0b01100, 0b01100, 0b00000]),
        _ => None,
    }
}

/// Draws one character with its top left corner at `(x, y)`, clipped to the
/// canvas.
fn draw_glyph(canvas: &mut [u8], w: usize, h: usize, x: i64, y: i64, c: char, px: [u8; 4])
    requires
        w <= i32::MAX,
        h <= i32::MAX,
        w * h * 4 <= old(canvas)@.len(),
        i32::MIN <= x <= i32::MAX,
        i32::MIN <= y <= i32::MAX,
    ensures
        pixels::painted(
            old(canvas)@,
            final(canvas)@,
            w as int,
            h as int,
            |px_x: int, px_y: int, p: Quad|
                if glyph_covers(c, px_x - x, px_y - y) {
                    pixels::quad(px)
                } else {
                    p
                },
        ),
{
    let rows: [u8; 7] = match glyph(c) {
        Some(rows) => rows,
        None => {
            return;
        },
    };
    let ghost before = canvas@;
    let mut dy: i64 = 0;
    while dy < 14
        invariant
            0 <= dy <= 14,
            w <= i32::MAX,
            h <= i32::MAX,
            w * h * 4 <= canvas@.len(),
            i32::MIN <= x <= i32::MAX,
            i32::MIN <= y <= i32::MAX,
            font(c) == Some(rows@),
            pixels::painted(
                before,
                canvas@,
                w as int,
                h as int,
                |px_x: int, px_y: int, p: Quad|
                    if px_y - y < dy && glyph_covers(c, px_x - x, px_y - y) {
                        pixels::quad(px)
                    } else {
                        p
                    },
            ),
        decreases 14 - dy,
    {
        let mut dx: i64 = 0;
        while dx < 10
            invariant
                0 <= dy < 14,
                0 <= dx <= 10,
                w <= i32::MAX,
                h <= i32::MAX,
                w * h * 4 <= canvas@.len(),
                i32::MIN <= x <= i32::MAX,
                i32::MIN <= y <= i32::MAX,
                font(c) == Some(rows@),
                pixels::painted(
                    before,
                    canvas@,
                    w as int,
                    h as int,
                    |px_x: int, px_y: int, p: Quad|
                        if (px_y - y < dy || (px_y - y == dy && px_x - x < dx)) && glyph_covers(
                            c,
                            px_x - x,
                            px_y - y,
                        ) {
                            pixels::quad(px)
                        } else {
                            p
                        },
                ),
            decreases 10 - dx,
        {
            let row: u8 = rows[(dy / 2) as usize];
            let col: i64 = dx / 2;
            let bit: u8 = if col == 0 {
                16
            } else if col == 1 {
                8
            } else if col == 2 {
                4
            } else if col == 3 {
                2
            } else {
                1
            };
            assert(bit as int == column_bit(col as int));
            assert(row == font(c)->0[dy as int / 2]);
            if (row / bit) % 2 == 1 {
                assert(glyph_covers(c, dx as int, dy as int));
                let px_x: i64 = x + dx;
                let px_y: i64 = y + dy;
                if 0 <= px_x && px_x < w as i64 && 0 <= px_y && px_y < h as i64 {
                    pixels::put_px(canvas, w, h, px_x as usize, px_y as usize, px);
                }
            } else {
                assert(!glyph_covers(c, dx as int, dy as int));
            }
            dx += 1;
        }
        dy += 1;
    }
}

/// Draws a line of text with its top left corner at `(x, y)`, clipped to the
/// canvas. `color` is red, green, blue; the canvas holds blue first.
pub fn draw_text(
    canvas: &mut [u8],
    canvas_w: i32,
    canvas_h: i32,
    x: i32,
    y: i32,
    text: &str,
    color: [u8; 3],
)
    requires
        0 <= canvas_w && 0 <= canvas_h ==> canvas_w * canvas_h * 4 <= old(canvas)@.len(),
    ensures
        pixels::painted(
            old(canvas)@,
            final(canvas)@,
            canvas_w as int,
            canvas_h as int,
            |px_x: int, px_y: int, p: Quad|
                if text_covers(text@, px_x - x, px_y - y) {
                    (color[2], color[1], color[0], 255u8)
                } else {
                    p
                },
        ),
{
    if canvas_w <= 0 || canvas_h <= 0 {
        return;
    }
    let w: usize = canvas_w as usize;
    let h: usize = canvas_h as usize;
    let px: [u8; 4] = [color[2], color[1], color[0], 255];
    let line: Vec<char> = text::chars_of(text);
    let ghost before = canvas@;
    let mut pen_x: i64 = x as i64;
    let mut i: usize = 0;
    while i < line.len() && pen_x < canvas_w as i64
        invariant
            i <= line@.len(),
            line@ == text@,
            w == canvas_w,
            h == canvas_h,
            w * h * 4 <= canvas@.len(),
            pen_x == x + 12 * i,
            pen_x <= i32::MAX + 12,
            pixels::quad(px) == (color[2], color[1], color[0], 255u8),
            pixels::painted(
                before,
                canvas@,
                canvas_w as int,
                canvas_h as int,
                |px_x: int, px_y: int, p: Quad|
                    if px_x - x < 12 * i && text_covers(text@, px_x - x, px_y - y) {
                        (color[2], color[1], color[0], 255u8)
                    } else {
                        p
                    },
            ),
        decreases line.len() - i,
    {
        draw_glyph(canvas, w, h, pen_x, y as i64, line[i], px);
        pen_x += 12;
        i += 1;
    }
}

/// A legend rendered into its own tight image, and where it goes on the screen.
#[derive(Debug)]
pub struct OsdSprite {
    pub buffer: RgbaBuffer,
    pub x: i32,
    pub y: i32,
    pub width: i32,
    pub height: i32,
}

/// Characters of the longest line.
pub open spec fn longest(lines: Seq<String>) -> int
    decreases lines.len(),
{
    if lines.len() == 0 {
        0
    } else if longest(lines.drop_last()) < lines.last()@.len() {
        lines.last()@.len() as int
    } else {
        longest(lines.drop_last())
    }
}

/// Width of the box around the lines.
pub open spec fn box_width(lines: Seq<String>) -> int {
    longest(lines) * GLYPH_ADVANCE + BOX_PADDING
}

/// Height of the box around the lines.
pub open spec fn box_height(lines: Seq<String>) -> int {
    lines.len() * LINE_HEIGHT + BOX_PADDING
}

/// Whether the text of the box covers `(x, y)`.
pub open spec fn legend_covers(lines: Seq<String>, x: int, y: int) -> bool {
    &&& y >= 8
    &&& (y - 8) / 18 < lines.len()
    &&& text_covers(lines[(y - 8) / 18]@, x - 8, (y - 8) % 18)
}

/// The pixel of the box at `(x, y)`: text of a colour, blue first, on opaque
/// black.
pub open spec fn legend_px(lines: Seq<String>, color: [u8; 3], x: int, y: int) -> Quad {
    if legend_covers(lines, x, y) {
        (color[2], color[1], color[0], 255u8)
    } else {
        (0u8, 0u8, 0u8, BOX_ALPHA)
    }
}

/// Draws the box around the lines.
fn build_legend(lines: &[String], color: [u8; 3], box_w: i32, box_h: i32) -> (r: RgbaBuffer)
    requires
        box_w == box_width(lines@),
        box_h == box_height(lines@),
        0 <= box_w,
        0 <= box_h,
        box_w * box_h * 4 <= i32::MAX,
    ensures
        r.wf(),
        r.width == box_w,
        r.height == box_h,
        forall|x: int, y: int|
            r.has(x, y) ==> #[trigger] r.at(x, y) == legend_px(lines@, color, x, y),
{
    assert(0 <= box_w * box_h) by (nonlinear_arith)
        requires
            0 <= box_w,
            0 <= box_h,
    ;
    let mut r = RgbaBuffer::new(box_w, box_h);
    pixels::fill_px(
        r.data.as_mut_slice(),
        box_w,
        box_h,
        0,
        box_w,
        0,
        box_h,
        [0, 0, 0, BOX_ALPHA],
    );
    let mut i: usize = 0;
    while i < lines.len()
        invariant
            i <= lines@.len(),
            box_h == lines@.len() * 18 + 16,
            r.wf(),
            r.width == box_w,
            r.height == box_h,
            forall|x: int, y: int|
                r.has(x, y) ==> #[trigger] r.at(x, y) == (if y < 8 + 18 * i {
                    legend_px(lines@, color, x, y)
                } else {
                    (0u8, 0u8, 0u8, BOX_ALPHA)
                }),
        decreases lines@.len() - i,
    {
        let line: &str = lines[i].as_str();
        let ghost before = r;
        draw_text(
            r.data.as_mut_slice(),
            box_w,
            box_h,
            8,
            8 + i as i32 * 18,
            line,
            color,
        );
        assert forall|x: int, y: int| r.has(x, y) implies #[trigger] r.at(x, y) == (if y < 8 + 18
            * (i + 1) {
            legend_px(lines@, color, x, y)
        } else {
            (0u8, 0u8, 0u8, BOX_ALPHA)
        }) by {
            assert(before.has(x, y));
            assert(before.at(x, y) == pixels::px_at(before.data@, box_w as int, x, y));
        }
        i += 1;
    }
    r
}

fn longest_of(lines: &[String]) -> (r: usize)
    ensures
        r == longest(lines@),
{
    let mut widest: usize = 0;
    let mut i: usize = 0;
    while i < lines.len()
        invariant
            i <= lines@.len(),
            widest == longest(lines@.take(i as int)),
        decreases lines@.len() - i,
    {
        let count: usize = lines[i].as_str().unicode_len();
        assert(lines@.take(i + 1).drop_last() == lines@.take(i as int));
        if widest < count {
            widest = count;
        }
        i += 1;
    }
    assert(lines@.take(lines@.len() as int) == lines@);
    widest
}

/// The size of the box around the lines.
fn box_size(lines: &[String]) -> (r: (i32, i32))
    requires
        box_width(lines@) <= i32::MAX,
        box_height(lines@) <= i32::MAX,
    ensures
        r.0 == box_width(lines@),
        r.1 == box_height(lines@),
        16 <= r.0,
        16 <= r.1,
        lines_fit(lines@) ==> r.0 <= 0x1000_0000 && r.1 <= 0x1000_0000,
{
    let widest: usize = longest_of(lines);
    assert(lines.len() == lines@.len());
    let w: i32 = widest as i32 * 12 + 16;
    let h: i32 = lines.len() as i32 * 18 + 16;
    proof {
        if lines_fit(lines@) {
            assert(w <= 0x1000_0000 && h <= 0x1000_0000) by (nonlinear_arith)
                requires
                    16 <= w,
                    16 <= h,
                    w * h * 4 <= i32::MAX,
            ;
        }
    }
    (w, h)
}

/// A corner of the screen.
#[derive(Clone, Copy, Debug, PartialEq, Eq, Structural)]
pub enum Corner {
    TopLeft,
    TopRight,
    BottomLeft,
    BottomRight,
}

/// Where the top left pixel of a box goes when it sits in a corner of the
/// screen, `margin` away from both edges.
pub open spec fn corner_position(
    corner: Corner,
    screen: (int, int),
    size: (int, int),
    margin: int,
) -> (int, int) {
    match corner {
        Corner::TopLeft => (margin, margin),
        Corner::TopRight => (screen.0 - margin - size.0, margin),
        Corner::BottomLeft => (margin, screen.1 - margin - size.1),
        Corner::BottomRight => (screen.0 - margin - size.0, screen.1 - margin - size.1),
    }
}

impl Corner {
    /// Where the top left pixel of a `w` by `h` box goes in this corner of a
    /// `screen_w` by `screen_h` screen.
    pub fn position(self, screen_w: i32, screen_h: i32, w: i32, h: i32, margin: i32) -> (r: (
        i32,
        i32,
    ))
        requires
            i32::MIN <= screen_w - margin <= i32::MAX,
            i32::MIN <= screen_w - margin - w <= i32::MAX,
            i32::MIN <= screen_h - margin <= i32::MAX,
            i32::MIN <= screen_h - margin - h <= i32::MAX,
        ensures
            (r.0 as int, r.1 as int) == corner_position(
                self,
                (screen_w as int, screen_h as int),
                (w as int, h as int),
                margin as int,
            ),
    {
        match self {
            Corner::TopLeft => (margin, margin),
            Corner::TopRight => (screen_w - margin - w, margin),
            Corner::BottomLeft => (margin, screen_h - margin - h),
            Corner::BottomRight => (screen_w - margin - w, screen_h - margin - h),
        }
    }

    /// The corner diagonally across.
    pub open spec fn across(self) -> Corner {
        match self {
            Corner::TopLeft => Corner::BottomRight,
            Corner::TopRight => Corner::BottomLeft,
            Corner::BottomLeft => Corner::TopRight,
            Corner::BottomRight => Corner::TopLeft,
        }
    }

    pub fn opposite(self) -> (r: Corner)
        ensures
            r == self.across(),
    {
        match self {
            Corner::TopLeft => Corner::BottomRight,
            Corner::TopRight => Corner::BottomLeft,
            Corner::BottomLeft => Corner::TopRight,
            Corner::BottomRight => Corner::TopLeft,
        }
    }

    /// How the corner is called.
    pub open spec fn spoken(self) -> Seq<char> {
        match self {
            Corner::TopLeft => "Top left"@,
            Corner::TopRight => "Top right"@,
            Corner::BottomLeft => "Bottom left"@,
            Corner::BottomRight => "Bottom right"@,
        }
    }

    pub fn name(self) -> (r: &'static str)
        ensures
            r@ == self.spoken(),
    {
        match self {
            Corner::TopLeft => "Top left",
            Corner::TopRight => "Top right",
            Corner::BottomLeft => "Bottom left",
            Corner::BottomRight => "Bottom right",
        }
    }
}

/// The square of the distance from the middle of a box in a corner to the
/// pointer.
pub open spec fn remoteness(
    corner: Corner,
    screen: (int, int),
    size: (int, int),
    cursor: (int, int),
) -> int {
    let at = corner_position(corner, screen, size, BOX_MARGIN as int);
    let dx = at.0 + size.0 / 2 - cursor.0;
    let dy = at.1 + size.1 / 2 - cursor.1;
    dx * dx + dy * dy
}

/// The corner in which a box is farthest from the pointer. Of equally distant
/// ones the last counts, in the order top left, top right, bottom left, bottom
/// right.
pub open spec fn farthest_corner(screen: (int, int), size: (int, int), cursor: (int, int)) -> Corner {
    let tl = remoteness(Corner::TopLeft, screen, size, cursor);
    let tr = remoteness(Corner::TopRight, screen, size, cursor);
    let bl = remoteness(Corner::BottomLeft, screen, size, cursor);
    let br = remoteness(Corner::BottomRight, screen, size, cursor);
    if br >= bl && br >= tr && br >= tl {
        Corner::BottomRight
    } else if bl >= tr && bl >= tl {
        Corner::BottomLeft
    } else if tr >= tl {
        Corner::TopRight
    } else {
        Corner::TopLeft
    }
}

/// No corner is farther from the pointer than the one that is picked.
pub proof fn farthest_corner_is_farthest(
    corner: Corner,
    screen: (int, int),
    size: (int, int),
    cursor: (int, int),
)
    ensures
        remoteness(corner, screen, size, cursor) <= remoteness(
            farthest_corner(screen, size, cursor),
            screen,
            size,
            cursor,
        ),
{
}

fn remoteness_of(
    corner: Corner,
    screen: (i32, i32),
    size: (i32, i32),
    cursor: (i32, i32),
) -> (r: i128)
    requires
        0 < screen.0,
        0 < screen.1,
        0 < size.0 <= 0x1000_0000,
        0 < size.1 <= 0x1000_0000,
    ensures
        r == remoteness(
            corner,
            (screen.0 as int, screen.1 as int),
            (size.0 as int, size.1 as int),
            (cursor.0 as int, cursor.1 as int),
        ),
{
    let at: (i32, i32) = corner.position(screen.0, screen.1, size.0, size.1, BOX_MARGIN);
    let dx: i128 = at.0 as i128 + (size.0 / 2) as i128 - cursor.0 as i128;
    let dy: i128 = at.1 as i128 + (size.1 / 2) as i128 - cursor.1 as i128;
    assert(0 <= dx * dx <= 0x4_0000_0000 * 0x4_0000_0000) by (nonlinear_arith)
        requires
            -0x4_0000_0000 <= dx <= 0x4_0000_0000,
    ;
    assert(0 <= dy * dy <= 0x4_0000_0000 * 0x4_0000_0000) by (nonlinear_arith)
        requires
            -0x4_0000_0000 <= dy <= 0x4_0000_0000,
    ;
    dx * dx + dy * dy
}

/// Lines fit an image: the box around them has at most `i32::MAX` bytes.
pub open spec fn lines_fit(lines: Seq<String>) -> bool {
    &&& box_width(lines) <= i32::MAX
    &&& box_height(lines) <= i32::MAX
    &&& box_width(lines) * box_height(lines) * 4 <= i32::MAX
}

/// Whether lines fit an image.
pub fn lines_have_room(lines: &[String]) -> (r: bool)
    ensures
        r == lines_fit(lines@),
{
    let widest: usize = longest_of(lines);
    let w: u128 = widest as u128 * 12 + 16;
    let h: u128 = lines.len() as u128 * 18 + 16;
    let most: u128 = i32::MAX as u128;
    if w > most || h > most {
        return false;
    }
    assert(0 <= w * h <= 0x7fff_ffff * 0x7fff_ffff) by (nonlinear_arith)
        requires
            0 <= w <= 0x7fff_ffff,
            0 <= h <= 0x7fff_ffff,
    ;
    w * h * 4 <= most
}

/// The sprite shows the lines and sits in the given corner of the screen.
pub open spec fn shows_lines(
    sprite: OsdSprite,
    lines: Seq<String>,
    color: [u8; 3],
    corner: Corner,
    screen: (int, int),
) -> bool {
    &&& sprite.width == box_width(lines)
    &&& sprite.height == box_height(lines)
    &&& (sprite.x as int, sprite.y as int) == corner_position(
        corner,
        screen,
        (box_width(lines), box_height(lines)),
        BOX_MARGIN as int,
    )
    &&& sprite.buffer.wf()
    &&& sprite.buffer.width == sprite.width
    &&& sprite.buffer.height == sprite.height
    &&& forall|x: int, y: int|
        sprite.buffer.has(x, y) ==> #[trigger] sprite.buffer.at(x, y) == legend_px(
            lines,
            color,
            x,
            y,
        )
}

/// The colour of the legend.
pub open spec fn legend_color() -> [u8; 3] {
    [TEXT_LEVEL, TEXT_LEVEL, TEXT_LEVEL]
}

/// Renders the lines, in a colour, for a given corner of the screen. There is
/// no sprite without lines or without a screen.
pub fn build_corner_sprite(
    lines: &[String],
    color: [u8; 3],
    corner: Corner,
    screen_w: i32,
    screen_h: i32,
) -> (r: Option<OsdSprite>)
    requires
        lines@.len() > 0 && screen_w > 0 && screen_h > 0 ==> lines_fit(lines@),
    ensures
        r.is_some() == (lines@.len() > 0 && screen_w > 0 && screen_h > 0),
        r.is_some() ==> shows_lines(
            r.unwrap(),
            lines@,
            color,
            corner,
            (screen_w as int, screen_h as int),
        ),
{
    if lines.is_empty() || screen_w <= 0 || screen_h <= 0 {
        return None;
    }
    let (box_w, box_h): (i32, i32) = box_size(lines);
    let (x, y): (i32, i32) = corner.position(screen_w, screen_h, box_w, box_h, BOX_MARGIN);
    let buffer: RgbaBuffer = build_legend(lines, color, box_w, box_h);
    Some(OsdSprite { buffer, x, y, width: box_w, height: box_h })
}

/// Renders the lines for the corner of the screen that is farthest from the
/// pointer. There is no sprite without lines or without a screen.
pub fn build_osd_sprite(
    lines: &[String],
    cursor: (i32, i32),
    screen_w: i32,
    screen_h: i32,
) -> (r: Option<OsdSprite>)
    requires
        lines@.len() > 0 && screen_w > 0 && screen_h > 0 ==> lines_fit(lines@),
    ensures
        r.is_some() == (lines@.len() > 0 && screen_w > 0 && screen_h > 0),
        r.is_some() ==> shows_lines(
            r.unwrap(),
            lines@,
            legend_color(),
            farthest_corner(
                (screen_w as int, screen_h as int),
                (box_width(lines@), box_height(lines@)),
                (cursor.0 as int, cursor.1 as int),
            ),
            (screen_w as int, screen_h as int),
        ),
{
    if lines.is_empty() || screen_w <= 0 || screen_h <= 0 {
        return None;
    }
    let corner: Corner = farthest(lines, cursor, screen_w, screen_h);
    build_corner_sprite(
        lines,
        [TEXT_LEVEL, TEXT_LEVEL, TEXT_LEVEL],
        corner,
        screen_w,
        screen_h,
    )
}

/// What a canvas pixel becomes when the lines are shown in a corner of it.
pub open spec fn osd_px(
    lines: Seq<String>,
    color: [u8; 3],
    corner: Corner,
    canvas: (int, int),
    x: int,
    y: int,
    p: Quad,
) -> Quad {
    let size = (box_width(lines), box_height(lines));
    let at = corner_position(corner, canvas, size, BOX_MARGIN as int);
    if pixels::in_rect(x, y, at.0, at.0 + size.0, at.1, at.1 + size.1) {
        legend_px(lines, color, x - at.0, y - at.1)
    } else {
        p
    }
}

/// Draws the lines, in a colour, into a corner of the canvas, clipped to it.
/// Without lines or without a canvas nothing is drawn.
pub fn draw_corner_osd(
    canvas: &mut [u8],
    canvas_w: i32,
    canvas_h: i32,
    lines: &[String],
    color: [u8; 3],
    corner: Corner,
)
    requires
        canvas_w > 0 && canvas_h > 0 ==> canvas_w * canvas_h * 4 <= old(canvas)@.len(),
        lines@.len() > 0 && canvas_w > 0 && canvas_h > 0 ==> lines_fit(lines@),
    ensures
        lines@.len() == 0 || canvas_w <= 0 || canvas_h <= 0 ==> final(canvas)@ == old(canvas)@,
        lines@.len() > 0 && canvas_w > 0 && canvas_h > 0 ==> pixels::painted(
            old(canvas)@,
            final(canvas)@,
            canvas_w as int,
            canvas_h as int,
            |x: int, y: int, p: Quad|
                osd_px(lines@, color, corner, (canvas_w as int, canvas_h as int), x, y, p),
        ),
{
    let sprite: OsdSprite = match build_corner_sprite(lines, color, corner, canvas_w, canvas_h) {
        Some(sprite) => sprite,
        None => {
            return;
        },
    };
    pixels::paste_opaque(
        canvas,
        canvas_w,
        canvas_h,
        sprite.buffer.data.as_slice(),
        sprite.width,
        sprite.height,
        sprite.x,
        sprite.y,
    );
    proof {
        let w = canvas_w as int;
        let h = canvas_h as int;
        assert forall|x: int, y: int| pixels::inside(w, h, x, y) implies #[trigger] pixels::px_at(
            canvas@,
            w,
            x,
            y,
        ) == osd_px(lines@, color, corner, (w, h), x, y, pixels::px_at(old(canvas)@, w, x, y)) by {
            let sx = x - sprite.x;
            let sy = y - sprite.y;
            if sprite.buffer.has(sx, sy) {
                assert(sprite.buffer.at(sx, sy) == legend_px(lines@, color, sx, sy));
            }
        }
    }
}

fn farthest(lines: &[String], cursor: (i32, i32), screen_w: i32, screen_h: i32) -> (r: Corner)
    requires
        screen_w > 0,
        screen_h > 0,
        lines_fit(lines@),
    ensures
        r == farthest_corner(
            (screen_w as int, screen_h as int),
            (box_width(lines@), box_height(lines@)),
            (cursor.0 as int, cursor.1 as int),
        ),
{
    let size: (i32, i32) = box_size(lines);
    let screen: (i32, i32) = (screen_w, screen_h);
    let tl: i128 = remoteness_of(Corner::TopLeft, screen, size, cursor);
    let tr: i128 = remoteness_of(Corner::TopRight, screen, size, cursor);
    let bl: i128 = remoteness_of(Corner::BottomLeft, screen, size, cursor);
    let br: i128 = remoteness_of(Corner::BottomRight, screen, size, cursor);
    if br >= bl && br >= tr && br >= tl {
        Corner::BottomRight
    } else if bl >= tr && bl >= tl {
        Corner::BottomLeft
    } else if tr >= tl {
        Corner::TopRight
    } else {
        Corner::TopLeft
    }
}

/// Draws the lines into the corner of the canvas that is farthest from the
/// pointer, clipped to the canvas. Without lines or without a canvas nothing
/// is drawn.
pub fn draw_osd(
    canvas: &mut [u8],
    canvas_w: i32,
    canvas_h: i32,
    lines: &[String],
    cursor: (i32, i32),
)
    requires
        canvas_w > 0 && canvas_h > 0 ==> canvas_w * canvas_h * 4 <= old(canvas)@.len(),
        lines@.len() > 0 && canvas_w > 0 && canvas_h > 0 ==> lines_fit(lines@),
    ensures
        lines@.len() == 0 || canvas_w <= 0 || canvas_h <= 0 ==> final(canvas)@ == old(canvas)@,
        lines@.len() > 0 && canvas_w > 0 && canvas_h > 0 ==> pixels::painted(
            old(canvas)@,
            final(canvas)@,
            canvas_w as int,
            canvas_h as int,
            |x: int, y: int, p: Quad|
                osd_px(
                    lines@,
                    legend_color(),
                    farthest_corner(
                        (canvas_w as int, canvas_h as int),
                        (box_width(lines@), box_height(lines@)),
                        (cursor.0 as int, cursor.1 as int),
                    ),
                    (canvas_w as int, canvas_h as int),
                    x,
                    y,
                    p,
                ),
        ),
{
    if lines.is_empty() || canvas_w <= 0 || canvas_h <= 0 {
        return;
    }
    let corner: Corner = farthest(lines, cursor, canvas_w, canvas_h);
    draw_corner_osd(
        canvas,
        canvas_w,
        canvas_h,
        lines,
        [TEXT_LEVEL, TEXT_LEVEL, TEXT_LEVEL],
        corner,
    );
}

/// A line of text shows its characters side by side, in the order of the line:
/// cell `(col, row)` of character `k` is a square of two by two pixels, twelve
/// pixels on for every character before it, and set where the row of the font has
/// its bit, the leftmost column highest.
pub proof fn text_shows_its_characters_in_order(
    line: Seq<char>,
    k: int,
    col: int,
    row: int,
    i: int,
    j: int,
)
    requires
        0 <= k < line.len(),
        0 <= col < 5,
        0 <= row < 7,
        0 <= i < 2,
        0 <= j < 2,
    ensures
        text_covers(line, 12 * k + 2 * col + i, 2 * row + j) == (font(line[k]) is Some && (
        font(line[k])->0[row] as int / (if col == 0 {
            16
        } else if col == 1 {
            8
        } else if col == 2 {
            4
        } else if col == 3 {
            2
        } else {
            1int
        })) % 2 == 1),
{
    let dx = 12 * k + 2 * col + i;
    assert(dx / 12 == k && dx % 12 == 2 * col + i && (2 * col + i) / 2 == col && (2 * row + j) / 2
        == row);
}

/// A line of text has no ink before its start, below its fourteen rows, past its
/// end, or between two characters.
pub proof fn text_keeps_to_its_place(line: Seq<char>, dx: int, dy: int)
    requires
        text_covers(line, dx, dy),
    ensures
        0 <= dx < 12 * line.len(),
        0 <= dy < 14,
        dx % 12 < 10,
{
}

/// The box around some lines has room for each of them, and no more than the
/// longest one needs: twelve pixels for a character and eighteen for a line, with
/// eight on every side.
pub proof fn box_has_room_for_its_lines(lines: Seq<String>, k: int)
    requires
        0 <= k < lines.len(),
    ensures
        12 * lines[k]@.len() + 16 <= box_width(lines),
        exists|i: int|
            0 <= i < lines.len() && 12 * (#[trigger] lines[i])@.len() + 16 == box_width(lines),
        box_height(lines) == 18 * lines.len() + 16,
{
    lemma_longest(lines, k);
}

proof fn lemma_longest(lines: Seq<String>, k: int)
    requires
        0 <= k < lines.len(),
    ensures
        lines[k]@.len() <= longest(lines),
        exists|i: int| 0 <= i < lines.len() && (#[trigger] lines[i])@.len() == longest(lines),
    decreases lines.len(),
{
    let n = lines.len() - 1;
    assert(lines[n]@.len() <= longest(lines));
    if lines.len() > 1 {
        let rest = lines.drop_last();
        lemma_longest(rest, if k < n {
            k
        } else {
            0
        });
        let i = choose|i: int| 0 <= i < rest.len() && (#[trigger] rest[i])@.len() == longest(rest);
        assert(lines[i] == rest[i]);
    } else {
        assert(longest(lines.drop_last()) == 0);
        assert(lines[0]@.len() == longest(lines));
    }
}

/// Line `k` of a box starts eight pixels from its left edge and eighteen pixels
/// below the line before. Its text has the colour, with the channels in the order
/// of the canvas, blue first; everything else in the box is opaque black.
pub proof fn box_shows_its_lines_in_order(
    lines: Seq<String>,
    color: [u8; 3],
    k: int,
    dx: int,
    dy: int,
)
    requires
        0 <= k < lines.len(),
        0 <= dy < 18,
    ensures
        text_covers(lines[k]@, dx, dy) ==> legend_px(lines, color, 8 + dx, 8 + 18 * k + dy) == (
            color[2],
            color[1],
            color[0],
            255u8,
        ),
        !text_covers(lines[k]@, dx, dy) ==> legend_px(lines, color, 8 + dx, 8 + 18 * k + dy) == (
            0u8,
            0u8,
            0u8,
            255u8,
        ),
        dy < 8 ==> legend_px(lines, color, dx, dy) == (0u8, 0u8, 0u8, 255u8),
{
    assert((18 * k + dy) / 18 == k && (18 * k + dy) % 18 == dy);
}

/// A box in a corner is the margin away from both edges that meet there.
pub proof fn boxes_sit_in_their_corner(screen: (int, int), size: (int, int), margin: int)
    ensures
        corner_position(Corner::TopLeft, screen, size, margin).0 == margin,
        corner_position(Corner::BottomLeft, screen, size, margin).0 == margin,
        corner_position(Corner::TopRight, screen, size, margin).0 + size.0 + margin == screen.0,
        corner_position(Corner::BottomRight, screen, size, margin).0 + size.0 + margin == screen.0,
        corner_position(Corner::TopLeft, screen, size, margin).1 == margin,
        corner_position(Corner::TopRight, screen, size, margin).1 == margin,
        corner_position(Corner::BottomLeft, screen, size, margin).1 + size.1 + margin == screen.1,
        corner_position(Corner::BottomRight, screen, size, margin).1 + size.1 + margin == screen.1,
{
}

/// The corner across lies on the other side both ways: a box there changes both
/// its distances to the edges. Across twice is the same corner.
pub proof fn across_changes_both_sides(c: Corner, screen: (int, int), size: (int, int), margin: int)
    ensures
        c.across().across() == c,
        corner_position(c, screen, size, margin).0 + corner_position(
            c.across(),
            screen,
            size,
            margin,
        ).0 + size.0 == screen.0,
        corner_position(c, screen, size, margin).1 + corner_position(
            c.across(),
            screen,
            size,
            margin,
        ).1 + size.1 == screen.1,
{
}

/// The box of a legend on a canvas is fourteen pixels away from the edges of its
/// corner. It shows the pixels of the box in place, and the canvas stays as it is
/// everywhere else.
pub proof fn legends_go_into_their_corner(
    lines: Seq<String>,
    color: [u8; 3],
    corner: Corner,
    canvas: (int, int),
    x: int,
    y: int,
    p: Quad,
)
    ensures
        ({
            let (w, h) = (box_width(lines), box_height(lines));
            let left = if corner == Corner::TopLeft || corner == Corner::BottomLeft {
                14
            } else {
                canvas.0 - 14 - w
            };
            let top = if corner == Corner::TopLeft || corner == Corner::TopRight {
                14
            } else {
                canvas.1 - 14 - h
            };
            osd_px(lines, color, corner, canvas, x, y, p) == if left <= x < left + w && top <= y
                < top + h {
                legend_px(lines, color, x - left, y - top)
            } else {
                p
            }
        }),
{
}

/// A sprite of some lines has their box, in its corner, and its pixels.
pub proof fn sprites_go_into_their_corner(
    s: OsdSprite,
    lines: Seq<String>,
    color: [u8; 3],
    corner: Corner,
    screen: (int, int),
)
    requires
        shows_lines(s, lines, color, corner, screen),
    ensures
        s.buffer.width == box_width(lines),
        s.buffer.height == box_height(lines),
        s.width == box_width(lines),
        s.height == box_height(lines),
        corner == Corner::TopLeft || corner == Corner::BottomLeft ==> s.x == 14,
        corner == Corner::TopRight || corner == Corner::BottomRight ==> s.x + s.width + 14
            == screen.0,
        corner == Corner::TopLeft || corner == Corner::TopRight ==> s.y == 14,
        corner == Corner::BottomLeft || corner == Corner::BottomRight ==> s.y + s.height + 14
            == screen.1,
        forall|k: int, dx: int, dy: int|
            #![trigger text_covers(lines[k]@, dx, dy)]
            0 <= k < lines.len() && 0 <= dy < 18 && s.buffer.has(8 + dx, 8 + 18 * k + dy) ==> (
            s.buffer.at(8 + dx, 8 + 18 * k + dy) == if text_covers(lines[k]@, dx, dy) {
                (color[2], color[1], color[0], 255u8)
            } else {
                (0u8, 0u8, 0u8, 255u8)
            }),
{
    assert forall|k: int, dx: int, dy: int|
        #![trigger text_covers(lines[k]@, dx, dy)]
        0 <= k < lines.len() && 0 <= dy < 18 && s.buffer.has(8 + dx, 8 + 18 * k + dy) implies (
    s.buffer.at(8 + dx, 8 + 18 * k + dy) == if text_covers(lines[k]@, dx, dy) {
        (color[2], color[1], color[0], 255u8)
    } else {
        (0u8, 0u8, 0u8, 255u8)
    }) by {
        box_shows_its_lines_in_order(lines, color, k, dx, dy);
    }
}

/// The corner that a legend picks is no nearer to the pointer than another one:
/// the distance is that of the middle of the box, fourteen pixels from the edges.
pub proof fn picked_corner_is_away_from_the_pointer(
    screen: (int, int),
    size: (int, int),
    cursor: (int, int),
    left: bool,
    top: bool,
)
    ensures
        ({
            let middle = |l: bool, t: bool|
                (
                    (if l {
                        14
                    } else {
                        screen.0 - 14 - size.0
                    }) + size.0 / 2,
                    (if t {
                        14
                    } else {
                        screen.1 - 14 - size.1
                    }) + size.1 / 2,
                );
            let far = |m: (int, int)|
                (m.0 - cursor.0) * (m.0 - cursor.0) + (m.1 - cursor.1) * (m.1 - cursor.1);
            let c = farthest_corner(screen, size, cursor);
            far(middle(left, top)) <= far(
                middle(
                    c == Corner::TopLeft || c == Corner::BottomLeft,
                    c == Corner::TopLeft || c == Corner::TopRight,
                ),
            )
        }),
{
    let corner = if left {
        if top {
            Corner::TopLeft
        } else {
            Corner::BottomLeft
        }
    } else if top {
        Corner::TopRight
    } else {
        Corner::BottomRight
    };
    farthest_corner_is_farthest(corner, screen, size, cursor);
}

/// The rows of a character as one number, the top row first, each row with its
/// leftmost cell first.
pub open spec fn packed(c: char) -> int {
    let row = |r: int| font(c)->0[r] as int;
    ((((((row(0) * 32 + row(1)) * 32 + row(2)) * 32 + row(3)) * 32 + row(4)) * 32 + row(5)) * 32
        + row(6))
}

/// The shapes of the characters, and which characters have one.
#[verifier::rlimit(60)]
pub proof fn characters_have_their_shapes(c: char)
    ensures
        c == ' ' ==> packed(c) == 0x000000000,
        c == '0' ==> packed(c) == 0x3a33ae62e,
        c == '1' ==> packed(c) == 0x11842108e,
        c == '2' ==> packed(c) == 0x3a211111f,
        c == '3' ==> packed(c) == 0x7c441062e,
        c == '4' ==> packed(c) == 0x08ca97c42,
        c == '5' ==> packed(c) == 0x7e1e0862e,
        c == '6' ==> packed(c) == 0x1910f462e,
        c == '7' ==> packed(c) == 0x7c2222108,
        c == '8' ==> packed(c) == 0x3a317462e,
        c == '9' ==> packed(c) == 0x3a317844c,
        c == 'a' || c == 'A' ==> packed(c) == 0x000e0be2f,
        c == 'b' || c == 'B' ==> packed(c) == 0x4216cc62e,
        c == 'c' || c == 'C' ==> packed(c) == 0x000e8422e,
        c == 'd' || c == 'D' ==> packed(c) == 0x042d9c62f,
        c == 'e' || c == 'E' ==> packed(c) == 0x000e8fe0e,
        c == 'f' || c == 'F' ==> packed(c) == 0x1928e2108,
        c == 'g' || c == 'G' ==> packed(c) == 0x01f18bc2e,
        c == 'h' || c == 'H' ==> packed(c) == 0x4216cc631,
        c == 'i' || c == 'I' ==> packed(c) == 0x100c2108e,
        c == 'j' || c == 'J' ==> packed(c) == 0x080610a4c,
        c == 'k' || c == 'K' ==> packed(c) == 0x4212a6292,
        c == 'l' || c == 'L' ==> packed(c) == 0x30842108e,
        c == 'm' || c == 'M' ==> packed(c) == 0x001aad6b5,
        c == 'n' || c == 'N' ==> packed(c) == 0x0016cc631,
        c == 'o' || c == 'O' ==> packed(c) == 0x000e8c62e,
        c == 'p' || c == 'P' ==> packed(c) == 0x0016cc7d0,
        c == 'q' || c == 'Q' ==> packed(c) == 0x000d9c5e1,
        c == 'r' || c == 'R' ==> packed(c) == 0x0016cc210,
        c == 's' || c == 'S' ==> packed(c) == 0x000f8383e,
        c == 't' || c == 'T' ==> packed(c) == 0x211c42126,
        c == 'u' || c == 'U' ==> packed(c) == 0x00118c66d,
        c == 'v' || c == 'V' ==> packed(c) == 0x00118c544,
        c == 'w' || c == 'W' ==> packed(c) == 0x0015ad6aa,
        c == 'x' || c == 'X' ==> packed(c) == 0x001151151,
        c == 'y' || c == 'Y' ==> packed(c) == 0x00118c5e1,
        c == 'z' || c == 'Z' ==> packed(c) == 0x001f1111f,
        c == '-' ==> packed(c) == 0x0000f8000,
        c == '/' ==> packed(c) == 0x042222210,
        c == '+' ==> packed(c) == 0x0084f9080,
        c == '.' ==> packed(c) == 0x00000018c,
        c == ':' ==> packed(c) == 0x018c03180,
        c != ' ' && c != '0' && c != '1' && c != '2' && c != '3' && c != '4' && c != '5' && c != '6' && c != '7' && c != '8' && c != '9' && c != 'a' && c != 'A' && c != 'b' && c != 'B' && c != 'c' && c != 'C' && c != 'd' && c != 'D' && c != 'e' && c != 'E' && c != 'f' && c != 'F' && c != 'g' && c != 'G' && c != 'h' && c != 'H' && c != 'i' && c != 'I' && c != 'j' && c != 'J' && c != 'k' && c != 'K' && c != 'l' && c != 'L' && c != 'm' && c != 'M' && c != 'n' && c != 'N' && c != 'o' && c != 'O' && c != 'p' && c != 'P' && c != 'q' && c != 'Q' && c != 'r' && c != 'R' && c != 's' && c != 'S' && c != 't' && c != 'T' && c != 'u' && c != 'U' && c != 'v' && c != 'V' && c != 'w' && c != 'W' && c != 'x' && c != 'X' && c != 'y' && c != 'Y' && c != 'z' && c != 'Z' && c != '-' && c != '/' && c != '+' && c != '.' && c != ':' ==> font(c) is None,
{
}

/// The cells of a row are the digits of its number in binary, from left to
/// right: the leftmost of the five counts sixteen, the rightmost one.
pub proof fn rows_read_from_left_to_right(c: char, row: int)
    requires
        font(c) is Some,
        0 <= row < 7,
    ensures
        ({
            let cell = |col: int|
                if cell_set(c, col, row) {
                    1int
                } else {
                    0
                };
            font(c)->0[row] == 16 * cell(0) + 8 * cell(1) + 4 * cell(2) + 2 * cell(3) + cell(4)
        }),
        !cell_set(c, 5, row),
{
    font_rows_fit(c, row);
    let v = font(c)->0[row] as int;
    assert(v == 16 * (v / 16 % 2) + 8 * (v / 8 % 2) + 4 * (v / 4 % 2) + 2 * (v / 2 % 2) + v / 1 % 2);
}

/// Of corners that are equally far from the pointer the last one counts, in the
/// order top left, top right, bottom left, bottom right.
pub proof fn last_of_equally_far_corners_counts(
    screen: (int, int),
    size: (int, int),
    cursor: (int, int),
)
    ensures
        ({
            let c = farthest_corner(screen, size, cursor);
            let far = |corner: Corner| remoteness(corner, screen, size, cursor);
            &&& c == Corner::TopLeft ==> far(Corner::TopRight) < far(c) && far(Corner::BottomLeft)
                < far(c) && far(Corner::BottomRight) < far(c)
            &&& c == Corner::TopRight ==> far(Corner::BottomLeft) < far(c) && far(
                Corner::BottomRight,
            ) < far(c)
            &&& c == Corner::BottomLeft ==> far(Corner::BottomRight) < far(c)
        }),
{
}

/// The corners are called by where they are, and legends are light grey.
pub proof fn corners_have_names()
    ensures
        Corner::TopLeft.spoken() == "Top left"@,
        Corner::TopRight.spoken() == "Top right"@,
        Corner::BottomLeft.spoken() == "Bottom left"@,
        Corner::BottomRight.spoken() == "Bottom right"@,
        legend_color()[0] == 230 && legend_color()[1] == 230 && legend_color()[2] == 230,
{
}

} // verus!
