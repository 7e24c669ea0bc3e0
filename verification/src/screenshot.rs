//! Selecting a rectangle of the captured frame and showing the selection.
//!
//! A selection is `(x0, y0, x1, y1)` in whole capture pixels, with `x1` and
//! `y1` just past its last column and row.

use crate::pixels;
use crate::pixels::Quad;
use vstd::prelude::*;

verus! {

/// A selection: left, top, right, bottom.
pub type Selection = (i32, i32, i32, i32);

/// A selection lies within a capture and has at least one pixel.
pub open spec fn valid_selection(rect: Selection, bounds: (i32, i32)) -> bool {
    &&& 0 <= rect.0 < rect.2 <= bounds.0
    &&& 0 <= rect.1 < rect.3 <= bounds.1
}

pub open spec fn min_of(a: int, b: int) -> int {
    if a < b {
        a
    } else {
        b
    }
}

pub open spec fn max_of(a: int, b: int) -> int {
    if a < b {
        b
    } else {
        a
    }
}

/// The integer nearest to `v` from `low` to `high`.
pub open spec fn clamped(v: int, low: int, high: int) -> int {
    if v < low {
        low
    } else if v > high {
        high
    } else {
        v
    }
}

/// The pixels of one axis that a drag from `a` to `b` selects, of `limit`
/// pixels (taken as one where there is none): from the smaller to the larger
/// end, both brought into range, and at least one pixel.
pub open spec fn dragged_span(a: int, b: int, limit: int) -> (int, int) {
    let end = max_of(limit, 1);
    let low = clamped(min_of(a, b), 0, end - 1);
    (low, max_of(clamped(max_of(a, b), 1, end), low + 1))
}

fn drag_axis(a: i32, b: i32, limit: i32) -> (r: (i32, i32))
    ensures
        (r.0 as int, r.1 as int) == dragged_span(a as int, b as int, limit as int),
{
    let end: i32 = if limit < 1 { 1 } else { limit };
    let small: i32 = if a < b { a } else { b };
    let large: i32 = if a < b { b } else { a };
    let low: i32 = if small < 0 { 0 } else if small > end - 1 { end - 1 } else { small };
    let high: i32 = if large < 1 { 1 } else if large > end { end } else { large };
    (low, if high < low + 1 { low + 1 } else { high })
}

/// Turns a drag (where it started, where it is now) into the selected
/// rectangle. A click without a drag selects one pixel.
pub fn normalize_screenshot_rect(p0: (i32, i32), p1: (i32, i32), bounds: (i32, i32)) -> (r: Selection)
    ensures
        (r.0 as int, r.2 as int) == dragged_span(p0.0 as int, p1.0 as int, bounds.0 as int),
        (r.1 as int, r.3 as int) == dragged_span(p0.1 as int, p1.1 as int, bounds.1 as int),
        1 <= bounds.0 && 1 <= bounds.1 ==> valid_selection(r, bounds),
{
    let (x0, x1): (i32, i32) = drag_axis(p0.0, p1.0, bounds.0);
    let (y0, y1): (i32, i32) = drag_axis(p0.1, p1.1, bounds.1);
    (x0, y0, x1, y1)
}

/// A drag selects the same pixels whichever end it started from.
pub proof fn drag_direction_is_irrelevant(a: int, b: int, limit: int)
    ensures
        dragged_span(a, b, limit) == dragged_span(b, a, limit),
{
}

/// A drag that stays within the capture and is not a mere click selects
/// exactly what lies between its ends.
pub proof fn drag_within_bounds_is_exact(a: int, b: int, limit: int)
    requires
        0 <= a < b <= limit,
    ensures
        dragged_span(a, b, limit) == (a, b),
{
}

/// One edge of the selection.
#[derive(Clone, Copy, Debug, PartialEq, Eq, Structural)]
pub enum ScreenshotBorder {
    Left,
    Right,
    Top,
    Bottom,
}

/// Parts of a capture pixel in which positions between pixels are counted.
pub const SUBPIXELS: i64 = 65536;

/// How far `v` is outside `low..=high`.
pub open spec fn overshoot(v: int, low: int, high: int) -> int {
    if v < low {
        low - v
    } else if v > high {
        v - high
    } else {
        0
    }
}

/// The square of the distance, in subpixels, from a point to an edge of the
/// selection. An edge is the segment between two corners, not an endless line.
pub open spec fn edge_distance(rect: Selection, point: (i64, i64), border: ScreenshotBorder) -> int {
    let x0 = rect.0 * SUBPIXELS;
    let y0 = rect.1 * SUBPIXELS;
    let x1 = rect.2 * SUBPIXELS;
    let y1 = rect.3 * SUBPIXELS;
    let (dx, dy) = match border {
        ScreenshotBorder::Left => (point.0 - x0, overshoot(point.1 as int, y0, y1)),
        ScreenshotBorder::Right => (point.0 - x1, overshoot(point.1 as int, y0, y1)),
        ScreenshotBorder::Top => (overshoot(point.0 as int, x0, x1), point.1 - y0),
        ScreenshotBorder::Bottom => (overshoot(point.0 as int, x0, x1), point.1 - y1),
    };
    dx * dx + dy * dy
}

/// The edge nearest to a point. Of equally near ones the first counts, in the
/// order left, right, top, bottom.
pub open spec fn nearest_border(rect: Selection, point: (i64, i64)) -> ScreenshotBorder {
    let l = edge_distance(rect, point, ScreenshotBorder::Left);
    let r = edge_distance(rect, point, ScreenshotBorder::Right);
    let t = edge_distance(rect, point, ScreenshotBorder::Top);
    let b = edge_distance(rect, point, ScreenshotBorder::Bottom);
    if l <= r && l <= t && l <= b {
        ScreenshotBorder::Left
    } else if r <= t && r <= b {
        ScreenshotBorder::Right
    } else if t <= b {
        ScreenshotBorder::Top
    } else {
        ScreenshotBorder::Bottom
    }
}

/// No edge of the selection is nearer than the one that is picked.
pub proof fn nearest_border_is_nearest(rect: Selection, point: (i64, i64), border: ScreenshotBorder)
    ensures
        edge_distance(rect, point, nearest_border(rect, point)) <= edge_distance(
            rect,
            point,
            border,
        ),
{
}

fn overshoot_of(v: i64, low: i64, high: i64) -> (r: u64)
    requires
        -0x1_0000_0000_0000 <= low <= 0x1_0000_0000_0000,
        -0x1_0000_0000_0000 <= high <= 0x1_0000_0000_0000,
    ensures
        r == overshoot(v as int, low as int, high as int),
        r <= 0x8001_0000_0000_0000,
{
    if v < low {
        (low as i128 - v as i128) as u64
    } else if v > high {
        (v as i128 - high as i128) as u64
    } else {
        0
    }
}

/// The distance of a coordinate from an edge.
fn distance(v: i64, edge: i64) -> (r: u64)
    requires
        -0x1_0000_0000_0000 <= edge <= 0x1_0000_0000_0000,
    ensures
        r * r == (v - edge) * (v - edge),
        r <= 0x8001_0000_0000_0000,
{
    let d: i128 = v as i128 - edge as i128;
    let r: u64 = if d < 0 {
        (-d) as u64
    } else {
        d as u64
    };
    assert(r * r == (v - edge) * (v - edge)) by (nonlinear_arith)
        requires
            r == v - edge || r == edge - v,
    ;
    r
}

fn squares(dx: u64, dy: u64) -> (r: u128)
    requires
        dx <= 0x8001_0000_0000_0000,
        dy <= 0x8001_0000_0000_0000,
    ensures
        r == dx * dx + dy * dy,
{
    assert(0 <= dx * dx <= 0x8001_0000_0000_0000 * 0x8001_0000_0000_0000) by (nonlinear_arith)
        requires
            0 <= dx <= 0x8001_0000_0000_0000,
    ;
    assert(0 <= dy * dy <= 0x8001_0000_0000_0000 * 0x8001_0000_0000_0000) by (nonlinear_arith)
        requires
            0 <= dy <= 0x8001_0000_0000_0000,
    ;
    dx as u128 * dx as u128 + dy as u128 * dy as u128
}

/// The edge of the selection (in capture pixels) closest to the point (in
/// subpixels): the one that the nudge keys move.
pub fn active_screenshot_border(rect: Selection, point: (i64, i64)) -> (r: ScreenshotBorder)
    ensures
        r == nearest_border(rect, point),
{
    let x0: i64 = rect.0 as i64 * SUBPIXELS;
    let y0: i64 = rect.1 as i64 * SUBPIXELS;
    let x1: i64 = rect.2 as i64 * SUBPIXELS;
    let y1: i64 = rect.3 as i64 * SUBPIXELS;
    let out_x: u64 = overshoot_of(point.0, x0, x1);
    let out_y: u64 = overshoot_of(point.1, y0, y1);
    let l: u128 = squares(distance(point.0, x0), out_y);
    let r: u128 = squares(distance(point.0, x1), out_y);
    let t: u128 = squares(out_x, distance(point.1, y0));
    let b: u128 = squares(out_x, distance(point.1, y1));
    if l <= r && l <= t && l <= b {
        ScreenshotBorder::Left
    } else if r <= t && r <= b {
        ScreenshotBorder::Right
    } else if t <= b {
        ScreenshotBorder::Top
    } else {
        ScreenshotBorder::Bottom
    }
}

/// A direction in which the nudge keys push.
#[derive(Clone, Copy, Debug, PartialEq, Eq, Structural)]
pub enum Push {
    Up,
    Down,
    Left,
    Right,
}

/// The direction of a nudge key.
pub open spec fn push_of(key: char) -> Option<Push> {
    if key == 'w' {
        Some(Push::Up)
    } else if key == 's' {
        Some(Push::Down)
    } else if key == 'a' {
        Some(Push::Left)
    } else if key == 'd' {
        Some(Push::Right)
    } else {
        None
    }
}

pub fn push_for(key: char) -> (r: Option<Push>)
    ensures
        r == push_of(key),
{
    match key {
        'w' => Some(Push::Up),
        's' => Some(Push::Down),
        'a' => Some(Push::Left),
        'd' => Some(Push::Right),
        _ => None,
    }
}

/// The ends of one axis after a push by one pixel towards its low end
/// (`step` -1) or its high end (`step` 1).
///
/// With `Some(true)` or `Some(false)` the low or the high end itself moves; it
/// stops at the edge of the capture and one pixel short of the other end. With
/// `None` both move, unless that would leave the capture.
pub open spec fn pushed_span(span: (int, int), end: Option<bool>, step: int, limit: int) -> (int, int) {
    let (low, high) = span;
    match end {
        Some(true) => if step < 0 {
            (max_of(low - 1, 0), high)
        } else {
            (min_of(low + 1, high - 1), high)
        },
        Some(false) => if step < 0 {
            (low, max_of(high - 1, low + 1))
        } else {
            (low, min_of(high + 1, limit))
        },
        None => if (step < 0 && low - 1 >= 0) || (step > 0 && high + 1 <= limit) {
            (low + step, high + step)
        } else {
            (low, high)
        },
    }
}

/// The selection after a push: the active border moves along its own axis, and
/// the whole rectangle moves along the other one.
pub open spec fn nudged(
    rect: Selection,
    border: ScreenshotBorder,
    push: Push,
    bounds: (i32, i32),
) -> (int, int, int, int) {
    let x = (rect.0 as int, rect.2 as int);
    let y = (rect.1 as int, rect.3 as int);
    let x_end = match border {
        ScreenshotBorder::Left => Some(true),
        ScreenshotBorder::Right => Some(false),
        _ => None,
    };
    let y_end = match border {
        ScreenshotBorder::Top => Some(true),
        ScreenshotBorder::Bottom => Some(false),
        _ => None,
    };
    let nx = match push {
        Push::Left => pushed_span(x, x_end, -1, bounds.0 as int),
        Push::Right => pushed_span(x, x_end, 1, bounds.0 as int),
        _ => x,
    };
    let ny = match push {
        Push::Up => pushed_span(y, y_end, -1, bounds.1 as int),
        Push::Down => pushed_span(y, y_end, 1, bounds.1 as int),
        _ => y,
    };
    (nx.0, ny.0, nx.1, ny.1)
}

/// The coordinates leave room for a step of one pixel inwards.
pub open spec fn steppable(rect: Selection) -> bool {
    rect.0 < i32::MAX && rect.1 < i32::MAX && i32::MIN < rect.2 && i32::MIN < rect.3
}

fn push_span(low: i32, high: i32, end: Option<bool>, forward: bool, limit: i32) -> (r: (i32, i32))
    requires
        low < i32::MAX,
        i32::MIN < high,
    ensures
        (r.0 as int, r.1 as int) == pushed_span(
            (low as int, high as int),
            end,
            if forward {
                1
            } else {
                -1
            },
            limit as int,
        ),
{
    match end {
        Some(true) => if !forward {
            (if low < 1 { 0 } else { low - 1 }, high)
        } else {
            (if low + 1 < high - 1 { low + 1 } else { high - 1 }, high)
        },
        Some(false) => if !forward {
            (low, if high - 1 < low + 1 { low + 1 } else { high - 1 })
        } else {
            (low, if high < limit { high + 1 } else { limit })
        },
        None => if !forward && low >= 1 {
            (low - 1, high - 1)
        } else if forward && high < limit {
            (low + 1, high + 1)
        } else {
            (low, high)
        },
    }
}

/// Nudges the selection by one capture pixel with one of the keys `w`, `a`,
/// `s`, `d`. Any other key changes nothing.
pub fn nudge_screenshot_border(
    rect: Selection,
    border: ScreenshotBorder,
    key: char,
    bounds: (i32, i32),
) -> (r: Selection)
    requires
        steppable(rect),
    ensures
        match push_of(key) {
            Some(push) => (r.0 as int, r.1 as int, r.2 as int, r.3 as int) == nudged(
                rect,
                border,
                push,
                bounds,
            ),
            None => r == rect,
        },
{
    let x_end: Option<bool> = match border {
        ScreenshotBorder::Left => Some(true),
        ScreenshotBorder::Right => Some(false),
        _ => None,
    };
    let y_end: Option<bool> = match border {
        ScreenshotBorder::Top => Some(true),
        ScreenshotBorder::Bottom => Some(false),
        _ => None,
    };
    match push_for(key) {
        Some(Push::Up) => {
            let (y0, y1): (i32, i32) = push_span(rect.1, rect.3, y_end, false, bounds.1);
            (rect.0, y0, rect.2, y1)
        },
        Some(Push::Down) => {
            let (y0, y1): (i32, i32) = push_span(rect.1, rect.3, y_end, true, bounds.1);
            (rect.0, y0, rect.2, y1)
        },
        Some(Push::Left) => {
            let (x0, x1): (i32, i32) = push_span(rect.0, rect.2, x_end, false, bounds.0);
            (x0, rect.1, x1, rect.3)
        },
        Some(Push::Right) => {
            let (x0, x1): (i32, i32) = push_span(rect.0, rect.2, x_end, true, bounds.0);
            (x0, rect.1, x1, rect.3)
        },
        None => rect,
    }
}

/// A nudge never takes a selection out of the capture, and never leaves it
/// without a pixel.
pub proof fn nudge_keeps_selection_valid(
    rect: Selection,
    border: ScreenshotBorder,
    push: Push,
    bounds: (i32, i32),
)
    requires
        valid_selection(rect, bounds),
    ensures
        ({
            let (x0, y0, x1, y1) = nudged(rect, border, push, bounds);
            0 <= x0 < x1 <= bounds.0 && 0 <= y0 < y1 <= bounds.1
        }),
{
}

/// A push across the axis of the active border moves the whole selection or
/// nothing: its size stays.
pub proof fn translation_keeps_size(
    rect: Selection,
    border: ScreenshotBorder,
    push: Push,
    bounds: (i32, i32),
)
    requires
        (border == ScreenshotBorder::Top || border == ScreenshotBorder::Bottom) == (push
            == Push::Left || push == Push::Right),
    ensures
        ({
            let (x0, y0, x1, y1) = nudged(rect, border, push, bounds);
            x1 - x0 == rect.2 - rect.0 && y1 - y0 == rect.3 - rect.1
        }),
{
}

/// A nudge moves each side by at most one pixel.
pub proof fn nudge_moves_by_one_pixel(
    rect: Selection,
    border: ScreenshotBorder,
    push: Push,
    bounds: (i32, i32),
)
    requires
        valid_selection(rect, bounds),
    ensures
        ({
            let (x0, y0, x1, y1) = nudged(rect, border, push, bounds);
            &&& -1 <= x0 - rect.0 <= 1
            &&& -1 <= y0 - rect.1 <= 1
            &&& -1 <= x1 - rect.2 <= 1
            &&& -1 <= y1 - rect.3 <= 1
        }),
{
}

/// The direction against a push.
pub open spec fn reversed(push: Push) -> Push {
    match push {
        Push::Up => Push::Down,
        Push::Down => Push::Up,
        Push::Left => Push::Right,
        Push::Right => Push::Left,
    }
}

/// A nudge that changed the selection is undone by the opposite one.
pub proof fn opposite_nudge_undoes(
    rect: Selection,
    after: Selection,
    border: ScreenshotBorder,
    push: Push,
    bounds: (i32, i32),
)
    requires
        valid_selection(rect, bounds),
        (after.0 as int, after.1 as int, after.2 as int, after.3 as int) == nudged(
            rect,
            border,
            push,
            bounds,
        ),
        after != rect,
    ensures
        nudged(after, border, reversed(push), bounds) == (
            rect.0 as int,
            rect.1 as int,
            rect.2 as int,
            rect.3 as int,
        ),
{
}

fn lesser(a: i32, b: i32) -> (r: i32)
    ensures
        r == min_of(a as int, b as int),
{
    if a < b {
        a
    } else {
        b
    }
}

fn greater(a: i32, b: i32) -> (r: i32)
    ensures
        r == max_of(a as int, b as int),
{
    if a < b {
        b
    } else {
        a
    }
}

/// `a + b`, or the nearest value of the type.
fn sum(a: i32, b: i64) -> (r: i32)
    requires
        -0x1_0000_0000 <= b <= 0x1_0000_0000,
    ensures
        i32::MIN <= a + b <= i32::MAX ==> r == a + b,
        a + b > i32::MAX ==> r == i32::MAX,
        a + b < i32::MIN ==> r == i32::MIN,
{
    let s: i64 = a as i64 + b;
    if s > i32::MAX as i64 {
        i32::MAX
    } else if s < i32::MIN as i64 {
        i32::MIN
    } else {
        s as i32
    }
}

/// The channel value 60 % of the way from `v` to white.
pub open spec fn lightened(v: u8) -> u8 {
    (v + (255 - v) * 3 / 5) as u8
}

fn lighten(v: u8) -> (r: u8)
    ensures
        r == lightened(v),
{
    (v as u16 + (255 - v as u16) * 3 / 5) as u8
}

/// The colour of a border band: the selection colour, lightened on the active
/// edge.
pub open spec fn band_px(color: [u8; 3], active: bool) -> Quad {
    if active {
        (lightened(color[0]), lightened(color[1]), lightened(color[2]), 0xFFu8)
    } else {
        (color[0], color[1], color[2], 0xFFu8)
    }
}

/// The thickness of a border band: doubled on the active edge.
pub open spec fn band_width(border_px: int, active: bool) -> int {
    if active {
        max_of(border_px, 1) * 2
    } else {
        max_of(border_px, 1)
    }
}

/// Whether `(x, y)` lies in the band along an edge of the selection. Every
/// band runs inside the selection's own sides: in a selection that is narrower
/// than the band it ends at the opposite edge.
pub open spec fn in_band(
    rect: Selection,
    border_px: int,
    active_border: Option<ScreenshotBorder>,
    border: ScreenshotBorder,
    x: int,
    y: int,
) -> bool {
    let w = band_width(border_px, active_border == Some(border));
    let (x0, y0, x1, y1) = (rect.0 as int, rect.1 as int, rect.2 as int, rect.3 as int);
    match border {
        ScreenshotBorder::Top => pixels::in_rect(x, y, x0, x1, y0, min_of(y0 + w, y1)),
        ScreenshotBorder::Bottom => pixels::in_rect(x, y, x0, x1, max_of(y1 - w, y0), y1),
        ScreenshotBorder::Left => pixels::in_rect(x, y, x0, min_of(x0 + w, x1), y0, y1),
        ScreenshotBorder::Right => pixels::in_rect(x, y, max_of(x1 - w, x0), x1, y0, y1),
    }
}

/// The overlay pixel at `(x, y)`. Without a selection all is transparent. With
/// one, only its border is not: where bands meet, the one along a horizontal
/// active edge wins, then right over left over bottom over top.
pub open spec fn overlay_px(
    rect: Option<Selection>,
    color: [u8; 3],
    border_px: int,
    active_border: Option<ScreenshotBorder>,
    x: int,
    y: int,
) -> Quad {
    match rect {
        None => (0u8, 0u8, 0u8, 0u8),
        Some(rect) => {
            let hits = |b: ScreenshotBorder| in_band(rect, border_px, active_border, b, x, y);
            let paint = |b: ScreenshotBorder| band_px(color, active_border == Some(b));
            if active_border == Some(ScreenshotBorder::Top) && hits(ScreenshotBorder::Top) {
                paint(ScreenshotBorder::Top)
            } else if active_border == Some(ScreenshotBorder::Bottom) && hits(
                ScreenshotBorder::Bottom,
            ) {
                paint(ScreenshotBorder::Bottom)
            } else if hits(ScreenshotBorder::Right) {
                paint(ScreenshotBorder::Right)
            } else if hits(ScreenshotBorder::Left) {
                paint(ScreenshotBorder::Left)
            } else if hits(ScreenshotBorder::Bottom) {
                paint(ScreenshotBorder::Bottom)
            } else if hits(ScreenshotBorder::Top) {
                paint(ScreenshotBorder::Top)
            } else {
                (0u8, 0u8, 0u8, 0u8)
            }
        },
    }
}

fn is_active(active_border: Option<ScreenshotBorder>, border: ScreenshotBorder) -> (r: bool)
    ensures
        r == (active_border == Some(border)),
{
    match active_border {
        Some(b) => b == border,
        None => false,
    }
}

/// Paints the band along one edge of the selection.
fn paint_band(
    overlay: &mut [u8],
    width: i32,
    height: i32,
    rect: Selection,
    color: [u8; 3],
    border_px: i32,
    active_border: Option<ScreenshotBorder>,
    border: ScreenshotBorder,
)
    requires
        0 <= width,
        0 <= height,
        width * height * 4 <= old(overlay)@.len(),
    ensures
        pixels::painted(
            old(overlay)@,
            final(overlay)@,
            width as int,
            height as int,
            |x: int, y: int, p: Quad|
                if in_band(rect, border_px as int, active_border, border, x, y) {
                    band_px(color, active_border == Some(border))
                } else {
                    p
                },
        ),
{
    let active: bool = is_active(active_border, border);
    let b: i64 = if border_px < 1 { 1 } else { border_px as i64 };
    let w: i64 = if active { b * 2 } else { b };
    let px: [u8; 4] = if active {
        [lighten(color[0]), lighten(color[1]), lighten(color[2]), 0xFF]
    } else {
        [color[0], color[1], color[2], 0xFF]
    };
    let (x0, y0, x1, y1): (i32, i32, i32, i32) = rect;
    let (bx0, bx1, by0, by1): (i32, i32, i32, i32) = match border {
        ScreenshotBorder::Top => (x0, x1, y0, lesser(sum(y0, w), y1)),
        ScreenshotBorder::Bottom => (x0, x1, greater(sum(y1, -w), y0), y1),
        ScreenshotBorder::Left => (x0, lesser(sum(x0, w), x1), y0, y1),
        ScreenshotBorder::Right => (greater(sum(x1, -w), x0), x1, y0, y1),
    };
    pixels::fill_px(overlay, width, height, bx0, bx1, by0, by1, px);
}

/// Redraws the overlay of the selection: a transparent canvas with the border
/// of the selection on it. The active edge, the one that the nudge keys move,
/// is drawn twice as thick and lightened.
pub fn fill_screenshot_overlay(
    overlay: &mut [u8],
    width: i32,
    height: i32,
    rect: Option<Selection>,
    color: [u8; 3],
    border_px: i32,
    active_border: Option<ScreenshotBorder>,
)
    requires
        0 <= width,
        0 <= height,
        width * height * 4 <= old(overlay)@.len(),
    ensures
        pixels::painted(
            old(overlay)@,
            final(overlay)@,
            width as int,
            height as int,
            |x: int, y: int, p: Quad|
                overlay_px(rect, color, border_px as int, active_border, x, y),
        ),
{
    pixels::fill_px(overlay, width, height, 0, width, 0, height, [0, 0, 0, 0]);
    if let Some(rect) = rect {
        let b: i32 = border_px;
        let a: Option<ScreenshotBorder> = active_border;
        paint_band(overlay, width, height, rect, color, b, a, ScreenshotBorder::Top);
        paint_band(overlay, width, height, rect, color, b, a, ScreenshotBorder::Bottom);
        paint_band(overlay, width, height, rect, color, b, a, ScreenshotBorder::Left);
        paint_band(overlay, width, height, rect, color, b, a, ScreenshotBorder::Right);
        if is_active(a, ScreenshotBorder::Top) {
            paint_band(overlay, width, height, rect, color, b, a, ScreenshotBorder::Top);
        }
        if is_active(a, ScreenshotBorder::Bottom) {
            paint_band(overlay, width, height, rect, color, b, a, ScreenshotBorder::Bottom);
        }
    }
}

/// Outside the selection the overlay is fully transparent: nothing is dimmed.
pub proof fn overlay_is_clear_outside(
    rect: Selection,
    color: [u8; 3],
    border_px: int,
    active_border: Option<ScreenshotBorder>,
    x: int,
    y: int,
)
    requires
        !pixels::in_rect(x, y, rect.0 as int, rect.2 as int, rect.1 as int, rect.3 as int),
    ensures
        overlay_px(Some(rect), color, border_px, active_border, x, y) == (0u8, 0u8, 0u8, 0u8),
{
}

/// The inside of the selection, past every border band, is fully transparent.
pub proof fn overlay_is_clear_inside(
    rect: Selection,
    color: [u8; 3],
    border_px: int,
    active_border: Option<ScreenshotBorder>,
    x: int,
    y: int,
)
    requires
        pixels::in_rect(
            x,
            y,
            rect.0 + 2 * max_of(border_px, 1),
            rect.2 - 2 * max_of(border_px, 1),
            rect.1 + 2 * max_of(border_px, 1),
            rect.3 - 2 * max_of(border_px, 1),
        ),
    ensures
        overlay_px(Some(rect), color, border_px, active_border, x, y).3 == 0,
{
}

/// Every pixel along the edges of a selection is covered by its border.
pub proof fn overlay_border_is_solid(
    rect: Selection,
    color: [u8; 3],
    border_px: int,
    active_border: Option<ScreenshotBorder>,
    x: int,
    y: int,
)
    requires
        pixels::in_rect(x, y, rect.0 as int, rect.2 as int, rect.1 as int, rect.3 as int),
        x == rect.0 || x == rect.2 - 1 || y == rect.1 || y == rect.3 - 1,
    ensures
        overlay_px(Some(rect), color, border_px, active_border, x, y).3 == 255,
{
}

/// A drag selects every pixel of the capture that lies between its ends, and no
/// other, but always at least one: a click selects the pixel that it hits, or
/// the nearest one of the capture.
pub proof fn drag_selects_what_lies_between(a: int, b: int, limit: int, p: int)
    requires
        1 <= limit,
        0 <= p < limit,
    ensures
        ({
            let (low, high) = dragged_span(a, b, limit);
            &&& 0 <= low < high <= limit
            &&& (a <= p < b || b <= p < a) ==> low <= p < high
            &&& low <= p < high && !(a <= p < b || b <= p < a) ==> high == low + 1
            &&& a == b && a == p ==> low == p && high == p + 1
            &&& a < 0 && b < 0 ==> low == 0 && high == 1
            &&& a >= limit && b >= limit ==> low == limit - 1 && high == limit
        }),
{
}

/// A point beside the selection, level with one of its edges, picks that edge.
pub proof fn points_beside_pick_the_edge_they_face(rect: Selection, point: (i64, i64))
    requires
        rect.0 < rect.2,
        rect.1 < rect.3,
    ensures
        ({
            let (x, y) = (point.0 as int, point.1 as int);
            let (x0, x1) = (rect.0 * 65536, rect.2 * 65536);
            let (y0, y1) = (rect.1 * 65536, rect.3 * 65536);
            &&& x < x0 && y0 <= y <= y1 ==> nearest_border(rect, point) == ScreenshotBorder::Left
            &&& x > x1 && y0 <= y <= y1 ==> nearest_border(rect, point) == ScreenshotBorder::Right
            &&& y < y0 && x0 < x < x1 ==> nearest_border(rect, point) == ScreenshotBorder::Top
            &&& y > y1 && x0 < x < x1 ==> nearest_border(rect, point) == ScreenshotBorder::Bottom
        }),
{
    let (x, y) = (point.0 as int, point.1 as int);
    let (x0, x1) = (rect.0 * 65536, rect.2 * 65536);
    let (y0, y1) = (rect.1 * 65536, rect.3 * 65536);
    lemma_squares_grow(x - x0, x - x1);
    lemma_squares_grow(x - x1, x - x0);
    lemma_squares_grow(y - y0, y - y1);
    lemma_squares_grow(y - y1, y - y0);
    lemma_squares_grow(0, y - y0);
    lemma_squares_grow(0, y - y1);
    lemma_squares_grow(0, x - x0);
    lemma_squares_grow(0, x - x1);
    lemma_squares_grow(x0 - x, x - x0);
    lemma_squares_grow(y0 - y, y - y0);
}

/// A point within the selection picks the edge that it is closer to than to any
/// other.
pub proof fn points_inside_pick_the_closest_edge(rect: Selection, point: (i64, i64))
    requires
        rect.0 * 65536 <= point.0 <= rect.2 * 65536,
        rect.1 * 65536 <= point.1 <= rect.3 * 65536,
    ensures
        ({
            let left = point.0 - rect.0 * 65536;
            let right = rect.2 * 65536 - point.0;
            let top = point.1 - rect.1 * 65536;
            let bottom = rect.3 * 65536 - point.1;
            &&& left < right && left < top && left < bottom ==> nearest_border(rect, point)
                == ScreenshotBorder::Left
            &&& right < left && right < top && right < bottom ==> nearest_border(rect, point)
                == ScreenshotBorder::Right
            &&& top < left && top < right && top < bottom ==> nearest_border(rect, point)
                == ScreenshotBorder::Top
            &&& bottom < left && bottom < right && bottom < top ==> nearest_border(rect, point)
                == ScreenshotBorder::Bottom
        }),
{
    let left = point.0 - rect.0 * 65536;
    let right = rect.2 * 65536 - point.0;
    let top = point.1 - rect.1 * 65536;
    let bottom = rect.3 * 65536 - point.1;
    lemma_squares_grow(left, right);
    lemma_squares_grow(left, top);
    lemma_squares_grow(left, bottom);
    lemma_squares_grow(right, left);
    lemma_squares_grow(right, top);
    lemma_squares_grow(right, bottom);
    lemma_squares_grow(top, left);
    lemma_squares_grow(top, right);
    lemma_squares_grow(top, bottom);
    lemma_squares_grow(bottom, left);
    lemma_squares_grow(bottom, right);
    lemma_squares_grow(bottom, top);
    let r = point.0 - rect.2 * 65536;
    let b = point.1 - rect.3 * 65536;
    assert(r * r == right * right) by (nonlinear_arith)
        requires
            r == -right,
    ;
    assert(b * b == bottom * bottom) by (nonlinear_arith)
        requires
            b == -bottom,
    ;
}

/// A larger distance has a larger square, whatever the signs.
proof fn lemma_squares_grow(a: int, b: int)
    ensures
        a * a >= 0,
        b * b >= 0,
        -b < a < b || b < a < -b ==> a * a < b * b,
        a == -b ==> a * a == b * b,
        a == 0 ==> a * a == 0,
{
    assert(a * a >= 0) by (nonlinear_arith);
    assert(b * b >= 0) by (nonlinear_arith);
    assert(-b < a < b || b < a < -b ==> a * a < b * b) by (nonlinear_arith);
    assert(a == -b ==> a * a == b * b) by (nonlinear_arith);
}

/// The nudge keys push as they lie on the keyboard.
pub proof fn nudge_keys_push_their_way()
    ensures
        push_of('w') == Some(Push::Up),
        push_of('a') == Some(Push::Left),
        push_of('s') == Some(Push::Down),
        push_of('d') == Some(Push::Right),
        forall|key: char|
            key != 'w' && key != 'a' && key != 's' && key != 'd' ==> (#[trigger] push_of(key)) is None,
{
}

/// A push along the axis of the active edge moves that edge by one pixel, and
/// nothing else, as long as it stays on the capture and off the opposite edge.
pub proof fn nudge_moves_the_active_edge(rect: Selection, bounds: (i32, i32))
    requires
        valid_selection(rect, bounds),
    ensures
        ({
            let (x0, y0, x1, y1) = (rect.0 as int, rect.1 as int, rect.2 as int, rect.3 as int);
            let moved = |border: ScreenshotBorder, push: Push| nudged(rect, border, push, bounds);
            &&& x0 > 0 ==> moved(ScreenshotBorder::Left, Push::Left) == (x0 - 1, y0, x1, y1)
            &&& x0 + 1 < x1 ==> moved(ScreenshotBorder::Left, Push::Right) == (x0 + 1, y0, x1, y1)
            &&& x1 < bounds.0 ==> moved(ScreenshotBorder::Right, Push::Right) == (x0, y0, x1 + 1, y1)
            &&& x0 + 1 < x1 ==> moved(ScreenshotBorder::Right, Push::Left) == (x0, y0, x1 - 1, y1)
            &&& y0 > 0 ==> moved(ScreenshotBorder::Top, Push::Up) == (x0, y0 - 1, x1, y1)
            &&& y0 + 1 < y1 ==> moved(ScreenshotBorder::Top, Push::Down) == (x0, y0 + 1, x1, y1)
            &&& y1 < bounds.1 ==> moved(ScreenshotBorder::Bottom, Push::Down) == (x0, y0, x1, y1 + 1)
            &&& y0 + 1 < y1 ==> moved(ScreenshotBorder::Bottom, Push::Up) == (x0, y0, x1, y1 - 1)
            &&& x0 == 0 ==> moved(ScreenshotBorder::Left, Push::Left) == (x0, y0, x1, y1)
            &&& x1 == bounds.0 ==> moved(ScreenshotBorder::Right, Push::Right) == (x0, y0, x1, y1)
            &&& y0 == 0 ==> moved(ScreenshotBorder::Top, Push::Up) == (x0, y0, x1, y1)
            &&& y1 == bounds.1 ==> moved(ScreenshotBorder::Bottom, Push::Down) == (x0, y0, x1, y1)
        }),
{
}

/// A push across the axis of the active edge moves the whole selection by one
/// pixel, as long as it stays on the capture, and else nothing.
pub proof fn nudge_across_moves_the_selection(
    rect: Selection,
    border: ScreenshotBorder,
    bounds: (i32, i32),
)
    requires
        valid_selection(rect, bounds),
    ensures
        ({
            let (x0, y0, x1, y1) = (rect.0 as int, rect.1 as int, rect.2 as int, rect.3 as int);
            let upright = border == ScreenshotBorder::Left || border == ScreenshotBorder::Right;
            let moved = |push: Push| nudged(rect, border, push, bounds);
            &&& upright ==> moved(Push::Up) == (if y0 > 0 {
                (x0, y0 - 1, x1, y1 - 1)
            } else {
                (x0, y0, x1, y1)
            })
            &&& upright ==> moved(Push::Down) == (if y1 < bounds.1 {
                (x0, y0 + 1, x1, y1 + 1)
            } else {
                (x0, y0, x1, y1)
            })
            &&& !upright ==> moved(Push::Left) == (if x0 > 0 {
                (x0 - 1, y0, x1 - 1, y1)
            } else {
                (x0, y0, x1, y1)
            })
            &&& !upright ==> moved(Push::Right) == (if x1 < bounds.0 {
                (x0 + 1, y0, x1 + 1, y1)
            } else {
                (x0, y0, x1, y1)
            })
        }),
{
}

/// A border without an active edge has the selection colour, as thick as it
/// should be on each side, and what lies further inside is clear.
pub proof fn border_has_the_selection_color(
    rect: Selection,
    color: [u8; 3],
    border_px: int,
    x: int,
    y: int,
)
    requires
        border_px >= 1,
        rect.0 <= x < rect.2,
        rect.1 <= y < rect.3,
    ensures
        ({
            let p = overlay_px(Some(rect), color, border_px, None, x, y);
            if x < rect.0 + border_px || rect.2 - border_px <= x || y < rect.1 + border_px || rect.3
                - border_px <= y {
                p == (color[0], color[1], color[2], 255u8)
            } else {
                p.3 == 0
            }
        }),
{
}

/// The active edge is lighter than the others and twice as thick.
pub proof fn active_edge_stands_out(
    rect: Selection,
    color: [u8; 3],
    border_px: int,
    x: int,
    y: int,
)
    requires
        border_px >= 1,
        rect.0 <= x < rect.2,
        rect.1 <= y < rect.3,
    ensures
        ({
            let px = |active: ScreenshotBorder|
                overlay_px(Some(rect), color, border_px, Some(active), x, y);
            let light = (lightened(color[0]), lightened(color[1]), lightened(color[2]), 255u8);
            let plain = (color[0], color[1], color[2], 255u8);
            &&& y < rect.1 + 2 * border_px ==> px(ScreenshotBorder::Top) == light
            &&& rect.3 - 2 * border_px <= y ==> px(ScreenshotBorder::Bottom) == light
            &&& rect.2 - 2 * border_px <= x ==> px(ScreenshotBorder::Right) == light
            &&& x < rect.0 + 2 * border_px && x < rect.2 - border_px ==> px(ScreenshotBorder::Left)
                == light
            &&& y >= rect.1 + 2 * border_px && x < rect.0 + border_px ==> px(ScreenshotBorder::Top)
                == plain
            &&& y >= rect.1 + 2 * border_px && rect.2 - border_px <= x ==> px(
                ScreenshotBorder::Top,
            ) == plain
            &&& y < rect.3 - 2 * border_px && y < rect.1 + border_px ==> px(
                ScreenshotBorder::Bottom,
            ) == plain
            &&& x < rect.2 - 2 * border_px && x < rect.0 + border_px ==> px(
                ScreenshotBorder::Right,
            ) == plain
            &&& x >= rect.0 + 2 * border_px && rect.2 - border_px <= x ==> px(
                ScreenshotBorder::Left,
            ) == plain
        }),
{
}

/// Lightening goes three fifths of the way to white, rounded down.
pub proof fn lightening_goes_towards_white(v: u8)
    ensures
        v <= lightened(v),
        5 * (lightened(v) - v) <= 3 * (255 - v) < 5 * (lightened(v) - v) + 5,
{
}

/// Without a selection the overlay is clear.
pub proof fn no_selection_shows_nothing(
    color: [u8; 3],
    border_px: int,
    active: Option<ScreenshotBorder>,
    x: int,
    y: int,
)
    ensures
        overlay_px(None, color, border_px, active, x, y) == (0u8, 0u8, 0u8, 0u8),
{
}

} // verus!
