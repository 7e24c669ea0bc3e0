//! Drawing annotations onto the magnified view: the tools, the pie menu that
//! picks them, what has been drawn, undo and redo.

use crate::config;
use crate::number;
use crate::number::Number;
use crate::osd::OsdSprite;
use crate::pie;
use crate::pie::{DrawTool, PieAction, SelectionStyle, RING};
use crate::render::RgbaBuffer;
use crate::timing;
use crate::timing::TOOLTIP_DELAY;
use crate::view::Point;
use vstd::prelude::*;

verus! {

/// The bits of 2: the width of every stroke, in pixels.
pub const STROKE_WIDTH: u64 = 0x4000_0000_0000_0000;

/// The bits of 30: nearer to the middle of the menu, no button is meant.
pub const PIE_DEAD_ZONE: u64 = 0x403E_0000_0000_0000;

/// The bits of 70: the inner radius of the colour ring.
pub const COLOR_INNER_R: u64 = 0x4051_8000_0000_0000;

/// The bits of 130: the outer radius of the colour ring.
pub const COLOR_OUTER_R: u64 = 0x4060_4000_0000_0000;

/// The bits of negative infinity.
pub const LOWEST: u64 = 0xFFF0_0000_0000_0000;

/// The first of the largest of some numbers and its place, beginning from
/// nothing at place 0.
pub open spec fn leader(dots: Seq<Number>, n: int) -> (int, Number)
    decreases n,
{
    if n <= 0 {
        (0, number::num(LOWEST))
    } else {
        let (best, top) = leader(dots, n - 1);
        if top.below(dots[n - 1]) {
            (n - 1, dots[n - 1])
        } else {
            (best, top)
        }
    }
}

/// The leader is at least as large as all others, and larger than those before.
pub proof fn leader_is_largest(dots: Seq<Number>, n: int, j: int)
    requires
        0 <= j < n <= dots.len(),
        forall|k: int| 0 <= k < n ==> (#[trigger] dots[k]).finite(),
    ensures
        0 <= leader(dots, n).0 < n,
        leader(dots, n).1 == dots[leader(dots, n).0],
        dots[j].at_most(leader(dots, n).1),
        j < leader(dots, n).0 ==> dots[j].below(leader(dots, n).1),
    decreases n,
{
    assert(dots[n - 1].finite());
    if n > 1 {
        leader_is_largest(dots, n - 1, if j < n - 1 { j } else { 0 });
    } else {
        assert(leader(dots, 0) == (0int, number::num(LOWEST)));
    }
}

/// The button whose direction is nearest to the pointer's. `dots` holds, for
/// each button, how far the pointer's direction agrees with it.
pub fn closest_by_direction(dots: &Vec<Number>) -> (r: usize)
    ensures
        r == leader(dots@, dots@.len() as int).0,
        dots@.len() > 0 ==> r < dots@.len(),
{
    let mut best: usize = 0;
    let mut top: Number = Number { bits: LOWEST };
    let mut i: usize = 0;
    while i < dots.len()
        invariant
            i <= dots@.len(),
            leader(dots@, i as int) == (best as int, top),
            best == 0 || best < i,
        decreases dots.len() - i,
    {
        if top.lt(dots[i]) {
            top = dots[i];
            best = i;
        }
        i += 1;
    }
    best
}

/// Whether a distance from the middle of the menu falls on the colour ring.
pub open spec fn on_ring(r: Number) -> bool {
    number::num(COLOR_INNER_R).at_most(r) && r.at_most(number::num(COLOR_OUTER_R))
}

/// The button meant by a direction: none near the middle, a colour on the
/// colour ring, a tool elsewhere.
pub open spec fn meant_by_direction(
    r: Number,
    color_dots: Seq<Number>,
    tool_dots: Seq<Number>,
) -> Option<int> {
    if r.below(number::num(PIE_DEAD_ZONE)) {
        None
    } else if on_ring(r) {
        Some(leader(color_dots, color_dots.len() as int).0)
    } else {
        Some(RING + leader(tool_dots, tool_dots.len() as int).0)
    }
}

/// Finds the button by direction. `r` is the pointer's distance from the middle
/// of the menu in the menu's pixels.
pub fn find_nearest(r: Number, color_dots: &Vec<Number>, tool_dots: &Vec<Number>) -> (b: Option<
    usize,
>)
    requires
        color_dots@.len() == RING,
        tool_dots@.len() == RING,
    ensures
        pie::at(b) == meant_by_direction(r, color_dots@, tool_dots@),
{
    if r.lt(Number { bits: PIE_DEAD_ZONE }) {
        return None;
    }
    if (Number { bits: COLOR_INNER_R }).le(r) && r.le(Number { bits: COLOR_OUTER_R }) {
        return Some(closest_by_direction(color_dots));
    }
    Some(RING + closest_by_direction(tool_dots))
}

/// Whether the pointer is on a tool button, given its position relative to the
/// button's top left corner.
pub open spec fn on_button(local: (i32, i32)) -> bool {
    pie::in_rounded(
        local.0 as int,
        local.1 as int,
        pie::BUTTON as int,
        pie::BUTTON as int,
        pie::BUTTON_CORNER as int,
    )
}

/// The first of the tool buttons from `from` on that the pointer is on.
pub open spec fn first_button(locals: Seq<(i32, i32)>, from: int) -> Option<int>
    decreases locals.len() - from,
{
    if from < 0 || from >= locals.len() {
        None
    } else if on_button(locals[from]) {
        Some(from)
    } else {
        first_button(locals, from + 1)
    }
}

/// The button meant by a position: a tool button under the pointer comes before
/// the one that its direction means, the colour ring before both.
pub open spec fn meant_by_position(
    r: Number,
    color_dots: Seq<Number>,
    tool_dots: Seq<Number>,
    locals: Seq<(i32, i32)>,
) -> Option<int> {
    if r.below(number::num(PIE_DEAD_ZONE)) || on_ring(r) || first_button(locals, 0) is None {
        meant_by_direction(r, color_dots, tool_dots)
    } else {
        Some(RING + first_button(locals, 0)->0)
    }
}

/// Finds the button by position. `locals` holds the pointer's position relative
/// to each tool button's top left corner.
pub fn hit_test_overlap(
    r: Number,
    color_dots: &Vec<Number>,
    tool_dots: &Vec<Number>,
    locals: &Vec<(i32, i32)>,
) -> (b: Option<usize>)
    requires
        color_dots@.len() == RING,
        tool_dots@.len() == RING,
        locals@.len() == RING,
    ensures
        pie::at(b) == meant_by_position(r, color_dots@, tool_dots@, locals@),
{
    if r.lt(Number { bits: PIE_DEAD_ZONE }) {
        return None;
    }
    if (Number { bits: COLOR_INNER_R }).le(r) && r.le(Number { bits: COLOR_OUTER_R }) {
        return Some(closest_by_direction(color_dots));
    }
    let mut i: usize = 0;
    while i < locals.len()
        invariant
            i <= locals@.len(),
            locals@.len() == RING,
            !r.below(number::num(PIE_DEAD_ZONE)),
            !on_ring(r),
            first_button(locals@, 0) == first_button(locals@, i as int),
        decreases locals.len() - i,
    {
        let (lx, ly): (i32, i32) = locals[i];
        if pie::point_in_rounded_rect(lx, ly, pie::BUTTON, pie::BUTTON, pie::BUTTON_CORNER) {
            return Some(RING + i);
        }
        i += 1;
    }
    Some(RING + closest_by_direction(tool_dots))
}

/// Something drawn onto the view, in capture pixels.
#[derive(Debug)]
pub enum Annotation {
    Freehand { points: Vec<Point>, color: [u8; 3], width: Number },
    Line { start: Point, end: Point, color: [u8; 3], width: Number },
    Box { top_left: Point, bottom_right: Point, color: [u8; 3], width: Number },
    Arrow { start: Point, end: Point, color: [u8; 3], width: Number },
    Circle { center: Point, radius: Number, color: [u8; 3], width: Number },
    Number { pos: Point, value: i32, color: [u8; 3] },
}

impl Annotation {
    pub open spec fn ink(self) -> [u8; 3] {
        match self {
            Annotation::Freehand { points, color, width } => color,
            Annotation::Line { start, end, color, width } => color,
            Annotation::Box { top_left, bottom_right, color, width } => color,
            Annotation::Arrow { start, end, color, width } => color,
            Annotation::Circle { center, radius, color, width } => color,
            Annotation::Number { pos, value, color } => color,
        }
    }

    pub fn color(&self) -> (r: [u8; 3])
        ensures
            r == self.ink(),
    {
        match self {
            Annotation::Freehand { points: _, color, width: _ } => *color,
            Annotation::Line { start: _, end: _, color, width: _ } => *color,
            Annotation::Box { top_left: _, bottom_right: _, color, width: _ } => *color,
            Annotation::Arrow { start: _, end: _, color, width: _ } => *color,
            Annotation::Circle { center: _, radius: _, color, width: _ } => *color,
            Annotation::Number { pos: _, value: _, color } => *color,
        }
    }
}

/// A stroke that is still being drawn.
#[derive(Debug)]
pub struct DrawingInProgress {
    pub tool: DrawTool,
    pub color: [u8; 3],
    pub start: Point,
    pub current: Point,
    pub points: Vec<Point>,
}

impl DrawingInProgress {
    pub fn new(tool: DrawTool, color: [u8; 3], start: Point) -> (r: DrawingInProgress)
        ensures
            r.tool == tool,
            r.color == color,
            r.start == start,
            r.current == start,
            r.points@ == seq![start],
    {
        let mut points: Vec<Point> = Vec::new();
        points.push(start);
        DrawingInProgress { tool, color, start, current: start, points }
    }
}

/// What has been drawn, what can be redone (the next one last), and the next
/// number to put down.
pub type History = (Seq<Annotation>, Seq<Annotation>, int);

/// The history after a new annotation: nothing is left to redo.
pub open spec fn added(h: History, a: Annotation) -> History {
    (
        h.0.push(a),
        Seq::empty(),
        if a is Number {
            h.2 + 1
        } else {
            h.2
        },
    )
}

/// The history after an undo.
pub open spec fn undone(h: History) -> History {
    if h.0.len() == 0 {
        h
    } else {
        let a = h.0.last();
        (
            h.0.drop_last(),
            h.1.push(a),
            if a is Number && a->value < h.2 {
                a->value as int
            } else {
                h.2
            },
        )
    }
}

/// The history after a redo.
pub open spec fn redone(h: History) -> History {
    if h.1.len() == 0 {
        h
    } else {
        let a = h.1.last();
        (
            h.0.push(a),
            h.1.drop_last(),
            if a is Number && a->value >= h.2 {
                a->value + 1
            } else {
                h.2
            },
        )
    }
}

/// The annotations of the first `n` that no stroke of the eraser hit.
pub open spec fn spared(all: Seq<Annotation>, hits: Seq<bool>, n: int) -> Seq<Annotation>
    decreases n,
{
    if n <= 0 {
        Seq::empty()
    } else if hits[n - 1] {
        spared(all, hits, n - 1)
    } else {
        spared(all, hits, n - 1).push(all[n - 1])
    }
}

/// The history after an erasure.
pub open spec fn erased(h: History, hits: Seq<bool>) -> History {
    (spared(h.0, hits, h.0.len() as int), h.1, h.2)
}

/// Later numbers are larger.
pub open spec fn ascending(all: Seq<Annotation>) -> bool {
    forall|i: int, j: int|
        0 <= i < j < all.len() && (#[trigger] all[i]) is Number && (#[trigger] all[j]) is Number
            ==> all[i]->value < all[j]->value
}

/// The numbers put down go up: those that are drawn, below the next one, and
/// those that can be redone, from the next one on.
pub open spec fn numbers_ascend(h: History) -> bool {
    &&& ascending(h.0)
    &&& forall|i: int|
        0 <= i < h.0.len() && (#[trigger] h.0[i]) is Number ==> h.0[i]->value < h.2
    &&& forall|i: int, j: int|
        0 <= i < j < h.1.len() && (#[trigger] h.1[i]) is Number && (#[trigger] h.1[j]) is Number
            ==> h.1[i]->value > h.1[j]->value
    &&& forall|i: int|
        0 <= i < h.1.len() && (#[trigger] h.1[i]) is Number ==> h.1[i]->value >= h.2
}

/// A redo takes an undo back. The next number comes back too if the annotation
/// was no number or the latest one.
pub proof fn redo_takes_undo_back(h: History)
    requires
        h.0.len() > 0,
    ensures
        redone(undone(h)).0 == h.0,
        redone(undone(h)).1 == h.1,
        h.0.last() is Number ==> h.0.last()->value == h.2 - 1 ==> redone(undone(h)).2 == h.2,
        !(h.0.last() is Number) ==> redone(undone(h)).2 == h.2,
{
    assert(redone(undone(h)).0 =~= h.0);
    assert(redone(undone(h)).1 =~= h.1);
}

/// An undo takes a redo back. The next number comes back too if the annotation
/// was no number or the next one.
pub proof fn undo_takes_redo_back(h: History)
    requires
        h.1.len() > 0,
    ensures
        undone(redone(h)).0 == h.0,
        undone(redone(h)).1 == h.1,
        h.1.last() is Number ==> h.1.last()->value == h.2 ==> undone(redone(h)).2 == h.2,
        !(h.1.last() is Number) ==> undone(redone(h)).2 == h.2,
{
    assert(undone(redone(h)).0 =~= h.0);
    assert(undone(redone(h)).1 =~= h.1);
}

/// An undo takes back what was just drawn, its number with it.
pub proof fn undo_takes_back_the_last(h: History, a: Annotation)
    requires
        a is Number ==> a->value == h.2,
    ensures
        undone(added(h, a)).0 == h.0,
        undone(added(h, a)).1 == seq![a],
        undone(added(h, a)).2 == h.2,
{
    assert(undone(added(h, a)).0 =~= h.0);
    assert(undone(added(h, a)).1 =~= seq![a]);
}

proof fn lemma_spared(all: Seq<Annotation>, hits: Seq<bool>, n: int)
    requires
        0 <= n <= all.len(),
        ascending(all),
    ensures
        ascending(spared(all, hits, n)),
        forall|i: int|
            0 <= i < spared(all, hits, n).len() ==> exists|k: int|
                0 <= k < n && #[trigger] all[k] == #[trigger] spared(all, hits, n)[i],
    decreases n,
{
    if n > 0 {
        lemma_spared(all, hits, n - 1);
        let before = spared(all, hits, n - 1);
        let s = spared(all, hits, n);
        assert forall|i: int| 0 <= i < s.len() implies exists|k: int|
            0 <= k < n && #[trigger] all[k] == #[trigger] s[i] by {
            if i < before.len() {
                assert(s[i] == before[i]);
            } else {
                assert(all[n - 1] == s[i]);
            }
        }
        assert forall|i: int, j: int|
            0 <= i < j < s.len() && (#[trigger] s[i]) is Number && (#[trigger] s[j])
                is Number implies s[i]->value < s[j]->value by {
            assert(s[i] == before[i]);
            if j < before.len() {
                assert(s[j] == before[j]);
            } else {
                let k = choose|k: int| 0 <= k < n - 1 && #[trigger] all[k] == before[i];
                assert(all[k] is Number && all[n - 1] is Number);
            }
        }
    }
}

/// Drawing, undoing, redoing and erasing all keep the numbers going up.
pub proof fn numbers_keep_ascending(h: History, a: Annotation, hits: Seq<bool>)
    requires
        numbers_ascend(h),
        a is Number ==> a->value == h.2,
    ensures
        numbers_ascend(added(h, a)),
        numbers_ascend(undone(h)),
        numbers_ascend(redone(h)),
        numbers_ascend(erased(h, hits)),
{
    lemma_spared(h.0, hits, h.0.len() as int);
}

/// The view that an overlay was drawn for: its centre, its zoom and the size of
/// the viewport.
pub type ViewKey = (Point, Number, i32, i32);

/// Whether two views are the same.
pub open spec fn same_view(a: ViewKey, b: ViewKey) -> bool {
    &&& config::equal((a.0).0, (b.0).0)
    &&& config::equal((a.0).1, (b.0).1)
    &&& config::equal(a.1, b.1)
    &&& a.2 == b.2
    &&& a.3 == b.3
}

/// What has to be done to bring the overlay up to date.
#[derive(Clone, Copy, Debug, PartialEq, Eq)]
pub struct OverlayPlan {
    /// Start from a new, transparent canvas of the viewport's size.
    pub new_canvas: bool,
    /// Clear the canvas and draw all annotations.
    pub redraw: bool,
    /// Draw the segments of the freehand stroke in this range: segment `i` goes
    /// from point `i` to the next.
    pub segments: Option<(usize, usize)>,
    /// Clear the bounds of the shape in progress and draw it.
    pub preview: bool,
}

/// The segments of a freehand stroke of `total` points that are new when
/// `drawn` points were drawn before.
pub open spec fn new_segments(drawn: int, total: int) -> Option<(int, int)> {
    if total <= drawn {
        None
    } else if drawn > 0 {
        Some((drawn - 1, total - 1))
    } else {
        Some((0, total - 1))
    }
}

/// A stroke drawn bit by bit has every segment exactly once: what was drawn
/// before ends where the new segments begin.
pub proof fn segments_join(drawn: int, middle: int, total: int)
    requires
        0 <= drawn < middle < total,
    ensures
        (new_segments(drawn, middle)->0).1 == (new_segments(middle, total)->0).0,
        (new_segments(drawn, middle)->0).0 == (new_segments(drawn, total)->0).0,
        (new_segments(middle, total)->0).1 == (new_segments(drawn, total)->0).1,
{
}

/// What the annotation tools remember.
pub struct DrawModeState {
    pub tool: DrawTool,
    pub color: [u8; 3],
    pub annotations: Vec<Annotation>,
    pub redo_stack: Vec<Annotation>,
    pub next_number: i32,
    pub drawing: Option<DrawingInProgress>,
    pub drawing_held: bool,
    pub space_held: bool,
    pub pie_hover: Option<usize>,
    pub viewport_size: (i32, i32),
    pub free_cursor_offset: Point,
    pub cached_pie_sprite: Option<OsdSprite>,
    pub cached_tooltip: bool,
    pub selection_style: SelectionStyle,
    /// When the current hover began.
    pub hover_start: Option<u64>,
    /// The button that was hovered then.
    pub hover_timer_idx: Option<usize>,
    /// Whether a tool is active, so that the left button draws.
    pub annotation_active: bool,
    /// The view that the overlay was drawn for.
    pub overlay_view_key: Option<ViewKey>,
    /// How many annotations the overlay holds.
    pub overlay_annotation_count: usize,
    /// How many points of the stroke in progress the overlay holds.
    pub overlay_drawing_points: usize,
    /// Goes up with every change of the annotations.
    pub overlay_version: u64,
}

/// No offset at all.
pub open spec fn origin() -> Point {
    (number::num(number::ZERO), number::num(number::ZERO))
}

fn nowhere() -> (r: Point)
    ensures
        r == origin(),
{
    (Number { bits: number::ZERO }, Number { bits: number::ZERO })
}

/// The next version.
pub open spec fn bumped(version: u64) -> u64 {
    if version == u64::MAX {
        0
    } else {
        (version + 1) as u64
    }
}

/// The annotation that a finished stroke becomes, for the tools that leave one.
/// `radius` is the distance of the stroke's ends. The points of a freehand
/// stroke are those of the stroke.
pub open spec fn becomes(
    d: DrawingInProgress,
    color: [u8; 3],
    next_number: i32,
    radius: Number,
) -> Annotation {
    let width = number::num(STROKE_WIDTH);
    match d.tool {
        DrawTool::Freehand => Annotation::Freehand { points: d.points, color, width },
        DrawTool::Line => Annotation::Line { start: d.start, end: d.current, color, width },
        DrawTool::Box => Annotation::Box {
            top_left: (d.start.0.lesser(d.current.0), d.start.1.lesser(d.current.1)),
            bottom_right: (d.start.0.greater(d.current.0), d.start.1.greater(d.current.1)),
            color,
            width,
        },
        DrawTool::Arrow => Annotation::Arrow { start: d.start, end: d.current, color, width },
        DrawTool::Circle => Annotation::Circle { center: d.start, radius, color, width },
        _ => Annotation::Number { pos: d.start, value: next_number, color },
    }
}

/// An annotation is the stroke that was drawn: of the kind that its tool draws,
/// from where the stroke began to where it ended, in the colour of the tools.
pub open spec fn keeps_stroke(
    a: Annotation,
    d: DrawingInProgress,
    ink: [u8; 3],
    next_number: i32,
    reach: Number,
) -> bool {
    let two = number::num(0x4000_0000_0000_0000);
    &&& d.tool == DrawTool::Freehand ==> (a matches Annotation::Freehand { points, color, width }
        && points@ == d.points@ && color == ink && width == two)
    &&& d.tool == DrawTool::Line ==> (a matches Annotation::Line { start, end, color, width }
        && start == d.start && end == d.current && color == ink && width == two)
    &&& d.tool == DrawTool::Arrow ==> (a matches Annotation::Arrow { start, end, color, width }
        && start == d.start && end == d.current && color == ink && width == two)
    &&& d.tool == DrawTool::Circle ==> (a matches Annotation::Circle {
        center,
        radius,
        color,
        width,
    } && center == d.start && radius == reach && color == ink && width == two)
    &&& d.tool == DrawTool::Number ==> (a matches Annotation::Number { pos, value, color } && pos
        == d.start && value == next_number && color == ink)
    &&& d.tool == DrawTool::Box ==> (a matches Annotation::Box {
        top_left,
        bottom_right,
        color,
        width,
    } && color == ink && width == two && (d.start.0.below(d.current.0) ==> top_left.0 == d.start.0
        && bottom_right.0 == d.current.0) && (d.current.0.below(d.start.0) ==> top_left.0
        == d.current.0 && bottom_right.0 == d.start.0) && (d.start.1.below(d.current.1)
        ==> top_left.1 == d.start.1 && bottom_right.1 == d.current.1) && (d.current.1.below(
        d.start.1,
    ) ==> top_left.1 == d.current.1 && bottom_right.1 == d.start.1))
}

impl DrawModeState {
    /// What has been drawn.
    pub open spec fn history(self) -> History {
        (self.annotations@, self.redo_stack@, self.next_number as int)
    }

    /// Everything but the annotations, the overlay and the stroke in progress
    /// is as it was.
    pub open spec fn same_menu(self, before: DrawModeState) -> bool {
        &&& self.tool == before.tool
        &&& self.color == before.color
        &&& self.drawing_held == before.drawing_held
        &&& self.space_held == before.space_held
        &&& self.pie_hover == before.pie_hover
        &&& self.viewport_size == before.viewport_size
        &&& self.free_cursor_offset == before.free_cursor_offset
        &&& self.cached_pie_sprite == before.cached_pie_sprite
        &&& self.cached_tooltip == before.cached_tooltip
        &&& self.selection_style == before.selection_style
        &&& self.hover_start == before.hover_start
        &&& self.hover_timer_idx == before.hover_timer_idx
        &&& self.annotation_active == before.annotation_active
    }

    /// The overlay has to be drawn anew.
    pub open spec fn overlay_stale(self) -> bool {
        &&& self.overlay_view_key is None
        &&& self.overlay_annotation_count == 0
        &&& self.overlay_drawing_points == 0
    }

    /// What is known of the overlay is as it was.
    pub open spec fn same_overlay(self, before: DrawModeState) -> bool {
        &&& self.overlay_view_key == before.overlay_view_key
        &&& self.overlay_annotation_count == before.overlay_annotation_count
        &&& self.overlay_drawing_points == before.overlay_drawing_points
    }

    /// The menu's picture, where there is one, shows the current state.
    pub open spec fn menu_fresh(self, icons: Seq<Option<RgbaBuffer>>, rim: Seq<u8>) -> bool {
        match self.cached_pie_sprite {
            Some(sprite) => pie::shows_pie(
                sprite,
                self.tool,
                self.pie_hover,
                self.cached_tooltip,
                icons,
                rim,
            ),
            None => true,
        }
    }

    /// A fresh state: the pen, in red, nothing drawn.
    pub fn new() -> (r: DrawModeState)
        ensures
            r.tool == DrawTool::Freehand,
            r.color == [255u8, 0u8, 0u8],
            r.history() == (Seq::<Annotation>::empty(), Seq::<Annotation>::empty(), 1int),
            r.drawing is None,
            !r.drawing_held,
            !r.space_held,
            r.pie_hover is None,
            r.viewport_size == (0i32, 0i32),
            r.free_cursor_offset == origin(),
            r.cached_pie_sprite is None,
            !r.cached_tooltip,
            r.selection_style == SelectionStyle::Nearest,
            r.hover_start is None,
            r.hover_timer_idx is None,
            !r.annotation_active,
            r.overlay_stale(),
            r.overlay_version == 0,
    {
        DrawModeState {
            tool: DrawTool::Freehand,
            color: [255, 0, 0],
            annotations: Vec::new(),
            redo_stack: Vec::new(),
            next_number: 1,
            drawing: None,
            drawing_held: false,
            space_held: false,
            pie_hover: None,
            viewport_size: (0, 0),
            free_cursor_offset: nowhere(),
            cached_pie_sprite: None,
            cached_tooltip: false,
            selection_style: SelectionStyle::Nearest,
            hover_start: None,
            hover_timer_idx: None,
            annotation_active: false,
            overlay_view_key: None,
            overlay_annotation_count: 0,
            overlay_drawing_points: 0,
            overlay_version: 0,
        }
    }

    /// The state with the menu open.
    pub open spec fn begun(self, vp_w: i32, vp_h: i32) -> DrawModeState {
        DrawModeState {
            space_held: true,
            pie_hover: None,
            free_cursor_offset: origin(),
            viewport_size: (vp_w, vp_h),
            cached_pie_sprite: None,
            ..self
        }
    }

    /// Opens the menu.
    pub fn begin_space_hold(&mut self, vp_w: i32, vp_h: i32)
        ensures
            *final(self) == old(self).begun(vp_w, vp_h),
    {
        self.space_held = true;
        self.pie_hover = None;
        self.free_cursor_offset = nowhere();
        self.viewport_size = (vp_w, vp_h);
        self.cached_pie_sprite = None;
    }

    /// The state after the hovered button was picked.
    pub open spec fn picked(self) -> DrawModeState {
        match self.pie_hover {
            None => self,
            Some(idx) => match pie::button_action(idx as int) {
                None => self,
                Some(PieAction::Tool(t)) => DrawModeState {
                    tool: t,
                    annotation_active: true,
                    ..self
                },
                Some(PieAction::Color(c)) => DrawModeState {
                    color: c,
                    annotation_active: true,
                    ..self
                },
            },
        }
    }

    /// The state with the menu closed.
    pub open spec fn shut(self) -> DrawModeState {
        DrawModeState {
            space_held: false,
            pie_hover: None,
            free_cursor_offset: origin(),
            cached_pie_sprite: None,
            ..self
        }
    }

    /// Closes the menu and picks the hovered button, which makes the tool
    /// active. Returns how far the pointer had moved on the menu.
    pub fn end_space_hold(&mut self) -> (r: Point)
        ensures
            *final(self) == old(self).picked().shut(),
            r == old(self).free_cursor_offset,
    {
        if let Some(idx) = self.pie_hover {
            match pie::action_of(idx) {
                Some(PieAction::Tool(t)) => {
                    self.tool = t;
                    self.annotation_active = true;
                },
                Some(PieAction::Color(c)) => {
                    self.color = c;
                    self.annotation_active = true;
                },
                None => {},
            }
        }
        let offset: Point = self.free_cursor_offset;
        self.space_held = false;
        self.pie_hover = None;
        self.free_cursor_offset = nowhere();
        self.cached_pie_sprite = None;
        offset
    }

    /// Closes the menu, picks nothing and leaves annotation mode.
    pub fn cancel_space_hold(&mut self)
        ensures
            *final(self) == (DrawModeState { annotation_active: false, ..old(self).shut() }),
    {
        self.space_held = false;
        self.pie_hover = None;
        self.free_cursor_offset = nowhere();
        self.cached_pie_sprite = None;
        self.annotation_active = false;
    }

    /// Leaves annotation mode and drops the stroke in progress.
    pub fn deactivate_annotation(&mut self)
        ensures
            *final(self) == (DrawModeState {
                annotation_active: false,
                drawing: None,
                drawing_held: false,
                ..*old(self)
            }),
    {
        self.annotation_active = false;
        self.drawing = None;
        self.drawing_held = false;
    }

    /// The state with another button hovered since `now`.
    pub open spec fn hovering(self, new_hover: Option<usize>, now: u64) -> DrawModeState {
        if new_hover == self.pie_hover {
            self
        } else {
            DrawModeState {
                pie_hover: new_hover,
                hover_start: Some(now),
                hover_timer_idx: new_hover,
                cached_pie_sprite: None,
                ..self
            }
        }
    }

    /// Takes note of the hovered button.
    pub fn set_pie_hover(&mut self, new_hover: Option<usize>, now: u64)
        ensures
            *final(self) == old(self).hovering(new_hover, now),
    {
        let same: bool = match (new_hover, self.pie_hover) {
            (Some(a), Some(b)) => a == b,
            (None, None) => true,
            _ => false,
        };
        if !same {
            self.pie_hover = new_hover;
            self.hover_start = Some(now);
            self.hover_timer_idx = new_hover;
            self.cached_pie_sprite = None;
        }
    }

    /// Finds the button under the pointer in the current selection style and
    /// takes note of it. For what the arguments hold see [`find_nearest`] and
    /// [`hit_test_overlap`].
    pub fn update_pie_hover(
        &mut self,
        r: Number,
        color_dots: &Vec<Number>,
        tool_dots: &Vec<Number>,
        locals: &Vec<(i32, i32)>,
        now: u64,
    )
        requires
            color_dots@.len() == RING,
            tool_dots@.len() == RING,
            locals@.len() == RING,
        ensures
            exists|b: Option<usize>|
                #![trigger pie::at(b)]
                *final(self) == old(self).hovering(b, now) && pie::at(b) == match old(self).selection_style {
                    SelectionStyle::Nearest => meant_by_direction(r, color_dots@, tool_dots@),
                    SelectionStyle::Overlap => meant_by_position(
                        r,
                        color_dots@,
                        tool_dots@,
                        locals@,
                    ),
                },
    {
        let b: Option<usize> = match self.selection_style {
            SelectionStyle::Nearest => find_nearest(r, color_dots, tool_dots),
            SelectionStyle::Overlap => hit_test_overlap(r, color_dots, tool_dots, locals),
        };
        self.set_pie_hover(b, now);
        assert(*self == old(self).hovering(b, now) && pie::at(b) == pie::at(b));
    }

    /// Whether the hovered button has been hovered all along.
    pub open spec fn resting(self) -> bool {
        self.pie_hover is Some && self.hover_start is Some && self.hover_timer_idx
            == self.pie_hover
    }

    /// The label that is due for the hovered button: once the pointer has
    /// rested on it for the delay.
    pub open spec fn due_label(self, now: u64) -> Option<Seq<char>> {
        if self.resting() && timing::elapsed(self.hover_start->0, now) >= TOOLTIP_DELAY {
            pie::long_label(self.pie_hover->0 as int)
        } else {
            None
        }
    }

    fn rests(&self) -> (r: bool)
        ensures
            r == self.resting(),
    {
        match (self.pie_hover, self.hover_start, self.hover_timer_idx) {
            (Some(a), Some(_), Some(b)) => a == b,
            _ => false,
        }
    }

    /// The tooltip to show.
    pub fn tooltip_label(&self, now: u64) -> (r: Option<&'static str>)
        ensures
            match r {
                Some(s) => self.due_label(now) == Some(s@),
                None => self.due_label(now) is None,
            },
    {
        if !self.rests() {
            return None;
        }
        match (self.pie_hover, self.hover_start) {
            (Some(idx), Some(start)) => {
                if timing::time_since(start, now) < TOOLTIP_DELAY {
                    return None;
                }
                pie::flat_label_long(idx)
            },
            _ => None,
        }
    }

    /// How long until the tooltip is due, while a button is hovered.
    pub fn tooltip_redraw_after(&self, now: u64) -> (r: Option<u64>)
        ensures
            match r {
                Some(t) => self.resting() && t == timing::rest(
                    TOOLTIP_DELAY,
                    self.hover_start->0,
                    now,
                ),
                None => !self.resting(),
            },
    {
        if !self.rests() {
            return None;
        }
        match self.hover_start {
            Some(start) => Some(timing::time_left(TOOLTIP_DELAY, start, now)),
            None => None,
        }
    }

    /// The picture of the menu. It is drawn only when there is none, or when
    /// the tooltip comes or goes.
    pub fn pie_menu_sprite(
        &mut self,
        icons: &Vec<Option<RgbaBuffer>>,
        rim: &Vec<u8>,
        now: u64,
    ) -> (r: Option<&OsdSprite>)
        requires
            pie::icons_fit(icons@),
            rim@.len() == 106 * 106,
            old(self).menu_fresh(icons@, rim@),
        ensures
            r is Some,
            *r->0 == final(self).cached_pie_sprite->0,
            pie::shows_pie(
                *r->0,
                old(self).tool,
                old(self).pie_hover,
                old(self).due_label(now) is Some,
                icons@,
                rim@,
            ),
            final(self).menu_fresh(icons@, rim@),
            *final(self) == (DrawModeState {
                cached_pie_sprite: final(self).cached_pie_sprite,
                cached_tooltip: old(self).due_label(now) is Some,
                ..*old(self)
            }),
            final(self).cached_pie_sprite is Some,
            old(self).cached_pie_sprite is Some && old(self).cached_tooltip == (old(self).due_label(
                now,
            ) is Some) ==> final(self).cached_pie_sprite == old(self).cached_pie_sprite,
    {
        let wants_tooltip: bool = self.tooltip_label(now).is_some();
        if self.cached_tooltip != wants_tooltip || self.cached_pie_sprite.is_none() {
            self.cached_pie_sprite = Some(
                pie::render_pie_menu(self.tool, self.pie_hover, wants_tooltip, icons, rim),
            );
            self.cached_tooltip = wants_tooltip;
        }
        self.cached_pie_sprite.as_ref()
    }

    /// Whether the overlay does not hold the annotations as seen in a view.
    pub open spec fn outdated(self, key: ViewKey) -> bool {
        ||| self.overlay_view_key is None
        ||| !same_view(self.overlay_view_key->0, key)
        ||| self.overlay_annotation_count != self.annotations@.len()
    }

    /// Whether the stroke in progress is a freehand one.
    pub open spec fn drawing_freehand(self) -> bool {
        self.drawing is Some && self.drawing->0.tool == DrawTool::Freehand
    }

    /// Plans how to bring the overlay up to date for a view of `key`, given the
    /// size of the canvas at hand, and takes note of it. A new canvas holds
    /// nothing yet, so everything is drawn onto it.
    pub fn annotations_overlay(&mut self, canvas: Option<(i32, i32)>, key: ViewKey) -> (r:
        OverlayPlan)
        ensures
            r.new_canvas == (canvas != Some((key.2, key.3))),
            r.redraw == (old(self).outdated(key) || r.new_canvas),
            r.preview == (old(self).drawing is Some && !old(self).drawing_freehand()),
            !old(self).drawing_freehand() ==> r.segments is None,
            old(self).drawing_freehand() ==> ({
                let drawn = if r.redraw {
                    0
                } else {
                    old(self).overlay_drawing_points as int
                };
                match r.segments {
                    Some(s) => new_segments(drawn, old(self).drawing->0.points@.len() as int)
                        == Some((s.0 as int, s.1 as int)),
                    None => new_segments(drawn, old(self).drawing->0.points@.len() as int) is None,
                }
            }),
            *final(self) == (DrawModeState {
                overlay_view_key: if r.redraw {
                    Some(key)
                } else {
                    old(self).overlay_view_key
                },
                overlay_annotation_count: if r.redraw {
                    final(self).overlay_annotation_count
                } else {
                    old(self).overlay_annotation_count
                },
                overlay_drawing_points: final(self).overlay_drawing_points,
                ..*old(self)
            }),
            final(self).overlay_annotation_count == old(self).annotations@.len(),
            final(self).overlay_drawing_points == if old(self).drawing_freehand() {
                old(self).drawing->0.points@.len() as int
            } else if r.redraw {
                0
            } else {
                old(self).overlay_drawing_points as int
            },
    {
        let known: bool = match self.overlay_view_key {
            Some(k) => (k.0).0.same((key.0).0) && (k.0).1.same((key.0).1) && k.1.same(key.1) && k.2
                == key.2 && k.3 == key.3,
            None => false,
        };
        let new_canvas: bool = match canvas {
            Some((w, h)) => w != key.2 || h != key.3,
            None => true,
        };
        let redraw: bool = new_canvas || !known || self.overlay_annotation_count
            != self.annotations.len();
        if redraw {
            self.overlay_view_key = Some(key);
            self.overlay_annotation_count = self.annotations.len();
            self.overlay_drawing_points = 0;
        }
        let mut segments: Option<(usize, usize)> = None;
        let mut preview: bool = false;
        let mut points: Option<usize> = None;
        if let Some(d) = &self.drawing {
            if d.tool == DrawTool::Freehand {
                let drawn: usize = self.overlay_drawing_points;
                let total: usize = d.points.len();
                if total > drawn {
                    segments = Some((if drawn > 0 { drawn - 1 } else { 0 }, total - 1));
                }
                points = Some(total);
            } else {
                preview = true;
            }
        }
        if let Some(total) = points {
            self.overlay_drawing_points = total;
        }
        OverlayPlan { new_canvas, redraw, segments, preview }
    }

    /// Forgets what the overlay holds.
    pub fn invalidate_overlay(&mut self)
        ensures
            *final(self) == (DrawModeState {
                overlay_view_key: None,
                overlay_annotation_count: 0,
                overlay_drawing_points: 0,
                ..*old(self)
            }),
    {
        self.overlay_view_key = None;
        self.overlay_annotation_count = 0;
        self.overlay_drawing_points = 0;
    }

    pub fn overlay_version(&self) -> (r: u64)
        ensures
            r == self.overlay_version,
    {
        self.overlay_version
    }

    fn bump(&mut self)
        ensures
            *final(self) == (DrawModeState {
                overlay_version: bumped(old(self).overlay_version),
                ..*old(self)
            }),
    {
        self.overlay_version = if self.overlay_version == u64::MAX {
            0
        } else {
            self.overlay_version + 1
        };
    }

    /// Removes the annotations that the eraser hit.
    fn erase(&mut self, hits: &Vec<bool>)
        requires
            hits@.len() == old(self).annotations@.len(),
        ensures
            final(self).annotations@ == spared(
                old(self).annotations@,
                hits@,
                hits@.len() as int,
            ),
            *final(self) == (DrawModeState {
                annotations: final(self).annotations,
                ..*old(self)
            }),
    {
        let ghost all = self.annotations@;
        let mut kept: usize = 0;
        let mut seen: usize = 0;
        while seen < hits.len()
            invariant
                kept <= seen <= hits@.len(),
                hits@.len() == all.len(),
                self.annotations@.len() == kept + (all.len() - seen),
                self.annotations@.take(kept as int) == spared(all, hits@, seen as int),
                self.annotations@.skip(kept as int) == all.skip(seen as int),
                *self == (DrawModeState { annotations: self.annotations, ..*old(self) }),
            decreases hits.len() - seen,
        {
            let ghost before = self.annotations@;
            assert(before[kept as int] == before.skip(kept as int)[0]);
            assert(all.skip(seen as int)[0] == all[seen as int]);
            if hits[seen] {
                let _gone = self.annotations.remove(kept);
                assert(self.annotations@.take(kept as int) =~= before.take(kept as int));
                assert(self.annotations@.skip(kept as int) =~= all.skip(seen + 1)) by {
                    assert forall|i: int| 0 <= i < all.len() - seen - 1 implies self.annotations@.skip(
                        kept as int,
                    )[i] == all.skip(seen + 1)[i] by {
                        assert(before.skip(kept as int)[i + 1] == all.skip(seen as int)[i + 1]);
                    }
                }
            } else {
                kept += 1;
                assert(self.annotations@.take(kept as int) =~= before.take(kept - 1).push(
                    all[seen as int],
                ));
                assert(self.annotations@.skip(kept as int) =~= all.skip(seen + 1)) by {
                    assert forall|i: int| 0 <= i < all.len() - seen - 1 implies self.annotations@.skip(
                        kept as int,
                    )[i] == all.skip(seen + 1)[i] by {
                        assert(before.skip(kept - 1)[i + 1] == all.skip(seen as int)[i + 1]);
                    }
                }
            }
            seen += 1;
        }
        assert(self.annotations@.take(kept as int) =~= self.annotations@);
    }

    /// Ends the stroke in progress. The eraser removes what it hit, the
    /// selection tool does nothing, every other tool leaves an annotation.
    /// `radius` is the distance of the stroke's ends, `hits` says of each
    /// annotation whether the eraser's stroke came near it.
    pub fn commit_drawing(&mut self, radius: Number, hits: &Vec<bool>)
        requires
            old(self).drawing is Some && old(self).drawing->0.tool == DrawTool::Erase
                ==> hits@.len() == old(self).annotations@.len(),
            old(self).drawing is Some && old(self).drawing->0.tool == DrawTool::Number ==> old(self).next_number < i32::MAX,
        ensures
            final(self).drawing is None,
            final(self).same_menu(*old(self)),
            match old(self).drawing {
                None => {
                    &&& final(self).history() == old(self).history()
                    &&& final(self).overlay_version == old(self).overlay_version
                    &&& final(self).overlay_stale()
                },
                Some(d) => if d.tool == DrawTool::Select {
                    &&& final(self).history() == old(self).history()
                    &&& final(self).overlay_version == old(self).overlay_version
                    &&& final(self).same_overlay(*old(self))
                } else if d.tool == DrawTool::Erase {
                    &&& final(self).history() == erased(old(self).history(), hits@)
                    &&& final(self).overlay_version == if final(self).annotations@.len() != old(self).annotations@.len() {
                        bumped(old(self).overlay_version)
                    } else {
                        old(self).overlay_version
                    }
                    &&& final(self).same_overlay(*old(self))
                } else {
                    &&& final(self).history() == added(
                        old(self).history(),
                        becomes(d, old(self).color, old(self).next_number, radius),
                    )
                    &&& keeps_stroke(
                        final(self).annotations@.last(),
                        d,
                        old(self).color,
                        old(self).next_number,
                        radius,
                    )
                    &&& final(self).overlay_version == bumped(old(self).overlay_version)
                    &&& final(self).overlay_stale()
                },
            },
    {
        let width: Number = Number { bits: STROKE_WIDTH };
        if let Some(d) = self.drawing.take() {
            let color: [u8; 3] = self.color;
            let ann: Annotation = match d.tool {
                DrawTool::Freehand => Annotation::Freehand { points: d.points, color, width },
                DrawTool::Erase => {
                    let before: usize = self.annotations.len();
                    self.erase(hits);
                    if self.annotations.len() != before {
                        self.bump();
                    }
                    return;
                },
                DrawTool::Line => Annotation::Line {
                    start: d.start,
                    end: d.current,
                    color,
                    width,
                },
                DrawTool::Box => Annotation::Box {
                    top_left: (d.start.0.min(d.current.0), d.start.1.min(d.current.1)),
                    bottom_right: (d.start.0.max(d.current.0), d.start.1.max(d.current.1)),
                    color,
                    width,
                },
                DrawTool::Arrow => Annotation::Arrow {
                    start: d.start,
                    end: d.current,
                    color,
                    width,
                },
                DrawTool::Circle => Annotation::Circle { center: d.start, radius, color, width },
                DrawTool::Number => {
                    let value: i32 = self.next_number;
                    self.next_number = value + 1;
                    Annotation::Number { pos: d.start, value, color }
                },
                DrawTool::Select => {
                    return;
                },
            };
            self.redo_stack.clear();
            self.annotations.push(ann);
            self.bump();
        }
        self.invalidate_overlay();
    }

    /// Takes the latest annotation back.
    pub fn undo(&mut self)
        ensures
            final(self).history() == undone(old(self).history()),
            final(self).drawing == old(self).drawing,
            final(self).same_menu(*old(self)),
            old(self).annotations@.len() == 0 ==> *final(self) == *old(self),
            old(self).annotations@.len() > 0 ==> final(self).overlay_stale() && final(self).overlay_version == bumped(old(self).overlay_version),
    {
        if self.annotations.len() == 0 {
            return;
        }
        if let Some(ann) = self.annotations.pop() {
            if let Annotation::Number { value, .. } = &ann {
                if *value < self.next_number {
                    self.next_number = *value;
                }
            }
            self.redo_stack.push(ann);
            self.bump();
            self.invalidate_overlay();
        }
    }

    /// Brings the annotation back that was taken back last.
    pub fn redo(&mut self)
        requires
            old(self).redo_stack@.len() > 0 && old(self).redo_stack@.last() is Number ==> old(self).redo_stack@.last()->value < i32::MAX,
        ensures
            final(self).history() == redone(old(self).history()),
            final(self).drawing == old(self).drawing,
            final(self).same_menu(*old(self)),
            old(self).redo_stack@.len() == 0 ==> *final(self) == *old(self),
            old(self).redo_stack@.len() > 0 ==> final(self).overlay_stale() && final(self).overlay_version == bumped(old(self).overlay_version),
    {
        if self.redo_stack.len() == 0 {
            return;
        }
        if let Some(ann) = self.redo_stack.pop() {
            if let Annotation::Number { value, .. } = &ann {
                if *value >= self.next_number {
                    self.next_number = *value + 1;
                }
            }
            self.annotations.push(ann);
            self.bump();
            self.invalidate_overlay();
        }
    }
}

/// The menu's picture never outlives what it shows: opening, closing,
/// cancelling, leaving and hovering keep it fresh.
pub proof fn menu_stays_fresh(
    s: DrawModeState,
    icons: Seq<Option<RgbaBuffer>>,
    rim: Seq<u8>,
    vp: (i32, i32),
    hover: Option<usize>,
    now: u64,
)
    requires
        s.menu_fresh(icons, rim),
    ensures
        s.begun(vp.0, vp.1).menu_fresh(icons, rim),
        s.picked().shut().menu_fresh(icons, rim),
        (DrawModeState { annotation_active: false, ..s.shut() }).menu_fresh(icons, rim),
        (DrawModeState {
            annotation_active: false,
            drawing: None,
            drawing_held: false,
            ..s
        }).menu_fresh(icons, rim),
        s.hovering(hover, now).menu_fresh(icons, rim),
{
}

/// Every change of the annotations gives the overlay another version.
pub proof fn versions_differ(version: u64)
    ensures
        bumped(version) != version,
{
}

/// How far a line reaches beyond its ends, in pixels.
pub const DRAWING_PAD: i32 = 20;

/// The bounds of a shape in progress, in pixels of the viewport: `a` and `b`
/// are where the stroke starts and where it is, `r` the distance of the two on
/// the screen.
pub open spec fn bounds_of(tool: DrawTool, a: (i32, i32), b: (i32, i32), r: i32) -> (
    int,
    int,
    int,
    int,
) {
    match tool {
        DrawTool::Line | DrawTool::Arrow | DrawTool::Box => (
            (if a.0 <= b.0 {
                a.0
            } else {
                b.0
            }) - DRAWING_PAD,
            (if a.1 <= b.1 {
                a.1
            } else {
                b.1
            }) - DRAWING_PAD,
            (if a.0 <= b.0 {
                b.0
            } else {
                a.0
            }) + DRAWING_PAD,
            (if a.1 <= b.1 {
                b.1
            } else {
                a.1
            }) + DRAWING_PAD,
        ),
        DrawTool::Circle => (
            a.0 - (r + DRAWING_PAD),
            a.1 - (r + DRAWING_PAD),
            a.0 + (r + DRAWING_PAD),
            a.1 + (r + DRAWING_PAD),
        ),
        DrawTool::Number => (
            a.0 - DRAWING_PAD,
            a.1 - DRAWING_PAD,
            a.0 + DRAWING_PAD,
            a.1 + DRAWING_PAD,
        ),
        _ => (0, 0, 0, 0),
    }
}

/// Bounds that can be written down.
pub open spec fn bounds_fit(q: (int, int, int, int)) -> bool {
    &&& i32::MIN <= q.0 && i32::MIN <= q.1 && i32::MIN <= q.2 && i32::MIN <= q.3
    &&& q.0 <= i32::MAX && q.1 <= i32::MAX && q.2 <= i32::MAX && q.3 <= i32::MAX
}

pub fn drawing_bounds(tool: DrawTool, a: (i32, i32), b: (i32, i32), r: i32) -> (q: (
    i32,
    i32,
    i32,
    i32,
))
    requires
        bounds_fit(bounds_of(tool, a, b, r)),
    ensures
        (q.0 as int, q.1 as int, q.2 as int, q.3 as int) == bounds_of(tool, a, b, r),
{
    match tool {
        DrawTool::Line | DrawTool::Arrow | DrawTool::Box => {
            let (x0, x1): (i32, i32) = if a.0 <= b.0 {
                (a.0, b.0)
            } else {
                (b.0, a.0)
            };
            let (y0, y1): (i32, i32) = if a.1 <= b.1 {
                (a.1, b.1)
            } else {
                (b.1, a.1)
            };
            (x0 - DRAWING_PAD, y0 - DRAWING_PAD, x1 + DRAWING_PAD, y1 + DRAWING_PAD)
        },
        DrawTool::Circle => {
            let reach: i32 = r + DRAWING_PAD;
            (a.0 - reach, a.1 - reach, a.0 + reach, a.1 + reach)
        },
        DrawTool::Number => (
            a.0 - DRAWING_PAD,
            a.1 - DRAWING_PAD,
            a.0 + DRAWING_PAD,
            a.1 + DRAWING_PAD,
        ),
        _ => (0, 0, 0, 0),
    }
}

/// The stroke that a finished drawing leaves is the last annotation: an arrow or
/// a line from where it began to where it ended, a circle around where it began,
/// a box with these two corners, a number where it began. All that was drawn
/// before stays in front of it.
pub proof fn finished_strokes_are_what_was_drawn(
    before: DrawModeState,
    after: DrawModeState,
    d: DrawingInProgress,
    reach: Number,
)
    requires
        d.tool != DrawTool::Select,
        d.tool != DrawTool::Erase,
        after.history() == added(
            before.history(),
            becomes(d, before.color, before.next_number, reach),
        ),
    ensures
        ({
            let n = before.annotations@.len();
            let last = after.annotations@.last();
            let two = number::num(0x4000_0000_0000_0000);
            &&& after.annotations@.len() == n + 1
            &&& after.annotations@.take(n as int) == before.annotations@
            &&& after.redo_stack@.len() == 0
            &&& after.next_number == before.next_number + (if d.tool == DrawTool::Number {
                1int
            } else {
                0
            })
            &&& d.tool == DrawTool::Arrow ==> (last matches Annotation::Arrow {
                start,
                end,
                color,
                width,
            } && start == d.start && end == d.current && color == before.color && width == two)
            &&& d.tool == DrawTool::Line ==> (last matches Annotation::Line {
                start,
                end,
                color,
                width,
            } && start == d.start && end == d.current && color == before.color && width == two)
            &&& d.tool == DrawTool::Circle ==> (last matches Annotation::Circle {
                center,
                radius,
                color,
                width,
            } && center == d.start && radius == reach && color == before.color && width == two)
            &&& d.tool == DrawTool::Freehand ==> (last matches Annotation::Freehand {
                points,
                color,
                width,
            } && points@ == d.points@ && color == before.color && width == two)
            &&& d.tool == DrawTool::Number ==> (last matches Annotation::Number {
                pos,
                value,
                color,
            } && pos == d.start && value == before.next_number && color == before.color)
            &&& d.tool == DrawTool::Box ==> (last matches Annotation::Box {
                top_left,
                bottom_right,
                color,
                width,
            } && color == before.color && width == two)
            &&& keeps_stroke(last, d, before.color, before.next_number, reach)
        }),
{
    assert(after.annotations@.take(before.annotations@.len() as int) =~= before.annotations@);
}

/// A box has its corners in order, whichever corner the stroke began at.
pub proof fn boxes_have_their_corners_in_order(
    d: DrawingInProgress,
    ink: [u8; 3],
    next_number: i32,
    reach: Number,
)
    requires
        d.tool == DrawTool::Box,
        !d.start.0.nan() && !d.start.1.nan() && !d.current.0.nan() && !d.current.1.nan(),
    ensures
        becomes(d, ink, next_number, reach) matches Annotation::Box {
            top_left,
            bottom_right,
            color,
            width,
        } && top_left.0.at_most(d.start.0) && top_left.0.at_most(d.current.0) && top_left.1.at_most(
            d.start.1,
        ) && top_left.1.at_most(d.current.1) && d.start.0.at_most(bottom_right.0)
            && d.current.0.at_most(bottom_right.0) && d.start.1.at_most(bottom_right.1)
            && d.current.1.at_most(bottom_right.1),
{
}

/// An undo takes the annotation off that was drawn last, keeps the others and
/// remembers it for a redo; a number that is taken back is the next one again.
/// With nothing drawn it does nothing.
pub proof fn undo_takes_the_latest(h: History)
    ensures
        h.0.len() == 0 ==> undone(h) == h,
        h.0.len() > 0 ==> ({
            let a = h.0[h.0.len() - 1];
            &&& undone(h).0 == h.0.take(h.0.len() - 1)
            &&& undone(h).1.len() == h.1.len() + 1
            &&& undone(h).1.last() == a
            &&& undone(h).1.take(h.1.len() as int) == h.1
            &&& (a matches Annotation::Number { pos, value, color } ==> value < h.2 ==> undone(h).2
                == value)
            &&& a !is Number ==> undone(h).2 == h.2
        }),
{
    if h.0.len() > 0 {
        assert(undone(h).0 =~= h.0.take(h.0.len() - 1));
        assert(undone(h).1.take(h.1.len() as int) =~= h.1);
    }
}

/// A redo draws again what was undone last, on top of everything; the number
/// after it is the next one again. With nothing undone it does nothing.
pub proof fn redo_draws_what_was_undone_last(h: History)
    ensures
        h.1.len() == 0 ==> redone(h) == h,
        h.1.len() > 0 ==> ({
            let a = h.1[h.1.len() - 1];
            &&& redone(h).0.len() == h.0.len() + 1
            &&& redone(h).0.last() == a
            &&& redone(h).0.take(h.0.len() as int) == h.0
            &&& redone(h).1 == h.1.take(h.1.len() - 1)
            &&& (a matches Annotation::Number { pos, value, color } ==> value >= h.2 ==> redone(h).2
                == value + 1)
            &&& a !is Number ==> redone(h).2 == h.2
        }),
{
    if h.1.len() > 0 {
        assert(redone(h).1 =~= h.1.take(h.1.len() - 1));
        assert(redone(h).0.take(h.0.len() as int) =~= h.0);
    }
}

/// How many of the first `n` annotations the eraser missed.
pub open spec fn missed(hits: Seq<bool>, n: int) -> int
    decreases n,
{
    if n <= 0 {
        0
    } else {
        missed(hits, n - 1) + (if hits[n - 1] {
            0int
        } else {
            1int
        })
    }
}

proof fn lemma_missed(all: Seq<Annotation>, hits: Seq<bool>, n: int)
    requires
        0 <= n <= all.len(),
    ensures
        spared(all, hits, n).len() == missed(hits, n),
        0 <= missed(hits, n) <= n,
    decreases n,
{
    if n > 0 {
        lemma_missed(all, hits, n - 1);
    }
}

/// The eraser removes what it hit and nothing else: of the first `n` annotations
/// there are as many left as it missed, and each of those is still there, behind
/// the ones that it missed before.
pub proof fn eraser_removes_only_what_it_hits(
    all: Seq<Annotation>,
    hits: Seq<bool>,
    n: int,
    i: int,
)
    requires
        0 <= i < n <= all.len(),
        all.len() == hits.len(),
        !hits[i],
    ensures
        spared(all, hits, n).len() == missed(hits, n),
        0 <= missed(hits, i) < missed(hits, n),
        spared(all, hits, n)[missed(hits, i)] == all[i],
    decreases n,
{
    lemma_missed(all, hits, n);
    lemma_missed(all, hits, n - 1);
    if i < n - 1 {
        eraser_removes_only_what_it_hits(all, hits, n - 1, i);
    }
}

/// An eraser that hits nothing removes nothing, and it never touches what can
/// be redone or the next number.
pub proof fn missing_everything_changes_nothing(h: History, hits: Seq<bool>)
    requires
        hits.len() == h.0.len(),
    ensures
        erased(h, hits).1 == h.1,
        erased(h, hits).2 == h.2,
        (forall|i: int| 0 <= i < hits.len() ==> !#[trigger] hits[i]) ==> erased(h, hits).0 == h.0,
{
    if forall|i: int| 0 <= i < hits.len() ==> !#[trigger] hits[i] {
        lemma_all_spared(h.0, hits, h.0.len() as int);
        assert(h.0.take(h.0.len() as int) =~= h.0);
    }
}

proof fn lemma_all_spared(all: Seq<Annotation>, hits: Seq<bool>, n: int)
    requires
        0 <= n <= all.len(),
        all.len() == hits.len(),
        forall|i: int| 0 <= i < hits.len() ==> !#[trigger] hits[i],
    ensures
        spared(all, hits, n) == all.take(n),
    decreases n,
{
    if n > 0 {
        lemma_all_spared(all, hits, n - 1);
        assert(all.take(n) =~= all.take(n - 1).push(all[n - 1]));
    } else {
        assert(all.take(0) =~= Seq::empty());
    }
}

/// A direction means no button within 30 pixels of the middle, a colour from 70
/// to 130 pixels, and a tool elsewhere: each time the one that agrees best.
pub proof fn direction_means_the_best_button(
    r: Number,
    color_dots: Seq<Number>,
    tool_dots: Seq<Number>,
    i: int,
)
    requires
        color_dots.len() == 8,
        tool_dots.len() == 8,
        0 <= i < 8,
        !r.nan(),
        forall|j: int| 0 <= j < 8 ==> !(#[trigger] color_dots[j]).nan(),
        forall|j: int| 0 <= j < 8 ==> !(#[trigger] tool_dots[j]).nan(),
    ensures
        ({
            let meant = meant_by_direction(r, color_dots, tool_dots);
            let ring = number::num(0x4051_8000_0000_0000).at_most(r) && r.at_most(
                number::num(0x4060_4000_0000_0000),
            );
            &&& r.below(number::num(0x403E_0000_0000_0000)) ==> meant is None
            &&& !r.below(number::num(0x403E_0000_0000_0000)) && ring ==> (meant matches Some(b) && 0
                <= b < 8 && color_dots[i].at_most(color_dots[b]))
            &&& !r.below(number::num(0x403E_0000_0000_0000)) && !ring ==> (meant matches Some(b) && 8
                <= b < 16 && tool_dots[i].at_most(tool_dots[b - 8]))
        }),
{
    lemma_leader_is_best(color_dots, 8);
    lemma_leader_is_best(tool_dots, 8);
}

proof fn lemma_leader_is_best(dots: Seq<Number>, n: int)
    requires
        0 <= n <= dots.len(),
        forall|j: int| 0 <= j < dots.len() ==> !(#[trigger] dots[j]).nan(),
    ensures
        n > 0 ==> 0 <= leader(dots, n).0 < n,
        !leader(dots, n).1.nan(),
        number::num(LOWEST).at_most(leader(dots, n).1),
        n > 0 ==> leader(dots, n).1.rank() == dots[leader(dots, n).0].rank(),
        forall|j: int| 0 <= j < n ==> (#[trigger] dots[j]).at_most(leader(dots, n).1),
    decreases n,
{
    if n > 0 {
        lemma_leader_is_best(dots, n - 1);
    }
}

/// A position on a tool button means that tool, unless it falls on the colour
/// ring or near the middle; off every button the direction decides.
pub proof fn position_means_the_button_under_it(
    r: Number,
    color_dots: Seq<Number>,
    tool_dots: Seq<Number>,
    locals: Seq<(i32, i32)>,
    i: int,
)
    requires
        locals.len() == 8,
        0 <= i < 8,
        !r.nan(),
        !r.below(number::num(0x403E_0000_0000_0000)),
        !(number::num(0x4051_8000_0000_0000).at_most(r) && r.at_most(
            number::num(0x4060_4000_0000_0000),
        )),
    ensures
        ({
            let meant = meant_by_position(r, color_dots, tool_dots, locals);
            let hit = |j: int|
                pie::in_rounded(locals[j].0 as int, locals[j].1 as int, 100, 100, 16);
            &&& hit(i) && (forall|j: int| 0 <= j < i ==> !#[trigger] hit(j)) ==> meant == Some(
                8 + i,
            )
            &&& (forall|j: int| 0 <= j < 8 ==> !#[trigger] hit(j)) ==> meant == meant_by_direction(
                r,
                color_dots,
                tool_dots,
            )
        }),
{
    let hit = |j: int| pie::in_rounded(locals[j].0 as int, locals[j].1 as int, 100, 100, 16);
    if hit(i) && (forall|j: int| 0 <= j < i ==> !#[trigger] hit(j)) {
        assert forall|j: int| 0 <= j < i implies !pie::in_rounded(
            (#[trigger] locals[j]).0 as int,
            locals[j].1 as int,
            100,
            100,
            16,
        ) by {
            assert(!hit(j));
        }
        lemma_first_button(locals, 0, i);
    }
    if forall|j: int| 0 <= j < 8 ==> !#[trigger] hit(j) {
        assert forall|j: int| 0 <= j < 8 implies !pie::in_rounded(
            (#[trigger] locals[j]).0 as int,
            locals[j].1 as int,
            100,
            100,
            16,
        ) by {
            assert(!hit(j));
        }
        lemma_no_button(locals, 0);
    }
}

proof fn lemma_first_button(locals: Seq<(i32, i32)>, from: int, i: int)
    requires
        0 <= from <= i < locals.len(),
        on_button(locals[i]),
        forall|j: int|
            from <= j < i ==> !pie::in_rounded(
                (#[trigger] locals[j]).0 as int,
                locals[j].1 as int,
                100,
                100,
                16,
            ),
    ensures
        first_button(locals, from) == Some(i),
    decreases i - from,
{
    if from < i {
        assert(!on_button(locals[from]));
        lemma_first_button(locals, from + 1, i);
    }
}

proof fn lemma_no_button(locals: Seq<(i32, i32)>, from: int)
    requires
        0 <= from <= locals.len(),
        forall|j: int|
            from <= j < locals.len() ==> !pie::in_rounded(
                (#[trigger] locals[j]).0 as int,
                locals[j].1 as int,
                100,
                100,
                16,
            ),
    ensures
        first_button(locals, from) is None,
    decreases locals.len() - from,
{
    if from < locals.len() {
        assert(!on_button(locals[from]));
        lemma_no_button(locals, from + 1);
    }
}

/// Letting go of the menu over a button takes what the button stands for: the
/// inner eight set the colour, the outer eight the tool, and the other of the
/// two stays. Over no button everything stays. The menu is gone either way.
pub proof fn picking_takes_the_hovered_button(s: DrawModeState)
    ensures
        ({
            let r = s.picked().shut();
            &&& !r.space_held
            &&& r.pie_hover is None
            &&& r.cached_pie_sprite is None
            &&& r.free_cursor_offset == (number::num(0), number::num(0))
            &&& r.history() == s.history()
            &&& r.drawing == s.drawing
            &&& s.pie_hover is None ==> r.tool == s.tool && r.color == s.color
                && r.annotation_active == s.annotation_active
            &&& (s.pie_hover matches Some(i) ==> i < 8 ==> r.color == pie::ring_color(i as int)
                && r.tool == s.tool && r.annotation_active)
            &&& (s.pie_hover matches Some(i) ==> 8 <= i < 16 ==> r.tool == pie::ring_tool(i - 8)
                && r.color == s.color && r.annotation_active)
            &&& (s.pie_hover matches Some(i) ==> i >= 16 ==> r.tool == s.tool && r.color == s.color
                && r.annotation_active == s.annotation_active)
        }),
{
}

/// Opening the menu starts with nothing hovered and the pointer in its middle.
pub proof fn menu_opens_with_nothing_hovered(s: DrawModeState, w: i32, h: i32)
    ensures
        ({
            let r = s.begun(w, h);
            &&& r.space_held
            &&& r.pie_hover is None
            &&& r.free_cursor_offset == (number::num(0), number::num(0))
            &&& r.viewport_size == (w, h)
            &&& r.cached_pie_sprite is None
            &&& r.tool == s.tool
            &&& r.color == s.color
            &&& r.history() == s.history()
            &&& r.annotation_active == s.annotation_active
        }),
{
}

/// A button counts as hovered since the pointer came onto it: staying there does
/// not start the time anew, and another button does.
pub proof fn hovering_counts_from_the_change(s: DrawModeState, b: Option<usize>, now: u64)
    ensures
        ({
            let r = s.hovering(b, now);
            &&& r.pie_hover == b
            &&& s.pie_hover == b ==> r == s
            &&& s.pie_hover != b ==> r.hover_start == Some(now) && r.hover_timer_idx == b
                && r.cached_pie_sprite is None
            &&& r.tool == s.tool
            &&& r.color == s.color
            &&& r.history() == s.history()
        }),
{
}

/// The tooltip of a hovered button comes once the pointer has rested on it for a
/// second, and shows the button's full name.
pub proof fn tooltip_comes_after_a_second(s: DrawModeState, b: usize, since: u64, now: u64)
    requires
        s.pie_hover == Some(b),
        s.hover_timer_idx == Some(b),
        s.hover_start == Some(since),
        b < 16,
    ensures
        now - since >= 1_000_000_000 ==> s.due_label(now) == pie::long_label(b as int),
        now - since < 1_000_000_000 ==> s.due_label(now) is None,
{
}

/// The overlay has to be drawn anew exactly where it was drawn for another view,
/// or for another number of annotations, or not at all.
pub proof fn overlay_is_outdated_by_changes(s: DrawModeState, key: ViewKey)
    requires
        !(key.0).0.nan() && !(key.0).1.nan() && !key.1.nan(),
    ensures
        s.overlay_view_key is None ==> s.outdated(key),
        s.overlay_annotation_count != s.annotations@.len() ==> s.outdated(key),
        s.overlay_view_key == Some(key) && s.overlay_annotation_count == s.annotations@.len()
            ==> !s.outdated(key),
        s.overlay_view_key matches Some(k) ==> (k.0).0.below((key.0).0) || (key.0).0.below((k.0).0)
            || (k.0).1.below((key.0).1) || (key.0).1.below((k.0).1) || k.1.below(key.1)
            || key.1.below(k.1) || k.2 != key.2 || k.3 != key.3 ==> s.outdated(key),
{
}

/// The segments to draw are those between points that are there now and were not
/// drawn before; from nothing they are all.
pub proof fn segments_cover_what_is_new(drawn: int, total: int)
    requires
        0 <= drawn,
        0 < total,
    ensures
        drawn == 0 ==> new_segments(drawn, total) == Some((0int, total - 1)),
        0 < drawn < total ==> new_segments(drawn, total) == Some((drawn - 1, total - 1)),
        drawn >= total ==> new_segments(drawn, total) is None,
{
}

/// The bounds of a shape hold both of its ends, or the whole circle, and twenty
/// pixels more on each side.
pub proof fn bounds_hold_the_shape(tool: DrawTool, a: (i32, i32), b: (i32, i32), r: i32)
    requires
        r >= 0,
    ensures
        ({
            let (x0, y0, x1, y1) = bounds_of(tool, a, b, r);
            let between = tool == DrawTool::Line || tool == DrawTool::Arrow || tool
                == DrawTool::Box;
            &&& between ==> x0 + 20 <= a.0 <= x1 - 20 && x0 + 20 <= b.0 <= x1 - 20
            &&& between ==> y0 + 20 <= a.1 <= y1 - 20 && y0 + 20 <= b.1 <= y1 - 20
            &&& between ==> (x0 + 20 == a.0 || x0 + 20 == b.0) && (x1 - 20 == a.0 || x1 - 20 == b.0)
            &&& between ==> (y0 + 20 == a.1 || y0 + 20 == b.1) && (y1 - 20 == a.1 || y1 - 20 == b.1)
            &&& tool == DrawTool::Circle ==> x0 + 20 == a.0 - r && x1 - 20 == a.0 + r && y0 + 20
                == a.1 - r && y1 - 20 == a.1 + r
            &&& tool == DrawTool::Number ==> x0 + 20 == a.0 && x1 - 20 == a.0 && y0 + 20 == a.1
                && y1 - 20 == a.1
            &&& tool == DrawTool::Freehand || tool == DrawTool::Select || tool == DrawTool::Erase
                ==> x0 == 0 && y0 == 0 && x1 == 0 && y1 == 0
        }),
{
}

/// What was drawn is painted in the colour that it was drawn in.
pub proof fn annotations_keep_their_color(a: Annotation)
    ensures
        a matches Annotation::Freehand { points, color, width } ==> a.ink() == color,
        a matches Annotation::Line { start, end, color, width } ==> a.ink() == color,
        a matches Annotation::Box { top_left, bottom_right, color, width } ==> a.ink() == color,
        a matches Annotation::Arrow { start, end, color, width } ==> a.ink() == color,
        a matches Annotation::Circle { center, radius, color, width } ==> a.ink() == color,
        a matches Annotation::Number { pos, value, color } ==> a.ink() == color,
{
}

/// What a change of the annotations leaves alone, and when the overlay is to be
/// drawn anew: nothing that it held counts any more.
pub proof fn menu_and_overlay_are_told_apart(s: DrawModeState, before: DrawModeState)
    ensures
        s.same_menu(before) ==> s.tool == before.tool && s.color == before.color && s.drawing_held
            == before.drawing_held && s.space_held == before.space_held && s.pie_hover
            == before.pie_hover && s.viewport_size == before.viewport_size && s.free_cursor_offset
            == before.free_cursor_offset && s.selection_style == before.selection_style
            && s.hover_start == before.hover_start && s.hover_timer_idx == before.hover_timer_idx
            && s.annotation_active == before.annotation_active && s.cached_pie_sprite
            == before.cached_pie_sprite && s.cached_tooltip == before.cached_tooltip,
        s.overlay_stale() ==> s.overlay_view_key is None && s.overlay_annotation_count == 0
            && s.overlay_drawing_points == 0,
        s.same_overlay(before) ==> s.overlay_view_key == before.overlay_view_key
            && s.overlay_annotation_count == before.overlay_annotation_count
            && s.overlay_drawing_points == before.overlay_drawing_points,
        s.drawing_freehand() <==> (s.drawing matches Some(d) && d.tool == DrawTool::Freehand),
{
}

/// The version of the overlay counts up, and begins anew after the largest.
pub proof fn versions_count_up(version: u64)
    ensures
        version < u64::MAX ==> bumped(version) == version + 1,
        version == u64::MAX ==> bumped(version) == 0,
{
}

} // verus!
