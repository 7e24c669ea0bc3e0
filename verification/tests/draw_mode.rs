use maggie::draw_mode::{
    closest_by_direction, drawing_bounds, find_nearest, hit_test_overlap, Annotation,
    DrawModeState, DrawingInProgress,
};
use maggie::number::Number;
use maggie::osd::draw_text;
use maggie::pie::{
    action_of, brighten, color_button, draw_text_scaled, fill_rounded_rect, flat_label,
    flat_label_long, icon_from, icon_name, icon_source, load_svg_icon, point_in_rounded_rect,
    render_pie_menu, tint_icon, tool_button, DrawTool, PieAction, SelectionStyle,
};
use maggie::render::RgbaBuffer;

fn num(x: f64) -> Number {
    Number { bits: x.to_bits() }
}

fn val(n: Number) -> f64 {
    f64::from_bits(n.bits)
}

fn at(x: f64, y: f64) -> (Number, Number) {
    (num(x), num(y))
}

#[test]
fn tools_have_labels() {
    let labels: Vec<(&str, &str)> = (0..8)
        .map(|i| (tool_button(i).label(), tool_button(i).label_long()))
        .collect();
    assert_eq!(
        labels,
        vec![
            ("Sel", "Select"),
            ("Pen", "Draw"),
            ("Ers", "Erase"),
            ("Line", "Line"),
            ("Box", "Rectangle"),
            ("Arr", "Arrow"),
            ("Cir", "Circle"),
            ("#", "Number"),
        ]
    );
    assert_eq!(icon_name(0), "mouse-pointer");
    assert_eq!(icon_name(7), "hash");
}

#[test]
fn buttons_are_colors_first_and_tools_after() {
    assert_eq!(flat_label(1), Some("Org"));
    assert_eq!(flat_label_long(1), Some("Orange"));
    assert_eq!(flat_label(9), Some("Pen"));
    assert_eq!(flat_label_long(12), Some("Rectangle"));
    assert_eq!(flat_label(16), None);
    assert_eq!(flat_label_long(16), None);
    assert_eq!(action_of(3), Some(PieAction::Color([0, 200, 0])));
    assert_eq!(action_of(15), Some(PieAction::Tool(DrawTool::Number)));
    assert_eq!(action_of(16), None);
    assert_eq!(color_button(7), [0, 0, 0]);
}

#[test]
fn brightening_stops_at_white() {
    assert_eq!(brighten([0, 100, 250], 70), [70, 170, 255]);
}

#[test]
fn corners_are_round() {
    assert!(!point_in_rounded_rect(0, 0, 100, 100, 16));
    assert!(point_in_rounded_rect(16, 0, 100, 100, 16));
    assert!(point_in_rounded_rect(5, 5, 100, 100, 16));
    assert!(!point_in_rounded_rect(4, 4, 100, 100, 16));
    assert!(point_in_rounded_rect(50, 50, 100, 100, 16));
    assert!(!point_in_rounded_rect(100, 50, 100, 100, 16));
    assert!(!point_in_rounded_rect(-1, 50, 100, 100, 16));
}

#[test]
fn rounded_rectangles_are_blended_and_clipped() {
    let mut canvas = vec![0u8; 6 * 6 * 4];
    fill_rounded_rect(&mut canvas, 6, 6, -2, -2, 5, 5, 0, [255, 100, 0, 255]);
    assert_eq!(&canvas[0..4], &[255, 100, 0, 255]);
    assert_eq!(&canvas[2 * 4..3 * 4], &[255, 100, 0, 255]);
    assert_eq!(&canvas[3 * 4..4 * 4], &[0, 0, 0, 0]);
    fill_rounded_rect(&mut canvas, 6, 6, 0, 0, 1, 1, 0, [0, 0, 0, 51]);
    assert_eq!(&canvas[0..4], &[204, 80, 0, 255]);
}

#[test]
fn scaled_text_has_square_cells() {
    let mut canvas = vec![0u8; 40 * 30 * 4];
    draw_text_scaled(&mut canvas, 40, 30, 1, 1, "..", [1, 2, 3], 3);
    let lit = |x: usize, y: usize| canvas[(y * 40 + x) * 4..][..4] == [1, 2, 3, 255];
    assert!(lit(1 + 3, 1 + 15));
    assert!(lit(1 + 8, 1 + 20));
    assert!(!lit(1 + 9, 1 + 20));
    assert!(!lit(1 + 3, 1 + 14));
    assert!(lit(1 + 18 + 3, 1 + 15));
    let on = canvas.chunks_exact(4).filter(|p| p[3] == 255).count();
    assert_eq!(on, 2 * 4 * 9);
}

fn menu(hovered: Option<usize>, tooltip: bool) -> RgbaBuffer {
    let icons: Vec<Option<RgbaBuffer>> = (0..8).map(|_| None).collect();
    let rim = vec![0u8; 106 * 106];
    let sprite = render_pie_menu(DrawTool::Line, hovered, tooltip, &icons, &rim);
    assert_eq!((sprite.width, sprite.height), (660, 660));
    sprite.buffer
}

#[test]
fn the_menu_shows_its_ring_and_buttons() {
    let m = menu(None, false);
    assert_eq!(m.pixel(330, 330), Some([0, 0, 0, 0]));
    assert_eq!(m.pixel(330 + 100, 340), Some([255, 0, 0, 255]));
    assert_eq!(m.pixel(330 - 100, 320), Some([0, 150, 255, 255]));
    assert_eq!(m.pixel(320, 330 - 100), Some([140, 0, 255, 255]));
    assert_eq!(m.pixel(330, 110), Some([34, 34, 38, 220]));
    assert_eq!(m.pixel(485, 485), Some([51, 69, 112, 220]));
}

#[test]
fn ring_sectors_are_those_of_the_angle() {
    let m = menu(None, false);
    for y in 195..465 {
        for x in 195..465 {
            let dx = x as f64 + 0.5 - 330.0;
            let dy = y as f64 + 0.5 - 330.0;
            let r = dx.hypot(dy);
            if r < 70.0 || r > 130.0 {
                continue;
            }
            let mut angle = dy.atan2(dx);
            if angle < 0.0 {
                angle += std::f64::consts::TAU;
            }
            let sector = (((angle / std::f64::consts::TAU) * 8.0) as usize).min(7);
            let c = color_button(sector);
            assert_eq!(m.pixel(x, y), Some([c[0], c[1], c[2], 255]), "at {x},{y}");
        }
    }
}

#[test]
fn a_hovered_color_is_brighter_and_has_a_rim() {
    let m = menu(Some(0), true);
    assert_eq!(m.pixel(330 + 100, 360), Some([255, 70, 70, 255]));
    assert_eq!(m.pixel(330 + 100, 330), Some([255, 255, 255, 255]));
    assert_eq!(m.pixel(320, 330 - 100), Some([140, 0, 255, 255]));
}

#[test]
fn a_hovered_tool_is_brighter_and_has_a_tooltip() {
    let m = menu(Some(8), false);
    assert_eq!(m.pixel(330, 110), Some([120, 120, 125, 255]));
    assert_eq!(m.pixel(330, 20), Some([0, 0, 0, 0]));
    let m = menu(Some(8), true);
    assert_eq!(m.pixel(330 - 72 - 8, 20), Some([25, 25, 30, 220]));
    let white = m
        .data
        .chunks_exact(4)
        .filter(|p| p[..] == [255, 255, 255, 255])
        .count();
    assert!(white > 0);
}

#[test]
fn icons_stand_in_the_middle_of_their_buttons() {
    let mut icon = RgbaBuffer::new(10, 10);
    icon.set_pixel(0, 0, [9, 9, 9, 255]);
    tint_icon(&mut icon, [255, 255, 255]);
    assert_eq!(icon.pixel(0, 0), Some([255, 255, 255, 255]));
    assert_eq!(icon.pixel(1, 0), Some([0, 0, 0, 0]));
    let mut icons: Vec<Option<RgbaBuffer>> = (0..8).map(|_| None).collect();
    icons[0] = Some(icon);
    let rim = vec![0u8; 106 * 106];
    let m = render_pie_menu(DrawTool::Line, None, false, &icons, &rim).buffer;
    assert_eq!(m.pixel(280 + 45, 60 + 45), Some([255, 255, 255, 255]));
    assert_eq!(m.pixel(280 + 46, 60 + 45), Some([34, 34, 38, 220]));
}

#[test]
fn the_rim_is_blended_where_it_covers() {
    let icons: Vec<Option<RgbaBuffer>> = (0..8).map(|_| None).collect();
    let mut rim = vec![0u8; 106 * 106];
    rim[0] = 255;
    let m = render_pie_menu(DrawTool::Line, Some(8), false, &icons, &rim).buffer;
    assert_eq!(m.pixel(280 - 3, 60 - 3), Some([255, 255, 255, 255]));
    let m = render_pie_menu(DrawTool::Line, Some(9), false, &icons, &rim).buffer;
    assert_eq!(m.pixel(280 - 3, 60 - 3), Some([0, 0, 0, 0]));
}

fn dots(best: usize) -> Vec<Number> {
    (0..8)
        .map(|i| num(if i == best { 1.0 } else { -0.5 }))
        .collect()
}

#[test]
fn the_first_of_the_best_directions_is_taken() {
    assert_eq!(closest_by_direction(&dots(5)), 5);
    let mut two = dots(2);
    two[6] = num(1.0);
    assert_eq!(closest_by_direction(&two), 2);
}

#[test]
fn a_direction_means_a_color_on_the_ring_and_a_tool_elsewhere() {
    let (colors, tools) = (dots(3), dots(6));
    assert_eq!(find_nearest(num(29.9), &colors, &tools), None);
    assert_eq!(find_nearest(num(30.0), &colors, &tools), Some(14));
    assert_eq!(find_nearest(num(70.0), &colors, &tools), Some(3));
    assert_eq!(find_nearest(num(130.0), &colors, &tools), Some(3));
    assert_eq!(find_nearest(num(130.1), &colors, &tools), Some(14));
}

#[test]
fn a_button_under_the_pointer_comes_first() {
    let (colors, tools) = (dots(3), dots(6));
    let mut locals = vec![(-500, -500); 8];
    assert_eq!(
        hit_test_overlap(num(200.0), &colors, &tools, &locals),
        Some(14)
    );
    locals[1] = (50, 50);
    assert_eq!(
        hit_test_overlap(num(200.0), &colors, &tools, &locals),
        Some(9)
    );
    assert_eq!(
        hit_test_overlap(num(100.0), &colors, &tools, &locals),
        Some(3)
    );
    assert_eq!(hit_test_overlap(num(10.0), &colors, &tools, &locals), None);
}

#[test]
fn picking_a_button_makes_its_tool_active() {
    let mut s = DrawModeState::new();
    assert_eq!(s.tool, DrawTool::Freehand);
    s.begin_space_hold(800, 600);
    assert!(s.space_held);
    assert_eq!(s.viewport_size, (800, 600));
    s.free_cursor_offset = at(3.0, 4.0);
    s.set_pie_hover(Some(11), 5);
    let offset = s.end_space_hold();
    assert_eq!((val(offset.0), val(offset.1)), (3.0, 4.0));
    assert_eq!(s.tool, DrawTool::Line);
    assert!(s.annotation_active);
    assert!(!s.space_held);
    s.set_pie_hover(Some(4), 5);
    s.end_space_hold();
    assert_eq!(s.color, [0, 150, 255]);
    s.begin_space_hold(1, 1);
    s.set_pie_hover(Some(8), 6);
    s.cancel_space_hold();
    assert_eq!(s.tool, DrawTool::Line);
    assert!(!s.annotation_active);
}

#[test]
fn nothing_is_picked_where_nothing_is_hovered() {
    let mut s = DrawModeState::new();
    s.begin_space_hold(1, 1);
    s.end_space_hold();
    assert!(!s.annotation_active);
    assert_eq!(s.tool, DrawTool::Freehand);
}

#[test]
fn the_selection_style_decides_how_a_button_is_found() {
    let mut s = DrawModeState::new();
    let locals = vec![(50, 50); 8];
    s.update_pie_hover(num(200.0), &dots(0), &dots(2), &locals, 1);
    assert_eq!(s.pie_hover, Some(10));
    s.selection_style = SelectionStyle::Overlap;
    s.update_pie_hover(num(200.0), &dots(0), &dots(2), &locals, 2);
    assert_eq!(s.pie_hover, Some(8));
}

#[test]
fn a_tooltip_waits_for_the_pointer_to_rest() {
    let mut s = DrawModeState::new();
    assert_eq!(s.tooltip_label(9), None);
    assert_eq!(s.tooltip_redraw_after(9), None);
    s.set_pie_hover(Some(9), 1_000);
    assert_eq!(s.tooltip_label(1_000), None);
    assert_eq!(s.tooltip_redraw_after(500_001_000), Some(500_000_000));
    assert_eq!(s.tooltip_label(1_000_001_000), Some("Draw"));
    assert_eq!(s.tooltip_redraw_after(2_000_000_000), Some(0));
    s.set_pie_hover(Some(10), 1_500_000_000);
    assert_eq!(s.tooltip_label(1_600_000_000), None);
    s.set_pie_hover(Some(10), 2_400_000_000);
    assert_eq!(s.tooltip_label(2_500_000_000), Some("Erase"));
}

#[test]
fn the_menu_is_drawn_again_when_it_changes() {
    let icons: Vec<Option<RgbaBuffer>> = (0..8).map(|_| None).collect();
    let rim = vec![0u8; 106 * 106];
    let mut s = DrawModeState::new();
    s.set_pie_hover(Some(8), 0);
    let first = s.pie_menu_sprite(&icons, &rim, 1).unwrap().buffer.data.clone();
    let again = s.pie_menu_sprite(&icons, &rim, 2).unwrap().buffer.data.clone();
    assert_eq!(first, again);
    let with_tip = s
        .pie_menu_sprite(&icons, &rim, 1_000_000_000)
        .unwrap()
        .buffer
        .data
        .clone();
    assert_ne!(first, with_tip);
    s.set_pie_hover(None, 1_000_000_001);
    assert!(s.cached_pie_sprite.is_none());
}

fn draw(s: &mut DrawModeState, tool: DrawTool, from: (f64, f64), to: (f64, f64)) {
    let mut d = DrawingInProgress::new(tool, s.color, at(from.0, from.1));
    d.current = at(to.0, to.1);
    d.points.push(d.current);
    s.drawing = Some(d);
    let radius = (to.0 - from.0).hypot(to.1 - from.1);
    s.commit_drawing(num(radius), &vec![]);
}

#[test]
fn strokes_become_annotations() {
    let mut s = DrawModeState::new();
    draw(&mut s, DrawTool::Box, (5.0, 1.0), (2.0, 8.0));
    draw(&mut s, DrawTool::Circle, (0.0, 0.0), (3.0, 4.0));
    draw(&mut s, DrawTool::Freehand, (0.0, 0.0), (1.0, 1.0));
    draw(&mut s, DrawTool::Line, (0.0, 0.0), (1.0, 1.0));
    draw(&mut s, DrawTool::Arrow, (0.0, 0.0), (1.0, 1.0));
    draw(&mut s, DrawTool::Select, (0.0, 0.0), (1.0, 1.0));
    assert_eq!(s.annotations.len(), 5);
    assert_eq!(s.overlay_version(), 5);
    match &s.annotations[0] {
        Annotation::Box {
            top_left,
            bottom_right,
            width,
            ..
        } => {
            assert_eq!((val(top_left.0), val(top_left.1)), (2.0, 1.0));
            assert_eq!((val(bottom_right.0), val(bottom_right.1)), (5.0, 8.0));
            assert_eq!(val(*width), 2.0);
        }
        other => panic!("not a box: {other:?}"),
    }
    match &s.annotations[1] {
        Annotation::Circle { radius, .. } => assert_eq!(val(*radius), 5.0),
        other => panic!("not a circle: {other:?}"),
    }
    match &s.annotations[2] {
        Annotation::Freehand { points, .. } => assert_eq!(points.len(), 2),
        other => panic!("not a stroke: {other:?}"),
    }
    assert_eq!(s.annotations[4].color(), [255, 0, 0]);
}

fn numbers(s: &DrawModeState) -> Vec<i32> {
    s.annotations
        .iter()
        .filter_map(|a| match a {
            Annotation::Number { value, .. } => Some(*value),
            _ => None,
        })
        .collect()
}

#[test]
fn numbers_count_up_through_undo_and_redo() {
    let mut s = DrawModeState::new();
    for _ in 0..3 {
        draw(&mut s, DrawTool::Number, (0.0, 0.0), (0.0, 0.0));
    }
    assert_eq!(numbers(&s), vec![1, 2, 3]);
    s.undo();
    s.undo();
    assert_eq!(numbers(&s), vec![1]);
    assert_eq!(s.next_number, 2);
    s.redo();
    assert_eq!(numbers(&s), vec![1, 2]);
    assert_eq!(s.next_number, 3);
    draw(&mut s, DrawTool::Number, (0.0, 0.0), (0.0, 0.0));
    assert_eq!(numbers(&s), vec![1, 2, 3]);
    s.redo();
    assert_eq!(numbers(&s), vec![1, 2, 3]);
    assert!(s.redo_stack.is_empty());
}

#[test]
fn undo_without_annotations_changes_nothing() {
    let mut s = DrawModeState::new();
    s.undo();
    s.redo();
    assert_eq!(s.overlay_version(), 0);
    assert!(s.annotations.is_empty());
}

#[test]
fn the_eraser_removes_what_it_hit() {
    let mut s = DrawModeState::new();
    for _ in 0..4 {
        draw(&mut s, DrawTool::Number, (0.0, 0.0), (0.0, 0.0));
    }
    s.drawing = Some(DrawingInProgress::new(DrawTool::Erase, s.color, at(0.0, 0.0)));
    s.commit_drawing(num(0.0), &vec![false, true, false, true]);
    assert_eq!(numbers(&s), vec![1, 3]);
    assert_eq!(s.overlay_version(), 5);
    s.drawing = Some(DrawingInProgress::new(DrawTool::Erase, s.color, at(0.0, 0.0)));
    s.commit_drawing(num(0.0), &vec![false, false]);
    assert_eq!(s.overlay_version(), 5);
    assert!(s.drawing.is_none());
}

#[test]
fn leaving_annotation_mode_drops_the_stroke() {
    let mut s = DrawModeState::new();
    s.annotation_active = true;
    s.drawing_held = true;
    s.drawing = Some(DrawingInProgress::new(DrawTool::Line, s.color, at(0.0, 0.0)));
    s.deactivate_annotation();
    assert!(s.drawing.is_none());
    assert!(!s.drawing_held && !s.annotation_active);
}

#[test]
fn the_overlay_is_brought_up_to_date_bit_by_bit() {
    let mut s = DrawModeState::new();
    let key = (at(1.0, 2.0), num(3.0), 80, 60);
    let plan = s.annotations_overlay(None, key);
    assert!(plan.new_canvas && plan.redraw && !plan.preview);
    assert_eq!(plan.segments, None);
    let plan = s.annotations_overlay(Some((80, 60)), key);
    assert!(!plan.new_canvas && !plan.redraw);
    let mut d = DrawingInProgress::new(DrawTool::Freehand, s.color, at(0.0, 0.0));
    d.points.push(at(1.0, 1.0));
    d.points.push(at(2.0, 1.0));
    s.drawing = Some(d);
    let plan = s.annotations_overlay(Some((80, 60)), key);
    assert_eq!(plan.segments, Some((0, 2)));
    s.drawing.as_mut().unwrap().points.push(at(3.0, 1.0));
    let plan = s.annotations_overlay(Some((80, 60)), key);
    assert_eq!(plan.segments, Some((2, 3)));
    assert_eq!(s.annotations_overlay(Some((80, 60)), key).segments, None);
    let moved = (at(1.5, 2.0), num(3.0), 80, 60);
    let plan = s.annotations_overlay(Some((80, 60)), moved);
    assert!(plan.redraw);
    assert_eq!(plan.segments, Some((0, 3)));
    s.drawing = Some(DrawingInProgress::new(DrawTool::Box, s.color, at(0.0, 0.0)));
    assert!(s.annotations_overlay(Some((80, 60)), moved).preview);
    s.invalidate_overlay();
    assert!(s.annotations_overlay(Some((80, 60)), moved).redraw);
}

#[test]
fn a_new_canvas_is_drawn_anew() {
    let mut s = DrawModeState::new();
    let key = (at(1.0, 2.0), num(3.0), 80, 60);
    let mut d = DrawingInProgress::new(DrawTool::Freehand, s.color, at(0.0, 0.0));
    d.points.push(at(1.0, 1.0));
    d.points.push(at(2.0, 1.0));
    s.drawing = Some(d);
    assert!(s.annotations_overlay(None, key).redraw);
    let plan = s.annotations_overlay(Some((80, 60)), key);
    assert!(!plan.redraw && plan.segments.is_none());
    // The canvas went away, or has another size: the view is the same.
    for canvas in [None, Some((40, 60))] {
        let plan = s.annotations_overlay(canvas, key);
        assert!(plan.new_canvas && plan.redraw);
        assert_eq!(plan.segments, Some((0, 2)));
    }
}

#[test]
fn shapes_in_progress_have_bounds() {
    assert_eq!(
        drawing_bounds(DrawTool::Line, (50, 10), (30, 40), 0),
        (10, -10, 70, 60)
    );
    assert_eq!(
        drawing_bounds(DrawTool::Circle, (50, 50), (0, 0), 10),
        (20, 20, 80, 80)
    );
    assert_eq!(
        drawing_bounds(DrawTool::Number, (50, 50), (0, 0), 10),
        (30, 30, 70, 70)
    );
    assert_eq!(
        drawing_bounds(DrawTool::Freehand, (50, 50), (0, 0), 10),
        (0, 0, 0, 0)
    );
}

#[test]
fn double_cells_look_like_plain_text() {
    for (x, y) in [(1, 1), (-15, 3), (30, -9), (i32::MAX - 3, 0), (i32::MIN, i32::MAX)] {
        let mut scaled = vec![7u8; 60 * 30 * 4];
        let mut plain = scaled.clone();
        draw_text_scaled(&mut scaled, 60, 30, x, y, "Zoom 3x ~", [1, 2, 3], 2);
        draw_text(&mut plain, 60, 30, x, y, "Zoom 3x ~", [3, 2, 1]);
        assert_eq!(scaled, plain);
    }
    // A line far longer than the canvas, and cells larger than it.
    let mut canvas = vec![0u8; 20 * 20 * 4];
    draw_text_scaled(&mut canvas, 20, 20, 0, 0, &"i".repeat(100_000), [9, 9, 9], 1);
    assert!(canvas.iter().any(|b| *b == 9));
    let mut canvas = vec![0u8; 20 * 20 * 4];
    draw_text_scaled(&mut canvas, 20, 20, 0, 0, "H", [9, 9, 9], i32::MAX);
    assert!(canvas.chunks_exact(4).all(|p| p == [9, 9, 9, 255]));
}

#[test]
fn rounded_rectangles_may_be_of_any_size() {
    let far = i32::MAX;
    assert!(point_in_rounded_rect(far / 2, far / 2, far, far, 100_000));
    assert!(!point_in_rounded_rect(0, 0, far, far, 100_000));
    let mut canvas = vec![0u8; 6 * 6 * 4];
    fill_rounded_rect(&mut canvas, 6, 6, -far / 2, -far / 2, far, far, 0, [1, 2, 3, 255]);
    assert!(canvas.chunks_exact(4).all(|p| p == [1, 2, 3, 255]));
}

#[test]
fn bounds_reach_to_the_ends() {
    let end = i32::MAX - 20;
    assert_eq!(
        drawing_bounds(DrawTool::Line, (end, end), (-end, 0), 0),
        (-end - 20, -20, i32::MAX, i32::MAX)
    );
}

#[test]
fn every_icon_is_drawn_in_its_colour() {
    let mut seen: Vec<Vec<u8>> = Vec::new();
    for i in 0..8 {
        let icon = load_svg_icon(icon_source(i).as_bytes(), [9, 8, 7]).unwrap();
        assert_eq!((icon.width, icon.height), (96, 96));
        assert_eq!(icon.data.len(), 96 * 96 * 4);
        assert!(icon.data.chunks_exact(4).all(|p| p[3] == 0 || p[..3] == [9, 8, 7]));
        let inked = icon.data.chunks_exact(4).filter(|p| p[3] == 255).count();
        assert!((200..3000).contains(&inked), "{inked} pixels of icon {i}");
        assert!(!seen.contains(&icon.data));
        seen.push(icon.data);
    }
}

#[test]
fn icons_are_drawn_at_their_scale() {
    // A line from (5, 12) to (19, 12), two units thick, at four pixels a unit.
    let icon = load_svg_icon(icon_source(3).as_bytes(), [1, 2, 3]).unwrap();
    for (i, p) in icon.data.chunks_exact(4).enumerate() {
        let (x, y) = (i % 96, i / 96);
        let inside = (20..76).contains(&x) && (44..52).contains(&y);
        assert_eq!(p, if inside { [1, 2, 3, 255] } else { [0; 4] });
    }
}

#[test]
fn drawn_bytes_make_an_icon() {
    let icon = icon_from(vec![1, 1, 1, 40, 5, 5, 5, 0], 2, 1, [9, 8, 7]);
    assert_eq!(icon.data, vec![9, 8, 7, 40, 5, 5, 5, 0]);
}
