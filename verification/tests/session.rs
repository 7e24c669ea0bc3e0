use maggie::config::{MagnifierConfig, ScreenshotScale, ScrollZoomMode};
use maggie::engine::{KeyEffect, KeyMeasures, Session};
use maggie::frame::{
    overlay_key, CursorPlace, CursorUpload, FrameKind, Hint, OverlayCache,
};
use maggie::keys::{
    action_for, char_text, nudge_key_of, zoom_level_of, BoundAction, KEY_ESCAPE, KEY_KP_ENTER,
    KEY_Q, KEY_RETURN, KEY_TAB,
};
use maggie::number::Number;
use maggie::osd::Corner;
use maggie::passes::{plan_passes, Area, Blending, Layers, Picture, Texture};
use maggie::pointer::{accum_step, factor_zoom, wheel_zooms_in, MotionCase, PointerRoute};
use maggie::screenshot::{ScreenshotBorder, SUBPIXELS};
use maggie::screenshot_mode::{ScreenshotMode, BTN_LEFT, BTN_MIDDLE, BTN_RIGHT};
use maggie::surface::{configured_size, output_logical_size};
use maggie::state::{MagnifierMode, MagnifierState};
use maggie::timing::{
    Timers, CURSOR_SETTLE_DELAY, MINIMAP_PULSE_INTERVAL, MOTION_REDRAW_INTERVAL, NOTICE_TIME,
    NUDGE_REPEAT_DELAY, NUDGE_REPEAT_INTERVAL,
};

const MS: u64 = 1_000_000;

fn num(x: f64) -> Number {
    Number { bits: x.to_bits() }
}

fn val(n: Number) -> f64 {
    f64::from_bits(n.bits)
}

fn at(x: f64, y: f64) -> (Number, Number) {
    (num(x), num(y))
}

fn session_with(config: MagnifierConfig) -> Session {
    let mut s = Session::new(MagnifierState::new(config, None, 0));
    s.frame_captured(200, 100, num(0.5));
    s
}

fn session() -> Session {
    session_with(MagnifierConfig {
        show_osd: false,
        ..MagnifierConfig::default()
    })
}

fn measures(digit: u32, now: u64) -> KeyMeasures {
    KeyMeasures {
        fit: num(0.5),
        level: num(digit as f64),
        pointer_capture: at(40.0, 30.0),
        bounds: at(200.0, 100.0),
        anchor: None,
        aim: (0, 0),
        now,
    }
}

fn press(s: &mut Session, c: char) -> KeyEffect {
    let digit = c.to_digit(10).unwrap_or(0);
    s.press_key(c as u32, &measures(digit, 1000 * MS))
}

fn effect(forward: bool, redraw: bool, open_config: bool, save: bool) -> KeyEffect {
    KeyEffect {
        forward,
        redraw,
        open_config,
        save,
    }
}

#[test]
fn toggle_keys_flip_and_flip_back() {
    let mut s = session();
    assert!(!s.state.osd_visible);
    assert_eq!(press(&mut s, 'k'), effect(false, true, false, false));
    assert!(s.state.osd_visible);
    press(&mut s, 'k');
    assert!(!s.state.osd_visible);
    let shown = s.state.cursor_visible;
    press(&mut s, 'c');
    assert_eq!(s.state.cursor_visible, !shown);
    assert!(s.minimap_visible);
    press(&mut s, 'm');
    assert!(!s.minimap_visible);
}

#[test]
fn digit_keys_set_levels_and_r_resets() {
    let mut s = session();
    assert_eq!(press(&mut s, '4'), effect(false, true, false, false));
    assert_eq!(val(s.state.zoom), 4.0);
    assert_eq!(val(s.state.renderer.scale_factor()), 4.0);
    press(&mut s, '9');
    assert_eq!(val(s.state.zoom), 9.0);
    press(&mut s, 'r');
    assert_eq!(val(s.state.zoom), 1.0);
    press(&mut s, '0');
    assert_eq!(val(s.state.zoom), 0.5);
}

#[test]
fn keys_without_an_effect_do_nothing() {
    let mut s = session();
    assert_eq!(press(&mut s, 'w'), effect(false, false, false, false));
    assert_eq!(press(&mut s, 'a'), effect(false, false, false, false));
    assert_eq!(press(&mut s, 'z'), effect(false, false, false, false));
    assert!(!s.exit);
}

#[test]
fn escape_and_q_quit() {
    let mut s = session();
    s.press_key(KEY_ESCAPE, &measures(0, 0));
    assert!(s.exit);
    let mut s = session();
    s.press_key(KEY_Q, &measures(0, 0));
    assert!(s.exit);
}

#[test]
fn the_settings_take_all_keys() {
    let mut s = session();
    assert_eq!(
        s.press_key(KEY_TAB, &measures(0, 0)),
        effect(false, false, true, false)
    );
    s.hold.active = true;
    s.config_opened();
    assert!(s.config_open);
    assert!(!s.hold.active);
    assert_eq!(
        s.press_key(KEY_ESCAPE, &measures(0, 0)),
        effect(true, true, false, false)
    );
    assert!(!s.exit);
    assert_eq!(s.repeat_key('s' as u32, (0, 0)), (false, true));
    assert_eq!(s.route_pointer(), PointerRoute::Config);
    assert_eq!(s.start_frame((0, 0), 0), FrameKind::Config);
    s.config_closed();
    assert!(!s.config_open);
}

#[test]
fn screenshot_mode_selects_nudges_and_saves() {
    let mut s = session();
    press(&mut s, 'g');
    assert!(s.shot.active);
    assert_eq!(s.shot.rect, None);
    assert_eq!(s.route_pointer(), PointerRoute::Screenshot);
    // Nothing to save yet.
    assert_eq!(
        s.press_key(KEY_RETURN, &measures(0, 0)),
        effect(false, true, false, false)
    );
    press(&mut s, 'f');
    assert_eq!(s.shot.rect, Some((0, 0, 200, 100)));
    // The aim at the origin is closest to the top border.
    let aim = (0, 0);
    assert_eq!(s.active_border((100 * SUBPIXELS, 0)), Some(ScreenshotBorder::Top));
    assert_eq!(s.active_border((0, 50 * SUBPIXELS)), Some(ScreenshotBorder::Left));
    let mut m = measures(0, 2000 * MS);
    m.aim = (0, 50 * SUBPIXELS);
    s.press_key('d' as u32, &m);
    assert_eq!(s.shot.rect, Some((1, 0, 200, 100)));
    assert_eq!(s.shot.nudge_hold, Some(('d', 2000 * MS + NUDGE_REPEAT_DELAY)));
    // The timer repeats it, the compositor does not as well.
    assert_eq!(s.repeat_key('d' as u32, aim), (false, false));
    s.start_frame((0, 50 * SUBPIXELS), 2000 * MS + NUDGE_REPEAT_DELAY + MS);
    assert_eq!(s.shot.rect, Some((2, 0, 200, 100)));
    assert_eq!(
        s.shot.nudge_hold,
        Some(('d', 2000 * MS + NUDGE_REPEAT_DELAY + NUDGE_REPEAT_INTERVAL))
    );
    s.release_key('d' as u32, 3000 * MS);
    assert_eq!(s.shot.nudge_hold, None);
    assert_eq!(s.repeat_key('d' as u32, (0, 50 * SUBPIXELS)), (true, false));
    assert_eq!(s.shot.rect, Some((3, 0, 200, 100)));
    assert_eq!(
        s.press_key(KEY_KP_ENTER, &measures(0, 0)),
        effect(false, true, false, true)
    );
    s.capture_finished(Ok("/tmp/a.png".to_string()), 5000 * MS);
    assert!(!s.shot.active);
    assert_eq!(s.notice, Some(("Saved /tmp/a.png".to_string(), 5000 * MS)));
    assert!(s.screenshot_notice_fresh(5000 * MS + NOTICE_TIME - 1));
    assert!(s.shows_osd(5000 * MS));
    assert!(!s.shows_osd(5000 * MS + NOTICE_TIME));
    s.capture_finished(Err("no disk".to_string()), 0);
    assert_eq!(
        s.notice,
        Some(("Screenshot failed: no disk".to_string(), 0))
    );
}

#[test]
fn screenshot_mode_keeps_legend_and_minimap_keys() {
    let mut s = session();
    press(&mut s, 'g');
    press(&mut s, 'k');
    assert!(s.state.osd_visible);
    press(&mut s, 'm');
    assert!(!s.minimap_visible);
    assert!(s.shot.active);
    assert_eq!(s.shot.effective_screenshot_scale(ScreenshotScale::Real), ScreenshotScale::Real);
    press(&mut s, 'v');
    assert_eq!(
        s.shot.effective_screenshot_scale(ScreenshotScale::Real),
        ScreenshotScale::Magnified
    );
    // Digits belong to the mode and do not zoom.
    press(&mut s, '5');
    assert_eq!(val(s.state.zoom), 1.0);
    s.press_key(KEY_ESCAPE, &measures(0, 0));
    assert!(!s.shot.active);
    assert!(!s.exit);
}

#[test]
fn the_settings_key_leaves_screenshot_mode() {
    let mut s = session();
    press(&mut s, 'g');
    let r = s.press_key(KEY_TAB, &measures(0, 0));
    assert_eq!(r, effect(false, false, true, false));
    assert!(!s.shot.active);
}

#[test]
fn dragging_makes_a_selection() {
    let mut s = session();
    press(&mut s, 'g');
    let frame = s.frame;
    s.shot.on_press(BTN_LEFT, frame, (150, 80));
    assert!(s.shot.dragging);
    assert!(s.shot_motion(at(1.0, 1.0), (1, 1), (50, 120), 10_000 * MS));
    assert_eq!(s.shot.rect, Some((50, 80, 150, 100)));
    assert_eq!(s.state.pointer_position, (1, 1));
    // A second motion right away is put off.
    assert!(!s.shot_motion(at(2.0, 1.0), (2, 1), (40, 120), 10_000 * MS + 1));
    assert!(s.timers.redraw_pending);
    s.shot.on_release(BTN_LEFT);
    assert!(!s.shot.dragging);
    s.shot.on_press(BTN_RIGHT, frame, (0, 0));
    assert!(!s.shot.active);
}

#[test]
fn a_fresh_mode_is_off() {
    let m = ScreenshotMode::new();
    assert!(!m.active && !m.dragging && m.rect.is_none() && m.scale.is_none());
}

#[test]
fn buttons_quit_and_hold() {
    let mut s = session();
    s.pointer = at(7.0, 9.0);
    assert!(!s.press_button(BTN_MIDDLE, num(0.5), at(40.0, 300.0), at(200.0, 100.0)));
    assert!(s.hold.active);
    assert_eq!(val(s.hold.last_y), 9.0);
    assert_eq!(s.view_center, Some(at(40.0, 100.0)));
    assert!(s.release_button(BTN_MIDDLE, 77));
    assert!(!s.hold.active);
    assert_eq!(s.timers.last_motion_at, Some(77));
    assert!(!s.release_button(BTN_MIDDLE, 78));
    assert_eq!(s.view_center, Some(at(40.0, 100.0)));
    assert!(!s.press_button(BTN_RIGHT, num(0.5), at(0.0, 0.0), at(200.0, 100.0)));
    assert!(s.exit);
}

#[test]
fn the_middle_button_resets_where_a_key_holds() {
    let mut config = MagnifierConfig::default();
    config.keybindings.hold_to_zoom = "z".to_string();
    let mut s = session_with(config);
    press(&mut s, '6');
    assert!(s.press_button(BTN_MIDDLE, num(0.5), at(0.0, 0.0), at(200.0, 100.0)));
    assert_eq!(val(s.state.zoom), 1.0);
    assert!(!s.hold.active);
    press(&mut s, 'z');
    assert!(s.hold.active);
    assert!(s.release_key('z' as u32, 5));
    assert!(!s.hold.active);
    press(&mut s, 'z');
    s.keyboard_left();
    assert!(!s.hold.active);
}

#[test]
fn motion_pans_zooms_or_rests() {
    let mut s = session();
    assert_eq!(s.motion_case(), MotionCase::Still);
    s.view_center = Some(at(50.0, 50.0));
    assert_eq!(
        s.motion_case(),
        MotionCase::Pan {
            slow: false,
            pull: true
        }
    );
    s.update_modifiers(true);
    s.state.config.pan_tuning = num(1.5);
    assert_eq!(
        s.motion_case(),
        MotionCase::Pan {
            slow: true,
            pull: false
        }
    );
    s.arm_hold(at(0.0, 0.0), at(200.0, 100.0));
    assert_eq!(
        s.motion_case(),
        MotionCase::Hold {
            pan: true,
            slow: true
        }
    );
}

#[test]
fn the_view_never_leaves_the_frame() {
    let mut s = session();
    s.pan_to(at(5.0, 5.0), at(200.0, 100.0));
    assert_eq!(s.view_center, None);
    s.view_center = Some(at(50.0, 50.0));
    s.pan_to(at(-5.0, 105.0), at(200.0, 100.0));
    assert_eq!(s.view_center, Some(at(0.0, 100.0)));
    s.pan_sideways(num(500.0), at(200.0, 100.0));
    assert_eq!(s.view_center, Some(at(200.0, 100.0)));
    // At a wall the pull does nothing, in the open it does.
    s.correct_view(num(9.0), at(60.0, 60.0), at(200.0, 100.0));
    assert_eq!(s.view_center, Some(at(200.0, 100.0)));
    s.view_center = Some(at(50.0, 50.0));
    s.correct_view(num(0.5), at(60.0, 60.0), at(200.0, 100.0));
    assert_eq!(s.view_center, Some(at(50.0, 50.0)));
    s.correct_view(num(0.6), at(60.0, 60.0), at(200.0, 100.0));
    assert_eq!(s.view_center, Some(at(60.0, 60.0)));
    assert_eq!(
        s.center_view(at(1.0, 1.0), at(2.0, 2.0), at(200.0, 100.0)),
        at(60.0, 60.0)
    );
}

#[test]
fn the_view_starts_at_the_pointer_or_in_the_middle() {
    let mut s = session();
    let bounds = at(200.0, 100.0);
    assert_eq!(s.center_view(at(1.0, 1.0), at(100.0, 50.0), bounds), at(100.0, 50.0));
    s.route_pointer();
    assert_eq!(s.center_view(at(1.0, 1.0), at(100.0, 50.0), bounds), at(1.0, 1.0));
    s.frame = None;
    assert_eq!(s.center_view(at(-1.0, 1.0), at(100.0, 50.0), bounds), at(-1.0, 1.0));
}

#[test]
fn entering_centers_once() {
    let mut s = session();
    let bounds = at(200.0, 100.0);
    assert!(s.pointer_entered(at(10.0, 20.0), (10, 20), at(20.0, 400.0), bounds));
    assert_eq!(s.view_center, Some(at(20.0, 100.0)));
    assert_eq!(s.cursor_bake, Some(at(20.0, 100.0)));
    assert!(!s.pointer_entered(at(90.0, 20.0), (90, 20), at(180.0, 40.0), bounds));
    assert_eq!(s.view_center, Some(at(20.0, 100.0)));
    // Without a frame the position waits for one.
    let mut s = Session::new(MagnifierState::new(MagnifierConfig::default(), None, 0));
    assert!(!s.pointer_entered(at(10.0, 20.0), (10, 20), at(20.0, 40.0), bounds));
    assert_eq!(s.launch_position, Some(at(10.0, 20.0)));
    s.frame_captured(200, 100, num(0.5));
    assert!(s.apply_launch_centering(at(20.0, 40.0), bounds));
    assert_eq!(s.view_center, Some(at(20.0, 40.0)));
    assert!(!s.apply_launch_centering(at(1.0, 1.0), bounds));
}

#[test]
fn only_real_motion_counts() {
    let mut s = session();
    assert!(s.pointer_moved(at(3.0, 4.0), (3, 4), 50));
    assert_eq!(s.timers.last_motion_at, Some(50));
    assert!(!s.pointer_moved(at(3.0, 4.0), (3, 4), 60));
    assert_eq!(s.timers.last_motion_at, Some(50));
}

#[test]
fn zoom_changes_below_a_hair_are_ignored() {
    let mut s = session();
    assert!(!s.apply_zoom(num(2.0), num(1e-9), num(0.5)));
    assert_eq!(val(s.state.zoom), 1.0);
    assert!(s.apply_zoom(num(2.0), num(1.0), num(0.5)));
    assert_eq!(val(s.state.zoom), 2.0);
    assert!(s.apply_zoom(num(99.0), num(97.0), num(0.5)));
    assert_eq!(val(s.state.zoom), 9.0);
    assert!(s.apply_zoom(num(0.1), num(8.9), num(0.5)));
    assert_eq!(val(s.state.zoom), 1.0);
}

#[test]
fn holding_zooms_with_the_height() {
    let mut s = session();
    s.arm_hold(at(0.0, 0.0), at(200.0, 100.0));
    s.state.zoom = num(3.0);
    let z = s.hold_step(num(40.0), num(-10.0), num(2.0), num(10.0), num(3.5), num(0.5));
    assert_eq!(val(z), 3.5);
    assert_eq!(val(s.hold.last_y), 40.0);
    let z = s.hold_step(num(30.0), num(-10.0), num(2.0), num(10.0), num(99.0), num(0.5));
    assert_eq!(val(z), 9.0);
}

#[test]
fn slowed_motion_collects() {
    assert_eq!(
        accum_step(num(0.4), num(0.0), num(0.4)),
        (num(0.0), num(0.4))
    );
    assert_eq!(
        accum_step(num(-0.6), num(-1.0), num(0.4)),
        (num(-1.0), num(0.4))
    );
    let mut s = session();
    s.update_modifiers(true);
    s.pan_accum = at(0.3, 0.2);
    s.update_modifiers(true);
    assert_eq!(s.pan_accum, at(0.3, 0.2));
    s.update_modifiers(false);
    assert_eq!(s.pan_accum, at(0.0, 0.0));
}

#[test]
fn the_wheel_zooms_by_ten_percent_in_its_direction() {
    assert!(wheel_zooms_in(true, false));
    assert!(!wheel_zooms_in(true, true));
    assert!(!wheel_zooms_in(false, false));
    assert!(wheel_zooms_in(false, true));
    assert_eq!(val(factor_zoom(num(2.0), num(1.0), true, num(2.0 * 1.1))), 2.0 * 1.1);
    assert_eq!(val(factor_zoom(num(8.9), num(1.0), true, num(8.9 * 1.1))), 8.9 * 1.1);
    assert_eq!(val(factor_zoom(num(30.0), num(1.0), true, num(30.0 * 1.1))), 32.0);
    assert_eq!(val(factor_zoom(num(1.0), num(1.0), false, num(0.9))), 1.0);
    // Below the smallest zoom, zooming out stays and zooming in reaches it.
    assert_eq!(val(factor_zoom(num(0.5), num(1.0), false, num(0.45))), 0.5);
    assert_eq!(val(factor_zoom(num(0.5), num(1.0), true, num(0.55))), 1.0);
}

#[test]
fn factor_notches_pass_the_largest_zoom_of_the_settings() {
    let mut s = session_with(MagnifierConfig {
        scroll_zoom_mode: ScrollZoomMode::Factor,
        max_zoom: num(9.0),
        default_zoom: Some(num(9.0)),
        ..MagnifierConfig::default()
    });
    let next = factor_zoom(s.state.zoom, num(1.0), true, num(9.0 * 1.1));
    assert!(s.apply_wheel_zoom(next, num(0.9), num(0.5)));
    assert_eq!(val(s.state.zoom), 9.0 * 1.1);
    assert_eq!(val(s.state.renderer.scale_factor), 9.0 * 1.1);
    assert!(s.apply_wheel_zoom(num(40.0), num(30.1), num(0.5)));
    assert_eq!(val(s.state.zoom), 32.0);
    assert!(!s.apply_wheel_zoom(num(32.0), num(0.0), num(0.5)));
    // Over the levels the settings keep their word.
    s.state.config.scroll_zoom_mode = ScrollZoomMode::Levels;
    assert!(s.apply_wheel_zoom(num(20.0), num(12.0), num(0.5)));
    assert_eq!(val(s.state.zoom), 9.0);
}

#[test]
fn capturing_raises_a_zoom_below_the_smallest() {
    let mut s = Session::new(MagnifierState::new(MagnifierConfig::default(), None, 0));
    s.state.zoom = num(0.25);
    s.frame_captured(200, 100, num(0.5));
    assert_eq!(s.frame, Some((200, 100)));
    assert_eq!(val(s.state.zoom), 1.0);
}

#[test]
fn the_pointer_is_drawn_where_it_belongs() {
    let mut s = session();
    assert_eq!(s.cursor_place(true), CursorPlace::Hidden);
    s.route_pointer();
    assert_eq!(s.cursor_place(true), CursorPlace::Center);
    assert_eq!(s.cursor_place(false), CursorPlace::Hidden);
    press(&mut s, 'g');
    assert_eq!(s.cursor_place(true), CursorPlace::FollowsPointer);
    s.state.cursor_visible = false;
    assert_eq!(s.cursor_place(true), CursorPlace::Hidden);
    let mut u = CursorUpload {
        zoom: num(-1.0),
        was_visible: false,
    };
    assert!(u.cursor_changed(true, num(0.0)));
    // A frame without the pointer leaves its zoom unknown.
    u.drawn(false, true, num(2.0));
    assert_eq!(val(u.zoom), -1.0);
    assert!(u.cursor_changed(true, num(3.0)));
    u.drawn(true, true, num(2.0));
    assert_eq!(val(u.zoom), 2.0);
    assert!(!u.cursor_changed(true, num(0.0)));
    assert!(u.cursor_changed(true, num(0.1)));
    assert!(!u.cursor_changed(false, num(1.0)));
    u.drawn(false, false, num(2.0));
    assert!(u.cursor_changed(true, num(0.0)));
}

#[test]
fn minimap_and_legend_have_different_corners() {
    let mut s = session();
    assert_eq!(s.corners(), (Corner::TopLeft, Corner::BottomRight));
    s.state.config.osd_corner = Corner::BottomRight;
    assert_eq!(s.corners(), (Corner::BottomRight, Corner::TopLeft));
    press(&mut s, 'g');
    assert_eq!(s.corners(), (Corner::TopLeft, Corner::BottomRight));
    for c in [
        Corner::TopLeft,
        Corner::TopRight,
        Corner::BottomLeft,
        Corner::BottomRight,
    ] {
        s.state.config.minimap_corner = c;
        let (osd, minimap) = s.corners();
        assert_ne!(osd, minimap);
    }
}

#[test]
fn hints_come_and_go() {
    let mut s = Session::new(MagnifierState::new(MagnifierConfig::default(), None, 1000 * MS));
    // The legend says it all already.
    assert_eq!(s.pick_hint(1001 * MS), Hint::Nothing);
    let config = MagnifierConfig {
        show_osd: false,
        ..MagnifierConfig::default()
    };
    let mut s = Session::new(MagnifierState::new(config, None, 1000 * MS));
    assert_eq!(s.pick_hint(1001 * MS), Hint::Help);
    assert_eq!(Hint::Help.line("k"), Some("k: help".to_string()));
    s.update_modifiers(true);
    assert_eq!(s.pick_hint(1001 * MS), Hint::ShiftSlow);
    assert_eq!(Hint::ShiftSlow.line("k"), Some("Shift: slow".to_string()));
    assert_eq!(Hint::ShiftSlow.color(), [0xCC, 0xCC, 0xCC]);
    assert_eq!(Hint::Help.color(), [0x80, 0x80, 0x80]);
    s.update_modifiers(false);
    assert_eq!(s.pick_hint(5000 * MS), Hint::Nothing);
    assert_eq!(Hint::Nothing.line("k"), None);
    // Over for good.
    assert_eq!(s.pick_hint(1001 * MS), Hint::Nothing);
    assert_eq!(s.state.launch_hint_deadline, None);
}

#[test]
fn edges_hold_a_parked_pointer() {
    let mut s = session();
    s.pointer = at(0.0, 50.0);
    let c = s.hold_edges(at(1.0, 40.0), at(-200.0, -50.0), at(-199.0, -60.0), at(200.0, 100.0));
    assert_eq!(c, at(0.0, 40.0));
    assert_eq!(s.edge_hold, (Some(false), None));
    assert_eq!(s.view_center, Some(at(0.0, 40.0)));
}

#[test]
fn the_session_legend_names_the_keys() {
    let mut s = session();
    let lines = s.osd_lines("1.2", "2.0x", Some((12, -3)), 0);
    assert_eq!(lines[0], "maggie v1.2  zoom 2.0x");
    assert_eq!(lines[1], "pos 12x-3");
    assert_eq!(lines[2], "0-9  zoom level");
    assert_eq!(lines[3], "k  toggle OSD");
    assert_eq!(lines[10], "hold MMB + move  smooth zoom");
    assert_eq!(lines[11], "r  reset zoom");
    assert_eq!(lines[12], "Q / Esc / RMB  quit");
    assert_eq!(lines.len(), 13);
    s.edge_hold = (Some(true), Some(false));
    s.notice = Some(("Saved x".to_string(), 10));
    s.state.config.keybindings.hold_to_zoom = "z".to_string();
    let lines = s.osd_lines("1.2", "2.0x", Some((12, -3)), 10);
    assert_eq!(lines[1], "Saved x");
    assert_eq!(lines[2], "pos 200x-3");
    assert_eq!(lines[12], "MMB / r  reset zoom");
    let lines = s.osd_lines("1.2", "2.0x", None, 10 + NOTICE_TIME);
    assert_eq!(lines[1], "0-9  zoom level");
    press(&mut s, 'g');
    let lines = s.osd_lines("1.2", "2.0x", None, 10);
    assert_eq!(
        lines,
        vec![
            "maggie v1.2  screenshot mode",
            "drag  select",
            "f  fullscreen",
            "Return  save",
            "Esc  cancel",
            "WASD  nudge border",
            "v  scale: real size",
            "m  toggle minimap",
        ]
    );
}

#[test]
fn the_overlay_is_drawn_again_only_on_a_change() {
    let mut cache = OverlayCache::new();
    let rect = Some((2, 2, 6, 6));
    let red = [255, 0, 0];
    assert!(cache.refresh(true, rect, None, rect, red, 1, 8, 8));
    assert!(!cache.refresh(true, rect, None, rect, red, 1, 8, 8));
    assert!(cache.refresh(true, rect, Some(ScreenshotBorder::Top), rect, red, 1, 8, 8));
    assert!(cache.refresh(true, rect, Some(ScreenshotBorder::Top), rect, red, 1, 9, 8));
    assert!(cache.refresh(false, rect, None, rect, red, 1, 9, 8));
    let image = cache.image.unwrap();
    assert!(image.data.iter().all(|&b| b == 0));
    let key = overlay_key(true, None, None);
    assert_eq!((key.has_rect, key.x0, key.y1), (false, 0, 0));
}

#[test]
fn a_frame_needs_a_capture() {
    let mut s = Session::new(MagnifierState::new(MagnifierConfig::default(), None, 0));
    assert_eq!(s.start_frame((0, 0), 0), FrameKind::Nothing);
    s.frame_captured(200, 100, num(0.5));
    assert_eq!(s.start_frame((0, 0), 0), FrameKind::Magnified);
}

#[test]
fn timers_space_redraws_and_settle() {
    let mut t = Timers::new();
    let t0 = 10_000 * MS;
    assert_eq!(t.poll_timeout(None, false, t0), None);
    assert_eq!(t.poll_timeout(None, true, t0), Some(MINIMAP_PULSE_INTERVAL));
    assert_eq!(t.poll_timeout(Some(t0 + 5 * MS), true, t0), Some(5 * MS));
    assert_eq!(t.poll_timeout(Some(t0 - 5 * MS), true, t0), Some(0));
    assert!(t.request_motion_redraw(t0));
    assert!(!t.request_motion_redraw(t0 + MS));
    assert_eq!(
        t.poll_timeout(None, false, t0 + MS),
        Some(MOTION_REDRAW_INTERVAL - MS)
    );
    assert!(!t.draw_if_motion_pending(t0 + 2 * MS));
    assert!(t.draw_if_motion_pending(t0 + MOTION_REDRAW_INTERVAL));
    assert!(!t.draw_if_motion_pending(t0 + 2 * MOTION_REDRAW_INTERVAL));
    t.settle_pending = true;
    t.last_motion_at = Some(t0);
    assert_eq!(t.poll_timeout(None, false, t0), Some(CURSOR_SETTLE_DELAY));
    assert!(!t.draw_if_settle_due(t0 + MS));
    assert!(t.draw_if_settle_due(t0 + CURSOR_SETTLE_DELAY));
    assert!(!t.draw_if_settle_due(t0 + CURSOR_SETTLE_DELAY));
}

#[test]
fn keys_have_names_levels_and_actions() {
    let keys = MagnifierConfig::default().keybindings;
    let cases = [
        ("k", BoundAction::ToggleOsd),
        ("g", BoundAction::ScreenshotManual),
        ("w", BoundAction::ScreenshotWindow),
        ("f", BoundAction::ScreenshotFullscreen),
        ("Tab", BoundAction::OpenConfig),
        ("a", BoundAction::AntiAliasing),
        ("c", BoundAction::ToggleCursor),
        ("m", BoundAction::ToggleMinimap),
        ("r", BoundAction::ResetZoom),
    ];
    for (name, action) in cases {
        assert_eq!(action_for(&keys, &name.to_string()), Some(action));
    }
    assert_eq!(action_for(&keys, &"K".to_string()), None);
    assert_eq!(zoom_level_of('0' as u32), Some(0));
    assert_eq!(zoom_level_of('9' as u32), Some(9));
    assert_eq!(zoom_level_of(9), None);
    assert_eq!(nudge_key_of('W' as u32), Some('w'));
    assert_eq!(nudge_key_of('q' as u32), None);
    assert_eq!(char_text('~' as u32), "~");
}

#[test]
fn the_state_switches_modes() {
    let mut s = MagnifierState::new(MagnifierConfig::default(), Some(num(3.0)), 0);
    assert_eq!(val(s.zoom), 3.0);
    s.switch_mode(MagnifierMode::EdgePan);
    assert_eq!(s.mode, MagnifierMode::EdgePan);
    assert!(s.osd_visible);
    s.toggle_osd();
    assert!(!s.osd_visible);
    s.toggle_osd();
    assert!(s.osd_visible);
    s.handle_zoom_key(7, num(7.0));
    assert_eq!(val(s.zoom), 7.0);
    s.reset_zoom();
    assert_eq!(val(s.zoom), 1.0);
}

#[test]
fn the_surface_covers_its_output() {
    let outputs = vec![None, Some((1280, -5)), Some((640, 480))];
    assert_eq!(output_logical_size(Some((1920, 1080)), &outputs), Some((1920, 1080)));
    assert_eq!(output_logical_size(None, &outputs), Some((1280, 0)));
    assert_eq!(output_logical_size(None, &vec![None]), None);
    assert_eq!(configured_size((9, 8), (0, 0), None), ((9, 8), false));
    assert_eq!(configured_size((9, 8), (7, 0), None), ((7, 8), false));
    assert_eq!(configured_size((9, 8), (7, 6), Some((7, 6))), ((7, 6), false));
    assert_eq!(configured_size((9, 8), (7, 6), Some((7, 5))), ((7, 5), true));
}

#[test]
fn passes_go_from_the_frame_up() {
    let area = Area {
        x: 5,
        y: 6,
        width: 7,
        height: 8,
    };
    let all = Layers {
        frame: true,
        overlay: Some(false),
        menu: Some((area, true)),
        cursor: Some((area, true)),
        legend: Some(area),
        hint: Some(area),
        minimap: Some((area, true)),
        crosshair: Some(area),
    };
    let passes = plan_passes(&all, 100, 50);
    let pictures: Vec<Picture> = passes.iter().map(|p| p.picture).collect();
    assert_eq!(
        pictures,
        vec![
            Picture::Frame,
            Picture::Overlay,
            Picture::Menu,
            Picture::MenuText,
            Picture::Cursor,
            Picture::Legend,
            Picture::Hint,
            Picture::Minimap,
            Picture::MinimapOutline,
            Picture::Crosshair,
        ]
    );
    assert_eq!(passes[0].blending, Blending::Replace);
    assert_eq!((passes[0].area.width, passes[0].area.height), (100, 50));
    assert_eq!(passes[3].blending, Blending::InvertText);
    assert_eq!(passes[9].blending, Blending::Invert);
    let uploads: Vec<bool> = passes.iter().map(|p| p.upload).collect();
    assert_eq!(
        uploads,
        vec![false, false, true, true, true, true, true, true, true, false]
    );
    for (i, p) in passes.iter().enumerate() {
        for (j, q) in passes.iter().enumerate() {
            if i != j && p.texture == q.texture {
                assert!(p.upload);
            }
        }
    }
    let few = Layers {
        frame: false,
        overlay: None,
        menu: None,
        cursor: Some((area, false)),
        legend: None,
        hint: None,
        minimap: Some((area, false)),
        crosshair: None,
    };
    let passes = plan_passes(&few, 100, 50);
    assert_eq!(passes.len(), 2);
    assert_eq!(passes[0].texture, Texture::Cursor);
    assert!(!passes[0].upload);
    assert_eq!(passes[1].picture, Picture::Minimap);
    assert_eq!(passes[1].area, area);
}

#[test]
fn waits_end_with_a_draw_once() {
    let mut s = session();
    s.minimap_visible = false;
    let t0 = 10_000 * MS;
    assert_eq!(s.poll_timeout(t0), None);
    assert!(!s.draw_due(t0));
    s.timers.request_motion_redraw(t0);
    s.timers.request_motion_redraw(t0 + MS);
    s.timers.settle_pending = true;
    s.timers.last_motion_at = Some(t0);
    let later = t0 + CURSOR_SETTLE_DELAY;
    assert!(s.draw_due(later));
    assert_eq!(s.timers.last_draw_at, Some(later));
    assert!(!s.draw_due(later));
    s.shot.nudge_hold = Some(('w', later + 5 * MS));
    assert_eq!(s.poll_timeout(later), Some(5 * MS));
    assert!(!s.draw_due(later));
    assert!(s.draw_due(later + 5 * MS));
    s.shot.nudge_hold = None;
    s.minimap_visible = true;
    assert!(s.draw_due(later));
}
