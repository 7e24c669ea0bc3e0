use maggie::blend::{blend_overlay_into, draw_cursor_at};
use maggie::capture::{region_of, upscale_nearest};
use maggie::config::{MagnifierConfig, ScreenshotScale};
use maggie::cursor::MagnifiedCursor;
use maggie::keys::keysym_to_string;
use maggie::minimap::{
    build_minimap_sprite, inpaint_cursor_region, minimap_layout, MinimapFrame, MinimapPlan,
    OutlinePaint, OutlineShape,
};
use maggie::number::Number;
use maggie::osd::Corner;
use maggie::render::RgbaBuffer;
use maggie::screenshot::{
    active_screenshot_border, fill_screenshot_overlay, normalize_screenshot_rect,
    nudge_screenshot_border, ScreenshotBorder, SUBPIXELS,
};
use maggie::screenshot_mode::toggle_screenshot_scale;
use maggie::state::MagnifierState;
use maggie::timing::{advance_repeat_deadline, motion_redraw_due, MOTION_REDRAW_INTERVAL};
use maggie::view::{clamp_to_capture_bounds, correct_toward_hand, edge_hold_axis, heal};
use maggie::zoom::{htz_floor_zoom, wheel_levels_next, zoom_readout};
use xkeysym::key;

fn num(x: f64) -> Number {
    Number { bits: x.to_bits() }
}

fn val(n: Number) -> f64 {
    f64::from_bits(n.bits)
}

fn point(p: (f64, f64)) -> (Number, Number) {
    (num(p.0), num(p.1))
}

fn plain(p: (Number, Number)) -> (f64, f64) {
    (val(p.0), val(p.1))
}

const MS: u64 = 1_000_000;

#[test]
fn motion_redraw_due_caps_the_cadence() {
    let t0: u64 = 5_000 * MS;
    assert!(motion_redraw_due(None, t0));
    assert!(!motion_redraw_due(Some(t0), t0 + MS));
    assert!(!motion_redraw_due(
        Some(t0),
        t0 + MOTION_REDRAW_INTERVAL - 1_000
    ));
    assert!(motion_redraw_due(Some(t0), t0 + MOTION_REDRAW_INTERVAL));
    assert!(motion_redraw_due(Some(t0), t0 + 50 * MS));
}

#[test]
fn keysym_to_string_maps_named_keys() {
    assert_eq!(keysym_to_string(key::Tab), "Tab");
    assert_eq!(keysym_to_string(key::space), "Space");
    assert_eq!(keysym_to_string(key::Escape), "Escape");
    assert_eq!(keysym_to_string(key::Super_L), "Super");
    assert_eq!(keysym_to_string(key::Super_R), "Super");
    assert_eq!(keysym_to_string(key::Control_L), "Control");
    assert_eq!(keysym_to_string(key::c), "c");
    assert_eq!(keysym_to_string(key::k), "k");
}

fn state(config: MagnifierConfig, zoom: Option<f64>) -> MagnifierState {
    MagnifierState::new(config, zoom.map(num), 0)
}

/// Presses a digit key.
fn zoom_key(state: &mut MagnifierState, key: u8) {
    let level = val(state.config.max_zoom) * key as f64 / 9.0;
    state.handle_zoom_key(key, num(level));
}

#[test]
fn cursor_toggle_flips_visibility() {
    let mut state = state(MagnifierConfig::default(), Some(3.0));
    assert!(state.cursor_visible);
    state.toggle_cursor();
    assert!(!state.cursor_visible);
    state.toggle_cursor();
    assert!(state.cursor_visible);
}

fn clamp(pos: (f64, f64), bounds: (f64, f64)) -> (f64, f64) {
    plain(clamp_to_capture_bounds(point(pos), point(bounds)))
}

#[test]
fn clamp_keeps_view_center_inside_capture() {
    let bounds = (3200.0, 2000.0);
    assert_eq!(clamp((-10.0, 5.0), bounds), (0.0, 5.0));
    assert_eq!(clamp((3300.0, -3.0), bounds), (3200.0, 0.0));
    assert_eq!(clamp((10.0, 20.0), bounds), (10.0, 20.0));
    assert_eq!(clamp((3200.0, 2000.0), bounds), bounds);
    assert_eq!(clamp((1e9, 1e9), bounds), bounds);
}

fn edge_hold(
    view: f64,
    pointer: f64,
    surface: f64,
    capture: f64,
    held: Option<bool>,
) -> (f64, Option<bool>) {
    let (v, h) = edge_hold_axis(
        num(view),
        num(pointer),
        num(pointer - surface),
        num(view - capture),
        num(capture),
        held,
    );
    (val(v), h)
}

#[test]
fn edge_hold_pins_the_edge_with_hysteresis_against_wobble() {
    let surf = 1829.0;
    let cap = 3200.0;
    assert_eq!(edge_hold(3190.0, 1828.9, surf, cap, None), (3190.0, None));
    let (v, held) = edge_hold(3199.0, 1828.9, surf, cap, None);
    assert_eq!((v, held), (3200.0, Some(true)));
    let (v, held) = edge_hold(3197.0, 1828.4, surf, cap, Some(true));
    assert_eq!((v, held), (3200.0, Some(true)));
    assert_eq!(
        edge_hold(3197.0, 1828.4, surf, cap, Some(true)),
        (3200.0, Some(true))
    );
    assert_eq!(
        edge_hold(3199.0, 1820.0, surf, cap, Some(true)),
        (3199.0, None)
    );
    assert_eq!(edge_hold(1.0, 0.7, surf, cap, None), (0.0, Some(false)));
    assert_eq!(
        edge_hold(2.5, 0.7, surf, cap, Some(false)),
        (0.0, Some(false))
    );
    assert_eq!(edge_hold(1.0, 6.0, surf, cap, Some(false)), (1.0, None));
}

fn correct(view: (f64, f64), target: (f64, f64), bounds: (f64, f64)) -> (f64, f64) {
    plain(correct_toward_hand(point(view), point(target), point(bounds)))
}

#[test]
fn correct_toward_hand_moves_free_view_toward_target() {
    let bounds = (3200.0, 2000.0);
    assert_eq!(
        correct((1000.0, 500.0), (980.0, 520.0), bounds),
        (980.0, 520.0)
    );
    assert_eq!(
        correct((1000.0, 500.0), (-5.0, 2100.0), bounds),
        (0.0, 2000.0)
    );
}

#[test]
fn correct_toward_hand_never_pulls_a_view_off_a_wall() {
    let bounds = (3200.0, 2000.0);
    let pinned = (3200.0, 1000.0);
    let target = (3100.0, 1100.0);
    assert_eq!(correct(pinned, target, bounds), (3200.0, 1100.0));
    let pinned = (0.0, 1000.0);
    assert_eq!(correct(pinned, (100.0, 900.0), bounds), (0.0, 900.0));
    let corner = (0.0, 2000.0);
    assert_eq!(correct(corner, (500.0, 1500.0), bounds), corner);
}

#[test]
fn correct_toward_hand_glides_along_pinned_edge() {
    let bounds = (3200.0, 2000.0);
    let view = (3200.0, 1000.0);
    let target = (3190.0, 1010.0);
    assert_eq!(correct(view, target, bounds), (3200.0, 1010.0));
    let view = (1600.0, 2000.0);
    let target = (1620.0, 1980.0);
    assert_eq!(correct(view, target, bounds), (1620.0, 2000.0));
}

fn hold_step(zoom: f64, min: f64, max: f64, dy: f64, speed: f64, dead: f64) -> (f64, f64) {
    plain(htz_floor_zoom(
        num(zoom),
        num(min),
        num(max),
        num(dy),
        num((zoom - min).abs()),
        num(dead + (-dy)),
        num(zoom - dy * speed),
    ))
}

#[test]
fn htz_floor_zoom_holds_the_floor_against_jitter() {
    let min = 0.5715;
    let max = 12.0;
    let speed = 0.02;
    let mut zoom = min;
    let mut dead = 0.0;
    for i in 0..200 {
        let dy = if i % 2 == 0 { 1.0 } else { -1.0 };
        (zoom, dead) = hold_step(zoom, min, max, dy, speed, dead);
        assert_eq!(zoom, min, "jitter step {i} must hold the floor");
    }
    let (z, dead) = hold_step(min, min, max, -1.0, speed, 0.0);
    assert_eq!(z, min);
    assert!(dead > 0.0, "dead zone accumulates");
    let (z, dead) = hold_step(min, min, max, -1.0, speed, dead);
    assert!(z > min, "crossing the dead zone zooms in");
    assert_eq!(dead, 0.0);
    let (z, _) = hold_step(z, min, max, -1.0, speed, 0.0);
    assert!(z > min + 0.01, "off the floor, zoom-in is normal");
    let (z, dead) = hold_step(min, min, max, 1.0, speed, 1.5);
    assert_eq!(z, min);
    assert_eq!(dead, 0.0);
}

#[test]
fn htz_floor_zoom_below_floor_keeps_existing_behavior() {
    let (z, _) = hold_step(0.5715, 1.0, 12.0, 2.0, 0.02, 0.0);
    assert_eq!(z, 0.5715);
    let (z, _) = hold_step(0.5715, 1.0, 12.0, -2.0, 0.02, 0.0);
    assert_eq!(z, 1.0);
    let (z, _) = hold_step(5.0, 1.0, 12.0, -2.0, 0.02, 0.0);
    assert_eq!(z, 5.04);
    let (z, _) = hold_step(5.0, 1.0, 12.0, 2.0, 0.02, 0.0);
    assert_eq!(z, 4.96);
}

fn correction_factor(dt: f64) -> f64 {
    (1.0 - (-dt.min(0.1) / 0.8).exp()).min(1.0)
}

/// What is left of an offset after one motion.
fn correction_step(
    offset: (f64, f64),
    dt: f64,
    travel: (f64, f64),
    scale: (f64, f64),
) -> (f64, f64) {
    let f = correction_factor(dt);
    let axis = |o: f64, t: f64, s: f64| {
        let toward = o * t < 0.0;
        o - val(heal(
            num(o),
            toward,
            num(o * f),
            num(t.abs() * s * 2.0),
            num(t.abs() * s),
        ))
    };
    (
        axis(offset.0, travel.0, scale.0),
        axis(offset.1, travel.1, scale.1),
    )
}

#[test]
fn away_motion_never_reverses_the_pan_direction() {
    let o = 1050.0;
    let scale = (1.75, 1.75);
    let after = correction_step((o, 0.0), 0.016, (10.0, 0.0), scale);
    let corrected = o - after.0;
    assert!(
        corrected <= 10.0 * scale.0 + 1e-9,
        "away correction {corrected} exceeds the hand's travel"
    );
    let after = correction_step((-o, 0.0), 0.016, (-10.0, 0.0), scale);
    let corrected = (-o) - after.0;
    assert!(
        corrected >= -10.0 * scale.0 - 1e-9,
        "away correction {corrected} exceeds the hand's travel"
    );
    let mut o2 = (o, 0.0);
    for _ in 0..200_000 {
        o2 = correction_step(o2, 0.016, (-10.0, 0.0), scale);
        if o2.0.hypot(o2.1) < 0.5 {
            break;
        }
    }
    assert!(o2.0.hypot(o2.1) < 0.5, "offset {o2:?}");
}

#[test]
fn offset_correction_step_after_pause_does_not_lurch() {
    let o: (f64, f64) = (930.0, -240.0);
    let travel = (2.0, -1.0);
    let scale = (1.5, 1.5);
    let after = correction_step(o, 10.0, travel, scale);
    assert!(o.0 - after.0 <= travel.0.abs() * scale.0 * 2.0 + 1e-9);
    assert!(o.1 - after.1 <= travel.1.abs() * scale.1 * 2.0 + 1e-9);
    assert!(after.0 >= 0.0 && after.1 <= 0.0);
    let mut o2 = o;
    for _ in 0..100_000 {
        o2 = correction_step(o2, 0.016, (-20.0, 20.0), scale);
        if o2.0.hypot(o2.1) < 0.5 {
            break;
        }
    }
    assert!(o2.0.hypot(o2.1) < 0.5, "offset {o2:?}");
}

#[test]
fn offset_correction_boost_heals_fast_toward_hand_but_never_overshoots() {
    let after = correction_step((5.0, 0.0), 0.016, (-100.0, 0.0), (1.5, 1.5));
    assert_eq!(after, (0.0, 0.0), "fully healed in one push, no overshoot");
    let away = correction_step((300.0, 0.0), 0.016, (100.0, 0.0), (1.5, 1.5));
    assert_eq!(away.0, 300.0, "away-motion must not heal");
    let big = correction_step((5000.0, 0.0), 0.016, (10.0, 0.0), (1.5, 1.5));
    assert!(
        5000.0 - big.0 <= 10.0 * 1.5 * 2.0 + 1e-9,
        "bounded by 2x travel"
    );
}

#[test]
fn boost_restores_far_wall_reach_after_hold_to_zoom() {
    let scale = 1.5;
    let capture = 3000.0;
    let surface = capture / scale;
    let mut view: f64 = 1200.0;
    let mut hand: f64 = 1000.0;
    let mut reached_wall = false;
    while hand < surface {
        let step = 16.0;
        hand += step;
        let nx = (view + step * scale).clamp(0.0, capture);
        let hand_content = hand * scale;
        let offset = nx - hand_content;
        let corrected = if offset.abs() > 0.5 {
            let (rox, _) = correction_step((offset, 0.0), 0.016, (step, 0.0), (scale, scale));
            correct(
                (nx, 1.0),
                (hand_content + rox, 1.0),
                (capture, capture),
            )
            .0
        } else {
            nx
        };
        view = corrected;
        if view == capture {
            reached_wall = true;
            break;
        }
    }
    assert!(
        reached_wall,
        "view must reach the exact bottom wall, got {view}"
    );
    let mut old_view: f64 = 1200.0;
    let mut hand2: f64 = 1000.0;
    let mut old_reached = false;
    while hand2 < 2000.0 {
        let step = 16.0;
        hand2 += step;
        let nx = (old_view + step * scale).clamp(0.0, capture);
        let offset = nx - hand2 * scale;
        let corrected = if offset.abs() > 0.5 {
            let f = correction_factor(0.016);
            let lim = step * scale * 2.0;
            let corr = (offset * f).clamp(-lim, lim);
            (hand2 * scale + (offset - corr)).clamp(0.0, capture)
        } else {
            nx
        };
        old_view = corrected;
        if old_view == capture {
            old_reached = true;
            break;
        }
    }
    assert!(
        !old_reached && old_view < capture,
        "old behavior stopped short (view was {old_view})"
    );
}

#[test]
fn zoom_keys_are_percentages_of_max_zoom() {
    let config = MagnifierConfig {
        max_zoom: num(18.0),
        ..MagnifierConfig::default()
    };
    let mut state = state(config, Some(3.0));
    zoom_key(&mut state, 9);
    assert!((val(state.zoom) - 18.0).abs() < 1e-9);
    zoom_key(&mut state, 1);
    assert!((val(state.zoom) - 2.0).abs() < 1e-9);
    zoom_key(&mut state, 5);
    assert!((val(state.zoom) - 10.0).abs() < 1e-9);
}

#[test]
fn zoom_keys_never_go_below_1x() {
    let config = MagnifierConfig {
        max_zoom: num(4.0),
        ..MagnifierConfig::default()
    };
    let mut state = state(config, Some(3.0));
    zoom_key(&mut state, 1);
    assert_eq!(val(state.zoom), 1.0, "key 1 must clamp to 1x");
    zoom_key(&mut state, 9);
    assert_eq!(val(state.zoom), 4.0, "key 9 is the max");
}

#[test]
fn default_max_zoom_keeps_historical_levels() {
    let mut state = state(MagnifierConfig::default(), Some(3.0));
    for key in 1..=9u8 {
        zoom_key(&mut state, key);
        assert!(
            (val(state.zoom) - key as f64).abs() < 1e-9,
            "key {key} should be {key}x, got {}",
            val(state.zoom)
        );
    }
}

#[test]
fn reset_zoom_returns_to_configured_default() {
    let config = MagnifierConfig {
        default_zoom: Some(num(4.0)),
        ..MagnifierConfig::default()
    };
    let mut state = state(config, Some(7.0));
    zoom_key(&mut state, 9);
    state.reset_zoom();
    assert!((val(state.zoom) - 4.0).abs() < 1e-9);
}

/// The zoom after one notch of the wheel.
fn wheel(zoom: f64, min: f64, max: f64, steps: f64) -> f64 {
    let level = |n: usize| max * n as f64 / 9.0;
    let levels: Vec<Number> = (1..9).map(|n| num(level(n))).collect();
    let near: Vec<bool> = (1..9)
        .map(|n| (zoom / max * 9.0 - n as f64).abs() < 1e-6 || (level(n) - zoom).abs() < 1e-9)
        .collect();
    let (zoom, min, max) = (num(zoom), num(min), num(max));
    val(wheel_levels_next(zoom, min, max, &levels, &near, steps > 0.0))
}

#[test]
fn wheel_levels_reach_the_configured_minimum() {
    let mut z = 12.0;
    for _ in 0..20 {
        let next = wheel(z, 1.0, 12.0, -1.0);
        if next >= z {
            break;
        }
        z = next;
    }
    assert_eq!(z, 1.0, "wheel must reach the 1x minimum, got {z}");
    assert_eq!(wheel(z, 1.0, 12.0, -1.0), 1.0);
    assert_eq!(wheel(1.0, 1.0, 12.0, 1.0), 12.0 / 9.0);
    assert_eq!(wheel(12.0, 1.0, 12.0, -1.0), 12.0 * 8.0 / 9.0);
}

#[test]
fn wheel_levels_reach_zero_when_allowed() {
    let mut z = 12.0;
    for _ in 0..20 {
        let next = wheel(z, 0.0, 12.0, -1.0);
        if next >= z {
            break;
        }
        z = next;
    }
    assert_eq!(z, 0.0, "wheel must reach 0% when allowed, got {z}");
    assert_eq!(wheel(0.0, 0.0, 12.0, 1.0), 12.0 / 9.0);
}

#[test]
fn wheel_levels_below_min_zoom_out_stays_put() {
    let below = 0.667;
    assert_eq!(wheel(below, 1.0, 12.0, -1.0), below);
    assert_eq!(wheel(below, 1.0, 12.0, 1.0), 1.0);
}

#[test]
fn wheel_levels_never_below_min_and_never_above_max() {
    assert_eq!(wheel(11.0, 1.0, 12.0, 1.0), 12.0);
    assert_eq!(wheel(1.2, 1.0, 12.0, -1.0), 1.0);
    assert_eq!(wheel(13.0, 1.0, 12.0, -1.0), 12.0 * 8.0 / 9.0);
}

#[test]
fn wheel_levels_scroll_up_from_floor_when_max_equals_nine_times_min() {
    assert_eq!(wheel(1.0, 1.0, 9.0, 1.0), 9.0 * 2.0 / 9.0);
    assert_eq!(wheel(1.0, 1.0, 9.0, -1.0), 1.0);
}

#[test]
fn every_notch_moves_the_zoom_until_the_limit() {
    for (min, max) in [(1.0, 12.0), (0.4, 9.0), (1.0, 9.0), (1.0, 1.5), (0.0, 32.0)] {
        for i in 0..=200 {
            let zoom = min + (max - min) * i as f64 / 200.0;
            let (up, down) = (wheel(zoom, min, max, 1.0), wheel(zoom, min, max, -1.0));
            assert!(up > zoom || (zoom == max && up == max), "{zoom} to {up}");
            assert!(down < zoom || (zoom == min && down == min), "{zoom} to {down}");
            assert!((min..=max).contains(&up) && (min..=max).contains(&down));
            let mut out = zoom;
            for _ in 0..9 {
                out = wheel(out, min, max, -1.0);
            }
            assert_eq!(out, min);
        }
    }
}

#[test]
fn a_notch_moves_whatever_the_levels_are() {
    let levels: Vec<Number> = [7.0, f64::NAN, 2.0, 90.0, -3.0, 2.5, 7.0, 1.0].map(num).to_vec();
    let step = |zoom: f64, near: bool, zoom_in: bool| {
        let near = vec![near; 8];
        val(wheel_levels_next(num(zoom), num(1.0), num(9.0), &levels, &near, zoom_in))
    };
    assert_eq!(step(1.0, false, true), 2.0);
    assert_eq!(step(2.0, false, true), 2.5);
    assert_eq!(step(2.5, false, true), 7.0);
    assert_eq!(step(7.0, false, true), 9.0);
    assert_eq!(step(9.0, false, true), 9.0);
    assert_eq!(step(9.0, false, false), 7.0);
    assert_eq!(step(2.0, false, false), 1.0);
    assert_eq!(step(1.0, false, false), 1.0);
    assert_eq!(step(5.0, true, true), 9.0);
    assert_eq!(step(5.0, true, false), 1.0);
}

#[test]
fn a_notch_snaps_to_the_next_level_in_its_direction() {
    assert_eq!(wheel(1.2, 1.0, 12.0, 1.0), 12.0 / 9.0);
    assert_eq!(wheel(5.0, 1.0, 9.0, 1.0), 6.0);
    assert_eq!(wheel(5.5, 1.0, 9.0, 1.0), 6.0);
    assert_eq!(wheel(5.5, 1.0, 9.0, -1.0), 5.0);
    // Up to rounding the zoom is on the level.
    assert_eq!(wheel(5.0 + 1e-8, 1.0, 9.0, -1.0), 4.0);
    assert_eq!(wheel(5.0 - 1e-8, 1.0, 9.0, 1.0), 6.0);
    assert_eq!(wheel(40.0, 1.0, 9.0, 1.0), 9.0);
}

fn readout(zoom: f64, fit: f64) -> String {
    zoom_readout(num(fit), num((zoom - fit).abs()), format!("{zoom:.2}x"))
}

#[test]
fn zoom_readout_shows_0x_at_fit_and_factor_otherwise() {
    let fit = 2.0 / 3.0;
    assert_eq!(readout(fit, fit), "0x");
    assert_eq!(readout(fit + 0.01, fit), "0.68x");
    assert_eq!(readout(3.0, fit), "3.00x");
    assert_eq!(readout(1.0, fit), "1.00x");
    assert_eq!(readout(1.0, 1.0), "1.00x");
}

fn quantize(center: (f64, f64), capture: (f64, f64)) -> (f64, f64) {
    clamp((center.0.round(), center.1.round()), capture)
}

#[test]
fn quantize_center_rounds_to_integer_capture_pixels_and_clamps() {
    assert_eq!(quantize((123.4, 55.6), (3200.0, 2000.0)), (123.0, 56.0));
    assert_eq!(quantize((123.5, 55.5), (3200.0, 2000.0)), (124.0, 56.0));
    assert_eq!(quantize((-0.4, -0.6), (3200.0, 2000.0)), (0.0, 0.0));
    assert_eq!(
        quantize((3199.6, 1999.6), (3200.0, 2000.0)),
        (3200.0, 2000.0)
    );
    assert_eq!(quantize((6400.0, 3.0), (3200.0, 2000.0)), (3200.0, 3.0));
}

#[test]
fn quantized_center_locks_cursor_texels_to_screen_texels() {
    let w: f64 = 1829.0;
    let rs: f64 = 2.0;
    let zoom: f64 = 3.0;
    let view_w = w / zoom;
    let px_per_texel = zoom * rs;
    let center: f64 = 1234.0;
    let src = center - view_w / 2.0;
    let texel_start = (center - src) * px_per_texel;
    assert!(
        (texel_start - w * rs / 2.0).abs() < 1e-9,
        "texel start {texel_start}"
    );
    let center_f: f64 = 1234.4;
    let src_f = center_f - view_w / 2.0;
    let texel_start_f = (center_f.floor() - src_f) * px_per_texel;
    assert!(texel_start_f < w * rs / 2.0 - 1e-9);
    let quantized = quantize((center_f, 0.0), (3200.0, 2000.0)).0;
    let src_q = quantized - view_w / 2.0;
    assert!(((quantized - src_q) * px_per_texel - w * rs / 2.0).abs() < 1e-9);
    for zoom in [1.0_f64, 1.33, 2.0, 3.5, 8.0] {
        let view_w = w / zoom;
        for center in [0.0_f64, 1.0, 640.0, 1599.0] {
            let src = center - view_w / 2.0;
            let texel_start = (center - src) * (zoom * rs);
            assert!(
                (texel_start - w * rs / 2.0).abs() < 1e-9,
                "zoom {zoom} center {center}: texel start {texel_start}"
            );
        }
    }
}

#[test]
fn minimap_layout_pins_configured_corner_with_capture_aspect() {
    let (x, y, w, h) = minimap_layout((1400, 900), (3200, 2000), 14, Corner::BottomRight);
    let (x, y, w, h) = (x as f64, y as f64, w as f64, h as f64);
    assert!((w - 1400.0 * 0.22).abs() < 1.0, "w = {w}");
    assert!((h - w * 2000.0 / 3200.0).abs() < 1.0, "h = {h}");
    assert!((x + w + 14.0 - 1400.0).abs() < 1.0, "x = {x}");
    assert!((y + h + 14.0 - 900.0).abs() < 1.0, "y = {y}");
    let (x, y, w, _h) = minimap_layout((4000, 2000), (3200, 2000), 14, Corner::BottomRight);
    assert_eq!(w, 360);
    assert!(x > 0 && y > 0);
    let (x, y, _w, _h) = minimap_layout((1400, 900), (3200, 2000), 14, Corner::TopLeft);
    assert!((x as f64 - 14.0).abs() < 1.0, "x = {x}");
    assert!((y as f64 - 14.0).abs() < 1.0, "y = {y}");
}

fn rounded_rect_sdf(x: f64, y: f64, w: f64, h: f64, r: f64) -> f64 {
    let qx = (x - w / 2.0).abs() - (w / 2.0 - r);
    let qy = (y - h / 2.0).abs() - (h / 2.0 - r);
    let ox = qx.max(0.0);
    let oy = qy.max(0.0);
    (ox * ox + oy * oy).sqrt() + qx.max(qy).min(0.0) - r
}

fn outline_shape(w: i32, h: i32, outline_width: f64) -> OutlineShape {
    let mut inside = Vec::new();
    let mut stroke = Vec::new();
    for y in 0..h {
        for x in 0..w {
            let (mut i, mut s) = (0, 0);
            for sy in 0..8 {
                for sx in 0..8 {
                    let px = x as f64 + (sx as f64 + 0.5) / 8.0;
                    let py = y as f64 + (sy as f64 + 0.5) / 8.0;
                    let d = rounded_rect_sdf(px, py, w as f64, h as f64, 8.0);
                    if d <= 0.0 {
                        i += 1;
                        if d >= -outline_width {
                            s += 1;
                        }
                    }
                }
            }
            inside.push((i * 255 / 64) as u8);
            stroke.push((s * 255 / 64) as u8);
        }
    }
    OutlineShape { inside, stroke }
}

/// The minimap of a frame, centred on its middle.
fn minimap(cap: &RgbaBuffer, zoom: f64) -> MinimapFrame {
    let viewport = (1829.0, 1143.0);
    let center = (1600.0, 1000.0);
    let zoom_t: f64 = ((zoom - 1.0f64).max(0.0) / (9.0 - 1.0)).min(1.0);
    let outline_width = 2.0 * (1.0 + 0.25 * zoom_t);
    let (x, y, buf_w, buf_h) =
        minimap_layout((1829, 1143), (cap.width, cap.height), 14, Corner::BottomRight);
    let inset = outline_width.ceil() as i32;
    let content_w = (buf_w - inset * 2).max(1);
    let content_h = (buf_h - inset * 2).max(1);
    let (cw, ch) = (cap.width as f64, cap.height as f64);
    let scale = (content_w as f64 / cw).min(content_h as f64 / ch).min(1.0);
    let thumb_w = (cw * scale).max(1.0).round().clamp(1.0, content_w as f64) as i32;
    let thumb_h = (ch * scale).max(1.0).round().clamp(1.0, content_h as f64) as i32;
    let ox = inset + (content_w - thumb_w) / 2;
    let oy = inset + (content_h - thumb_h) / 2;
    let to_x = |px: f64| (ox as f64 + (px.clamp(0.0, cw) / cw) * thumb_w as f64).round() as i32;
    let to_y = |py: f64| (oy as f64 + (py.clamp(0.0, ch) / ch) * thumb_h as f64).round() as i32;
    let (vw, vh) = (viewport.0 / zoom, viewport.1 / zoom);
    let x0 = to_x(center.0 - vw / 2.0);
    let x1 = to_x(center.0 + vw / 2.0);
    let y0 = to_y(center.1 - vh / 2.0);
    let y1 = to_y(center.1 + vh / 2.0);
    let plan = MinimapPlan {
        buf_w,
        buf_h,
        inset,
        thumb_w,
        thumb_h,
        region: Some((x0.min(x1 - 1), y0.min(y1 - 1), x1.max(x0 + 1), y1.max(y0 + 1))),
        pointer: (to_x(center.0), to_y(center.1)),
        x,
        y,
        width: buf_w,
        height: buf_h,
    };
    let shape = outline_shape(buf_w, buf_h, outline_width);
    let mut cache = None;
    build_minimap_sprite(
        cap,
        &plan,
        None,
        None,
        &shape,
        false,
        &mut cache,
        &OutlinePaint::Gradient([1, 2, 3]),
    )
}

#[test]
fn minimap_marker_has_no_stray_pixels_at_deep_zoom() {
    let mut cap = RgbaBuffer::new(3200, 2000);
    for px in cap.data.chunks_exact_mut(4) {
        px.copy_from_slice(&[100, 100, 100, 255]);
    }
    let buf = minimap(&cap, 20.0).sprite.buffer;
    let mut amber = 0;
    let mut black_rows = std::collections::BTreeMap::<i32, i32>::new();
    for y in 0..buf.height {
        for x in 0..buf.width {
            let i = (y as usize * buf.width as usize + x as usize) * 4;
            let c = [buf.data[i], buf.data[i + 1], buf.data[i + 2]];
            if c == [255, 200, 70] {
                amber += 1;
            } else if c == [0, 0, 0] {
                *black_rows.entry(y).or_insert(0) += 1;
            }
        }
    }
    assert_eq!(
        amber, 0,
        "no visible-region outline may survive at deep zoom"
    );
    for (y, n) in &black_rows {
        assert!(
            *n >= 3,
            "black outline row {y} has only {n} px (degenerate spike)"
        );
    }
    let buf = minimap(&cap, 3.0).sprite.buffer;
    let amber = buf
        .data
        .chunks_exact(4)
        .filter(|px| px[0] == 255 && px[1] == 200 && px[2] == 70)
        .count();
    assert!(
        (40..=80).contains(&amber),
        "expected corner brackets at moderate zoom, got {amber} px"
    );
}

#[test]
fn inpaint_cursor_region_scrubs_the_baked_cursor() {
    let mut buf = RgbaBuffer::new(100, 100);
    for px in buf.data.chunks_exact_mut(4) {
        px.copy_from_slice(&[128, 128, 128, 255]);
    }
    let (cx, cy) = (50, 50);
    for y in (cy - 8)..(cy + 8) {
        for x in (cx - 8)..(cx + 8) {
            let i = (y as usize * 100 + x as usize) * 4;
            buf.data[i..i + 3].copy_from_slice(&[255, 0, 0]);
        }
    }
    buf.data[4..7].copy_from_slice(&[0, 0, 255]);
    let scrubbed = inpaint_cursor_region(&buf, cx, cy, 10);
    let mid = (50usize * 100 + 50) * 4;
    assert_eq!(&scrubbed.data[mid..mid + 3], &[128, 128, 128]);
    assert_eq!(&buf.data[mid..mid + 3], &[255, 0, 0]);
    assert_eq!(&scrubbed.data[4..7], &[0, 0, 255]);
}

/// The nearest whole capture pixel.
fn snap(p: (f64, f64)) -> (i32, i32) {
    (p.0.round() as i32, p.1.round() as i32)
}

#[test]
fn screenshot_rect_normalization_flips_and_clamps() {
    let rect = normalize_screenshot_rect((10, 20), (4, 6), (320, 200));
    assert_eq!(rect, (4, 6, 10, 20));
    let rect = normalize_screenshot_rect((-5, 0), (500, 300), (320, 200));
    assert_eq!(rect, (0, 0, 320, 200));
    let rect = normalize_screenshot_rect((100, 100), (100, 100), (320, 200));
    assert_eq!(rect, (100, 100, 101, 101));
    let edge = snap((319.5, 199.5));
    let rect = normalize_screenshot_rect(edge, edge, (320, 200));
    assert_eq!(rect, (319, 199, 320, 200));
}

#[test]
fn snapped_drag_yields_an_integer_rect() {
    let start = snap((101.3, 41.7));
    let cur = snap((267.9, 168.2));
    let rect = normalize_screenshot_rect(start, cur, (320, 200));
    assert_eq!(rect, (101, 42, 268, 168));
    let region = region_of(rect);
    assert_eq!(
        (region.x, region.y, region.width, region.height),
        (101, 42, 167, 126)
    );
}

fn border_at(rect: (i32, i32, i32, i32), point: (f64, f64)) -> ScreenshotBorder {
    let scale = SUBPIXELS as f64;
    active_screenshot_border(rect, ((point.0 * scale) as i64, (point.1 * scale) as i64))
}

#[test]
fn active_screenshot_border_picks_closest_edge() {
    let rect = (0, 0, 100, 100);
    assert_eq!(border_at(rect, (50.0, 50.0)), ScreenshotBorder::Left);
    assert_eq!(border_at(rect, (99.0, 50.0)), ScreenshotBorder::Right);
    assert_eq!(border_at(rect, (50.0, 1.0)), ScreenshotBorder::Top);
    assert_eq!(border_at(rect, (50.0, 98.0)), ScreenshotBorder::Bottom);
    assert_eq!(border_at(rect, (2.0, 20.0)), ScreenshotBorder::Left);
    let wide = (0, 0, 2000, 100);
    assert_eq!(border_at(wide, (2500.0, 50.0)), ScreenshotBorder::Right);
    assert_eq!(border_at(wide, (-500.0, 50.0)), ScreenshotBorder::Left);
    assert_eq!(border_at(wide, (1000.0, -500.0)), ScreenshotBorder::Top);
    assert_eq!(border_at(wide, (10.0, 50.0)), ScreenshotBorder::Left);
}

#[test]
fn nudge_screenshot_border_moves_active_edge_1px_and_clamps() {
    let bounds = (100, 100);
    let r = (10, 20, 90, 80);
    assert_eq!(
        nudge_screenshot_border(r, ScreenshotBorder::Top, 'w', bounds),
        (10, 19, 90, 80)
    );
    assert_eq!(
        nudge_screenshot_border(r, ScreenshotBorder::Top, 's', bounds),
        (10, 21, 90, 80)
    );
    assert_eq!(
        nudge_screenshot_border(r, ScreenshotBorder::Bottom, 'w', bounds),
        (10, 20, 90, 79)
    );
    assert_eq!(
        nudge_screenshot_border(r, ScreenshotBorder::Bottom, 's', bounds),
        (10, 20, 90, 81)
    );
    assert_eq!(
        nudge_screenshot_border(r, ScreenshotBorder::Left, 'a', bounds),
        (9, 20, 90, 80)
    );
    assert_eq!(
        nudge_screenshot_border(r, ScreenshotBorder::Left, 'd', bounds),
        (11, 20, 90, 80)
    );
    assert_eq!(
        nudge_screenshot_border(r, ScreenshotBorder::Right, 'a', bounds),
        (10, 20, 89, 80)
    );
    assert_eq!(
        nudge_screenshot_border(r, ScreenshotBorder::Right, 'd', bounds),
        (10, 20, 91, 80)
    );
    assert_eq!(
        nudge_screenshot_border((0, 0, 1, 1), ScreenshotBorder::Left, 'a', bounds),
        (0, 0, 1, 1)
    );
    assert_eq!(
        nudge_screenshot_border((0, 0, 1, 1), ScreenshotBorder::Left, 'd', bounds),
        (0, 0, 1, 1)
    );
    assert_eq!(
        nudge_screenshot_border((99, 99, 100, 100), ScreenshotBorder::Bottom, 's', bounds),
        (99, 99, 100, 100)
    );
}

#[test]
fn nudge_off_axis_translates_whole_rectangle() {
    let bounds = (100, 100);
    let r = (10, 20, 90, 80);
    assert_eq!(
        nudge_screenshot_border(r, ScreenshotBorder::Top, 'a', bounds),
        (9, 20, 89, 80)
    );
    assert_eq!(
        nudge_screenshot_border(r, ScreenshotBorder::Top, 'd', bounds),
        (11, 20, 91, 80)
    );
    assert_eq!(
        nudge_screenshot_border(r, ScreenshotBorder::Left, 'w', bounds),
        (10, 19, 90, 79)
    );
    assert_eq!(
        nudge_screenshot_border(r, ScreenshotBorder::Left, 's', bounds),
        (10, 21, 90, 81)
    );
    assert_eq!(
        nudge_screenshot_border((0, 20, 80, 80), ScreenshotBorder::Top, 'a', bounds),
        (0, 20, 80, 80)
    );
    assert_eq!(
        nudge_screenshot_border((20, 20, 100, 80), ScreenshotBorder::Bottom, 'd', bounds),
        (20, 20, 100, 80)
    );
}

#[test]
fn screenshot_overlay_dims_outside_and_draws_border() {
    let color = [255, 153, 0];
    let mut ov = vec![0u8; 8 * 8 * 4];
    fill_screenshot_overlay(&mut ov, 8, 8, Some((2, 2, 8, 8)), color, 2, None);
    let px = |x: usize, y: usize| {
        let i = (y * 8 + x) * 4;
        [ov[i], ov[i + 1], ov[i + 2], ov[i + 3]]
    };
    assert_eq!(px(4, 4), [0, 0, 0, 0]);
    assert_eq!(px(2, 4), [color[0], color[1], color[2], 255]);
    assert_eq!(px(7, 3), [color[0], color[1], color[2], 255]);
    assert_eq!(px(0, 0), [0, 0, 0, 0]);
    let mut ov2 = vec![0u8; 8 * 8 * 4];
    fill_screenshot_overlay(&mut ov2, 8, 8, None, color, 2, None);
    assert!(ov2.iter().all(|&b| b == 0));
}

#[test]
fn screenshot_overlay_highlights_active_border() {
    let color = [255, 153, 0];
    let mut ov = vec![0u8; 12 * 12 * 4];
    fill_screenshot_overlay(
        &mut ov,
        12,
        12,
        Some((2, 2, 10, 10)),
        color,
        2,
        Some(ScreenshotBorder::Top),
    );
    let px = |x: usize, y: usize| {
        let i = (y * 12 + x) * 4;
        [ov[i], ov[i + 1], ov[i + 2], ov[i + 3]]
    };
    let active = [
        255u8,
        (153u16 + (255 - 153) * 3 / 5) as u8,
        (255 * 3 / 5) as u8,
        255,
    ];
    assert_eq!(px(3, 2), active);
    assert_eq!(px(3, 5), active);
    assert_eq!(px(3, 6), [color[0], color[1], color[2], 255]);
    assert_eq!(px(9, 7), [color[0], color[1], color[2], 255]);
    assert_eq!(px(7, 7), [0, 0, 0, 0]);
}

#[test]
fn screenshot_overlay_narrow_rect_does_not_panic() {
    let color = [255, 153, 0];
    let mut ov = vec![0u8; 8 * 8 * 4];
    fill_screenshot_overlay(&mut ov, 8, 8, Some((3, 1, 4, 7)), color, 2, None);
    let px = |x: usize, y: usize| {
        let i = (y * 8 + x) * 4;
        [ov[i], ov[i + 1], ov[i + 2], ov[i + 3]]
    };
    assert_eq!(px(3, 1), [color[0], color[1], color[2], 255]);
    assert_eq!(px(3, 6), [color[0], color[1], color[2], 255]);
    assert_eq!(px(7, 1), [0, 0, 0, 0]);
    assert_eq!(px(7, 6), [0, 0, 0, 0]);
    assert_eq!(px(3, 0), [0, 0, 0, 0]);
    assert_eq!(px(3, 7), [0, 0, 0, 0]);
}

#[test]
fn a_narrow_selection_has_its_border_inside() {
    let color = [255, 153, 0];
    let mut ov = vec![9u8; 8 * 8 * 4];
    fill_screenshot_overlay(&mut ov, 8, 8, Some((3, 1, 4, 7)), color, 2, None);
    for (i, p) in ov.chunks_exact(4).enumerate() {
        let inside = i % 8 == 3 && (1..7).contains(&(i / 8));
        assert_eq!(p, if inside { [255, 153, 0, 255] } else { [0; 4] });
    }
    let edge = Some(ScreenshotBorder::Top);
    fill_screenshot_overlay(&mut ov, 8, 8, Some((1, 2, 7, 3)), color, 3, edge);
    for (i, p) in ov.chunks_exact(4).enumerate() {
        let inside = i / 8 == 2 && (1..7).contains(&(i % 8));
        assert_eq!(p[3] == 255, inside);
    }
}

#[test]
fn toggle_screenshot_scale_flips_between_real_and_magnified() {
    assert_eq!(
        toggle_screenshot_scale(ScreenshotScale::Real),
        ScreenshotScale::Magnified
    );
    assert_eq!(
        toggle_screenshot_scale(ScreenshotScale::Magnified),
        ScreenshotScale::Real
    );
}

#[test]
fn advance_repeat_deadline_steps_whole_intervals() {
    let t0: u64 = 5_000 * MS;
    let d1 = advance_repeat_deadline(t0 + 10 * MS, t0, 33 * MS);
    assert_eq!(d1 - t0, 33 * MS);
    let late = t0 + 100 * MS;
    let d2 = advance_repeat_deadline(late, t0, 33 * MS);
    assert!(d2 > late);
    assert!(d2 - late <= 33 * MS);
    assert_eq!(
        advance_repeat_deadline(t0, t0 + 50 * MS, 33 * MS),
        t0 + 50 * MS
    );
}

/// Magnifies an image by a factor.
fn upscale(src: &[u8], w: i32, h: i32, scale: f64) -> (Vec<u8>, i32, i32) {
    let image = RgbaBuffer {
        width: w,
        height: h,
        data: src.to_vec(),
    };
    let grid = |len: i32| -> Vec<i32> {
        let n = ((len as f64 * scale).round() as i32).max(1);
        (0..n)
            .map(|i| ((i as f64 / scale) as i32).min(len - 1))
            .collect()
    };
    let out = upscale_nearest(&image, &grid(w), &grid(h));
    (out.data, out.width, out.height)
}

#[test]
fn upscale_nearest_scales_rgba_correctly() {
    let src: Vec<u8> = vec![255, 0, 0, 255, 0, 0, 255, 255];
    let (out, w, h) = upscale(&src, 2, 1, 3.0);
    assert_eq!((w, h), (6, 3));
    let px = |x: usize, y: usize| {
        let i = (y * 6 + x) * 4;
        [out[i], out[i + 1], out[i + 2], out[i + 3]]
    };
    assert_eq!(px(0, 0), [255, 0, 0, 255]);
    assert_eq!(px(2, 0), [255, 0, 0, 255]);
    assert_eq!(px(3, 0), [0, 0, 255, 255]);
    assert_eq!(px(5, 0), [0, 0, 255, 255]);
    assert_eq!(px(1, 2), [255, 0, 0, 255]);
    assert_eq!(px(4, 2), [0, 0, 255, 255]);
    let (out2, w2, h2) = upscale(&src, 2, 1, 0.5);
    assert_eq!((w2, h2), (1, 1));
    assert_eq!(out2, vec![255, 0, 0, 255]);
    let (out3, w3, h3) = upscale(&src, 2, 1, 1.5);
    assert_eq!((w3, h3), (3, 2));
    let px3 = |x: usize, y: usize| {
        let i = (y * 3 + x) * 4;
        [out3[i], out3[i + 1], out3[i + 2], out3[i + 3]]
    };
    assert_eq!(px3(0, 0), [255, 0, 0, 255]);
    assert_eq!(px3(2, 0), [0, 0, 255, 255]);
}

#[test]
fn screenshot_overlay_blends_into_canvas() {
    let mut canvas = vec![255u8; 4 * 4 * 4];
    let mut ov = vec![0u8; 4 * 4 * 4];
    let i_border = 20;
    ov[i_border..i_border + 4].copy_from_slice(&[255, 153, 0, 255]);
    let i_scrim = 0;
    ov[i_scrim..i_scrim + 4].copy_from_slice(&[0, 0, 0, 128]);
    blend_overlay_into(&mut canvas, 4, &ov, 4, 4, 0, 0);
    let border_px = &canvas[i_border..i_border + 4];
    assert_eq!(border_px, [255, 153, 0, 255]);
    let scrim_px = &canvas[0..4];
    assert!(
        scrim_px[0] > 100 && scrim_px[0] < 160,
        "gray {}",
        scrim_px[0]
    );
}

#[test]
fn zero_key_always_selects_zero_zoom() {
    let config = MagnifierConfig {
        allow_zero_zoom: false,
        ..MagnifierConfig::default()
    };
    let mut state = state(config, Some(3.0));
    zoom_key(&mut state, 0);
    assert_eq!(val(state.zoom), 0.0, "key 0 must always select the minimum");
}

#[test]
fn allow_zero_lets_key_levels_go_below_1x() {
    let config = MagnifierConfig {
        max_zoom: num(4.0),
        allow_zero_zoom: true,
        ..MagnifierConfig::default()
    };
    let mut state = state(config, Some(3.0));
    zoom_key(&mut state, 1);
    assert!((val(state.zoom) - 4.0 / 9.0).abs() < 1e-9);
    zoom_key(&mut state, 9);
    assert_eq!(val(state.zoom), 4.0);
}

#[test]
fn state_launches_at_zero_default_when_allowed() {
    let config = MagnifierConfig {
        default_zoom: Some(num(0.0)),
        allow_zero_zoom: true,
        ..MagnifierConfig::default()
    };
    let state = state(config, None);
    assert_eq!(val(state.zoom), 0.0);
}

fn canvas_at(canvas: &[u8], stride: i32, x: i32, y: i32) -> Option<[u8; 4]> {
    if x < 0 || y < 0 || x >= stride / 4 || y >= canvas.len() as i32 / stride {
        return None;
    }
    let i = y as usize * stride as usize + x as usize * 4;
    Some([canvas[i], canvas[i + 1], canvas[i + 2], canvas[i + 3]])
}

fn origin_for_hotspot_at(target: (i32, i32), hotspot: (i32, i32)) -> (i32, i32) {
    (target.0 - hotspot.0, target.1 - hotspot.1)
}

/// The pointer at its own size, and its hotspot.
fn sprite(mut cursor: MagnifiedCursor) -> (RgbaBuffer, (i32, i32)) {
    let cols: Vec<i32> = (0..cursor.base.width).collect();
    let rows: Vec<i32> = (0..cursor.base.height).collect();
    let hotspot = cursor.hotspot;
    let (buffer, at) = cursor.sprite(num(1.0), num(f64::INFINITY), &cols, &rows, hotspot);
    (buffer, (val(at.0).round() as i32, val(at.1).round() as i32))
}

#[test]
fn draw_cursor_at_blits_ring_and_center_unmirrored() {
    let mut canvas = vec![0u8; 64 * 64 * 4];
    let stride = 64 * 4;
    let (sprite, hotspot) = sprite(MagnifiedCursor::new(None, num(1.0)));
    let origin = origin_for_hotspot_at((32, 32), hotspot);
    draw_cursor_at(&mut canvas, stride, origin, &sprite);
    assert_eq!(canvas_at(&canvas, stride, 32, 32), Some([0, 0, 0, 255]));
    assert_eq!(
        canvas_at(&canvas, stride, 32 + 5, 32),
        Some([255, 255, 255, 255])
    );
    assert_eq!(
        canvas_at(&canvas, stride, 32 + 7, 32 + 7),
        Some([0, 0, 0, 0])
    );
}

#[test]
fn draw_cursor_at_moves_with_position_without_mirroring() {
    let mut canvas = vec![0u8; 64 * 64 * 4];
    let stride = 64 * 4;
    let (sprite, hotspot) = sprite(MagnifiedCursor::new(None, num(1.0)));
    let origin = origin_for_hotspot_at((40, 32), hotspot);
    draw_cursor_at(&mut canvas, stride, origin, &sprite);
    assert_eq!(canvas_at(&canvas, stride, 40, 32), Some([0, 0, 0, 255]));
    assert_eq!(canvas_at(&canvas, stride, 24, 32), Some([0, 0, 0, 0]));
}

#[test]
fn draw_cursor_at_places_hotspot_at_target_origin() {
    let mut canvas = vec![0u8; 64 * 64 * 4];
    let stride = 64 * 4;
    let mut base = RgbaBuffer::new(2, 2);
    base.set_pixel(0, 0, [0, 255, 0, 255]);
    base.set_pixel(1, 1, [255, 0, 0, 255]);
    let cursor = MagnifiedCursor::new(Some((base, (num(1.0), num(1.0)))), num(1.0));
    let (sprite, hotspot) = sprite(cursor);
    let origin = origin_for_hotspot_at((50, 50), hotspot);
    assert_eq!(origin, (49, 49));
    draw_cursor_at(&mut canvas, stride, origin, &sprite);
    assert_eq!(canvas_at(&canvas, stride, 50, 50), Some([255, 0, 0, 255]));
    assert_eq!(canvas_at(&canvas, stride, 49, 49), Some([0, 255, 0, 255]));
}

#[test]
fn draw_cursor_at_clamps_at_canvas_edges_without_panicking() {
    let mut canvas = vec![0u8; 64 * 64 * 4];
    let stride = 64 * 4;
    let (sprite, _) = sprite(MagnifiedCursor::new(None, num(1.0)));
    for pos in [(0, 0), (0, 63), (63, 0), (63, 63)] {
        canvas.fill(0);
        draw_cursor_at(&mut canvas, stride, pos, &sprite);
    }
    draw_cursor_at(&mut canvas, stride, (-50, -50), &sprite);
}
