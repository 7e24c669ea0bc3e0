use maggie::config::MagnifierConfig;
use maggie::input;
use maggie::number::Number;
use maggie::platform::{
    CaptureBackend, CaptureFault, CapturedFrame, WaylandCaptureBackend, WaylandCursorBackend,
};
use maggie::render::RgbaBuffer;
use maggie::state::MagnifierState;
use maggie::xp::capture::{demo_screen, unpack_bgra};
use maggie::xp::input::{winit_key_to_action, Action, Key, ModifiersState, PointerState};
use maggie::xp::sprites::{
    build_annotation_cursor, build_crosshair_sprite, build_minimap, build_screenshot_overlay,
    draw_stroke_line,
};
use maggie::xp::{
    build_osd_sprite, build_platform_warning, check_platform_requirements, opening_warning,
    osd_lines, AppMode, KeySteps, MouseButton, Overlay, Platform, PointerLook, Programs, XpState,
};

fn num(x: f64) -> Number {
    Number { bits: x.to_bits() }
}

fn val(n: Number) -> f64 {
    f64::from_bits(n.bits)
}

fn pixel(data: &[u8], width: usize, x: usize, y: usize) -> [u8; 4] {
    let i = (y * width + x) * 4;
    [data[i], data[i + 1], data[i + 2], data[i + 3]]
}

#[test]
fn keys_ask_for_actions() {
    let plain = ModifiersState::default();
    let ctrl = ModifiersState {
        ctrl: true,
        ..ModifiersState::default()
    };
    for (key, wanted, with_ctrl) in [
        (Key::Equal, Action::ZoomIn, Action::ZoomReset),
        (Key::NumpadAdd, Action::ZoomIn, Action::ZoomReset),
        (Key::Minus, Action::ZoomOut, Action::ZoomOut),
        (Key::NumpadSubtract, Action::ZoomOut, Action::ZoomOut),
        (Key::Digit0, Action::ZoomReset, Action::ZoomReset),
        (Key::ArrowLeft, Action::PanLeft, Action::PanLeft),
        (Key::F1, Action::ToggleOsd, Action::ToggleOsd),
        (Key::F5, Action::ToggleOsd, Action::ToggleOsd),
        (Key::F4, Action::ConfigWindow, Action::ConfigWindow),
        (Key::Escape, Action::Quit, Action::Quit),
        (Key::KeyQ, Action::Quit, Action::Quit),
        (Key::KeyS, Action::ScreenshotStart, Action::Nothing),
        (Key::Enter, Action::ScreenshotConfirm, Action::ScreenshotConfirm),
        (Key::KeyA, Action::AnnotationToggle, Action::Nothing),
        (Key::KeyC, Action::CaptureToggle, Action::Nothing),
        (Key::KeyZ, Action::Nothing, Action::Undo),
        (Key::KeyY, Action::Nothing, Action::Redo),
        (Key::Other, Action::Nothing, Action::Nothing),
    ] {
        assert_eq!(winit_key_to_action(key, &plain), wanted);
        assert_eq!(winit_key_to_action(key, &ctrl), with_ctrl);
    }
}

#[test]
fn nothing_is_held_at_first() {
    let p = PointerState::default();
    assert!(!p.left_pressed && !p.right_pressed && !p.middle_pressed);
    assert_eq!(val(p.position.0), 0.0);
    assert_eq!(
        ModifiersState::default(),
        ModifiersState {
            shift: false,
            ctrl: false,
            alt: false,
            logo: false
        }
    );
}

fn state() -> XpState {
    XpState::new(MagnifierConfig::default(), 7)
}

fn steps(s: &XpState) -> KeySteps {
    KeySteps {
        zoom_in: num(val(s.zoom) + 0.2),
        zoom_out: num(val(s.zoom) - 0.2),
        left: num(val(s.view_center.0) - 30.0),
        right: num(val(s.view_center.0) + 30.0),
        up: num(val(s.view_center.1) - 30.0),
        down: num(val(s.view_center.1) + 30.0),
    }
}

fn press(s: &mut XpState, key: Key) -> bool {
    let steps = steps(s);
    s.press_key(key, &steps)
}

#[test]
fn keys_zoom_within_limits() {
    let mut s = state();
    press(&mut s, Key::Equal);
    assert_eq!(val(s.zoom), 1.2);
    for _ in 0..200 {
        press(&mut s, Key::Equal);
    }
    assert_eq!(val(s.zoom), 20.0);
    for _ in 0..200 {
        press(&mut s, Key::Minus);
    }
    assert_eq!(val(s.zoom), 0.1);
    press(&mut s, Key::Digit0);
    assert_eq!(val(s.zoom), 1.0);
    assert_eq!(val(s.zoom_to(num(50.0))), 1.0);
    assert_eq!(val(s.zoom), 20.0);
}

#[test]
fn keys_pan_and_switch() {
    let mut s = state();
    press(&mut s, Key::ArrowRight);
    press(&mut s, Key::ArrowUp);
    assert_eq!((val(s.view_center.0), val(s.view_center.1)), (30.0, -30.0));
    press(&mut s, Key::ArrowLeft);
    press(&mut s, Key::ArrowDown);
    assert_eq!((val(s.view_center.0), val(s.view_center.1)), (0.0, 0.0));
    s.center_on((num(5.0), num(6.0)));
    assert_eq!(val(s.view_center.1), 6.0);
    press(&mut s, Key::F1);
    press(&mut s, Key::F2);
    press(&mut s, Key::F3);
    press(&mut s, Key::F4);
    assert!(!s.osd_visible && !s.cursor_visible && s.minimap_visible && s.config_open);
    assert!(!s.exit);
    assert!(press(&mut s, Key::Escape));
    assert!(s.exit);
}

#[test]
fn keys_change_the_mode() {
    let mut s = state();
    press(&mut s, Key::KeyS);
    assert_eq!(s.mode, AppMode::Capture);
    press(&mut s, Key::Enter);
    assert_eq!(s.mode, AppMode::Magnify);
    press(&mut s, Key::KeyA);
    assert_eq!(s.mode, AppMode::Annotation);
    press(&mut s, Key::KeyA);
    assert_eq!(s.mode, AppMode::Magnify);
    press(&mut s, Key::KeyS);
    press(&mut s, Key::Backspace);
    assert_eq!(s.mode, AppMode::Magnify);
    s.change_modifiers(ModifiersState {
        ctrl: true,
        ..ModifiersState::default()
    });
    press(&mut s, Key::KeyS);
    assert_eq!(s.mode, AppMode::Magnify);
}

#[test]
fn buttons_draw_and_lead_out() {
    let mut s = state();
    assert!(!s.press_button(MouseButton::Left, true, (4, 3)));
    assert_eq!(s.mode, AppMode::Annotation);
    assert!(s.pointer.left_pressed);
    assert_eq!(s.annotation_overlay, Some((vec![0u8; 48], 4, 3)));
    let stroke = s.move_pointer((num(2.0), num(1.0)));
    assert_eq!(
        stroke,
        Some(((num(0.0), num(0.0)), (num(2.0), num(1.0))))
    );
    s.press_button(MouseButton::Left, false, (4, 3));
    assert_eq!(s.move_pointer((num(3.0), num(1.0))), None);
    s.press_button(MouseButton::Middle, true, (4, 3));
    assert!(s.pointer.middle_pressed);
    assert!(!s.press_button(MouseButton::Right, true, (4, 3)));
    assert_eq!(s.mode, AppMode::Magnify);
    assert!(s.press_button(MouseButton::Right, true, (4, 3)));
    assert!(s.exit);
    assert!(!s.press_button(MouseButton::Other, true, (4, 3)));
}

#[test]
fn layers_follow_the_mode() {
    let mut s = state();
    let l = s.layers();
    assert_eq!(
        (l.overlay, l.pointer, l.minimap, l.osd),
        (Overlay::Clear, PointerLook::Magnified, false, true)
    );
    press(&mut s, Key::F1);
    press(&mut s, Key::F2);
    assert_eq!(s.layers().pointer, PointerLook::Hidden);
    assert!(!s.layers().osd);
    press(&mut s, Key::F4);
    assert!(s.layers().osd);
    press(&mut s, Key::KeyA);
    assert_eq!(s.layers().overlay, Overlay::Clear);
    assert_eq!(s.layers().pointer, PointerLook::Inverting);
    press(&mut s, Key::KeyA);
    s.press_button(MouseButton::Left, true, (1, 1));
    assert_eq!(s.layers().overlay, Overlay::Strokes);
    press(&mut s, Key::KeyS);
    assert_eq!(s.layers().overlay, Overlay::Shot);
}

#[test]
fn redraws_keep_their_distance() {
    let mut s = state();
    s.drawn(1_000);
    assert!(!s.redraw_due(16_000_999));
    assert!(s.redraw_due(16_001_000));
}

#[test]
fn the_cross_is_drawn_as_its_formula_says() {
    for size in [0u32, 1, 2, 5, 16, 25, 26, 64, 100, 320] {
        let (data, w, h) = build_crosshair_sprite(size);
        let (bare, _, _) = build_annotation_cursor(size);
        assert_eq!((w, h), (size, size));
        let center = size as f32 / 2.0;
        let arm = (size as f32 * 0.04).max(1.0);
        let gap = size as f32 * 0.08;
        for y in 0..size {
            for x in 0..size {
                let dx = (x as f32 + 0.5 - center).abs();
                let dy = (y as f32 + 0.5 - center).abs();
                let set = (dy < arm && dx >= gap)
                    || (dx < arm && dy >= gap)
                    || dx * dx + dy * dy < gap * gap * 0.5;
                let outline = (dy < arm + 1.0 && dx >= gap - 1.0)
                    || (dx < arm + 1.0 && dy >= gap - 1.0);
                let white = [255, 255, 255, 255];
                let want = if set {
                    white
                } else if outline {
                    [0, 0, 0, 200]
                } else {
                    [0, 0, 0, 0]
                };
                let n = size as usize;
                assert_eq!(pixel(&data, n, x as usize, y as usize), want);
                let want = if set { white } else { [0, 0, 0, 0] };
                assert_eq!(pixel(&bare, n, x as usize, y as usize), want);
            }
        }
    }
}

#[test]
fn the_screenshot_frame_is_bright_around_a_scrim() {
    let (data, w, h) = build_screenshot_overlay(10, 8, 1);
    assert_eq!((w, h), (10, 8));
    assert_eq!(pixel(&data, 10, 2, 5), [50, 200, 255, 220]);
    assert_eq!(pixel(&data, 10, 3, 3), [0, 0, 0, 120]);
    assert_eq!(pixel(&data, 10, 7, 3), [50, 200, 255, 220]);
    let (data, _, _) = build_screenshot_overlay(2, 2, 0);
    assert_eq!(pixel(&data, 2, 1, 1), [0, 0, 255, 220]);
}

#[test]
fn strokes_are_discs_along_their_way() {
    let mut overlay = (vec![0u8; 10 * 10 * 4], 10, 10);
    draw_stroke_line(&mut overlay, &vec![(2, 2), (9, 9), (50, 50)], 1);
    let ink = [255, 80, 80, 200];
    assert_eq!(pixel(&overlay.0, 10, 2, 1), ink);
    assert_eq!(pixel(&overlay.0, 10, 3, 2), ink);
    assert_eq!(pixel(&overlay.0, 10, 3, 3), [0, 0, 0, 0]);
    assert_eq!(pixel(&overlay.0, 10, 9, 8), ink);
    let on = overlay.0.chunks_exact(4).filter(|p| p[3] == 200).count();
    assert_eq!(on, 5 + 3);
    draw_stroke_line(&mut overlay, &vec![(0, 0), (i32::MIN, i32::MAX)], -1);
    assert_eq!(pixel(&overlay.0, 10, 0, 0), [0, 0, 0, 0]);
    draw_stroke_line(&mut overlay, &vec![(-70_000, 5)], 70_005);
    assert_eq!(pixel(&overlay.0, 10, 5, 5), ink);
    assert_eq!(pixel(&overlay.0, 10, 6, 5), [0, 0, 0, 0]);
}

#[test]
fn large_pointers_differ_by_their_outline_alone() {
    let size = 2000;
    let (data, w, h) = build_crosshair_sprite(size);
    let (bare, _, _) = build_annotation_cursor(size);
    assert_eq!((w, h, data.len()), (size, size, 4 * 2000 * 2000));
    for (a, b) in data.chunks_exact(4).zip(bare.chunks_exact(4)) {
        assert_eq!(b, if a == [0, 0, 0, 200] { &[0, 0, 0, 0] } else { a });
    }
    assert_eq!(pixel(&data, 2000, 0, 1000), [255, 255, 255, 255]);
    assert_eq!(pixel(&data, 2000, 0, 1000 + 80), [0, 0, 0, 200]);
    assert_eq!(pixel(&data, 2000, 0, 1000 + 81), [0, 0, 0, 0]);
}

#[test]
fn the_minimap_is_dark_and_marks_the_view() {
    let frame: Vec<u8> = (0..4 * 2).flat_map(|i| [i as u8 * 30, 9, 6, 255]).collect();
    let cols: Vec<u32> = (0..200).map(|x| x * 4 / 200).collect();
    let rows: Vec<u32> = (0..100).map(|y| y * 2 / 100).collect();
    let (data, w, h) = build_minimap(&frame, 4, &cols, &rows, (10, 10, 60, 40));
    assert_eq!((w, h), (200, 100));
    assert_eq!(pixel(&data, 200, 0, 0), [0, 3, 2, 200]);
    assert_eq!(pixel(&data, 200, 199, 99), [70, 3, 2, 200]);
    assert_eq!(pixel(&data, 200, 11, 20), [255, 255, 255, 255]);
    assert_eq!(pixel(&data, 200, 12, 20), [0, 3, 2, 200]);
    assert_eq!(pixel(&data, 200, 30, 39), [255, 255, 255, 255]);
    let (data, _, _) = build_minimap(&frame[..4], 4, &cols, &rows, (0, 0, 0, 0));
    assert_eq!(pixel(&data, 200, 199, 99), [0, 0, 0, 0]);
}

#[test]
fn the_legend_names_the_keys() {
    let lines = osd_lines(false, "1.5", "3", "4", AppMode::Capture);
    assert_eq!(lines.len(), 7);
    assert_eq!(lines[1], "Zoom: 1.5x  Center: (3,4)");
    assert_eq!(lines[2], "Mode: Capture");
    let lines = osd_lines(true, "1.5", "3", "4", AppMode::Magnify);
    assert_eq!(lines.len(), 14);
    assert_eq!(lines[7], "");
    assert_eq!(lines[13], "Minimap: F3 to toggle");
    let (data, w, h) = build_osd_sprite(false, "1.5", "3", "4", AppMode::Annotation);
    assert_eq!((w, h), (44 * 12 + 16, 7 * 18 + 16));
    assert_eq!(data.len(), (w * h * 4) as usize);
}

#[test]
fn missing_programs_are_named() {
    let all = Programs {
        pipewire: true,
        portal: true,
        portal_backend: true,
    };
    assert!(check_platform_requirements(Platform::Linux, all).is_ok());
    let none = Programs {
        pipewire: false,
        portal: false,
        portal_backend: false,
    };
    assert!(check_platform_requirements(Platform::Macos, none).is_ok());
    let lines = check_platform_requirements(Platform::Linux, none).unwrap_err();
    assert_eq!(lines.len(), 10);
    assert_eq!(lines[0], "=== Requirements Missing ===");
    assert_eq!(lines[1], "Missing: pipewire daemon");
    assert_eq!(lines[9], "Press Esc/Q to quit.");
    let lines = check_platform_requirements(
        Platform::Linux,
        Programs {
            portal: false,
            ..all
        },
    )
    .unwrap_err();
    assert_eq!(lines[1], "Missing: xdg-desktop-portal");
    assert_eq!(lines.len(), 6);
}

#[test]
fn a_failed_capture_comes_with_advice() {
    let lines = build_platform_warning(Platform::Linux, "boom");
    assert_eq!(lines[1], "Screen capture failed on Linux.");
    assert_eq!(lines[9], "");
    assert_eq!(lines[10], "Details: boom");
    assert_eq!(lines.len(), 14);
    let lines = build_platform_warning(Platform::Linux, "pipewire");
    assert_eq!(lines.len(), 12);
    let lines = build_platform_warning(Platform::Windows, "");
    assert_eq!(lines.len(), 9);
    let lines = build_platform_warning(Platform::Other, "boom");
    assert_eq!(lines[1], "Error: boom");
    assert_eq!(lines.len(), 5);
    let lines = build_platform_warning(Platform::Macos, "x-y-z");
    assert_eq!(lines[7], "Then restart Maggie.");
    assert_eq!(lines[9], "Details: x-y-z");
}

#[test]
fn the_first_warning_is_the_most_pressing() {
    let missing = || Err(vec!["missing".to_string()]);
    let none = opening_warning(Ok(()), None, Platform::Linux, false);
    assert!(none.is_none());
    let w = opening_warning(missing(), Some("x".to_string()), Platform::Linux, false);
    assert_eq!(w.unwrap(), vec!["missing".to_string()]);
    let w = opening_warning(Ok(()), Some("x".to_string()), Platform::Windows, false);
    assert_eq!(w.unwrap()[1], "Screen capture failed on Windows.");
    let w = opening_warning(missing(), None, Platform::Linux, true);
    assert_eq!(w.unwrap()[0], "=== Test Warning ===");
}

#[test]
fn the_demo_screen_is_a_gradient() {
    let s = demo_screen();
    assert_eq!((s.width, s.height), (800, 600));
    assert_eq!(pixel(&s.rgba, 800, 0, 0), [0, 0, 128, 255]);
    assert_eq!(pixel(&s.rgba, 800, 799, 599), [254, 254, 128, 255]);
    assert_eq!(pixel(&s.rgba, 800, 400, 300), [127, 127, 128, 255]);
}

#[test]
fn rows_of_memory_become_a_screen() {
    let memory = vec![
        1, 2, 3, 4, 5, 6, 7, 8, 0, 0, //
        9, 10, 11, 12, 13, 14, 15, 16, 0, 0,
    ];
    let s = unpack_bgra(&memory, 10, 2, 2);
    assert_eq!(
        s.rgba,
        vec![3, 2, 1, 4, 7, 6, 5, 8, 11, 10, 9, 12, 15, 14, 13, 16]
    );
}

#[test]
fn fixed_keys_of_the_magnifier() {
    let _handler = input::InputHandler::new();
    let mut m = MagnifierState::new(MagnifierConfig::default(), Some(num(3.0)), 0);
    let mut ask = |keysym: u32| input::InputHandler::handle_key(&mut m, keysym);
    assert_eq!(ask(0x6B), Some(input::Action::ToggleOsd));
    assert_eq!(ask(0x73), Some(input::Action::ScreenshotManual));
    assert_eq!(ask(0x77), Some(input::Action::ScreenshotWindow));
    assert_eq!(ask(0x66), Some(input::Action::ScreenshotFullscreen));
    assert_eq!(ask(0x63), Some(input::Action::OpenConfig));
    assert_eq!(ask(0x78), None);
}

#[test]
fn wayland_captures_come_as_events_only() {
    let mut backend = WaylandCaptureBackend::new();
    let failed = backend.capture_primary();
    assert!(matches!(failed, Err(CaptureFault::Asynchronous)));
    let failed = backend.capture_window(5);
    assert!(matches!(failed, Err(CaptureFault::NoWindows)));
    assert_eq!(
        CaptureFault::NoWindows.message(),
        "Window capture not supported on this platform"
    );
    assert!(CaptureFault::Asynchronous
        .message()
        .starts_with("Wayland capture is asynchronous"));
    assert!(backend.available_outputs().is_empty());
    let frame = CapturedFrame {
        buffer: RgbaBuffer::new(1, 1),
    };
    assert_eq!(frame.buffer.width, 1);
}

#[test]
fn the_cursor_theme_has_a_default() {
    let backend = WaylandCursorBackend::new();
    assert_eq!(backend.theme(None), "default");
    assert_eq!(backend.theme(Some("Breeze".to_string())), "Breeze");
}
