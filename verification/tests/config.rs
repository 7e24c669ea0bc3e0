use maggie::config::{
    config_place, config_place_in, loaded_config, normalize_config, Keybindings, MagnifierConfig,
    MinimapOutlineScheme, ScreenshotScale, ScrollZoomMode,
};
use maggie::number::Number;
use maggie::osd::Corner;

fn num(x: f64) -> Number {
    Number { bits: x.to_bits() }
}

fn val(n: Number) -> f64 {
    f64::from_bits(n.bits)
}

#[test]
fn pre_cursor_toggle_configs_migrate_config_window_to_tab() {
    let mut config = MagnifierConfig {
        keybindings: Keybindings {
            config_window: "c".to_string(),
            toggle_cursor: "c".to_string(),
            ..Keybindings::default()
        },
        ..MagnifierConfig::default()
    };
    normalize_config(&mut config);
    assert_eq!(config.keybindings.config_window, "Tab");
    assert_eq!(config.keybindings.toggle_cursor, "c");
}

#[test]
fn minimap_default_is_m() {
    assert_eq!(MagnifierConfig::default().keybindings.minimap, "m");
    let keybindings = Keybindings { ..Keybindings::default() };
    assert_eq!(keybindings.minimap, "m");
}

#[test]
fn minimap_visible_defaults_to_true() {
    assert!(MagnifierConfig::default().minimap_visible);
    let config = MagnifierConfig { ..MagnifierConfig::default() };
    assert!(config.minimap_visible);
}

#[test]
fn pixel_locked_panning_defaults_to_true() {
    assert!(MagnifierConfig::default().pixel_locked_panning);
    let config = MagnifierConfig { ..MagnifierConfig::default() };
    assert!(config.pixel_locked_panning);
}

#[test]
fn pan_tuning_defaults_to_off() {
    assert_eq!(val(MagnifierConfig::default().pan_tuning), 0.0);
    let mut config = MagnifierConfig { ..MagnifierConfig::default() };
    config.pan_tuning = num(5.0);
    normalize_config(&mut config);
    assert_eq!(val(config.pan_tuning), 1.0);
    config.pan_tuning = num(f64::NAN);
    normalize_config(&mut config);
    assert_eq!(val(config.pan_tuning), 0.0);
}

#[test]
fn hold_to_zoom_default_is_mmb() {
    let mut config = MagnifierConfig {
        keybindings: Keybindings {
            hold_to_zoom: "Space".to_string(),
            ..Keybindings::default()
        },
        ..MagnifierConfig::default()
    };
    normalize_config(&mut config);
    assert_eq!(config.keybindings.hold_to_zoom, "Space");
    assert_eq!(MagnifierConfig::default().keybindings.hold_to_zoom, "MMB");
}

#[test]
fn normalize_config_clamps_zooms_and_speed() {
    let mut config = MagnifierConfig {
        default_zoom: Some(num(f64::NAN)),
        max_zoom: num(99.0),
        hold_to_zoom_speed: num(f64::NEG_INFINITY),
        ..MagnifierConfig::default()
    };
    normalize_config(&mut config);
    assert_eq!(val(config.max_zoom), 32.0);
    assert_eq!(config.default_zoom.map(val), None);
    assert_eq!(val(config.hold_to_zoom_speed), 0.02);
}

#[test]
fn default_zoom_zero_forces_allow_zero_zoom() {
    let mut config = MagnifierConfig {
        default_zoom: Some(num(0.0)),
        ..MagnifierConfig::default()
    };
    normalize_config(&mut config);
    assert!(config.allow_zero_zoom);
    assert_eq!(val(config.min_zoom()), 0.0);
    assert_eq!(config.default_zoom.map(val), Some(0.0));
}

#[test]
fn default_zoom_above_zero_leaves_allow_zero_free() {
    let mut config = MagnifierConfig {
        default_zoom: Some(num(3.0)),
        allow_zero_zoom: false,
        ..MagnifierConfig::default()
    };
    normalize_config(&mut config);
    assert!(!config.allow_zero_zoom);
    assert_eq!(val(config.min_zoom()), 1.0);
}

#[test]
fn default_zoom_with_allow_zero_enabled_can_go_below_1x() {
    let mut config = MagnifierConfig {
        default_zoom: Some(num(0.5)),
        allow_zero_zoom: true,
        ..MagnifierConfig::default()
    };
    normalize_config(&mut config);
    assert_eq!(config.default_zoom.map(val), Some(0.5));
    assert_eq!(val(config.min_zoom()), 0.0);
}

#[test]
fn old_s_manual_screenshot_key_migrates_to_g() {
    let mut old = MagnifierConfig {
        keybindings: Keybindings {
            screenshot_manual: "s".to_string(),
            ..Keybindings::default()
        },
        ..MagnifierConfig::default()
    };
    normalize_config(&mut old);
    assert_eq!(old.keybindings.screenshot_manual, "g");

    let mut custom = MagnifierConfig {
        keybindings: Keybindings {
            screenshot_manual: "x".to_string(),
            ..Keybindings::default()
        },
        ..MagnifierConfig::default()
    };
    normalize_config(&mut custom);
    assert_eq!(custom.keybindings.screenshot_manual, "x");
    assert_eq!(MagnifierConfig::default().keybindings.screenshot_manual, "g");
}

#[test]
fn every_number_is_tidied() {
    let mut config = MagnifierConfig {
        max_zoom: num(f64::INFINITY),
        hold_to_zoom_speed: num(7.0),
        minimap_outline_speed: num(f64::NAN),
        minimap_outline_thickness: 99,
        minimap_outline_zoom_scale: num(-1.0),
        shift_slow_factor: num(f64::NEG_INFINITY),
        ..MagnifierConfig::default()
    };
    normalize_config(&mut config);
    assert_eq!(val(config.max_zoom), 9.0);
    assert_eq!(val(config.hold_to_zoom_speed), 1.0);
    assert_eq!(val(config.minimap_outline_speed), 1.0);
    assert_eq!(config.minimap_outline_thickness, 8);
    assert_eq!(val(config.minimap_outline_zoom_scale), 0.0);
    assert_eq!(val(config.shift_slow_factor), 0.1);
}

#[test]
fn default_zoom_is_brought_under_the_largest() {
    let mut config = MagnifierConfig {
        default_zoom: Some(num(20.0)),
        max_zoom: num(6.0),
        ..MagnifierConfig::default()
    };
    normalize_config(&mut config);
    assert_eq!(config.default_zoom.map(val), Some(6.0));
    config.default_zoom = Some(num(0.25));
    normalize_config(&mut config);
    assert_eq!(config.default_zoom.map(val), Some(1.0));
}

#[test]
fn normalizing_twice_changes_nothing_more() {
    let mut config = MagnifierConfig {
        default_zoom: Some(num(0.0)),
        max_zoom: num(0.5),
        pan_tuning: num(-3.0),
        ..MagnifierConfig::default()
    };
    normalize_config(&mut config);
    let once = config.clone();
    normalize_config(&mut config);
    assert!(config.same_settings(&once));
}

#[test]
fn settings_differ_where_one_differs() {
    let a = MagnifierConfig::default();
    let mut b = a.clone();
    assert!(a.same_settings(&b));
    b.keybindings.minimap = "n".to_string();
    assert!(!a.same_settings(&b));
    let mut c = a.clone();
    c.pan_tuning = num(f64::NAN);
    assert!(!c.same_settings(&c.clone()));
    let mut d = a.clone();
    d.pan_tuning = num(-0.0);
    assert!(a.same_settings(&d));
    let mut e = a.clone();
    e.osd_corner = Corner::BottomRight;
    assert_eq!(a.same_settings(&e), a.osd_corner == Corner::BottomRight);
}

#[test]
fn settings_have_names() {
    assert_eq!(ScreenshotScale::Real.name(), "real size");
    assert_eq!(ScreenshotScale::Magnified.name(), "magnified");
    assert_eq!(MinimapOutlineScheme::Gradient.name(), "gradient");
    assert_eq!(MinimapOutlineScheme::AngularGradient.name(), "angular gradient");
    assert_eq!(MinimapOutlineScheme::MarchingAnts.name(), "marching ants");
    assert!(matches!(ScrollZoomMode::default(), ScrollZoomMode::Levels));
}

#[test]
fn settings_are_kept_below_the_users_directory() {
    let place = config_place_in(Some(b"/home/me/.config".to_vec())).unwrap();
    assert_eq!(place.directory, b"/home/me/.config/maggie");
    assert_eq!(place.file, b"/home/me/.config/maggie/config.ron");
    assert!(config_place_in(None).is_none());
}

#[test]
fn place_of_the_settings_is_the_one_that_dirs_finds() {
    let found = dirs::config_dir().map(|d| d.into_os_string().into_encoded_bytes());
    match (config_place(), config_place_in(found)) {
        (Some(a), Some(b)) => assert_eq!((a.directory, a.file), (b.directory, b.file)),
        (a, b) => assert_eq!(a.is_none(), b.is_none()),
    }
}

#[test]
fn settings_start_normal() {
    let fresh = loaded_config(None);
    assert!(fresh.same_settings(&MagnifierConfig::default()));
    let read = MagnifierConfig {
        max_zoom: num(99.0),
        ..MagnifierConfig::default()
    };
    assert_eq!(val(loaded_config(Some(read)).max_zoom), 32.0);
}

#[test]
fn the_legend_is_shown_by_default() {
    assert!(MagnifierConfig::default().show_osd);
}
