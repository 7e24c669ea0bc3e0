use maggie::config::{MagnifierConfig, ScrollZoomMode};
use maggie::config_window::{
    choose_key, force_zero_zoom, keysym_to_egui_key, scroll_zoom_name, settle_form,
    strip_symbol_prefix, takes_text, FrameOutcome, Persistence, UiResult,
};
use maggie::number::Number;
use xkeysym::key;

fn num(x: f64) -> Number {
    Number { bits: x.to_bits() }
}

fn val(n: Number) -> f64 {
    f64::from_bits(n.bits)
}

/// The toolkit's key for a key symbol.
fn key_for(keysym: u32) -> Option<egui::Key> {
    keysym_to_egui_key(keysym).and_then(|name| egui::Key::from_name(&name))
}

#[test]
fn keysym_mapping_covers_common_keys() {
    assert_eq!(key_for(key::Escape), Some(egui::Key::Escape));
    assert_eq!(key_for(key::Return), Some(egui::Key::Enter));
    assert_eq!(key_for(key::Tab), Some(egui::Key::Tab));
    assert_eq!(key_for(key::BackSpace), Some(egui::Key::Backspace));
    assert_eq!(key_for(key::Left), Some(egui::Key::ArrowLeft));
    assert_eq!(key_for(key::Right), Some(egui::Key::ArrowRight));
    assert_eq!(key_for(key::Up), Some(egui::Key::ArrowUp));
    assert_eq!(key_for(key::Down), Some(egui::Key::ArrowDown));
    assert_eq!(key_for(key::a), Some(egui::Key::A));
    assert_eq!(key_for(key::_1), Some(egui::Key::Num1));
    assert_eq!(key_for(key::space), Some(egui::Key::Space));
    assert_eq!(key_for(key::minus), Some(egui::Key::Minus));
    assert_eq!(key_for(key::plus), Some(egui::Key::Plus));
    assert_eq!(key_for(key::F1), Some(egui::Key::F1));
    assert_eq!(key_for(key::Shift_L), None);
}

#[test]
fn every_fixed_key_has_its_counterpart() {
    for (keysym, wanted) in [
        (key::Delete, egui::Key::Delete),
        (key::Home, egui::Key::Home),
        (key::End, egui::Key::End),
        (key::Page_Up, egui::Key::PageUp),
        (key::Page_Down, egui::Key::PageDown),
        (key::Insert, egui::Key::Insert),
    ] {
        assert_eq!(key_for(keysym), Some(wanted));
    }
    assert_eq!(keysym_to_egui_key(key::a), Some("A".to_string()));
    assert_eq!(keysym_to_egui_key(key::F12), Some("F12".to_string()));
}

#[test]
fn the_character_comes_before_the_name() {
    let by = |s: &str| Some(s.to_string());
    assert_eq!(choose_key(0x41, by("char"), by("name")), by("char"));
    assert_eq!(choose_key(0x41, None, by("name")), by("name"));
    assert_eq!(choose_key(0x1000, by("char"), by("name")), by("name"));
    assert_eq!(choose_key(key::Escape, by("char"), by("name")), by("Escape"));
    assert_eq!(choose_key(0x1000, None, None), None);
}

#[test]
fn symbol_names_lose_their_prefix() {
    assert_eq!(strip_symbol_prefix(Some("XK_F1".to_string())), "F1");
    assert_eq!(strip_symbol_prefix(Some("F1".to_string())), "");
    assert_eq!(strip_symbol_prefix(Some("XK".to_string())), "");
    assert_eq!(strip_symbol_prefix(None), "");
}

#[test]
fn control_characters_alone_are_no_text() {
    assert!(takes_text("a"));
    assert!(takes_text("\u{1b}a"));
    assert!(!takes_text("\u{8}"));
    assert!(!takes_text("\u{7f}\u{9f}"));
    assert!(!takes_text(""));
    for c in (0u32..0x300).filter_map(char::from_u32) {
        assert_eq!(takes_text(&c.to_string()), !c.is_control());
    }
}

#[test]
fn scroll_modes_have_names() {
    assert_eq!(scroll_zoom_name(ScrollZoomMode::Levels), "levels");
    assert_eq!(scroll_zoom_name(ScrollZoomMode::Factor), "factor");
    assert_ne!(UiResult::Continue, UiResult::Close);
}

#[test]
fn a_default_zoom_of_zero_locks_zero_zoom_on() {
    let mut c = MagnifierConfig {
        default_zoom: Some(num(0.0)),
        allow_zero_zoom: false,
        ..MagnifierConfig::default()
    };
    assert!(force_zero_zoom(&mut c));
    assert!(c.allow_zero_zoom);
    c.default_zoom = Some(num(2.0));
    c.allow_zero_zoom = false;
    assert!(!force_zero_zoom(&mut c));
    assert!(!c.allow_zero_zoom);
}

#[test]
fn the_form_brings_the_default_zoom_into_range() {
    let mut c = MagnifierConfig {
        default_zoom: Some(num(0.5)),
        allow_zero_zoom: false,
        max_zoom: num(6.0),
        ..MagnifierConfig::default()
    };
    settle_form(&mut c);
    assert_eq!(c.default_zoom.map(val), Some(1.0));
    c.default_zoom = Some(num(9.0));
    settle_form(&mut c);
    assert_eq!(c.default_zoom.map(val), Some(6.0));
    c.allow_zero_zoom = true;
    c.default_zoom = Some(num(0.5));
    settle_form(&mut c);
    assert_eq!(c.default_zoom.map(val), Some(0.5));
    c.default_zoom = None;
    settle_form(&mut c);
    assert_eq!(c.default_zoom.map(val), Some(3.0));
    c.default_zoom = None;
    c.max_zoom = num(2.0);
    settle_form(&mut c);
    assert_eq!(c.default_zoom.map(val), Some(2.0));
}

fn outcome() -> FrameOutcome {
    FrameOutcome {
        saved: None,
        reloaded: None,
        picked: None,
    }
}

fn says(p: &Persistence) -> Option<(&str, bool)> {
    p.status.as_ref().map(|(m, e)| (m.as_str(), *e))
}

#[test]
fn changed_settings_are_saved_on_their_own() {
    let mut config = MagnifierConfig::default();
    let mut p = Persistence::new(config.clone());
    assert!(!p.finish_frame(&mut config, outcome()));
    config.show_osd = !config.show_osd;
    assert!(p.finish_frame(&mut config, outcome()));
    p.auto_saved(&config, Err("disk full".to_string()));
    assert_eq!(says(&p), Some(("Auto-save failed: disk full", true)));
    assert!(p.finish_frame(&mut config, outcome()));
    p.auto_saved(&config, Ok(()));
    assert_eq!(
        says(&p),
        Some(("Changes auto-saved to ~/.config/maggie/config.ron", false))
    );
    assert!(!p.finish_frame(&mut config, outcome()));
    assert!(p.take_status().is_some());
    assert!(p.take_status().is_none());
}

#[test]
fn a_picked_folder_is_put_into_the_settings() {
    let mut config = MagnifierConfig::default();
    let mut p = Persistence::new(config.clone());
    let picked = FrameOutcome {
        picked: Some("/shots".to_string()),
        ..outcome()
    };
    assert!(p.finish_frame(&mut config, picked));
    assert_eq!(config.screenshot_path, "/shots");
}

#[test]
fn the_buttons_report_what_became_of_them() {
    let mut config = MagnifierConfig::default();
    let mut p = Persistence::new(config.clone());
    config.show_osd = !config.show_osd;
    let saved = FrameOutcome {
        saved: Some(Ok(())),
        ..outcome()
    };
    assert!(!p.finish_frame(&mut config, saved));
    assert_eq!(
        says(&p),
        Some(("Configuration saved to ~/.config/maggie/config.ron", false))
    );
    config.show_osd = !config.show_osd;
    let failed = FrameOutcome {
        saved: Some(Err("no".to_string())),
        ..outcome()
    };
    assert!(p.finish_frame(&mut config, failed));
    assert_eq!(says(&p), Some(("Save failed: no", true)));
    let reloaded = FrameOutcome {
        reloaded: Some(Ok(())),
        ..outcome()
    };
    assert!(!p.finish_frame(&mut config, reloaded));
    assert_eq!(says(&p), Some(("Configuration reloaded from disk", false)));
    let failed = FrameOutcome {
        reloaded: Some(Err("gone".to_string())),
        ..outcome()
    };
    assert!(!p.finish_frame(&mut config, failed));
    assert_eq!(says(&p), Some(("Reload failed: gone", true)));
}
