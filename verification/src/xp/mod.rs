//! The magnifier in an ordinary window.

use crate::config::MagnifierConfig;
use crate::number;
use crate::number::Number;
use crate::osd;
use crate::osd::Corner;
use crate::pixels;
use crate::text;
use crate::timing;
use crate::view::Point;
use vstd::prelude::*;

pub mod input;
pub mod capture;
pub mod sprites;

use self::input::{Action, ModifiersState, PointerState};
use self::sprites::Picture;

verus! {

/// The bits of 0.1: the least zoom.
pub const MIN_ZOOM: u64 = 0x3FB9_9999_9999_999A;

/// The bits of 20: the largest zoom.
pub const MAX_ZOOM: u64 = 0x4034_0000_0000_0000;

/// Least time between two redraws.
pub const REDRAW_INTERVAL: u64 = 16_000_000;

/// What the window is used for.
#[derive(Clone, Copy, Debug, PartialEq, Eq, Structural)]
pub enum AppMode {
    Magnify,
    Annotation,
    Capture,
}

impl AppMode {
    pub open spec fn spoken(self) -> Seq<char> {
        match self {
            AppMode::Magnify => "Magnify"@,
            AppMode::Annotation => "Annotation"@,
            AppMode::Capture => "Capture"@,
        }
    }

    pub fn name(self) -> (r: &'static str)
        ensures
            r@ == self.spoken(),
    {
        match self {
            AppMode::Magnify => "Magnify",
            AppMode::Annotation => "Annotation",
            AppMode::Capture => "Capture",
        }
    }
}

/// A button of the pointer.
#[derive(Clone, Copy, Debug, PartialEq, Eq, Structural)]
pub enum MouseButton {
    Left,
    Right,
    Middle,
    Other,
}

/// What the window remembers.
pub struct XpState {
    pub zoom: Number,
    pub view_center: Point,
    pub mode: AppMode,
    pub config: MagnifierConfig,
    pub exit: bool,
    pub pointer_pos: Point,
    pub pointer: PointerState,
    pub modifiers: ModifiersState,
    pub osd_visible: bool,
    pub cursor_visible: bool,
    pub minimap_visible: bool,
    pub last_draw: u64,
    /// What has been drawn.
    pub annotation_overlay: Option<Picture>,
    pub config_open: bool,
    /// Lines that are shown as long as something is missing.
    pub warning_text: Option<Vec<String>>,
}

/// What the keys would do, in numbers.
#[derive(Clone, Copy, Debug, PartialEq, Eq)]
pub struct KeySteps {
    /// The zoom a step further in, and out.
    pub zoom_in: Number,
    pub zoom_out: Number,
    /// The middle of the view a step to each side.
    pub left: Number,
    pub right: Number,
    pub up: Number,
    pub down: Number,
}

/// What is laid over the whole frame.
#[derive(Clone, Copy, Debug, PartialEq, Eq, Structural)]
pub enum Overlay {
    /// The scrim and border of the screenshot mode.
    Shot,
    /// What has been drawn.
    Strokes,
    /// Nothing at all.
    Clear,
}

/// How the pointer is shown.
#[derive(Clone, Copy, Debug, PartialEq, Eq, Structural)]
pub enum PointerLook {
    /// The cross that inverts, at its fixed size.
    Inverting,
    /// The outlined cross, magnified.
    Magnified,
    /// Not at all.
    Hidden,
}

/// The layers of a frame.
#[derive(Clone, Copy, Debug, PartialEq, Eq, Structural)]
pub struct Layers {
    pub overlay: Overlay,
    pub pointer: PointerLook,
    pub minimap: bool,
    pub osd: bool,
}

/// Side of the pointer in annotation mode.
pub const ANNOTATION_POINTER: u32 = 64;

/// A zoom brought into its range.
pub open spec fn zoom_in_range(zoom: Number) -> Number {
    zoom.clamped(number::num(MIN_ZOOM), number::num(MAX_ZOOM))
}

fn into_range(zoom: Number) -> (r: Number)
    ensures
        r == zoom_in_range(zoom),
{
    zoom.clamp(Number { bits: MIN_ZOOM }, Number { bits: MAX_ZOOM })
}

/// Whatever is asked for, the zoom ends up between its limits.
pub proof fn zoom_is_limited(zoom: Number)
    requires
        !zoom.nan(),
    ensures
        number::num(MIN_ZOOM).at_most(zoom_in_range(zoom)),
        zoom_in_range(zoom).at_most(number::num(MAX_ZOOM)),
{
}

impl XpState {
    /// A fresh state: no zoom, the legend and the pointer shown.
    pub fn new(config: MagnifierConfig, now: u64) -> (r: XpState)
        ensures
            r == (XpState {
                zoom: number::num(number::ONE),
                view_center: (number::num(number::ZERO), number::num(number::ZERO)),
                mode: AppMode::Magnify,
                config,
                exit: false,
                pointer_pos: (number::num(number::ZERO), number::num(number::ZERO)),
                pointer: PointerState {
                    position: (number::num(number::ZERO), number::num(number::ZERO)),
                    left_pressed: false,
                    right_pressed: false,
                    middle_pressed: false,
                },
                modifiers: ModifiersState { shift: false, ctrl: false, alt: false, logo: false },
                osd_visible: true,
                cursor_visible: true,
                minimap_visible: false,
                last_draw: now,
                annotation_overlay: None,
                config_open: false,
                warning_text: None,
            }),
    {
        let zero: Number = Number { bits: number::ZERO };
        XpState {
            zoom: Number { bits: number::ONE },
            view_center: (zero, zero),
            mode: AppMode::Magnify,
            config,
            exit: false,
            pointer_pos: (zero, zero),
            pointer: PointerState::default(),
            modifiers: ModifiersState::default(),
            osd_visible: true,
            cursor_visible: true,
            minimap_visible: false,
            last_draw: now,
            annotation_overlay: None,
            config_open: false,
            warning_text: None,
        }
    }

    /// The state after a key that asks for an action.
    pub open spec fn after_action(self, action: Action, steps: KeySteps) -> XpState {
        match action {
            Action::Quit => XpState { exit: true, ..self },
            Action::ZoomIn => XpState { zoom: zoom_in_range(steps.zoom_in), ..self },
            Action::ZoomOut => XpState { zoom: zoom_in_range(steps.zoom_out), ..self },
            Action::ZoomReset => XpState { zoom: number::num(number::ONE), ..self },
            Action::PanLeft => XpState { view_center: (steps.left, self.view_center.1), ..self },
            Action::PanRight => XpState {
                view_center: (steps.right, self.view_center.1),
                ..self
            },
            Action::PanUp => XpState { view_center: (self.view_center.0, steps.up), ..self },
            Action::PanDown => XpState { view_center: (self.view_center.0, steps.down), ..self },
            Action::ToggleOsd => XpState { osd_visible: !self.osd_visible, ..self },
            Action::ToggleCursor => XpState { cursor_visible: !self.cursor_visible, ..self },
            Action::ToggleMinimap => XpState { minimap_visible: !self.minimap_visible, ..self },
            Action::ConfigWindow => XpState { config_open: !self.config_open, ..self },
            Action::ScreenshotStart => XpState { mode: AppMode::Capture, ..self },
            Action::ScreenshotConfirm | Action::ScreenshotCancel => XpState {
                mode: AppMode::Magnify,
                ..self
            },
            Action::AnnotationToggle => XpState {
                mode: if self.mode == AppMode::Annotation {
                    AppMode::Magnify
                } else {
                    AppMode::Annotation
                },
                ..self
            },
            _ => self,
        }
    }

    /// Takes a key press. The result says whether the window closes.
    pub fn press_key(&mut self, key: input::Key, steps: &KeySteps) -> (r: bool)
        ensures
            *final(self) == old(self).after_action(
                input::key_action(key, old(self).modifiers.ctrl),
                *steps,
            ),
            r == (input::key_action(key, old(self).modifiers.ctrl) == Action::Quit),
    {
        let action: Action = input::winit_key_to_action(key, &self.modifiers);
        match action {
            Action::Quit => {
                self.exit = true;
                return true;
            },
            Action::ZoomIn => {
                self.zoom = into_range(steps.zoom_in);
            },
            Action::ZoomOut => {
                self.zoom = into_range(steps.zoom_out);
            },
            Action::ZoomReset => {
                self.zoom = Number { bits: number::ONE };
            },
            Action::PanLeft => {
                self.view_center.0 = steps.left;
            },
            Action::PanRight => {
                self.view_center.0 = steps.right;
            },
            Action::PanUp => {
                self.view_center.1 = steps.up;
            },
            Action::PanDown => {
                self.view_center.1 = steps.down;
            },
            Action::ToggleOsd => {
                self.osd_visible = !self.osd_visible;
            },
            Action::ToggleCursor => {
                self.cursor_visible = !self.cursor_visible;
            },
            Action::ToggleMinimap => {
                self.minimap_visible = !self.minimap_visible;
            },
            Action::ConfigWindow => {
                self.config_open = !self.config_open;
            },
            Action::ScreenshotStart => {
                self.mode = AppMode::Capture;
            },
            Action::ScreenshotConfirm | Action::ScreenshotCancel => {
                self.mode = AppMode::Magnify;
            },
            Action::AnnotationToggle => {
                self.mode = if self.mode == AppMode::Annotation {
                    AppMode::Magnify
                } else {
                    AppMode::Annotation
                };
            },
            _ => {},
        }
        false
    }

    /// Takes note of the modifier keys.
    pub fn change_modifiers(&mut self, modifiers: ModifiersState)
        ensures
            *final(self) == (XpState { modifiers, ..*old(self) }),
    {
        self.modifiers = modifiers;
    }

    /// Whether a button press starts annotation mode.
    pub open spec fn starts_annotation(self, button: MouseButton, pressed: bool) -> bool {
        button == MouseButton::Left && pressed && self.mode == AppMode::Magnify
    }

    /// The state after a button of the pointer went down or up, but for the
    /// overlay.
    pub open spec fn after_button(self, button: MouseButton, pressed: bool) -> XpState {
        match button {
            MouseButton::Left => XpState {
                pointer: PointerState { left_pressed: pressed, ..self.pointer },
                mode: if self.starts_annotation(button, pressed) {
                    AppMode::Annotation
                } else {
                    self.mode
                },
                ..self
            },
            MouseButton::Right => XpState {
                pointer: PointerState { right_pressed: pressed, ..self.pointer },
                exit: self.exit || (pressed && self.mode == AppMode::Magnify),
                mode: if pressed {
                    AppMode::Magnify
                } else {
                    self.mode
                },
                ..self
            },
            MouseButton::Middle => XpState {
                pointer: PointerState { middle_pressed: pressed, ..self.pointer },
                ..self
            },
            MouseButton::Other => self,
        }
    }

    /// Takes a button of the pointer. The left one starts annotation mode with
    /// a clear overlay of the window's size, the right one leaves the other
    /// modes or closes the window. The result says whether the window closes.
    pub fn press_button(&mut self, button: MouseButton, pressed: bool, window: (u32, u32)) -> (r:
        bool)
        requires
            window.0 * window.1 * 4 <= u32::MAX,
        ensures
            *final(self) == (XpState {
                annotation_overlay: final(self).annotation_overlay,
                ..old(self).after_button(button, pressed)
            }),
            old(self).starts_annotation(button, pressed) ==> final(self).annotation_overlay is Some
                && sprites::shows(
                final(self).annotation_overlay->0,
                window.0,
                window.1,
                |x: int, y: int| (0u8, 0u8, 0u8, 0u8),
            ),
            !old(self).starts_annotation(button, pressed) ==> final(self).annotation_overlay == old(
                self).annotation_overlay,
            r == (button == MouseButton::Right && pressed && old(self).mode == AppMode::Magnify),
    {
        match button {
            MouseButton::Left => {
                self.pointer.left_pressed = pressed;
                if pressed && self.mode == AppMode::Magnify {
                    self.mode = AppMode::Annotation;
                    assert(0 <= window.0 * window.1);
                    let count: u32 = window.0 * window.1;
                    let clear: Vec<u8> = vec![0u8; (count * 4) as usize];
                    proof {
                        assert forall|x: int, y: int|
                            pixels::inside(
                                window.0 as int,
                                window.1 as int,
                                x,
                                y,
                            ) implies #[trigger] pixels::px_at(clear@, window.0 as int, x, y) == (
                            0u8,
                            0u8,
                            0u8,
                            0u8,
                        ) by {
                            pixels::lemma_inside(window.0 as int, window.1 as int, x, y);
                        }
                    }
                    self.annotation_overlay = Some((clear, window.0, window.1));
                }
                false
            },
            MouseButton::Right => {
                self.pointer.right_pressed = pressed;
                if pressed {
                    if self.mode == AppMode::Magnify {
                        self.exit = true;
                        return true;
                    }
                    self.mode = AppMode::Magnify;
                }
                false
            },
            MouseButton::Middle => {
                self.pointer.middle_pressed = pressed;
                false
            },
            MouseButton::Other => false,
        }
    }

    /// Takes a motion of the pointer. The result is the stroke to draw: from
    /// where the pointer was to where it is, in annotation mode with the left
    /// button held.
    pub fn move_pointer(&mut self, to: Point) -> (r: Option<(Point, Point)>)
        ensures
            *final(self) == (XpState { pointer_pos: to, ..*old(self) }),
            r == (if old(self).mode == AppMode::Annotation && old(self).pointer.left_pressed {
                Some((old(self).pointer_pos, to))
            } else {
                None
            }),
    {
        let from: Point = self.pointer_pos;
        self.pointer_pos = to;
        if self.mode == AppMode::Annotation && self.pointer.left_pressed {
            Some((from, to))
        } else {
            None
        }
    }

    /// Zooms, as far as the limits allow. The result is the zoom before.
    pub fn zoom_to(&mut self, wanted: Number) -> (r: Number)
        ensures
            *final(self) == (XpState { zoom: zoom_in_range(wanted), ..*old(self) }),
            r == old(self).zoom,
    {
        let before: Number = self.zoom;
        self.zoom = into_range(wanted);
        before
    }

    /// Moves the view.
    pub fn center_on(&mut self, center: Point)
        ensures
            *final(self) == (XpState { view_center: center, ..*old(self) }),
    {
        self.view_center = center;
    }

    /// Whether it is time to draw again.
    pub fn redraw_due(&self, now: u64) -> (r: bool)
        ensures
            r == (timing::elapsed(self.last_draw, now) >= REDRAW_INTERVAL),
    {
        timing::time_since(self.last_draw, now) >= REDRAW_INTERVAL
    }

    /// Takes note of a redraw.
    pub fn drawn(&mut self, now: u64)
        ensures
            *final(self) == (XpState { last_draw: now, ..*old(self) }),
    {
        self.last_draw = now;
    }

    /// The layers of the next frame.
    pub open spec fn shown_layers(self) -> Layers {
        Layers {
            overlay: if self.mode == AppMode::Capture {
                Overlay::Shot
            } else if self.mode == AppMode::Annotation && self.annotation_overlay is Some {
                Overlay::Strokes
            } else {
                Overlay::Clear
            },
            pointer: if self.mode == AppMode::Annotation {
                PointerLook::Inverting
            } else if self.cursor_visible {
                PointerLook::Magnified
            } else {
                PointerLook::Hidden
            },
            minimap: self.minimap_visible,
            osd: self.osd_visible || self.config_open,
        }
    }

    pub fn layers(&self) -> (r: Layers)
        ensures
            r == self.shown_layers(),
    {
        let overlay: Overlay = if self.mode == AppMode::Capture {
            Overlay::Shot
        } else if self.mode == AppMode::Annotation && self.annotation_overlay.is_some() {
            Overlay::Strokes
        } else {
            Overlay::Clear
        };
        let pointer: PointerLook = if self.mode == AppMode::Annotation {
            PointerLook::Inverting
        } else if self.cursor_visible {
            PointerLook::Magnified
        } else {
            PointerLook::Hidden
        };
        Layers {
            overlay,
            pointer,
            minimap: self.minimap_visible,
            osd: self.osd_visible || self.config_open,
        }
    }
}

/// Every switch undoes itself: the legend, the pointer, the minimap and the
/// settings. So does the annotation key, unless a screenshot is being taken.
pub proof fn switches_undo_themselves(s: XpState, action: Action, steps: KeySteps)
    requires
        action == Action::ToggleOsd || action == Action::ToggleCursor || action
            == Action::ToggleMinimap || action == Action::ConfigWindow || (action
            == Action::AnnotationToggle && s.mode != AppMode::Capture),
    ensures
        s.after_action(action, steps).after_action(action, steps) == s,
{
}

/// The right button always leads out: after two presses the window closes.
pub proof fn right_button_leads_out(s: XpState)
    ensures
        s.after_button(MouseButton::Right, true).after_button(MouseButton::Right, true).exit,
{
}

/// The lines of the legend. The numbers come as text.
pub open spec fn legend_texts(
    config_open: bool,
    zoom: Seq<char>,
    x: Seq<char>,
    y: Seq<char>,
    mode: AppMode,
) -> Seq<Seq<char>> {
    seq![
        "Maggie Cross-Platform"@,
        "Zoom: "@ + zoom + "x  Center: ("@ + x + ","@ + y + ")"@,
        "Mode: "@ + mode.spoken(),
        "Scroll: zoom  |  Arrows: pan"@,
        "F1/F5: OSD  |  F2: cursor  |  F3: minimap"@,
        "F4: config  |  LMB: annotation  |  RMB: quit"@,
        "Esc/Q: quit  |  S: screenshot  |  +/-: zoom"@,
    ] + if config_open {
        seq![
            ""@,
            "═══ Configuration ═══"@,
            "Zoom: Scroll wheel or +/- keys"@,
            "Pan: Arrow keys or mouse drag"@,
            "Screenshot: S key, Esc to cancel"@,
            "Annotation: LMB to draw, RMB to exit"@,
            "Minimap: F3 to toggle"@,
        ]
    } else {
        Seq::empty()
    }
}

/// The lines of the legend.
pub fn osd_lines(config_open: bool, zoom: &str, x: &str, y: &str, mode: AppMode) -> (r: Vec<String>)
    ensures
        text::texts(r@) == legend_texts(config_open, zoom@, x@, y@, mode),
{
    let mut place: String = text::joined("Zoom: ", zoom);
    place.append("x  Center: (");
    place.append(x);
    place.append(",");
    place.append(y);
    place.append(")");
    let mut lines: Vec<String> = Vec::new();
    lines.push("Maggie Cross-Platform".to_owned());
    lines.push(place);
    lines.push(text::joined("Mode: ", mode.name()));
    lines.push("Scroll: zoom  |  Arrows: pan".to_owned());
    lines.push("F1/F5: OSD  |  F2: cursor  |  F3: minimap".to_owned());
    lines.push("F4: config  |  LMB: annotation  |  RMB: quit".to_owned());
    lines.push("Esc/Q: quit  |  S: screenshot  |  +/-: zoom".to_owned());
    if config_open {
        lines.push("".to_owned());
        lines.push("═══ Configuration ═══".to_owned());
        lines.push("Zoom: Scroll wheel or +/- keys".to_owned());
        lines.push("Pan: Arrow keys or mouse drag".to_owned());
        lines.push("Screenshot: S key, Esc to cancel".to_owned());
        lines.push("Annotation: LMB to draw, RMB to exit".to_owned());
        lines.push("Minimap: F3 to toggle".to_owned());
    }
    assert(text::texts(lines@) =~= legend_texts(config_open, zoom@, x@, y@, mode));
    lines
}

/// Longest text of a number in the legend.
pub const LONGEST_NUMBER: usize = 1000;

proof fn lemma_legend_fits(
    lines: Seq<String>,
    config_open: bool,
    zoom: Seq<char>,
    x: Seq<char>,
    y: Seq<char>,
    mode: AppMode,
)
    requires
        text::texts(lines) == legend_texts(config_open, zoom, x, y, mode),
        zoom.len() <= LONGEST_NUMBER,
        x.len() <= LONGEST_NUMBER,
        y.len() <= LONGEST_NUMBER,
    ensures
        osd::lines_fit(lines),
        7 <= lines.len() <= 14,
{
    reveal_strlit("Maggie Cross-Platform");
    reveal_strlit("Zoom: ");
    reveal_strlit("x  Center: (");
    reveal_strlit(",");
    reveal_strlit(")");
    reveal_strlit("Mode: ");
    reveal_strlit("Magnify");
    reveal_strlit("Annotation");
    reveal_strlit("Capture");
    reveal_strlit("Scroll: zoom  |  Arrows: pan");
    reveal_strlit("F1/F5: OSD  |  F2: cursor  |  F3: minimap");
    reveal_strlit("F4: config  |  LMB: annotation  |  RMB: quit");
    reveal_strlit("Esc/Q: quit  |  S: screenshot  |  +/-: zoom");
    reveal_strlit("");
    reveal_strlit("═══ Configuration ═══");
    reveal_strlit("Zoom: Scroll wheel or +/- keys");
    reveal_strlit("Pan: Arrow keys or mouse drag");
    reveal_strlit("Screenshot: S key, Esc to cancel");
    reveal_strlit("Annotation: LMB to draw, RMB to exit");
    reveal_strlit("Minimap: F3 to toggle");
    let all = legend_texts(config_open, zoom, x, y, mode);
    assert(lines.len() == text::texts(lines).len());
    assert forall|i: int| 0 <= i < lines.len() implies (#[trigger] lines[i])@.len() <= 3100 by {
        assert(lines[i]@ == text::texts(lines)[i]);
        assert(all[i].len() <= 3100);
    }
    lemma_longest(lines, 3100);
    let w = osd::box_width(lines);
    let h = osd::box_height(lines);
    assert(w * h * 4 <= i32::MAX) by (nonlinear_arith)
        requires
            0 <= w <= 40000,
            0 <= h <= 300,
    ;
}

proof fn lemma_longest(lines: Seq<String>, n: int)
    requires
        0 <= n,
        forall|i: int| 0 <= i < lines.len() ==> (#[trigger] lines[i])@.len() <= n,
    ensures
        0 <= osd::longest(lines) <= n,
    decreases lines.len(),
{
    if lines.len() > 0 {
        assert forall|i: int| 0 <= i < lines.drop_last().len() implies (
        #[trigger] lines.drop_last()[i])@.len() <= n by {
            assert(lines.drop_last()[i] == lines[i]);
        }
        lemma_longest(lines.drop_last(), n);
    }
}

/// The legend as a picture, for the top left corner.
pub fn build_osd_sprite(config_open: bool, zoom: &str, x: &str, y: &str, mode: AppMode) -> (r:
    Picture)
    requires
        zoom@.len() <= LONGEST_NUMBER,
        x@.len() <= LONGEST_NUMBER,
        y@.len() <= LONGEST_NUMBER,
    ensures
        exists|lines: Seq<String>|
            text::texts(lines) == legend_texts(config_open, zoom@, x@, y@, mode)
                && #[trigger] shows_legend(r, lines),
{
    let lines: Vec<String> = osd_lines(config_open, zoom, x, y, mode);
    proof {
        lemma_legend_fits(lines@, config_open, zoom@, x@, y@, mode);
    }
    match osd::build_corner_sprite(
        lines.as_slice(),
        [osd::TEXT_LEVEL, osd::TEXT_LEVEL, osd::TEXT_LEVEL],
        Corner::TopLeft,
        800,
        600,
    ) {
        Some(sprite) => {
            let ghost before = sprite;
            let r: Picture = (sprite.buffer.data, sprite.width as u32, sprite.height as u32);
            proof {
                assert forall|px: int, py: int|
                    pixels::inside(r.1 as int, r.2 as int, px, py) implies #[trigger] pixels::px_at(
                    r.0@,
                    r.1 as int,
                    px,
                    py,
                ) == osd::legend_px(lines@, osd::legend_color(), px, py) by {
                    assert(before.buffer.has(px, py));
                    assert(before.buffer.at(px, py) == osd::legend_px(
                        lines@,
                        osd::legend_color(),
                        px,
                        py,
                    ));
                }
                assert(shows_legend(r, lines@));
            }
            r
        },
        None => (Vec::new(), 0, 0),
    }
}

/// Whether a picture shows some lines as the legend does.
pub open spec fn shows_legend(r: Picture, lines: Seq<String>) -> bool {
    sprites::shows(
        r,
        osd::box_width(lines) as u32,
        osd::box_height(lines) as u32,
        |x: int, y: int| osd::legend_px(lines, osd::legend_color(), x, y),
    )
}

/// An operating system.
#[derive(Clone, Copy, Debug, PartialEq, Eq, Structural)]
pub enum Platform {
    Linux,
    Macos,
    Windows,
    Other,
}

/// Which of the programs that screen capture needs are there.
#[derive(Clone, Copy, Debug, PartialEq, Eq, Structural)]
pub struct Programs {
    pub pipewire: bool,
    pub portal: bool,
    /// Any of the portal's backends.
    pub portal_backend: bool,
}

/// What is said of missing programs.
pub open spec fn missing_texts(programs: Programs) -> Seq<Seq<char>> {
    (if programs.pipewire {
        Seq::empty()
    } else {
        seq!["Missing: pipewire daemon"@, "Install: pipewire pipewire-pulse"@]
    }) + (if programs.portal {
        Seq::empty()
    } else {
        seq!["Missing: xdg-desktop-portal"@, "Install: xdg-desktop-portal"@]
    }) + (if programs.portal_backend {
        Seq::empty()
    } else {
        seq![
            "Missing: xdg-desktop-portal backend"@,
            "Install: xdg-desktop-portal-gnome (or -kde/-wlr/-hyprland)"@,
        ]
    })
}

/// Whether nothing is missing. Only on Linux are programs needed.
pub open spec fn complete(platform: Platform, programs: Programs) -> bool {
    platform != Platform::Linux || (programs.pipewire && programs.portal
        && programs.portal_backend)
}

/// Checks what screen capture needs, and says what is missing.
pub fn check_platform_requirements(platform: Platform, programs: Programs) -> (r: Result<
    (),
    Vec<String>,
>)
    ensures
        r is Ok == complete(platform, programs),
        r is Err ==> text::texts(r->Err_0@) == seq!["=== Requirements Missing ==="@]
            + missing_texts(programs) + seq![
            ""@,
            "Maggie will start in demo mode."@,
            "Press Esc/Q to quit."@,
        ],
{
    if platform != Platform::Linux || (programs.pipewire && programs.portal
        && programs.portal_backend) {
        return Ok(());
    }
    let mut lines: Vec<String> = Vec::new();
    lines.push("=== Requirements Missing ===".to_owned());
    if !programs.pipewire {
        lines.push("Missing: pipewire daemon".to_owned());
        lines.push("Install: pipewire pipewire-pulse".to_owned());
    }
    if !programs.portal {
        lines.push("Missing: xdg-desktop-portal".to_owned());
        lines.push("Install: xdg-desktop-portal".to_owned());
    }
    if !programs.portal_backend {
        lines.push("Missing: xdg-desktop-portal backend".to_owned());
        lines.push("Install: xdg-desktop-portal-gnome (or -kde/-wlr/-hyprland)".to_owned());
    }
    lines.push("".to_owned());
    lines.push("Maggie will start in demo mode.".to_owned());
    lines.push("Press Esc/Q to quit.".to_owned());
    assert(text::texts(lines@) =~= seq!["=== Requirements Missing ==="@] + missing_texts(programs)
        + seq![""@, "Maggie will start in demo mode."@, "Press Esc/Q to quit."@]);
    Err(lines)
}

/// What is said of a failed capture on a platform.
pub open spec fn advice(platform: Platform, error: Seq<char>) -> Seq<Seq<char>> {
    match platform {
        Platform::Linux => seq![
            "=== Warning ==="@,
            "Screen capture failed on Linux."@,
            ""@,
            "Maggie needs these for screen capture:"@,
            "  - pipewire"@,
            "  - xdg-desktop-portal"@,
            "  - a portal backend (gnome/kde/wlr)"@,
            ""@,
            "Or use the native Wayland binary: maggie"@,
        ],
        Platform::Macos => seq![
            "=== Warning ==="@,
            "Screen capture failed on macOS."@,
            ""@,
            "Grant Screen Recording permission:"@,
            "System Settings > Privacy & Security"@,
            "> Screen Recording > add Maggie"@,
            ""@,
            "Then restart Maggie."@,
        ],
        Platform::Windows => seq![
            "=== Warning ==="@,
            "Screen capture failed on Windows."@,
            ""@,
            "DXGI Desktop Duplication requires:"@,
            "  - A compatible GPU"@,
            "  - A running desktop session"@,
        ],
        Platform::Other => seq!["=== Warning ==="@, "Error: "@ + error],
    }
}

/// Whether one of some lines holds a text.
pub open spec fn mentioned(lines: Seq<Seq<char>>, part: Seq<char>) -> bool {
    exists|i: int| 0 <= i < lines.len() && text::occurs(#[trigger] lines[i], part)
}

/// The whole warning: the advice, the error unless it is empty or mentioned
/// already, and how to go on.
pub open spec fn warning_texts(platform: Platform, error: Seq<char>) -> Seq<Seq<char>> {
    advice(platform, error) + (if error.len() > 0 && !mentioned(advice(platform, error), error) {
        seq![""@, "Details: "@ + error]
    } else {
        Seq::empty()
    }) + seq![""@, "Starting in demo mode."@, "Press Esc/Q to quit."@]
}

fn advice_lines(platform: Platform, error: &str) -> (lines: Vec<String>)
    ensures
        text::texts(lines@) == advice(platform, error@),
{
    let mut lines: Vec<String> = Vec::new();
    lines.push("=== Warning ===".to_owned());
    match platform {
        Platform::Linux => {
            lines.push("Screen capture failed on Linux.".to_owned());
            lines.push("".to_owned());
            lines.push("Maggie needs these for screen capture:".to_owned());
            lines.push("  - pipewire".to_owned());
            lines.push("  - xdg-desktop-portal".to_owned());
            lines.push("  - a portal backend (gnome/kde/wlr)".to_owned());
            lines.push("".to_owned());
            lines.push("Or use the native Wayland binary: maggie".to_owned());
        },
        Platform::Macos => {
            lines.push("Screen capture failed on macOS.".to_owned());
            lines.push("".to_owned());
            lines.push("Grant Screen Recording permission:".to_owned());
            lines.push("System Settings > Privacy & Security".to_owned());
            lines.push("> Screen Recording > add Maggie".to_owned());
            lines.push("".to_owned());
            lines.push("Then restart Maggie.".to_owned());
        },
        Platform::Windows => {
            lines.push("Screen capture failed on Windows.".to_owned());
            lines.push("".to_owned());
            lines.push("DXGI Desktop Duplication requires:".to_owned());
            lines.push("  - A compatible GPU".to_owned());
            lines.push("  - A running desktop session".to_owned());
        },
        Platform::Other => {
            lines.push(text::joined("Error: ", error));
        },
    }
    assert(text::texts(lines@) =~= advice(platform, error@));
    lines
}

fn mentions(lines: &Vec<String>, part: &str) -> (r: bool)
    ensures
        r == mentioned(text::texts(lines@), part@),
{
    let mut i: usize = 0;
    while i < lines.len()
        invariant
            i <= lines@.len(),
            forall|k: int| 0 <= k < i ==> !text::occurs(#[trigger] text::texts(lines@)[k], part@),
        decreases lines.len() - i,
    {
        assert(text::texts(lines@)[i as int] == lines@[i as int]@);
        if text::contains_text(lines[i].as_str(), part) {
            return true;
        }
        i += 1;
    }
    false
}

/// The lines to show when the screen could not be captured.
pub fn build_platform_warning(platform: Platform, error: &str) -> (r: Vec<String>)
    ensures
        text::texts(r@) == warning_texts(platform, error@),
{
    let mut lines: Vec<String> = advice_lines(platform, error);
    let ghost start = text::texts(lines@);
    if error.unicode_len() > 0 && !mentions(&lines, error) {
        lines.push("".to_owned());
        lines.push(text::joined("Details: ", error));
        assert(text::texts(lines@) =~= start + seq![""@, "Details: "@ + error@]);
    }
    let ghost middle = text::texts(lines@);
    lines.push("".to_owned());
    lines.push("Starting in demo mode.".to_owned());
    lines.push("Press Esc/Q to quit.".to_owned());
    assert(text::texts(lines@) =~= middle + seq![
        ""@,
        "Starting in demo mode."@,
        "Press Esc/Q to quit."@,
    ]);
    assert(start + Seq::<Seq<char>>::empty() =~= start);
    lines
}

/// The warning that the tests of the warning itself show.
pub open spec fn test_warning() -> Seq<Seq<char>> {
    seq![
        "=== Test Warning ==="@,
        "This is a test of the warning popup."@,
        ""@,
        "Platform requirements check works."@,
        "Press Esc/Q to quit."@,
    ]
}

/// The warning to start with: the test warning if it is asked for, else what is
/// missing, else what a failed capture means.
pub fn opening_warning(
    missing: Result<(), Vec<String>>,
    failure: Option<String>,
    platform: Platform,
    test: bool,
) -> (r: Option<Vec<String>>)
    ensures
        match r {
            Some(lines) => {
                &&& test || missing is Err || failure is Some
                &&& text::texts(lines@) == (if test {
                    test_warning()
                } else if missing is Err {
                    text::texts(missing->Err_0@)
                } else {
                    warning_texts(platform, failure->0@)
                })
            },
            None => !test && missing is Ok && failure is None,
        },
{
    if test {
        let mut lines: Vec<String> = Vec::new();
        lines.push("=== Test Warning ===".to_owned());
        lines.push("This is a test of the warning popup.".to_owned());
        lines.push("".to_owned());
        lines.push("Platform requirements check works.".to_owned());
        lines.push("Press Esc/Q to quit.".to_owned());
        assert(text::texts(lines@) =~= test_warning());
        return Some(lines);
    }
    match missing {
        Err(lines) => Some(lines),
        Ok(()) => match failure {
            Some(error) => Some(build_platform_warning(platform, error.as_str())),
            None => None,
        },
    }
}

/// The keys do what they ask for, in the window's own state: zoom within its
/// limits, one axis of the view, one switch, or the mode, and nothing else.
pub proof fn actions_change_one_thing(s: XpState, steps: KeySteps)
    ensures
        ({
            let after = |a: Action| s.after_action(a, steps);
            let least = number::num(0x3FB9_9999_9999_999A);
            let most = number::num(0x4034_0000_0000_0000);
            &&& after(Action::Quit) == (XpState { exit: true, ..s })
            &&& least.at_most(steps.zoom_in) && steps.zoom_in.at_most(most) ==> after(
                Action::ZoomIn,
            ) == (XpState { zoom: steps.zoom_in, ..s })
            &&& least.at_most(steps.zoom_out) && steps.zoom_out.at_most(most) ==> after(
                Action::ZoomOut,
            ) == (XpState { zoom: steps.zoom_out, ..s })
            &&& most.below(steps.zoom_in) ==> after(Action::ZoomIn).zoom == most
            &&& steps.zoom_out.below(least) ==> after(Action::ZoomOut).zoom == least
            &&& after(Action::ZoomReset) == (XpState {
                zoom: number::num(0x3FF0_0000_0000_0000),
                ..s
            })
            &&& after(Action::PanLeft) == (XpState {
                view_center: (steps.left, s.view_center.1),
                ..s
            })
            &&& after(Action::PanRight) == (XpState {
                view_center: (steps.right, s.view_center.1),
                ..s
            })
            &&& after(Action::PanUp) == (XpState { view_center: (s.view_center.0, steps.up), ..s })
            &&& after(Action::PanDown) == (XpState {
                view_center: (s.view_center.0, steps.down),
                ..s
            })
            &&& after(Action::ToggleOsd).osd_visible == !s.osd_visible
            &&& after(Action::ToggleCursor).cursor_visible == !s.cursor_visible
            &&& after(Action::ToggleMinimap).minimap_visible == !s.minimap_visible
            &&& after(Action::ConfigWindow).config_open == !s.config_open
            &&& after(Action::ScreenshotStart).mode == AppMode::Capture
            &&& after(Action::ScreenshotConfirm).mode == AppMode::Magnify
            &&& after(Action::ScreenshotCancel).mode == AppMode::Magnify
            &&& s.mode == AppMode::Annotation ==> after(Action::AnnotationToggle).mode
                == AppMode::Magnify
            &&& s.mode != AppMode::Annotation ==> after(Action::AnnotationToggle).mode
                == AppMode::Annotation
            &&& after(Action::Nothing) == s
            &&& after(Action::Undo) == s
            &&& after(Action::Redo) == s
            &&& after(Action::CaptureToggle) == s
        }),
{
}

/// No key but those for the window's end closes it, and each leaves the zoom, the
/// view and the switches that it is not for alone.
pub proof fn actions_leave_the_rest_alone(s: XpState, a: Action, steps: KeySteps)
    ensures
        ({
            let r = s.after_action(a, steps);
            &&& a != Action::Quit ==> r.exit == s.exit
            &&& a != Action::ZoomIn && a != Action::ZoomOut && a != Action::ZoomReset ==> r.zoom
                == s.zoom
            &&& a != Action::PanLeft && a != Action::PanRight && a != Action::PanUp && a
                != Action::PanDown ==> r.view_center == s.view_center
            &&& a != Action::ToggleOsd ==> r.osd_visible == s.osd_visible
            &&& a != Action::ToggleCursor ==> r.cursor_visible == s.cursor_visible
            &&& a != Action::ToggleMinimap ==> r.minimap_visible == s.minimap_visible
            &&& a != Action::ConfigWindow ==> r.config_open == s.config_open
            &&& a != Action::ScreenshotStart && a != Action::ScreenshotConfirm && a
                != Action::ScreenshotCancel && a != Action::AnnotationToggle ==> r.mode == s.mode
            &&& r.pointer == s.pointer && r.pointer_pos == s.pointer_pos && r.modifiers
                == s.modifiers && r.config == s.config && r.warning_text == s.warning_text
                && r.annotation_overlay == s.annotation_overlay && r.last_draw == s.last_draw
        }),
{
}

/// A button is held from its press to its release. The left one starts
/// annotation mode, the right one ends the other modes, or closes the window.
pub proof fn buttons_start_and_end_modes(s: XpState, pressed: bool)
    ensures
        ({
            let left = s.after_button(MouseButton::Left, pressed);
            let right = s.after_button(MouseButton::Right, pressed);
            let middle = s.after_button(MouseButton::Middle, pressed);
            &&& left.pointer.left_pressed == pressed && left.pointer.right_pressed
                == s.pointer.right_pressed
            &&& pressed && s.mode == AppMode::Magnify ==> left.mode == AppMode::Annotation
            &&& !(pressed && s.mode == AppMode::Magnify) ==> left.mode == s.mode
            &&& left.exit == s.exit
            &&& right.pointer.right_pressed == pressed && right.pointer.left_pressed
                == s.pointer.left_pressed
            &&& pressed && s.mode == AppMode::Magnify ==> right.exit
            &&& pressed && s.mode != AppMode::Magnify ==> right.exit == s.exit
            &&& pressed ==> right.mode == AppMode::Magnify
            &&& !pressed ==> right.mode == s.mode && right.exit == s.exit
            &&& middle.pointer.middle_pressed == pressed && middle.mode == s.mode && middle.exit
                == s.exit
            &&& s.after_button(MouseButton::Other, pressed) == s
            &&& s.starts_annotation(MouseButton::Left, pressed) <==> pressed && s.mode
                == AppMode::Magnify
            &&& !s.starts_annotation(MouseButton::Right, pressed)
        }),
{
}

/// A frame shows the mode's overlay and pointer, and what is switched on.
pub proof fn frames_show_the_mode(s: XpState)
    ensures
        ({
            let l = s.shown_layers();
            &&& s.mode == AppMode::Capture ==> l.overlay == Overlay::Shot
            &&& s.mode == AppMode::Annotation && s.annotation_overlay is Some ==> l.overlay
                == Overlay::Strokes
            &&& s.mode == AppMode::Annotation && s.annotation_overlay is None ==> l.overlay
                == Overlay::Clear
            &&& s.mode == AppMode::Magnify ==> l.overlay == Overlay::Clear
            &&& s.mode == AppMode::Annotation ==> l.pointer == PointerLook::Inverting
            &&& s.mode != AppMode::Annotation && s.cursor_visible ==> l.pointer
                == PointerLook::Magnified
            &&& s.mode != AppMode::Annotation && !s.cursor_visible ==> l.pointer
                == PointerLook::Hidden
            &&& l.minimap == s.minimap_visible
            &&& l.osd <==> s.osd_visible || s.config_open
        }),
{
}

/// The zoom of the window lies from a tenth to twenty; what is within stays.
pub proof fn window_zoom_is_kept_in_range(zoom: Number)
    ensures
        ({
            let least = number::num(0x3FB9_9999_9999_999A);
            let most = number::num(0x4034_0000_0000_0000);
            &&& least.at_most(zoom) && zoom.at_most(most) ==> zoom_in_range(zoom) == zoom
            &&& zoom.below(least) ==> zoom_in_range(zoom) == least
            &&& most.below(zoom) ==> zoom_in_range(zoom) == most
        }),
{
}

/// The legend of the window begins with the program, then the numbers and the
/// mode; the settings add their own lines.
pub proof fn window_legend_tells_zoom_and_mode(
    config_open: bool,
    zoom: Seq<char>,
    x: Seq<char>,
    y: Seq<char>,
    mode: AppMode,
)
    ensures
        ({
            let lines = legend_texts(config_open, zoom, x, y, mode);
            &&& lines.len() == if config_open {
                14int
            } else {
                7
            }
            &&& lines[0] == "Maggie Cross-Platform"@
            &&& lines[1] == "Zoom: "@ + zoom + "x  Center: ("@ + x + ","@ + y + ")"@
            &&& mode == AppMode::Magnify ==> lines[2] == "Mode: "@ + "Magnify"@
            &&& mode == AppMode::Annotation ==> lines[2] == "Mode: "@ + "Annotation"@
            &&& mode == AppMode::Capture ==> lines[2] == "Mode: "@ + "Capture"@
            &&& lines[3] == "Scroll: zoom  |  Arrows: pan"@
            &&& lines[4] == "F1/F5: OSD  |  F2: cursor  |  F3: minimap"@
            &&& lines[5] == "F4: config  |  LMB: annotation  |  RMB: quit"@
            &&& lines[6] == "Esc/Q: quit  |  S: screenshot  |  +/-: zoom"@
            &&& config_open ==> lines[9] == "Zoom: Scroll wheel or +/- keys"@
            &&& config_open ==> lines[10] == "Pan: Arrow keys or mouse drag"@
            &&& config_open ==> lines[11] == "Screenshot: S key, Esc to cancel"@
            &&& config_open ==> lines[12] == "Annotation: LMB to draw, RMB to exit"@
            &&& config_open ==> lines[13] == "Minimap: F3 to toggle"@
        }),
{
}

/// Programs are needed on Linux only, and there all of them are; each that is
/// missing is named, in this order, and no other.
pub proof fn missing_programs_are_named(platform: Platform, p: Programs)
    ensures
        complete(platform, p) <==> platform != Platform::Linux || (p.pipewire && p.portal
            && p.portal_backend),
        ({
            let lines = missing_texts(p);
            let k = if p.pipewire {
                0int
            } else {
                2
            };
            let j = k + if p.portal {
                0int
            } else {
                2
            };
            &&& lines.len() == j + if p.portal_backend {
                0int
            } else {
                2
            }
            &&& !p.pipewire ==> lines[0] == "Missing: pipewire daemon"@ && lines[1]
                == "Install: pipewire pipewire-pulse"@
            &&& !p.portal ==> lines[k] == "Missing: xdg-desktop-portal"@ && lines[k + 1]
                == "Install: xdg-desktop-portal"@
            &&& !p.portal_backend ==> lines[j] == "Missing: xdg-desktop-portal backend"@
        }),
{
}

/// A warning begins with the advice for the platform and ends with how to go on;
/// between them stands the error, unless it is empty or said already.
pub proof fn warnings_tell_the_error(platform: Platform, error: Seq<char>)
    ensures
        ({
            let lines = warning_texts(platform, error);
            let given = advice(platform, error);
            let n = lines.len() as int;
            let said = mentioned(given, error);
            &&& lines.take(given.len() as int) == given
            &&& lines[0] == "=== Warning ==="@
            &&& lines[n - 2] == "Starting in demo mode."@
            &&& lines[n - 1] == "Press Esc/Q to quit."@
            &&& error.len() > 0 && !said ==> n == given.len() + 5 && lines[given.len() as int + 1]
                == "Details: "@ + error
            &&& error.len() == 0 || said ==> n == given.len() + 3
            &&& platform == Platform::Linux ==> lines[1] == "Screen capture failed on Linux."@
            &&& platform == Platform::Macos ==> lines[1] == "Screen capture failed on macOS."@
            &&& platform == Platform::Windows ==> lines[1] == "Screen capture failed on Windows."@
            &&& platform == Platform::Other ==> lines[1] == "Error: "@ + error
        }),
{
    let given = advice(platform, error);
    assert(warning_texts(platform, error).take(given.len() as int) =~= given);
}

/// The warning that tests the warning.
pub proof fn test_warning_says_that_it_is_one()
    ensures
        test_warning() == seq![
            "=== Test Warning ==="@,
            "This is a test of the warning popup."@,
            ""@,
            "Platform requirements check works."@,
            "Press Esc/Q to quit."@,
        ],
{
}

/// An error is mentioned where a line holds it, and not where there is no line.
pub proof fn errors_are_mentioned_by_lines(lines: Seq<Seq<char>>, part: Seq<char>, i: int)
    ensures
        0 <= i < lines.len() && lines[i] == part ==> mentioned(lines, part),
        lines.len() == 0 ==> !mentioned(lines, part),
        (forall|j: int| 0 <= j < lines.len() ==> (#[trigger] lines[j]).len() < part.len())
            ==> !mentioned(lines, part),
{
    if 0 <= i < lines.len() && lines[i] == part {
        text::parts_occur_in_what_holds_them(Seq::empty(), part, Seq::empty());
        assert(Seq::<char>::empty() + part + Seq::<char>::empty() =~= part);
        assert(text::occurs(lines[i], part));
    }
    if forall|j: int| 0 <= j < lines.len() ==> (#[trigger] lines[j]).len() < part.len() {
        assert forall|j: int| 0 <= j < lines.len() implies !text::occurs(
            #[trigger] lines[j],
            part,
        ) by {
            text::parts_occur_in_what_holds_them(lines[j], part, Seq::empty());
        }
    }
}

} // verus!
