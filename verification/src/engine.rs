//! The magnifier as a whole: what keys, buttons, motion and frames do to it.
//!
//! A [`Session`] holds everything that the decisions depend on. Numbers that
//! take arithmetic (a product with the zoom, a distance) are handed in.

use crate::config::ScreenshotScale;
use crate::keys;
use crate::keys::BoundAction;
use crate::number;
use crate::number::Number;
use crate::screenshot;
use crate::screenshot_mode;
use crate::screenshot_mode::{Frame, ScreenshotMode, ShotKey};
use crate::state;
use crate::state::MagnifierState;
use crate::timing;
use crate::timing::Timers;
use crate::view;
use crate::view::Point;
use vstd::prelude::*;

verus! {

/// Zooming by motion while a key is held.
#[derive(Clone, Copy, Debug, PartialEq, Eq, Structural)]
pub struct HoldToZoom {
    pub active: bool,
    /// The height of the pointer at the last motion.
    pub last_y: Number,
    /// The upward travel that was ignored at the smallest zoom.
    pub dead_travel: Number,
}

/// Everything that decisions depend on.
#[derive(Debug)]
pub struct Session {
    pub state: MagnifierState,
    pub shot: ScreenshotMode,
    pub timers: Timers,
    /// The size of the captured frame.
    pub frame: Frame,
    pub exit: bool,
    /// Whether the settings are shown in place of the magnifier.
    pub config_open: bool,
    pub minimap_visible: bool,
    pub pointer_seen: bool,
    /// The pointer, in pixels of the screen.
    pub pointer: Point,
    /// The middle of the view, in capture pixels.
    pub view_center: Option<Point>,
    /// Whether the view was centred on the pointer at launch.
    pub launch_centered: bool,
    pub launch_position: Option<Point>,
    /// Where a pointer image may have been captured with the frame.
    pub cursor_bake: Option<Point>,
    pub hold: HoldToZoom,
    /// For each axis the end that the view is held at.
    pub edge_hold: (Option<bool>, Option<bool>),
    pub shift_held: bool,
    /// Slowed motion that has not moved the view yet.
    pub pan_accum: Point,
    /// A message, and when it was set.
    pub notice: Option<(String, u64)>,
}

/// What a key press needs beside the key.
#[derive(Clone, Copy, Debug)]
pub struct KeyMeasures {
    /// The zoom at which the whole screen is shown.
    pub fit: Number,
    /// The largest zoom times the digit over nine, for a digit key.
    pub level: Number,
    /// The pointer in capture pixels.
    pub pointer_capture: Point,
    /// The size of the captured frame as numbers.
    pub bounds: Point,
    /// Where the magnified pointer is relative to the pointer.
    pub anchor: Option<Point>,
    /// The capture position under the magnified pointer, in subpixels.
    pub aim: (i64, i64),
    pub now: u64,
}

impl KeyMeasures {
    pub open spec fn wf(self) -> bool {
        &&& number::num(number::ZERO).at_most(self.fit)
        &&& self.fit.at_most(number::num(number::ONE))
        &&& view::valid_bounds(self.bounds)
        &&& self.now + timing::NUDGE_REPEAT_DELAY <= u64::MAX
    }
}

/// What is left to do after a key press.
#[derive(Clone, Copy, Debug, PartialEq, Eq, Structural)]
pub struct KeyEffect {
    /// Hand the key to the settings.
    pub forward: bool,
    /// Draw.
    pub redraw: bool,
    /// Show the settings.
    pub open_config: bool,
    /// Save the selection.
    pub save: bool,
}

impl KeyEffect {
    pub open spec fn nothing() -> KeyEffect {
        KeyEffect { forward: false, redraw: false, open_config: false, save: false }
    }
}

/// Zero in both coordinates.
pub open spec fn origin() -> Point {
    (number::num(number::ZERO), number::num(number::ZERO))
}

impl Session {
    pub open spec fn wf(self) -> bool {
        &&& self.state.wf()
        &&& screenshot_mode::valid_frame(self.frame)
        &&& self.shot.wf(self.frame)
    }

    pub fn new(state: MagnifierState) -> (r: Session)
        requires
            state.wf(),
        ensures
            r.wf(),
            r == (Session {
                state,
                shot: ScreenshotMode::off(),
                timers: Timers {
                    last_motion_at: None,
                    last_draw_at: None,
                    redraw_pending: false,
                    settle_pending: false,
                },
                frame: None,
                exit: false,
                config_open: false,
                minimap_visible: state.config.minimap_visible,
                pointer_seen: false,
                pointer: origin(),
                view_center: None,
                launch_centered: false,
                launch_position: None,
                cursor_bake: None,
                hold: HoldToZoom {
                    active: false,
                    last_y: number::num(number::ZERO),
                    dead_travel: number::num(number::ZERO),
                },
                edge_hold: (None, None),
                shift_held: false,
                pan_accum: origin(),
                notice: None,
            }),
    {
        let zero: Number = Number { bits: number::ZERO };
        let minimap_visible: bool = state.config.minimap_visible;
        Session {
            state,
            shot: ScreenshotMode::new(),
            timers: Timers::new(),
            frame: None,
            exit: false,
            config_open: false,
            minimap_visible,
            pointer_seen: false,
            pointer: (zero, zero),
            view_center: None,
            launch_centered: false,
            launch_position: None,
            cursor_bake: None,
            hold: HoldToZoom { active: false, last_y: zero, dead_travel: zero },
            edge_hold: (None, None),
            shift_held: false,
            pan_accum: (zero, zero),
            notice: None,
        }
    }

    /// The session with hold-to-zoom armed: from the current height of the
    /// pointer, with no travel ignored yet, and with a view to zoom around.
    pub open spec fn armed(self, pointer_capture: Point, bounds: Point) -> Session {
        Session {
            hold: HoldToZoom {
                active: true,
                last_y: self.pointer.1,
                dead_travel: number::num(number::ZERO),
            },
            view_center: match self.view_center {
                Some(c) => Some(c),
                None => Some(self.onto_frame(pointer_capture, bounds)),
            },
            ..self
        }
    }

    /// A position brought onto the captured frame, where there is one.
    pub open spec fn onto_frame(self, pos: Point, bounds: Point) -> Point {
        if self.frame is Some {
            view::clamped_to(pos, bounds)
        } else {
            pos
        }
    }

    pub fn clamp_to_capture(&self, pos: Point, bounds: Point) -> (r: Point)
        requires
            view::valid_bounds(bounds),
        ensures
            r == self.onto_frame(pos, bounds),
    {
        if self.frame.is_some() {
            view::clamp_to_capture_bounds(pos, bounds)
        } else {
            pos
        }
    }

    /// Arms hold-to-zoom.
    pub fn arm_hold(&mut self, pointer_capture: Point, bounds: Point)
        requires
            view::valid_bounds(bounds),
        ensures
            *final(self) == old(self).armed(pointer_capture, bounds),
    {
        let y: Number = self.pointer.1;
        self.hold = HoldToZoom { active: true, last_y: y, dead_travel: Number { bits: number::ZERO } };
        if self.view_center.is_none() {
            let c: Point = self.clamp_to_capture(pointer_capture, bounds);
            self.view_center = Some(c);
        }
    }

    /// The session at another zoom, from `min` to the largest one.
    pub open spec fn zoomed(self, z: Number, min: Number) -> Session {
        self.zoomed_within(z, min, state::highest_zoom(self.state.config))
    }

    /// The session at another zoom, from `min` to `max`.
    pub open spec fn zoomed_within(self, z: Number, min: Number, max: Number) -> Session {
        Session { state: self.state.at_zoom(z.clamped(min, max)), ..self }
    }

    /// The session back at its default zoom.
    pub open spec fn zoom_reset(self, fit: Number) -> Session {
        self.zoomed(
            state::default_zoom(self.state.config),
            state::runtime_lowest(self.state.config, fit),
        )
    }

    /// Goes back to the default zoom. The smallest zoom at run time applies.
    pub fn reset_zoom(&mut self, fit: Number)
        requires
            old(self).wf(),
            fit.at_most(number::num(number::ONE)),
        ensures
            *final(self) == old(self).zoom_reset(fit),
            ({
                let low = state::runtime_lowest(old(self).state.config, fit);
                let high = state::highest_zoom(old(self).state.config);
                old(self).state.config.default_zoom matches Some(z) ==> low.at_most(z) && z.at_most(
                    high,
                ) ==> final(self).state.zoom == z
            }),
            old(self).state.config.default_zoom is None ==> final(self).state.zoom == number::num(
                number::ONE,
            ),
    {
        let min: Number = state::runtime_min_zoom(&self.state.config, fit);
        let z: Number = state::default_zoom_of(&self.state.config);
        self.state.set_zoom(z, min);
    }

    /// The session after a digit key: 0 shows the whole screen, 1 to 9 are
    /// levels above the smallest zoom at run time.
    pub open spec fn after_digit(self, digit: u8, fit: Number, level: Number) -> Session {
        if digit == 0 {
            self.zoomed(fit, number::num(number::ZERO))
        } else {
            self.zoomed(
                level.clamped(
                    self.state.config.lowest_zoom(),
                    state::highest_zoom(self.state.config),
                ),
                state::runtime_lowest(self.state.config, fit),
            )
        }
    }

    fn digit_key(&mut self, digit: u8, fit: Number, level: Number)
        requires
            old(self).wf(),
            fit.at_most(number::num(number::ONE)),
        ensures
            *final(self) == old(self).after_digit(digit, fit, level),
    {
        if digit == 0 {
            self.state.set_zoom(fit, Number { bits: number::ZERO });
        } else {
            let z: Number = self.state.zoom_for_level(level);
            let min: Number = state::runtime_min_zoom(&self.state.config, fit);
            self.state.set_zoom(z, min);
        }
    }

    /// The session after a bound action, and what is left to do.
    pub open spec fn after_action(self, action: BoundAction, m: KeyMeasures) -> (Session, KeyEffect) {
        let drawn = KeyEffect { redraw: true, ..KeyEffect::nothing() };
        match action {
            BoundAction::ToggleOsd => (
                Session {
                    state: MagnifierState { osd_visible: !self.state.osd_visible, ..self.state },
                    ..self
                },
                drawn,
            ),
            BoundAction::ScreenshotManual => (self.in_screenshot_mode(false, m.anchor), drawn),
            BoundAction::ScreenshotFullscreen => (self.in_screenshot_mode(true, m.anchor), drawn),
            BoundAction::ScreenshotWindow => (self, KeyEffect::nothing()),
            BoundAction::AntiAliasing => (self, KeyEffect::nothing()),
            BoundAction::OpenConfig => (
                self,
                KeyEffect { open_config: true, ..KeyEffect::nothing() },
            ),
            BoundAction::ToggleCursor => (
                Session {
                    state: MagnifierState {
                        cursor_visible: !self.state.cursor_visible,
                        ..self.state
                    },
                    ..self
                },
                drawn,
            ),
            BoundAction::ToggleMinimap => (
                Session { minimap_visible: !self.minimap_visible, ..self },
                drawn,
            ),
            BoundAction::ResetZoom => (self.zoom_reset(m.fit), drawn),
        }
    }

    /// The session in screenshot mode.
    pub open spec fn in_screenshot_mode(self, fullscreen: bool, anchor: Option<Point>) -> Session {
        Session {
            shot: ScreenshotMode {
                active: true,
                dragging: false,
                drag_start: None,
                rect: if fullscreen {
                    screenshot_mode::whole(self.frame)
                } else {
                    None
                },
                scale: None,
                nudge_hold: self.shot.nudge_hold,
                cursor_offset: anchor,
            },
            ..self
        }
    }

    fn perform(&mut self, action: BoundAction, m: &KeyMeasures) -> (r: KeyEffect)
        requires
            old(self).wf(),
            m.wf(),
        ensures
            (*final(self), r) == old(self).after_action(action, *m),
            final(self).wf(),
    {
        let quiet = KeyEffect { forward: false, redraw: false, open_config: false, save: false };
        let drawn = KeyEffect { forward: false, redraw: true, open_config: false, save: false };
        match action {
            BoundAction::ToggleOsd => {
                self.state.toggle_osd();
                drawn
            },
            BoundAction::ScreenshotManual => {
                self.shot.enter(false, self.frame, m.anchor);
                drawn
            },
            BoundAction::ScreenshotFullscreen => {
                self.shot.enter(true, self.frame, m.anchor);
                drawn
            },
            BoundAction::ScreenshotWindow => quiet,
            BoundAction::AntiAliasing => quiet,
            BoundAction::OpenConfig => KeyEffect {
                forward: false,
                redraw: false,
                open_config: true,
                save: false,
            },
            BoundAction::ToggleCursor => {
                self.state.toggle_cursor();
                drawn
            },
            BoundAction::ToggleMinimap => {
                self.minimap_visible = !self.minimap_visible;
                drawn
            },
            BoundAction::ResetZoom => {
                self.reset_zoom(m.fit);
                drawn
            },
        }
    }

    /// Whether a key belongs to screenshot mode: every key does, except the one
    /// for the settings.
    pub open spec fn is_shot_key(self, keysym: u32) -> bool {
        self.shot.active && keys::key_name(keysym) != self.state.config.keybindings.config_window@
    }

    /// A key in screenshot mode: the legend and the minimap can still be
    /// toggled, everything else is up to the mode.
    pub open spec fn after_shot_key(self, keysym: u32, m: KeyMeasures) -> (Session, KeyEffect) {
        let name = keys::key_name(keysym);
        let bindings = self.state.config.keybindings;
        let drawn = KeyEffect { redraw: true, ..KeyEffect::nothing() };
        if name == bindings.toggle_osd@ {
            (
                Session {
                    state: MagnifierState { osd_visible: !self.state.osd_visible, ..self.state },
                    ..self
                },
                drawn,
            )
        } else if name == bindings.minimap@ {
            (Session { minimap_visible: !self.minimap_visible, ..self }, drawn)
        } else {
            let (shot, k) = self.shot.after_key(
                keysym,
                bindings,
                self.state.config.screenshot_scale,
                self.frame,
                m.aim,
                m.now,
            );
            (Session { shot, ..self }, KeyEffect { save: k == ShotKey::Save, ..drawn })
        }
    }

    fn shot_key(&mut self, keysym: u32, m: &KeyMeasures) -> (r: KeyEffect)
        requires
            old(self).wf(),
            m.wf(),
        ensures
            (*final(self), r) == old(self).after_shot_key(keysym, *m),
            final(self).wf(),
    {
        let name: String = keys::keysym_to_string(keysym);
        if name == self.state.config.keybindings.toggle_osd {
            self.state.toggle_osd();
            KeyEffect { forward: false, redraw: true, open_config: false, save: false }
        } else if name == self.state.config.keybindings.minimap {
            self.minimap_visible = !self.minimap_visible;
            KeyEffect { forward: false, redraw: true, open_config: false, save: false }
        } else {
            let scale: ScreenshotScale = self.state.config.screenshot_scale;
            let k: ShotKey = self.shot.handle_screenshot_key(
                keysym,
                &self.state.config.keybindings,
                scale,
                self.frame,
                m.aim,
                m.now,
            );
            let save: bool = match k {
                ShotKey::Save => true,
                ShotKey::Done => false,
            };
            KeyEffect { forward: false, redraw: true, open_config: false, save }
        }
    }

    /// The session after a key has armed hold-to-zoom, where it is the key for
    /// that, and selected a zoom, where it is a digit.
    pub open spec fn after_zoom_keys(self, keysym: u32, m: KeyMeasures) -> Session {
        let armed = if keys::key_name(keysym) == self.state.config.keybindings.hold_to_zoom@ {
            self.armed(m.pointer_capture, m.bounds)
        } else {
            self
        };
        match keys::digit_level(keysym) {
            Some(digit) => armed.after_digit(digit, m.fit, m.level),
            None => armed,
        }
    }

    fn zoom_keys(&mut self, keysym: u32, name: &String, m: &KeyMeasures) -> (digit: bool)
        requires
            old(self).wf(),
            m.wf(),
            name@ == keys::key_name(keysym),
        ensures
            *final(self) == old(self).after_zoom_keys(keysym, *m),
            digit == (keys::digit_level(keysym) is Some),
            final(self).wf(),
            final(self).state.config == old(self).state.config,
    {
        if *name == self.state.config.keybindings.hold_to_zoom {
            self.arm_hold(m.pointer_capture, m.bounds);
        }
        if let Some(d) = keys::zoom_level_of(keysym) {
            self.digit_key(d, m.fit, m.level);
            true
        } else {
            false
        }
    }

    /// The session after the action that a key is bound to, and what is left to
    /// do.
    pub open spec fn after_bound_key(self, keysym: u32, m: KeyMeasures) -> (Session, KeyEffect) {
        match keys::bound_action(self.state.config.keybindings, keys::key_name(keysym)) {
            Some(action) => self.after_action(action, m),
            None => (self, KeyEffect::nothing()),
        }
    }

    fn bound_key(&mut self, keysym: u32, name: &String, m: &KeyMeasures) -> (r: KeyEffect)
        requires
            old(self).wf(),
            m.wf(),
            name@ == keys::key_name(keysym),
        ensures
            (*final(self), r) == old(self).after_bound_key(keysym, *m),
            final(self).wf(),
    {
        match keys::action_for(&self.state.config.keybindings, name) {
            Some(action) => self.perform(action, m),
            None => KeyEffect { forward: false, redraw: false, open_config: false, save: false },
        }
    }

    /// A key in the magnifier: it may arm hold-to-zoom, select a zoom, perform
    /// its bound action, and quit, in this order.
    pub open spec fn after_magnifier_key(self, keysym: u32, m: KeyMeasures) -> (Session, KeyEffect) {
        let (acted, effect) = self.after_zoom_keys(keysym, m).after_bound_key(keysym, m);
        (
            if keysym == keys::KEY_ESCAPE || keysym == keys::KEY_Q {
                Session { exit: true, ..acted }
            } else {
                acted
            },
            KeyEffect { redraw: effect.redraw || keys::digit_level(keysym) is Some, ..effect },
        )
    }

    fn magnifier_key(&mut self, keysym: u32, m: &KeyMeasures) -> (r: KeyEffect)
        requires
            old(self).wf(),
            m.wf(),
        ensures
            (*final(self), r) == old(self).after_magnifier_key(keysym, *m),
            final(self).wf(),
    {
        let name: String = keys::keysym_to_string(keysym);
        let digit: bool = self.zoom_keys(keysym, &name, m);
        let mut effect: KeyEffect = self.bound_key(keysym, &name, m);
        if keysym == keys::KEY_ESCAPE || keysym == keys::KEY_Q {
            self.exit = true;
        }
        effect.redraw = effect.redraw || digit;
        effect
    }

    /// The session after a key press, and what is left to do. With the settings
    /// open the key is theirs. In screenshot mode it belongs to the mode; the
    /// key for the settings leaves the mode first.
    pub open spec fn after_press(self, keysym: u32, m: KeyMeasures) -> (Session, KeyEffect) {
        if self.config_open {
            (self, KeyEffect { forward: true, redraw: true, ..KeyEffect::nothing() })
        } else if self.is_shot_key(keysym) {
            self.after_shot_key(keysym, m)
        } else if self.shot.active {
            (Session { shot: ScreenshotMode::off(), ..self }).after_magnifier_key(keysym, m)
        } else {
            self.after_magnifier_key(keysym, m)
        }
    }

    /// A key was pressed.
    pub fn press_key(&mut self, keysym: u32, m: &KeyMeasures) -> (r: KeyEffect)
        requires
            old(self).wf(),
            m.wf(),
        ensures
            (*final(self), r) == old(self).after_press(keysym, *m),
            final(self).wf(),
    {
        if self.config_open {
            return KeyEffect { forward: true, redraw: true, open_config: false, save: false };
        }
        if self.shot.active {
            let name: String = keys::keysym_to_string(keysym);
            if name == self.state.config.keybindings.config_window {
                self.shot.exit();
            } else {
                return self.shot_key(keysym, m);
            }
        }
        self.magnifier_key(keysym, m)
    }

    /// The compositor repeats a key. Returns whether to draw, and whether to
    /// hand the key to the settings.
    pub fn repeat_key(&mut self, keysym: u32, aim: (i64, i64)) -> (r: (bool, bool))
        requires
            old(self).wf(),
        ensures
            final(self).wf(),
            r.1 == (!old(self).shot.active && old(self).config_open),
            r.0 == (old(self).shot.active && old(self).shot.nudge_hold is None && keys::nudge_key(
                keysym,
            ) is Some),
            *final(self) == (if r.0 {
                Session {
                    shot: ScreenshotMode {
                        rect: old(self).shot.nudged_rect(
                            keys::nudge_key(keysym)->0,
                            old(self).frame,
                            aim,
                        ),
                        ..old(self).shot
                    },
                    ..*old(self)
                }
            } else {
                *old(self)
            }),
    {
        if self.shot.active {
            let redraw: bool = self.shot.on_key_repeat(keysym, self.frame, aim);
            (redraw, false)
        } else {
            (false, self.config_open)
        }
    }

    /// The session with hold-to-zoom let go. If it was on, the clock of the
    /// correction starts afresh.
    pub open spec fn released(self, now: u64) -> Session {
        Session {
            hold: HoldToZoom { active: false, ..self.hold },
            timers: if self.hold.active {
                Timers { last_motion_at: Some(now), ..self.timers }
            } else {
                self.timers
            },
            ..self
        }
    }

    /// Lets go of hold-to-zoom. Returns whether it was on.
    pub fn release_hold(&mut self, now: u64) -> (was_active: bool)
        ensures
            was_active == old(self).hold.active,
            *final(self) == old(self).released(now),
    {
        let was_active: bool = self.hold.active;
        self.hold.active = false;
        if was_active {
            self.timers.last_motion_at = Some(now);
        }
        was_active
    }

    /// A key was released. A nudge key ends its repeating, the hold-to-zoom key
    /// ends zooming by motion. Returns whether to draw; with the settings open
    /// the key is theirs as well.
    pub fn release_key(&mut self, keysym: u32, now: u64) -> (redraw: bool)
        requires
            old(self).wf(),
        ensures
            final(self).wf(),
            ({
                let s1 = Session {
                    shot: if old(self).shot.active && keys::nudge_key(keysym) is Some {
                        ScreenshotMode { nudge_hold: None, ..old(self).shot }
                    } else {
                        old(self).shot
                    },
                    ..*old(self)
                };
                let held = keys::key_name(keysym) == s1.state.config.keybindings.hold_to_zoom@;
                &&& redraw == (held && s1.hold.active)
                &&& *final(self) == (if held {
                    s1.released(now)
                } else {
                    s1
                })
            }),
    {
        self.shot.on_key_release(keysym);
        let name: String = keys::keysym_to_string(keysym);
        if name == self.state.config.keybindings.hold_to_zoom {
            self.release_hold(now)
        } else {
            false
        }
    }

    /// The keyboard went elsewhere: a release may never arrive.
    pub fn keyboard_left(&mut self)
        ensures
            *final(self) == (Session {
                hold: HoldToZoom { active: false, ..old(self).hold },
                ..*old(self)
            }),
    {
        self.hold.active = false;
    }

    /// Shift was pressed or let go. Letting go drops motion that has not moved
    /// the view yet.
    pub fn update_modifiers(&mut self, shift: bool)
        ensures
            *final(self) == (Session {
                shift_held: shift,
                pan_accum: if old(self).shift_held && !shift {
                    origin()
                } else {
                    old(self).pan_accum
                },
                ..*old(self)
            }),
    {
        if self.shift_held && !shift {
            let zero: Number = Number { bits: number::ZERO };
            self.pan_accum = (zero, zero);
        }
        self.shift_held = shift;
    }
}

impl Session {
    /// Neither the settings are open nor screenshot mode is on.
    pub open spec fn idle(self) -> bool {
        !self.config_open && !self.shot.active
    }

    /// The key is the one that stands `k`-th in
    /// [`keys::no_other_binding`], and has no other binding.
    pub open spec fn has_only(self, keysym: u32, k: int, binding: Seq<char>) -> bool {
        &&& keys::key_name(keysym) == binding
        &&& keys::no_other_binding(
            self.state.config.keybindings,
            keys::key_name(keysym),
            k,
        )
    }
}

/// Going back to the default zoom goes to the zoom that the settings start with,
/// where that lies within the limits; without one it goes to 1. Nothing else
/// changes.
pub proof fn reset_goes_to_the_default_zoom(s: Session, fit: Number)
    requires
        !s.state.config.max_zoom.nan(),
        fit.at_most(number::num(0x3FF0_0000_0000_0000)),
    ensures
        ({
            let r = s.zoom_reset(fit);
            let low = state::runtime_lowest(s.state.config, fit);
            let high = state::highest_zoom(s.state.config);
            &&& s.state.config.default_zoom matches Some(z) ==> low.at_most(z) && z.at_most(high)
                ==> r.state.zoom == z
            &&& s.state.config.default_zoom matches Some(z) ==> z.below(low) ==> r.state.zoom == low
            &&& s.state.config.default_zoom matches Some(z) ==> high.below(z) ==> r.state.zoom
                == high
            &&& s.state.config.default_zoom is None ==> r.state.zoom == number::num(
                0x3FF0_0000_0000_0000,
            )
            &&& r.state.renderer.scale_factor == r.state.zoom
            &&& r == (Session { state: s.state.at_zoom(r.state.zoom), ..s })
        }),
{
}

/// The key for the default zoom goes to it, from whatever zoom, and draws.
pub proof fn reset_key_goes_to_the_default_zoom(s: Session, keysym: u32, m: KeyMeasures)
    requires
        s.idle(),
        s.wf(),
        m.wf(),
        !(0x30 <= keysym <= 0x39),
        s.has_only(keysym, 8, s.state.config.keybindings.reset_zoom@),
    ensures
        ({
            let (r, effect) = s.after_press(keysym, m);
            let low = state::runtime_lowest(s.state.config, m.fit);
            let high = state::highest_zoom(s.state.config);
            &&& s.state.config.default_zoom matches Some(z) ==> low.at_most(z) && z.at_most(high)
                ==> r.state.zoom == z
            &&& s.state.config.default_zoom is None ==> r.state.zoom == number::num(
                0x3FF0_0000_0000_0000,
            )
            &&& r.state.renderer.scale_factor == r.state.zoom
            &&& r.state.config == s.state.config
            &&& r.shot == s.shot
            &&& r.view_center == s.view_center
            &&& r.hold == s.hold
            &&& r.minimap_visible == s.minimap_visible
            &&& effect.redraw && !effect.save && !effect.open_config && !effect.forward
        }),
{
}

/// The key for a screenshot of the whole screen starts screenshot mode with
/// every pixel of the captured frame selected; Enter then saves that.
pub proof fn fullscreen_screenshot_saves_the_whole_frame(
    s: Session,
    keysym: u32,
    m: KeyMeasures,
    enter: KeyMeasures,
    w: i32,
    h: i32,
)
    requires
        s.idle(),
        s.wf(),
        !(0x30 <= keysym <= 0x39),
        s.has_only(keysym, 3, s.state.config.keybindings.screenshot_fullscreen@),
        s.frame == Some((w, h)),
        keys::no_other_binding(s.state.config.keybindings, keys::key_name(0xff0d), -1),
        keysym != 0xff1b,
        keysym != 'q' as u32,
    ensures
        ({
            let (r, effect) = s.after_press(keysym, m);
            let (saving, last) = r.after_press(0xff0d, enter);
            &&& r.shot.active
            &&& r.shot.rect == Some((0i32, 0i32, w, h))
            &&& !r.shot.dragging
            &&& r.shot.scale is None
            &&& r.shot.cursor_offset == m.anchor
            &&& !r.exit || s.exit
            &&& effect.redraw && !effect.save && !effect.open_config && !effect.forward
            &&& last.save
            &&& saving.shot.rect == Some((0i32, 0i32, w, h))
        }),
{
}

/// The key for a manual selection starts screenshot mode with nothing selected,
/// so that Enter saves nothing yet.
pub proof fn manual_screenshot_starts_empty(
    s: Session,
    keysym: u32,
    m: KeyMeasures,
    enter: KeyMeasures,
)
    requires
        s.idle(),
        !(0x30 <= keysym <= 0x39),
        s.has_only(keysym, 1, s.state.config.keybindings.screenshot_manual@),
        keys::no_other_binding(s.state.config.keybindings, keys::key_name(0xff0d), -1),
    ensures
        ({
            let (r, effect) = s.after_press(keysym, m);
            &&& r.shot.active
            &&& r.shot.rect is None
            &&& !r.shot.dragging
            &&& r.shot.drag_start is None
            &&& r.shot.scale is None
            &&& r.shot.cursor_offset == m.anchor
            &&& r.state == s.state
            &&& effect.redraw && !effect.save && !effect.open_config && !effect.forward
            &&& !r.after_press(0xff0d, enter).1.save
        }),
{
}

/// The keys that switch something on and off switch that, and nothing else.
pub proof fn toggle_keys_switch_one_thing(s: Session, keysym: u32, m: KeyMeasures)
    requires
        s.idle(),
        !(0x30 <= keysym <= 0x39),
        keysym != 0xff1b,
        keysym != 'q' as u32,
    ensures
        ({
            let (r, effect) = s.after_press(keysym, m);
            let b = s.state.config.keybindings;
            &&& s.has_only(keysym, 0, b.toggle_osd@) ==> effect.redraw && r.state.osd_visible
                == !s.state.osd_visible && r == (Session {
                state: MagnifierState { osd_visible: r.state.osd_visible, ..s.state },
                ..s
            })
            &&& s.has_only(keysym, 6, b.toggle_cursor@) ==> effect.redraw && r.state.cursor_visible
                == !s.state.cursor_visible && r == (Session {
                state: MagnifierState { cursor_visible: r.state.cursor_visible, ..s.state },
                ..s
            })
            &&& s.has_only(keysym, 7, b.minimap@) ==> effect.redraw && r.minimap_visible
                == !s.minimap_visible && r == (Session {
                minimap_visible: r.minimap_visible,
                ..s
            })
            &&& !effect.save && !effect.forward
        }),
{
}

/// The key for the settings asks for them and changes nothing by itself; out of
/// screenshot mode it leaves the mode first.
pub proof fn settings_key_opens_the_settings(s: Session, keysym: u32, m: KeyMeasures)
    requires
        !s.config_open,
        !(0x30 <= keysym <= 0x39),
        keysym != 0xff1b,
        keysym != 'q' as u32,
        s.has_only(keysym, 4, s.state.config.keybindings.config_window@),
    ensures
        ({
            let (r, effect) = s.after_press(keysym, m);
            &&& effect.open_config
            &&& !effect.save
            &&& !effect.forward
            &&& !r.shot.active
            &&& s.shot.active ==> r.shot.rect is None && r.shot.scale is None
            &&& !s.shot.active ==> r == s
            &&& r.state == s.state
            &&& r.view_center == s.view_center
            &&& r.exit == s.exit
        }),
{
}

/// With the settings open every key is theirs, and the magnifier stays as it is.
pub proof fn open_settings_get_every_key(s: Session, keysym: u32, m: KeyMeasures)
    requires
        s.config_open,
    ensures
        ({
            let (r, effect) = s.after_press(keysym, m);
            &&& r == s
            &&& effect.forward
            &&& effect.redraw
            &&& !effect.save
            &&& !effect.open_config
        }),
{
}

/// Escape and q quit the magnifier, but in screenshot mode they only leave the
/// mode, and no other key quits.
pub proof fn escape_and_q_quit(s: Session, keysym: u32, m: KeyMeasures)
    requires
        !s.config_open,
        keys::no_other_binding(s.state.config.keybindings, keys::key_name(keysym), -1),
    ensures
        ({
            let (r, effect) = s.after_press(keysym, m);
            &&& !s.shot.active && (keysym == 0xff1b || keysym == 'q' as u32) ==> r.exit
            &&& !s.shot.active && !(keysym == 0xff1b || keysym == 'q' as u32) ==> r.exit == s.exit
            &&& s.shot.active ==> r.exit == s.exit
            &&& s.shot.active && (keysym == 0xff1b || keysym == 'q' as u32) ==> !r.shot.active
                && r.shot.rect is None && !effect.save
            &&& !effect.open_config
        }),
{
}

/// A digit key zooms to its level, where that lies within the limits, and 0
/// zooms out to the whole screen.
pub proof fn digit_keys_zoom_to_their_level(s: Session, d: u32, m: KeyMeasures)
    requires
        s.idle(),
        s.wf(),
        m.wf(),
        d <= 9,
        keys::no_other_binding(
            s.state.config.keybindings,
            keys::key_name((0x30 + d) as u32),
            -1,
        ),
    ensures
        ({
            let (r, effect) = s.after_press((0x30 + d) as u32, m);
            let low = state::runtime_lowest(s.state.config, m.fit);
            let high = state::highest_zoom(s.state.config);
            &&& d == 0 ==> r.state.zoom == m.fit
            &&& d != 0 && low.at_most(m.level) && s.state.config.lowest_zoom().at_most(m.level)
                && m.level.at_most(high) ==> r.state.zoom == m.level
            &&& d != 0 && !m.level.nan() ==> low.at_most(r.state.zoom) && r.state.zoom.at_most(high)
            &&& d != 0 && high.below(m.level) ==> r.state.zoom == high
            &&& r.state.renderer.scale_factor == r.state.zoom
            &&& r == (Session { state: s.state.at_zoom(r.state.zoom), ..s })
            &&& effect.redraw && !effect.save && !effect.open_config && !effect.forward
        }),
{
}

/// The hold-to-zoom key arms zooming by motion: from where the pointer is, with
/// nothing ignored yet. A view is there from then on: the one there was, or one
/// centred on the pointer.
pub proof fn hold_key_arms_zooming(s: Session, keysym: u32, m: KeyMeasures)
    requires
        s.idle(),
        m.wf(),
        !(0x30 <= keysym <= 0x39),
        keysym != 0xff1b,
        keysym != 'q' as u32,
        s.has_only(keysym, 9, s.state.config.keybindings.hold_to_zoom@),
    ensures
        ({
            let (r, effect) = s.after_press(keysym, m);
            &&& r.hold.active
            &&& r.hold.last_y == s.pointer.1
            &&& r.hold.dead_travel == number::num(0)
            &&& s.view_center is Some ==> r.view_center == s.view_center
            &&& s.view_center is None && s.frame is None ==> r.view_center == Some(
                m.pointer_capture,
            )
            &&& s.view_center is None && view::on_frame(m.pointer_capture, m.bounds)
                ==> r.view_center == Some(m.pointer_capture)
            &&& r.state == s.state
            &&& r.shot == s.shot
            &&& r.pointer == s.pointer
            &&& !effect.redraw && !effect.save && !effect.open_config && !effect.forward
        }),
{
}

/// A key that nothing is bound to does nothing in the magnifier.
pub proof fn unbound_keys_do_nothing(s: Session, keysym: u32, m: KeyMeasures)
    requires
        s.idle(),
        !(0x30 <= keysym <= 0x39),
        keysym != 0xff1b,
        keysym != 'q' as u32,
        keys::no_other_binding(s.state.config.keybindings, keys::key_name(keysym), -1),
    ensures
        ({
            let (r, effect) = s.after_press(keysym, m);
            &&& r == s
            &&& !effect.redraw && !effect.save && !effect.open_config && !effect.forward
        }),
{
}

/// In screenshot mode the legend and the minimap can be switched as before, and
/// the selection stays.
pub proof fn legend_and_minimap_switch_in_screenshot_mode(s: Session, keysym: u32, m: KeyMeasures)
    requires
        !s.config_open,
        s.shot.active,
    ensures
        ({
            let (r, effect) = s.after_press(keysym, m);
            let b = s.state.config.keybindings;
            &&& s.has_only(keysym, 0, b.toggle_osd@) ==> r.state.osd_visible == !s.state.osd_visible
                && r.shot == s.shot && effect.redraw && !effect.save
            &&& s.has_only(keysym, 7, b.minimap@) ==> r.minimap_visible == !s.minimap_visible
                && r.shot == s.shot && effect.redraw && !effect.save
            &&& s.has_only(keysym, 6, b.toggle_cursor@) ==> r.state == s.state
            &&& s.has_only(keysym, 8, b.reset_zoom@) ==> r.state == s.state
        }),
{
}

/// In screenshot mode Enter saves what is selected, the key for the whole
/// screen selects everything, and the key for the scale switches it.
pub proof fn screenshot_mode_keys_reach_the_mode(
    s: Session,
    keysym: u32,
    m: KeyMeasures,
    w: i32,
    h: i32,
)
    requires
        !s.config_open,
        s.shot.active,
        s.frame == Some((w, h)),
        keysym != 0xff1b,
        keysym != 'q' as u32,
        keysym != 'Q' as u32,
    ensures
        ({
            let (r, effect) = s.after_press(keysym, m);
            let b = s.state.config.keybindings;
            let enter = keysym == 0xff0d || keysym == 0xff8d;
            &&& enter && keys::no_other_binding(b, keys::key_name(keysym), -1) ==> effect.save
                == s.shot.rect is Some && r == s
            &&& s.has_only(keysym, 3, b.screenshot_fullscreen@) ==> r.shot.rect == Some(
                (0i32, 0i32, w, h),
            ) && !effect.save
            &&& !enter && s.has_only(keysym, 10, b.screenshot_scale_toggle@)
                ==> r.shot.scale_in_force(s.state.config.screenshot_scale)
                != s.shot.scale_in_force(s.state.config.screenshot_scale) && r.shot.rect
                == s.shot.rect && !effect.save
            &&& s.has_only(keysym, 3, b.screenshot_fullscreen@) ==> r.state == s.state
        }),
{
}

/// Letting go of hold-to-zoom ends it; if it was on, the rest of the pointer is
/// counted from now. The zoom that was reached stays.
pub proof fn letting_go_ends_hold_to_zoom(s: Session, now: u64)
    ensures
        ({
            let r = s.released(now);
            &&& !r.hold.active
            &&& s.hold.active ==> r.timers.last_motion_at == Some(now)
            &&& !s.hold.active ==> r.timers == s.timers
            &&& r.timers.last_draw_at == s.timers.last_draw_at
            &&& r.timers.settle_pending == s.timers.settle_pending
            &&& r.state == s.state
            &&& r.view_center == s.view_center
            &&& r.shot == s.shot
        }),
{
}

/// A key with two meanings has both: a digit that is bound to something zooms and
/// does that too, and a bound Escape or q still quits.
pub proof fn keys_with_two_meanings_do_both(s: Session, keysym: u32, m: KeyMeasures)
    requires
        s.idle(),
        s.wf(),
        m.wf(),
        s.has_only(keysym, 7, s.state.config.keybindings.minimap@),
    ensures
        ({
            let (r, effect) = s.after_press(keysym, m);
            let low = state::runtime_lowest(s.state.config, m.fit);
            let high = state::highest_zoom(s.state.config);
            &&& r.minimap_visible == !s.minimap_visible
            &&& effect.redraw
            &&& keysym == 0xff1b || keysym == 'q' as u32 ==> r.exit
            &&& keysym == 0x30 ==> r.state.zoom == m.fit
            &&& 0x31 <= keysym <= 0x39 && low.at_most(m.level) && s.state.config.lowest_zoom().at_most(
                m.level,
            ) && m.level.at_most(high) ==> r.state.zoom == m.level
            &&& keysym < 0x30 || 0x39 < keysym ==> r.state.zoom == s.state.zoom
        }),
{
}

/// The hold-to-zoom key arms zooming whatever else it is bound to.
pub proof fn hold_key_arms_beside_its_other_action(s: Session, keysym: u32, m: KeyMeasures)
    requires
        s.idle(),
        keys::key_name(keysym) == s.state.config.keybindings.hold_to_zoom@,
    ensures
        ({
            let r = s.after_press(keysym, m).0;
            &&& r.hold.active
            &&& r.hold.last_y == s.pointer.1
            &&& r.view_center is Some
        }),
{
}

/// The key that is bound to more than one action does the first, in the order of
/// the legend's own key, the screenshots, the settings, the pointer, the minimap
/// and the default zoom.
pub proof fn shared_keys_do_the_first_action(s: Session, keysym: u32, m: KeyMeasures)
    requires
        s.idle(),
        !(0x30 <= keysym <= 0x39),
        keys::key_name(keysym) == s.state.config.keybindings.toggle_osd@,
    ensures
        ({
            let (r, effect) = s.after_press(keysym, m);
            &&& r.state.osd_visible == !s.state.osd_visible
            &&& r.state.zoom == s.state.zoom
            &&& r.minimap_visible == s.minimap_visible
            &&& r.state.cursor_visible == s.state.cursor_visible
            &&& !r.shot.active
            &&& !effect.open_config
        }),
{
}

/// The place without an offset is zero in both coordinates.
pub proof fn origin_is_zero()
    ensures
        origin() == (number::num(0), number::num(0)),
{
}

} // verus!
