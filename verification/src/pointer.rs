//! What pointer events do to a session.

use crate::config;
use crate::config::ScrollZoomMode;
use crate::engine::{HoldToZoom, Session};
use crate::number;
use crate::number::Number;
use crate::screenshot_mode;
use crate::screenshot_mode::ScreenshotMode;
use crate::state;
use crate::state::MagnifierState;
use crate::text;
use crate::timing;
use crate::timing::Timers;
use crate::view;
use crate::view::Point;
use crate::zoom;
use vstd::prelude::*;

verus! {

/// Who gets a pointer event.
#[derive(Clone, Copy, Debug, PartialEq, Eq, Structural)]
pub enum PointerRoute {
    /// The settings.
    Config,
    /// Screenshot mode.
    Screenshot,
    /// The magnifier.
    Magnifier,
}

/// The bits of 0.5: the slowed motion that moves the view, and the distance of
/// the view from the content under the hand that is left alone.
pub const HALF: u64 = 0x3FE0_0000_0000_0000;

/// What a motion of the pointer does to the view.
#[derive(Clone, Copy, Debug, PartialEq, Eq, Structural)]
pub enum MotionCase {
    /// There is no view yet.
    Still,
    /// The vertical motion zooms. Where there is a view, the horizontal one pans
    /// it.
    Hold { pan: bool, slow: bool },
    /// The motion pans the view. Unless the zoom scales panning, the view is
    /// then pulled towards the content under the hand.
    Pan { slow: bool, pull: bool },
}

/// The whole pixels that slowed motion moves the view by, and what is left of
/// it. `rounded` is the motion rounded to whole pixels and `left` the rest.
pub open spec fn accumulated(accum: Number, rounded: Number, left: Number) -> (Number, Number) {
    if number::num(HALF).at_most(accum.size()) {
        (rounded, left)
    } else {
        (number::num(number::ZERO), accum)
    }
}

pub fn accum_step(accum: Number, rounded: Number, left: Number) -> (r: (Number, Number))
    ensures
        r == accumulated(accum, rounded, left),
{
    if (Number { bits: HALF }).le(accum.abs()) {
        (rounded, left)
    } else {
        (Number { bits: number::ZERO }, accum)
    }
}

/// Whether a notch of the wheel zooms in: away from the user does, unless it is
/// inverted.
pub fn wheel_zooms_in(away: bool, inverted: bool) -> (r: bool)
    ensures
        r == (away != inverted),
{
    away != inverted
}

/// The zoom that a wheel notch by a factor leads to. `moved` is the zoom times
/// the factor. Such a notch reaches up to the largest zoom there is, whatever
/// the settings say of the levels. Below the smallest zoom, zooming out stays.
pub open spec fn factor_result(zoom: Number, min: Number, zoom_in: bool, moved: Number) -> Number {
    if zoom.below(min) && !zoom_in {
        zoom
    } else {
        moved.clamped(min, number::num(config::MAX_ZOOM))
    }
}

pub fn factor_zoom(zoom: Number, min: Number, zoom_in: bool, moved: Number) -> (r: Number)
    requires
        min.at_most(number::num(config::MAX_ZOOM)),
    ensures
        r == factor_result(zoom, min, zoom_in, moved),
{
    if zoom.lt(min) && !zoom_in {
        zoom
    } else {
        moved.clamp(min, Number { bits: config::MAX_ZOOM })
    }
}

/// Both coordinates are the same numbers.
pub open spec fn same_point(a: Point, b: Point) -> bool {
    &&& a.0.at_most(b.0) && b.0.at_most(a.0)
    &&& a.1.at_most(b.1) && b.1.at_most(a.1)
}

impl Session {
    /// Who gets pointer events: the settings where they are open, else
    /// screenshot mode where it is on, else the magnifier.
    pub open spec fn route(self) -> PointerRoute {
        if self.config_open {
            PointerRoute::Config
        } else if self.shot.active {
            PointerRoute::Screenshot
        } else {
            PointerRoute::Magnifier
        }
    }

    /// A pointer event arrived. Returns who gets it.
    pub fn route_pointer(&mut self) -> (r: PointerRoute)
        ensures
            r == old(self).route(),
            *final(self) == (Session { pointer_seen: true, ..*old(self) }),
    {
        self.pointer_seen = true;
        if self.config_open {
            PointerRoute::Config
        } else if self.shot.active {
            PointerRoute::Screenshot
        } else {
            PointerRoute::Magnifier
        }
    }

    /// What a motion of the pointer does. `slow` says that Shift slows it down.
    pub open spec fn case_of_motion(self) -> MotionCase {
        if self.hold.active {
            MotionCase::Hold { pan: self.view_center is Some, slow: self.shift_held }
        } else if self.view_center is Some {
            MotionCase::Pan {
                slow: self.shift_held,
                pull: !number::num(number::ZERO).below(self.state.config.pan_tuning),
            }
        } else {
            MotionCase::Still
        }
    }

    pub fn motion_case(&self) -> (r: MotionCase)
        ensures
            r == self.case_of_motion(),
    {
        if self.hold.active {
            MotionCase::Hold { pan: self.view_center.is_some(), slow: self.shift_held }
        } else if self.view_center.is_some() {
            let zero: Number = Number { bits: number::ZERO };
            MotionCase::Pan {
                slow: self.shift_held,
                pull: !zero.lt(self.state.config.pan_tuning),
            }
        } else {
            MotionCase::Still
        }
    }

    /// The session with the pointer elsewhere.
    pub open spec fn pointing(self, position: Point, px: (i32, i32)) -> Session {
        Session {
            pointer: position,
            state: MagnifierState { pointer_position: px, ..self.state },
            ..self
        }
    }

    /// The session once the view is centred on the pointer at launch: that needs
    /// a captured frame and a position, and happens once. `scaled` is the
    /// position in capture pixels.
    pub open spec fn launched(self, scaled: Point, bounds: Point) -> Session {
        if !self.launch_centered && self.frame is Some && self.launch_position is Some {
            Session {
                launch_position: None,
                view_center: Some(view::clamped_to(scaled, bounds)),
                cursor_bake: Some(view::clamped_to(scaled, bounds)),
                launch_centered: true,
                ..self
            }
        } else {
            self
        }
    }

    /// Centres the view on the pointer at launch, once. Returns whether it did:
    /// what was drawn of the overview is then out of date.
    pub fn apply_launch_centering(&mut self, scaled: Point, bounds: Point) -> (centered: bool)
        requires
            view::valid_bounds(bounds),
        ensures
            centered == (!old(self).launch_centered && old(self).frame is Some && old(
                self,
            ).launch_position is Some),
            *final(self) == old(self).launched(scaled, bounds),
    {
        if self.launch_centered || self.frame.is_none() || self.launch_position.is_none() {
            return false;
        }
        let center: Point = view::clamp_to_capture_bounds(scaled, bounds);
        self.launch_position = None;
        self.view_center = Some(center);
        self.cursor_bake = Some(center);
        self.launch_centered = true;
        true
    }

    /// The pointer came over the magnifier. The first time the view is centred
    /// on it. `px` is the position in whole pixels, `scaled` in capture pixels.
    /// Returns whether the view was centred.
    pub fn pointer_entered(
        &mut self,
        position: Point,
        px: (i32, i32),
        scaled: Point,
        bounds: Point,
    ) -> (centered: bool)
        requires
            view::valid_bounds(bounds),
        ensures
            ({
                let at = old(self).pointing(position, px);
                let s = if at.launch_centered {
                    at
                } else {
                    Session { launch_position: Some(position), ..at }
                };
                &&& *final(self) == s.launched(scaled, bounds)
                &&& centered == (!old(self).launch_centered && old(self).frame is Some)
            }),
    {
        self.pointer = position;
        self.state.pointer_position = px;
        if !self.launch_centered {
            self.launch_position = Some(position);
            self.apply_launch_centering(scaled, bounds)
        } else {
            false
        }
    }

    /// The pointer moved over the magnifier. Returns whether it is really
    /// elsewhere.
    pub fn pointer_moved(&mut self, position: Point, px: (i32, i32), now: u64) -> (moved: bool)
        ensures
            moved == !same_point(position, old(self).pointer),
            *final(self) == (if moved {
                Session {
                    timers: Timers { last_motion_at: Some(now), ..old(self).timers },
                    ..old(self).pointing(position, px)
                }
            } else {
                *old(self)
            }),
    {
        if position.0.same(self.pointer.0) && position.1.same(self.pointer.1) {
            return false;
        }
        self.timers.last_motion_at = Some(now);
        self.pointer = position;
        self.state.pointer_position = px;
        true
    }

    /// The pointer moved in screenshot mode. `aim` is the capture pixel under
    /// the magnified pointer. Returns whether to draw now.
    pub fn shot_motion(
        &mut self,
        position: Point,
        px: (i32, i32),
        aim: (i32, i32),
        now: u64,
    ) -> (draw: bool)
        requires
            old(self).wf(),
        ensures
            final(self).wf(),
            draw == timing::redraw_due(old(self).timers.last_draw_at, now),
            *final(self) == (Session {
                shot: final(self).shot,
                timers: if draw {
                    Timers { redraw_pending: false, last_draw_at: Some(now), ..old(self).timers }
                } else {
                    Timers { redraw_pending: true, ..old(self).timers }
                },
                ..old(self).pointing(position, px)
            }),
            match (old(self).shot.dragging, old(self).shot.drag_start, old(self).frame) {
                (true, Some(start), Some(bounds)) => {
                    &&& final(self).shot == (ScreenshotMode {
                        rect: final(self).shot.rect,
                        ..old(self).shot
                    })
                    &&& screenshot_mode::is_dragged(final(self).shot.rect, start, aim, bounds)
                },
                _ => final(self).shot == old(self).shot,
            },
    {
        self.pointer = position;
        self.state.pointer_position = px;
        self.shot.on_motion(self.frame, aim);
        self.timers.request_motion_redraw(now)
    }

    /// A step of zooming by motion: `y` is the height of the pointer now, `dy`
    /// its motion since the last step, `gap` the distance of the zoom from its
    /// minimum, `travel` the ignored travel with this motion, `moved` the zoom
    /// that the motion alone would give. Returns the zoom to set.
    pub fn hold_step(
        &mut self,
        y: Number,
        dy: Number,
        gap: Number,
        travel: Number,
        moved: Number,
        fit: Number,
    ) -> (r: Number)
        requires
            old(self).wf(),
            fit.at_most(number::num(number::ONE)),
        ensures
            ({
                let (z, dead) = zoom::held_zoom(
                    old(self).state.zoom,
                    state::runtime_lowest(old(self).state.config, fit),
                    state::highest_zoom(old(self).state.config),
                    dy,
                    gap,
                    travel,
                    moved,
                );
                &&& r == z
                &&& *final(self) == (Session {
                    hold: HoldToZoom { last_y: y, dead_travel: dead, ..old(self).hold },
                    ..*old(self)
                })
            }),
            final(self).wf(),
    {
        let min: Number = state::runtime_min_zoom(&self.state.config, fit);
        let max: Number = state::max_zoom_of(&self.state.config);
        let (z, dead): (Number, Number) = zoom::htz_floor_zoom(
            self.state.zoom,
            min,
            max,
            dy,
            gap,
            travel,
            moved,
        );
        self.hold.last_y = y;
        self.hold.dead_travel = dead;
        z
    }

    /// Sets a zoom unless it is the same up to a hair; `change` is the distance
    /// of the two. Returns whether it was set.
    pub fn apply_zoom(&mut self, new_zoom: Number, change: Number, fit: Number) -> (set: bool)
        requires
            old(self).wf(),
            fit.at_most(number::num(number::ONE)),
        ensures
            set == number::num(zoom::HAIR).below(change),
            *final(self) == (if set {
                old(self).zoomed(new_zoom, state::runtime_lowest(old(self).state.config, fit))
            } else {
                *old(self)
            }),
            final(self).wf(),
    {
        if (Number { bits: zoom::HAIR }).lt(change) {
            let min: Number = state::runtime_min_zoom(&self.state.config, fit);
            self.state.set_zoom(new_zoom, min);
            true
        } else {
            false
        }
    }

    /// Sets the zoom that a notch of the wheel leads to, unless it is the same
    /// up to a hair; `change` is the distance of the two. The limit is that of
    /// the wheel's mode. Returns whether it was set.
    pub fn apply_wheel_zoom(&mut self, new_zoom: Number, change: Number, fit: Number) -> (set: bool)
        requires
            old(self).wf(),
            fit.at_most(number::num(number::ONE)),
        ensures
            set == number::num(zoom::HAIR).below(change),
            *final(self) == (if set {
                old(self).zoomed_within(
                    new_zoom,
                    state::runtime_lowest(old(self).state.config, fit),
                    state::wheel_highest(old(self).state.config),
                )
            } else {
                *old(self)
            }),
            final(self).wf(),
    {
        if (Number { bits: zoom::HAIR }).lt(change) {
            let min: Number = state::runtime_min_zoom(&self.state.config, fit);
            let max: Number = state::max_wheel_zoom(&self.state.config);
            self.state.set_zoom_within(new_zoom, min, max);
            true
        } else {
            false
        }
    }

    /// The session with the view moved, where there is one; on the captured
    /// frame.
    pub open spec fn panned(self, target: Point, bounds: Point) -> Session {
        Session {
            view_center: match self.view_center {
                Some(_) => Some(self.onto_frame(target, bounds)),
                None => None,
            },
            ..self
        }
    }

    /// Moves the middle of the view.
    pub fn pan_to(&mut self, target: Point, bounds: Point)
        requires
            view::valid_bounds(bounds),
        ensures
            *final(self) == old(self).panned(target, bounds),
    {
        if self.view_center.is_some() {
            let c: Point = self.clamp_to_capture(target, bounds);
            self.view_center = Some(c);
        }
    }

    /// Moves the middle of the view sideways only, as long as zooming by motion
    /// holds its height.
    pub fn pan_sideways(&mut self, x: Number, bounds: Point)
        requires
            view::valid_bounds(bounds),
        ensures
            *final(self) == (Session {
                view_center: match old(self).view_center {
                    Some((_, y)) => Some((old(self).onto_frame((x, y), bounds).0, y)),
                    None => None,
                },
                ..*old(self)
            }),
    {
        if let Some((_, y)) = self.view_center {
            let c: Point = self.clamp_to_capture((x, y), bounds);
            self.view_center = Some((c.0, y));
        }
    }

    /// The session with the view pulled towards the content under the hand, from
    /// which it is `distance` away.
    pub open spec fn pulled(self, distance: Number, target: Point, bounds: Point) -> Session {
        Session {
            view_center: match self.view_center {
                Some(c) => if number::num(HALF).below(distance) {
                    Some(view::corrected(c, target, bounds))
                } else {
                    Some(c)
                },
                None => None,
            },
            ..self
        }
    }

    /// Moves the middle of the view a step towards the content under the hand.
    /// A small distance is left alone.
    pub fn correct_view(&mut self, distance: Number, target: Point, bounds: Point)
        requires
            view::valid_bounds(bounds),
        ensures
            *final(self) == old(self).pulled(distance, target, bounds),
    {
        if let Some(c) = self.view_center {
            if (Number { bits: HALF }).lt(distance) {
                self.view_center = Some(view::correct_toward_hand(c, target, bounds));
            }
        }
    }

    /// Whether the middle button is the hold-to-zoom key.
    pub open spec fn middle_holds(self) -> bool {
        self.state.config.keybindings.hold_to_zoom@ == "MMB"@
    }

    fn is_middle_hold(&self) -> (r: bool)
        ensures
            r == self.middle_holds(),
    {
        text::same_text(self.state.config.keybindings.hold_to_zoom.as_str(), "MMB")
    }

    /// The session after a button press: the right one quits, the middle one
    /// arms hold-to-zoom or, with another key for that, goes back to the default
    /// zoom.
    pub open spec fn after_button(
        self,
        button: u32,
        fit: Number,
        pointer_capture: Point,
        bounds: Point,
    ) -> Session {
        if button == screenshot_mode::BTN_RIGHT {
            Session { exit: true, ..self }
        } else if button == screenshot_mode::BTN_MIDDLE {
            if self.middle_holds() {
                self.armed(pointer_capture, bounds)
            } else {
                self.zoom_reset(fit)
            }
        } else {
            self
        }
    }

    /// A button was pressed over the magnifier. Returns whether to draw.
    pub fn press_button(
        &mut self,
        button: u32,
        fit: Number,
        pointer_capture: Point,
        bounds: Point,
    ) -> (redraw: bool)
        requires
            old(self).wf(),
            view::valid_bounds(bounds),
            fit.at_most(number::num(number::ONE)),
        ensures
            *final(self) == old(self).after_button(button, fit, pointer_capture, bounds),
            redraw == (button == screenshot_mode::BTN_MIDDLE && !old(self).middle_holds()),
            final(self).wf(),
    {
        if button == screenshot_mode::BTN_RIGHT {
            self.exit = true;
            false
        } else if button == screenshot_mode::BTN_MIDDLE {
            if self.is_middle_hold() {
                self.arm_hold(pointer_capture, bounds);
                false
            } else {
                self.reset_zoom(fit);
                true
            }
        } else {
            false
        }
    }

    /// A button was released over the magnifier. Returns whether to draw.
    pub fn release_button(&mut self, button: u32, now: u64) -> (redraw: bool)
        requires
            old(self).wf(),
        ensures
            ({
                let holds = button == screenshot_mode::BTN_MIDDLE && old(self).middle_holds();
                &&& redraw == (holds && old(self).hold.active)
                &&& *final(self) == (if holds {
                    old(self).released(now)
                } else {
                    *old(self)
                })
            }),
            final(self).wf(),
    {
        if button == screenshot_mode::BTN_MIDDLE && self.is_middle_hold() {
            self.release_hold(now)
        } else {
            false
        }
    }
}

/// With a captured frame, no motion takes the middle of the view off it.
pub proof fn panning_stays_on_frame(s: Session, target: Point, bounds: Point)
    requires
        s.frame is Some,
        s.view_center is Some,
        view::valid_bounds(bounds),
        !target.0.nan(),
        !target.1.nan(),
    ensures
        view::on_frame(s.panned(target, bounds).view_center->0, bounds),
{
}

/// The pull towards the hand never takes the view off the captured frame either,
/// and never off an edge that the view is at.
pub proof fn pull_respects_edges(s: Session, distance: Number, target: Point, bounds: Point)
    requires
        s.view_center is Some,
        view::valid_bounds(bounds),
        view::on_frame(s.view_center->0, bounds),
        !target.0.nan(),
        !target.1.nan(),
    ensures
        ({
            let before = s.view_center->0;
            let after = s.pulled(distance, target, bounds).view_center->0;
            &&& view::on_frame(after, bounds)
            &&& view::at_wall(before.0, bounds.0) ==> after.0 == before.0
            &&& view::at_wall(before.1, bounds.1) ==> after.1 == before.1
        }),
{
    view::wall_wins(s.view_center->0, target, bounds);
}

/// The view is centred on the pointer once: entering again never moves it.
pub proof fn later_enters_do_not_recenter(s: Session, scaled: Point, bounds: Point)
    requires
        s.launch_centered,
    ensures
        s.launched(scaled, bounds) == s,
{
}

/// Pressing and releasing the hold-to-zoom button moves neither view nor zoom,
/// where there is a view.
pub proof fn hold_and_release_keep_view_and_zoom(
    s: Session,
    pointer_capture: Point,
    bounds: Point,
    now: u64,
)
    requires
        s.view_center is Some,
    ensures
        s.armed(pointer_capture, bounds).released(now).view_center == s.view_center,
        s.armed(pointer_capture, bounds).released(now).state == s.state,
        !s.armed(pointer_capture, bounds).released(now).hold.active,
{
}

/// A notch by a factor sets the zoom times the factor, from the smallest zoom to
/// the largest one there is: the largest zoom of the settings does not cut it
/// off.
pub proof fn factor_notch_reaches_every_zoom(s: Session, fit: Number, zoom_in: bool, moved: Number)
    requires
        s.state.config.scroll_zoom_mode == ScrollZoomMode::Factor,
        fit.at_most(number::num(number::ONE)),
        state::runtime_lowest(s.state.config, fit).at_most(s.state.zoom),
    ensures
        ({
            let min = state::runtime_lowest(s.state.config, fit);
            let next = factor_result(s.state.zoom, min, zoom_in, moved);
            s.zoomed_within(next, min, state::wheel_highest(s.state.config)).state.zoom
                == moved.clamped(min, number::num(config::MAX_ZOOM))
        }),
{
    number::clamping_is_idempotent(
        moved,
        state::runtime_lowest(s.state.config, fit),
        number::num(config::MAX_ZOOM),
    );
}

/// The right button quits, the middle one goes back to the default zoom or, as
/// the hold-to-zoom key, arms that; other buttons do nothing.
pub proof fn buttons_quit_reset_or_hold(
    s: Session,
    button: u32,
    fit: Number,
    pointer_capture: Point,
    bounds: Point,
)
    requires
        !s.state.config.max_zoom.nan(),
        fit.at_most(number::num(0x3FF0_0000_0000_0000)),
    ensures
        ({
            let r = s.after_button(button, fit, pointer_capture, bounds);
            let config = s.state.config;
            let holds = config.keybindings.hold_to_zoom@ == "MMB"@;
            let low = state::runtime_lowest(config, fit);
            let high = state::highest_zoom(config);
            &&& button == 0x111 ==> r == (Session { exit: true, ..s })
            &&& button != 0x111 ==> r.exit == s.exit
            &&& button == 0x112 && !holds ==> r.hold == s.hold && r.view_center == s.view_center
            &&& button == 0x112 && !holds ==> (config.default_zoom matches Some(z) ==> low.at_most(
                z,
            ) && z.at_most(high) ==> r.state.zoom == z)
            &&& button == 0x112 && !holds && config.default_zoom is None ==> r.state.zoom
                == number::num(0x3FF0_0000_0000_0000)
            &&& button == 0x112 && holds ==> r.hold.active && r.hold.last_y == s.pointer.1
                && r.hold.dead_travel == number::num(0) && r.state == s.state
            &&& button == 0x112 && holds && s.view_center is Some ==> r.view_center == s.view_center
            &&& button == 0x112 && holds && s.view_center is None && view::on_frame(
                pointer_capture,
                bounds,
            ) ==> r.view_center == Some(pointer_capture)
            &&& button != 0x111 && button != 0x112 ==> r == s
        }),
{
}

/// Pointer events go to the settings where they are open, else to screenshot
/// mode where it is on, else to the magnifier.
pub proof fn events_go_to_what_is_shown(s: Session)
    ensures
        s.config_open ==> s.route() == PointerRoute::Config,
        !s.config_open && s.shot.active ==> s.route() == PointerRoute::Screenshot,
        !s.config_open && !s.shot.active ==> s.route() == PointerRoute::Magnifier,
{
}

/// Motion zooms while hold-to-zoom is on, and else pans the view there is; Shift
/// slows it. The pull towards the hand is there unless the zoom scales panning.
pub proof fn motion_zooms_or_pans(s: Session)
    ensures
        ({
            let c = s.case_of_motion();
            let tuned = number::num(0).below(s.state.config.pan_tuning);
            &&& s.hold.active && s.view_center is Some ==> c == MotionCase::Hold {
                pan: true,
                slow: s.shift_held,
            }
            &&& s.hold.active && s.view_center is None ==> c == MotionCase::Hold {
                pan: false,
                slow: s.shift_held,
            }
            &&& !s.hold.active && s.view_center is Some && tuned ==> c == MotionCase::Pan {
                slow: s.shift_held,
                pull: false,
            }
            &&& !s.hold.active && s.view_center is Some && !tuned ==> c == MotionCase::Pan {
                slow: s.shift_held,
                pull: true,
            }
            &&& !s.hold.active && s.view_center is None ==> c == MotionCase::Still
        }),
{
}

/// Panning to a place on the captured frame takes the view exactly there, and
/// changes nothing else. Without a view there is nothing to pan.
pub proof fn panning_goes_to_its_target(s: Session, target: Point, bounds: Point)
    ensures
        ({
            let r = s.panned(target, bounds);
            &&& s.view_center is Some && (s.frame is None || view::on_frame(target, bounds))
                ==> r.view_center == Some(target)
            &&& s.view_center is None ==> r.view_center is None
            &&& r == (Session { view_center: r.view_center, ..s })
        }),
{
}

/// The pull towards the hand takes a view that is off the edges of the frame to
/// its target, unless it is there already up to half a pixel.
pub proof fn pull_goes_to_its_target(
    s: Session,
    at: Point,
    distance: Number,
    target: Point,
    bounds: Point,
)
    requires
        s.view_center == Some(at),
        number::num(0).below(at.0) && at.0.below(bounds.0),
        number::num(0).below(at.1) && at.1.below(bounds.1),
        view::on_frame(target, bounds),
    ensures
        ({
            let r = s.pulled(distance, target, bounds);
            let half = number::num(0x3FE0_0000_0000_0000);
            &&& half.below(distance) ==> r.view_center == Some(target)
            &&& distance.at_most(half) ==> r.view_center == Some(at)
            &&& r == (Session { view_center: r.view_center, ..s })
        }),
{
}

/// The view is centred on the pointer at launch as soon as there are a frame and
/// a position, and the frame is known to show a pointer there. Before that, and
/// afterwards, nothing happens.
pub proof fn launch_centers_on_the_pointer(s: Session, scaled: Point, bounds: Point)
    ensures
        ({
            let r = s.launched(scaled, bounds);
            let ready = !s.launch_centered && s.frame is Some && s.launch_position is Some;
            &&& ready && view::on_frame(scaled, bounds) ==> r.view_center == Some(scaled)
                && r.cursor_bake == Some(scaled)
            &&& ready ==> r.launch_centered && r.launch_position is None && r.state == s.state
                && r.pointer == s.pointer
            &&& !ready ==> r == s
        }),
{
}

/// Slowed motion moves the view once it has added up to half a pixel, and is
/// kept until then.
pub proof fn slowed_motion_adds_up(accum: Number, rounded: Number, left: Number)
    ensures
        ({
            let half = number::num(0x3FE0_0000_0000_0000);
            let minus_half = number::num(0xBFE0_0000_0000_0000);
            let (step, rest) = accumulated(accum, rounded, left);
            &&& half.at_most(accum) ==> step == rounded && rest == left
            &&& accum.at_most(minus_half) ==> step == rounded && rest == left
            &&& minus_half.below(accum) && accum.below(half) ==> step == number::num(0) && rest
                == accum
        }),
{
}

/// Where the pointer is stays what the last event said, in both readings, and
/// nothing else depends on it.
pub proof fn pointing_sets_the_pointer(s: Session, position: Point, px: (i32, i32))
    ensures
        ({
            let r = s.pointing(position, px);
            &&& r.pointer == position
            &&& r.state.pointer_position == px
            &&& r.state.zoom == s.state.zoom
            &&& r.state.config == s.state.config
            &&& r.state.osd_visible == s.state.osd_visible
            &&& r.state.cursor_visible == s.state.cursor_visible
            &&& r.view_center == s.view_center
            &&& r.shot == s.shot
            &&& r.hold == s.hold
        }),
{
}

/// Two readings are the same place only where both coordinates are equal.
pub proof fn moving_is_a_change_of_place(a: Point, b: Point)
    requires
        !a.0.nan() && !a.1.nan() && !b.0.nan() && !b.1.nan(),
    ensures
        a.0.below(b.0) || b.0.below(a.0) || a.1.below(b.1) || b.1.below(a.1) <==> !same_point(a, b),
{
}

/// A notch by a factor follows the factor within the limits; from below the
/// smallest zoom it only zooms in.
pub proof fn factor_notch_follows_the_factor(
    zoom: Number,
    min: Number,
    zoom_in: bool,
    moved: Number,
)
    requires
        min.at_most(moved),
        moved.at_most(number::num(0x4040_0000_0000_0000)),
    ensures
        min.at_most(zoom) || zoom_in ==> factor_result(zoom, min, zoom_in, moved) == moved,
        zoom.below(min) && !zoom_in ==> factor_result(zoom, min, zoom_in, moved) == zoom,
{
}

} // verus!
