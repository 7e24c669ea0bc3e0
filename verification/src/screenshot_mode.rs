//! Screenshot mode: dragging out a selection, nudging it, saving it.

use crate::config::{Keybindings, ScreenshotScale};
use crate::keys;
use crate::number::Number;
use crate::screenshot;
use crate::screenshot::Selection;
use crate::timing;
use vstd::prelude::*;

verus! {

/// The left mouse button.
pub const BTN_LEFT: u32 = 0x110;

/// The right mouse button.
pub const BTN_RIGHT: u32 = 0x111;

/// The middle mouse button.
pub const BTN_MIDDLE: u32 = 0x112;

/// The size of the captured frame, where there is one.
pub type Frame = Option<(i32, i32)>;

/// A frame has at least one pixel.
pub open spec fn valid_frame(frame: Frame) -> bool {
    frame matches Some((w, h)) ==> 1 <= w && 1 <= h
}

/// The whole frame as a selection.
pub open spec fn whole(frame: Frame) -> Option<Selection> {
    match frame {
        Some((w, h)) => Some((0i32, 0i32, w, h)),
        None => None,
    }
}

fn whole_of(frame: Frame) -> (r: Option<Selection>)
    ensures
        r == whole(frame),
{
    match frame {
        Some((w, h)) => Some((0, 0, w, h)),
        None => None,
    }
}

/// The other scale.
pub open spec fn other_scale(mode: ScreenshotScale) -> ScreenshotScale {
    match mode {
        ScreenshotScale::Real => ScreenshotScale::Magnified,
        ScreenshotScale::Magnified => ScreenshotScale::Real,
    }
}

/// Switches between saving real pixels and magnified ones.
pub fn toggle_screenshot_scale(mode: ScreenshotScale) -> (r: ScreenshotScale)
    ensures
        r == other_scale(mode),
{
    match mode {
        ScreenshotScale::Real => ScreenshotScale::Magnified,
        ScreenshotScale::Magnified => ScreenshotScale::Real,
    }
}

/// Switching the scale twice changes nothing, once always does.
pub proof fn scale_toggle_undoes_itself(mode: ScreenshotScale)
    ensures
        other_scale(other_scale(mode)) == mode,
        other_scale(mode) != mode,
{
}

/// The state of screenshot mode.
#[derive(Clone, Copy, Debug)]
pub struct ScreenshotMode {
    pub active: bool,
    /// Whether the left button is held to drag out a selection.
    pub dragging: bool,
    /// The capture pixel where the drag began.
    pub drag_start: Option<(i32, i32)>,
    pub rect: Option<Selection>,
    /// The scale that was switched to, in place of the configured one.
    pub scale: Option<ScreenshotScale>,
    /// The nudge key that is held, and when it repeats.
    pub nudge_hold: Option<(char, u64)>,
    /// Where the magnified pointer is drawn relative to the pointer.
    pub cursor_offset: Option<(Number, Number)>,
}

/// What a key did in screenshot mode.
#[derive(Clone, Copy, Debug, PartialEq, Eq, Structural)]
pub enum ShotKey {
    /// Something within the mode, or nothing.
    Done,
    /// The selection is to be saved.
    Save,
}

impl ScreenshotMode {
    /// A selection lies on the frame and has pixels; there is one only where
    /// there is a frame.
    pub open spec fn wf(self, frame: Frame) -> bool {
        self.rect matches Some(rect) ==> frame is Some && screenshot::valid_selection(
            rect,
            frame->0,
        )
    }

    /// The mode is off.
    pub open spec fn off() -> ScreenshotMode {
        ScreenshotMode {
            active: false,
            dragging: false,
            drag_start: None,
            rect: None,
            scale: None,
            nudge_hold: None,
            cursor_offset: None,
        }
    }

    pub fn new() -> (r: ScreenshotMode)
        ensures
            r == ScreenshotMode::off(),
    {
        ScreenshotMode {
            active: false,
            dragging: false,
            drag_start: None,
            rect: None,
            scale: None,
            nudge_hold: None,
            cursor_offset: None,
        }
    }

    /// Starts the mode, with the whole frame selected or with nothing. `offset`
    /// keeps the magnified pointer where it is.
    pub fn enter(&mut self, fullscreen: bool, frame: Frame, offset: Option<(Number, Number)>)
        requires
            valid_frame(frame),
        ensures
            *final(self) == (ScreenshotMode {
                active: true,
                dragging: false,
                drag_start: None,
                rect: if fullscreen {
                    whole(frame)
                } else {
                    None
                },
                scale: None,
                nudge_hold: old(self).nudge_hold,
                cursor_offset: offset,
            }),
            final(self).wf(frame),
    {
        self.active = true;
        self.scale = None;
        self.dragging = false;
        self.drag_start = None;
        self.rect = if fullscreen { whole_of(frame) } else { None };
        self.cursor_offset = offset;
    }

    /// Leaves the mode and forgets the selection.
    pub fn exit(&mut self)
        ensures
            *final(self) == ScreenshotMode::off(),
    {
        self.active = false;
        self.dragging = false;
        self.drag_start = None;
        self.rect = None;
        self.scale = None;
        self.nudge_hold = None;
        self.cursor_offset = None;
    }

    /// The scale that a save uses.
    pub open spec fn scale_in_force(self, configured: ScreenshotScale) -> ScreenshotScale {
        match self.scale {
            Some(s) => s,
            None => configured,
        }
    }

    pub fn effective_screenshot_scale(&self, configured: ScreenshotScale) -> (r: ScreenshotScale)
        ensures
            r == self.scale_in_force(configured),
    {
        match self.scale {
            Some(s) => s,
            None => configured,
        }
    }

    /// The selection after a nudge key, with the pointer at `aim` (in
    /// subpixels): its nearest border moves. Without a selection or a frame
    /// nothing moves.
    pub open spec fn nudged_rect(self, key: char, frame: Frame, aim: (i64, i64)) -> Option<Selection> {
        match (self.rect, frame, screenshot::push_of(key)) {
            (Some(rect), Some(bounds), Some(push)) => {
                let n = screenshot::nudged(
                    rect,
                    screenshot::nearest_border(rect, aim),
                    push,
                    bounds,
                );
                Some((n.0 as i32, n.1 as i32, n.2 as i32, n.3 as i32))
            },
            _ => self.rect,
        }
    }

    /// Nudges the border nearest to the pointer by one pixel.
    pub fn nudge(&mut self, key: char, frame: Frame, aim: (i64, i64))
        requires
            valid_frame(frame),
            old(self).wf(frame),
        ensures
            *final(self) == (ScreenshotMode {
                rect: old(self).nudged_rect(key, frame, aim),
                ..*old(self)
            }),
            final(self).wf(frame),
    {
        if let Some(rect) = self.rect {
            if let Some(bounds) = frame {
                let border: screenshot::ScreenshotBorder = screenshot::active_screenshot_border(
                    rect,
                    aim,
                );
                proof {
                    if let Some(push) = screenshot::push_of(key) {
                        screenshot::nudge_keeps_selection_valid(rect, border, push, bounds);
                    }
                }
                self.rect = Some(screenshot::nudge_screenshot_border(rect, border, key, bounds));
            }
        }
    }

    /// Repeats a held nudge key if it is due, and sets when it repeats next.
    pub fn fire_repeat_nudges(&mut self, frame: Frame, aim: (i64, i64), now: u64) -> (fired: bool)
        requires
            valid_frame(frame),
            old(self).wf(frame),
            now + timing::NUDGE_REPEAT_INTERVAL <= u64::MAX,
        ensures
            fired == (old(self).nudge_hold matches Some((_, at)) && now >= at),
            !fired ==> *final(self) == *old(self),
            fired ==> {
                let (key, at) = old(self).nudge_hold->0;
                &&& final(self).nudge_hold is Some
                &&& (final(self).nudge_hold->0).0 == key
                &&& now < (final(self).nudge_hold->0).1 <= now + timing::NUDGE_REPEAT_INTERVAL
                &&& ((final(self).nudge_hold->0).1 - at) % (timing::NUDGE_REPEAT_INTERVAL as int) == 0
                &&& *final(self) == (ScreenshotMode {
                    rect: old(self).nudged_rect(key, frame, aim),
                    nudge_hold: final(self).nudge_hold,
                    ..*old(self)
                })
            },
            final(self).wf(frame),
    {
        if let Some((key, at)) = self.nudge_hold {
            if now >= at {
                let next: u64 = timing::advance_repeat_deadline(
                    now,
                    at,
                    timing::NUDGE_REPEAT_INTERVAL,
                );
                self.nudge_hold = Some((key, next));
                self.nudge(key, frame, aim);
                return true;
            }
        }
        false
    }

    /// What a key does in the mode: select the whole frame, save the selection,
    /// leave, switch the scale, or nudge (and repeat while held). Other keys do
    /// nothing.
    pub open spec fn after_key(
        self,
        keysym: u32,
        bindings: Keybindings,
        configured: ScreenshotScale,
        frame: Frame,
        aim: (i64, i64),
        now: u64,
    ) -> (ScreenshotMode, ShotKey) {
        let name = keys::key_name(keysym);
        if name == bindings.screenshot_fullscreen@ {
            (
                ScreenshotMode {
                    rect: if frame is Some {
                        whole(frame)
                    } else {
                        self.rect
                    },
                    ..self
                },
                ShotKey::Done,
            )
        } else if keysym == keys::KEY_RETURN || keysym == keys::KEY_KP_ENTER {
            (
                self,
                if self.rect is Some {
                    ShotKey::Save
                } else {
                    ShotKey::Done
                },
            )
        } else if keysym == keys::KEY_ESCAPE || keysym == keys::KEY_Q || keysym
            == keys::KEY_Q_UPPER {
            (ScreenshotMode::off(), ShotKey::Done)
        } else if name == bindings.screenshot_scale_toggle@ {
            (
                ScreenshotMode { scale: Some(other_scale(self.scale_in_force(configured))), ..self },
                ShotKey::Done,
            )
        } else if keys::nudge_key(keysym) is Some {
            let key = keys::nudge_key(keysym)->0;
            let rect = self.nudged_rect(key, frame, aim);
            (
                ScreenshotMode {
                    rect,
                    nudge_hold: if rect is Some {
                        Some((key, (now + timing::NUDGE_REPEAT_DELAY) as u64))
                    } else {
                        self.nudge_hold
                    },
                    ..self
                },
                ShotKey::Done,
            )
        } else {
            (self, ShotKey::Done)
        }
    }

    /// Handles a key in the mode.
    pub fn handle_screenshot_key(
        &mut self,
        keysym: u32,
        bindings: &Keybindings,
        configured: ScreenshotScale,
        frame: Frame,
        aim: (i64, i64),
        now: u64,
    ) -> (r: ShotKey)
        requires
            valid_frame(frame),
            old(self).wf(frame),
            now + timing::NUDGE_REPEAT_DELAY <= u64::MAX,
        ensures
            (*final(self), r) == old(self).after_key(
                keysym,
                *bindings,
                configured,
                frame,
                aim,
                now,
            ),
            final(self).wf(frame),
    {
        let name: String = keys::keysym_to_string(keysym);
        if name == bindings.screenshot_fullscreen {
            if frame.is_some() {
                self.rect = whole_of(frame);
            }
            ShotKey::Done
        } else if keysym == keys::KEY_RETURN || keysym == keys::KEY_KP_ENTER {
            if self.rect.is_some() {
                ShotKey::Save
            } else {
                ShotKey::Done
            }
        } else if keysym == keys::KEY_ESCAPE || keysym == keys::KEY_Q || keysym
            == keys::KEY_Q_UPPER {
            self.exit();
            ShotKey::Done
        } else if name == bindings.screenshot_scale_toggle {
            self.scale = Some(toggle_screenshot_scale(self.effective_screenshot_scale(configured)));
            ShotKey::Done
        } else {
            if let Some(key) = keys::nudge_key_of(keysym) {
                self.nudge(key, frame, aim);
                if self.rect.is_some() {
                    self.nudge_hold = Some((key, now + timing::NUDGE_REPEAT_DELAY));
                }
            }
            ShotKey::Done
        }
    }

    /// The pointer moved; `aim` is the capture pixel under the magnified
    /// pointer. While dragging, the selection follows it.
    pub fn on_motion(&mut self, frame: Frame, aim: (i32, i32))
        requires
            valid_frame(frame),
            old(self).wf(frame),
        ensures
            match (old(self).dragging, old(self).drag_start, frame) {
                (true, Some(start), Some(bounds)) => {
                    &&& *final(self) == (ScreenshotMode { rect: final(self).rect, ..*old(self) })
                    &&& is_dragged(final(self).rect, start, aim, bounds)
                },
                _ => *final(self) == *old(self),
            },
            final(self).wf(frame),
    {
        if self.dragging {
            if let Some(start) = self.drag_start {
                if let Some(bounds) = frame {
                    self.rect = Some(screenshot::normalize_screenshot_rect(start, aim, bounds));
                }
            }
        }
    }

    /// A button was pressed at capture pixel `aim`. The left one starts a drag,
    /// the right one leaves the mode.
    pub fn on_press(&mut self, button: u32, frame: Frame, aim: (i32, i32))
        requires
            valid_frame(frame),
            old(self).wf(frame),
        ensures
            button == BTN_LEFT ==> {
                &&& *final(self) == (ScreenshotMode {
                    drag_start: Some(aim),
                    dragging: true,
                    rect: final(self).rect,
                    ..*old(self)
                })
                &&& match frame {
                    Some(bounds) => is_dragged(final(self).rect, aim, aim, bounds),
                    None => final(self).rect == old(self).rect,
                }
            },
            button == BTN_RIGHT ==> *final(self) == ScreenshotMode::off(),
            button != BTN_LEFT && button != BTN_RIGHT ==> *final(self) == *old(self),
            final(self).wf(frame),
    {
        if button == BTN_LEFT {
            self.drag_start = Some(aim);
            self.dragging = true;
            if let Some(bounds) = frame {
                self.rect = Some(screenshot::normalize_screenshot_rect(aim, aim, bounds));
            }
        } else if button == BTN_RIGHT {
            self.exit();
        }
    }

    /// A button was released. The left one ends a drag.
    pub fn on_release(&mut self, button: u32)
        ensures
            *final(self) == (if button == BTN_LEFT {
                ScreenshotMode { dragging: false, drag_start: None, ..*old(self) }
            } else {
                *old(self)
            }),
    {
        if button == BTN_LEFT {
            self.dragging = false;
            self.drag_start = None;
        }
    }

    /// A key was released: letting go of a nudge key ends its repeating.
    pub fn on_key_release(&mut self, keysym: u32)
        ensures
            *final(self) == (if old(self).active && keys::nudge_key(keysym) is Some {
                ScreenshotMode { nudge_hold: None, ..*old(self) }
            } else {
                *old(self)
            }),
    {
        if self.active && self.nudge_hold.is_some() {
            if keys::nudge_key_of(keysym).is_some() {
                self.nudge_hold = None;
            }
        }
    }

    /// The compositor repeats a key. It nudges only where the mode does not
    /// repeat the key itself.
    pub fn on_key_repeat(&mut self, keysym: u32, frame: Frame, aim: (i64, i64)) -> (redraw: bool)
        requires
            valid_frame(frame),
            old(self).wf(frame),
        ensures
            redraw == (old(self).nudge_hold is None && keys::nudge_key(keysym) is Some),
            *final(self) == (if redraw {
                ScreenshotMode {
                    rect: old(self).nudged_rect(keys::nudge_key(keysym)->0, frame, aim),
                    ..*old(self)
                }
            } else {
                *old(self)
            }),
            final(self).wf(frame),
    {
        if self.nudge_hold.is_none() {
            if let Some(key) = keys::nudge_key_of(keysym) {
                self.nudge(key, frame, aim);
                return true;
            }
        }
        false
    }
}

/// The selection is what a drag from `start` to `end` selects.
pub open spec fn is_dragged(
    rect: Option<Selection>,
    start: (i32, i32),
    end: (i32, i32),
    bounds: (i32, i32),
) -> bool {
    &&& rect is Some
    &&& ((rect->0).0 as int, (rect->0).2 as int) == screenshot::dragged_span(
        start.0 as int,
        end.0 as int,
        bounds.0 as int,
    )
    &&& ((rect->0).1 as int, (rect->0).3 as int) == screenshot::dragged_span(
        start.1 as int,
        end.1 as int,
        bounds.1 as int,
    )
}

/// A save is asked for only where there is a selection, and leaves it as it is.
pub proof fn saving_needs_a_selection(
    m: ScreenshotMode,
    keysym: u32,
    bindings: Keybindings,
    configured: ScreenshotScale,
    frame: Frame,
    aim: (i64, i64),
    now: u64,
)
    requires
        m.after_key(keysym, bindings, configured, frame, aim, now).1 == ShotKey::Save,
    ensures
        m.rect is Some,
        m.after_key(keysym, bindings, configured, frame, aim, now).0 == m,
{
}

/// Enter asks for a save exactly where there is a selection, and keeps the mode
/// as it is.
pub proof fn enter_saves_the_selection(
    s: ScreenshotMode,
    keysym: u32,
    bindings: Keybindings,
    configured: ScreenshotScale,
    frame: Frame,
    aim: (i64, i64),
    now: u64,
)
    requires
        keysym == 0xff0d || keysym == 0xff8d,
        keys::key_name(keysym) != bindings.screenshot_fullscreen@,
    ensures
        ({
            let (after, k) = s.after_key(keysym, bindings, configured, frame, aim, now);
            &&& after == s
            &&& s.rect is Some <==> k == ShotKey::Save
        }),
{
}

/// Escape and q leave the mode, and nothing of it is left.
pub proof fn escape_leaves_the_mode(
    s: ScreenshotMode,
    keysym: u32,
    bindings: Keybindings,
    configured: ScreenshotScale,
    frame: Frame,
    aim: (i64, i64),
    now: u64,
)
    requires
        keysym == 0xff1b || keysym == 'q' as u32 || keysym == 'Q' as u32,
        keys::key_name(keysym) != bindings.screenshot_fullscreen@,
    ensures
        ({
            let (after, k) = s.after_key(keysym, bindings, configured, frame, aim, now);
            &&& k == ShotKey::Done
            &&& !after.active
            &&& !after.dragging
            &&& after.drag_start is None
            &&& after.rect is None
            &&& after.scale is None
            &&& after.nudge_hold is None
            &&& after.cursor_offset is None
        }),
{
}

/// The key for the whole screen selects every pixel of the captured frame.
pub proof fn fullscreen_key_selects_everything(
    s: ScreenshotMode,
    keysym: u32,
    bindings: Keybindings,
    configured: ScreenshotScale,
    w: i32,
    h: i32,
    aim: (i64, i64),
    now: u64,
)
    requires
        keys::key_name(keysym) == bindings.screenshot_fullscreen@,
    ensures
        ({
            let (after, k) = s.after_key(keysym, bindings, configured, Some((w, h)), aim, now);
            &&& k == ShotKey::Done
            &&& after.rect == Some((0i32, 0i32, w, h))
            &&& after.active == s.active
            &&& after.scale == s.scale
            &&& s.after_key(keysym, bindings, configured, None, aim, now).0 == s
        }),
{
}

/// The key for the scale switches what a save holds to the other of the two,
/// and leaves the selection alone.
pub proof fn scale_key_switches_the_scale(
    s: ScreenshotMode,
    keysym: u32,
    bindings: Keybindings,
    configured: ScreenshotScale,
    frame: Frame,
    aim: (i64, i64),
    now: u64,
)
    requires
        keys::key_name(keysym) == bindings.screenshot_scale_toggle@,
        keys::key_name(keysym) != bindings.screenshot_fullscreen@,
        keysym != 0xff0d,
        keysym != 0xff8d,
        keysym != 0xff1b,
        keysym != 'q' as u32,
        keysym != 'Q' as u32,
    ensures
        ({
            let (after, k) = s.after_key(keysym, bindings, configured, frame, aim, now);
            &&& k == ShotKey::Done
            &&& after.rect == s.rect
            &&& after.active == s.active
            &&& s.scale is None && configured == ScreenshotScale::Real ==> after.scale_in_force(
                configured,
            ) == ScreenshotScale::Magnified
            &&& s.scale is None && configured == ScreenshotScale::Magnified
                ==> after.scale_in_force(configured) == ScreenshotScale::Real
            &&& s.scale == Some(ScreenshotScale::Real) ==> after.scale_in_force(configured)
                == ScreenshotScale::Magnified
            &&& s.scale == Some(ScreenshotScale::Magnified) ==> after.scale_in_force(configured)
                == ScreenshotScale::Real
        }),
{
}

/// A key that is neither bound nor one of the mode does nothing.
pub proof fn other_keys_do_nothing_in_the_mode(
    s: ScreenshotMode,
    keysym: u32,
    bindings: Keybindings,
    configured: ScreenshotScale,
    frame: Frame,
    aim: (i64, i64),
    now: u64,
)
    requires
        keys::key_name(keysym) != bindings.screenshot_scale_toggle@,
        keys::key_name(keysym) != bindings.screenshot_fullscreen@,
        keysym != 0xff0d,
        keysym != 0xff8d,
        keysym != 0xff1b,
        keysym != 'q' as u32 && keysym != 'Q' as u32,
        keysym != 'w' as u32 && keysym != 'W' as u32,
        keysym != 'a' as u32 && keysym != 'A' as u32,
        keysym != 's' as u32 && keysym != 'S' as u32,
        keysym != 'd' as u32 && keysym != 'D' as u32,
    ensures
        s.after_key(keysym, bindings, configured, frame, aim, now) == (s, ShotKey::Done),
{
}

/// What a nudge key does to a selection whose left edge the pointer faces: `a`
/// and `d` move that edge, `w` and `s` the whole selection, each by one pixel.
/// The key repeats 0.4 s later.
pub proof fn nudge_keys_move_the_selection(
    s: ScreenshotMode,
    keysym: u32,
    bindings: Keybindings,
    configured: ScreenshotScale,
    bounds: (i32, i32),
    aim: (i64, i64),
    now: u64,
)
    requires
        s.rect is Some,
        screenshot::valid_selection(s.rect->0, bounds),
        aim.0 < (s.rect->0).0 * 65536,
        (s.rect->0).1 * 65536 <= aim.1 <= (s.rect->0).3 * 65536,
        keys::key_name(keysym) != bindings.screenshot_fullscreen@,
        keys::key_name(keysym) != bindings.screenshot_scale_toggle@,
        now + 400_000_000 <= u64::MAX,
    ensures
        ({
            let (x0, y0, x1, y1) = s.rect->0;
            let (after, k) = s.after_key(keysym, bindings, configured, Some(bounds), aim, now);
            let repeats = |key: char|
                k == ShotKey::Done && after.nudge_hold == Some((key, (now + 400_000_000) as u64));
            &&& keysym == 'a' as u32 && x0 > 0 ==> after.rect == Some(
                ((x0 - 1) as i32, y0, x1, y1),
            ) && repeats('a')
            &&& keysym == 'd' as u32 && x0 + 1 < x1 ==> after.rect == Some(
                ((x0 + 1) as i32, y0, x1, y1),
            ) && repeats('d')
            &&& keysym == 'w' as u32 && y0 > 0 ==> after.rect == Some(
                (x0, (y0 - 1) as i32, x1, (y1 - 1) as i32),
            ) && repeats('w')
            &&& keysym == 's' as u32 && y1 < bounds.1 ==> after.rect == Some(
                (x0, (y0 + 1) as i32, x1, (y1 + 1) as i32),
            ) && repeats('s')
            &&& keysym == 'A' as u32 && x0 > 0 ==> after.rect == Some(
                ((x0 - 1) as i32, y0, x1, y1),
            ) && repeats('a')
        }),
{
    screenshot::points_beside_pick_the_edge_they_face(s.rect->0, aim);
}

/// A nudge moves the edge that lies nearest to the pointer, as the key says;
/// without a selection it does nothing.
pub proof fn nudge_goes_to_the_nearest_edge(
    s: ScreenshotMode,
    key: char,
    push: screenshot::Push,
    bounds: (i32, i32),
    aim: (i64, i64),
)
    requires
        screenshot::push_of(key) == Some(push),
        s.rect matches Some(rect) ==> screenshot::valid_selection(rect, bounds),
    ensures
        s.rect is None ==> s.nudged_rect(key, Some(bounds), aim) is None,
        s.nudged_rect(key, None, aim) == s.rect,
        s.rect matches Some(rect) ==> ({
            let n = screenshot::nudged(
                rect,
                screenshot::nearest_border(rect, aim),
                push,
                bounds,
            );
            s.nudged_rect(key, Some(bounds), aim) matches Some(after) && after.0 == n.0 && after.1
                == n.1 && after.2 == n.2 && after.3 == n.3
        }),
{
    if s.rect is Some {
        screenshot::nudge_keeps_selection_valid(
            s.rect->0,
            screenshot::nearest_border(s.rect->0, aim),
            push,
            bounds,
        );
    }
}

/// A drag on the captured frame selects what lies between where it began and
/// where it is now, whichever way it went.
pub proof fn drag_selects_its_box(
    rect: Option<Selection>,
    start: (i32, i32),
    end: (i32, i32),
    bounds: (i32, i32),
)
    requires
        is_dragged(rect, start, end, bounds),
        0 <= start.0 < end.0 <= bounds.0,
        0 <= start.1 < end.1 <= bounds.1,
    ensures
        rect == Some((start.0, start.1, end.0, end.1)),
{
    screenshot::drag_within_bounds_is_exact(start.0 as int, end.0 as int, bounds.0 as int);
    screenshot::drag_within_bounds_is_exact(start.1 as int, end.1 as int, bounds.1 as int);
}

/// A click on the captured frame selects the pixel that it hits.
pub proof fn click_selects_its_pixel(
    rect: Option<Selection>,
    at: (i32, i32),
    bounds: (i32, i32),
)
    requires
        is_dragged(rect, at, at, bounds),
        0 <= at.0 < bounds.0,
        0 <= at.1 < bounds.1,
    ensures
        rect == Some((at.0, at.1, (at.0 + 1) as i32, (at.1 + 1) as i32)),
{
    screenshot::drag_selects_what_lies_between(
        at.0 as int,
        at.0 as int,
        bounds.0 as int,
        at.0 as int,
    );
    screenshot::drag_selects_what_lies_between(
        at.1 as int,
        at.1 as int,
        bounds.1 as int,
        at.1 as int,
    );
}

} // verus!
