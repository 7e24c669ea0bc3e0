//! What a frame shows: where the view is, what goes into which corner, and the
//! text of the legend.

use crate::engine::Session;
use crate::number;
use crate::number::Number;
use crate::osd::Corner;
use crate::render::RgbaBuffer;
use crate::screenshot;
use crate::screenshot::{ScreenshotBorder, Selection};
use crate::screenshot_mode::ScreenshotMode;
use crate::state;
use crate::state::MagnifierState;
use crate::text;
use crate::timing;
use crate::timing::Timers;
use crate::view;
use crate::view::Point;
use crate::zoom;
use vstd::prelude::*;

verus! {

/// What to draw at all.
#[derive(Clone, Copy, Debug, PartialEq, Eq, Structural)]
pub enum FrameKind {
    /// The settings.
    Config,
    /// Nothing: there is no captured frame yet.
    Nothing,
    /// The magnified screen.
    Magnified,
}

/// Where the magnified pointer goes.
#[derive(Clone, Copy, Debug, PartialEq, Eq, Structural)]
pub enum CursorPlace {
    Hidden,
    /// The middle of the magnified screen.
    Center,
    /// With the pointer, at its offset.
    FollowsPointer,
}

/// A short text in place of the legend.
#[derive(Clone, Copy, Debug, PartialEq, Eq, Structural)]
pub enum Hint {
    Nothing,
    /// That Shift slows motion down.
    ShiftSlow,
    /// Which key shows the legend.
    Help,
}

impl Hint {
    /// The brightness of its text.
    pub open spec fn level(self) -> u8 {
        match self {
            Hint::ShiftSlow => 0xCC,
            _ => 0x80,
        }
    }

    pub fn color(self) -> (r: [u8; 3])
        ensures
            r@ == seq![self.level(), self.level(), self.level()],
    {
        match self {
            Hint::ShiftSlow => [0xCC, 0xCC, 0xCC],
            _ => [0x80, 0x80, 0x80],
        }
    }

    /// Its text.
    pub open spec fn spoken(self, toggle_osd: Seq<char>) -> Option<Seq<char>> {
        match self {
            Hint::Nothing => None,
            Hint::ShiftSlow => Some("Shift: slow"@),
            Hint::Help => Some(toggle_osd + ": help"@),
        }
    }

    pub fn line(self, toggle_osd: &str) -> (r: Option<String>)
        ensures
            match r {
                Some(s) => self.spoken(toggle_osd@) == Some(s@),
                None => self.spoken(toggle_osd@) is None,
            },
    {
        match self {
            Hint::Nothing => None,
            Hint::ShiftSlow => Some("Shift: slow".to_owned()),
            Hint::Help => Some(text::joined(toggle_osd, ": help")),
        }
    }
}

impl Session {
    /// What there is to draw.
    pub open spec fn kind(self) -> FrameKind {
        if self.config_open {
            FrameKind::Config
        } else if self.frame is None {
            FrameKind::Nothing
        } else {
            FrameKind::Magnified
        }
    }

    /// Starts a frame: repeats a held nudge key that is due, and says what to
    /// draw.
    pub fn start_frame(&mut self, aim: (i64, i64), now: u64) -> (r: FrameKind)
        requires
            old(self).wf(),
            now + timing::NUDGE_REPEAT_INTERVAL <= u64::MAX,
        ensures
            r == old(self).kind(),
            final(self).wf(),
            *final(self) == (Session { shot: final(self).shot, ..*old(self) }),
            match old(self).shot.nudge_hold {
                Some((key, at)) => if now >= at {
                    final(self).shot == (ScreenshotMode {
                        rect: old(self).shot.nudged_rect(key, old(self).frame, aim),
                        nudge_hold: final(self).shot.nudge_hold,
                        ..old(self).shot
                    }) && (final(self).shot.nudge_hold matches Some((k, next)) && k == key && now
                        < next <= now + timing::NUDGE_REPEAT_INTERVAL && (next - at) % (
                    timing::NUDGE_REPEAT_INTERVAL as int) == 0)
                } else {
                    final(self).shot == old(self).shot
                },
                None => final(self).shot == old(self).shot,
            },
    {
        let fired: bool = self.shot.fire_repeat_nudges(self.frame, aim, now);
        if self.config_open {
            FrameKind::Config
        } else if self.frame.is_none() {
            FrameKind::Nothing
        } else {
            FrameKind::Magnified
        }
    }

    /// Whether a held nudge key is due to repeat.
    pub open spec fn repeat_due(self, now: u64) -> bool {
        self.shot.nudge_hold matches Some((_, at)) && now >= at
    }

    /// Whether the picture has to settle now.
    pub open spec fn settle_due(self, now: u64) -> bool {
        self.timers.settle_pending && match self.timers.last_motion_at {
            None => true,
            Some(last) => timing::elapsed(last, now) >= timing::CURSOR_SETTLE_DELAY,
        }
    }

    /// Whether the redraw that was put off is due.
    pub open spec fn motion_due(self, now: u64) -> bool {
        self.timers.redraw_pending && timing::redraw_due(self.timers.last_draw_at, now)
    }

    /// The session once what was due is done.
    pub open spec fn due_done(self, now: u64) -> Session {
        Session {
            timers: Timers {
                last_draw_at: if self.motion_due(now) {
                    Some(now)
                } else {
                    self.timers.last_draw_at
                },
                redraw_pending: self.timers.redraw_pending && !self.motion_due(now),
                settle_pending: self.timers.settle_pending && !self.settle_due(now),
                ..self.timers
            },
            ..self
        }
    }

    /// Whether to draw after a wait: for a repeat of a held key, a redraw that
    /// was put off, the settling, or the next step of the minimap. What is due
    /// counts as done.
    pub fn draw_due(&mut self, now: u64) -> (draw: bool)
        ensures
            draw == (old(self).repeat_due(now) || old(self).motion_due(now) || old(self).settle_due(
                now,
            ) || old(self).minimap_visible),
            *final(self) == old(self).due_done(now),
    {
        let repeat: bool = match self.shot.nudge_hold {
            Some((_, at)) => now >= at,
            None => false,
        };
        let motion: bool = self.timers.draw_if_motion_pending(now);
        let settle: bool = self.timers.draw_if_settle_due(now);
        repeat || motion || settle || self.minimap_visible
    }

    /// How long the event loop may sleep.
    pub fn poll_timeout(&self, now: u64) -> (r: Option<u64>)
        ensures
            r == timing::earlier(
                timing::earlier(
                    timing::earlier(
                        timing::repeat_wait(
                            match self.shot.nudge_hold {
                                Some((_, at)) => Some(at),
                                None => None,
                            },
                            now,
                        ),
                        timing::pulse_wait(self.minimap_visible),
                    ),
                    self.timers.motion_wait(now),
                ),
                self.timers.settle_wait(now),
            ),
    {
        let repeat_at: Option<u64> = match self.shot.nudge_hold {
            Some((_, at)) => Some(at),
            None => None,
        };
        self.timers.poll_timeout(repeat_at, self.minimap_visible, now)
    }

    /// Where the view is centred before the edges have their say: where it was,
    /// or else on the pointer where it was seen, or else in the middle.
    pub open spec fn center_from(self, on_pointer: Point, middle: Point) -> Point {
        match self.view_center {
            Some(c) => c,
            None => if self.pointer_seen {
                on_pointer
            } else {
                middle
            },
        }
    }

    /// The middle of the view for this frame, on the captured frame.
    pub fn center_view(&self, on_pointer: Point, middle: Point, bounds: Point) -> (r: Point)
        requires
            view::valid_bounds(bounds),
        ensures
            r == self.onto_frame(self.center_from(on_pointer, middle), bounds),
    {
        let c: Point = match self.view_center {
            Some(c) => c,
            None => if self.pointer_seen {
                on_pointer
            } else {
                middle
            },
        };
        self.clamp_to_capture(c, bounds)
    }

    /// Holds the view at an edge of the captured frame where the pointer is
    /// parked at that edge of the screen, and remembers view and hold.
    ///
    /// `from_surface` is the pointer minus the size of the screen,
    /// `from_capture` the centre minus the size of the frame, `capture`.
    pub fn hold_edges(
        &mut self,
        center: Point,
        from_surface: Point,
        from_capture: Point,
        capture: Point,
    ) -> (r: Point)
        ensures
            ({
                let (x, hx) = view::held_axis(
                    center.0,
                    old(self).pointer.0,
                    from_surface.0,
                    from_capture.0,
                    capture.0,
                    old(self).edge_hold.0,
                );
                let (y, hy) = view::held_axis(
                    center.1,
                    old(self).pointer.1,
                    from_surface.1,
                    from_capture.1,
                    capture.1,
                    old(self).edge_hold.1,
                );
                &&& r == (x, y)
                &&& *final(self) == (Session {
                    edge_hold: (hx, hy),
                    view_center: Some((x, y)),
                    ..*old(self)
                })
            }),
    {
        let (x, hx): (Number, Option<bool>) = view::edge_hold_axis(
            center.0,
            self.pointer.0,
            from_surface.0,
            from_capture.0,
            capture.0,
            self.edge_hold.0,
        );
        let (y, hy): (Number, Option<bool>) = view::edge_hold_axis(
            center.1,
            self.pointer.1,
            from_surface.1,
            from_capture.1,
            capture.1,
            self.edge_hold.1,
        );
        self.edge_hold = (hx, hy);
        self.view_center = Some((x, y));
        (x, y)
    }

    /// Where the magnified pointer goes. It is hidden where there is none, where
    /// it is switched off, before the pointer was seen, and without a zoom.
    pub open spec fn cursor_at(self, has_cursor: bool) -> CursorPlace {
        if !(self.pointer_seen && number::num(number::ZERO).below(self.state.zoom)
            && self.state.cursor_visible && has_cursor) {
            CursorPlace::Hidden
        } else if self.shot.active {
            CursorPlace::FollowsPointer
        } else {
            CursorPlace::Center
        }
    }

    pub fn cursor_place(&self, has_cursor: bool) -> (r: CursorPlace)
        ensures
            r == self.cursor_at(has_cursor),
    {
        let zero: Number = Number { bits: number::ZERO };
        if !(self.pointer_seen && zero.lt(self.state.zoom) && self.state.cursor_visible
            && has_cursor) {
            CursorPlace::Hidden
        } else if self.shot.active {
            CursorPlace::FollowsPointer
        } else {
            CursorPlace::Center
        }
    }

    /// The corner of the legend: in screenshot mode the top left one.
    pub open spec fn legend_corner(self) -> Corner {
        if self.shot.active {
            Corner::TopLeft
        } else {
            self.state.config.osd_corner
        }
    }

    /// The corner of the minimap: the configured one, or the one across where
    /// the legend is there.
    pub open spec fn overview_corner(self) -> Corner {
        if self.state.config.minimap_corner == self.legend_corner() {
            self.state.config.minimap_corner.across()
        } else {
            self.state.config.minimap_corner
        }
    }

    /// The corners of the legend and of the minimap.
    pub fn corners(&self) -> (r: (Corner, Corner))
        ensures
            r == (self.legend_corner(), self.overview_corner()),
    {
        let osd: Corner = if self.shot.active {
            Corner::TopLeft
        } else {
            self.state.config.osd_corner
        };
        let minimap: Corner = if self.state.config.minimap_corner == osd {
            self.state.config.minimap_corner.opposite()
        } else {
            self.state.config.minimap_corner
        };
        (osd, minimap)
    }

    /// Whether a notice was set a short while ago.
    pub open spec fn fresh_notice(self, now: u64) -> bool {
        self.notice matches Some((_, at)) && timing::elapsed(at, now) < timing::NOTICE_TIME
    }

    pub fn screenshot_notice_fresh(&self, now: u64) -> (r: bool)
        ensures
            r == self.fresh_notice(now),
    {
        match &self.notice {
            Some((_, at)) => timing::still_fresh(*at, timing::NOTICE_TIME, now),
            None => false,
        }
    }

    /// Whether the legend is shown: where it is switched on, or there is a fresh
    /// notice.
    pub fn shows_osd(&self, now: u64) -> (r: bool)
        ensures
            r == (self.state.osd_visible || self.fresh_notice(now)),
    {
        self.state.osd_visible || self.screenshot_notice_fresh(now)
    }

    /// The hint for this frame.
    pub open spec fn hint_at(self, now: u64) -> Hint {
        if self.shift_held && self.state.config.show_shift_osd {
            Hint::ShiftSlow
        } else if !self.state.osd_visible && (self.state.launch_hint_deadline matches Some(d)
            && now < d) {
            Hint::Help
        } else {
            Hint::Nothing
        }
    }

    /// Picks the hint for this frame. Where there is none, the launch hint is
    /// over for good.
    pub fn pick_hint(&mut self, now: u64) -> (r: Hint)
        ensures
            r == old(self).hint_at(now),
            *final(self) == (if r == Hint::Nothing {
                Session {
                    state: MagnifierState { launch_hint_deadline: None, ..old(self).state },
                    ..*old(self)
                }
            } else {
                *old(self)
            }),
    {
        if self.shift_held && self.state.config.show_shift_osd {
            return Hint::ShiftSlow;
        }
        let pending: bool = match self.state.launch_hint_deadline {
            Some(d) => now < d,
            None => false,
        };
        if !self.state.osd_visible && pending {
            return Hint::Help;
        }
        self.state.launch_hint_deadline = None;
        Hint::Nothing
    }

    /// The border that the nudge keys move, with the magnified pointer at `aim`.
    pub fn active_border(&self, aim: (i64, i64)) -> (r: Option<ScreenshotBorder>)
        ensures
            r == (if self.shot.active && self.shot.rect is Some {
                Some(screenshot::nearest_border(self.shot.rect->0, aim))
            } else {
                None
            }),
    {
        if self.shot.active {
            if let Some(rect) = self.shot.rect {
                return Some(screenshot::active_screenshot_border(rect, aim));
            }
        }
        None
    }

    /// A screenshot was saved at a path, or failed for a reason: a message about
    /// it is shown for a while, and screenshot mode is over.
    pub fn capture_finished(&mut self, saved: Result<String, String>, now: u64)
        ensures
            final(self).notice is Some,
            (final(self).notice->0).1 == now,
            (final(self).notice->0).0@ == (match saved {
                Ok(path) => "Saved "@ + path@,
                Err(reason) => "Screenshot failed: "@ + reason@,
            }),
            *final(self) == (Session {
                notice: final(self).notice,
                shot: ScreenshotMode::off(),
                ..*old(self)
            }),
    {
        let message: String = match saved {
            Ok(path) => text::joined("Saved ", path.as_str()),
            Err(reason) => text::joined("Screenshot failed: ", reason.as_str()),
        };
        self.notice = Some((message, now));
        self.shot.exit();
    }

    /// The settings were opened: zooming by motion is over.
    pub fn config_opened(&mut self)
        ensures
            final(self).config_open,
            !final(self).hold.active,
            *final(self) == (Session {
                config_open: true,
                hold: final(self).hold,
                ..*old(self)
            }),
            final(self).hold.last_y == old(self).hold.last_y,
            final(self).hold.dead_travel == old(self).hold.dead_travel,
    {
        self.config_open = true;
        self.hold.active = false;
    }

    pub fn config_closed(&mut self)
        ensures
            *final(self) == (Session { config_open: false, ..*old(self) }),
    {
        self.config_open = false;
    }

    /// A frame of the given size was captured. A zoom below the smallest one is
    /// raised to it.
    pub fn frame_captured(&mut self, width: i32, height: i32, fit: Number)
        requires
            old(self).wf(),
            old(self).shot.wf(Some((width, height))),
            1 <= width,
            1 <= height,
            fit.at_most(number::num(number::ONE)),
        ensures
            final(self).wf(),
            ({
                let low = state::runtime_lowest(old(self).state.config, fit);
                let s = Session { frame: Some((width, height)), ..*old(self) };
                *final(self) == (if old(self).state.zoom.below(low) {
                    s.zoomed(old(self).state.zoom, low)
                } else {
                    s
                })
            }),
    {
        self.frame = Some((width, height));
        let low: Number = state::runtime_min_zoom(&self.state.config, fit);
        let z: Number = self.state.zoom;
        if z.lt(low) {
            self.state.set_zoom(z, low);
        }
    }
}

/// Nothing that was due is left behind: with the minimap hidden and no key held,
/// asking again at the same moment draws nothing.
pub proof fn due_draws_happen_once(s: Session, now: u64)
    requires
        !s.minimap_visible,
        s.shot.nudge_hold is None,
    ensures
        !s.due_done(now).repeat_due(now),
        !s.due_done(now).motion_due(now),
        !s.due_done(now).settle_due(now),
{
}

/// The legend and the minimap never share a corner.
pub proof fn minimap_avoids_the_legend(s: Session)
    ensures
        s.overview_corner() != s.legend_corner(),
{
}

/// After a capture the zoom is not below the smallest one.
pub proof fn captured_zoom_is_in_range(s: Session, fit: Number)
    requires
        s.wf(),
        fit.at_most(number::num(number::ONE)),
        !s.state.zoom.nan(),
    ensures
        ({
            let low = state::runtime_lowest(s.state.config, fit);
            let after = if s.state.zoom.below(low) {
                s.zoomed(s.state.zoom, low)
            } else {
                s
            };
            low.at_most(after.state.zoom)
        }),
{
}

/// The picture of the pointer on the graphics card.
#[derive(Clone, Copy, Debug, PartialEq, Eq, Structural)]
pub struct CursorUpload {
    /// The zoom that it was handed over for.
    pub zoom: Number,
    /// Whether the pointer was shown in the last frame.
    pub was_visible: bool,
}

impl CursorUpload {
    /// Whether it has to be handed over again: where the pointer is shown and
    /// its zoom or visibility changed. `change` is the distance of its zoom from
    /// the one handed over last.
    pub open spec fn stale(self, visible: bool, change: Number) -> bool {
        visible && (number::num(zoom::HAIR).below(change) || !self.was_visible)
    }

    pub fn cursor_changed(&self, visible: bool, change: Number) -> (r: bool)
        ensures
            r == self.stale(visible, change),
    {
        visible && ((Number { bits: zoom::HAIR }).lt(change) || !self.was_visible)
    }

    /// A frame was drawn. Only a frame that the pointer was in counts for its
    /// zoom.
    pub fn drawn(&mut self, present: bool, visible: bool, zoom: Number)
        ensures
            *final(self) == (CursorUpload {
                zoom: if present && visible {
                    zoom
                } else {
                    old(self).zoom
                },
                was_visible: visible,
            }),
    {
        if present && visible {
            self.zoom = zoom;
        }
        self.was_visible = visible;
    }
}

/// Once the pointer was drawn at a zoom, it is not handed over again as long as
/// it is shown and the zoom stays.
pub proof fn drawn_cursor_is_not_stale(u: CursorUpload, change: Number)
    requires
        u.was_visible,
        change.at_most(number::num(zoom::HAIR)),
    ensures
        !u.stale(true, change),
{
}

/// What an overlay was drawn for.
#[derive(Clone, Copy, Debug, PartialEq, Eq, Structural)]
pub struct OverlayKey {
    pub active: bool,
    pub has_rect: bool,
    pub x0: i32,
    pub y0: i32,
    pub x1: i32,
    pub y1: i32,
    pub border: Option<ScreenshotBorder>,
}

/// The key of an overlay for a mode, a selection and a border.
pub open spec fn key_of(
    active: bool,
    rect: Option<Selection>,
    border: Option<ScreenshotBorder>,
) -> OverlayKey {
    match rect {
        Some((x0, y0, x1, y1)) => OverlayKey { active, has_rect: true, x0, y0, x1, y1, border },
        None => OverlayKey { active, has_rect: false, x0: 0, y0: 0, x1: 0, y1: 0, border },
    }
}

pub fn overlay_key(
    active: bool,
    rect: Option<Selection>,
    border: Option<ScreenshotBorder>,
) -> (r: OverlayKey)
    ensures
        r == key_of(active, rect, border),
{
    match rect {
        Some((x0, y0, x1, y1)) => OverlayKey { active, has_rect: true, x0, y0, x1, y1, border },
        None => OverlayKey { active, has_rect: false, x0: 0, y0: 0, x1: 0, y1: 0, border },
    }
}

fn same_key(a: &OverlayKey, b: &OverlayKey) -> (r: bool)
    ensures
        r == (*a == *b),
{
    let same_border: bool = match (a.border, b.border) {
        (Some(x), Some(y)) => x == y,
        (None, None) => true,
        _ => false,
    };
    a.active == b.active && a.has_rect == b.has_rect && a.x0 == b.x0 && a.y0 == b.y0 && a.x1 == b.x1
        && a.y1 == b.y1 && same_border
}

/// The overlay of the selection, kept until something about it changes.
#[derive(Debug)]
pub struct OverlayCache {
    pub image: Option<RgbaBuffer>,
    pub key: Option<OverlayKey>,
}

impl OverlayCache {
    pub open spec fn wf(self) -> bool {
        self.image matches Some(image) ==> image.wf()
    }

    pub fn new() -> (r: OverlayCache)
        ensures
            r.image is None,
            r.key is None,
            r.wf(),
    {
        OverlayCache { image: None, key: None }
    }

    /// Whether the overlay can be kept for a key and a size.
    pub open spec fn current(self, key: OverlayKey, width: int, height: int) -> bool {
        &&& self.key == Some(key)
        &&& self.image is Some
        &&& self.image->0.width == width
        &&& self.image->0.height == height
    }

    /// Brings the overlay up to date. It is drawn anew only where the mode, the
    /// selection, the active border or the size changed; returns whether it
    /// was. `shown` is the selection in pixels of the overlay. Outside
    /// screenshot mode the overlay is fully transparent.
    pub fn refresh(
        &mut self,
        active: bool,
        rect: Option<Selection>,
        border: Option<ScreenshotBorder>,
        shown: Option<Selection>,
        color: [u8; 3],
        border_px: i32,
        width: i32,
        height: i32,
    ) -> (rebuilt: bool)
        requires
            old(self).wf(),
            0 <= width,
            0 <= height,
            width * height * 4 <= i32::MAX,
        ensures
            final(self).wf(),
            final(self).image is Some,
            final(self).image->0.width == width,
            final(self).image->0.height == height,
            rebuilt == !old(self).current(
                key_of(active, rect, border),
                width as int,
                height as int,
            ),
            !rebuilt ==> *final(self) == *old(self),
            rebuilt ==> final(self).key == Some(key_of(active, rect, border)) && forall|
                x: int,
                y: int,
            |
                final(self).image->0.has(x, y) ==> #[trigger] final(self).image->0.at(x, y) == (
                if active {
                    screenshot::overlay_px(shown, color, border_px as int, border, x, y)
                } else {
                    (0u8, 0u8, 0u8, 0u8)
                }),
    {
        let key: OverlayKey = overlay_key(active, rect, border);
        let key_same: bool = match &self.key {
            Some(k) => same_key(k, &key),
            None => false,
        };
        let size_same: bool = match &self.image {
            Some(b) => b.width == width && b.height == height,
            None => false,
        };
        if key_same && size_same {
            return false;
        }
        assert(0 <= width * height) by (nonlinear_arith)
            requires
                0 <= width,
                0 <= height,
        ;
        let mut image = RgbaBuffer::new(width, height);
        if active {
            let ghost blank = image;
            screenshot::fill_screenshot_overlay(
                image.data.as_mut_slice(),
                width,
                height,
                shown,
                color,
                border_px,
                border,
            );
            assert forall|x: int, y: int| image.has(x, y) implies #[trigger] image.at(x, y)
                == screenshot::overlay_px(shown, color, border_px as int, border, x, y) by {
                assert(blank.has(x, y));
            }
        }
        self.image = Some(image);
        self.key = Some(key);
        true
    }
}

/// The settings are drawn where they are open, else the magnified screen where
/// there is a captured frame, and else nothing.
pub proof fn frames_show_what_there_is(s: Session)
    ensures
        s.config_open ==> s.kind() == FrameKind::Config,
        !s.config_open && s.frame is None ==> s.kind() == FrameKind::Nothing,
        !s.config_open && s.frame is Some ==> s.kind() == FrameKind::Magnified,
{
}

/// What is due after a wait: a held key at its moment, the settling 150 ms after
/// the last motion, a put-off redraw 8.333 ms after the last one.
pub proof fn draws_are_due_on_time(s: Session, now: u64)
    ensures
        s.shot.nudge_hold matches Some((key, at)) ==> (s.repeat_due(now) <==> now >= at),
        s.shot.nudge_hold is None ==> !s.repeat_due(now),
        s.timers.settle_pending ==> (s.timers.last_motion_at matches Some(last) ==> last <= now ==> (
        s.settle_due(now) <==> now - last >= 150_000_000)),
        !s.timers.settle_pending ==> !s.settle_due(now),
        s.timers.redraw_pending ==> (s.timers.last_draw_at matches Some(last) ==> last <= now ==> (
        s.motion_due(now) <==> now - last >= 8_333_000)),
        !s.timers.redraw_pending ==> !s.motion_due(now),
{
}

/// What was due and drawn is no longer owed, and what was not due still is; the
/// time of a redraw for motion is kept.
pub proof fn drawn_is_no_longer_owed(s: Session, now: u64)
    ensures
        ({
            let r = s.due_done(now);
            &&& s.motion_due(now) ==> !r.timers.redraw_pending && r.timers.last_draw_at == Some(now)
            &&& !s.motion_due(now) ==> r.timers.redraw_pending == s.timers.redraw_pending
                && r.timers.last_draw_at == s.timers.last_draw_at
            &&& s.settle_due(now) ==> !r.timers.settle_pending
            &&& !s.settle_due(now) ==> r.timers.settle_pending == s.timers.settle_pending
            &&& r.timers.last_motion_at == s.timers.last_motion_at
            &&& r.state == s.state && r.shot == s.shot && r.view_center == s.view_center
        }),
{
}

/// The view stays where it was; a first one is centred on the pointer where that
/// was seen, and else on the middle of the frame.
pub proof fn view_begins_at_the_pointer(s: Session, on_pointer: Point, middle: Point)
    ensures
        s.view_center matches Some(c) ==> s.center_from(on_pointer, middle) == c,
        s.view_center is None && s.pointer_seen ==> s.center_from(on_pointer, middle) == on_pointer,
        s.view_center is None && !s.pointer_seen ==> s.center_from(on_pointer, middle) == middle,
{
}

/// The magnified pointer is in the middle, and in screenshot mode with the
/// pointer. It is shown only where there is one to show, it is switched on, the
/// pointer was seen and there is a zoom.
pub proof fn pointer_is_shown_in_the_middle(s: Session, has_cursor: bool)
    ensures
        ({
            let shown = has_cursor && s.pointer_seen && s.state.cursor_visible && number::num(
                0,
            ).below(s.state.zoom);
            &&& shown && !s.shot.active ==> s.cursor_at(has_cursor) == CursorPlace::Center
            &&& shown && s.shot.active ==> s.cursor_at(has_cursor) == CursorPlace::FollowsPointer
            &&& !shown ==> s.cursor_at(has_cursor) == CursorPlace::Hidden
        }),
{
}

/// The legend is in its configured corner, in screenshot mode at the top left.
/// The minimap is in its own, or opposite where the legend is there.
pub proof fn legend_and_minimap_keep_their_corners(s: Session)
    ensures
        !s.shot.active ==> s.legend_corner() == s.state.config.osd_corner,
        s.shot.active ==> s.legend_corner() == Corner::TopLeft,
        s.state.config.minimap_corner != s.legend_corner() ==> s.overview_corner()
            == s.state.config.minimap_corner,
        s.state.config.minimap_corner == s.legend_corner() && s.legend_corner() == Corner::TopLeft
            ==> s.overview_corner() == Corner::BottomRight,
        s.state.config.minimap_corner == s.legend_corner() && s.legend_corner() == Corner::TopRight
            ==> s.overview_corner() == Corner::BottomLeft,
        s.state.config.minimap_corner == s.legend_corner() && s.legend_corner()
            == Corner::BottomLeft ==> s.overview_corner() == Corner::TopRight,
        s.state.config.minimap_corner == s.legend_corner() && s.legend_corner()
            == Corner::BottomRight ==> s.overview_corner() == Corner::TopLeft,
{
}

/// A notice is fresh for four seconds.
pub proof fn notices_last_four_seconds(s: Session, now: u64)
    ensures
        s.notice matches Some((text, at)) ==> at <= now ==> (s.fresh_notice(now) <==> now - at
            < 4_000_000_000),
        s.notice is None ==> !s.fresh_notice(now),
{
}

/// The hint tells of Shift while that slows motion, and else, with the legend
/// hidden, of the key for it until its time is over.
pub proof fn hints_tell_what_helps(s: Session, now: u64)
    ensures
        s.shift_held && s.state.config.show_shift_osd ==> s.hint_at(now) == Hint::ShiftSlow,
        !(s.shift_held && s.state.config.show_shift_osd) && !s.state.osd_visible ==> (
        s.state.launch_hint_deadline matches Some(d) ==> s.hint_at(now) == (if now < d {
            Hint::Help
        } else {
            Hint::Nothing
        })),
        !(s.shift_held && s.state.config.show_shift_osd) && s.state.osd_visible ==> s.hint_at(now)
            == Hint::Nothing,
        !(s.shift_held && s.state.config.show_shift_osd) && s.state.launch_hint_deadline is None
            ==> s.hint_at(now) == Hint::Nothing,
{
}

/// The hints and how bright they are.
pub proof fn hints_say_their_text(toggle: Seq<char>)
    ensures
        Hint::Nothing.spoken(toggle) is None,
        Hint::ShiftSlow.spoken(toggle) == Some("Shift: slow"@),
        Hint::Help.spoken(toggle) == Some(toggle + ": help"@),
        Hint::ShiftSlow.level() == 204,
        Hint::Help.level() == 128,
{
}

/// The pointer is handed over again where it is shown and either was not shown
/// before or has another zoom.
pub proof fn changed_pointers_are_handed_over(u: CursorUpload, visible: bool, change: Number)
    ensures
        !visible ==> !u.stale(visible, change),
        visible && !u.was_visible ==> u.stale(visible, change),
        visible && number::num(0x3E11_2E0B_E826_D695).below(change) ==> u.stale(visible, change),
        visible && u.was_visible && change.at_most(number::num(0x3E11_2E0B_E826_D695)) ==> !u.stale(
            visible,
            change,
        ),
{
}

/// The overlay of a selection is drawn anew wherever anything about it is
/// another, and only there.
pub proof fn overlay_is_kept_while_nothing_changes(
    cache: OverlayCache,
    active: bool,
    rect: Option<Selection>,
    border: Option<ScreenshotBorder>,
    was_active: bool,
    was_rect: Option<Selection>,
    was_border: Option<ScreenshotBorder>,
    width: int,
    height: int,
)
    requires
        cache.key == Some(key_of(was_active, was_rect, was_border)),
    ensures
        cache.current(key_of(active, rect, border), width, height) <==> (cache.image matches Some(
            image,
        ) && image.width == width && image.height == height && active == was_active && rect
            == was_rect && border == was_border),
{
}

} // verus!
