//! What the magnifier is set to: zoom, mode, and what is shown.

use crate::config;
use crate::config::{MagnifierConfig, ScrollZoomMode};
use crate::number;
use crate::number::Number;
use crate::render::Renderer;
use crate::timing;
use vstd::prelude::*;

verus! {

/// How the view follows the pointer.
#[derive(Clone, Copy, Debug, PartialEq, Eq, Structural)]
pub enum MagnifierMode {
    CenterCursor,
    EdgePan,
    MiniatureWindow,
}

/// The state that keys and settings change.
#[derive(Debug)]
pub struct MagnifierState {
    pub config: MagnifierConfig,
    pub zoom: Number,
    pub mode: MagnifierMode,
    pub osd_visible: bool,
    /// Whether the magnified pointer is drawn.
    pub cursor_visible: bool,
    pub renderer: Renderer,
    /// The pointer, in whole pixels of the screen.
    pub pointer_position: (i32, i32),
    /// Until when the launch hint is shown.
    pub launch_hint_deadline: Option<u64>,
}

/// The largest zoom that the settings allow.
pub open spec fn highest_zoom(config: MagnifierConfig) -> Number {
    config.max_zoom.clamped(number::num(number::ONE), number::num(config::MAX_ZOOM))
}

pub fn max_zoom_of(config: &MagnifierConfig) -> (r: Number)
    ensures
        r == highest_zoom(*config),
{
    config.max_zoom.clamp(Number { bits: number::ONE }, Number { bits: config::MAX_ZOOM })
}

/// The largest zoom that the wheel reaches: the one of the settings where it
/// walks the levels, the largest one there is where it changes the zoom by a
/// factor.
pub open spec fn wheel_highest(config: MagnifierConfig) -> Number {
    match config.scroll_zoom_mode {
        ScrollZoomMode::Levels => highest_zoom(config),
        ScrollZoomMode::Factor => number::num(config::MAX_ZOOM),
    }
}

pub fn max_wheel_zoom(config: &MagnifierConfig) -> (r: Number)
    ensures
        r == wheel_highest(*config),
{
    match config.scroll_zoom_mode {
        ScrollZoomMode::Levels => max_zoom_of(config),
        ScrollZoomMode::Factor => Number { bits: config::MAX_ZOOM },
    }
}

/// The zoom that the settings start with: the default one, or 1.
pub open spec fn default_zoom(config: MagnifierConfig) -> Number {
    match config.default_zoom {
        Some(z) => z,
        None => number::num(number::ONE),
    }
}

pub fn default_zoom_of(config: &MagnifierConfig) -> (r: Number)
    ensures
        r == default_zoom(*config),
{
    match config.default_zoom {
        Some(z) => z,
        None => Number { bits: number::ONE },
    }
}

/// The smallest zoom at run time: `fit`, at which the whole screen is shown,
/// where zooming out that far is allowed; else 1.
pub open spec fn runtime_lowest(config: MagnifierConfig, fit: Number) -> Number {
    if config.allow_zero_zoom || config::is_zero(config.default_zoom) {
        fit
    } else {
        number::num(number::ONE)
    }
}

pub fn runtime_min_zoom(config: &MagnifierConfig, fit: Number) -> (r: Number)
    ensures
        r == runtime_lowest(*config, fit),
{
    let min: Number = config.min_zoom();
    if min.same(Number { bits: number::ZERO }) {
        fit
    } else {
        Number { bits: number::ONE }
    }
}

impl MagnifierState {
    /// The settings have a largest zoom.
    pub open spec fn wf(self) -> bool {
        !self.config.max_zoom.nan()
    }

    /// The state with another zoom.
    pub open spec fn at_zoom(self, z: Number) -> MagnifierState {
        MagnifierState { zoom: z, renderer: Renderer { scale_factor: z }, ..self }
    }

    /// The start: at `initial_zoom`, or else the default one, within the limits
    /// of the settings.
    pub fn new(config: MagnifierConfig, initial_zoom: Option<Number>, now: u64) -> (r:
        MagnifierState)
        requires
            !config.max_zoom.nan(),
            now + timing::LAUNCH_HINT_TIME <= u64::MAX,
        ensures
            r.wf(),
            r.config == config,
            r.zoom == (match initial_zoom {
                Some(z) => z,
                None => default_zoom(config),
            }).clamped(config.lowest_zoom(), highest_zoom(config)),
            r.renderer.scale_factor == r.zoom,
            r.mode == MagnifierMode::CenterCursor,
            r.osd_visible == config.show_osd,
            r.cursor_visible,
            r.pointer_position == (0i32, 0i32),
            r.launch_hint_deadline == Some((now + timing::LAUNCH_HINT_TIME) as u64),
    {
        let max: Number = max_zoom_of(&config);
        let min: Number = config.min_zoom();
        let wanted: Number = match initial_zoom {
            Some(z) => z,
            None => default_zoom_of(&config),
        };
        let zoom: Number = wanted.clamp(min, max);
        let osd_visible: bool = config.show_osd;
        MagnifierState {
            config,
            zoom,
            mode: MagnifierMode::CenterCursor,
            osd_visible,
            cursor_visible: true,
            renderer: Renderer::new(zoom),
            pointer_position: (0, 0),
            launch_hint_deadline: Some(now + timing::LAUNCH_HINT_TIME),
        }
    }

    /// The zoom of a level, within the limits of the settings. `level` is the
    /// largest zoom times the key over nine.
    pub fn zoom_for_level(&self, level: Number) -> (r: Number)
        requires
            self.wf(),
        ensures
            r == level.clamped(self.config.lowest_zoom(), highest_zoom(self.config)),
    {
        level.clamp(self.config.min_zoom(), max_zoom_of(&self.config))
    }

    /// A digit key was pressed: 0 selects no zoom at all, 1 to 9 a level. `level`
    /// is the largest zoom times the key over nine.
    pub fn handle_zoom_key(&mut self, key: u8, level: Number)
        requires
            old(self).wf(),
        ensures
            *final(self) == (if key == 0 {
                old(self).at_zoom(number::num(number::ZERO))
            } else if key <= 9 {
                old(self).at_zoom(
                    level.clamped(
                        old(self).config.lowest_zoom(),
                        highest_zoom(old(self).config),
                    ),
                )
            } else {
                *old(self)
            }),
    {
        if key == 0 {
            self.zoom = Number { bits: number::ZERO };
            self.renderer.update_scale_factor(Number { bits: number::ZERO });
        } else if key <= 9 {
            let z: Number = self.zoom_for_level(level);
            self.zoom = z;
            self.renderer.update_scale_factor(z);
        }
    }

    /// Goes back to the default zoom, within the limits of the settings.
    pub fn reset_zoom(&mut self)
        requires
            old(self).wf(),
        ensures
            *final(self) == old(self).at_zoom(
                default_zoom(old(self).config).clamped(
                    old(self).config.lowest_zoom(),
                    highest_zoom(old(self).config),
                ),
            ),
            old(self).config.default_zoom matches Some(z) ==> old(self).config.lowest_zoom().at_most(
                z,
            ) && z.at_most(highest_zoom(old(self).config)) ==> final(self).zoom == z,
            old(self).config.default_zoom is None ==> final(self).zoom == number::num(number::ONE),
    {
        let max: Number = max_zoom_of(&self.config);
        let min: Number = self.config.min_zoom();
        let z: Number = default_zoom_of(&self.config).clamp(min, max);
        self.zoom = z;
        self.renderer.update_scale_factor(z);
    }

    /// Sets the zoom, from `min` to the largest one of the settings.
    pub fn set_zoom(&mut self, zoom: Number, min: Number)
        requires
            min.at_most(highest_zoom(old(self).config)),
        ensures
            *final(self) == old(self).at_zoom(
                zoom.clamped(min, highest_zoom(old(self).config)),
            ),
    {
        let max: Number = max_zoom_of(&self.config);
        self.set_zoom_within(zoom, min, max);
    }

    /// Sets the zoom, from `min` to `max`.
    pub fn set_zoom_within(&mut self, zoom: Number, min: Number, max: Number)
        requires
            min.at_most(max),
        ensures
            *final(self) == old(self).at_zoom(zoom.clamped(min, max)),
    {
        let z: Number = zoom.clamp(min, max);
        self.zoom = z;
        self.renderer.update_scale_factor(z);
    }

    pub fn toggle_osd(&mut self)
        ensures
            *final(self) == (MagnifierState { osd_visible: !old(self).osd_visible, ..*old(self) }),
    {
        self.osd_visible = !self.osd_visible;
    }

    pub fn toggle_cursor(&mut self)
        ensures
            *final(self) == (MagnifierState {
                cursor_visible: !old(self).cursor_visible,
                ..*old(self)
            }),
    {
        self.cursor_visible = !self.cursor_visible;
    }

    pub fn switch_mode(&mut self, mode: MagnifierMode)
        ensures
            *final(self) == (MagnifierState { mode, ..*old(self) }),
    {
        self.mode = mode;
    }
}

/// Every way to set the zoom from a level or the default leaves it within the
/// limits of the settings.
pub proof fn zoom_stays_in_limits(config: MagnifierConfig, wanted: Number)
    requires
        !config.max_zoom.nan(),
        !wanted.nan(),
    ensures
        ({
            let z = wanted.clamped(config.lowest_zoom(), highest_zoom(config));
            config.lowest_zoom().at_most(z) && z.at_most(highest_zoom(config))
        }),
{
}

/// The highest level is the largest zoom.
pub proof fn top_level_is_the_largest_zoom(config: MagnifierConfig)
    requires
        !config.max_zoom.nan(),
    ensures
        highest_zoom(config).clamped(config.lowest_zoom(), highest_zoom(config)) == highest_zoom(
            config,
        ),
{
}

/// Pressing the legend key or the cursor key twice changes nothing.
pub proof fn toggles_undo_themselves(s: MagnifierState)
    ensures
        ({
            let once = MagnifierState { osd_visible: !s.osd_visible, ..s };
            let twice = MagnifierState { osd_visible: !once.osd_visible, ..once };
            twice == s
        }),
        ({
            let once = MagnifierState { cursor_visible: !s.cursor_visible, ..s };
            let twice = MagnifierState { cursor_visible: !once.cursor_visible, ..once };
            twice == s
        }),
{
}

/// The largest zoom is the one of the settings, as far as that lies from 1 to
/// 32; the wheel by a factor reaches 32 whatever the settings say.
pub proof fn largest_zoom_is_the_configured_one(config: MagnifierConfig)
    ensures
        ({
            let one = number::num(0x3FF0_0000_0000_0000);
            let most = number::num(0x4040_0000_0000_0000);
            &&& one.at_most(config.max_zoom) && config.max_zoom.at_most(most) ==> highest_zoom(
                config,
            ) == config.max_zoom
            &&& config.max_zoom.below(one) ==> highest_zoom(config) == one
            &&& most.below(config.max_zoom) ==> highest_zoom(config) == most
            &&& config.scroll_zoom_mode == ScrollZoomMode::Factor ==> wheel_highest(config) == most
            &&& config.scroll_zoom_mode == ScrollZoomMode::Levels && one.at_most(config.max_zoom)
                && config.max_zoom.at_most(most) ==> wheel_highest(config) == config.max_zoom
        }),
{
}

/// The smallest zoom is 1 unless the settings allow zooming out to the whole
/// screen, or start there: it is then the zoom that shows the whole screen.
pub proof fn smallest_zoom_is_one_or_the_whole_screen(config: MagnifierConfig, fit: Number)
    ensures
        config.allow_zero_zoom ==> runtime_lowest(config, fit) == fit,
        config.default_zoom == Some(number::num(0)) ==> runtime_lowest(config, fit) == fit,
        !config.allow_zero_zoom && config.default_zoom is None ==> runtime_lowest(config, fit)
            == number::num(0x3FF0_0000_0000_0000),
        !config.allow_zero_zoom && (config.default_zoom matches Some(z) && number::num(0).below(z))
            ==> runtime_lowest(config, fit) == number::num(0x3FF0_0000_0000_0000),
        config.allow_zero_zoom ==> config.lowest_zoom() == number::num(0),
        config.default_zoom == Some(number::num(0)) ==> config.lowest_zoom() == number::num(0),
        !config.allow_zero_zoom && config.default_zoom is None ==> config.lowest_zoom()
            == number::num(0x3FF0_0000_0000_0000),
        !config.allow_zero_zoom && (config.default_zoom matches Some(z) && number::num(0).below(z))
            ==> config.lowest_zoom() == number::num(0x3FF0_0000_0000_0000),
{
}

/// The start and every reset are at the default zoom of the settings, or at 1
/// where they have none.
pub proof fn settings_give_the_default_zoom(config: MagnifierConfig)
    ensures
        config.default_zoom matches Some(z) ==> default_zoom(config) == z,
        config.default_zoom is None ==> default_zoom(config) == number::num(0x3FF0_0000_0000_0000),
{
}

/// Setting the zoom sets what pictures are drawn with too, and touches nothing
/// else.
pub proof fn zooming_changes_only_the_zoom(s: MagnifierState, z: Number)
    ensures
        ({
            let r = s.at_zoom(z);
            &&& r.zoom == z
            &&& r.renderer.scale_factor == z
            &&& r.config == s.config
            &&& r.mode == s.mode
            &&& r.osd_visible == s.osd_visible
            &&& r.cursor_visible == s.cursor_visible
            &&& r.pointer_position == s.pointer_position
            &&& r.launch_hint_deadline == s.launch_hint_deadline
        }),
{
}

} // verus!
