//! Settings: what they are, their defaults, and bringing them into range.

use crate::number;
use crate::number::Number;
use crate::osd::Corner;
use crate::text;
use vstd::prelude::*;
use vstd::utf8::encode_utf8;

verus! {

/// How the scroll wheel changes the zoom.
#[derive(Clone, Copy, Debug, PartialEq, Eq, Structural)]
pub enum ScrollZoomMode {
    /// Each notch steps to the next of the levels that the digit keys select.
    Levels,
    /// Each notch multiplies the zoom by a fixed factor.
    Factor,
}

impl Default for ScrollZoomMode {
    fn default() -> (r: Self)
        ensures
            r == ScrollZoomMode::Levels,
    {
        ScrollZoomMode::Levels
    }
}

/// How the outline of the minimap is animated.
#[derive(Clone, Copy, Debug, PartialEq, Eq, Structural)]
pub enum MinimapOutlineScheme {
    /// One colour all around that cycles.
    Gradient,
    /// A gradient that slides along the diagonal.
    AngularGradient,
    /// Dashes that travel around the outline.
    MarchingAnts,
}

impl Default for MinimapOutlineScheme {
    fn default() -> (r: Self)
        ensures
            r == MinimapOutlineScheme::AngularGradient,
    {
        MinimapOutlineScheme::AngularGradient
    }
}

impl MinimapOutlineScheme {
    pub open spec fn spoken(self) -> Seq<char> {
        match self {
            MinimapOutlineScheme::Gradient => "gradient"@,
            MinimapOutlineScheme::AngularGradient => "angular gradient"@,
            MinimapOutlineScheme::MarchingAnts => "marching ants"@,
        }
    }

    pub fn name(&self) -> (r: &'static str)
        ensures
            r@ == self.spoken(),
    {
        match self {
            MinimapOutlineScheme::Gradient => "gradient",
            MinimapOutlineScheme::AngularGradient => "angular gradient",
            MinimapOutlineScheme::MarchingAnts => "marching ants",
        }
    }
}

/// What a saved screenshot holds.
#[derive(Clone, Copy, Debug, PartialEq, Eq, Structural)]
pub enum ScreenshotScale {
    /// One saved pixel for each captured one.
    Real,
    /// The selection magnified by the zoom.
    Magnified,
}

impl Default for ScreenshotScale {
    fn default() -> (r: Self)
        ensures
            r == ScreenshotScale::Real,
    {
        ScreenshotScale::Real
    }
}

impl ScreenshotScale {
    pub open spec fn spoken(self) -> Seq<char> {
        match self {
            ScreenshotScale::Real => "real size"@,
            ScreenshotScale::Magnified => "magnified"@,
        }
    }

    pub fn name(&self) -> (r: &'static str)
        ensures
            r@ == self.spoken(),
    {
        match self {
            ScreenshotScale::Real => "real size",
            ScreenshotScale::Magnified => "magnified",
        }
    }
}

/// The key for each action, by the name that the key has in bindings.
#[derive(Debug)]
pub struct Keybindings {
    pub toggle_osd: String,
    pub screenshot_manual: String,
    pub screenshot_window: String,
    pub screenshot_fullscreen: String,
    pub config_window: String,
    pub anti_aliasing: String,
    pub mode_annotation: String,
    pub mode_capture: String,
    pub reset_zoom: String,
    pub toggle_cursor: String,
    /// The key that zooms with vertical pointer motion while held; "MMB" is the
    /// middle mouse button.
    pub hold_to_zoom: String,
    pub screenshot_scale_toggle: String,
    pub minimap: String,
}

impl Keybindings {
    /// The bindings of a fresh installation.
    pub open spec fn is_default(self) -> bool {
        &&& self.toggle_osd@ == "k"@
        &&& self.screenshot_manual@ == "g"@
        &&& self.screenshot_window@ == "w"@
        &&& self.screenshot_fullscreen@ == "f"@
        &&& self.config_window@ == "Tab"@
        &&& self.anti_aliasing@ == "a"@
        &&& self.mode_annotation@ == "Control-a"@
        &&& self.mode_capture@ == "Control-c"@
        &&& self.reset_zoom@ == "r"@
        &&& self.toggle_cursor@ == "c"@
        &&& self.hold_to_zoom@ == "MMB"@
        &&& self.screenshot_scale_toggle@ == "v"@
        &&& self.minimap@ == "m"@
    }

    /// Every action has the same key in both.
    pub open spec fn agrees(self, other: Keybindings) -> bool {
        &&& self.toggle_osd@ == other.toggle_osd@
        &&& self.screenshot_manual@ == other.screenshot_manual@
        &&& self.screenshot_window@ == other.screenshot_window@
        &&& self.screenshot_fullscreen@ == other.screenshot_fullscreen@
        &&& self.config_window@ == other.config_window@
        &&& self.anti_aliasing@ == other.anti_aliasing@
        &&& self.mode_annotation@ == other.mode_annotation@
        &&& self.mode_capture@ == other.mode_capture@
        &&& self.reset_zoom@ == other.reset_zoom@
        &&& self.toggle_cursor@ == other.toggle_cursor@
        &&& self.hold_to_zoom@ == other.hold_to_zoom@
        &&& self.screenshot_scale_toggle@ == other.screenshot_scale_toggle@
        &&& self.minimap@ == other.minimap@
    }

    pub fn same_keys(&self, other: &Keybindings) -> (r: bool)
        ensures
            r == self.agrees(*other),
    {
        self.toggle_osd == other.toggle_osd && self.screenshot_manual == other.screenshot_manual
            && self.screenshot_window == other.screenshot_window && self.screenshot_fullscreen
            == other.screenshot_fullscreen && self.config_window == other.config_window
            && self.anti_aliasing == other.anti_aliasing && self.mode_annotation
            == other.mode_annotation && self.mode_capture == other.mode_capture && self.reset_zoom
            == other.reset_zoom && self.toggle_cursor == other.toggle_cursor && self.hold_to_zoom
            == other.hold_to_zoom && self.screenshot_scale_toggle == other.screenshot_scale_toggle
            && self.minimap == other.minimap
    }
}

impl Clone for Keybindings {
    fn clone(&self) -> (r: Self)
        ensures
            r == *self,
    {
        Keybindings {
            toggle_osd: self.toggle_osd.clone(),
            screenshot_manual: self.screenshot_manual.clone(),
            screenshot_window: self.screenshot_window.clone(),
            screenshot_fullscreen: self.screenshot_fullscreen.clone(),
            config_window: self.config_window.clone(),
            anti_aliasing: self.anti_aliasing.clone(),
            mode_annotation: self.mode_annotation.clone(),
            mode_capture: self.mode_capture.clone(),
            reset_zoom: self.reset_zoom.clone(),
            toggle_cursor: self.toggle_cursor.clone(),
            hold_to_zoom: self.hold_to_zoom.clone(),
            screenshot_scale_toggle: self.screenshot_scale_toggle.clone(),
            minimap: self.minimap.clone(),
        }
    }
}

impl Default for Keybindings {
    fn default() -> (r: Self)
        ensures
            r.is_default(),
    {
        Keybindings {
            toggle_osd: "k".to_owned(),
            screenshot_manual: "g".to_owned(),
            screenshot_window: "w".to_owned(),
            screenshot_fullscreen: "f".to_owned(),
            config_window: "Tab".to_owned(),
            anti_aliasing: "a".to_owned(),
            mode_annotation: "Control-a".to_owned(),
            mode_capture: "Control-c".to_owned(),
            reset_zoom: "r".to_owned(),
            toggle_cursor: "c".to_owned(),
            hold_to_zoom: "MMB".to_owned(),
            screenshot_scale_toggle: "v".to_owned(),
            minimap: "m".to_owned(),
        }
    }
}

/// All settings.
#[derive(Debug)]
pub struct MagnifierConfig {
    pub default_zoom: Option<Number>,
    /// The zoom of the highest level.
    pub max_zoom: Number,
    /// Zoom change per pixel of vertical pointer motion while the hold-to-zoom
    /// key is down.
    pub hold_to_zoom_speed: Number,
    pub scroll_zoom_mode: ScrollZoomMode,
    pub invert_scroll_zoom: bool,
    /// Whether zooming out may go below 1, down to the whole screen.
    pub allow_zero_zoom: bool,
    pub keybindings: Keybindings,
    pub screenshot_path: String,
    pub screenshot_filename_pattern: String,
    pub screenshot_selection_color: [u8; 3],
    pub screenshot_scale: ScreenshotScale,
    pub show_osd: bool,
    pub osd_corner: Corner,
    pub minimap_corner: Corner,
    pub minimap_visible: bool,
    pub minimap_outline_scheme: MinimapOutlineScheme,
    pub minimap_outline_speed: Number,
    pub minimap_outline_thickness: u32,
    /// Extra thickness of the outline at the highest zoom, as a fraction.
    pub minimap_outline_zoom_scale: Number,
    /// Factor on pointer motion while Shift is held.
    pub shift_slow_factor: Number,
    pub show_shift_osd: bool,
    /// Whether the view moves in whole capture pixels.
    pub pixel_locked_panning: bool,
    /// How strongly the zoom slows panning down.
    pub pan_tuning: Number,
}

/// The bits of 32, the largest zoom.
pub const MAX_ZOOM: u64 = 0x4040_0000_0000_0000;

/// The bits of 9.
pub const NINE: u64 = 0x4022_0000_0000_0000;

/// The bits of 0.02.
pub const TWO_PERCENT: u64 = 0x3F94_7AE1_47AE_147B;

/// The bits of 0.001.
pub const ONE_PER_MILLE: u64 = 0x3F50_624D_D2F1_A9FC;

/// The bits of 0.01.
pub const ONE_PERCENT: u64 = 0x3F84_7AE1_47AE_147B;

/// The bits of 10.
pub const TEN: u64 = 0x4024_0000_0000_0000;

/// The bits of 2.
pub const TWO: u64 = 0x4000_0000_0000_0000;

/// The bits of 0.25.
pub const QUARTER: u64 = 0x3FD0_0000_0000_0000;

/// The bits of 0.1.
pub const TENTH: u64 = 0x3FB9_9999_9999_999A;

/// Both readings are the same number.
pub open spec fn equal(a: Number, b: Number) -> bool {
    a.at_most(b) && b.at_most(a)
}

/// Both are absent, or both are the same number.
pub open spec fn equal_opt(a: Option<Number>, b: Option<Number>) -> bool {
    match (a, b) {
        (Some(x), Some(y)) => equal(x, y),
        (None, None) => true,
        _ => false,
    }
}

fn same_opt(a: Option<Number>, b: Option<Number>) -> (r: bool)
    ensures
        r == equal_opt(a, b),
{
    match (a, b) {
        (Some(x), Some(y)) => x.same(y),
        (None, None) => true,
        _ => false,
    }
}

/// The zoom is exactly zero.
pub open spec fn is_zero(zoom: Option<Number>) -> bool {
    zoom matches Some(z) && equal(z, number::num(number::ZERO))
}

impl MagnifierConfig {
    /// The smallest zoom: zero where zooming out to the whole screen is
    /// allowed, or is the default; else 1.
    pub open spec fn lowest_zoom(self) -> Number {
        if self.allow_zero_zoom || is_zero(self.default_zoom) {
            number::num(number::ZERO)
        } else {
            number::num(number::ONE)
        }
    }

    pub fn min_zoom(&self) -> (r: Number)
        ensures
            r == self.lowest_zoom(),
    {
        let zero: Number = Number { bits: number::ZERO };
        let at_zero: bool = match self.default_zoom {
            Some(z) => z.same(zero),
            None => false,
        };
        if self.allow_zero_zoom || at_zero {
            zero
        } else {
            Number { bits: number::ONE }
        }
    }

    /// All settings are those of a fresh installation.
    pub open spec fn is_default(self) -> bool {
        &&& self.default_zoom == Some(number::num(number::ONE))
        &&& self.max_zoom == number::num(NINE)
        &&& self.hold_to_zoom_speed == number::num(TWO_PERCENT)
        &&& self.scroll_zoom_mode == ScrollZoomMode::Levels
        &&& !self.invert_scroll_zoom
        &&& !self.allow_zero_zoom
        &&& self.keybindings.is_default()
        &&& self.screenshot_path@ == "~/Pictures"@
        &&& self.screenshot_filename_pattern@ == "maggie_%Y%m%d_%H%M%S.png"@
        &&& self.screenshot_selection_color@ == seq![255u8, 153, 0]
        &&& self.screenshot_scale == ScreenshotScale::Real
        &&& self.show_osd
        &&& self.osd_corner == Corner::TopLeft
        &&& self.minimap_corner == Corner::BottomRight
        &&& self.minimap_visible
        &&& self.minimap_outline_scheme == MinimapOutlineScheme::AngularGradient
        &&& self.minimap_outline_speed == number::num(number::ONE)
        &&& self.minimap_outline_thickness == 3
        &&& self.minimap_outline_zoom_scale == number::num(QUARTER)
        &&& self.shift_slow_factor == number::num(TENTH)
        &&& self.show_shift_osd
        &&& self.pixel_locked_panning
        &&& self.pan_tuning == number::num(number::ZERO)
    }

    /// Every setting is the same in both.
    pub open spec fn agrees(self, other: MagnifierConfig) -> bool {
        &&& equal_opt(self.default_zoom, other.default_zoom)
        &&& equal(self.max_zoom, other.max_zoom)
        &&& equal(self.hold_to_zoom_speed, other.hold_to_zoom_speed)
        &&& self.scroll_zoom_mode == other.scroll_zoom_mode
        &&& self.invert_scroll_zoom == other.invert_scroll_zoom
        &&& self.allow_zero_zoom == other.allow_zero_zoom
        &&& self.keybindings.agrees(other.keybindings)
        &&& self.screenshot_path@ == other.screenshot_path@
        &&& self.screenshot_filename_pattern@ == other.screenshot_filename_pattern@
        &&& self.screenshot_selection_color@ == other.screenshot_selection_color@
        &&& self.screenshot_scale == other.screenshot_scale
        &&& self.show_osd == other.show_osd
        &&& self.osd_corner == other.osd_corner
        &&& self.minimap_corner == other.minimap_corner
        &&& self.minimap_visible == other.minimap_visible
        &&& self.minimap_outline_scheme == other.minimap_outline_scheme
        &&& equal(self.minimap_outline_speed, other.minimap_outline_speed)
        &&& self.minimap_outline_thickness == other.minimap_outline_thickness
        &&& equal(self.minimap_outline_zoom_scale, other.minimap_outline_zoom_scale)
        &&& equal(self.shift_slow_factor, other.shift_slow_factor)
        &&& self.show_shift_osd == other.show_shift_osd
        &&& self.pixel_locked_panning == other.pixel_locked_panning
        &&& equal(self.pan_tuning, other.pan_tuning)
    }

    /// Whether every setting is the same in both. A setting that is not a
    /// number differs even from itself.
    pub fn same_settings(&self, other: &MagnifierConfig) -> (r: bool)
        ensures
            r == self.agrees(*other),
    {
        let a: [u8; 3] = self.screenshot_selection_color;
        let b: [u8; 3] = other.screenshot_selection_color;
        let same_color: bool = a[0] == b[0] && a[1] == b[1] && a[2] == b[2];
        assert(same_color == (a@ == b@)) by {
            if same_color {
                assert(a@ =~= b@);
            }
        }
        same_opt(self.default_zoom, other.default_zoom) && self.max_zoom.same(other.max_zoom)
            && self.hold_to_zoom_speed.same(other.hold_to_zoom_speed) && self.scroll_zoom_mode
            == other.scroll_zoom_mode && self.invert_scroll_zoom == other.invert_scroll_zoom
            && self.allow_zero_zoom == other.allow_zero_zoom && self.keybindings.same_keys(
            &other.keybindings,
        ) && self.screenshot_path == other.screenshot_path && self.screenshot_filename_pattern
            == other.screenshot_filename_pattern && same_color && self.screenshot_scale
            == other.screenshot_scale && self.show_osd == other.show_osd && self.osd_corner
            == other.osd_corner && self.minimap_corner == other.minimap_corner
            && self.minimap_visible == other.minimap_visible && self.minimap_outline_scheme
            == other.minimap_outline_scheme && self.minimap_outline_speed.same(
            other.minimap_outline_speed,
        ) && self.minimap_outline_thickness == other.minimap_outline_thickness
            && self.minimap_outline_zoom_scale.same(other.minimap_outline_zoom_scale)
            && self.shift_slow_factor.same(other.shift_slow_factor) && self.show_shift_osd
            == other.show_shift_osd && self.pixel_locked_panning == other.pixel_locked_panning
            && self.pan_tuning.same(other.pan_tuning)
    }
}

impl Clone for MagnifierConfig {
    fn clone(&self) -> (r: Self)
        ensures
            r == *self,
    {
        MagnifierConfig {
            default_zoom: self.default_zoom,
            max_zoom: self.max_zoom,
            hold_to_zoom_speed: self.hold_to_zoom_speed,
            scroll_zoom_mode: self.scroll_zoom_mode,
            invert_scroll_zoom: self.invert_scroll_zoom,
            allow_zero_zoom: self.allow_zero_zoom,
            keybindings: self.keybindings.clone(),
            screenshot_path: self.screenshot_path.clone(),
            screenshot_filename_pattern: self.screenshot_filename_pattern.clone(),
            screenshot_selection_color: self.screenshot_selection_color,
            screenshot_scale: self.screenshot_scale,
            show_osd: self.show_osd,
            osd_corner: self.osd_corner,
            minimap_corner: self.minimap_corner,
            minimap_visible: self.minimap_visible,
            minimap_outline_scheme: self.minimap_outline_scheme,
            minimap_outline_speed: self.minimap_outline_speed,
            minimap_outline_thickness: self.minimap_outline_thickness,
            minimap_outline_zoom_scale: self.minimap_outline_zoom_scale,
            shift_slow_factor: self.shift_slow_factor,
            show_shift_osd: self.show_shift_osd,
            pixel_locked_panning: self.pixel_locked_panning,
            pan_tuning: self.pan_tuning,
        }
    }
}

impl Default for MagnifierConfig {
    fn default() -> (r: Self)
        ensures
            r.is_default(),
    {
        MagnifierConfig {
            default_zoom: Some(Number { bits: number::ONE }),
            max_zoom: Number { bits: NINE },
            hold_to_zoom_speed: Number { bits: TWO_PERCENT },
            scroll_zoom_mode: ScrollZoomMode::Levels,
            invert_scroll_zoom: false,
            allow_zero_zoom: false,
            keybindings: Keybindings::default(),
            screenshot_path: "~/Pictures".to_owned(),
            screenshot_filename_pattern: "maggie_%Y%m%d_%H%M%S.png".to_owned(),
            screenshot_selection_color: [255, 153, 0],
            screenshot_scale: ScreenshotScale::Real,
            show_osd: true,
            osd_corner: Corner::TopLeft,
            minimap_corner: Corner::BottomRight,
            minimap_visible: true,
            minimap_outline_scheme: MinimapOutlineScheme::AngularGradient,
            minimap_outline_speed: Number { bits: number::ONE },
            minimap_outline_thickness: 3,
            minimap_outline_zoom_scale: Number { bits: QUARTER },
            shift_slow_factor: Number { bits: TENTH },
            show_shift_osd: true,
            pixel_locked_panning: true,
            pan_tuning: Number { bits: number::ZERO },
        }
    }
}

/// A setting brought into `low..=high`; `fallback` where it is not finite.
pub open spec fn tidied(v: Number, low: u64, high: u64, fallback: u64) -> Number {
    if v.finite() {
        v.clamped(number::num(low), number::num(high))
    } else {
        number::num(fallback)
    }
}

fn tidy(v: Number, low: u64, high: u64, fallback: u64) -> (r: Number)
    requires
        number::num(low).at_most(number::num(high)),
    ensures
        r == tidied(v, low, high, fallback),
{
    if v.is_finite() {
        v.clamp(Number { bits: low }, Number { bits: high })
    } else {
        Number { bits: fallback }
    }
}

/// The hold-to-zoom speed once it is in range: what is not a positive number
/// becomes the default.
pub open spec fn tidied_speed(v: Number) -> Number {
    if v.finite() && number::num(number::ZERO).below(v) {
        v.clamped(number::num(ONE_PER_MILLE), number::num(number::ONE))
    } else {
        number::num(TWO_PERCENT)
    }
}

/// The default zoom once it is in range: dropped where it is not finite.
pub open spec fn tidied_default_zoom(v: Option<Number>, low: Number, high: Number) -> Option<Number> {
    match v {
        Some(z) => if z.finite() {
            Some(z.clamped(low, high))
        } else {
            None
        },
        None => None,
    }
}

/// The key that opens the settings, once moved off the cursor toggle: they used
/// to share "c".
pub open spec fn moved_config_key(config_window: Seq<char>, toggle_cursor: Seq<char>) -> Seq<char> {
    if config_window == "c"@ && toggle_cursor == "c"@ {
        "Tab"@
    } else {
        config_window
    }
}

/// The key that starts a manual selection, once moved off "s", which nudges
/// the selection down.
pub open spec fn moved_manual_key(screenshot_manual: Seq<char>) -> Seq<char> {
    if screenshot_manual == "s"@ {
        "g"@
    } else {
        screenshot_manual
    }
}

/// `new` has the bindings of `old`, with the two keys moved that need it.
pub open spec fn migrated(old_keys: Keybindings, new_keys: Keybindings) -> bool {
    &&& new_keys.toggle_osd@ == old_keys.toggle_osd@
    &&& new_keys.screenshot_manual@ == moved_manual_key(old_keys.screenshot_manual@)
    &&& new_keys.screenshot_window@ == old_keys.screenshot_window@
    &&& new_keys.screenshot_fullscreen@ == old_keys.screenshot_fullscreen@
    &&& new_keys.config_window@ == moved_config_key(
        old_keys.config_window@,
        old_keys.toggle_cursor@,
    )
    &&& new_keys.anti_aliasing@ == old_keys.anti_aliasing@
    &&& new_keys.mode_annotation@ == old_keys.mode_annotation@
    &&& new_keys.mode_capture@ == old_keys.mode_capture@
    &&& new_keys.reset_zoom@ == old_keys.reset_zoom@
    &&& new_keys.toggle_cursor@ == old_keys.toggle_cursor@
    &&& new_keys.hold_to_zoom@ == old_keys.hold_to_zoom@
    &&& new_keys.screenshot_scale_toggle@ == old_keys.screenshot_scale_toggle@
    &&& new_keys.minimap@ == old_keys.minimap@
}

/// `new` is `old` with every setting in range and the keys migrated.
pub open spec fn normalized(old_config: MagnifierConfig, new_config: MagnifierConfig) -> bool {
    let max = tidied(old_config.max_zoom, number::ONE, MAX_ZOOM, NINE);
    &&& new_config.max_zoom == max
    &&& new_config.hold_to_zoom_speed == tidied_speed(old_config.hold_to_zoom_speed)
    &&& new_config.pan_tuning == tidied(
        old_config.pan_tuning,
        number::ZERO,
        number::ONE,
        number::ZERO,
    )
    &&& new_config.minimap_outline_speed == tidied(
        old_config.minimap_outline_speed,
        ONE_PERCENT,
        TEN,
        number::ONE,
    )
    &&& new_config.minimap_outline_thickness == (if old_config.minimap_outline_thickness < 1 {
        1
    } else if old_config.minimap_outline_thickness > 8 {
        8
    } else {
        old_config.minimap_outline_thickness
    })
    &&& new_config.minimap_outline_zoom_scale == tidied(
        old_config.minimap_outline_zoom_scale,
        number::ZERO,
        TWO,
        QUARTER,
    )
    &&& new_config.shift_slow_factor == tidied(
        old_config.shift_slow_factor,
        ONE_PERCENT,
        number::ONE,
        TENTH,
    )
    &&& new_config.allow_zero_zoom == (old_config.allow_zero_zoom || is_zero(
        old_config.default_zoom,
    ))
    &&& new_config.default_zoom == tidied_default_zoom(
        old_config.default_zoom,
        old_config.lowest_zoom(),
        max,
    )
    &&& migrated(old_config.keybindings, new_config.keybindings)
    &&& new_config.scroll_zoom_mode == old_config.scroll_zoom_mode
    &&& new_config.invert_scroll_zoom == old_config.invert_scroll_zoom
    &&& new_config.screenshot_path@ == old_config.screenshot_path@
    &&& new_config.screenshot_filename_pattern@ == old_config.screenshot_filename_pattern@
    &&& new_config.screenshot_selection_color == old_config.screenshot_selection_color
    &&& new_config.screenshot_scale == old_config.screenshot_scale
    &&& new_config.show_osd == old_config.show_osd
    &&& new_config.osd_corner == old_config.osd_corner
    &&& new_config.minimap_corner == old_config.minimap_corner
    &&& new_config.minimap_visible == old_config.minimap_visible
    &&& new_config.minimap_outline_scheme == old_config.minimap_outline_scheme
    &&& new_config.show_shift_osd == old_config.show_shift_osd
    &&& new_config.pixel_locked_panning == old_config.pixel_locked_panning
}

/// Moves the two keys that need it.
fn migrate_keys(keys: &mut Keybindings)
    ensures
        migrated(*old(keys), *final(keys)),
{
    let shared: bool = text::same_text(keys.config_window.as_str(), "c") && text::same_text(
        keys.toggle_cursor.as_str(),
        "c",
    );
    let nudges: bool = text::same_text(keys.screenshot_manual.as_str(), "s");
    if shared {
        keys.config_window = "Tab".to_owned();
    }
    if nudges {
        keys.screenshot_manual = "g".to_owned();
    }
}

fn tidy_speed(v: Number) -> (r: Number)
    ensures
        r == tidied_speed(v),
{
    let zero: Number = Number { bits: number::ZERO };
    if v.is_finite() && zero.lt(v) {
        v.clamp(Number { bits: ONE_PER_MILLE }, Number { bits: number::ONE })
    } else {
        Number { bits: TWO_PERCENT }
    }
}

fn tidy_default_zoom(v: Option<Number>, low: Number, high: Number) -> (r: Option<Number>)
    requires
        low.at_most(high),
    ensures
        r == tidied_default_zoom(v, low, high),
{
    match v {
        Some(z) => if z.is_finite() {
            Some(z.clamp(low, high))
        } else {
            None
        },
        None => None,
    }
}

/// Brings every setting into its range, makes zooming out to the whole screen
/// reachable where it is the default, and migrates renamed default keys.
pub fn normalize_config(config: &mut MagnifierConfig)
    ensures
        normalized(*old(config), *final(config)),
{
    let zero: Number = Number { bits: number::ZERO };
    let low: Number = config.min_zoom();
    let at_zero: bool = match config.default_zoom {
        Some(z) => z.same(zero),
        None => false,
    };
    let max: Number = tidy(config.max_zoom, number::ONE, MAX_ZOOM, NINE);
    let default_zoom: Option<Number> = tidy_default_zoom(config.default_zoom, low, max);
    let pan: Number = tidy(config.pan_tuning, number::ZERO, number::ONE, number::ZERO);
    let outline_speed: Number = tidy(
        config.minimap_outline_speed,
        ONE_PERCENT,
        TEN,
        number::ONE,
    );
    let thickness: u32 = if config.minimap_outline_thickness < 1 {
        1
    } else if config.minimap_outline_thickness > 8 {
        8
    } else {
        config.minimap_outline_thickness
    };
    let zoom_scale: Number = tidy(config.minimap_outline_zoom_scale, number::ZERO, TWO, QUARTER);
    let slow: Number = tidy(config.shift_slow_factor, ONE_PERCENT, number::ONE, TENTH);
    let speed: Number = tidy_speed(config.hold_to_zoom_speed);
    config.max_zoom = max;
    config.hold_to_zoom_speed = speed;
    config.pan_tuning = pan;
    config.minimap_outline_speed = outline_speed;
    config.minimap_outline_thickness = thickness;
    config.minimap_outline_zoom_scale = zoom_scale;
    config.shift_slow_factor = slow;
    config.default_zoom = default_zoom;
    if at_zero {
        config.allow_zero_zoom = true;
    }
    migrate_keys(&mut config.keybindings);
}

/// The settings to start with: those that were read, or those of a fresh
/// installation where there were none; normalized.
pub fn loaded_config(read: Option<MagnifierConfig>) -> (r: MagnifierConfig)
    ensures
        match read {
            Some(c) => normalized(c, r),
            None => exists|c: MagnifierConfig| c.is_default() && #[trigger] normalized(c, r),
        },
{
    let mut config: MagnifierConfig = match read {
        Some(c) => c,
        None => MagnifierConfig::default(),
    };
    normalize_config(&mut config);
    config
}

/// Every setting of a normalized configuration is a number in its range, and
/// the default zoom can be reached.
pub proof fn normalized_is_in_range(c: MagnifierConfig, n: MagnifierConfig)
    requires
        normalized(c, n),
    ensures
        number::num(number::ONE).at_most(n.max_zoom),
        n.max_zoom.at_most(number::num(MAX_ZOOM)),
        number::num(ONE_PER_MILLE).at_most(n.hold_to_zoom_speed),
        n.hold_to_zoom_speed.at_most(number::num(number::ONE)),
        number::num(number::ZERO).at_most(n.pan_tuning),
        n.pan_tuning.at_most(number::num(number::ONE)),
        number::num(ONE_PERCENT).at_most(n.minimap_outline_speed),
        n.minimap_outline_speed.at_most(number::num(TEN)),
        1 <= n.minimap_outline_thickness <= 8,
        number::num(number::ZERO).at_most(n.minimap_outline_zoom_scale),
        n.minimap_outline_zoom_scale.at_most(number::num(TWO)),
        number::num(ONE_PERCENT).at_most(n.shift_slow_factor),
        n.shift_slow_factor.at_most(number::num(number::ONE)),
        is_zero(n.default_zoom) ==> n.allow_zero_zoom,
        n.default_zoom matches Some(z) ==> n.lowest_zoom().at_most(z) && z.at_most(n.max_zoom),
{
}

/// Normalizing a normalized configuration changes nothing. A changed one would
/// be saved again on every frame.
pub proof fn normalizing_is_idempotent(c: MagnifierConfig, n: MagnifierConfig, again: MagnifierConfig)
    requires
        normalized(c, n),
        normalized(n, again),
    ensures
        n.agrees(again),
{
    reveal_strlit("c");
    reveal_strlit("s");
    reveal_strlit("g");
    reveal_strlit("Tab");
    normalized_is_in_range(c, n);
}

/// A normalized configuration agrees with itself: none of its settings is
/// something other than a number.
pub proof fn normalized_agrees_with_itself(c: MagnifierConfig, n: MagnifierConfig)
    requires
        normalized(c, n),
    ensures
        n.agrees(n),
{
    normalized_is_in_range(c, n);
}

/// After normalization the settings key and the cursor toggle do not share
/// "c", and the manual selection does not use the nudge key "s".
pub proof fn normalized_keys_do_not_collide(c: MagnifierConfig, n: MagnifierConfig)
    requires
        normalized(c, n),
    ensures
        !(n.keybindings.config_window@ == "c"@ && n.keybindings.toggle_cursor@ == "c"@),
        n.keybindings.screenshot_manual@ != "s"@,
{
    reveal_strlit("c");
    reveal_strlit("s");
    reveal_strlit("g");
    reveal_strlit("Tab");
    assert("Tab"@.len() == 3 && "c"@.len() == 1);
    assert("g"@[0] != "s"@[0]);
}

/// The fresh settings are already in range: normalizing keeps them.
pub proof fn default_config_is_normal(c: MagnifierConfig, n: MagnifierConfig)
    requires
        c.is_default(),
        normalized(c, n),
    ensures
        n.is_default(),
{
    reveal_strlit("c");
    reveal_strlit("s");
    reveal_strlit("g");
    reveal_strlit("Tab");
}

/// `dirs::config_dir`, as the bytes that the system has for the path. It depends
/// on the environment, so nothing is said of the result.
#[verifier::external_body]
fn config_dir() -> (r: Option<Vec<u8>>) {
    dirs::config_dir().map(|dir| dir.into_os_string().into_encoded_bytes())
}

/// Where the settings are kept: the bytes of the paths of their directory and of
/// their file.
#[derive(Debug)]
pub struct ConfigPlace {
    pub directory: Vec<u8>,
    pub file: Vec<u8>,
}

impl ConfigPlace {
    /// Whether this is the place below a user's directory for settings.
    pub open spec fn is_below(self, dir: Seq<u8>) -> bool {
        &&& self.directory@ == text::path_below(dir, "maggie"@)
        &&& self.file@ == text::path_below(self.directory@, "config.ron"@)
    }
}

/// The place of the settings, given the user's directory for settings.
pub fn config_place_in(dir: Option<Vec<u8>>) -> (r: Option<ConfigPlace>)
    ensures
        match r {
            Some(place) => dir is Some && place.is_below(dir->0@),
            None => dir is None,
        },
{
    match dir {
        Some(dir) => {
            let directory: Vec<u8> = text::join_path(dir.as_slice(), "maggie");
            let file: Vec<u8> = text::join_path(directory.as_slice(), "config.ron");
            Some(ConfigPlace { directory, file })
        },
        None => None,
    }
}

/// The place of the settings. It is unknown where the user's directory for
/// settings is.
pub fn config_place() -> (r: Option<ConfigPlace>)
    ensures
        r is Some ==> exists|dir: Seq<u8>| #[trigger] (r->0).is_below(dir),
{
    config_place_in(config_dir())
}

/// A number within its range stays when the settings are normalized, one outside
/// goes to the end that it lies beyond, and what is no finite number becomes
/// the default.
pub proof fn normalizing_keeps_what_is_in_range(c: MagnifierConfig, n: MagnifierConfig)
    requires
        normalized(c, n),
    ensures
        number::num(0x3FF0_0000_0000_0000).at_most(c.max_zoom) && c.max_zoom.at_most(
            number::num(0x4040_0000_0000_0000),
        ) ==> n.max_zoom == c.max_zoom,
        c.max_zoom.finite() && c.max_zoom.below(number::num(0x3FF0_0000_0000_0000)) ==> n.max_zoom
            == number::num(0x3FF0_0000_0000_0000),
        c.max_zoom.finite() && number::num(0x4040_0000_0000_0000).below(c.max_zoom) ==> n.max_zoom
            == number::num(0x4040_0000_0000_0000),
        !c.max_zoom.finite() ==> n.max_zoom == number::num(0x4022_0000_0000_0000),
        number::num(0).at_most(c.pan_tuning) && c.pan_tuning.at_most(
            number::num(0x3FF0_0000_0000_0000),
        ) ==> n.pan_tuning == c.pan_tuning,
        c.pan_tuning.finite() && c.pan_tuning.below(number::num(0)) ==> n.pan_tuning
            == number::num(0),
        c.pan_tuning.finite() && number::num(0x3FF0_0000_0000_0000).below(c.pan_tuning) ==> n.pan_tuning
            == number::num(0x3FF0_0000_0000_0000),
        !c.pan_tuning.finite() ==> n.pan_tuning == number::num(0),
        number::num(0x3F84_7AE1_47AE_147B).at_most(c.minimap_outline_speed) && c.minimap_outline_speed.at_most(
            number::num(0x4024_0000_0000_0000),
        ) ==> n.minimap_outline_speed == c.minimap_outline_speed,
        c.minimap_outline_speed.finite() && c.minimap_outline_speed.below(number::num(0x3F84_7AE1_47AE_147B)) ==> n.minimap_outline_speed
            == number::num(0x3F84_7AE1_47AE_147B),
        c.minimap_outline_speed.finite() && number::num(0x4024_0000_0000_0000).below(c.minimap_outline_speed) ==> n.minimap_outline_speed
            == number::num(0x4024_0000_0000_0000),
        !c.minimap_outline_speed.finite() ==> n.minimap_outline_speed == number::num(0x3FF0_0000_0000_0000),
        number::num(0).at_most(c.minimap_outline_zoom_scale) && c.minimap_outline_zoom_scale.at_most(
            number::num(0x4000_0000_0000_0000),
        ) ==> n.minimap_outline_zoom_scale == c.minimap_outline_zoom_scale,
        c.minimap_outline_zoom_scale.finite() && c.minimap_outline_zoom_scale.below(number::num(0)) ==> n.minimap_outline_zoom_scale
            == number::num(0),
        c.minimap_outline_zoom_scale.finite() && number::num(0x4000_0000_0000_0000).below(c.minimap_outline_zoom_scale) ==> n.minimap_outline_zoom_scale
            == number::num(0x4000_0000_0000_0000),
        !c.minimap_outline_zoom_scale.finite() ==> n.minimap_outline_zoom_scale == number::num(0x3FD0_0000_0000_0000),
        number::num(0x3F84_7AE1_47AE_147B).at_most(c.shift_slow_factor) && c.shift_slow_factor.at_most(
            number::num(0x3FF0_0000_0000_0000),
        ) ==> n.shift_slow_factor == c.shift_slow_factor,
        c.shift_slow_factor.finite() && c.shift_slow_factor.below(number::num(0x3F84_7AE1_47AE_147B)) ==> n.shift_slow_factor
            == number::num(0x3F84_7AE1_47AE_147B),
        c.shift_slow_factor.finite() && number::num(0x3FF0_0000_0000_0000).below(c.shift_slow_factor) ==> n.shift_slow_factor
            == number::num(0x3FF0_0000_0000_0000),
        !c.shift_slow_factor.finite() ==> n.shift_slow_factor == number::num(0x3FB9_9999_9999_999A),
        number::num(0x3F50_624D_D2F1_A9FC).at_most(c.hold_to_zoom_speed)
            && c.hold_to_zoom_speed.at_most(number::num(0x3FF0_0000_0000_0000))
            ==> n.hold_to_zoom_speed == c.hold_to_zoom_speed,
        c.hold_to_zoom_speed.at_most(number::num(0)) || !c.hold_to_zoom_speed.finite()
            ==> n.hold_to_zoom_speed == number::num(0x3F94_7AE1_47AE_147B),
        number::num(0).below(c.hold_to_zoom_speed) && c.hold_to_zoom_speed.below(
            number::num(0x3F50_624D_D2F1_A9FC),
        ) ==> n.hold_to_zoom_speed == number::num(0x3F50_624D_D2F1_A9FC),
        c.hold_to_zoom_speed.finite() && number::num(0x3FF0_0000_0000_0000).below(
            c.hold_to_zoom_speed,
        ) ==> n.hold_to_zoom_speed == number::num(0x3FF0_0000_0000_0000),
        1 <= c.minimap_outline_thickness <= 8 ==> n.minimap_outline_thickness
            == c.minimap_outline_thickness,
        c.minimap_outline_thickness == 0 ==> n.minimap_outline_thickness == 1,
        c.minimap_outline_thickness > 8 ==> n.minimap_outline_thickness == 8,
{
}

/// The default zoom stays where it can be reached, and is dropped where it is no
/// finite number; a default of zero makes the whole screen reachable.
pub proof fn normalizing_keeps_a_reachable_default_zoom(c: MagnifierConfig, n: MagnifierConfig)
    requires
        normalized(c, n),
    ensures
        c.default_zoom is None ==> n.default_zoom is None,
        c.default_zoom matches Some(z) ==> !z.finite() ==> n.default_zoom is None,
        c.default_zoom matches Some(z) ==> number::num(0x3FF0_0000_0000_0000).at_most(z)
            && z.at_most(n.max_zoom) ==> n.default_zoom == Some(z),
        c.default_zoom matches Some(z) ==> z.finite() && n.max_zoom.below(z) ==> n.default_zoom
            == Some(n.max_zoom),
        c.default_zoom == Some(number::num(0)) ==> n.default_zoom == Some(number::num(0))
            && n.allow_zero_zoom,
        c.allow_zero_zoom ==> n.allow_zero_zoom,
        !c.allow_zero_zoom && c.default_zoom is None ==> !n.allow_zero_zoom,
        !c.allow_zero_zoom && (c.default_zoom matches Some(z) && number::num(0).below(z))
            ==> !n.allow_zero_zoom,
        !c.allow_zero_zoom ==> (c.default_zoom matches Some(z) ==> number::num(0).below(z)
            && z.below(number::num(0x3FF0_0000_0000_0000)) ==> n.default_zoom == Some(
            number::num(0x3FF0_0000_0000_0000),
        )),
{
}

/// Only two keys ever move: the settings off a "c" that they share with the
/// cursor toggle, to "Tab", and the manual selection off "s", to "g".
pub proof fn normalizing_moves_only_colliding_keys(c: MagnifierConfig, n: MagnifierConfig)
    requires
        normalized(c, n),
    ensures
        ({
            let a = c.keybindings;
            let b = n.keybindings;
            &&& a.config_window@ == "c"@ && a.toggle_cursor@ == "c"@ ==> b.config_window@ == "Tab"@
            &&& !(a.config_window@ == "c"@ && a.toggle_cursor@ == "c"@) ==> b.config_window@
                == a.config_window@
            &&& a.screenshot_manual@ == "s"@ ==> b.screenshot_manual@ == "g"@
            &&& a.screenshot_manual@ != "s"@ ==> b.screenshot_manual@ == a.screenshot_manual@
            &&& b.toggle_osd@ == a.toggle_osd@
            &&& b.screenshot_window@ == a.screenshot_window@
            &&& b.screenshot_fullscreen@ == a.screenshot_fullscreen@
            &&& b.anti_aliasing@ == a.anti_aliasing@
            &&& b.mode_annotation@ == a.mode_annotation@
            &&& b.mode_capture@ == a.mode_capture@
            &&& b.reset_zoom@ == a.reset_zoom@
            &&& b.toggle_cursor@ == a.toggle_cursor@
            &&& b.hold_to_zoom@ == a.hold_to_zoom@
            &&& b.screenshot_scale_toggle@ == a.screenshot_scale_toggle@
            &&& b.minimap@ == a.minimap@
        }),
{
}

/// Settings that are no numbers and no keys are never changed by normalizing.
pub proof fn normalizing_keeps_choices(c: MagnifierConfig, n: MagnifierConfig)
    requires
        normalized(c, n),
    ensures
        n.scroll_zoom_mode == c.scroll_zoom_mode,
        n.invert_scroll_zoom == c.invert_scroll_zoom,
        n.screenshot_path@ == c.screenshot_path@,
        n.screenshot_filename_pattern@ == c.screenshot_filename_pattern@,
        n.screenshot_selection_color == c.screenshot_selection_color,
        n.screenshot_scale == c.screenshot_scale,
        n.show_osd == c.show_osd,
        n.osd_corner == c.osd_corner,
        n.minimap_corner == c.minimap_corner,
        n.minimap_visible == c.minimap_visible,
        n.minimap_outline_scheme == c.minimap_outline_scheme,
        n.show_shift_osd == c.show_shift_osd,
        n.pixel_locked_panning == c.pixel_locked_panning,
{
}

/// What a fresh installation starts with.
pub proof fn fresh_settings(c: MagnifierConfig)
    requires
        c.is_default(),
    ensures
        c.default_zoom == Some(number::num(0x3FF0_0000_0000_0000)),
        c.max_zoom == number::num(0x4022_0000_0000_0000),
        c.hold_to_zoom_speed == number::num(0x3F94_7AE1_47AE_147B),
        c.scroll_zoom_mode == ScrollZoomMode::Levels,
        !c.invert_scroll_zoom,
        !c.allow_zero_zoom,
        c.screenshot_path@ == "~/Pictures"@,
        c.screenshot_filename_pattern@ == "maggie_%Y%m%d_%H%M%S.png"@,
        c.screenshot_selection_color[0] == 255 && c.screenshot_selection_color[1] == 153
            && c.screenshot_selection_color[2] == 0,
        c.screenshot_scale == ScreenshotScale::Real,
        c.show_osd,
        c.osd_corner == Corner::TopLeft,
        c.minimap_corner == Corner::BottomRight,
        c.minimap_visible,
        c.minimap_outline_scheme == MinimapOutlineScheme::AngularGradient,
        c.minimap_outline_speed == number::num(0x3FF0_0000_0000_0000),
        c.minimap_outline_thickness == 3,
        c.minimap_outline_zoom_scale == number::num(0x3FD0_0000_0000_0000),
        c.shift_slow_factor == number::num(0x3FB9_9999_9999_999A),
        c.show_shift_osd,
        c.pixel_locked_panning,
        c.pan_tuning == number::num(0),
        c.keybindings.toggle_osd@ == "k"@,
        c.keybindings.screenshot_manual@ == "g"@,
        c.keybindings.screenshot_window@ == "w"@,
        c.keybindings.screenshot_fullscreen@ == "f"@,
        c.keybindings.config_window@ == "Tab"@,
        c.keybindings.anti_aliasing@ == "a"@,
        c.keybindings.mode_annotation@ == "Control-a"@,
        c.keybindings.mode_capture@ == "Control-c"@,
        c.keybindings.reset_zoom@ == "r"@,
        c.keybindings.toggle_cursor@ == "c"@,
        c.keybindings.hold_to_zoom@ == "MMB"@,
        c.keybindings.screenshot_scale_toggle@ == "v"@,
        c.keybindings.minimap@ == "m"@,
{
}

/// Settings that agree are the same, setting by setting: any difference counts.
pub proof fn agreeing_settings_are_the_same(a: MagnifierConfig, b: MagnifierConfig)
    requires
        a.agrees(b),
    ensures
        a.default_zoom is Some <==> b.default_zoom is Some,
        a.default_zoom matches Some(x) ==> (b.default_zoom matches Some(y) && x.rank() == y.rank()),
        a.max_zoom.rank() == b.max_zoom.rank(),
        a.hold_to_zoom_speed.rank() == b.hold_to_zoom_speed.rank(),
        a.scroll_zoom_mode == b.scroll_zoom_mode,
        a.invert_scroll_zoom == b.invert_scroll_zoom,
        a.allow_zero_zoom == b.allow_zero_zoom,
        a.screenshot_path@ == b.screenshot_path@,
        a.screenshot_filename_pattern@ == b.screenshot_filename_pattern@,
        forall|i: int|
            0 <= i < 3 ==> a.screenshot_selection_color[i] == #[trigger] b.screenshot_selection_color[i],
        a.screenshot_scale == b.screenshot_scale,
        a.show_osd == b.show_osd,
        a.osd_corner == b.osd_corner,
        a.minimap_corner == b.minimap_corner,
        a.minimap_visible == b.minimap_visible,
        a.minimap_outline_scheme == b.minimap_outline_scheme,
        a.minimap_outline_speed.rank() == b.minimap_outline_speed.rank(),
        a.minimap_outline_thickness == b.minimap_outline_thickness,
        a.minimap_outline_zoom_scale.rank() == b.minimap_outline_zoom_scale.rank(),
        a.shift_slow_factor.rank() == b.shift_slow_factor.rank(),
        a.show_shift_osd == b.show_shift_osd,
        a.pixel_locked_panning == b.pixel_locked_panning,
        a.pan_tuning.rank() == b.pan_tuning.rank(),
        a.keybindings.toggle_osd@ == b.keybindings.toggle_osd@,
        a.keybindings.screenshot_manual@ == b.keybindings.screenshot_manual@,
        a.keybindings.screenshot_window@ == b.keybindings.screenshot_window@,
        a.keybindings.screenshot_fullscreen@ == b.keybindings.screenshot_fullscreen@,
        a.keybindings.config_window@ == b.keybindings.config_window@,
        a.keybindings.anti_aliasing@ == b.keybindings.anti_aliasing@,
        a.keybindings.mode_annotation@ == b.keybindings.mode_annotation@,
        a.keybindings.mode_capture@ == b.keybindings.mode_capture@,
        a.keybindings.reset_zoom@ == b.keybindings.reset_zoom@,
        a.keybindings.toggle_cursor@ == b.keybindings.toggle_cursor@,
        a.keybindings.hold_to_zoom@ == b.keybindings.hold_to_zoom@,
        a.keybindings.screenshot_scale_toggle@ == b.keybindings.screenshot_scale_toggle@,
        a.keybindings.minimap@ == b.keybindings.minimap@,
{
    assert forall|i: int| 0 <= i < 3 implies a.screenshot_selection_color[i]
        == #[trigger] b.screenshot_selection_color[i] by {
        assert(a.screenshot_selection_color@[i] == b.screenshot_selection_color@[i]);
    }
}

/// The choices are called by their names.
pub proof fn choices_have_names()
    ensures
        MinimapOutlineScheme::Gradient.spoken() == "gradient"@,
        MinimapOutlineScheme::AngularGradient.spoken() == "angular gradient"@,
        MinimapOutlineScheme::MarchingAnts.spoken() == "marching ants"@,
        ScreenshotScale::Real.spoken() == "real size"@,
        ScreenshotScale::Magnified.spoken() == "magnified"@,
{
}

/// The settings are in a file of their own directory, below the user's.
pub proof fn settings_have_their_own_directory(place: ConfigPlace, dir: Seq<u8>)
    requires
        place.is_below(dir),
        dir.len() > 0,
        dir.last() != 0x2f,
    ensures
        place.directory@ == dir + seq![0x2fu8] + encode_utf8("maggie"@),
        place.file@ == place.directory@ + seq![0x2fu8] + encode_utf8("config.ron"@),
{
    reveal_strlit("maggie");
    reveal_strlit("config.ron");
    vstd::utf8::is_ascii_chars_encode_utf8("maggie"@);
    text::paths_join_at_one_separator(dir, "maggie"@);
    let tail = encode_utf8("maggie"@);
    assert(tail.len() == 6);
    assert(place.directory@.last() == tail.last());
    text::paths_join_at_one_separator(place.directory@, "config.ron"@);
}

} // verus!
