//! The text of the key legend.

use crate::config::{Keybindings, ScreenshotScale};
use crate::engine::Session;
use crate::text;
use crate::timing;
use vstd::prelude::*;

verus! {

/// The position that the legend shows: the rounded middle of the view, but the
/// whole width or height where the view is held at the far edge.
pub open spec fn shown_position(s: Session, rounded: Option<(i64, i64)>) -> Option<(int, int)> {
    match rounded {
        Some((x, y)) => Some(
            (
                match (s.edge_hold.0, s.frame) {
                    (Some(true), Some((w, _))) => w as int,
                    _ => x as int,
                },
                match (s.edge_hold.1, s.frame) {
                    (Some(true), Some((_, h))) => h as int,
                    _ => y as int,
                },
            ),
        ),
        None => None,
    }
}

/// The lines of the legend in screenshot mode.
pub open spec fn shot_lines(
    version: Seq<char>,
    bindings: Keybindings,
    scale: ScreenshotScale,
) -> Seq<Seq<char>> {
    seq![
        "maggie v"@ + version + "  screenshot mode"@,
        "drag  select"@,
        bindings.screenshot_fullscreen@ + "  fullscreen"@,
        "Return  save"@,
        "Esc  cancel"@,
        "WASD  nudge border"@,
        bindings.screenshot_scale_toggle@ + "  scale: "@ + scale.spoken(),
        bindings.minimap@ + "  toggle minimap"@,
    ]
}

/// The first line of the legend of the magnifier.
pub open spec fn title(version: Seq<char>, readout: Seq<char>) -> Seq<char> {
    "maggie v"@ + version + "  zoom "@ + readout
}

/// The lines of the legend of the magnifier that name keys.
pub open spec fn key_lines(bindings: Keybindings) -> Seq<Seq<char>> {
    seq![
        "0-9  zoom level"@,
        bindings.toggle_osd@ + "  toggle OSD"@,
        bindings.screenshot_fullscreen@ + "  screenshot fullscreen"@,
        bindings.screenshot_manual@ + "  manual selection"@,
        bindings.screenshot_window@ + "  window selection"@,
        bindings.config_window@ + "  config window"@,
        bindings.toggle_cursor@ + "  toggle cursor"@,
        bindings.minimap@ + "  toggle minimap"@,
        "hold "@ + bindings.hold_to_zoom@ + " + move  smooth zoom"@,
        if bindings.hold_to_zoom@ == "MMB"@ {
            bindings.reset_zoom@ + "  reset zoom"@
        } else {
            "MMB / "@ + bindings.reset_zoom@ + "  reset zoom"@
        },
        "Q / Esc / RMB  quit"@,
    ]
}

/// The line with the position.
pub open spec fn position_line(x: int, y: int) -> Seq<char> {
    "pos "@ + text::signed_digits(x) + "x"@ + text::signed_digits(y)
}

/// The lines of the legend: in the magnifier the title, then a fresh notice,
/// then the position, then the keys.
pub open spec fn legend_lines(
    s: Session,
    version: Seq<char>,
    readout: Seq<char>,
    rounded: Option<(i64, i64)>,
    now: u64,
) -> Seq<Seq<char>> {
    if s.shot.active {
        shot_lines(
            version,
            s.state.config.keybindings,
            s.shot.scale_in_force(s.state.config.screenshot_scale),
        )
    } else {
        let notice = match s.notice {
            Some((message, at)) => if timing::elapsed(at, now) < timing::NOTICE_TIME {
                seq![message@]
            } else {
                Seq::empty()
            },
            None => Seq::empty(),
        };
        let position = match shown_position(s, rounded) {
            Some((x, y)) => seq![position_line(x, y)],
            None => Seq::empty(),
        };
        seq![title(version, readout)] + notice + position + key_lines(s.state.config.keybindings)
    }
}

fn line2(a: &str, b: &str) -> (r: String)
    ensures
        r@ == a@ + b@,
{
    text::joined(a, b)
}

fn line3(a: &str, b: &str, c: &str) -> (r: String)
    ensures
        r@ == a@ + b@ + c@,
{
    let mut r: String = text::joined(a, b);
    r.append(c);
    r
}

fn add_line(lines: &mut Vec<String>, line: String)
    ensures
        text::texts(final(lines)@) == text::texts(old(lines)@).push(line@),
{
    let ghost before = lines@;
    lines.push(line);
    assert(text::texts(lines@) =~= text::texts(before).push(line@));
}

fn add_shot_lines(lines: &mut Vec<String>, version: &str, k: &Keybindings, scale: ScreenshotScale)
    requires
        text::texts(old(lines)@) == Seq::<Seq<char>>::empty(),
    ensures
        text::texts(final(lines)@) == shot_lines(version@, *k, scale),
{
    add_line(lines, line3("maggie v", version, "  screenshot mode"));
    add_line(lines, "drag  select".to_owned());
    add_line(lines, line2(k.screenshot_fullscreen.as_str(), "  fullscreen"));
    add_line(lines, "Return  save".to_owned());
    add_line(lines, "Esc  cancel".to_owned());
    add_line(lines, "WASD  nudge border".to_owned());
    add_line(lines, line3(k.screenshot_scale_toggle.as_str(), "  scale: ", scale.name()));
    add_line(lines, line2(k.minimap.as_str(), "  toggle minimap"));
    assert(text::texts(lines@) =~= shot_lines(version@, *k, scale));
}

fn add_key_lines(lines: &mut Vec<String>, k: &Keybindings)
    ensures
        text::texts(final(lines)@) == text::texts(old(lines)@) + key_lines(*k),
{
    let ghost before = text::texts(lines@);
    add_line(lines, "0-9  zoom level".to_owned());
    add_line(lines, line2(k.toggle_osd.as_str(), "  toggle OSD"));
    add_line(lines, line2(k.screenshot_fullscreen.as_str(), "  screenshot fullscreen"));
    add_line(lines, line2(k.screenshot_manual.as_str(), "  manual selection"));
    add_line(lines, line2(k.screenshot_window.as_str(), "  window selection"));
    add_line(lines, line2(k.config_window.as_str(), "  config window"));
    add_line(lines, line2(k.toggle_cursor.as_str(), "  toggle cursor"));
    add_line(lines, line2(k.minimap.as_str(), "  toggle minimap"));
    add_line(lines, line3("hold ", k.hold_to_zoom.as_str(), " + move  smooth zoom"));
    if text::same_text(k.hold_to_zoom.as_str(), "MMB") {
        add_line(lines, line2(k.reset_zoom.as_str(), "  reset zoom"));
    } else {
        add_line(lines, line3("MMB / ", k.reset_zoom.as_str(), "  reset zoom"));
    }
    add_line(lines, "Q / Esc / RMB  quit".to_owned());
    assert(text::texts(lines@) =~= before + key_lines(*k));
}

impl Session {
    /// The lines of the legend. `readout` is the zoom as text, `rounded` the
    /// middle of the view in whole capture pixels, where there is a view.
    pub fn osd_lines(
        &self,
        version: &str,
        readout: &str,
        rounded: Option<(i64, i64)>,
        now: u64,
    ) -> (r: Vec<String>)
        ensures
            text::texts(r@) == legend_lines(*self, version@, readout@, rounded, now),
    {
        let mut lines: Vec<String> = Vec::new();
        assert(text::texts(lines@) =~= Seq::<Seq<char>>::empty());
        let k: &Keybindings = &self.state.config.keybindings;
        if self.shot.active {
            let scale: ScreenshotScale = self.shot.effective_screenshot_scale(
                self.state.config.screenshot_scale,
            );
            add_shot_lines(&mut lines, version, k, scale);
            return lines;
        }
        let mut first: String = line3("maggie v", version, "  zoom ");
        first.append(readout);
        add_line(&mut lines, first);
        if let Some((message, at)) = &self.notice {
            if timing::still_fresh(*at, timing::NOTICE_TIME, now) {
                add_line(&mut lines, message.clone());
            }
        }
        if let Some((x, y)) = rounded {
            let x: i64 = match (self.edge_hold.0, self.frame) {
                (Some(true), Some((w, _))) => w as i64,
                _ => x,
            };
            let y: i64 = match (self.edge_hold.1, self.frame) {
                (Some(true), Some((_, h))) => h as i64,
                _ => y,
            };
            let xs: String = text::signed_decimal(x);
            let ys: String = text::signed_decimal(y);
            let mut line: String = line3("pos ", xs.as_str(), "x");
            line.append(ys.as_str());
            add_line(&mut lines, line);
        }
        add_key_lines(&mut lines, k);
        assert(text::texts(lines@) =~= legend_lines(*self, version@, readout@, rounded, now));
        lines
    }
}

/// In the magnifier the legend begins with the program, its version and the zoom,
/// goes on with a notice that is less than four seconds old and with the
/// position, and then names the keys as they are bound.
pub proof fn legend_names_the_keys(
    s: Session,
    version: Seq<char>,
    readout: Seq<char>,
    rounded: Option<(i64, i64)>,
    now: u64,
)
    requires
        !s.shot.active,
    ensures
        ({
            let lines = legend_lines(s, version, readout, rounded, now);
            let b = s.state.config.keybindings;
            let noted = if s.notice matches Some((_, at)) && (now < at || now - at < 4_000_000_000) {
                1int
            } else {
                0
            };
            let placed = if rounded is Some {
                1int
            } else {
                0
            };
            let k = 1 + noted + placed;
            &&& lines.len() == k + 11
            &&& lines[0] == "maggie v"@ + version + "  zoom "@ + readout
            &&& noted == 1 ==> (s.notice matches Some((message, _)) && lines[1] == message@)
            &&& (shown_position(s, rounded) matches Some((x, y)) ==> lines[1 + noted] == "pos "@
                + text::signed_digits(x) + "x"@ + text::signed_digits(y))
            &&& lines[k] == "0-9  zoom level"@
            &&& lines[k + 1] == b.toggle_osd@ + "  toggle OSD"@
            &&& lines[k + 2] == b.screenshot_fullscreen@ + "  screenshot fullscreen"@
            &&& lines[k + 3] == b.screenshot_manual@ + "  manual selection"@
            &&& lines[k + 4] == b.screenshot_window@ + "  window selection"@
            &&& lines[k + 5] == b.config_window@ + "  config window"@
            &&& lines[k + 6] == b.toggle_cursor@ + "  toggle cursor"@
            &&& lines[k + 7] == b.minimap@ + "  toggle minimap"@
            &&& lines[k + 8] == "hold "@ + b.hold_to_zoom@ + " + move  smooth zoom"@
            &&& b.hold_to_zoom@ == "MMB"@ ==> lines[k + 9] == b.reset_zoom@ + "  reset zoom"@
            &&& b.hold_to_zoom@ != "MMB"@ ==> lines[k + 9] == "MMB / "@ + b.reset_zoom@
                + "  reset zoom"@
            &&& lines[k + 10] == "Q / Esc / RMB  quit"@
        }),
{
}

/// In screenshot mode the legend tells what can be done there, and at which
/// scale a save would be.
pub proof fn screenshot_legend_tells_what_to_do(
    s: Session,
    version: Seq<char>,
    readout: Seq<char>,
    rounded: Option<(i64, i64)>,
    now: u64,
)
    requires
        s.shot.active,
    ensures
        ({
            let lines = legend_lines(s, version, readout, rounded, now);
            let b = s.state.config.keybindings;
            let scale = match s.shot.scale {
                Some(scale) => scale,
                None => s.state.config.screenshot_scale,
            };
            &&& lines.len() == 8
            &&& lines[0] == "maggie v"@ + version + "  screenshot mode"@
            &&& lines[1] == "drag  select"@
            &&& lines[2] == b.screenshot_fullscreen@ + "  fullscreen"@
            &&& lines[3] == "Return  save"@
            &&& lines[4] == "Esc  cancel"@
            &&& lines[5] == "WASD  nudge border"@
            &&& scale == ScreenshotScale::Real ==> lines[6] == b.screenshot_scale_toggle@
                + "  scale: "@ + "real size"@
            &&& scale == ScreenshotScale::Magnified ==> lines[6] == b.screenshot_scale_toggle@
                + "  scale: "@ + "magnified"@
            &&& lines[7] == b.minimap@ + "  toggle minimap"@
        }),
{
}

/// The position is the middle of the view, and the far edge of the frame where
/// the view is held there.
pub proof fn legend_shows_where_the_view_is(s: Session, x: i64, y: i64)
    ensures
        ({
            let p = shown_position(s, Some((x, y)));
            &&& s.edge_hold.0 != Some(true) || s.frame is None ==> (p matches Some(q) && q.0 == x)
            &&& s.edge_hold.1 != Some(true) || s.frame is None ==> (p matches Some(q) && q.1 == y)
            &&& (s.frame matches Some((w, h)) ==> s.edge_hold.0 == Some(true) ==> (p matches Some(q)
                && q.0 == w))
            &&& (s.frame matches Some((w, h)) ==> s.edge_hold.1 == Some(true) ==> (p matches Some(q)
                && q.1 == h))
            &&& shown_position(s, None) is None
        }),
{
}

} // verus!
