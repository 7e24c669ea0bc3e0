//! The Configuration window: what it does to the settings, when they are saved,
//! and how its keys are named.

use crate::config;
use crate::config::{MagnifierConfig, ScrollZoomMode};
use crate::keys;
use crate::number;
use crate::number::Number;
use crate::text;
use vstd::prelude::*;

verus! {

/// What is to happen after a frame of the window.
#[derive(Clone, Copy, Debug, PartialEq, Eq, Structural)]
pub enum UiResult {
    /// The window stays open.
    Continue,
    /// The user closed the window.
    Close,
}

/// The name of a scroll mode.
pub fn scroll_zoom_name(mode: ScrollZoomMode) -> (r: &'static str)
    ensures
        r@ == (match mode {
            ScrollZoomMode::Levels => "levels"@,
            ScrollZoomMode::Factor => "factor"@,
        }),
{
    match mode {
        ScrollZoomMode::Levels => "levels",
        ScrollZoomMode::Factor => "factor",
    }
}

/// Whether a character is a control character.
pub open spec fn control(c: char) -> bool {
    c as u32 <= 0x1F || 0x7F <= c as u32 <= 0x9F
}

/// Whether typed text is taken: some of it is no control character.
pub fn takes_text(typed: &str) -> (r: bool)
    ensures
        r == exists|i: int| 0 <= i < typed@.len() && !control(#[trigger] typed@[i]),
{
    let chars: Vec<char> = text::chars_of(typed);
    let mut i: usize = 0;
    while i < chars.len()
        invariant
            i <= chars@.len(),
            chars@ == typed@,
            forall|k: int| 0 <= k < i ==> control(#[trigger] typed@[k]),
        decreases chars.len() - i,
    {
        let code: u32 = chars[i] as u32;
        if code > 0x1F && !(0x7F <= code && code <= 0x9F) {
            assert(!control(typed@[i as int]));
            return true;
        }
        i += 1;
    }
    false
}

/// The bits of 3: the default zoom that the form begins with.
pub const FORM_ZOOM: u64 = 0x4008_0000_0000_0000;

/// The least default zoom.
pub open spec fn least_default(zoom: Number, allow_zero: bool) -> Number {
    if allow_zero || config::equal(zoom, number::num(number::ZERO)) {
        number::num(number::ZERO)
    } else {
        number::num(number::ONE)
    }
}

/// The default zoom that the form shows: [`FORM_ZOOM`] where none is set.
pub open spec fn shown_zoom(c: MagnifierConfig) -> Number {
    match c.default_zoom {
        Some(zoom) => zoom,
        None => number::num(FORM_ZOOM),
    }
}

/// The settings after the form was filled in: a default zoom of exactly zero
/// switches zero zoom on, and the default zoom is brought between its limits.
/// There is a default zoom from here on.
pub open spec fn settled(c: MagnifierConfig) -> MagnifierConfig {
    let allow = c.allow_zero_zoom || config::is_zero(c.default_zoom);
    MagnifierConfig {
        allow_zero_zoom: allow,
        default_zoom: Some(
            shown_zoom(c).clamped(least_default(shown_zoom(c), allow), c.max_zoom),
        ),
        ..c
    }
}

/// Whether zero zoom cannot be switched off: the default zoom is zero. It is
/// switched on then.
pub fn force_zero_zoom(c: &mut MagnifierConfig) -> (r: bool)
    ensures
        r == config::is_zero(old(c).default_zoom),
        *final(c) == (MagnifierConfig {
            allow_zero_zoom: old(c).allow_zero_zoom || config::is_zero(old(c).default_zoom),
            ..*old(c)
        }),
{
    let zero: bool = match c.default_zoom {
        Some(zoom) => zoom.same(Number { bits: number::ZERO }),
        None => false,
    };
    if zero {
        c.allow_zero_zoom = true;
    }
    zero
}

/// Settles what the form left behind.
pub fn settle_form(c: &mut MagnifierConfig)
    requires
        number::num(number::ONE).at_most(old(c).max_zoom),
    ensures
        *final(c) == settled(*old(c)),
        final(c).default_zoom is Some,
{
    let _zero: bool = force_zero_zoom(c);
    let zoom: Number = match c.default_zoom {
        Some(zoom) => zoom,
        None => Number { bits: FORM_ZOOM },
    };
    let low: Number = if c.allow_zero_zoom || zoom.same(Number { bits: number::ZERO }) {
        Number { bits: number::ZERO }
    } else {
        Number { bits: number::ONE }
    };
    c.default_zoom = Some(zoom.clamp(low, c.max_zoom));
}

/// Settling twice is the same as once.
pub proof fn settling_is_idempotent(c: MagnifierConfig)
    requires
        number::num(number::ONE).at_most(c.max_zoom),
    ensures
        settled(settled(c)) == settled(c),
{
}

/// Once settled, the default zoom can be reached: it lies between the least and
/// the largest zoom.
pub proof fn settled_zoom_is_reachable(c: MagnifierConfig)
    requires
        number::num(number::ONE).at_most(c.max_zoom),
        !shown_zoom(c).nan(),
    ensures
        settled(c).default_zoom is Some,
        (settled(c).default_zoom->0).at_most(c.max_zoom),
        number::num(number::ZERO).at_most(settled(c).default_zoom->0),
        !settled(c).allow_zero_zoom ==> number::num(number::ONE).at_most(
            settled(c).default_zoom->0,
        ),
{
}

/// What became of the buttons in one frame: of Save, of Reload and of the folder
/// picker. A failure comes with its description.
#[derive(Debug)]
pub struct FrameOutcome {
    pub saved: Option<Result<(), String>>,
    pub reloaded: Option<Result<(), String>>,
    pub picked: Option<String>,
}

/// A message and whether it is an error.
pub type Status = (Seq<char>, bool);

/// The message about the buttons; the later button has the word.
pub open spec fn button_status(o: FrameOutcome) -> Option<Status> {
    match o.reloaded {
        Some(Ok(())) => Some(("Configuration reloaded from disk"@, false)),
        Some(Err(e)) => Some(("Reload failed: "@ + e@, true)),
        None => match o.saved {
            Some(Ok(())) => Some(("Configuration saved to ~/.config/maggie/config.ron"@, false)),
            Some(Err(e)) => Some(("Save failed: "@ + e@, true)),
            None => None,
        },
    }
}

/// Whether the settings on disk are the live ones again after the frame.
pub open spec fn in_step(o: FrameOutcome) -> bool {
    (o.saved is Some && o.saved->0 is Ok) || (o.reloaded is Some && o.reloaded->0 is Ok)
}

/// The settings as they are on disk, and the message under the buttons.
pub struct Persistence {
    pub saved: MagnifierConfig,
    pub status: Option<(String, bool)>,
}

impl Persistence {
    /// The message as text.
    pub open spec fn says(self) -> Option<Status> {
        match self.status {
            Some((message, error)) => Some((message@, error)),
            None => None,
        }
    }

    pub fn new(initial: MagnifierConfig) -> (r: Persistence)
        ensures
            r.saved == initial,
            r.status is None,
    {
        Persistence { saved: initial, status: None }
    }

    /// The message for the next frame. It is shown once.
    pub fn take_status(&mut self) -> (r: Option<(String, bool)>)
        ensures
            r == old(self).status,
            *final(self) == (Persistence { status: None, ..*old(self) }),
    {
        self.status.take()
    }

    /// Ends a frame: takes note of what became of the buttons and puts a picked
    /// folder into the settings. The result says whether the settings differ
    /// from those on disk and have to be saved.
    pub fn finish_frame(&mut self, c: &mut MagnifierConfig, outcome: FrameOutcome) -> (r: bool)
        ensures
            *final(c) == (MagnifierConfig {
                screenshot_path: match outcome.picked {
                    Some(path) => path,
                    None => old(c).screenshot_path,
                },
                ..*old(c)
            }),
            final(self).saved == if in_step(outcome) {
                *final(c)
            } else {
                old(self).saved
            },
            button_status(outcome) is Some ==> final(self).says() == button_status(outcome),
            button_status(outcome) is None ==> final(self).status == old(self).status,
            r == !final(c).agrees(final(self).saved),
    {
        let saved_now: bool = match &outcome.saved {
            Some(Ok(())) => true,
            _ => false,
        };
        let reloaded_now: bool = match &outcome.reloaded {
            Some(Ok(())) => true,
            _ => false,
        };
        match &outcome.reloaded {
            Some(Ok(())) => {
                self.status = Some(("Configuration reloaded from disk".to_owned(), false));
            },
            Some(Err(e)) => {
                self.status = Some((text::joined("Reload failed: ", e.as_str()), true));
            },
            None => match &outcome.saved {
                Some(Ok(())) => {
                    self.status = Some(
                        ("Configuration saved to ~/.config/maggie/config.ron".to_owned(), false),
                    );
                },
                Some(Err(e)) => {
                    self.status = Some((text::joined("Save failed: ", e.as_str()), true));
                },
                None => {},
            },
        }
        if let Some(path) = outcome.picked {
            c.screenshot_path = path;
        }
        if saved_now || reloaded_now {
            self.saved = c.clone();
        }
        !c.same_settings(&self.saved)
    }

    /// Takes note of what became of saving on its own account.
    pub fn auto_saved(&mut self, c: &MagnifierConfig, result: Result<(), String>)
        ensures
            match result {
                Ok(()) => {
                    &&& final(self).saved == *c
                    &&& final(self).says() == Some(
                        ("Changes auto-saved to ~/.config/maggie/config.ron"@, false),
                    )
                },
                Err(e) => {
                    &&& final(self).saved == old(self).saved
                    &&& final(self).says() == Some(("Auto-save failed: "@ + e@, true))
                },
            },
    {
        match result {
            Ok(()) => {
                self.saved = c.clone();
                self.status = Some(
                    ("Changes auto-saved to ~/.config/maggie/config.ron".to_owned(), false),
                );
            },
            Err(e) => {
                self.status = Some((text::joined("Auto-save failed: ", e.as_str()), true));
            },
        }
    }
}

/// The name that the `xkeysym` crate has for a key symbol.
pub uninterp spec fn xkb_name(keysym: u32) -> Option<Seq<char>>;

/// Calls `xkeysym::Keysym::name`. What is claimed: the result depends on the
/// symbol alone.
#[verifier::external_body]
fn keysym_name(keysym: u32) -> (r: Option<String>)
    ensures
        match r {
            Some(s) => xkb_name(keysym) == Some(s@),
            None => xkb_name(keysym) is None,
        },
{
    xkeysym::Keysym::new(keysym).name().map(String::from)
}

/// The name of the key of the toolkit that a text stands for.
pub uninterp spec fn toolkit_key(text: Seq<char>) -> Option<Seq<char>>;

/// Calls `egui::Key::from_name`, and `egui::Key::name` on the key that it finds.
/// What is claimed: the result depends on the text alone.
#[verifier::external_body]
fn toolkit_key_of(text: &str) -> (r: Option<String>)
    ensures
        match r {
            Some(s) => toolkit_key(text@) == Some(s@),
            None => toolkit_key(text@) is None,
        },
{
    egui::Key::from_name(text).map(|key| key.name().to_owned())
}

/// The toolkit's name of a key whose own name the toolkit does not know.
pub open spec fn special_key(keysym: u32) -> Option<Seq<char>> {
    if keysym == keys::KEY_ESCAPE {
        Some("Escape"@)
    } else if keysym == keys::KEY_RETURN {
        Some("Enter"@)
    } else if keysym == keys::KEY_TAB {
        Some("Tab"@)
    } else if keysym == keys::KEY_BACKSPACE {
        Some("Backspace"@)
    } else if keysym == keys::KEY_DELETE {
        Some("Delete"@)
    } else if keysym == keys::KEY_HOME {
        Some("Home"@)
    } else if keysym == keys::KEY_END {
        Some("End"@)
    } else if keysym == keys::KEY_PAGE_UP {
        Some("PageUp"@)
    } else if keysym == keys::KEY_PAGE_DOWN {
        Some("PageDown"@)
    } else if keysym == keys::KEY_INSERT {
        Some("Insert"@)
    } else if keysym == keys::KEY_LEFT {
        Some("Left"@)
    } else if keysym == keys::KEY_RIGHT {
        Some("Right"@)
    } else if keysym == keys::KEY_UP {
        Some("Up"@)
    } else if keysym == keys::KEY_DOWN {
        Some("Down"@)
    } else if keysym == keys::KEY_SPACE {
        Some("Space"@)
    } else if keysym == keys::KEY_MINUS {
        Some("Minus"@)
    } else if keysym == keys::KEY_PLUS {
        Some("Plus"@)
    } else {
        None
    }
}

fn special(keysym: u32) -> (r: Option<String>)
    ensures
        match r {
            Some(s) => special_key(keysym) == Some(s@),
            None => special_key(keysym) is None,
        },
{
    match keysym {
        keys::KEY_ESCAPE => Some("Escape".to_owned()),
        keys::KEY_RETURN => Some("Enter".to_owned()),
        keys::KEY_TAB => Some("Tab".to_owned()),
        keys::KEY_BACKSPACE => Some("Backspace".to_owned()),
        keys::KEY_DELETE => Some("Delete".to_owned()),
        keys::KEY_HOME => Some("Home".to_owned()),
        keys::KEY_END => Some("End".to_owned()),
        keys::KEY_PAGE_UP => Some("PageUp".to_owned()),
        keys::KEY_PAGE_DOWN => Some("PageDown".to_owned()),
        keys::KEY_INSERT => Some("Insert".to_owned()),
        keys::KEY_LEFT => Some("Left".to_owned()),
        keys::KEY_RIGHT => Some("Right".to_owned()),
        keys::KEY_UP => Some("Up".to_owned()),
        keys::KEY_DOWN => Some("Down".to_owned()),
        keys::KEY_SPACE => Some("Space".to_owned()),
        keys::KEY_MINUS => Some("Minus".to_owned()),
        keys::KEY_PLUS => Some("Plus".to_owned()),
        _ => None,
    }
}

/// The prefix of the names of key symbols.
pub open spec fn symbol_prefix() -> Seq<char> {
    seq!['X', 'K', '_']
}

/// A key symbol's name without its prefix; nothing where there is no prefix.
pub open spec fn bare_name(name: Option<Seq<char>>) -> Seq<char> {
    match name {
        Some(n) => if n.len() >= 3 && n.take(3) == symbol_prefix() {
            n.skip(3)
        } else {
            Seq::empty()
        },
        None => Seq::empty(),
    }
}

/// Takes the prefix off a key symbol's name.
pub fn strip_symbol_prefix(name: Option<String>) -> (r: String)
    ensures
        r@ == bare_name(opt_text(name)),
{
    match name {
        Some(n) => {
            let chars: Vec<char> = text::chars_of(n.as_str());
            if chars.len() >= 3 && chars[0] == 'X' && chars[1] == 'K' && chars[2] == '_' {
                assert(n@.take(3) =~= symbol_prefix());
                text::string_from(&chars, 3)
            } else {
                assert(n@.len() >= 3 && n@.take(3) == symbol_prefix() ==> n@[0] == n@.take(3)[0]
                    && n@[1] == n@.take(3)[1] && n@[2] == n@.take(3)[2]);
                assert(Seq::<char>::empty() =~= ""@) by {
                    reveal_strlit("");
                }
                String::new()
            }
        },
        None => String::new(),
    }
}

/// The toolkit's key for a key symbol, given what the toolkit makes of the
/// symbol's character and of its name: the fixed ones first, then the character,
/// then the name.
pub open spec fn chosen_key(
    keysym: u32,
    by_char: Option<Seq<char>>,
    by_name: Option<Seq<char>>,
) -> Option<Seq<char>> {
    if special_key(keysym) is Some {
        special_key(keysym)
    } else if 0x21 <= keysym <= 0x7E && by_char is Some {
        by_char
    } else {
        by_name
    }
}

/// The characters of a string that may be missing.
pub open spec fn opt_text(s: Option<String>) -> Option<Seq<char>> {
    match s {
        Some(s) => Some(s@),
        None => None,
    }
}

/// Chooses the toolkit's key for a key symbol.
pub fn choose_key(keysym: u32, by_char: Option<String>, by_name: Option<String>) -> (r: Option<
    String,
>)
    ensures
        opt_text(r) == chosen_key(keysym, opt_text(by_char), opt_text(by_name)),
{
    if let Some(name) = special(keysym) {
        return Some(name);
    }
    if 0x21 <= keysym && keysym <= 0x7E && by_char.is_some() {
        return by_char;
    }
    by_name
}

/// The name of the toolkit's key for a key symbol.
pub fn keysym_to_egui_key(keysym: u32) -> (r: Option<String>)
    ensures
        opt_text(r) == chosen_key(
            keysym,
            toolkit_key(seq![keysym as char]),
            toolkit_key(bare_name(xkb_name(keysym))),
        ),
{
    let by_char: Option<String> = if 0x21 <= keysym && keysym <= 0x7E {
        toolkit_key_of(keys::char_text(keysym).as_str())
    } else {
        None
    };
    let name: String = strip_symbol_prefix(keysym_name(keysym));
    let by_name: Option<String> = toolkit_key_of(name.as_str());
    choose_key(keysym, by_char, by_name)
}

/// The keys that the toolkit names in its own way.
pub proof fn special_keys_have_toolkit_names(
    keysym: u32,
    by_char: Option<Seq<char>>,
    by_name: Option<Seq<char>>,
)
    ensures
        keysym == 0xff1b ==> chosen_key(keysym, by_char, by_name) == Some("Escape"@),
        keysym == 0xff0d ==> chosen_key(keysym, by_char, by_name) == Some("Enter"@),
        keysym == 0xff09 ==> chosen_key(keysym, by_char, by_name) == Some("Tab"@),
        keysym == 0xff08 ==> chosen_key(keysym, by_char, by_name) == Some("Backspace"@),
        keysym == 0xffff ==> chosen_key(keysym, by_char, by_name) == Some("Delete"@),
        keysym == 0xff50 ==> chosen_key(keysym, by_char, by_name) == Some("Home"@),
        keysym == 0xff57 ==> chosen_key(keysym, by_char, by_name) == Some("End"@),
        keysym == 0xff55 ==> chosen_key(keysym, by_char, by_name) == Some("PageUp"@),
        keysym == 0xff56 ==> chosen_key(keysym, by_char, by_name) == Some("PageDown"@),
        keysym == 0xff63 ==> chosen_key(keysym, by_char, by_name) == Some("Insert"@),
        keysym == 0xff51 ==> chosen_key(keysym, by_char, by_name) == Some("Left"@),
        keysym == 0xff53 ==> chosen_key(keysym, by_char, by_name) == Some("Right"@),
        keysym == 0xff52 ==> chosen_key(keysym, by_char, by_name) == Some("Up"@),
        keysym == 0xff54 ==> chosen_key(keysym, by_char, by_name) == Some("Down"@),
        keysym == 0x20 ==> chosen_key(keysym, by_char, by_name) == Some("Space"@),
        keysym == 0x2d ==> chosen_key(keysym, by_char, by_name) == Some("Minus"@),
        keysym == 0x2b ==> chosen_key(keysym, by_char, by_name) == Some("Plus"@),
{
}

/// Any other key goes by its character where it has one that the toolkit knows,
/// and else by its name.
pub proof fn other_keys_go_by_character_or_name(
    keysym: u32,
    by_char: Option<Seq<char>>,
    by_name: Option<Seq<char>>,
)
    requires
        special_key(keysym) is None,
    ensures
        0x21 <= keysym <= 0x7e && by_char is Some ==> chosen_key(keysym, by_char, by_name)
            == by_char,
        0x21 <= keysym <= 0x7e && by_char is None ==> chosen_key(keysym, by_char, by_name)
            == by_name,
        keysym < 0x21 || 0x7e < keysym ==> chosen_key(keysym, by_char, by_name) == by_name,
        keysym != 0x20 && keysym != 0x2b && keysym != 0x2d && keysym < 0xff00 ==> special_key(
            keysym,
        ) is None,
{
}

/// A symbol's name loses its prefix and nothing else.
pub proof fn symbol_names_lose_their_prefix(name: Seq<char>)
    ensures
        bare_name(Some(seq!['X', 'K', '_'] + name)) == name,
        name.len() < 3 || name[0] != 'X' || name[1] != 'K' || name[2] != '_' ==> bare_name(
            Some(name),
        ).len() == 0,
        bare_name(None).len() == 0,
{
    let whole = seq!['X', 'K', '_'] + name;
    assert(whole.take(3) =~= symbol_prefix());
    assert(whole.skip(3) =~= name);
    if name.len() >= 3 && name.take(3) == symbol_prefix() {
        assert(name.take(3)[0] == 'X' && name.take(3)[1] == 'K' && name.take(3)[2] == '_');
    }
}

/// The form begins with a default zoom of 3 where none is set, and leaves one
/// that can be reached; a default of zero switches zero zoom on.
pub proof fn form_settles_the_default_zoom(c: MagnifierConfig)
    requires
        number::num(0x3FF0_0000_0000_0000).at_most(c.max_zoom),
    ensures
        c.default_zoom is None ==> shown_zoom(c) == number::num(0x4008_0000_0000_0000),
        c.default_zoom matches Some(z) ==> shown_zoom(c) == z,
        c.default_zoom matches Some(z) ==> number::num(0x3FF0_0000_0000_0000).at_most(z)
            && z.at_most(c.max_zoom) ==> settled(c).default_zoom == Some(z),
        c.default_zoom matches Some(z) ==> c.max_zoom.below(z) ==> settled(c).default_zoom == Some(
            c.max_zoom,
        ),
        c.default_zoom == Some(number::num(0)) ==> settled(c).default_zoom == Some(number::num(0))
            && settled(c).allow_zero_zoom,
        !c.allow_zero_zoom ==> (c.default_zoom matches Some(z) ==> number::num(0).below(z)
            && z.below(number::num(0x3FF0_0000_0000_0000)) ==> settled(c).default_zoom == Some(
            number::num(0x3FF0_0000_0000_0000),
        )),
        !c.allow_zero_zoom && c.default_zoom is None ==> !settled(c).allow_zero_zoom,
        c.allow_zero_zoom ==> settled(c).allow_zero_zoom,
        settled(c) == (MagnifierConfig {
            default_zoom: settled(c).default_zoom,
            allow_zero_zoom: settled(c).allow_zero_zoom,
            ..c
        }),
{
}

/// The buttons tell what became of them; the later one has the word. Only a save
/// or a reload that worked brings the settings and the disk in step.
pub proof fn buttons_tell_what_became_of_them(o: FrameOutcome)
    ensures
        o.reloaded matches Some(Ok(())) ==> button_status(o) == Some(
            ("Configuration reloaded from disk"@, false),
        ),
        o.reloaded matches Some(Err(e)) ==> button_status(o) == Some(("Reload failed: "@ + e@, true)),
        o.reloaded is None ==> (o.saved matches Some(Ok(())) ==> button_status(o) == Some(
            ("Configuration saved to ~/.config/maggie/config.ron"@, false),
        )),
        o.reloaded is None ==> (o.saved matches Some(Err(e)) ==> button_status(o) == Some(
            ("Save failed: "@ + e@, true),
        )),
        o.reloaded is None && o.saved is None ==> button_status(o) is None,
        o.saved matches Some(Ok(())) ==> in_step(o),
        o.reloaded matches Some(Ok(())) ==> in_step(o),
        !(o.saved matches Some(Ok(_))) && !(o.reloaded matches Some(Ok(_))) ==> !in_step(o),
{
}

/// Control characters are those below the space, the delete character and those
/// after it up to the no-break space.
pub proof fn control_characters(c: char)
    ensures
        c as u32 == 10 || c as u32 == 27 || c as u32 == 127 || c as u32 == 0x9f ==> control(c),
        32 <= c as u32 <= 126 || 160 <= c as u32 ==> !control(c),
        c as u32 <= 31 || 127 <= c as u32 <= 159 ==> control(c),
{
}

/// The message under the buttons is the one that was set, as an error or not.
pub proof fn message_is_said_as_set(p: Persistence, message: String, error: bool)
    ensures
        p.status == Some((message, error)) ==> p.says() == Some((message@, error)),
        p.status is None ==> p.says() is None,
        opt_text(Some(message)) == Some(message@),
        opt_text(None) is None,
{
}

} // verus!
