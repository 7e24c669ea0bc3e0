//! Keys: their names in bindings, and which action a key has.

use crate::config::Keybindings;
use crate::screenshot;
use crate::text;
use vstd::prelude::*;

verus! {

/// Key symbols, as the X keyboard protocol numbers them.
pub const KEY_SPACE: u32 = 0x0020;

pub const KEY_Q_UPPER: u32 = 0x0051;

pub const KEY_Q: u32 = 0x0071;

pub const KEY_BACKSPACE: u32 = 0xff08;

pub const KEY_TAB: u32 = 0xff09;

pub const KEY_RETURN: u32 = 0xff0d;

pub const KEY_ESCAPE: u32 = 0xff1b;

pub const KEY_HOME: u32 = 0xff50;

pub const KEY_LEFT: u32 = 0xff51;

pub const KEY_UP: u32 = 0xff52;

pub const KEY_RIGHT: u32 = 0xff53;

pub const KEY_DOWN: u32 = 0xff54;

pub const KEY_PAGE_UP: u32 = 0xff55;

pub const KEY_PAGE_DOWN: u32 = 0xff56;

pub const KEY_END: u32 = 0xff57;

pub const KEY_INSERT: u32 = 0xff63;

pub const KEY_KP_ENTER: u32 = 0xff8d;

pub const KEY_SHIFT_L: u32 = 0xffe1;

pub const KEY_SHIFT_R: u32 = 0xffe2;

pub const KEY_CONTROL_L: u32 = 0xffe3;

pub const KEY_CONTROL_R: u32 = 0xffe4;

pub const KEY_ALT_L: u32 = 0xffe9;

pub const KEY_ALT_R: u32 = 0xffea;

pub const KEY_SUPER_L: u32 = 0xffeb;

pub const KEY_SUPER_R: u32 = 0xffec;

pub const KEY_DELETE: u32 = 0xffff;

pub const KEY_PLUS: u32 = 0x002b;

pub const KEY_MINUS: u32 = 0x002d;

/// Whether a key symbol is the code of a printable ASCII character other than
/// the space.
pub open spec fn printable(keysym: u32) -> bool {
    0x21 <= keysym <= 0x7e
}

/// The name of a key in bindings: its character, or one of a few names, or else
/// its number. Both keys of a pair of modifiers have the same name.
pub open spec fn key_name(keysym: u32) -> Seq<char> {
    if keysym == KEY_ESCAPE {
        "Escape"@
    } else if keysym == KEY_TAB {
        "Tab"@
    } else if keysym == KEY_SPACE {
        "Space"@
    } else if keysym == KEY_SUPER_L || keysym == KEY_SUPER_R {
        "Super"@
    } else if keysym == KEY_CONTROL_L || keysym == KEY_CONTROL_R {
        "Control"@
    } else if keysym == KEY_ALT_L || keysym == KEY_ALT_R {
        "Alt"@
    } else if keysym == KEY_SHIFT_L || keysym == KEY_SHIFT_R {
        "Shift"@
    } else if printable(keysym) {
        seq![keysym as char]
    } else {
        text::digits(keysym as nat)
    }
}

/// The string of one printable character.
pub fn char_text(code: u32) -> (r: String)
    requires
        printable(code),
    ensures
        r@ == seq![code as char],
{
    let mut r: String = String::new();
    r.push(code as u8 as char);
    assert(r@ =~= seq![code as char]);
    r
}

/// The name of a key in bindings.
pub fn keysym_to_string(keysym: u32) -> (r: String)
    ensures
        r@ == key_name(keysym),
{
    if keysym == KEY_ESCAPE {
        "Escape".to_owned()
    } else if keysym == KEY_TAB {
        "Tab".to_owned()
    } else if keysym == KEY_SPACE {
        "Space".to_owned()
    } else if keysym == KEY_SUPER_L || keysym == KEY_SUPER_R {
        "Super".to_owned()
    } else if keysym == KEY_CONTROL_L || keysym == KEY_CONTROL_R {
        "Control".to_owned()
    } else if keysym == KEY_ALT_L || keysym == KEY_ALT_R {
        "Alt".to_owned()
    } else if keysym == KEY_SHIFT_L || keysym == KEY_SHIFT_R {
        "Shift".to_owned()
    } else if 0x21 <= keysym && keysym <= 0x7e {
        char_text(keysym)
    } else {
        text::decimal(keysym as u64)
    }
}

/// The level that a digit key selects.
pub open spec fn digit_level(keysym: u32) -> Option<u8> {
    if 0x30 <= keysym <= 0x39 {
        Some((keysym - 0x30) as u8)
    } else {
        None
    }
}

pub fn zoom_level_of(keysym: u32) -> (r: Option<u8>)
    ensures
        r == digit_level(keysym),
{
    if 0x30 <= keysym && keysym <= 0x39 {
        Some((keysym - 0x30) as u8)
    } else {
        None
    }
}

/// The nudge key that a key symbol is, upper or lower case.
pub open spec fn nudge_key(keysym: u32) -> Option<char> {
    if keysym == 0x77 || keysym == 0x57 {
        Some('w')
    } else if keysym == 0x61 || keysym == 0x41 {
        Some('a')
    } else if keysym == 0x73 || keysym == 0x53 {
        Some('s')
    } else if keysym == 0x64 || keysym == 0x44 {
        Some('d')
    } else {
        None
    }
}

pub fn nudge_key_of(keysym: u32) -> (r: Option<char>)
    ensures
        r == nudge_key(keysym),
{
    match keysym {
        0x77 | 0x57 => Some('w'),
        0x61 | 0x41 => Some('a'),
        0x73 | 0x53 => Some('s'),
        0x64 | 0x44 => Some('d'),
        _ => None,
    }
}

/// Every nudge key pushes in some direction.
pub proof fn nudge_keys_push(keysym: u32)
    ensures
        nudge_key(keysym) matches Some(key) ==> screenshot::push_of(key) is Some,
{
}

/// What a bound key does in the magnifier.
#[derive(Clone, Copy, Debug, PartialEq, Eq, Structural)]
pub enum BoundAction {
    ToggleOsd,
    ScreenshotManual,
    ScreenshotWindow,
    ScreenshotFullscreen,
    OpenConfig,
    AntiAliasing,
    ToggleCursor,
    ToggleMinimap,
    ResetZoom,
}

/// The action of a key. Where several actions have the same key, the first in
/// this order counts.
pub open spec fn bound_action(keys: Keybindings, name: Seq<char>) -> Option<BoundAction> {
    if name == keys.toggle_osd@ {
        Some(BoundAction::ToggleOsd)
    } else if name == keys.screenshot_manual@ {
        Some(BoundAction::ScreenshotManual)
    } else if name == keys.screenshot_window@ {
        Some(BoundAction::ScreenshotWindow)
    } else if name == keys.screenshot_fullscreen@ {
        Some(BoundAction::ScreenshotFullscreen)
    } else if name == keys.config_window@ {
        Some(BoundAction::OpenConfig)
    } else if name == keys.anti_aliasing@ {
        Some(BoundAction::AntiAliasing)
    } else if name == keys.toggle_cursor@ {
        Some(BoundAction::ToggleCursor)
    } else if name == keys.minimap@ {
        Some(BoundAction::ToggleMinimap)
    } else if name == keys.reset_zoom@ {
        Some(BoundAction::ResetZoom)
    } else {
        None
    }
}

pub fn action_for(keys: &Keybindings, name: &String) -> (r: Option<BoundAction>)
    ensures
        r == bound_action(*keys, name@),
{
    if *name == keys.toggle_osd {
        Some(BoundAction::ToggleOsd)
    } else if *name == keys.screenshot_manual {
        Some(BoundAction::ScreenshotManual)
    } else if *name == keys.screenshot_window {
        Some(BoundAction::ScreenshotWindow)
    } else if *name == keys.screenshot_fullscreen {
        Some(BoundAction::ScreenshotFullscreen)
    } else if *name == keys.config_window {
        Some(BoundAction::OpenConfig)
    } else if *name == keys.anti_aliasing {
        Some(BoundAction::AntiAliasing)
    } else if *name == keys.toggle_cursor {
        Some(BoundAction::ToggleCursor)
    } else if *name == keys.minimap {
        Some(BoundAction::ToggleMinimap)
    } else if *name == keys.reset_zoom {
        Some(BoundAction::ResetZoom)
    } else {
        None
    }
}

/// With the keys of a fresh installation every action has its own key.
pub proof fn default_keys_are_distinct(keys: Keybindings)
    requires
        keys.is_default(),
    ensures
        bound_action(keys, "k"@) == Some(BoundAction::ToggleOsd),
        bound_action(keys, "g"@) == Some(BoundAction::ScreenshotManual),
        bound_action(keys, "w"@) == Some(BoundAction::ScreenshotWindow),
        bound_action(keys, "f"@) == Some(BoundAction::ScreenshotFullscreen),
        bound_action(keys, "Tab"@) == Some(BoundAction::OpenConfig),
        bound_action(keys, "a"@) == Some(BoundAction::AntiAliasing),
        bound_action(keys, "c"@) == Some(BoundAction::ToggleCursor),
        bound_action(keys, "m"@) == Some(BoundAction::ToggleMinimap),
        bound_action(keys, "r"@) == Some(BoundAction::ResetZoom),
{
    reveal_strlit("k");
    reveal_strlit("g");
    reveal_strlit("w");
    reveal_strlit("f");
    reveal_strlit("Tab");
    reveal_strlit("a");
    reveal_strlit("c");
    reveal_strlit("m");
    reveal_strlit("r");
    assert("k"@[0] == 'k' && "g"@[0] == 'g' && "w"@[0] == 'w' && "f"@[0] == 'f');
    assert("a"@[0] == 'a' && "c"@[0] == 'c' && "m"@[0] == 'm' && "r"@[0] == 'r');
    assert("Tab"@[0] == 'T');
}

/// A key that is a printable character is named by that character, and a few
/// others have names of their own. Left and right modifiers share a name.
pub proof fn keys_are_named_by_what_they_type(keysym: u32)
    ensures
        0x21 <= keysym <= 0x7e ==> key_name(keysym).len() == 1 && key_name(keysym)[0] as u32
            == keysym,
        keysym == 0x20 ==> key_name(keysym) == "Space"@,
        keysym == 0xff09 ==> key_name(keysym) == "Tab"@,
        keysym == 0xff1b ==> key_name(keysym) == "Escape"@,
        keysym == 0xffe1 || keysym == 0xffe2 ==> key_name(keysym) == "Shift"@,
        keysym == 0xffe3 || keysym == 0xffe4 ==> key_name(keysym) == "Control"@,
        keysym == 0xffe9 || keysym == 0xffea ==> key_name(keysym) == "Alt"@,
        keysym == 0xffeb || keysym == 0xffec ==> key_name(keysym) == "Super"@,
{
}

/// A key without a name of its own goes by its number: the digits of the name
/// read as a decimal number give the key symbol back.
pub proof fn other_keys_are_named_by_number(keysym: u32)
    requires
        keysym != 0x20,
        !(0x21 <= keysym <= 0x7e),
        keysym != 0xff09,
        keysym != 0xff1b,
        !(0xffe1 <= keysym <= 0xffe4),
        !(0xffe9 <= keysym <= 0xffec),
    ensures
        text::reading(key_name(keysym)) == keysym,
{
    text::decimal_reads_back(keysym as nat);
}

/// The key has no other binding than the `k`-th of these, in the order in which
/// they stand here.
pub open spec fn no_other_binding(keys: Keybindings, name: Seq<char>, k: int) -> bool {
    &&& k == 0 || name != keys.toggle_osd@
    &&& k == 1 || name != keys.screenshot_manual@
    &&& k == 2 || name != keys.screenshot_window@
    &&& k == 3 || name != keys.screenshot_fullscreen@
    &&& k == 4 || name != keys.config_window@
    &&& k == 5 || name != keys.anti_aliasing@
    &&& k == 6 || name != keys.toggle_cursor@
    &&& k == 7 || name != keys.minimap@
    &&& k == 8 || name != keys.reset_zoom@
    &&& k == 9 || name != keys.hold_to_zoom@
    &&& k == 10 || name != keys.screenshot_scale_toggle@
}

/// A key that is bound to one action has that action, and a key that is bound to
/// none has none.
pub proof fn bound_keys_have_their_action(keys: Keybindings, name: Seq<char>)
    ensures
        no_other_binding(keys, name, 0) && name == keys.toggle_osd@ ==> bound_action(keys, name)
            == Some(BoundAction::ToggleOsd),
        no_other_binding(keys, name, 1) && name == keys.screenshot_manual@ ==> bound_action(
            keys,
            name,
        ) == Some(BoundAction::ScreenshotManual),
        no_other_binding(keys, name, 2) && name == keys.screenshot_window@ ==> bound_action(
            keys,
            name,
        ) == Some(BoundAction::ScreenshotWindow),
        no_other_binding(keys, name, 3) && name == keys.screenshot_fullscreen@ ==> bound_action(
            keys,
            name,
        ) == Some(BoundAction::ScreenshotFullscreen),
        no_other_binding(keys, name, 4) && name == keys.config_window@ ==> bound_action(
            keys,
            name,
        ) == Some(BoundAction::OpenConfig),
        no_other_binding(keys, name, 5) && name == keys.anti_aliasing@ ==> bound_action(
            keys,
            name,
        ) == Some(BoundAction::AntiAliasing),
        no_other_binding(keys, name, 6) && name == keys.toggle_cursor@ ==> bound_action(
            keys,
            name,
        ) == Some(BoundAction::ToggleCursor),
        no_other_binding(keys, name, 7) && name == keys.minimap@ ==> bound_action(keys, name)
            == Some(BoundAction::ToggleMinimap),
        no_other_binding(keys, name, 8) && name == keys.reset_zoom@ ==> bound_action(keys, name)
            == Some(BoundAction::ResetZoom),
        no_other_binding(keys, name, 9) ==> bound_action(keys, name) is None,
        no_other_binding(keys, name, 10) ==> bound_action(keys, name) is None,
{
}

/// Where two actions share a key, the legend comes before everything, taking
/// screenshots before the settings, the settings before the pointer and the
/// minimap, and going back to the default zoom comes last.
pub proof fn shared_keys_go_by_rank(keys: Keybindings, name: Seq<char>)
    ensures
        name == keys.toggle_osd@ ==> bound_action(keys, name) == Some(BoundAction::ToggleOsd),
        name != keys.toggle_osd@ && name == keys.screenshot_manual@ ==> bound_action(keys, name)
            == Some(BoundAction::ScreenshotManual),
        name != keys.toggle_osd@ && name != keys.screenshot_manual@ && name
            == keys.screenshot_window@ ==> bound_action(keys, name) == Some(
            BoundAction::ScreenshotWindow,
        ),
        bound_action(keys, name) == Some(BoundAction::ScreenshotFullscreen) ==> name
            == keys.screenshot_fullscreen@,
        bound_action(keys, name) == Some(BoundAction::OpenConfig) ==> name == keys.config_window@
            && name != keys.screenshot_fullscreen@,
        bound_action(keys, name) == Some(BoundAction::AntiAliasing) ==> name
            == keys.anti_aliasing@ && name != keys.config_window@,
        bound_action(keys, name) == Some(BoundAction::ToggleCursor) ==> name
            == keys.toggle_cursor@ && name != keys.anti_aliasing@,
        bound_action(keys, name) == Some(BoundAction::ToggleMinimap) ==> name == keys.minimap@
            && name != keys.toggle_cursor@,
        bound_action(keys, name) == Some(BoundAction::ResetZoom) ==> name == keys.reset_zoom@
            && name != keys.minimap@,
{
}

/// The digit keys, and no others, select a level: each the one that it shows.
pub proof fn digit_keys_select_their_level(keysym: u32, d: u8)
    ensures
        d <= 9 && keysym == 0x30 + d ==> digit_level(keysym) == Some(d),
        keysym < 0x30 || 0x39 < keysym ==> digit_level(keysym) is None,
{
}

/// The four nudge keys, and no others, nudge, with Shift and without.
pub proof fn nudge_keys_are_wasd(keysym: u32, key: char)
    ensures
        nudge_key(keysym) == Some(key) <==> (key == 'w' || key == 'a' || key == 's' || key == 'd')
            && (keysym == key as u32 || keysym + 32 == key as u32),
{
}

} // verus!
