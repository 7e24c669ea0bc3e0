//! The fixed keys of the magnifier, by their symbols.

use crate::state::MagnifierState;
use vstd::prelude::*;

verus! {

/// What a key asks for.
#[derive(Clone, Copy, Debug, PartialEq, Eq, Structural)]
pub enum Action {
    ToggleOsd,
    ToggleAntiAliasing,
    ModeCenterCursor,
    ModeEdgePan,
    ModeMiniature,
    ScreenshotManual,
    ScreenshotWindow,
    ScreenshotFullscreen,
    OpenConfig,
}

/// What the key with a symbol asks for: `k`, `s`, `w`, `f` and `c`.
pub open spec fn fixed_action(keysym: u32) -> Option<Action> {
    if keysym == 0x6B {
        Some(Action::ToggleOsd)
    } else if keysym == 0x73 {
        Some(Action::ScreenshotManual)
    } else if keysym == 0x77 {
        Some(Action::ScreenshotWindow)
    } else if keysym == 0x66 {
        Some(Action::ScreenshotFullscreen)
    } else if keysym == 0x63 {
        Some(Action::OpenConfig)
    } else {
        None
    }
}

/// Turns keys into actions.
#[derive(Clone, Copy, Debug, PartialEq, Eq)]
pub struct InputHandler {}

impl InputHandler {
    pub fn new() -> (r: InputHandler)
        ensures
            r == (InputHandler {  }),
    {
        InputHandler {  }
    }

    /// What a key asks for. The magnifier itself stays as it is.
    pub fn handle_key(_magnifier: &mut MagnifierState, keysym: u32) -> (r: Option<Action>)
        ensures
            r == fixed_action(keysym),
            *final(_magnifier) == *old(_magnifier),
    {
        match keysym {
            0x6B => Some(Action::ToggleOsd),
            0x73 => Some(Action::ScreenshotManual),
            0x77 => Some(Action::ScreenshotWindow),
            0x66 => Some(Action::ScreenshotFullscreen),
            0x63 => Some(Action::OpenConfig),
            _ => None,
        }
    }
}

/// No two keys ask for the same.
pub proof fn fixed_keys_are_distinct(a: u32, b: u32)
    requires
        fixed_action(a) is Some,
        fixed_action(a) == fixed_action(b),
    ensures
        a == b,
{
}

/// The fixed keys are the letters that their actions are known by.
pub proof fn fixed_keys_are_their_letters(keysym: u32)
    ensures
        keysym == 'k' as u32 ==> fixed_action(keysym) == Some(Action::ToggleOsd),
        keysym == 's' as u32 ==> fixed_action(keysym) == Some(Action::ScreenshotManual),
        keysym == 'w' as u32 ==> fixed_action(keysym) == Some(Action::ScreenshotWindow),
        keysym == 'f' as u32 ==> fixed_action(keysym) == Some(Action::ScreenshotFullscreen),
        keysym == 'c' as u32 ==> fixed_action(keysym) == Some(Action::OpenConfig),
        fixed_action(keysym) is Some ==> keysym == 'k' as u32 || keysym == 's' as u32 || keysym
            == 'w' as u32 || keysym == 'f' as u32 || keysym == 'c' as u32,
{
}

} // verus!
