//! Keys, pointer and modifiers.

use crate::number;
use crate::number::Number;
use crate::view::Point;
use vstd::prelude::*;

verus! {

/// What a key asks for.
#[derive(Clone, Copy, Debug, PartialEq, Eq, Structural)]
pub enum Action {
    ZoomIn,
    ZoomOut,
    ZoomReset,
    PanLeft,
    PanRight,
    PanUp,
    PanDown,
    ToggleOsd,
    ToggleCursor,
    ToggleMinimap,
    ConfigWindow,
    Quit,
    ScreenshotStart,
    ScreenshotConfirm,
    ScreenshotCancel,
    AnnotationToggle,
    CaptureToggle,
    Undo,
    Redo,
    Nothing,
}

/// A key by its place on the keyboard.
#[derive(Clone, Copy, Debug, PartialEq, Eq, Structural)]
pub enum Key {
    Equal,
    NumpadAdd,
    Minus,
    NumpadSubtract,
    Digit0,
    ArrowLeft,
    ArrowRight,
    ArrowUp,
    ArrowDown,
    F1,
    F2,
    F3,
    F4,
    F5,
    Escape,
    Enter,
    Backspace,
    KeyA,
    KeyC,
    KeyQ,
    KeyS,
    KeyY,
    KeyZ,
    /// Any other key.
    Other,
}

/// The pointer and its buttons.
#[derive(Clone, Copy, Debug, PartialEq, Eq)]
pub struct PointerState {
    pub position: Point,
    pub left_pressed: bool,
    pub right_pressed: bool,
    pub middle_pressed: bool,
}

impl Default for PointerState {
    fn default() -> (r: PointerState)
        ensures
            r == (PointerState {
                position: (number::num(number::ZERO), number::num(number::ZERO)),
                left_pressed: false,
                right_pressed: false,
                middle_pressed: false,
            }),
    {
        PointerState {
            position: (Number { bits: number::ZERO }, Number { bits: number::ZERO }),
            left_pressed: false,
            right_pressed: false,
            middle_pressed: false,
        }
    }
}

/// The modifier keys that are held.
#[derive(Clone, Copy, Debug, PartialEq, Eq, Structural)]
pub struct ModifiersState {
    pub shift: bool,
    pub ctrl: bool,
    pub alt: bool,
    pub logo: bool,
}

impl Default for ModifiersState {
    fn default() -> (r: ModifiersState)
        ensures
            r == (ModifiersState { shift: false, ctrl: false, alt: false, logo: false }),
    {
        ModifiersState { shift: false, ctrl: false, alt: false, logo: false }
    }
}

/// What a key asks for, with or without the control key.
pub open spec fn key_action(key: Key, ctrl: bool) -> Action {
    match key {
        Key::Equal | Key::NumpadAdd => if ctrl {
            Action::ZoomReset
        } else {
            Action::ZoomIn
        },
        Key::Minus | Key::NumpadSubtract => Action::ZoomOut,
        Key::Digit0 => Action::ZoomReset,
        Key::ArrowLeft => Action::PanLeft,
        Key::ArrowRight => Action::PanRight,
        Key::ArrowUp => Action::PanUp,
        Key::ArrowDown => Action::PanDown,
        Key::F1 | Key::F5 => Action::ToggleOsd,
        Key::F2 => Action::ToggleCursor,
        Key::F3 => Action::ToggleMinimap,
        Key::F4 => Action::ConfigWindow,
        Key::Escape | Key::KeyQ => Action::Quit,
        Key::Enter => Action::ScreenshotConfirm,
        Key::Backspace => Action::ScreenshotCancel,
        Key::KeyS => if ctrl {
            Action::Nothing
        } else {
            Action::ScreenshotStart
        },
        Key::KeyA => if ctrl {
            Action::Nothing
        } else {
            Action::AnnotationToggle
        },
        Key::KeyC => if ctrl {
            Action::Nothing
        } else {
            Action::CaptureToggle
        },
        Key::KeyZ => if ctrl {
            Action::Undo
        } else {
            Action::Nothing
        },
        Key::KeyY => if ctrl {
            Action::Redo
        } else {
            Action::Nothing
        },
        Key::Other => Action::Nothing,
    }
}

pub fn winit_key_to_action(key: Key, modifiers: &ModifiersState) -> (r: Action)
    ensures
        r == key_action(key, modifiers.ctrl),
{
    let ctrl: bool = modifiers.ctrl;
    match key {
        Key::Equal | Key::NumpadAdd => if ctrl {
            Action::ZoomReset
        } else {
            Action::ZoomIn
        },
        Key::Minus | Key::NumpadSubtract => Action::ZoomOut,
        Key::Digit0 => Action::ZoomReset,
        Key::ArrowLeft => Action::PanLeft,
        Key::ArrowRight => Action::PanRight,
        Key::ArrowUp => Action::PanUp,
        Key::ArrowDown => Action::PanDown,
        Key::F1 | Key::F5 => Action::ToggleOsd,
        Key::F2 => Action::ToggleCursor,
        Key::F3 => Action::ToggleMinimap,
        Key::F4 => Action::ConfigWindow,
        Key::Escape | Key::KeyQ => Action::Quit,
        Key::KeyS if !ctrl => Action::ScreenshotStart,
        Key::Enter => Action::ScreenshotConfirm,
        Key::Backspace => Action::ScreenshotCancel,
        Key::KeyA if !ctrl => Action::AnnotationToggle,
        Key::KeyC if !ctrl => Action::CaptureToggle,
        Key::KeyZ if ctrl => Action::Undo,
        Key::KeyY if ctrl => Action::Redo,
        _ => Action::Nothing,
    }
}

/// What each key asks for.
pub proof fn keys_ask_for_their_action(ctrl: bool)
    ensures
        key_action(Key::Equal, false) == Action::ZoomIn,
        key_action(Key::NumpadAdd, false) == Action::ZoomIn,
        key_action(Key::Equal, true) == Action::ZoomReset,
        key_action(Key::NumpadAdd, true) == Action::ZoomReset,
        key_action(Key::Minus, ctrl) == Action::ZoomOut,
        key_action(Key::NumpadSubtract, ctrl) == Action::ZoomOut,
        key_action(Key::Digit0, ctrl) == Action::ZoomReset,
        key_action(Key::ArrowLeft, ctrl) == Action::PanLeft,
        key_action(Key::ArrowRight, ctrl) == Action::PanRight,
        key_action(Key::ArrowUp, ctrl) == Action::PanUp,
        key_action(Key::ArrowDown, ctrl) == Action::PanDown,
        key_action(Key::F1, ctrl) == Action::ToggleOsd,
        key_action(Key::F5, ctrl) == Action::ToggleOsd,
        key_action(Key::F2, ctrl) == Action::ToggleCursor,
        key_action(Key::F3, ctrl) == Action::ToggleMinimap,
        key_action(Key::F4, ctrl) == Action::ConfigWindow,
        key_action(Key::Escape, ctrl) == Action::Quit,
        key_action(Key::KeyQ, ctrl) == Action::Quit,
        key_action(Key::Enter, ctrl) == Action::ScreenshotConfirm,
        key_action(Key::Backspace, ctrl) == Action::ScreenshotCancel,
        key_action(Key::KeyS, false) == Action::ScreenshotStart,
        key_action(Key::KeyA, false) == Action::AnnotationToggle,
        key_action(Key::KeyC, false) == Action::CaptureToggle,
        key_action(Key::KeyS, true) == Action::Nothing,
        key_action(Key::KeyA, true) == Action::Nothing,
        key_action(Key::KeyC, true) == Action::Nothing,
        key_action(Key::KeyZ, true) == Action::Undo,
        key_action(Key::KeyY, true) == Action::Redo,
        key_action(Key::KeyZ, false) == Action::Nothing,
        key_action(Key::KeyY, false) == Action::Nothing,
        key_action(Key::Other, ctrl) == Action::Nothing,
{
}

} // verus!
