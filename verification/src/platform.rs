//! What a platform provides: screen capture and cursor themes.

use crate::number::Number;
use crate::render::RgbaBuffer;
use vstd::prelude::*;

verus! {

/// A captured screen frame, top left pixel first.
#[derive(Debug)]
pub struct CapturedFrame {
    pub buffer: RgbaBuffer,
}

/// A display.
#[derive(Debug)]
pub struct OutputInfo {
    pub name: String,
    pub width: u32,
    pub height: u32,
    pub scale_factor: Number,
}

/// Why a platform cannot capture.
#[derive(Clone, Copy, Debug, PartialEq, Eq, Structural)]
pub enum CaptureFault {
    /// Single windows cannot be captured.
    NoWindows,
    /// Frames come as events, not on request.
    Asynchronous,
}

impl CaptureFault {
    pub open spec fn spoken(self) -> Seq<char> {
        match self {
            CaptureFault::NoWindows => "Window capture not supported on this platform"@,
            CaptureFault::Asynchronous =>
                "Wayland capture is asynchronous — use the event-driven path in engine.rs"@,
        }
    }

    pub fn message(self) -> (r: &'static str)
        ensures
            r@ == self.spoken(),
    {
        match self {
            CaptureFault::NoWindows => "Window capture not supported on this platform",
            CaptureFault::Asynchronous =>
                "Wayland capture is asynchronous — use the event-driven path in engine.rs",
        }
    }
}

/// Capturing the screen on request.
pub trait CaptureBackend {
    /// Captures the primary output.
    fn capture_primary(&mut self) -> Result<CapturedFrame, CaptureFault>;

    /// Captures one window. A backend that does not say otherwise cannot.
    fn capture_window(&mut self, _window_id: u64) -> (r: Result<CapturedFrame, CaptureFault>)
        default_ensures
            r is Err,
            r->Err_0 == CaptureFault::NoWindows,
    {
        Err(CaptureFault::NoWindows)
    }

    /// The displays. A backend that does not say otherwise knows none.
    fn available_outputs(&self) -> (r: Vec<OutputInfo>)
        default_ensures
            r@.len() == 0,
    {
        Vec::new()
    }
}

/// Screen capture on Wayland, whose frames come as events only.
#[derive(Clone, Copy, Debug, PartialEq, Eq)]
pub struct WaylandCaptureBackend {}

impl WaylandCaptureBackend {
    pub fn new() -> (r: WaylandCaptureBackend)
        ensures
            r == (WaylandCaptureBackend {  }),
    {
        WaylandCaptureBackend {  }
    }
}

impl CaptureBackend for WaylandCaptureBackend {
    fn capture_primary(&mut self) -> (r: Result<CapturedFrame, CaptureFault>)
        ensures
            r is Err,
            r->Err_0 == CaptureFault::Asynchronous,
    {
        Err(CaptureFault::Asynchronous)
    }

    fn available_outputs(&self) -> (r: Vec<OutputInfo>)
        ensures
            r@.len() == 0,
    {
        Vec::new()
    }
}

/// Cursor themes on Wayland.
#[derive(Clone, Copy, Debug, PartialEq, Eq)]
pub struct WaylandCursorBackend {}

impl WaylandCursorBackend {
    pub fn new() -> (r: WaylandCursorBackend)
        ensures
            r == (WaylandCursorBackend {  }),
    {
        WaylandCursorBackend {  }
    }

    /// The theme to load cursors from: the one that was asked for, or else
    /// `default`.
    pub fn theme(&self, wanted: Option<String>) -> (r: String)
        ensures
            r@ == (match wanted {
                Some(name) => name@,
                None => "default"@,
            }),
    {
        match wanted {
            Some(name) => name,
            None => "default".to_owned(),
        }
    }
}

/// Each fault has its own message.
pub proof fn faults_say_what_is_not_possible()
    ensures
        CaptureFault::NoWindows.spoken() == "Window capture not supported on this platform"@,
        CaptureFault::Asynchronous.spoken()
            == "Wayland capture is asynchronous — use the event-driven path in engine.rs"@,
{
}

} // verus!
