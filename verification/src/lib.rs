//! The logic of a screen magnifier, verified.

pub mod pixels;
pub mod number;
pub mod text;
pub mod render;
pub mod osd;
pub mod screenshot;
pub mod blend;
pub mod minimap;
pub mod config;
pub mod timing;
pub mod zoom;
pub mod view;
pub mod capture;
pub mod cursor;
pub mod screencopy;
pub mod keys;
pub mod compose;
pub mod state;
pub mod screenshot_mode;
pub mod engine;
pub mod pointer;
pub mod frame;
pub mod legend;
pub mod surface;
pub mod passes;
pub mod pie;
pub mod draw_mode;
pub mod input;
pub mod platform;
pub mod xp;
pub mod config_window;
