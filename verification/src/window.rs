//! Display configuration handed to the window system.  Window and GL
//! context creation themselves are the window system's side of the
//! boundary; what stands here is the configuration value that drives them.

use vstd::prelude::*;

verus! {

/// How the window is presented.
#[derive(Debug, Clone, Copy, PartialEq, Eq, Structural)]
pub enum DisplayWindowMode {
    Window,
    /// Borderless fullscreen.
    FullScreen,
}

/// The parameters a display is created from.
#[derive(Debug, Clone)]
pub struct DisplayParameters {
    pub title: &'static str,
    pub width: u32,
    pub height: u32,
    pub mode: DisplayWindowMode,
}

impl DisplayParameters {
    /// A windowed display of the given size.
    pub fn windowed(title: &'static str, width: u32, height: u32) -> (r: Self)
        ensures
            r.title == title,
            r.width == width,
            r.height == height,
            r.mode == DisplayWindowMode::Window,
    {
        DisplayParameters { title, width, height, mode: DisplayWindowMode::Window }
    }

    /// A borderless fullscreen display; the stored size is a placeholder
    /// the window system ignores.
    pub fn fullscreen(title: &'static str) -> (r: Self)
        ensures
            r.title == title,
            r.width == 1,
            r.height == 1,
            r.mode == DisplayWindowMode::FullScreen,
    {
        DisplayParameters { title, width: 1, height: 1, mode: DisplayWindowMode::FullScreen }
    }

    pub fn new(title: &'static str, width: u32, height: u32, mode: DisplayWindowMode) -> (r: Self)
        ensures
            r.title == title,
            r.width == width,
            r.height == height,
            r.mode == mode,
    {
        DisplayParameters { title, width, height, mode }
    }
}

/// Where the window system stands in bringing the display up.
#[derive(Debug, Clone, Copy, PartialEq, Eq, Structural)]
pub enum GlDisplayState {
    /// The window is requested but the GL context is not yet created.
    Pending,
    /// The window and the GL context are fully initialised.
    Created,
}

} // verus!
