//! Window configuration values.
//!
//! The window itself belongs to an external collaborator; the core only
//! decides what to ask of it.  Sizes here are whole pixels.

use vstd::prelude::*;

verus! {

/// The possible fullscreen modes.
#[derive(Debug, Clone, Copy, PartialEq, Eq, Structural)]
pub enum FullscreenType {
    /// An ordinary window.
    Windowed,
    /// Exclusive fullscreen on the current monitor.
    True,
    /// A borderless window covering the desktop.
    Desktop,
}

/// The requested window mode: size and related properties.
#[derive(Debug, Clone, Copy, PartialEq, Eq, Structural)]
pub struct WindowMode {
    /// Window width in pixels.
    pub width: u32,
    /// Window height in pixels.
    pub height: u32,
    /// Whether the window starts maximized.
    pub maximized: bool,
    /// The fullscreen mode.
    pub fullscreen_type: FullscreenType,
    /// Whether the window is drawn without decorations.
    pub borderless: bool,
    /// Minimum width constraint; 0 means unconstrained.
    pub min_width: u32,
    /// Minimum height constraint; 0 means unconstrained.
    pub min_height: u32,
    /// Maximum width constraint; 0 means unconstrained.
    pub max_width: u32,
    /// Maximum height constraint; 0 means unconstrained.
    pub max_height: u32,
    /// Whether the user may resize the window.
    pub resizable: bool,
    /// Whether to render at the monitor's full pixel density.
    pub hidpi: bool,
}

impl WindowMode {
    /// A windowed 800x600 default.
    pub fn default_mode() -> (m: WindowMode)
        ensures
            m == WindowMode::default_mode_spec(),
    {
        WindowMode {
            width: 800,
            height: 600,
            maximized: false,
            fullscreen_type: FullscreenType::Windowed,
            borderless: false,
            min_width: 0,
            min_height: 0,
            max_width: 0,
            max_height: 0,
            resizable: false,
            hidpi: false,
        }
    }

    /// The value `default_mode` returns.
    pub open spec fn default_mode_spec() -> WindowMode {
        WindowMode {
            width: 800,
            height: 600,
            maximized: false,
            fullscreen_type: FullscreenType::Windowed,
            borderless: false,
            min_width: 0,
            min_height: 0,
            max_width: 0,
            max_height: 0,
            resizable: false,
            hidpi: false,
        }
    }
}

/// One-time presentation preferences fixed at bootstrap.
#[derive(Debug, Clone, Copy, PartialEq, Eq, Structural)]
pub struct WindowSetup {
    /// Whether presentation should wait for vertical sync.
    pub vsync: bool,
    /// Whether the output surface uses an sRGB format.
    pub srgb: bool,
}

/// A request the core hands to the external windowing collaborator.
///
/// The core never touches the window itself; it records what should be
/// done, in order, and the driver performs it.
#[derive(Debug, Clone, PartialEq, Eq)]
pub enum WindowCommand {
    /// Maximize or restore the window.
    SetMaximized(bool),
    /// Constrain the minimum inner size, or lift the constraint.
    SetMinSize(Option<(u32, u32)>),
    /// Constrain the maximum inner size, or lift the constraint.
    SetMaxSize(Option<(u32, u32)>),
    /// Enter or leave exclusive fullscreen on the current monitor.
    SetFullscreen(bool),
    /// Show or hide the window decorations.
    SetDecorations(bool),
    /// Resize the window's inner area, in pixels.
    SetInnerSize(u32, u32),
    /// Cover the current monitor: move to its origin and take its size.
    MatchMonitor,
    /// Change the window title.
    SetTitle(String),
    /// Load the image file at the given path and use it as the window
    /// icon, or clear the icon.
    SetIcon(Option<String>),
}

} // verus!
