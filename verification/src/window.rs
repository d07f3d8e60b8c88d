//! The part of the game window that this library drives: pointer capture,
//! presentation mode, window mode and title.
//!
//! The library decides these values. The engine integration copies them
//! onto the real window.

use vstd::prelude::*;

verus! {

/// How the pointer is held by the window.
#[derive(Clone, Copy, Debug, PartialEq, Eq, Structural)]
pub enum CursorGrabMode {
    /// The pointer may leave the window.
    Free,
    /// The pointer is kept inside the window area.
    Confined,
    /// The pointer is pinned in place and only relative motion is reported.
    Locked,
}

/// How finished frames are handed to the display.
#[derive(Clone, Copy, Debug, PartialEq, Eq, Structural)]
pub enum PresentMode {
    /// Wait for the vertical blank, with whatever method the platform offers.
    AutoVsync,
    /// Present at once where the platform can, accepting tearing.
    AutoNoVsync,
    /// Queue frames and show one per vertical blank.
    Fifo,
    /// As `Fifo`, but a late frame is shown at once.
    FifoRelaxed,
    /// Show each frame at once, without waiting.
    Immediate,
    /// Keep only the newest frame for the next vertical blank.
    Mailbox,
}

/// How the window occupies the screen.
#[derive(Clone, Copy, Debug, PartialEq, Eq, Structural)]
pub enum WindowMode {
    /// A window of its own size on the desktop.
    Windowed,
    /// A borderless window that covers the screen.
    BorderlessFullscreen,
    /// Exclusive fullscreen at the resolution closest to the window's size.
    SizedFullscreen,
    /// Exclusive fullscreen at the largest resolution of the monitor.
    Fullscreen,
}

/// The pointer as the window shows and holds it.
#[derive(Clone, Copy, Debug, PartialEq, Eq, Structural)]
pub struct Cursor {
    pub visible: bool,
    pub grab_mode: CursorGrabMode,
}

/// What this library writes of a window.
#[derive(Clone, Debug)]
pub struct Window {
    pub cursor: Cursor,
    pub present_mode: PresentMode,
    pub mode: WindowMode,
    pub title: String,
}

/// The pointer presentation that belongs to a capture state: hidden and
/// locked while captured, visible and free otherwise.
pub open spec fn cursor_for(locked: bool) -> Cursor {
    if locked {
        Cursor { visible: false, grab_mode: CursorGrabMode::Locked }
    } else {
        Cursor { visible: true, grab_mode: CursorGrabMode::Free }
    }
}

/// The presentation mode that belongs to a vsync choice.
pub open spec fn present_mode_for(vsync: bool) -> PresentMode {
    if vsync {
        PresentMode::AutoVsync
    } else {
        PresentMode::AutoNoVsync
    }
}

} // verus!
