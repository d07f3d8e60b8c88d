//! The two settings records, their defaults and the bounds of their sliders.

use crate::window::WindowMode;
use vstd::prelude::*;

verus! {

/// Mouse sensitivity of a fresh installation, in thousandths: 2.0.
pub const DEFAULT_MOUSE_SENSITIVITY: u32 = 2000;

/// Lower bound of the sensitivity slider, in thousandths: 0.1.
pub const MIN_MOUSE_SENSITIVITY: u32 = 100;

/// Upper bound of the sensitivity slider, in thousandths: 10.0.
pub const MAX_MOUSE_SENSITIVITY: u32 = 10000;

/// Vertical field of view of a fresh installation, in degrees.
pub const DEFAULT_FOV: i8 = 60;

/// Lower bound of the field-of-view slider, in degrees.
pub const MIN_FOV: i8 = 30;

/// Upper bound of the field-of-view slider, in degrees.
pub const MAX_FOV: i8 = 100;

/// How the player's input is scaled.
#[derive(Clone, Copy, Debug, PartialEq, Eq, Structural)]
pub struct ControlSettings {
    /// Factor applied to pointer motion when the camera turns, as a
    /// fixed-point number of thousandths (`2000` stands for 2.0).
    pub mouse_sensitivity: u32,
}

/// How the scene is shown.
#[derive(Clone, Copy, Debug, PartialEq, Eq, Structural)]
pub struct GraphicsSettings {
    pub mode: WindowMode,
    pub vsync: bool,
    /// Vertical field of view in degrees.
    pub fov: i8,
}

impl ControlSettings {
    /// A usable record has a positive sensitivity.
    pub open spec fn wf(self) -> bool {
        self.mouse_sensitivity > 0
    }

    /// The record of a fresh installation.
    pub open spec fn spec_default() -> ControlSettings {
        ControlSettings { mouse_sensitivity: DEFAULT_MOUSE_SENSITIVITY }
    }
}

impl GraphicsSettings {
    /// A usable record has its field of view within the slider's bounds.
    pub open spec fn wf(self) -> bool {
        MIN_FOV <= self.fov <= MAX_FOV
    }

    /// The record of a fresh installation.
    pub open spec fn spec_default() -> GraphicsSettings {
        GraphicsSettings { mode: WindowMode::Windowed, vsync: true, fov: DEFAULT_FOV }
    }
}

/// The value the sensitivity slider settles on when asked for `value`.
pub open spec fn clamped_mouse_sensitivity(value: u32) -> u32 {
    if value < MIN_MOUSE_SENSITIVITY {
        MIN_MOUSE_SENSITIVITY
    } else if value > MAX_MOUSE_SENSITIVITY {
        MAX_MOUSE_SENSITIVITY
    } else {
        value
    }
}

/// The value the field-of-view slider settles on when asked for `value`.
pub open spec fn clamped_fov(value: i8) -> i8 {
    if value < MIN_FOV {
        MIN_FOV
    } else if value > MAX_FOV {
        MAX_FOV
    } else {
        value
    }
}

/// The mouse sensitivity of a record that does not state one.
pub fn default_mouse_sensitivity() -> (value: u32)
    ensures
        value == DEFAULT_MOUSE_SENSITIVITY,
{
    DEFAULT_MOUSE_SENSITIVITY
}

/// The window mode of a record that does not state one.
pub fn default_window_mode() -> (mode: WindowMode)
    ensures
        mode == WindowMode::Windowed,
{
    WindowMode::Windowed
}

/// The vsync choice of a record that does not state one.
pub fn default_vsync() -> (vsync: bool)
    ensures
        vsync,
{
    true
}

/// The field of view of a record that does not state one.
pub fn default_fov() -> (fov: i8)
    ensures
        fov == DEFAULT_FOV,
{
    DEFAULT_FOV
}

impl Default for ControlSettings {
    fn default() -> (settings: Self)
        ensures
            settings == ControlSettings::spec_default(),
            settings.wf(),
    {
        ControlSettings { mouse_sensitivity: default_mouse_sensitivity() }
    }
}

impl Default for GraphicsSettings {
    fn default() -> (settings: Self)
        ensures
            settings == GraphicsSettings::spec_default(),
            settings.wf(),
    {
        GraphicsSettings { fov: default_fov(), vsync: default_vsync(), mode: default_window_mode() }
    }
}

/// Brings a requested sensitivity into the slider's range.
pub fn clamp_mouse_sensitivity(value: u32) -> (clamped: u32)
    ensures
        clamped == clamped_mouse_sensitivity(value),
        MIN_MOUSE_SENSITIVITY <= clamped <= MAX_MOUSE_SENSITIVITY,
{
    if value < MIN_MOUSE_SENSITIVITY {
        MIN_MOUSE_SENSITIVITY
    } else if value > MAX_MOUSE_SENSITIVITY {
        MAX_MOUSE_SENSITIVITY
    } else {
        value
    }
}

/// Brings a requested field of view into the slider's range.
pub fn clamp_fov(value: i8) -> (clamped: i8)
    ensures
        clamped == clamped_fov(value),
        MIN_FOV <= clamped <= MAX_FOV,
{
    if value < MIN_FOV {
        MIN_FOV
    } else if value > MAX_FOV {
        MAX_FOV
    } else {
        value
    }
}

} // verus!
