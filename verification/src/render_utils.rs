//! Bringing the window in line with the graphics settings.

use crate::settings::GraphicsSettings;
use crate::window::{present_mode_for, PresentMode, Window};
use vstd::prelude::*;

verus! {

/// The title that the game's window carries.
pub open spec fn window_title() -> Seq<char> {
    "Aetherion"@
}

/// Gives the window the presentation mode and window mode that the graphics
/// settings ask for, and the game's title. The pointer is left as it is.
pub fn update_window(window: &mut Window, graphics_settings: &GraphicsSettings)
    ensures
        final(window).present_mode == present_mode_for(graphics_settings.vsync),
        final(window).mode == graphics_settings.mode,
        final(window).title@ == window_title(),
        final(window).cursor == old(window).cursor,
{
    window.present_mode =
    match graphics_settings.vsync {
        true => PresentMode::AutoVsync,
        false => PresentMode::AutoNoVsync,
    };
    window.mode = graphics_settings.mode;
    window.title = "Aetherion".to_owned();
}

} // verus!
