//! The input-driven interaction layer of a small 3D sandbox: the menu state
//! machine, the pointer capture it drives, the spectator camera's movement
//! axes, and the settings records with their load-or-default protocol.
//!
//! The library decides; the engine integration reads input, draws widgets,
//! talks to the persistent store, and applies what the library hands back.

pub mod input;
pub mod menu_focus;
pub mod render_utils;
pub mod settings;
pub mod settings_io;
pub mod spectator_camera;
pub mod ui_menu;
pub mod window;
