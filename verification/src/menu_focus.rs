//! Whether the pointer is captured by the game window.

use vstd::prelude::*;

verus! {

/// Whether the pointer is captured: `true` while the player steers the
/// camera, `false` while a menu owns the pointer.
#[derive(Clone, Copy, Debug, PartialEq, Eq, Structural)]
pub struct CursorLockState(pub bool);

impl Default for CursorLockState {
    /// The game starts with no menu open, hence with the pointer captured.
    fn default() -> (state: Self)
        ensures
            state == CursorLockState(true),
    {
        CursorLockState(true)
    }
}

} // verus!
