//! The spectator camera: which way the pressed keys move it, the field of
//! view of its projection, and the keys it starts with.
//!
//! The library works in whole numbers. It says along which body-local axes
//! the camera moves in a tick; scaling that direction to unit length, turning
//! it by the camera's orientation and multiplying by speed and elapsed time is
//! left to the engine integration, as is the conversion of degrees to radians.

use crate::input::{Action, ActionState, InputMap, KeyCode};
use crate::menu_focus::CursorLockState;
use crate::settings::{ControlSettings, GraphicsSettings};
use vstd::prelude::*;

verus! {

/// Speed of the camera, in world units per second.
pub const CAMERA_MOVE_SPEED: u32 = 5;

/// How far one unit of pointer motion turns the camera at sensitivity 1.0,
/// in millionths of a radian: 0.001 rad.
pub const LOOK_SCALE: u64 = 1000;

/// The direction asked for by the movement keys, in the camera's own frame:
/// `x` points right, `y` up and `z` backward. Each component is -1, 0 or 1.
#[derive(Clone, Copy, Debug, PartialEq, Eq, Structural)]
pub struct Movement {
    pub x: i8,
    pub y: i8,
    pub z: i8,
}

/// What two opposing keys ask for along their axis: they cancel when both
/// are down.
pub open spec fn axis(positive: bool, negative: bool) -> int {
    (if positive { 1int } else { 0int }) - (if negative { 1int } else { 0int })
}

impl Movement {
    /// The direction that does not move.
    pub open spec fn zero() -> Movement {
        Movement { x: 0, y: 0, z: 0 }
    }

    /// The direction that a snapshot of the keys asks for.
    pub open spec fn of(action_state: ActionState) -> Movement {
        Movement {
            x: axis(action_state.pressed(Action::Right), action_state.pressed(Action::Left)) as i8,
            y: axis(action_state.pressed(Action::Jump), action_state.pressed(Action::Crouch)) as i8,
            z: axis(
                action_state.pressed(Action::Backward),
                action_state.pressed(Action::Forward),
            ) as i8,
        }
    }

    /// The square of the direction's length, before it is brought to unit
    /// length.
    pub open spec fn length_squared(self) -> int {
        self.x * self.x + self.y * self.y + self.z * self.z
    }
}

/// What the camera does in a tick in which it is free to move.
#[derive(Clone, Copy, Debug, PartialEq, Eq, Structural)]
pub struct CameraStep {
    /// The direction to move in, before it is brought to unit length.
    pub movement: Movement,
    /// How far one unit of pointer motion turns the camera, in billionths of
    /// a radian. The camera turns by minus the motion times this rate: about
    /// the world's up axis for horizontal motion, about its own right axis
    /// for vertical motion.
    pub turn_rate: u64,
}

/// The turn rate that belongs to a sensitivity: the sensitivity, in
/// thousandths, times [`LOOK_SCALE`].
pub open spec fn turn_rate_for(control_settings: ControlSettings) -> int {
    control_settings.mouse_sensitivity * LOOK_SCALE
}

/// One projection of the scene, as far as the field of view is concerned.
#[derive(Clone, Copy, Debug, PartialEq, Eq, Structural)]
pub enum Projection {
    Perspective(PerspectiveProjection),
    Orthographic,
}

/// A perspective projection, as far as the field of view is concerned.
#[derive(Clone, Copy, Debug, PartialEq, Eq, Structural)]
pub struct PerspectiveProjection {
    /// Vertical field of view in degrees.
    pub fov: i8,
}

impl Projection {
    /// This projection once the field of view `fov` has been applied to it:
    /// only a perspective projection has one.
    pub open spec fn with_fov(self, fov: i8) -> Projection {
        match self {
            Projection::Perspective(_) => Projection::Perspective(PerspectiveProjection { fov }),
            Projection::Orthographic => Projection::Orthographic,
        }
    }
}

/// Every projection of `projections` with the field of view `fov` applied.
pub open spec fn projections_with_fov(projections: Seq<Projection>, fov: i8) -> Seq<Projection> {
    Seq::new(projections.len(), |i: int| projections[i].with_fov(fov))
}

/// What the spectator camera is spawned with.
#[derive(Clone, Debug)]
pub struct SpectatorCameraBundle {
    pub input_map: InputMap,
    pub projection: Projection,
}

/// The bindings of a fresh camera, in the order in which they are made.
pub open spec fn default_bindings() -> Seq<(KeyCode, Action)> {
    seq![
        (KeyCode::Escape, Action::Exit),
        (KeyCode::W, Action::Forward),
        (KeyCode::S, Action::Backward),
        (KeyCode::A, Action::Left),
        (KeyCode::D, Action::Right),
        (KeyCode::Space, Action::Jump),
        (KeyCode::ControlLeft, Action::Crouch),
    ]
}

fn key_axis(positive: bool, negative: bool) -> (value: i8)
    ensures
        value == axis(positive, negative),
{
    if positive == negative {
        0
    } else if positive {
        1
    } else {
        -1
    }
}

/// The camera controller's decision for one tick. While the pointer is not
/// captured the camera is suspended and nothing is returned. Otherwise the
/// result holds the direction that the movement keys ask for and the turn
/// rate that the control settings ask for.
pub fn move_camera(
    action_state: &ActionState,
    cursor_lock_state: &CursorLockState,
    control_settings: &ControlSettings,
) -> (step: Option<CameraStep>)
    ensures
        step is Some == cursor_lock_state.0,
        step matches Some(s) ==> s.movement == Movement::of(*action_state) && s.turn_rate
            == turn_rate_for(*control_settings),
{
    if !cursor_lock_state.0 {
        return None;
    }
    let movement = Movement {
        x: key_axis(action_state.pressed(Action::Right), action_state.pressed(Action::Left)),
        y: key_axis(action_state.pressed(Action::Jump), action_state.pressed(Action::Crouch)),
        z: key_axis(action_state.pressed(Action::Backward), action_state.pressed(Action::Forward)),
    };
    let sensitivity: u64 = control_settings.mouse_sensitivity as u64;
    assert(sensitivity * LOOK_SCALE <= u64::MAX) by (nonlinear_arith)
        requires
            sensitivity <= u32::MAX,
            LOOK_SCALE == 1000,
    ;
    Some(CameraStep { movement, turn_rate: sensitivity * LOOK_SCALE })
}

/// Applies the configured field of view to every perspective projection and
/// leaves the others alone.
pub fn update_fov(projections: &mut Vec<Projection>, graphics_settings: &GraphicsSettings)
    ensures
        final(projections)@ == projections_with_fov(old(projections)@, graphics_settings.fov),
{
    let mut i: usize = 0;
    while i < projections.len()
        invariant
            i <= projections.len(),
            projections.len() == old(projections).len(),
            forall|j: int|
                0 <= j < i ==> projections@[j] == old(projections)@[j].with_fov(
                    graphics_settings.fov,
                ),
            forall|j: int| i <= j < projections.len() ==> projections@[j] == old(projections)@[j],
        decreases projections.len() - i,
    {
        match projections[i] {
            Projection::Perspective(_) => {
                projections.set(
                    i,
                    Projection::Perspective(PerspectiveProjection { fov: graphics_settings.fov }),
                );
            },
            Projection::Orthographic => {},
        }
        i += 1;
    }
}

impl SpectatorCameraBundle {
    /// The key bindings that a fresh camera starts with.
    pub fn default_input_map() -> (input_map: InputMap)
        ensures
            input_map.bindings@ == default_bindings(),
    {
        let mut bindings: Vec<(KeyCode, Action)> = Vec::new();

        bindings.push((KeyCode::Escape, Action::Exit));

        bindings.push((KeyCode::W, Action::Forward));
        bindings.push((KeyCode::S, Action::Backward));
        bindings.push((KeyCode::A, Action::Left));
        bindings.push((KeyCode::D, Action::Right));
        bindings.push((KeyCode::Space, Action::Jump));
        bindings.push((KeyCode::ControlLeft, Action::Crouch));

        InputMap { bindings }
    }

    /// The camera as the scene is set up: the default bindings, and a
    /// perspective projection with the configured field of view.
    pub fn new(graphics_settings: &GraphicsSettings) -> (bundle: SpectatorCameraBundle)
        ensures
            bundle.input_map.bindings@ == default_bindings(),
            bundle.projection == Projection::Perspective(
                PerspectiveProjection { fov: graphics_settings.fov },
            ),
    {
        SpectatorCameraBundle {
            input_map: SpectatorCameraBundle::default_input_map(),
            projection: Projection::Perspective(
                PerspectiveProjection { fov: graphics_settings.fov },
            ),
        }
    }
}

/// Opposing keys cancel by composition: with both keys of every pair in the
/// same position the camera does not move, whatever else is pressed.
pub proof fn lemma_opposing_keys_cancel(action_state: ActionState)
    requires
        action_state.pressed(Action::Forward) == action_state.pressed(Action::Backward),
        action_state.pressed(Action::Left) == action_state.pressed(Action::Right),
        action_state.pressed(Action::Jump) == action_state.pressed(Action::Crouch),
    ensures
        Movement::of(action_state) == Movement::zero(),
{
}

/// Two opposing keys that are both down contribute nothing along their axis,
/// whatever the other keys do.
pub proof fn lemma_pair_cancels(action_state: ActionState)
    ensures
        action_state.pressed(Action::Forward) && action_state.pressed(Action::Backward)
            ==> Movement::of(action_state).z == 0,
        action_state.pressed(Action::Left) && action_state.pressed(Action::Right) ==> Movement::of(
            action_state,
        ).x == 0,
        action_state.pressed(Action::Jump) && action_state.pressed(Action::Crouch)
            ==> Movement::of(action_state).y == 0,
{
}

/// Every component of a direction is -1, 0 or 1, so its squared length is at
/// most 3, and it is 0 only for the direction that does not move.
pub proof fn lemma_movement_bounds(action_state: ActionState)
    ensures
        -1 <= Movement::of(action_state).x <= 1,
        -1 <= Movement::of(action_state).y <= 1,
        -1 <= Movement::of(action_state).z <= 1,
        0 <= Movement::of(action_state).length_squared() <= 3,
        Movement::of(action_state).length_squared() == 0 <==> Movement::of(action_state)
            == Movement::zero(),
{
    let m = Movement::of(action_state);
    lemma_unit_square(m.x as int);
    lemma_unit_square(m.y as int);
    lemma_unit_square(m.z as int);
}

proof fn lemma_unit_square(c: int)
    requires
        -1 <= c <= 1,
    ensures
        0 <= c * c <= 1,
        c * c == 0 <==> c == 0,
{
    assert(0 <= c * c <= 1 && (c * c == 0 <==> c == 0)) by (nonlinear_arith)
        requires
            -1 <= c <= 1,
    ;
}

} // verus!
