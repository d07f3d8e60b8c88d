//! The player's actions, and a snapshot of the buttons bound to them.

use vstd::prelude::*;

verus! {

/// What the player can ask for through the keyboard.
#[derive(Clone, Copy, Debug, PartialEq, Eq, Hash, Structural)]
pub enum Action {
    /// Opens, closes or backs out of a menu.
    Exit,
    Forward,
    Backward,
    Left,
    Right,
    Jump,
    Crouch,
    Sprint,
}

/// A key of the keyboard that an action can be bound to.
#[derive(Clone, Copy, Debug, PartialEq, Eq, Hash, Structural)]
pub enum KeyCode {
    Escape,
    W,
    A,
    S,
    D,
    Space,
    ControlLeft,
}

/// Key bindings, in the order in which they were made.
#[derive(Clone, Debug)]
pub struct InputMap {
    pub bindings: Vec<(KeyCode, Action)>,
}

/// Where a button stands in this tick.
#[derive(Clone, Copy, Debug, PartialEq, Eq, Hash, Structural)]
pub enum ButtonState {
    /// Went down in this tick.
    JustPressed,
    /// Has been down since an earlier tick.
    Pressed,
    /// Went up in this tick.
    JustReleased,
    /// Has been up since an earlier tick.
    Released,
}

impl ButtonState {
    /// The button is down.
    pub open spec fn spec_pressed(&self) -> bool {
        *self is JustPressed || *self is Pressed
    }

    /// The button went down in this tick: the edge, which fires once.
    pub open spec fn spec_just_pressed(&self) -> bool {
        *self is JustPressed
    }

    /// Whether the button is down.
    #[verifier::when_used_as_spec(spec_pressed)]
    pub fn pressed(&self) -> (down: bool)
        ensures
            down == self.spec_pressed(),
    {
        match self {
            ButtonState::JustPressed => true,
            ButtonState::Pressed => true,
            ButtonState::JustReleased => false,
            ButtonState::Released => false,
        }
    }

    /// Whether the button went down in this tick.
    #[verifier::when_used_as_spec(spec_just_pressed)]
    pub fn just_pressed(&self) -> (edge: bool)
        ensures
            edge == self.spec_just_pressed(),
    {
        match self {
            ButtonState::JustPressed => true,
            ButtonState::Pressed => false,
            ButtonState::JustReleased => false,
            ButtonState::Released => false,
        }
    }
}

/// The state of every action's button in one tick.
#[derive(Clone, Copy, Debug, PartialEq, Eq, Structural)]
pub struct ActionState {
    pub exit: ButtonState,
    pub forward: ButtonState,
    pub backward: ButtonState,
    pub left: ButtonState,
    pub right: ButtonState,
    pub jump: ButtonState,
    pub crouch: ButtonState,
    pub sprint: ButtonState,
}

impl ActionState {
    /// The snapshot in which no button is down.
    pub open spec fn spec_released() -> ActionState {
        ActionState {
            exit: ButtonState::Released,
            forward: ButtonState::Released,
            backward: ButtonState::Released,
            left: ButtonState::Released,
            right: ButtonState::Released,
            jump: ButtonState::Released,
            crouch: ButtonState::Released,
            sprint: ButtonState::Released,
        }
    }

    /// The state of the button that `action` is bound to.
    pub open spec fn spec_button_state(&self, action: Action) -> ButtonState {
        match action {
            Action::Exit => self.exit,
            Action::Forward => self.forward,
            Action::Backward => self.backward,
            Action::Left => self.left,
            Action::Right => self.right,
            Action::Jump => self.jump,
            Action::Crouch => self.crouch,
            Action::Sprint => self.sprint,
        }
    }

    /// This snapshot with the button of `action` in `state`.
    pub open spec fn with(self, action: Action, state: ButtonState) -> ActionState {
        match action {
            Action::Exit => ActionState { exit: state, ..self },
            Action::Forward => ActionState { forward: state, ..self },
            Action::Backward => ActionState { backward: state, ..self },
            Action::Left => ActionState { left: state, ..self },
            Action::Right => ActionState { right: state, ..self },
            Action::Jump => ActionState { jump: state, ..self },
            Action::Crouch => ActionState { crouch: state, ..self },
            Action::Sprint => ActionState { sprint: state, ..self },
        }
    }

    /// The button of `action` is down.
    pub open spec fn spec_pressed(&self, action: Action) -> bool {
        self.spec_button_state(action).spec_pressed()
    }

    /// The button of `action` went down in this tick.
    pub open spec fn spec_just_pressed(&self, action: Action) -> bool {
        self.spec_button_state(action).spec_just_pressed()
    }

    /// A snapshot in which no button is down.
    pub fn released() -> (snapshot: ActionState)
        ensures
            snapshot == ActionState::spec_released(),
            forall|action: Action| !snapshot.spec_pressed(action),
    {
        ActionState {
            exit: ButtonState::Released,
            forward: ButtonState::Released,
            backward: ButtonState::Released,
            left: ButtonState::Released,
            right: ButtonState::Released,
            jump: ButtonState::Released,
            crouch: ButtonState::Released,
            sprint: ButtonState::Released,
        }
    }

    /// The state of the button that `action` is bound to.
    #[verifier::when_used_as_spec(spec_button_state)]
    pub fn button_state(&self, action: Action) -> (state: ButtonState)
        ensures
            state == self.spec_button_state(action),
    {
        match action {
            Action::Exit => self.exit,
            Action::Forward => self.forward,
            Action::Backward => self.backward,
            Action::Left => self.left,
            Action::Right => self.right,
            Action::Jump => self.jump,
            Action::Crouch => self.crouch,
            Action::Sprint => self.sprint,
        }
    }

    /// Records the state of one action's button and leaves the others as
    /// they are.
    pub fn set(&mut self, action: Action, state: ButtonState)
        ensures
            *final(self) == old(self).with(action, state),
    {
        match action {
            Action::Exit => {
                self.exit = state;
            },
            Action::Forward => {
                self.forward = state;
            },
            Action::Backward => {
                self.backward = state;
            },
            Action::Left => {
                self.left = state;
            },
            Action::Right => {
                self.right = state;
            },
            Action::Jump => {
                self.jump = state;
            },
            Action::Crouch => {
                self.crouch = state;
            },
            Action::Sprint => {
                self.sprint = state;
            },
        }
    }

    /// Whether the button of `action` is down.
    #[verifier::when_used_as_spec(spec_pressed)]
    pub fn pressed(&self, action: Action) -> (down: bool)
        ensures
            down == self.spec_pressed(action),
    {
        self.button_state(action).pressed()
    }

    /// Whether the button of `action` went down in this tick.
    #[verifier::when_used_as_spec(spec_just_pressed)]
    pub fn just_pressed(&self, action: Action) -> (edge: bool)
        ensures
            edge == self.spec_just_pressed(action),
    {
        self.button_state(action).just_pressed()
    }
}

} // verus!
