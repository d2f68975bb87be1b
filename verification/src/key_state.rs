//! Key states, the movement keys of the free-fly camera, and what the keys of
//! the keyboard do to the state of the input.

use vstd::prelude::*;

verus! {

/// Whether a key is currently held down.
#[derive(Clone, Copy, Debug, PartialEq, Eq, Structural)]
pub enum KeyState {
    Pressed,
    Released,
}

impl KeyState {
    /// True exactly for `Pressed`.
    pub fn is_pressed(&self) -> (b: bool)
        ensures
            b == (*self == KeyState::Pressed),
    {
        match self {
            KeyState::Pressed => true,
            _ => false,
        }
    }

    /// True exactly for `Released`.
    pub fn is_released(&self) -> (b: bool)
        ensures
            b == (*self == KeyState::Released),
    {
        match self {
            KeyState::Released => true,
            _ => false,
        }
    }
}

/// The four movement keys of the camera.
#[derive(Clone, Copy, Debug, PartialEq, Eq, Structural)]
pub struct MovementState {
    pub forward: KeyState,
    pub backward: KeyState,
    pub right: KeyState,
    pub left: KeyState,
}

impl MovementState {
    /// All four keys released.
    pub fn new() -> (s: Self)
        ensures
            s.forward == KeyState::Released,
            s.backward == KeyState::Released,
            s.right == KeyState::Released,
            s.left == KeyState::Released,
    {
        Self {
            forward: KeyState::Released,
            backward: KeyState::Released,
            right: KeyState::Released,
            left: KeyState::Released,
        }
    }

    /// The step along the camera's front in one frame: one step ahead while
    /// the forward key is held, else one step back while the backward key is
    /// held, else none. The two keys never add up.
    pub open spec fn front_step(self) -> int {
        if self.forward == KeyState::Pressed {
            1
        } else if self.backward == KeyState::Pressed {
            -1
        } else {
            0
        }
    }

    /// The step along the camera's right in one frame: one step to the right
    /// while the right key is held, else one step to the left while the left
    /// key is held, else none.
    pub open spec fn right_step(self) -> int {
        if self.right == KeyState::Pressed {
            1
        } else if self.left == KeyState::Pressed {
            -1
        } else {
            0
        }
    }

    /// By how many steps the camera moves along its front in one frame.
    pub fn front_direction(&self) -> (d: i8)
        ensures
            d == self.front_step(),
    {
        if self.forward.is_pressed() {
            1
        } else if self.backward.is_pressed() {
            -1
        } else {
            0
        }
    }

    /// By how many steps the camera moves along its right in one frame.
    pub fn right_direction(&self) -> (d: i8)
        ensures
            d == self.right_step(),
    {
        if self.right.is_pressed() {
            1
        } else if self.left.is_pressed() {
            -1
        } else {
            0
        }
    }
}

/// The keys that the renderer listens to; every other key is `Other`.
#[derive(Clone, Copy, Debug, PartialEq, Eq, Structural)]
pub enum Key {
    W,
    S,
    D,
    A,
    C,
    V,
    Escape,
    Other,
}

/// What the keyboard has set: the movement keys, whether the cursor is put
/// back to the middle of the window after each mouse motion, and whether the
/// program is to end.
#[derive(Clone, Copy, Debug, PartialEq, Eq, Structural)]
pub struct InputState {
    pub movement: MovementState,
    pub mouse_snapback: bool,
    pub exit: bool,
}

impl InputState {
    /// The state after the key `key` changed to `state`. `W`, `S`, `D` and
    /// `A` are the forward, backward, right and left keys and take the new
    /// state. `C` switches the snapback on and `V` switches it off, `Escape`
    /// asks for the end, each whether pressed or released. Any other key
    /// changes nothing.
    pub open spec fn after_key(self, key: Key, state: KeyState) -> InputState {
        match key {
            Key::W => InputState {
                movement: MovementState { forward: state, ..self.movement },
                ..self
            },
            Key::S => InputState {
                movement: MovementState { backward: state, ..self.movement },
                ..self
            },
            Key::D => InputState { movement: MovementState { right: state, ..self.movement }, ..self },
            Key::A => InputState { movement: MovementState { left: state, ..self.movement }, ..self },
            Key::C => InputState { mouse_snapback: true, ..self },
            Key::V => InputState { mouse_snapback: false, ..self },
            Key::Escape => InputState { exit: true, ..self },
            Key::Other => self,
        }
    }

    /// The state at the start: no key held, the snapback on, no end asked for.
    pub fn new() -> (s: Self)
        ensures
            s.movement.forward == KeyState::Released,
            s.movement.backward == KeyState::Released,
            s.movement.right == KeyState::Released,
            s.movement.left == KeyState::Released,
            s.mouse_snapback,
            !s.exit,
    {
        InputState { movement: MovementState::new(), mouse_snapback: true, exit: false }
    }

    /// Takes in that the key `key` changed to `state`.
    pub fn key_event(&mut self, key: Key, state: KeyState)
        ensures
            *final(self) == old(self).after_key(key, state),
    {
        match key {
            Key::W => {
                self.movement.forward = state;
            },
            Key::S => {
                self.movement.backward = state;
            },
            Key::D => {
                self.movement.right = state;
            },
            Key::A => {
                self.movement.left = state;
            },
            Key::C => {
                self.mouse_snapback = true;
            },
            Key::V => {
                self.mouse_snapback = false;
            },
            Key::Escape => {
                self.exit = true;
            },
            Key::Other => {},
        }
    }
}

/// Once the end is asked for, no key takes it back.
pub proof fn lemma_exit_stays(s: InputState, key: Key, state: KeyState)
    requires
        s.exit,
    ensures
        s.after_key(key, state).exit,
{
}

} // verus!
