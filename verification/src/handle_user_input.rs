use crate::camera::{CameraCommand, CameraMovementDir, CameraRotationDir};
use vstd::prelude::*;

verus! {

/// Whether a key or a button went down or came up.
#[derive(Clone, Copy, Debug, PartialEq, Eq, Structural)]
pub enum ElementState {
    Pressed,
    Released,
}

/// The keys that the engine listens to. Every other key is `Other`.
#[derive(Clone, Copy, Debug, PartialEq, Eq, Structural)]
pub enum VirtualKeyCode {
    W,
    A,
    S,
    D,
    Q,
    E,
    Up,
    Left,
    Down,
    Right,
    Other,
}

/// One keyboard event: the key, if the platform could name it, and what
/// happened to it.
#[derive(Clone, Copy, Debug, PartialEq, Eq, Structural)]
pub struct KeyboardInput {
    pub state: ElementState,
    pub virtual_keycode: Option<VirtualKeyCode>,
}

/// A window event, as far as the engine looks into it. `P` is the type of a
/// pointer position.
#[derive(Debug)]
pub enum WindowEvent<P> {
    /// A key went down or came up.
    KeyboardInput { input: KeyboardInput },
    /// A mouse button went down or came up.
    MouseInput { state: ElementState },
    /// The pointer moved to `position`.
    CursorMoved { position: P },
    /// Anything else.
    Other,
}

/// The push along its own x axis that a steered body is given in one frame.
#[derive(Clone, Copy, Debug, PartialEq, Eq, Structural)]
pub enum Thrust {
    Forward,
    Reverse,
    Neutral,
}

/// The twist about the y axis that a steered body is given in one frame.
/// `Left` turns against the axis, `Right` turns with it.
#[derive(Clone, Copy, Debug, PartialEq, Eq, Structural)]
pub enum Turn {
    Left,
    Right,
    Straight,
}

/// Which of the keys that the engine listens to are held down.
#[derive(Clone, Copy, Debug, PartialEq, Eq, Structural)]
pub struct KeyboardState {
    pub w: bool,
    pub a: bool,
    pub s: bool,
    pub d: bool,
    pub q: bool,
    pub e: bool,
    pub up: bool,
    pub left: bool,
    pub down: bool,
    pub right: bool,
}

impl KeyboardState {
    /// The state in which no key is held.
    pub open spec fn released() -> KeyboardState {
        KeyboardState {
            w: false,
            a: false,
            s: false,
            d: false,
            q: false,
            e: false,
            up: false,
            left: false,
            down: false,
            right: false,
        }
    }

    /// The state after `input`: the flag of the key that `input` names is
    /// set if the key went down and cleared if it came up. An event without
    /// a key, or with a key that the engine does not listen to, changes
    /// nothing.
    pub open spec fn after(self, input: KeyboardInput) -> KeyboardState {
        let pressed = input.state == ElementState::Pressed;
        match input.virtual_keycode {
            Some(VirtualKeyCode::W) => KeyboardState { w: pressed, ..self },
            Some(VirtualKeyCode::A) => KeyboardState { a: pressed, ..self },
            Some(VirtualKeyCode::S) => KeyboardState { s: pressed, ..self },
            Some(VirtualKeyCode::D) => KeyboardState { d: pressed, ..self },
            Some(VirtualKeyCode::Q) => KeyboardState { q: pressed, ..self },
            Some(VirtualKeyCode::E) => KeyboardState { e: pressed, ..self },
            Some(VirtualKeyCode::Up) => KeyboardState { up: pressed, ..self },
            Some(VirtualKeyCode::Left) => KeyboardState { left: pressed, ..self },
            Some(VirtualKeyCode::Down) => KeyboardState { down: pressed, ..self },
            Some(VirtualKeyCode::Right) => KeyboardState { right: pressed, ..self },
            Some(VirtualKeyCode::Other) => self,
            None => self,
        }
    }

    /// `command` if `held`, else nothing.
    pub open spec fn when(held: bool, command: CameraCommand) -> Seq<CameraCommand> {
        if held {
            seq![command]
        } else {
            Seq::empty()
        }
    }

    /// The camera commands that the held keys stand for: one per held key,
    /// the six moves before the four rotations.
    pub open spec fn commands(self) -> Seq<CameraCommand> {
        Self::when(self.w, CameraCommand::Move(CameraMovementDir::Forward))
            + Self::when(self.a, CameraCommand::Move(CameraMovementDir::Left))
            + Self::when(self.s, CameraCommand::Move(CameraMovementDir::Backward))
            + Self::when(self.d, CameraCommand::Move(CameraMovementDir::Right))
            + Self::when(self.q, CameraCommand::Move(CameraMovementDir::Upward))
            + Self::when(self.e, CameraCommand::Move(CameraMovementDir::Downward))
            + Self::when(self.up, CameraCommand::Rotate(CameraRotationDir::Upward))
            + Self::when(self.down, CameraCommand::Rotate(CameraRotationDir::Downward))
            + Self::when(self.left, CameraCommand::Rotate(CameraRotationDir::Left))
            + Self::when(self.right, CameraCommand::Rotate(CameraRotationDir::Right))
    }

    /// The push that the held keys ask for: `W` forward, else `S` back.
    pub open spec fn thrust_spec(self) -> Thrust {
        if self.w {
            Thrust::Forward
        } else if self.s {
            Thrust::Reverse
        } else {
            Thrust::Neutral
        }
    }

    /// The twist that the held keys ask for: `A` left, else `D` right.
    pub open spec fn turn_spec(self) -> Turn {
        if self.a {
            Turn::Left
        } else if self.d {
            Turn::Right
        } else {
            Turn::Straight
        }
    }

    /// The state after `event`: a keyboard event is recorded, any other
    /// event changes nothing.
    pub open spec fn after_event<P>(self, event: WindowEvent<P>) -> KeyboardState {
        match event {
            WindowEvent::KeyboardInput { input } => self.after(input),
            _ => self,
        }
    }

    /// A keyboard on which no key is held.
    pub fn new() -> (state: KeyboardState)
        ensures
            state == KeyboardState::released(),
    {
        KeyboardState {
            w: false,
            a: false,
            s: false,
            d: false,
            q: false,
            e: false,
            up: false,
            left: false,
            down: false,
            right: false,
        }
    }

    /// Records what `input` did to the key that it names.
    pub fn handle_keyboard_input(&mut self, input: KeyboardInput)
        ensures
            *final(self) == old(self).after(input),
    {
        let pressed = match input.state {
            ElementState::Pressed => true,
            ElementState::Released => false,
        };
        if let Some(kc) = input.virtual_keycode {
            match kc {
                VirtualKeyCode::W => self.w = pressed,
                VirtualKeyCode::A => self.a = pressed,
                VirtualKeyCode::S => self.s = pressed,
                VirtualKeyCode::D => self.d = pressed,
                VirtualKeyCode::Q => self.q = pressed,
                VirtualKeyCode::E => self.e = pressed,
                VirtualKeyCode::Up => self.up = pressed,
                VirtualKeyCode::Left => self.left = pressed,
                VirtualKeyCode::Down => self.down = pressed,
                VirtualKeyCode::Right => self.right = pressed,
                VirtualKeyCode::Other => (),
            }
        }
    }

    /// Records `event` if it is a keyboard event.
    pub fn handle_input<P>(&mut self, event: &WindowEvent<P>)
        ensures
            *final(self) == old(self).after_event(*event),
    {
        match event {
            WindowEvent::KeyboardInput { input } => self.handle_keyboard_input(*input),
            _ => {},
        }
    }

    /// The push to give to the steered body this frame.
    pub fn thrust(&self) -> (thrust: Thrust)
        ensures
            thrust == self.thrust_spec(),
    {
        if self.w {
            Thrust::Forward
        } else if self.s {
            Thrust::Reverse
        } else {
            Thrust::Neutral
        }
    }

    /// The twist to give to the steered body this frame.
    pub fn turn(&self) -> (turn: Turn)
        ensures
            turn == self.turn_spec(),
    {
        if self.a {
            Turn::Left
        } else if self.d {
            Turn::Right
        } else {
            Turn::Straight
        }
    }

    /// The commands to give to a free-flying camera this frame, in the order
    /// in which they are to be carried out.
    pub fn apply_to_camera(&self) -> (commands: Vec<CameraCommand>)
        ensures
            commands@ == self.commands(),
    {
        let mut commands: Vec<CameraCommand> = Vec::new();
        push_when(&mut commands, self.w, CameraCommand::Move(CameraMovementDir::Forward));
        assert(commands@ =~= Self::when(self.w, CameraCommand::Move(CameraMovementDir::Forward)));
        push_when(&mut commands, self.a, CameraCommand::Move(CameraMovementDir::Left));
        push_when(&mut commands, self.s, CameraCommand::Move(CameraMovementDir::Backward));
        push_when(&mut commands, self.d, CameraCommand::Move(CameraMovementDir::Right));
        push_when(&mut commands, self.q, CameraCommand::Move(CameraMovementDir::Upward));
        push_when(&mut commands, self.e, CameraCommand::Move(CameraMovementDir::Downward));
        push_when(&mut commands, self.up, CameraCommand::Rotate(CameraRotationDir::Upward));
        push_when(&mut commands, self.down, CameraCommand::Rotate(CameraRotationDir::Downward));
        push_when(&mut commands, self.left, CameraCommand::Rotate(CameraRotationDir::Left));
        push_when(&mut commands, self.right, CameraCommand::Rotate(CameraRotationDir::Right));
        commands
    }
}

/// Appends `command` to `commands` if `held`.
fn push_when(commands: &mut Vec<CameraCommand>, held: bool, command: CameraCommand)
    ensures
        final(commands)@ == old(commands)@ + KeyboardState::when(held, command),
{
    if held {
        commands.push(command);
    }
}

} // verus!
