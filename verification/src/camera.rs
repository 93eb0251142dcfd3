use vstd::prelude::*;

verus! {

/// A direction in which a free-flying camera can be moved, in its own frame.
#[derive(Clone, Copy, Debug, PartialEq, Eq, Structural)]
pub enum CameraMovementDir {
    Forward,
    Backward,
    Upward,
    Downward,
    Left,
    Right,
}

/// A direction in which a free-flying camera can be turned.
#[derive(Clone, Copy, Debug, PartialEq, Eq, Structural)]
pub enum CameraRotationDir {
    Upward,
    Downward,
    Left,
    Right,
}

/// One step of a free-flying camera.
#[derive(Clone, Copy, Debug, PartialEq, Eq, Structural)]
pub enum CameraCommand {
    Move(CameraMovementDir),
    Rotate(CameraRotationDir),
}

/// What the pointer did, as far as a trackball camera looks at it. `P` is
/// the type of a pointer position, normalized to the viewport.
#[derive(Debug)]
pub enum PointerEvent<P> {
    /// The button went down.
    Pressed,
    /// The button came up.
    Released,
    /// The pointer moved to the given position.
    Moved(P),
}

/// What a trackball camera is to do with its rotations after an event.
#[derive(Debug)]
pub enum TrackballAction<P> {
    /// Nothing.
    Keep,
    /// The rotation of the drag becomes the shortest arc from the
    /// projection of `from` onto the trackball to that of `to`.
    Drag { from: P, to: P },
    /// The drag ends: its rotation goes into the base orientation, is kept
    /// as momentum of magnitude one, and is then reset to the identity.
    Release,
}

/// The pointer as a trackball camera sees it: whether a drag is under way,
/// where it began, and where the pointer is.
#[derive(Debug)]
pub struct TrackballCamera<P> {
    pub mouse_down: bool,
    pub mouse_start: P,
    pub mouse_curr: P,
}

impl<P: Copy> TrackballCamera<P> {
    /// The pointer after `event`. Pressing the button begins a drag at the
    /// place where the pointer is; releasing it ends the drag; a move is
    /// recorded whether or not a drag is under way.
    pub open spec fn after(self, event: PointerEvent<P>) -> TrackballCamera<P> {
        match event {
            PointerEvent::Pressed => TrackballCamera {
                mouse_down: true,
                mouse_start: self.mouse_curr,
                mouse_curr: self.mouse_curr,
            },
            PointerEvent::Released => TrackballCamera { mouse_down: false, ..self },
            PointerEvent::Moved(position) => TrackballCamera { mouse_curr: position, ..self },
        }
    }

    /// What `event` asks of the rotations: a move during a drag turns the
    /// camera from where the drag began to where the pointer now is, and a
    /// release during a drag commits the turn.
    pub open spec fn action(self, event: PointerEvent<P>) -> TrackballAction<P> {
        match event {
            PointerEvent::Pressed => TrackballAction::Keep,
            PointerEvent::Released => if self.mouse_down {
                TrackballAction::Release
            } else {
                TrackballAction::Keep
            },
            PointerEvent::Moved(position) => if self.mouse_down {
                TrackballAction::Drag { from: self.mouse_start, to: position }
            } else {
                TrackballAction::Keep
            },
        }
    }

    /// Momentum turns the camera only while no drag is under way.
    pub open spec fn coasts(self) -> bool {
        !self.mouse_down
    }

    /// An idle pointer at `position`.
    pub fn new(position: P) -> (camera: TrackballCamera<P>)
        ensures
            camera == (TrackballCamera {
                mouse_down: false,
                mouse_start: position,
                mouse_curr: position,
            }),
    {
        TrackballCamera { mouse_down: false, mouse_start: position, mouse_curr: position }
    }

    /// Takes in `event` and says what it asks of the rotations.
    pub fn handle_event(&mut self, event: PointerEvent<P>) -> (action: TrackballAction<P>)
        ensures
            *final(self) == old(self).after(event),
            action == old(self).action(event),
    {
        match event {
            PointerEvent::Pressed => {
                self.mouse_down = true;
                self.mouse_start = self.mouse_curr;
                TrackballAction::Keep
            },
            PointerEvent::Moved(position) => {
                self.mouse_curr = position;
                if self.mouse_down {
                    TrackballAction::Drag { from: self.mouse_start, to: position }
                } else {
                    TrackballAction::Keep
                }
            },
            PointerEvent::Released => {
                let dragging = self.mouse_down;
                self.mouse_down = false;
                if dragging {
                    TrackballAction::Release
                } else {
                    TrackballAction::Keep
                }
            },
        }
    }

    /// Whether this frame's momentum is to be applied and then damped:
    /// it is unless a drag is under way.
    pub fn update(&self) -> (coasts: bool)
        ensures
            coasts == self.coasts(),
    {
        !self.mouse_down
    }
}

/// A drag that ends where it began asks for the turn from a point to itself,
/// whatever lay between.
pub proof fn lemma_drag_back_to_start<P: Copy>(camera: TrackballCamera<P>, detour: Seq<P>, i: int)
    requires
        0 <= i <= detour.len(),
    ensures
        dragged(camera.after(PointerEvent::Pressed), detour, i).mouse_down,
        dragged(camera.after(PointerEvent::Pressed), detour, i).mouse_start == camera.mouse_curr,
        dragged(camera.after(PointerEvent::Pressed), detour, i).action(
            PointerEvent::Moved(camera.mouse_curr),
        ) == (TrackballAction::Drag { from: camera.mouse_curr, to: camera.mouse_curr }),
    decreases i,
{
    if i > 0 {
        lemma_drag_back_to_start(camera, detour, i - 1);
    }
}

/// The pointer after it has moved through the first `count` of `positions`.
pub open spec fn dragged<P: Copy>(camera: TrackballCamera<P>, positions: Seq<P>, count: int) -> TrackballCamera<P>
    decreases count,
{
    if count <= 0 {
        camera
    } else {
        dragged(camera, positions, count - 1).after(PointerEvent::Moved(positions[count - 1]))
    }
}

} // verus!
