//! The frame loop as a state machine: from the loop and one event to the
//! loop afterwards and the action its driver has to carry out.

use vstd::prelude::*;
use crate::angle::{swept, Angle};
use crate::input::{InputState, Key, KeyState};

verus! {

/// Vertices in one draw call: two triangles, no index buffer.
pub const QUAD_VERTEX_COUNT: u32 = 6;

/// Whether the loop still takes events.
#[derive(Clone, Copy, Debug, PartialEq, Eq, Structural)]
pub enum LoopState {
    Running,
    Terminated,
}

/// What the driver reports to the loop.
#[derive(Clone, Copy, Debug, PartialEq, Eq, Structural)]
pub enum Event {
    /// The window was asked to close.
    CloseRequested,
    /// A key went down or came up.
    Key { key: Key, state: KeyState },
    /// All pending events are handled and a frame is due; `delta_nanos` is
    /// the time since the previous tick.
    Tick { delta_nanos: u64 },
    /// Anything else the window system reports.
    Other,
}

/// What one frame shows.
#[derive(Clone, Copy, Debug, PartialEq, Eq, Structural)]
pub struct Frame {
    /// Rotation of the quad about the axis that points into the screen.
    pub angle: Angle,
    /// Number of vertices to submit, starting at the first.
    pub vertex_count: u32,
}

/// What the driver has to do after an event.
#[derive(Clone, Copy, Debug, PartialEq, Eq, Structural)]
pub enum Action {
    /// Nothing; go on polling.
    Idle,
    /// Render this frame and present it.
    Draw(Frame),
    /// Leave the event loop.
    Exit,
}

/// The loop's whole state.
#[derive(Clone, Copy, Debug, PartialEq, Eq, Structural)]
pub struct FrameLoop {
    pub state: LoopState,
    pub input: InputState,
    pub angle: Angle,
}

/// The loop with its angle as a mathematical integer.
pub struct LoopModel {
    pub state: LoopState,
    pub input: InputState,
    pub angle: int,
}

/// An action with its angle as a mathematical integer.
pub enum Response {
    Idle,
    Draw { angle: int, vertices: nat },
    Exit,
}

impl View for Action {
    type V = Response;

    open spec fn view(&self) -> Response {
        match *self {
            Action::Idle => Response::Idle,
            Action::Draw(frame) => Response::Draw {
                angle: frame.angle@,
                vertices: frame.vertex_count as nat,
            },
            Action::Exit => Response::Exit,
        }
    }
}

impl View for FrameLoop {
    type V = LoopModel;

    open spec fn view(&self) -> LoopModel {
        LoopModel { state: self.state, input: self.input, angle: self.angle@ }
    }
}

impl Event {
    /// The events that end the loop: a close request, and escape going either
    /// way.
    pub open spec fn stops(self) -> bool {
        match self {
            Event::CloseRequested => true,
            Event::Key { key, .. } => key is Escape,
            _ => false,
        }
    }
}

impl LoopModel {
    /// The loop before any event: running, no key held, half a turn.
    pub open spec fn initial() -> LoopModel {
        LoopModel {
            state: LoopState::Running,
            input: InputState { forward: false, back: false, left: false, right: false },
            angle: crate::angle::UNITS_PER_HALF_TURN as int,
        }
    }

    /// Whether the angle is one that a machine integer can hold.
    pub open spec fn representable(self) -> bool {
        i128::MIN <= self.angle <= i128::MAX
    }

    /// The loop after `event`. A terminated loop stays as it is. A running
    /// loop terminates on an event that stops it, records a directional key,
    /// sweeps the angle on a tick, and lets anything else pass.
    pub open spec fn step(self, event: Event) -> LoopModel {
        if self.state is Terminated {
            self
        } else if event.stops() {
            LoopModel { state: LoopState::Terminated, ..self }
        } else {
            match event {
                Event::Key { key, state } => LoopModel {
                    input: self.input.after_key(key, state),
                    ..self
                },
                Event::Tick { delta_nanos } => LoopModel {
                    angle: swept(self.angle, self.input, delta_nanos as int),
                    ..self
                },
                _ => self,
            }
        }
    }

    /// What the driver is told to do on `event`: to exit when a running loop
    /// is stopped, to draw the quad at the swept angle when a running loop
    /// ticks, and nothing otherwise.
    pub open spec fn respond(self, event: Event) -> Response {
        if self.state is Terminated {
            Response::Idle
        } else if event.stops() {
            Response::Exit
        } else {
            match event {
                Event::Tick { delta_nanos } => Response::Draw {
                    angle: swept(self.angle, self.input, delta_nanos as int),
                    vertices: QUAD_VERTEX_COUNT as nat,
                },
                _ => Response::Idle,
            }
        }
    }
}

impl FrameLoop {
    /// Whether the machine integers can hold the loop after `event`. All
    /// that can fail is the angle after a tick of a running loop.
    pub open spec fn admits(self, event: Event) -> bool {
        self@.step(event).representable()
    }

    /// A running loop with no key held, turned by half a turn.
    pub fn new() -> (fl: FrameLoop)
        ensures
            fl@ == LoopModel::initial(),
    {
        FrameLoop {
            state: LoopState::Running,
            input: InputState::new(),
            angle: Angle::half_turn(),
        }
    }

    /// Whether the loop still runs.
    pub fn is_running(&self) -> (running: bool)
        ensures
            running == (self.state is Running),
    {
        match self.state {
            LoopState::Running => true,
            LoopState::Terminated => false,
        }
    }

    /// Decides `admits` at run time.
    pub fn can_handle(&self, event: &Event) -> (ok: bool)
        ensures
            ok == self.admits(*event),
    {
        match self.state {
            LoopState::Terminated => true,
            LoopState::Running => match event {
                Event::Tick { delta_nanos } => self.angle.can_advance(&self.input, *delta_nanos),
                _ => true,
            },
        }
    }

    /// Takes `event` where the machine integers can hold the loop after it,
    /// as `handle` does; leaves the loop as it is and returns `None` where
    /// they cannot.
    pub fn try_handle(&mut self, event: Event) -> (outcome: Option<Action>)
        ensures
            match outcome {
                Some(action) => {
                    &&& old(self).admits(event)
                    &&& final(self)@ == old(self)@.step(event)
                    &&& action@ == old(self)@.respond(event)
                },
                None => !old(self).admits(event) && *final(self) == *old(self),
            },
    {
        if self.can_handle(&event) {
            Some(self.handle(event))
        } else {
            None
        }
    }

    /// Takes one event: moves the loop on by `step` and returns the action
    /// that `respond` names.
    pub fn handle(&mut self, event: Event) -> (action: Action)
        requires
            old(self).admits(event),
        ensures
            final(self)@ == old(self)@.step(event),
            action@ == old(self)@.respond(event),
    {
        match self.state {
            LoopState::Terminated => Action::Idle,
            LoopState::Running => match event {
                Event::CloseRequested => {
                    self.state = LoopState::Terminated;
                    Action::Exit
                },
                Event::Key { key, state } => match key {
                    Key::Escape => {
                        self.state = LoopState::Terminated;
                        Action::Exit
                    },
                    _ => {
                        self.input.apply_key(key, state);
                        Action::Idle
                    },
                },
                Event::Tick { delta_nanos } => {
                    self.angle = self.angle.advanced(&self.input, delta_nanos);
                    Action::Draw(Frame { angle: self.angle, vertex_count: QUAD_VERTEX_COUNT })
                },
                Event::Other => Action::Idle,
            },
        }
    }
}

} // verus!
