//! The compositor's input state: the pointer, the primary output, and the
//! handling of each raw input event and each action.
use crate::action::{effects_of, Action, ActionError, Effect};
use crate::axis::{axis_frame, axis_outcome_spec, AxisFrame, AxisSource};
use crate::binding::KeyState;
use crate::geometry::{
    clamp_point, clamp_spec, follow, pos, valid_output, within, OutputGeometry, Point, SUBPIXELS,
};
use vstd::prelude::*;

verus! {

/// The backend that drives the compositor names the seat.
pub trait Backend {
    fn seat_name(&self) -> String;
}

/// Per-client data kept by the display; it holds nothing.
#[derive(Clone, Copy, Debug, PartialEq, Eq, Structural)]
pub struct ClientState;

/// Whether a pointer button went down or came up.
#[derive(Clone, Copy, Debug, PartialEq, Eq, Structural)]
pub enum ButtonState {
    Released,
    Pressed,
}

/// A raw event from an input device, with amounts in sub-pixel steps.
#[derive(Clone, Copy, Debug, PartialEq, Eq, Structural)]
pub enum InputEvent {
    Keyboard { key_code: u32, state: KeyState, time: u32 },
    /// Relative motion; `time` in milliseconds, `utime` in microseconds.
    PointerMotion { delta: Point, delta_unaccel: Point, time: u32, utime: u64 },
    /// Absolute motion, already scaled to the primary output's size.
    PointerMotionAbsolute { position: Point, time: u32 },
    PointerButton { button: u32, state: ButtonState, time: u32 },
    PointerAxis {
        source: AxisSource,
        horizontal: Option<i64>,
        horizontal_discrete: Option<i32>,
        vertical: Option<i64>,
        vertical_discrete: Option<i32>,
        time: u32,
    },
}

/// What the protocol layer is to deliver, in order. Each notification but
/// `RelativeMotion` and `Axis` draws a fresh serial when it is delivered,
/// and `Focus` only when it finds a surface.
#[derive(Clone, Copy, Debug, PartialEq, Eq, Structural)]
pub enum Notification {
    /// Pass the key to the keyboard, whose filter decides on bindings.
    Key { key_code: u32, state: KeyState, time: u32 },
    /// Give keyboard focus to the surface under `at`, if there is one;
    /// otherwise leave focus where it is.
    Focus { at: Point },
    /// Absolute motion to `location`, to the surface under the pointer.
    Motion { location: Point, time: u32 },
    /// Relative motion, to the surface under the pointer.
    RelativeMotion { delta: Point, delta_unaccel: Point, utime: u64 },
    /// A button, to the current pointer target.
    Button { button: u32, state: ButtonState, time: u32 },
    /// A scroll frame, delivered as a whole.
    Axis(AxisFrame),
}

/// What becomes of keyboard focus when it follows the pointer.
#[derive(Clone, Copy, Debug, PartialEq, Eq)]
pub enum FocusChange<T> {
    /// Focus the surface found under the pointer.
    Assign(T),
    /// Nothing is under the pointer: focus stays where it is.
    Keep,
}

/// Focus follows the pointer onto the surface found under it; over empty
/// desktop it stays where it was, and is never cleared.
pub fn auto_focus<T>(under: Option<T>) -> (r: FocusChange<T>)
    ensures
        match under {
            Some(s) => r == FocusChange::Assign(s),
            None => r == FocusChange::<T>::Keep,
        },
{
    match under {
        Some(s) => FocusChange::Assign(s),
        None => FocusChange::Keep,
    }
}

/// The compositor's input state.
pub struct MagmaState {
    /// Where the pointer is.
    pub pointer_location: Point,
    /// The rectangle of the active workspace's primary output, if one is bound.
    pub output: Option<OutputGeometry>,
}

impl MagmaState {
    /// The pointer is on the primary output whenever there is one.
    pub open spec fn wf(&self) -> bool {
        valid_output(self.output) && within(self.pointer_location.x as int, self.pointer_location.y as int, self.output)
    }

    /// Where the pointer comes to rest after `event`.
    pub open spec fn next_location(&self, event: InputEvent) -> (int, int) {
        match event {
            InputEvent::PointerMotion { delta, .. } => clamp_spec(
                self.pointer_location.x + delta.x,
                self.pointer_location.y + delta.y,
                self.output,
            ),
            InputEvent::PointerMotionAbsolute { position, .. } => clamp_spec(
                self.absolute_target(position).0,
                self.absolute_target(position).1,
                self.output,
            ),
            _ => pos(self.pointer_location),
        }
    }

    /// A scaled absolute position moved by the primary output's origin, within
    /// the range of `i64`.
    pub open spec fn absolute_target(&self, position: Point) -> (int, int) {
        clamp_spec(
            position.x + self.output.unwrap().x * SUBPIXELS,
            position.y + self.output.unwrap().y * SUBPIXELS,
            None,
        )
    }

    /// What `event` asks the protocol layer to deliver, given the pointer's
    /// place `at` after the event.
    pub open spec fn notifications_of(&self, event: InputEvent, at: Point) -> Seq<Notification> {
        match event {
            InputEvent::Keyboard { key_code, state, time } => seq![
                Notification::Key { key_code, state, time },
            ],
            InputEvent::PointerMotion { delta, delta_unaccel, time, utime } => seq![
                Notification::Focus { at },
                Notification::Motion { location: at, time },
                Notification::RelativeMotion { delta, delta_unaccel, utime },
            ],
            InputEvent::PointerMotionAbsolute { position, time } => seq![
                Notification::Focus { at },
                Notification::Motion { location: at, time },
            ],
            InputEvent::PointerButton { button, state, time } => seq![
                Notification::Focus { at },
                Notification::Button { button, state, time },
            ],
            InputEvent::PointerAxis {
                source,
                horizontal,
                horizontal_discrete,
                vertical,
                vertical_discrete,
                time,
            } => seq![
                Notification::Axis(
                    AxisFrame {
                        source,
                        time,
                        horizontal: axis_outcome_spec(horizontal, horizontal_discrete, source),
                        vertical: axis_outcome_spec(vertical, vertical_discrete, source),
                    },
                ),
            ],
        }
    }

    /// The state at start-up: the pointer at the origin, no output bound.
    pub fn new() -> (r: MagmaState)
        ensures
            r.wf(),
            r.pointer_location == (Point { x: 0, y: 0 }),
            r.output is None,
    {
        MagmaState { pointer_location: Point { x: 0, y: 0 }, output: None }
    }

    /// Clamps `pos` to the primary output, if there is one.
    pub fn clamp_coords(&self, pos: Point) -> (r: Point)
        ensures
            crate::geometry::pos(r) == clamp_spec(pos.x as int, pos.y as int, self.output),
    {
        clamp_point(pos.x as i128, pos.y as i128, self.output)
    }

    /// Binds another primary output, or none, and brings the pointer onto it.
    pub fn set_output(&mut self, output: Option<OutputGeometry>)
        requires
            valid_output(output),
        ensures
            final(self).wf(),
            final(self).output == output,
            pos(final(self).pointer_location) == clamp_spec(
                old(self).pointer_location.x as int,
                old(self).pointer_location.y as int,
                output,
            ),
    {
        self.output = output;
        self.pointer_location = self.clamp_coords(self.pointer_location);
        proof {
            crate::geometry::lemma_clamp_within(
                old(self).pointer_location.x as int,
                old(self).pointer_location.y as int,
                output,
            );
        }
    }

    /// Focus follows the pointer: the surface under it, if any, gets the keyboard.
    pub fn set_input_focus_auto(&self) -> (r: Notification)
        ensures
            r == (Notification::Focus { at: self.pointer_location }),
    {
        Notification::Focus { at: self.pointer_location }
    }

    /// Handles one raw input event: moves the pointer and says what to deliver.
    pub fn process_input_event(&mut self, event: InputEvent) -> (r: Vec<Notification>)
        requires
            old(self).wf(),
            event is PointerMotionAbsolute ==> old(self).output is Some,
        ensures
            final(self).wf(),
            final(self).output == old(self).output,
            pos(final(self).pointer_location) == old(self).next_location(event),
            r@ == old(self).notifications_of(event, final(self).pointer_location),
    {
        proof {
            crate::geometry::lemma_clamp_within(
                self.pointer_location.x as int,
                self.pointer_location.y as int,
                self.output,
            );
        }
        match event {
            InputEvent::Keyboard { key_code, state, time } => {
                vec![Notification::Key { key_code, state, time }]
            },
            InputEvent::PointerMotion { delta, delta_unaccel, time, utime } => {
                let moved = clamp_point(
                    self.pointer_location.x as i128 + delta.x as i128,
                    self.pointer_location.y as i128 + delta.y as i128,
                    self.output,
                );
                proof {
                    crate::geometry::lemma_clamp_within(
                        self.pointer_location.x + delta.x,
                        self.pointer_location.y + delta.y,
                        self.output,
                    );
                }
                self.pointer_location = moved;
                vec![
                    self.set_input_focus_auto(),
                    Notification::Motion { location: self.pointer_location, time },
                    Notification::RelativeMotion { delta, delta_unaccel, utime },
                ]
            },
            InputEvent::PointerMotionAbsolute { position, time } => {
                let o = self.output.unwrap();
                let target = clamp_point(
                    position.x as i128 + o.x as i128 * SUBPIXELS as i128,
                    position.y as i128 + o.y as i128 * SUBPIXELS as i128,
                    None,
                );
                self.pointer_location = self.clamp_coords(target);
                proof {
                    crate::geometry::lemma_clamp_within(target.x as int, target.y as int, self.output);
                }
                vec![
                    self.set_input_focus_auto(),
                    Notification::Motion { location: self.pointer_location, time },
                ]
            },
            InputEvent::PointerButton { button, state, time } => {
                vec![self.set_input_focus_auto(), Notification::Button { button, state, time }]
            },
            InputEvent::PointerAxis {
                source,
                horizontal,
                horizontal_discrete,
                vertical,
                vertical_discrete,
                time,
            } => {
                let frame = axis_frame(
                    source,
                    time,
                    horizontal,
                    horizontal_discrete,
                    vertical,
                    vertical_discrete,
                );
                vec![Notification::Axis(frame)]
            },
        }
    }

    /// Runs an action: says which effects to carry out, in order, or that the
    /// action is not implemented.
    pub fn handle_action(&self, action: Action) -> (r: Result<Vec<Effect>, ActionError>)
        ensures
            match effects_of(action, self.pointer_location) {
                Some(es) => r matches Ok(v) && v@ == es,
                None => r == Err::<Vec<Effect>, ActionError>(ActionError::NotImplemented),
            },
        decreases action_depth(action),
    {
        let at = self.pointer_location;
        match action {
            Action::Quit => Ok(vec![Effect::StopLoop]),
            Action::Debug => Err(ActionError::NotImplemented),
            Action::Close => Ok(vec![Effect::CloseWindowAt(at)]),
            Action::Workspace(id) => Ok(vec![Effect::ActivateWorkspace(id), Effect::FocusUnderPointer]),
            Action::MoveWindow(id) => Ok(vec![Effect::MoveWindowAt(at, id)]),
            Action::MoveAndSwitch(id) => {
                let mut effects = match self.handle_action(Action::MoveWindow(id)) {
                    Ok(v) => v,
                    Err(e) => return Err(e),
                };
                let mut switch = match self.handle_action(Action::Workspace(id)) {
                    Ok(v) => v,
                    Err(e) => return Err(e),
                };
                effects.append(&mut switch);
                assert(effects@ =~= effects_of(action, at).unwrap());
                Ok(effects)
            },
            Action::ToggleWindowFloating => Err(ActionError::NotImplemented),
            Action::Spawn(command) => Ok(vec![Effect::SpawnShell(command)]),
            Action::VTSwitch(_) => Err(ActionError::NotImplemented),
        }
    }
}

/// How deep an action nests others: a composite action runs simple ones.
pub open spec fn action_depth(action: Action) -> nat {
    match action {
        Action::MoveAndSwitch(_) => 1,
        _ => 0,
    }
}

/// Relative motion events handled one after another leave the pointer where
/// `follow` says: if `before` rests where `follow` puts it after `deltas`,
/// and `after` is `before` once a motion by `delta` has been handled, then
/// `after` rests where `follow` puts it after `deltas` and then `delta`.
pub proof fn lemma_relative_event_follows(
    before: MagmaState,
    after: MagmaState,
    start: (int, int),
    deltas: Seq<Point>,
    event: InputEvent,
)
    requires
        event is PointerMotion,
        pos(before.pointer_location) == follow(start, deltas, before.output),
        pos(after.pointer_location) == before.next_location(event),
        after.output == before.output,
    ensures
        pos(after.pointer_location) == follow(start, deltas.push(event->delta), after.output),
{
    assert(deltas.push(event->delta).drop_last() =~= deltas);
}

} // verus!
