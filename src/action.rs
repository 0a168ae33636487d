//! Compositor actions, the effects they call for, and a model of the desktop
//! that gives those effects their meaning.
use crate::geometry::Point;
use vstd::prelude::*;

verus! {

/// What a key binding asks the compositor to do.
#[derive(Clone, Debug, PartialEq, Eq)]
pub enum Action {
    Quit,
    Debug,
    Close,
    Workspace(u8),
    MoveWindow(u8),
    MoveAndSwitch(u8),
    ToggleWindowFloating,
    Spawn(String),
    VTSwitch(i32),
}

impl Action {
    /// A copy of the action, equal to it.
    pub fn duplicate(&self) -> (r: Action)
        ensures
            r == *self,
    {
        match self {
            Action::Quit => Action::Quit,
            Action::Debug => Action::Debug,
            Action::Close => Action::Close,
            Action::Workspace(id) => Action::Workspace(*id),
            Action::MoveWindow(id) => Action::MoveWindow(*id),
            Action::MoveAndSwitch(id) => Action::MoveAndSwitch(*id),
            Action::ToggleWindowFloating => Action::ToggleWindowFloating,
            Action::Spawn(command) => Action::Spawn(command.clone()),
            Action::VTSwitch(vt) => Action::VTSwitch(*vt),
        }
    }
}

/// One step of work that an action hands to the workspace service, the
/// protocol layer, the event loop or the process launcher.
#[derive(Clone, Debug, PartialEq, Eq)]
pub enum Effect {
    /// Ask the event loop to stop.
    StopLoop,
    /// Ask the window under this point of the active workspace, if any, to close.
    CloseWindowAt(Point),
    /// Make this workspace the active one.
    ActivateWorkspace(u8),
    /// Give keyboard focus to the surface under the pointer, wherever it is
    /// when this effect is carried out, if there is one; leave it where it is
    /// otherwise.
    FocusUnderPointer,
    /// Move the window under this point of the active workspace, if any, to
    /// that workspace, without switching to it.
    MoveWindowAt(Point, u8),
    /// Run the command line through `/bin/sh -c`, without waiting for it; a
    /// failure to launch is logged and changes nothing.
    SpawnShell(String),
}

/// An action that the compositor does not implement.
#[derive(Clone, Copy, Debug, PartialEq, Eq, Structural)]
pub enum ActionError {
    NotImplemented,
}

/// The effects of `action` with the pointer at `at`, in order, or `None` for
/// an action that is not implemented.
pub open spec fn effects_of(action: Action, at: Point) -> Option<Seq<Effect>> {
    match action {
        Action::Quit => Some(seq![Effect::StopLoop]),
        Action::Close => Some(seq![Effect::CloseWindowAt(at)]),
        Action::Workspace(id) => Some(seq![Effect::ActivateWorkspace(id), Effect::FocusUnderPointer]),
        Action::MoveWindow(id) => Some(seq![Effect::MoveWindowAt(at, id)]),
        Action::MoveAndSwitch(id) => Some(
            seq![Effect::MoveWindowAt(at, id), Effect::ActivateWorkspace(id), Effect::FocusUnderPointer],
        ),
        Action::Spawn(command) => Some(seq![Effect::SpawnShell(command)]),
        Action::Debug | Action::ToggleWindowFloating | Action::VTSwitch(_) => None,
    }
}

/// The part of the desktop that actions change: which workspace is active,
/// which workspace each window belongs to, and where windows are.
pub ghost struct Desktop {
    pub active: u8,
    /// Workspace of each window.
    pub membership: Map<nat, u8>,
    /// Windows from top to bottom.
    pub stack: Seq<nat>,
    /// Whether a window's rectangle holds a point.
    pub covers: spec_fn(nat, Point) -> bool,
}

/// The topmost window of `stack` on workspace `ws` that holds `p`.
pub open spec fn first_covering(
    stack: Seq<nat>,
    membership: Map<nat, u8>,
    ws: u8,
    covers: spec_fn(nat, Point) -> bool,
    p: Point,
) -> Option<nat>
    decreases stack.len(),
{
    if stack.len() == 0 {
        None
    } else if membership.contains_key(stack[0]) && membership[stack[0]] == ws && covers(stack[0], p) {
        Some(stack[0])
    } else {
        first_covering(stack.drop_first(), membership, ws, covers, p)
    }
}

/// The window under `p` on the active workspace.
pub open spec fn window_under(d: Desktop, p: Point) -> Option<nat> {
    first_covering(d.stack, d.membership, d.active, d.covers, p)
}

/// The desktop after one effect. Effects that only talk to clients, the
/// event loop or the launcher leave it as it is.
pub open spec fn apply_effect(d: Desktop, e: Effect) -> Desktop {
    match e {
        Effect::ActivateWorkspace(id) => Desktop { active: id, ..d },
        Effect::MoveWindowAt(p, id) => match window_under(d, p) {
            Some(w) => Desktop { membership: d.membership.insert(w, id), ..d },
            None => d,
        },
        _ => d,
    }
}

/// The desktop after a run of effects, first to last.
pub open spec fn apply_effects(d: Desktop, es: Seq<Effect>) -> Desktop
    decreases es.len(),
{
    if es.len() == 0 {
        d
    } else {
        apply_effects(apply_effect(d, es[0]), es.drop_first())
    }
}

proof fn lemma_apply_concat(d: Desktop, a: Seq<Effect>, b: Seq<Effect>)
    ensures
        apply_effects(d, a + b) == apply_effects(apply_effects(d, a), b),
    decreases a.len(),
{
    if a.len() == 0 {
        assert(a + b =~= b);
    } else {
        assert((a + b).drop_first() =~= a.drop_first() + b);
        lemma_apply_concat(apply_effect(d, a[0]), a.drop_first(), b);
    }
}

/// Moving a window and switching in one action ends where moving it and then
/// switching does: the window found under the pointer belongs to workspace
/// `id`, and `id` is the active workspace.
pub proof fn lemma_move_and_switch(d: Desktop, at: Point, id: u8)
    ensures
        effects_of(Action::MoveAndSwitch(id), at) is Some,
        apply_effects(d, effects_of(Action::MoveAndSwitch(id), at).unwrap()) == apply_effects(
            apply_effects(d, effects_of(Action::MoveWindow(id), at).unwrap()),
            effects_of(Action::Workspace(id), at).unwrap(),
        ),
        apply_effects(d, effects_of(Action::MoveAndSwitch(id), at).unwrap()).active == id,
        window_under(d, at) matches Some(w) ==> apply_effects(
            d,
            effects_of(Action::MoveAndSwitch(id), at).unwrap(),
        ).membership[w] == id,
        window_under(d, at) is None ==> apply_effects(
            d,
            effects_of(Action::MoveAndSwitch(id), at).unwrap(),
        ).membership == d.membership,
{
    let both = effects_of(Action::MoveAndSwitch(id), at).unwrap();
    let mv = effects_of(Action::MoveWindow(id), at).unwrap();
    let sw = effects_of(Action::Workspace(id), at).unwrap();
    assert(both =~= mv + sw);
    lemma_apply_concat(d, mv, sw);
    reveal_with_fuel(apply_effects, 4);
}

} // verus!
