//! What the events of the compositor make the render task and the protocol
//! layer do, and whether the screen is to be drawn anew.

use crate::geometry::{Position2D, Size2D};
use crate::geometry_manager::{GeometryManager, GeometryView, WCompEvent};
use crate::output_manager::{OutputEvent, RenderSurface};
use crate::resize_logic::ButtonState;
use crate::seat_manager::{
    cursor_of, AxisDirection, AxisSource, AxisValue, CursorEvent, KeyboardEvent, SeatEvent, State,
};
use crate::surface::{BufferType, SurfaceEvent, WlBuffer};
use crate::surface_state::{SurfaceKind, ToplevelSurface, WlSurface};
use vstd::prelude::*;

verus! {

/// Whether a key is held.
#[derive(Clone, Copy, Debug, PartialEq, Eq, Structural)]
pub enum KeyState {
    Released,
    Pressed,
}

/// A state that a toplevel shows to its client.
#[derive(Clone, Copy, Debug, PartialEq, Eq, Structural)]
pub enum ToplevelState {
    Resizing,
    Activated,
}

/// What the render task or the protocol layer is to do.
#[derive(Clone, Debug, PartialEq, Eq)]
#[allow(inconsistent_fields)]
pub enum Effect {
    /// Render engine: a target for an output.
    CreateOutput { id: usize, handle: RenderSurface, width: u32, height: u32 },
    DestroyOutput { id: usize },
    ResizeOutput { id: usize, width: u32, height: u32 },
    /// Render task: where an output shows the compositor space.
    MoveOutput { id: usize, position: Position2D },
    /// Protocol layer: seats and their devices.
    CreateSeat { id: usize, name: String },
    DestroySeat { id: usize },
    AddKeyboard { id: usize, rate: i32, delay: i32 },
    DelKeyboard { id: usize },
    AddCursor { id: usize },
    DelCursor { id: usize },
    /// Protocol layer: the keyboard of a seat turns to a client surface.
    SetKeyboardFocus { id: usize, focus: Option<WlSurface>, serial: u32 },
    KeyboardInput { id: usize, code: u32, state: KeyState, serial: u32, time: u32 },
    /// Protocol layer: the pointer is at `position`, over the client
    /// surface `focus` that stands at the position given with it.
    PointerMotion {
        id: usize,
        position: Position2D,
        focus: Option<(WlSurface, Position2D)>,
        serial: u32,
    },
    PointerButton { id: usize, code: u32, state: ButtonState, serial: u32, time: u32 },
    PointerAxis {
        id: usize,
        time: u32,
        source: AxisSource,
        direction: AxisDirection,
        discrete: Option<i32>,
    },
    /// Render task: a surface goes to `position` at `depth`.
    MoveSurface { id: usize, position: Position2D, depth: u32 },
    ResizeSurface { id: usize, size: Size2D },
    /// Render task: a surface appears with the contents of `buffer`.
    CreateSurface { id: usize, buffer: WlBuffer, position: Position2D, size: Size2D },
    /// Render task: a surface takes its contents from `buffer`.
    UpdateSource { id: usize, buffer: WlBuffer },
    RemoveSurface { id: usize },
    /// Protocol layer: a toplevel shows or no longer shows a state.
    SetToplevelState { surface: ToplevelSurface, state: ToplevelState, set: bool },
    /// Protocol layer: the client of a toplevel is told the size to take.
    ConfigureSize { surface: ToplevelSurface, size: Size2D },
    /// Both: what the client damaged of a surface is drawn anew from its
    /// buffer, and the buffer released.
    CommitSurface { id: usize, surface: WlSurface, buffer: Option<WlBuffer> },
}

/// What is to happen with the damage of a committed surface.
#[derive(Clone, Copy, Debug, PartialEq, Eq, Structural)]
pub struct CommitPlan {
    pub redraw: bool,
    /// The contents of the buffer go to the render task.
    pub upload: bool,
    /// The buffer goes back to the client.
    pub release: bool,
}

/// What is to happen on a commit: where the client damaged something the
/// screen is drawn anew, and a buffer is released after its contents, if
/// they lie in shared memory, went to the render task.
pub open spec fn commit_plan(damaged: bool, buffer: Option<WlBuffer>) -> CommitPlan {
    CommitPlan {
        redraw: damaged,
        upload: damaged && (buffer matches Some(b) && b.kind == BufferType::Shm),
        release: damaged && buffer is Some,
    }
}

/// Computes [`commit_plan`].
pub fn plan_commit(damaged: bool, buffer: Option<WlBuffer>) -> (r: CommitPlan)
    ensures
        r == commit_plan(damaged, buffer),
{
    match buffer {
        Some(b) => CommitPlan {
            redraw: damaged,
            upload: damaged && match b.kind {
                BufferType::Shm => true,
                BufferType::Dma => false,
            },
            release: damaged,
        },
        None => CommitPlan { redraw: damaged, upload: false, release: false },
    }
}

/// The protocol's word for the state of a key.
pub open spec fn key_state(state: State) -> KeyState {
    match state {
        State::Down => KeyState::Pressed,
        State::Up => KeyState::Released,
    }
}

/// The protocol's word for the state of a button.
pub open spec fn button_state(state: State) -> ButtonState {
    match state {
        State::Down => ButtonState::Pressed,
        State::Up => ButtonState::Released,
    }
}

/// The toplevel role of the surface with this id, if it is a toplevel.
pub open spec fn toplevel_of(v: GeometryView, id: usize) -> Option<ToplevelSurface> {
    match v.surfaces.find(id) {
        Some(surface) => match surface.kind {
            SurfaceKind::Toplevel { handle, .. } => Some(handle),
            SurfaceKind::Popup { .. } => None,
        },
        None => None,
    }
}

/// The client surface of the surface with this id.
pub open spec fn client_of(v: GeometryView, id: Option<usize>) -> Option<WlSurface> {
    match id {
        Some(id) => match v.surfaces.find(id) {
            Some(surface) => surface.kind.spec_handle(),
            None => None,
        },
        None => None,
    }
}

/// The client surface under the pointer of the seat with this id, and
/// where that surface stands.
pub open spec fn pointer_focus(v: GeometryView, id: usize) -> Option<(WlSurface, Position2D)> {
    match cursor_of(v.seats, id) {
        Some(cursor) => match cursor.focus {
            Some(surface_id) => match v.surfaces.find(surface_id) {
                Some(surface) => match surface.kind.spec_handle() {
                    Some(client) => Some((client, surface.position)),
                    None => None,
                },
                None => None,
            },
            None => None,
        },
        None => None,
    }
}

/// `effect` alone where `surface` is known, nothing otherwise.
pub open spec fn for_toplevel(
    surface: Option<ToplevelSurface>,
    effect: spec_fn(ToplevelSurface) -> Effect,
) -> Seq<Effect> {
    match surface {
        Some(surface) => seq![effect(surface)],
        None => Seq::empty(),
    }
}

/// What `event` makes the render task and the protocol layer do, with the
/// compositor as it is in `v`.
pub open spec fn effects_of(v: GeometryView, event: WCompEvent) -> Seq<Effect> {
    match event {
        WCompEvent::Output { event, .. } => match event {
            OutputEvent::Added { id, handle, size } => seq![
                Effect::CreateOutput { id, handle, width: size.width, height: size.height },
            ],
            OutputEvent::Removed { id } => seq![Effect::DestroyOutput { id }],
            OutputEvent::Resized { id, size } => seq![
                Effect::ResizeOutput { id, width: size.width, height: size.height },
            ],
            OutputEvent::Moved { id, position } => seq![Effect::MoveOutput { id, position }],
        },
        WCompEvent::Seat { serial, event } => match event {
            SeatEvent::Added { id, name } => seq![Effect::CreateSeat { id, name }],
            SeatEvent::Removed { id } => seq![Effect::DestroySeat { id }],
            SeatEvent::Keyboard(KeyboardEvent::Added { id, rate, delay }) => seq![
                Effect::AddKeyboard { id, rate, delay },
            ],
            SeatEvent::Keyboard(KeyboardEvent::Removed { id }) => seq![Effect::DelKeyboard { id }],
            SeatEvent::Keyboard(KeyboardEvent::Focus { id, surface }) => seq![
                Effect::SetKeyboardFocus { id, focus: client_of(v, surface), serial },
            ],
            SeatEvent::Keyboard(KeyboardEvent::Key { id, time, code, state, .. }) => seq![
                Effect::KeyboardInput { id, code, state: key_state(state), serial, time },
            ],
            SeatEvent::Cursor(CursorEvent::Added { id, .. }) => seq![Effect::AddCursor { id }],
            SeatEvent::Cursor(CursorEvent::Removed { id }) => seq![Effect::DelCursor { id }],
            SeatEvent::Cursor(CursorEvent::Moved { id, position }) => seq![
                Effect::PointerMotion { id, position, focus: pointer_focus(v, id), serial },
            ],
            SeatEvent::Cursor(CursorEvent::Button { id, time, code, state, .. }) => seq![
                Effect::PointerButton { id, code, state: button_state(state), serial, time },
            ],
            SeatEvent::Cursor(CursorEvent::Axis { id, time, source, direction, value }) => seq![
                Effect::PointerAxis {
                    id,
                    time,
                    source,
                    direction,
                    discrete: match value {
                        AxisValue::Discrete(steps) => Some(steps),
                        AxisValue::Continuous => None,
                    },
                },
            ],
            SeatEvent::Cursor(_) => Seq::empty(),
        },
        WCompEvent::Surface { event, .. } => match event {
            SurfaceEvent::Moved { id, position, depth } => seq![
                Effect::MoveSurface { id, position, depth },
            ],
            SurfaceEvent::InteractiveResizeStarted { id, .. } => for_toplevel(
                toplevel_of(v, id),
                |surface: ToplevelSurface|
                    Effect::SetToplevelState { surface, state: ToplevelState::Resizing, set: true },
            ),
            SurfaceEvent::InteractiveResizeStopped { id, .. } => for_toplevel(
                toplevel_of(v, id),
                |surface: ToplevelSurface|
                    Effect::SetToplevelState {
                        surface,
                        state: ToplevelState::Resizing,
                        set: false,
                    },
            ),
            SurfaceEvent::Resized { id, size } => seq![Effect::ResizeSurface { id, size }],
            SurfaceEvent::Configuration { id, size } => for_toplevel(
                toplevel_of(v, id),
                |surface: ToplevelSurface| Effect::ConfigureSize { surface, size },
            ),
            SurfaceEvent::BufferAttached { id, handle, geometry, .. } => seq![
                Effect::CreateSurface {
                    id,
                    buffer: handle,
                    position: geometry.position,
                    size: geometry.size,
                },
            ],
            SurfaceEvent::BufferReplaced { id, handle, .. } => match handle.kind {
                BufferType::Shm => seq![Effect::UpdateSource { id, buffer: handle }],
                BufferType::Dma => Seq::empty(),
            },
            SurfaceEvent::BufferDetached { id } => seq![Effect::RemoveSurface { id }],
            SurfaceEvent::Activated { id } => for_toplevel(
                toplevel_of(v, id),
                |surface: ToplevelSurface|
                    Effect::SetToplevelState { surface, state: ToplevelState::Activated, set: true },
            ),
            SurfaceEvent::Deactivated { id } => for_toplevel(
                toplevel_of(v, id),
                |surface: ToplevelSurface|
                    Effect::SetToplevelState {
                        surface,
                        state: ToplevelState::Activated,
                        set: false,
                    },
            ),
            SurfaceEvent::Committed { id } => match v.surfaces.find(id) {
                Some(surface) => match surface.kind.spec_handle() {
                    Some(client) => seq![
                        Effect::CommitSurface {
                            id,
                            surface: client,
                            buffer: match surface.buffer {
                                Some(buffer) => Some(buffer.handle),
                                None => None,
                            },
                        },
                    ],
                    None => Seq::empty(),
                },
                None => Seq::empty(),
            },
            _ => Seq::empty(),
        },
    }
}

/// Whether `event` changes what is on screen.
pub open spec fn redraws(event: WCompEvent) -> bool {
    match event {
        WCompEvent::Output { event, .. } => !(event is Moved),
        WCompEvent::Seat { event, .. } => event matches SeatEvent::Cursor(
            CursorEvent::Moved { .. },
        ),
        WCompEvent::Surface { event, .. } => event is Moved || event is Resized || event
            is BufferDetached,
    }
}

/// What the first `n` of `events` make the render task and the protocol
/// layer do, in order.
pub open spec fn effects(v: GeometryView, events: Seq<WCompEvent>, n: nat) -> Seq<Effect>
    decreases n,
{
    if n == 0 || n > events.len() {
        Seq::empty()
    } else {
        effects(v, events, (n - 1) as nat) + effects_of(v, events[n - 1])
    }
}

/// Whether one of the first `n` of `events` changes what is on screen.
pub open spec fn any_redraws(events: Seq<WCompEvent>, n: nat) -> bool
    decreases n,
{
    if n == 0 || n > events.len() {
        false
    } else {
        any_redraws(events, (n - 1) as nat) || redraws(events[n - 1])
    }
}

/// The toplevel role of the surface with this id, if it is a toplevel.
fn toplevel(manager: &GeometryManager, id: usize) -> (r: Option<ToplevelSurface>)
    ensures
        r == toplevel_of(manager@, id),
{
    match manager.surface_ref(id) {
        Some(surface) => match surface.kind {
            SurfaceKind::Toplevel { handle, .. } => Some(handle),
            SurfaceKind::Popup { .. } => None,
        },
        None => None,
    }
}

/// Adds to `out` what `event` makes the render task and the protocol layer
/// do. Says whether the screen is to be drawn anew.
fn effect(manager: &GeometryManager, event: WCompEvent, out: &mut Vec<Effect>) -> (redraw: bool)
    ensures
        final(out)@ == old(out)@ + effects_of(manager@, event),
        redraw == redraws(event),
{
    let mut redraw = false;
    match event {
        WCompEvent::Output { event, .. } => match event {
            OutputEvent::Added { id, handle, size } => {
                out.push(
                    Effect::CreateOutput { id, handle, width: size.width, height: size.height },
                );
                redraw = true;
            },
            OutputEvent::Removed { id } => {
                out.push(Effect::DestroyOutput { id });
                redraw = true;
            },
            OutputEvent::Resized { id, size } => {
                out.push(Effect::ResizeOutput { id, width: size.width, height: size.height });
                redraw = true;
            },
            OutputEvent::Moved { id, position } => {
                out.push(Effect::MoveOutput { id, position });
            },
        },
        WCompEvent::Seat { serial, event } => match event {
            SeatEvent::Added { id, name } => {
                out.push(Effect::CreateSeat { id, name });
            },
            SeatEvent::Removed { id } => {
                out.push(Effect::DestroySeat { id });
            },
            SeatEvent::Keyboard(KeyboardEvent::Added { id, rate, delay }) => {
                out.push(Effect::AddKeyboard { id, rate, delay });
            },
            SeatEvent::Keyboard(KeyboardEvent::Removed { id }) => {
                out.push(Effect::DelKeyboard { id });
            },
            SeatEvent::Keyboard(KeyboardEvent::Focus { id, surface }) => {
                let focus = match surface {
                    Some(surface_id) => match manager.surface_ref(surface_id) {
                        Some(surface) => surface.handle(),
                        None => None,
                    },
                    None => None,
                };
                out.push(Effect::SetKeyboardFocus { id, focus, serial });
            },
            SeatEvent::Keyboard(KeyboardEvent::Key { id, time, code, state, .. }) => {
                let state = match state {
                    State::Down => KeyState::Pressed,
                    State::Up => KeyState::Released,
                };
                out.push(Effect::KeyboardInput { id, code, state, serial, time });
            },
            SeatEvent::Cursor(CursorEvent::Added { id, .. }) => {
                out.push(Effect::AddCursor { id });
            },
            SeatEvent::Cursor(CursorEvent::Removed { id }) => {
                out.push(Effect::DelCursor { id });
            },
            SeatEvent::Cursor(CursorEvent::Moved { id, position }) => {
                let focused = match manager.cursor_ref(id) {
                    Some(cursor) => cursor.focus,
                    None => None,
                };
                let focus = match focused {
                    Some(surface_id) => match manager.surface_ref(surface_id) {
                        Some(surface) => match surface.handle() {
                            Some(client) => Some((client, surface.position)),
                            None => None,
                        },
                        None => None,
                    },
                    None => None,
                };
                out.push(Effect::PointerMotion { id, position, focus, serial });
                redraw = true;
            },
            SeatEvent::Cursor(CursorEvent::Button { id, time, code, state, .. }) => {
                let state = match state {
                    State::Down => ButtonState::Pressed,
                    State::Up => ButtonState::Released,
                };
                out.push(Effect::PointerButton { id, code, state, serial, time });
            },
            SeatEvent::Cursor(CursorEvent::Axis { id, time, source, direction, value }) => {
                let discrete = match value {
                    AxisValue::Discrete(steps) => Some(steps),
                    AxisValue::Continuous => None,
                };
                out.push(Effect::PointerAxis { id, time, source, direction, discrete });
            },
            SeatEvent::Cursor(_) => {},
        },
        WCompEvent::Surface { event, .. } => match event {
            SurfaceEvent::Moved { id, position, depth } => {
                out.push(Effect::MoveSurface { id, position, depth });
                redraw = true;
            },
            SurfaceEvent::InteractiveResizeStarted { id, .. } => {
                match toplevel(manager, id) {
                    Some(surface) => {
                        out.push(
                            Effect::SetToplevelState {
                                surface,
                                state: ToplevelState::Resizing,
                                set: true,
                            },
                        );
                    },
                    None => {},
                }
            },
            SurfaceEvent::InteractiveResizeStopped { id, .. } => {
                match toplevel(manager, id) {
                    Some(surface) => {
                        out.push(
                            Effect::SetToplevelState {
                                surface,
                                state: ToplevelState::Resizing,
                                set: false,
                            },
                        );
                    },
                    None => {},
                }
            },
            SurfaceEvent::Resized { id, size } => {
                out.push(Effect::ResizeSurface { id, size });
                redraw = true;
            },
            SurfaceEvent::Configuration { id, size } => {
                match toplevel(manager, id) {
                    Some(surface) => {
                        out.push(Effect::ConfigureSize { surface, size });
                    },
                    None => {},
                }
            },
            SurfaceEvent::BufferAttached { id, handle, geometry, .. } => {
                out.push(
                    Effect::CreateSurface {
                        id,
                        buffer: handle,
                        position: geometry.position,
                        size: geometry.size,
                    },
                );
            },
            SurfaceEvent::BufferReplaced { id, handle, .. } => {
                match handle.kind {
                    BufferType::Shm => {
                        out.push(Effect::UpdateSource { id, buffer: handle });
                    },
                    BufferType::Dma => {},
                }
            },
            SurfaceEvent::BufferDetached { id } => {
                out.push(Effect::RemoveSurface { id });
                redraw = true;
            },
            SurfaceEvent::Activated { id } => {
                match toplevel(manager, id) {
                    Some(surface) => {
                        out.push(
                            Effect::SetToplevelState {
                                surface,
                                state: ToplevelState::Activated,
                                set: true,
                            },
                        );
                    },
                    None => {},
                }
            },
            SurfaceEvent::Deactivated { id } => {
                match toplevel(manager, id) {
                    Some(surface) => {
                        out.push(
                            Effect::SetToplevelState {
                                surface,
                                state: ToplevelState::Activated,
                                set: false,
                            },
                        );
                    },
                    None => {},
                }
            },
            SurfaceEvent::Committed { id } => {
                match manager.surface_ref(id) {
                    Some(surface) => match surface.handle() {
                        Some(client) => {
                            out.push(
                                Effect::CommitSurface {
                                    id,
                                    surface: client,
                                    buffer: surface.buffer(),
                                },
                            );
                        },
                        None => {},
                    },
                    None => {},
                }
            },
            _ => {},
        },
    }
    assert(out@ =~= old(out)@ + effects_of(manager@, event));
    redraw
}

/// Says what `events` make the render task and the protocol layer do, in
/// the order of the events, and whether the screen is to be drawn anew.
pub fn process_events(manager: &GeometryManager, events: Vec<WCompEvent>) -> (r: (
    Vec<Effect>,
    bool,
))
    ensures
        r.0@ == effects(manager@, events@, events@.len()),
        r.1 == any_redraws(events@, events@.len()),
{
    let mut out: Vec<Effect> = Vec::new();
    let mut redraw = false;
    for event in it: events
        invariant
            it.seq() == events@,
            out@ == effects(manager@, events@, it.index() as nat),
            redraw == any_redraws(events@, it.index() as nat),
    {
        let changed = effect(manager, event, &mut out);
        redraw = redraw || changed;
    }
    (out, redraw)
}

} // verus!
