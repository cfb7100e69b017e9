//! What the clients ask through the protocol layer, and the requests and
//! protocol actions that follow from it.

use crate::geometry::{Offset2D, Position2D, Rectangle, Size2D};
use crate::geometry_manager::{GeometryManager, GeometryView, WCompRequest};
use crate::move_logic::MoveLogic;
use crate::output_manager::{optimal_position, optimal_size};
use crate::resize_logic::{GrabStartData, ResizeLogic};
use crate::surface::{SurfaceRequest, WlBuffer};
use crate::surface_state::{
    Anchor, ConstraintAdjustment, Gravity, PopupState, PopupSurface, ResizeEdge, SurfaceKind,
    SurfaceState, ToplevelSurface, WlSurface,
};
use vstd::prelude::*;

verus! {

/// How a client wants a popup placed.
#[derive(Clone, Copy, Debug, PartialEq, Eq)]
pub struct Positioner {
    pub rect_size: Size2D,
    pub anchor_rect: Rectangle,
    pub anchor_edges: Anchor,
    pub gravity: Gravity,
    pub constraint_adjustment: ConstraintAdjustment,
    pub offset: Offset2D,
    pub reactive: bool,
}

/// What a client has committed about the extent of a surface.
#[derive(Clone, Copy, Debug, PartialEq, Eq)]
pub struct CachedState {
    pub geometry: Option<Rectangle>,
    pub min_size: Size2D,
    pub max_size: Size2D,
}

/// What a commit does to the buffer of a surface.
#[derive(Clone, Copy, Debug, PartialEq, Eq)]
pub enum BufferAssignment {
    NewBuffer { buffer: WlBuffer },
    Removed,
}

/// What the clients ask.
#[derive(Clone, Copy, Debug, PartialEq, Eq)]
#[allow(inconsistent_fields)]
pub enum WaylandRequest {
    NewToplevel { surface: ToplevelSurface },
    NewPopup { surface: PopupSurface, positioner: Positioner },
    /// A client acknowledged a configuration; `surface` is `None` where the
    /// client surface is gone.
    AckConfigure { surface: Option<WlSurface>, state: CachedState },
    /// A client asks for an interactive move with the pointer of `seat`;
    /// `start_data` is what the pointer's grab would start from, if the
    /// pointer can be grabbed.
    Move { seat: usize, start_data: Option<GrabStartData>, serial: u32 },
    /// A client asks for an interactive resize.
    Resize { seat: usize, start_data: Option<GrabStartData>, serial: u32, edges: ResizeEdge },
    Maximize { surface: ToplevelSurface },
    UnMaximize { surface: ToplevelSurface },
    Fullscreen,
    UnFullscreen,
    Minimize,
    /// A client committed a surface; `geometry` is the extent it declared.
    Commit {
        surface: Option<WlSurface>,
        assignment: Option<BufferAssignment>,
        geometry: Option<Rectangle>,
    },
    SurfaceRemoved { id: usize },
    Other,
}

/// What is asked of the protocol layer.
#[derive(Clone, Copy, Debug, PartialEq, Eq)]
#[allow(inconsistent_fields)]
pub enum WaylandAction {
    /// Tell the client of a toplevel the size to take.
    ConfigureToplevel { surface: ToplevelSurface, size: Size2D },
    /// Tell the client of a popup how it is placed.
    ConfigurePopup { surface: PopupSurface, positioner: Positioner },
    /// Let the pointer of `seat` drag a surface.
    SetMoveGrab { seat: usize, grab: MoveLogic, serial: u32 },
    /// Let the pointer of `seat` resize a surface.
    SetResizeGrab { seat: usize, grab: ResizeLogic, serial: u32 },
}

/// The grab start data with the surface under the pointer standing where
/// the compositor has the surface of that id, if it has one.
pub open spec fn start_at_surface(v: GeometryView, start_data: GrabStartData) -> GrabStartData {
    match start_data.focus {
        Some(focus) => match v.surfaces.find(focus.0.id) {
            Some(surface) => GrabStartData {
                focus: Some((focus.0, surface.position)),
                ..start_data
            },
            None => start_data,
        },
        None => start_data,
    }
}

/// The resize grab that a client's request starts: there is one where a
/// surface is under the pointer that the compositor has with an inner
/// geometry.
pub open spec fn resize_grab(
    v: GeometryView,
    start_data: Option<GrabStartData>,
    serial: u32,
    edges: ResizeEdge,
) -> Option<ResizeLogic> {
    match start_data {
        Some(data) => match data.focus {
            Some(focus) => match v.surfaces.find(focus.0.id) {
                Some(surface) => match surface.inner_geometry() {
                    Some(inner_geometry) => Some(
                        ResizeLogic {
                            start_data: start_at_surface(v, data),
                            id: focus.0.id,
                            serial,
                            inner_geometry,
                            edge: edges,
                        },
                    ),
                    None => None,
                },
                None => None,
            },
            None => None,
        },
        None => None,
    }
}

/// The state of a popup that a positioner describes.
pub open spec fn popup_state(positioner: Positioner) -> PopupState {
    PopupState {
        anchor: positioner.anchor_rect,
        anchor_edges: positioner.anchor_edges,
        gravity: positioner.gravity,
        constraint_adjustment: positioner.constraint_adjustment,
        offset: positioner.offset,
        reactive: positioner.reactive,
    }
}

/// What a commit asks about the buffer of the surface `id`: a new buffer is
/// attached at its own size, with the extent that the client declared or,
/// without one, the whole buffer at the place for a new surface; a buffer
/// that was taken away is detached.
pub open spec fn buffer_requests(
    v: GeometryView,
    id: usize,
    assignment: Option<BufferAssignment>,
    geometry: Option<Rectangle>,
) -> Seq<WCompRequest> {
    match assignment {
        Some(BufferAssignment::NewBuffer { buffer }) => seq![
            WCompRequest::Surface {
                request: SurfaceRequest::AttachBuffer {
                    id,
                    handle: buffer,
                    inner_geometry: match geometry {
                        Some(geometry) => geometry,
                        None => Rectangle {
                            position: optimal_position(v.outputs, buffer.size),
                            size: buffer.size,
                        },
                    },
                    size: buffer.size,
                },
            },
        ],
        Some(BufferAssignment::Removed) => seq![
            WCompRequest::Surface { request: SurfaceRequest::DetachBuffer { id } },
        ],
        None => Seq::empty(),
    }
}

/// The request that follows for the surface `id`, alone.
pub open spec fn for_surface(request: SurfaceRequest) -> Seq<WCompRequest> {
    seq![WCompRequest::Surface { request }]
}

/// The requests to the compositor that `request` turns into.
pub open spec fn wayland_requests_of(v: GeometryView, request: WaylandRequest) -> Seq<
    WCompRequest,
> {
    match request {
        WaylandRequest::NewToplevel { surface } => match surface.surface {
            Some(client) => for_surface(
                SurfaceRequest::Add {
                    id: client.id,
                    kind: SurfaceKind::Toplevel {
                        handle: surface,
                        state: SurfaceState { altered_state: None },
                    },
                    position: optimal_position(v.outputs, optimal_size(v.outputs)),
                },
            ),
            None => Seq::empty(),
        },
        WaylandRequest::NewPopup { surface, positioner } => match surface.surface {
            Some(client) => for_surface(
                SurfaceRequest::Add {
                    id: client.id,
                    kind: SurfaceKind::Popup { handle: surface, state: popup_state(positioner) },
                    position: Position2D { x: 0, y: 0 },
                },
            ),
            None => Seq::empty(),
        },
        WaylandRequest::AckConfigure { surface: Some(client), state } => for_surface(
            SurfaceRequest::Configuration {
                id: client.id,
                geometry: state.geometry,
                min_size: state.min_size,
                max_size: state.max_size,
            },
        ),
        WaylandRequest::Maximize { surface } => match surface.surface {
            Some(client) => for_surface(SurfaceRequest::Maximize { id: client.id }),
            None => Seq::empty(),
        },
        WaylandRequest::UnMaximize { surface } => match surface.surface {
            Some(client) => for_surface(SurfaceRequest::Unmaximize { id: client.id }),
            None => Seq::empty(),
        },
        WaylandRequest::Commit { surface: Some(client), assignment, geometry } => buffer_requests(
            v,
            client.id,
            assignment,
            geometry,
        ) + for_surface(SurfaceRequest::Commit { id: client.id }),
        WaylandRequest::SurfaceRemoved { id } => for_surface(SurfaceRequest::Remove { id }),
        _ => Seq::empty(),
    }
}

/// What the protocol layer is asked on `request`.
pub open spec fn wayland_actions_of(v: GeometryView, request: WaylandRequest) -> Seq<
    WaylandAction,
> {
    match request {
        WaylandRequest::NewToplevel { surface } => seq![
            WaylandAction::ConfigureToplevel { surface, size: optimal_size(v.outputs) },
        ],
        WaylandRequest::NewPopup { surface, positioner } => seq![
            WaylandAction::ConfigurePopup { surface, positioner },
        ],
        WaylandRequest::Move { seat, start_data: Some(data), serial } => seq![
            WaylandAction::SetMoveGrab {
                seat,
                grab: MoveLogic { start_data: start_at_surface(v, data) },
                serial,
            },
        ],
        WaylandRequest::Resize { seat, start_data, serial, edges } => match resize_grab(
            v,
            start_data,
            serial,
            edges,
        ) {
            Some(grab) => seq![WaylandAction::SetResizeGrab { seat, grab, serial }],
            None => Seq::empty(),
        },
        _ => Seq::empty(),
    }
}

/// What `request` leaves for the next round: the start of a resize.
pub open spec fn wayland_queued_of(v: GeometryView, request: WaylandRequest) -> Seq<WCompRequest> {
    match request {
        WaylandRequest::Resize { start_data, serial, edges, .. } => match resize_grab(
            v,
            start_data,
            serial,
            edges,
        ) {
            Some(grab) => for_surface(
                SurfaceRequest::InteractiveResizeStart { id: grab.id, serial, edge: edges },
            ),
            None => Seq::empty(),
        },
        _ => Seq::empty(),
    }
}

/// The requests that the first `n` of `requests` turn into, in order.
pub open spec fn wayland_requests(v: GeometryView, requests: Seq<WaylandRequest>, n: nat) -> Seq<
    WCompRequest,
>
    decreases n,
{
    if n == 0 || n > requests.len() {
        Seq::empty()
    } else {
        wayland_requests(v, requests, (n - 1) as nat) + wayland_requests_of(v, requests[n - 1])
    }
}

/// What the protocol layer is asked on the first `n` of `requests`.
pub open spec fn wayland_actions(v: GeometryView, requests: Seq<WaylandRequest>, n: nat) -> Seq<
    WaylandAction,
>
    decreases n,
{
    if n == 0 || n > requests.len() {
        Seq::empty()
    } else {
        wayland_actions(v, requests, (n - 1) as nat) + wayland_actions_of(v, requests[n - 1])
    }
}

/// What the first `n` of `requests` leave for the next round.
pub open spec fn wayland_queued(v: GeometryView, requests: Seq<WaylandRequest>, n: nat) -> Seq<
    WCompRequest,
>
    decreases n,
{
    if n == 0 || n > requests.len() {
        Seq::empty()
    } else {
        wayland_queued(v, requests, (n - 1) as nat) + wayland_queued_of(v, requests[n - 1])
    }
}

/// Puts the surface under the pointer where the compositor has it.
fn place_start(manager: &GeometryManager, start_data: GrabStartData) -> (r: GrabStartData)
    ensures
        r == start_at_surface(manager@, start_data),
{
    match start_data.focus {
        Some((client, _)) => match manager.surface_ref(client.id) {
            Some(surface) => GrabStartData {
                focus: Some((client, surface.position)),
                button: start_data.button,
                location: start_data.location,
            },
            None => start_data,
        },
        None => start_data,
    }
}

/// Turns one request of a client into requests to the compositor, actions
/// of the protocol layer, and requests for the next round.
fn take(
    manager: &GeometryManager,
    request: WaylandRequest,
    requests: &mut Vec<WCompRequest>,
    actions: &mut Vec<WaylandAction>,
    queue: &mut Vec<WCompRequest>,
)
    ensures
        final(requests)@ == old(requests)@ + wayland_requests_of(manager@, request),
        final(actions)@ == old(actions)@ + wayland_actions_of(manager@, request),
        final(queue)@ == old(queue)@ + wayland_queued_of(manager@, request),
{
    match request {
        WaylandRequest::NewToplevel { surface } => {
            let size = manager.get_surface_optimal_size();
            let (position, _depth) = manager.get_surface_optimal_position(&size);
            actions.push(WaylandAction::ConfigureToplevel { surface, size });
            match surface.get_surface() {
                Some(client) => {
                    requests.push(
                        WCompRequest::Surface {
                            request: SurfaceRequest::Add {
                                id: client.id,
                                kind: SurfaceKind::from(surface),
                                position,
                            },
                        },
                    );
                },
                None => {},
            }
        },
        WaylandRequest::NewPopup { surface, positioner } => {
            actions.push(WaylandAction::ConfigurePopup { surface, positioner });
            match surface.get_surface() {
                Some(client) => {
                    let state = PopupState {
                        anchor: positioner.anchor_rect,
                        anchor_edges: positioner.anchor_edges,
                        gravity: positioner.gravity,
                        constraint_adjustment: positioner.constraint_adjustment,
                        offset: positioner.offset,
                        reactive: positioner.reactive,
                    };
                    requests.push(
                        WCompRequest::Surface {
                            request: SurfaceRequest::Add {
                                id: client.id,
                                kind: SurfaceKind::Popup { handle: surface, state },
                                position: Position2D { x: 0, y: 0 },
                            },
                        },
                    );
                },
                None => {},
            }
        },
        WaylandRequest::AckConfigure { surface: Some(client), state } => {
            requests.push(
                WCompRequest::Surface {
                    request: SurfaceRequest::Configuration {
                        id: client.id,
                        geometry: state.geometry,
                        min_size: state.min_size,
                        max_size: state.max_size,
                    },
                },
            );
        },
        WaylandRequest::Move { seat, start_data: Some(data), serial } => {
            let grab = MoveLogic::new(place_start(manager, data));
            actions.push(WaylandAction::SetMoveGrab { seat, grab, serial });
        },
        WaylandRequest::Resize { seat, start_data: Some(data), serial, edges } => {
            match data.focus {
                Some((client, _)) => {
                    let inner = match manager.surface_ref(client.id) {
                        Some(surface) => surface.inner_geometry(),
                        None => None,
                    };
                    match inner {
                        Some(inner_geometry) => {
                            let grab = ResizeLogic::new(
                                place_start(manager, data),
                                queue,
                                client.id,
                                serial,
                                inner_geometry,
                                edges,
                            );
                            actions.push(WaylandAction::SetResizeGrab { seat, grab, serial });
                        },
                        None => {},
                    }
                },
                None => {},
            }
        },
        WaylandRequest::Maximize { surface } => {
            match surface.get_surface() {
                Some(client) => {
                    requests.push(
                        WCompRequest::Surface {
                            request: SurfaceRequest::Maximize { id: client.id },
                        },
                    );
                },
                None => {},
            }
        },
        WaylandRequest::UnMaximize { surface } => {
            match surface.get_surface() {
                Some(client) => {
                    requests.push(
                        WCompRequest::Surface {
                            request: SurfaceRequest::Unmaximize { id: client.id },
                        },
                    );
                },
                None => {},
            }
        },
        WaylandRequest::Commit { surface: Some(client), assignment, geometry } => {
            match assignment {
                Some(BufferAssignment::NewBuffer { buffer }) => {
                    let size = buffer.size;
                    let inner_geometry = match geometry {
                        Some(geometry) => geometry,
                        None => {
                            let (position, _depth) = manager.get_surface_optimal_position(&size);
                            Rectangle { position, size }
                        },
                    };
                    requests.push(
                        WCompRequest::Surface {
                            request: SurfaceRequest::AttachBuffer {
                                id: client.id,
                                handle: buffer,
                                inner_geometry,
                                size,
                            },
                        },
                    );
                },
                Some(BufferAssignment::Removed) => {
                    requests.push(
                        WCompRequest::Surface {
                            request: SurfaceRequest::DetachBuffer { id: client.id },
                        },
                    );
                },
                None => {},
            }
            requests.push(
                WCompRequest::Surface { request: SurfaceRequest::Commit { id: client.id } },
            );
        },
        WaylandRequest::SurfaceRemoved { id } => {
            requests.push(WCompRequest::Surface { request: SurfaceRequest::Remove { id } });
        },
        _ => {},
    }
    assert(requests@ =~= old(requests)@ + wayland_requests_of(manager@, request));
    assert(actions@ =~= old(actions)@ + wayland_actions_of(manager@, request));
    assert(queue@ =~= old(queue)@ + wayland_queued_of(manager@, request));
}

/// Turns what the clients ask into requests to the compositor and actions
/// of the protocol layer, each in the order of the requests. The start of
/// each resize goes to `async_requests`, for the next round.
pub fn process_wayland_requests(
    manager: &GeometryManager,
    async_requests: &mut Vec<WCompRequest>,
    requests: Vec<WaylandRequest>,
) -> (r: (Vec<WCompRequest>, Vec<WaylandAction>))
    ensures
        r.0@ == wayland_requests(manager@, requests@, requests@.len()),
        r.1@ == wayland_actions(manager@, requests@, requests@.len()),
        final(async_requests)@ == old(async_requests)@ + wayland_queued(
            manager@,
            requests@,
            requests@.len(),
        ),
{
    let mut out: Vec<WCompRequest> = Vec::new();
    let mut actions: Vec<WaylandAction> = Vec::new();
    let mut i: usize = 0;
    assert(async_requests@ =~= old(async_requests)@ + wayland_queued(manager@, requests@, 0));
    while i < requests.len()
        invariant
            i <= requests@.len(),
            out@ == wayland_requests(manager@, requests@, i as nat),
            actions@ == wayland_actions(manager@, requests@, i as nat),
            async_requests@ == old(async_requests)@ + wayland_queued(manager@, requests@, i as nat),
        decreases requests@.len() - i,
    {
        take(manager, requests[i], &mut out, &mut actions, async_requests);
        i = i + 1;
        assert(async_requests@ =~= old(async_requests)@ + wayland_queued(
            manager@,
            requests@,
            i as nat,
        ));
    }
    (out, actions)
}

} // verus!
