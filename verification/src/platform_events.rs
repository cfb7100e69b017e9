//! What the platform reports, and the requests that follow from it.

use crate::geometry::{Position2D, Size2D};
use crate::geometry_manager::{pointer_absolute, GeometryManager, GeometryView, WCompRequest};
use crate::output_manager::{optimal_position, OutputRequest, RenderSurface};
use crate::seat_manager::{
    AxisDirection, AxisSource, AxisValue, Button, CursorRequest, Key, KeyboardRequest,
    SeatRequest, State,
};
use vstd::prelude::*;

verus! {

/// How the platform reaches the screen: by itself, or as a client of
/// another compositor.
#[derive(Clone, Copy, Debug, PartialEq, Eq, Structural)]
pub enum PlatformType {
    Direct,
    Compositor,
}

/// What the platform reports of an output.
#[derive(Clone, Copy, Debug, PartialEq, Eq, Structural)]
pub enum PlatformOutputEvent {
    Added,
    Removed,
    Other,
}

/// What the platform reports of a surface that it draws to.
#[derive(Clone, Copy, Debug, PartialEq, Eq)]
pub enum PlatformSurfaceEvent {
    /// A surface is there; `surface` is its handle for the render engine,
    /// if it has one.
    Added { surface: Option<RenderSurface>, size: Size2D },
    Resized(Size2D),
    Removed,
    Other,
}

/// What the platform reports of a keyboard.
#[derive(Clone, Copy, Debug, PartialEq, Eq)]
pub enum PlatformKeyboardEvent {
    Added,
    Removed,
    Key { code: u32, key: Option<Key>, state: State, serial: u32, time: u32 },
    AutoRepeat { rate: u32, delay: u32 },
    LayoutModified,
}

/// What the platform reports of a pointer.
#[derive(Clone, Copy, Debug, PartialEq, Eq)]
pub enum PlatformCursorEvent {
    Added,
    Removed,
    Button { code: u32, key: Option<Button>, state: State },
    Axis { source: AxisSource, direction: AxisDirection, value: AxisValue },
    Entered { surface_id: usize, position: Position2D },
    Left { surface_id: usize },
    /// The pointer is at `position` on the output it is on.
    AbsoluteMovement { position: Position2D },
    Other,
}

/// What the platform reports of a seat.
#[derive(Clone, Debug, PartialEq, Eq)]
pub enum PlatformSeatEvent {
    Added { name: String },
    Removed,
    Keyboard(PlatformKeyboardEvent),
    Cursor(PlatformCursorEvent),
}

/// What the platform reports.
#[derive(Clone, Debug, PartialEq, Eq)]
#[allow(inconsistent_fields)]
pub enum PlatformEvent {
    Output { id: usize, event: PlatformOutputEvent },
    Surface { id: usize, event: PlatformSurfaceEvent },
    Seat { time: u32, id: usize, event: PlatformSeatEvent },
}

/// What is asked of the platform.
#[derive(Clone, Copy, Debug, PartialEq, Eq)]
pub enum PlatformRequest {
    /// A surface to draw to: on the output given, or a window.
    CreateSurface { output: Option<usize> },
}

/// The rate at which a held key repeats.
pub const KEY_REPEAT_RATE: i32 = 200;

/// The delay before a held key repeats.
pub const KEY_REPEAT_DELAY: i32 = 25;

/// The size of the pointer's image.
pub open spec fn pointer_size() -> Size2D {
    Size2D { width: 24, height: 24 }
}

/// What the platform is asked when the compositor starts: two windows
/// where it runs under another compositor.
pub open spec fn startup_requests(platform_type: PlatformType) -> Seq<PlatformRequest> {
    match platform_type {
        PlatformType::Compositor => seq![
            PlatformRequest::CreateSurface { output: None },
            PlatformRequest::CreateSurface { output: None },
        ],
        PlatformType::Direct => Seq::empty(),
    }
}

/// What the platform is asked on `event`: on a platform that reaches the
/// screen by itself, a surface on each output that appears.
pub open spec fn platform_asked(platform_type: PlatformType, event: PlatformEvent) -> Seq<
    PlatformRequest,
> {
    match event {
        PlatformEvent::Output { id, event: PlatformOutputEvent::Added } => match platform_type {
            PlatformType::Direct => seq![PlatformRequest::CreateSurface { output: Some(id) }],
            PlatformType::Compositor => Seq::empty(),
        },
        _ => Seq::empty(),
    }
}

/// The request to the seat with this id that `event` turns into, if any.
pub open spec fn seat_request(v: GeometryView, time: u32, id: usize, event: PlatformSeatEvent)
    -> Option<SeatRequest> {
    match event {
        PlatformSeatEvent::Added { name } => Some(SeatRequest::Added { id, name }),
        PlatformSeatEvent::Removed => Some(SeatRequest::Removed { id }),
        PlatformSeatEvent::Keyboard(PlatformKeyboardEvent::Added) => Some(
            SeatRequest::Keyboard(
                KeyboardRequest::Added { id, rate: KEY_REPEAT_RATE, delay: KEY_REPEAT_DELAY },
            ),
        ),
        PlatformSeatEvent::Keyboard(PlatformKeyboardEvent::Removed) => Some(
            SeatRequest::Keyboard(KeyboardRequest::Removed { id }),
        ),
        PlatformSeatEvent::Keyboard(PlatformKeyboardEvent::Key { code, key, state, time, .. }) => {
            Some(SeatRequest::Keyboard(KeyboardRequest::Key { id, time, code, key, state }))
        },
        PlatformSeatEvent::Keyboard(_) => None,
        PlatformSeatEvent::Cursor(PlatformCursorEvent::Added) => Some(
            SeatRequest::Cursor(
                CursorRequest::Added {
                    id,
                    position: optimal_position(v.outputs, pointer_size()),
                    image: None,
                },
            ),
        ),
        PlatformSeatEvent::Cursor(PlatformCursorEvent::Removed) => Some(
            SeatRequest::Cursor(CursorRequest::Removed { id }),
        ),
        PlatformSeatEvent::Cursor(PlatformCursorEvent::Button { code, key, state }) => Some(
            SeatRequest::Cursor(CursorRequest::Button { id, time, code, key, state }),
        ),
        PlatformSeatEvent::Cursor(PlatformCursorEvent::Axis { source, direction, value }) => Some(
            SeatRequest::Cursor(CursorRequest::Axis { id, time, source, direction, value }),
        ),
        PlatformSeatEvent::Cursor(PlatformCursorEvent::Entered { surface_id, .. }) => Some(
            SeatRequest::Cursor(CursorRequest::Entered { id, output_id: surface_id }),
        ),
        PlatformSeatEvent::Cursor(PlatformCursorEvent::Left { surface_id }) => Some(
            SeatRequest::Cursor(CursorRequest::Left { id, output_id: surface_id }),
        ),
        PlatformSeatEvent::Cursor(PlatformCursorEvent::AbsoluteMovement { position }) => {
            match pointer_absolute(v, id, position) {
                Some(position) => Some(SeatRequest::Cursor(CursorRequest::Moved { id, position })),
                None => None,
            }
        },
        PlatformSeatEvent::Cursor(PlatformCursorEvent::Other) => None,
    }
}

/// The request that `event` turns into, if any: a surface of the platform
/// is an output of the compositor; an output of the platform by itself is
/// none yet.
pub open spec fn platform_request(v: GeometryView, event: PlatformEvent) -> Option<WCompRequest> {
    match event {
        PlatformEvent::Output { .. } => None,
        PlatformEvent::Surface { id, event } => match event {
            PlatformSurfaceEvent::Added { surface: Some(handle), size } => Some(
                WCompRequest::Output { request: OutputRequest::Added { id, handle, size } },
            ),
            PlatformSurfaceEvent::Resized(size) => Some(
                WCompRequest::Output { request: OutputRequest::Resized { id, size } },
            ),
            PlatformSurfaceEvent::Removed => Some(
                WCompRequest::Output { request: OutputRequest::Removed { id } },
            ),
            _ => None,
        },
        PlatformEvent::Seat { time, id, event } => match seat_request(v, time, id, event) {
            Some(request) => Some(WCompRequest::Seat { request }),
            None => None,
        },
    }
}

/// The requests that the first `n` of `events` turn into, in order.
pub open spec fn platform_requests(v: GeometryView, events: Seq<PlatformEvent>, n: nat) -> Seq<
    WCompRequest,
>
    decreases n,
{
    if n == 0 || n > events.len() {
        Seq::empty()
    } else {
        platform_requests(v, events, (n - 1) as nat) + (match platform_request(v, events[n - 1]) {
            Some(request) => seq![request],
            None => Seq::empty(),
        })
    }
}

/// What the platform is asked on the first `n` of `events`, in order.
pub open spec fn platform_asked_all(
    platform_type: PlatformType,
    events: Seq<PlatformEvent>,
    n: nat,
) -> Seq<PlatformRequest>
    decreases n,
{
    if n == 0 || n > events.len() {
        Seq::empty()
    } else {
        platform_asked_all(platform_type, events, (n - 1) as nat) + platform_asked(
            platform_type,
            events[n - 1],
        )
    }
}

/// Turns an event of a seat into the request that follows from it.
fn request_for_seat(manager: &GeometryManager, time: u32, id: usize, event: PlatformSeatEvent) -> (r:
    Option<SeatRequest>)
    ensures
        r == seat_request(manager@, time, id, event),
{
    match event {
        PlatformSeatEvent::Added { name } => Some(SeatRequest::Added { id, name }),
        PlatformSeatEvent::Removed => Some(SeatRequest::Removed { id }),
        PlatformSeatEvent::Keyboard(PlatformKeyboardEvent::Added) => Some(
            SeatRequest::Keyboard(
                KeyboardRequest::Added { id, rate: KEY_REPEAT_RATE, delay: KEY_REPEAT_DELAY },
            ),
        ),
        PlatformSeatEvent::Keyboard(PlatformKeyboardEvent::Removed) => Some(
            SeatRequest::Keyboard(KeyboardRequest::Removed { id }),
        ),
        PlatformSeatEvent::Keyboard(PlatformKeyboardEvent::Key { code, key, state, time, .. }) => {
            Some(SeatRequest::Keyboard(KeyboardRequest::Key { id, time, code, key, state }))
        },
        PlatformSeatEvent::Keyboard(_) => None,
        PlatformSeatEvent::Cursor(PlatformCursorEvent::Added) => {
            let size = Size2D { width: 24, height: 24 };
            let (position, _depth) = manager.get_surface_optimal_position(&size);
            Some(SeatRequest::Cursor(CursorRequest::Added { id, position, image: None }))
        },
        PlatformSeatEvent::Cursor(PlatformCursorEvent::Removed) => Some(
            SeatRequest::Cursor(CursorRequest::Removed { id }),
        ),
        PlatformSeatEvent::Cursor(PlatformCursorEvent::Button { code, key, state }) => Some(
            SeatRequest::Cursor(CursorRequest::Button { id, time, code, key, state }),
        ),
        PlatformSeatEvent::Cursor(PlatformCursorEvent::Axis { source, direction, value }) => Some(
            SeatRequest::Cursor(CursorRequest::Axis { id, time, source, direction, value }),
        ),
        PlatformSeatEvent::Cursor(PlatformCursorEvent::Entered { surface_id, .. }) => Some(
            SeatRequest::Cursor(CursorRequest::Entered { id, output_id: surface_id }),
        ),
        PlatformSeatEvent::Cursor(PlatformCursorEvent::Left { surface_id }) => Some(
            SeatRequest::Cursor(CursorRequest::Left { id, output_id: surface_id }),
        ),
        PlatformSeatEvent::Cursor(PlatformCursorEvent::AbsoluteMovement { position }) => {
            match manager.relative_move_cursor(id, position) {
                Some(position) => Some(SeatRequest::Cursor(CursorRequest::Moved { id, position })),
                None => None,
            }
        },
        PlatformSeatEvent::Cursor(PlatformCursorEvent::Other) => None,
    }
}

/// Turns what the platform reports into requests to the compositor and
/// requests to the platform, each in the order of the events.
pub fn process_platform_requests(
    manager: &GeometryManager,
    platform_type: PlatformType,
    events: Vec<PlatformEvent>,
) -> (r: (Vec<WCompRequest>, Vec<PlatformRequest>))
    ensures
        r.0@ == platform_requests(manager@, events@, events@.len()),
        r.1@ == platform_asked_all(platform_type, events@, events@.len()),
{
    let mut requests: Vec<WCompRequest> = Vec::new();
    let mut asked: Vec<PlatformRequest> = Vec::new();
    for event in it: events
        invariant
            it.seq() == events@,
            requests@ == platform_requests(manager@, events@, it.index() as nat),
            asked@ == platform_asked_all(platform_type, events@, it.index() as nat),
    {
        match event {
            PlatformEvent::Output { id, event } => {
                match (event, platform_type) {
                    (PlatformOutputEvent::Added, PlatformType::Direct) => {
                        asked.push(PlatformRequest::CreateSurface { output: Some(id) });
                    },
                    _ => {},
                }
            },
            PlatformEvent::Surface { id, event } => {
                match event {
                    PlatformSurfaceEvent::Added { surface: Some(handle), size } => {
                        requests.push(
                            WCompRequest::Output {
                                request: OutputRequest::Added { id, handle, size },
                            },
                        );
                    },
                    PlatformSurfaceEvent::Resized(size) => {
                        requests.push(
                            WCompRequest::Output { request: OutputRequest::Resized { id, size } },
                        );
                    },
                    PlatformSurfaceEvent::Removed => {
                        requests.push(
                            WCompRequest::Output { request: OutputRequest::Removed { id } },
                        );
                    },
                    _ => {},
                }
            },
            PlatformEvent::Seat { time, id, event } => {
                match request_for_seat(manager, time, id, event) {
                    Some(request) => {
                        requests.push(WCompRequest::Seat { request });
                    },
                    None => {},
                }
            },
        }
    }
    (requests, asked)
}

/// What the platform is asked when the compositor starts.
pub fn startup(platform_type: PlatformType) -> (r: Vec<PlatformRequest>)
    ensures
        r@ == startup_requests(platform_type),
{
    let mut asked: Vec<PlatformRequest> = Vec::new();
    match platform_type {
        PlatformType::Compositor => {
            asked.push(PlatformRequest::CreateSurface { output: None });
            asked.push(PlatformRequest::CreateSurface { output: None });
        },
        PlatformType::Direct => {},
    }
    asked
}

} // verus!
