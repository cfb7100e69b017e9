//! The geometry manager: seats, surfaces and outputs together. It hands each
//! request to the manager it concerns, follows up on what was reported
//! (keyboard focus raises a toplevel, pointer motion looks up the surface
//! under the pointer, a maximized toplevel covers its output), and gives
//! every event a serial.

use crate::geometry::{lemma_wrap_absorb, wrap_u32, Position2D, Size2D};
use crate::output_manager::{
    output_events, outputs_after, shows, Output, OutputEvent, OutputManager, OutputRequest,
    RenderSurface,
};
use crate::search::first_where;
use crate::seat_manager::{
    cursor_changed, cursor_of, keyboard_of, only_if, seat_events, seats_after, with_keyboard,
    AxisDirection, AxisSource, AxisValue, Button, Cursor, CursorEvent, CursorRequest, Key,
    Keyboard, KeyboardEvent, KeyboardRequest, Seat, SeatEvent, SeatManager, SeatRequest, State,
};
use crate::surface::{
    Surface, SurfaceChange, SurfaceEvent, SurfaceRequest, SurfaceView, WlBuffer,
};
use crate::surface_manager::{request_wf, surface_at, SurfaceManager, SurfaceManagerView};
use crate::surface_state::{ResizeEdge, SurfaceKind};
use crate::geometry::Rectangle;
use vstd::prelude::*;

verus! {

/// What the compositor reports, each with its serial.
#[derive(Clone, Debug, PartialEq, Eq)]
#[allow(inconsistent_fields)]
pub enum WCompEvent {
    /// About a seat.
    Seat { serial: u32, event: SeatEvent },
    /// About a surface.
    Surface { serial: u32, event: SurfaceEvent },
    /// About an output.
    Output { serial: u32, event: OutputEvent },
}

impl WCompEvent {
    pub open spec fn spec_serial(self) -> u32 {
        match self {
            WCompEvent::Seat { serial, .. } => serial,
            WCompEvent::Surface { serial, .. } => serial,
            WCompEvent::Output { serial, .. } => serial,
        }
    }

    /// The same event under another serial.
    pub open spec fn with_serial(self, serial: u32) -> WCompEvent {
        match self {
            WCompEvent::Seat { event, .. } => WCompEvent::Seat { serial, event },
            WCompEvent::Surface { event, .. } => WCompEvent::Surface { serial, event },
            WCompEvent::Output { event, .. } => WCompEvent::Output { serial, event },
        }
    }

    pub fn serial(&self) -> (r: u32)
        ensures
            r == self.spec_serial(),
    {
        match self {
            WCompEvent::Seat { serial, .. } => *serial,
            WCompEvent::Surface { serial, .. } => *serial,
            WCompEvent::Output { serial, .. } => *serial,
        }
    }

    /// Puts the event under another serial.
    fn set_serial(&mut self, serial: u32)
        ensures
            *final(self) == old(self).with_serial(serial),
    {
        match self {
            WCompEvent::Seat { serial: current, .. } => {
                *current = serial;
            },
            WCompEvent::Surface { serial: current, .. } => {
                *current = serial;
            },
            WCompEvent::Output { serial: current, .. } => {
                *current = serial;
            },
        }
    }
}

impl From<(u32, SeatEvent)> for WCompEvent {
    fn from(tuple: (u32, SeatEvent)) -> (r: Self)
        ensures
            r == (WCompEvent::Seat { serial: tuple.0, event: tuple.1 }),
    {
        WCompEvent::Seat { serial: tuple.0, event: tuple.1 }
    }
}

impl vstd::std_specs::convert::FromSpecImpl<(u32, SeatEvent)> for WCompEvent {
    open spec fn obeys_from_spec() -> bool {
        true
    }

    open spec fn from_spec(tuple: (u32, SeatEvent)) -> Self {
        WCompEvent::Seat { serial: tuple.0, event: tuple.1 }
    }
}

impl From<(u32, SurfaceEvent)> for WCompEvent {
    fn from(tuple: (u32, SurfaceEvent)) -> (r: Self)
        ensures
            r == (WCompEvent::Surface { serial: tuple.0, event: tuple.1 }),
    {
        WCompEvent::Surface { serial: tuple.0, event: tuple.1 }
    }
}

impl vstd::std_specs::convert::FromSpecImpl<(u32, SurfaceEvent)> for WCompEvent {
    open spec fn obeys_from_spec() -> bool {
        true
    }

    open spec fn from_spec(tuple: (u32, SurfaceEvent)) -> Self {
        WCompEvent::Surface { serial: tuple.0, event: tuple.1 }
    }
}

impl From<(u32, OutputEvent)> for WCompEvent {
    fn from(tuple: (u32, OutputEvent)) -> (r: Self)
        ensures
            r == (WCompEvent::Output { serial: tuple.0, event: tuple.1 }),
    {
        WCompEvent::Output { serial: tuple.0, event: tuple.1 }
    }
}

impl vstd::std_specs::convert::FromSpecImpl<(u32, OutputEvent)> for WCompEvent {
    open spec fn obeys_from_spec() -> bool {
        true
    }

    open spec fn from_spec(tuple: (u32, OutputEvent)) -> Self {
        WCompEvent::Output { serial: tuple.0, event: tuple.1 }
    }
}

/// What is asked of the compositor.
#[derive(Clone, Debug, PartialEq, Eq)]
#[allow(inconsistent_fields)]
pub enum WCompRequest {
    /// Of a seat.
    Seat { request: SeatRequest },
    /// Of a surface.
    Surface { request: SurfaceRequest },
    /// Of an output.
    Output { request: OutputRequest },
}

/// The model of a [`GeometryManager`].
pub struct GeometryView {
    pub seats: Seq<Seat>,
    pub surfaces: SurfaceManagerView,
    pub outputs: Seq<Output>,
    /// Requests that wait to be taken.
    pub pending: Seq<WCompRequest>,
    /// The serial of the next event.
    pub next_serial: u32,
}

/// Seat events as events of the compositor, not yet under a serial.
pub open spec fn of_seats(events: Seq<SeatEvent>) -> Seq<WCompEvent> {
    Seq::new(events.len(), |k: int| WCompEvent::Seat { serial: 0, event: events[k] })
}

/// Surface events as events of the compositor, not yet under a serial.
pub open spec fn of_surfaces(events: Seq<SurfaceEvent>) -> Seq<WCompEvent> {
    Seq::new(events.len(), |k: int| WCompEvent::Surface { serial: 0, event: events[k] })
}

/// Output events as events of the compositor, not yet under a serial.
pub open spec fn of_outputs(events: Seq<OutputEvent>) -> Seq<WCompEvent> {
    Seq::new(events.len(), |k: int| WCompEvent::Output { serial: 0, event: events[k] })
}

/// The events under serials that count up from `first`.
pub open spec fn stamped(events: Seq<WCompEvent>, first: u32) -> Seq<WCompEvent> {
    Seq::new(events.len(), |k: int| events[k].with_serial(wrap_u32(first + k)))
}

/// The id of the surface under the pointer of the seat with this id.
pub open spec fn under_pointer(v: GeometryView, id: usize) -> Option<usize> {
    match cursor_of(v.seats, id) {
        Some(cursor) => match surface_at(
            v.surfaces.surfaces,
            v.surfaces.border_grace,
            cursor.position,
        ) {
            Some(surface) => Some(surface.id),
            None => None,
        },
        None => None,
    }
}

/// The id of the surface under `position`.
pub open spec fn under(v: GeometryView, position: Position2D) -> Option<usize> {
    match surface_at(v.surfaces.surfaces, v.surfaces.border_grace, position) {
        Some(surface) => Some(surface.id),
        None => None,
    }
}

/// The seats once the keyboard of the seat with this id has turned to
/// `surface`, if the seat has a keyboard.
pub open spec fn keyboard_turned(seats: Seq<Seat>, id: usize, surface: Option<usize>) -> Seq<Seat> {
    match keyboard_of(seats, id) {
        Some(keyboard) => with_keyboard(seats, id, Some(Keyboard { focus: surface, ..keyboard })),
        None => seats,
    }
}

/// The manager once `request` has gone to the manager it concerns. A
/// pointer button also turns the keyboard of the seat to the surface under
/// the pointer.
#[verifier::opaque]
pub open spec fn performed(v: GeometryView, request: WCompRequest) -> GeometryView {
    match request {
        WCompRequest::Seat { request } => match request {
            SeatRequest::Cursor(CursorRequest::Button { id, .. }) => GeometryView {
                seats: keyboard_turned(v.seats, id, under_pointer(v, id)),
                ..v
            },
            _ => GeometryView { seats: seats_after(v.seats, request), ..v },
        },
        WCompRequest::Surface { request } => GeometryView {
            surfaces: v.surfaces.after(request),
            ..v
        },
        WCompRequest::Output { request } => GeometryView {
            outputs: outputs_after(v.outputs, request),
            ..v
        },
    }
}

/// What the manager that `request` concerns reports of it.
#[verifier::opaque]
pub open spec fn performed_events(v: GeometryView, request: WCompRequest) -> Seq<WCompEvent> {
    match request {
        WCompRequest::Seat { request } => match request {
            SeatRequest::Cursor(CursorRequest::Button { id, .. }) => of_seats(
                seat_events(v.seats, request) + only_if(
                    keyboard_of(v.seats, id) is Some,
                    SeatEvent::Keyboard(
                        KeyboardEvent::Focus { id, surface: under_pointer(v, id) },
                    ),
                ),
            ),
            _ => of_seats(seat_events(v.seats, request)),
        },
        WCompRequest::Surface { request } => of_surfaces(v.surfaces.events_of(request)),
        WCompRequest::Output { request } => of_outputs(output_events(v.outputs, request)),
    }
}

/// The output that a maximized surface with this id covers: the first that
/// shows the surface's position.
pub open spec fn cover(v: GeometryView, id: usize) -> Option<Output> {
    match v.surfaces.find(id) {
        Some(surface) => match first_where(v.outputs, shows(surface.position)) {
            Some(k) => Some(v.outputs[k]),
            None => None,
        },
        None => None,
    }
}

/// The manager once it has followed up on `event`: a keyboard that turned
/// to a surface makes it the active one, a pointer that moved is over the
/// surface under it, a surface that was maximized goes to the origin of the
/// output that shows its position.
#[verifier::opaque]
pub open spec fn settled(v: GeometryView, event: WCompEvent) -> GeometryView {
    match event {
        WCompEvent::Seat { event: SeatEvent::Keyboard(KeyboardEvent::Focus { surface, .. }), .. } => {
            GeometryView { surfaces: v.surfaces.focused(surface), ..v }
        },
        WCompEvent::Seat { event: SeatEvent::Cursor(CursorEvent::Moved { id, position }), .. } => {
            GeometryView {
                seats: cursor_changed(
                    v.seats,
                    id,
                    |cursor: Cursor| Cursor { focus: under(v, position), ..cursor },
                ),
                ..v
            }
        },
        WCompEvent::Surface { event: SurfaceEvent::Maximized { id }, .. } => match cover(v, id) {
            Some(output) => GeometryView {
                surfaces: v.surfaces.with_change(
                    id,
                    SurfaceChange::Move { position: output.geometry.position },
                ),
                ..v
            },
            None => v,
        },
        _ => v,
    }
}

/// What following up on `event` reports.
#[verifier::opaque]
pub open spec fn settle_events(v: GeometryView, event: WCompEvent) -> Seq<WCompEvent> {
    match event {
        WCompEvent::Seat { event: SeatEvent::Keyboard(KeyboardEvent::Focus { surface, .. }), .. } => {
            of_surfaces(v.surfaces.focus_events(surface))
        },
        WCompEvent::Seat { event: SeatEvent::Cursor(CursorEvent::Moved { id, position }), .. } => {
            of_seats(
                only_if(
                    cursor_of(v.seats, id) matches Some(cursor) && cursor.focus != under(
                        v,
                        position,
                    ),
                    SeatEvent::Cursor(CursorEvent::Focus { id, surface: under(v, position) }),
                ),
            )
        },
        WCompEvent::Surface { event: SurfaceEvent::Maximized { id }, .. } => match cover(v, id) {
            Some(output) => of_surfaces(
                v.surfaces.change_events(
                    id,
                    SurfaceChange::Move { position: output.geometry.position },
                ) + settled(v, event).surfaces.events_of(
                    SurfaceRequest::Resize { id, size: output.geometry.size },
                ),
            ),
            None => Seq::empty(),
        },
        _ => Seq::empty(),
    }
}

/// The manager once it has followed up on the first `n` of `events`, in order.
pub open spec fn settled_all(v: GeometryView, events: Seq<WCompEvent>, n: nat) -> GeometryView
    decreases n,
{
    if n == 0 || n > events.len() {
        v
    } else {
        settled(settled_all(v, events, (n - 1) as nat), events[n - 1])
    }
}

/// What following up on the first `n` of `events` reports, in order.
pub open spec fn settle_all_events(v: GeometryView, events: Seq<WCompEvent>, n: nat) -> Seq<
    WCompEvent,
>
    decreases n,
{
    if n == 0 || n > events.len() {
        Seq::empty()
    } else {
        settle_all_events(v, events, (n - 1) as nat) + settle_events(
            settled_all(v, events, (n - 1) as nat),
            events[n - 1],
        )
    }
}

/// Handing on a request and following up on events leave the serial
/// counter and the waiting requests alone.
pub proof fn lemma_counter_kept(
    v: GeometryView,
    request: WCompRequest,
    events: Seq<WCompEvent>,
    n: nat,
)
    ensures
        performed(v, request).next_serial == v.next_serial,
        performed(v, request).pending == v.pending,
        settled_all(v, events, n).next_serial == v.next_serial,
        settled_all(v, events, n).pending == v.pending,
    decreases n,
{
    reveal(performed);
    reveal(settled);
    if n > 0 && n <= events.len() {
        lemma_counter_kept(v, request, events, (n - 1) as nat);
    }
}

/// Everything that `request` reports, before serials are given: what the
/// manager it concerns reports, then what following up on that reports.
pub open spec fn reported(v: GeometryView, request: WCompRequest) -> Seq<WCompEvent> {
    let first = performed_events(v, request);
    first + settle_all_events(performed(v, request), first, first.len())
}

/// The manager after `request`.
pub open spec fn applied(v: GeometryView, request: WCompRequest) -> GeometryView {
    let first = performed_events(v, request);
    GeometryView {
        next_serial: wrap_u32(v.next_serial + reported(v, request).len()),
        ..settled_all(performed(v, request), first, first.len())
    }
}

/// The events of `request`: everything it reports, under serials that
/// count up from the manager's next serial.
pub open spec fn emitted(v: GeometryView, request: WCompRequest) -> Seq<WCompEvent> {
    stamped(reported(v, request), v.next_serial)
}

/// Whether what `request` brings is well formed.
pub open spec fn wcomp_request_wf(request: WCompRequest) -> bool {
    request matches WCompRequest::Surface { request } ==> request_wf(request)
}

/// Whether the surfaces and the outputs of the model are well formed.
pub open spec fn geometry_wf(v: GeometryView) -> bool {
    &&& v.surfaces.wf()
    &&& crate::output_manager::laid_out(v.outputs)
}

/// The request that [`GeometryManager::add_seat`] makes.
pub open spec fn add_seat_request(id: usize, name: String) -> WCompRequest {
    WCompRequest::Seat { request: SeatRequest::Added { id, name } }
}

/// The request that [`GeometryManager::del_seat`] makes.
pub open spec fn del_seat_request(id: usize) -> WCompRequest {
    WCompRequest::Seat { request: SeatRequest::Removed { id } }
}

/// The request that [`GeometryManager::add_keyboard`] makes.
pub open spec fn add_keyboard_request(id: usize, rate: i32, delay: i32) -> WCompRequest {
    WCompRequest::Seat {
        request: SeatRequest::Keyboard(KeyboardRequest::Added { id, rate, delay }),
    }
}

/// The request that [`GeometryManager::del_keyboard`] makes.
pub open spec fn del_keyboard_request(id: usize) -> WCompRequest {
    WCompRequest::Seat { request: SeatRequest::Keyboard(KeyboardRequest::Removed { id }) }
}

/// The request that [`GeometryManager::keyboard_key`] makes.
pub open spec fn keyboard_key_request(id: usize, time: u32, code: u32, key: Option<Key>, state: State) -> WCompRequest {
    WCompRequest::Seat {
        request: SeatRequest::Keyboard(KeyboardRequest::Key { id, time, code, key, state }),
    }
}

/// The request that [`GeometryManager::add_cursor`] makes.
pub open spec fn add_cursor_request(id: usize, position: Position2D, image: Option<usize>) -> WCompRequest {
    WCompRequest::Seat {
        request: SeatRequest::Cursor(CursorRequest::Added { id, position, image }),
    }
}

/// The request that [`GeometryManager::del_cursor`] makes.
pub open spec fn del_cursor_request(id: usize) -> WCompRequest {
    WCompRequest::Seat { request: SeatRequest::Cursor(CursorRequest::Removed { id }) }
}

/// The request that [`GeometryManager::enter_cursor`] makes.
pub open spec fn enter_cursor_request(id: usize, output_id: usize) -> WCompRequest {
    WCompRequest::Seat {
        request: SeatRequest::Cursor(CursorRequest::Entered { id, output_id }),
    }
}

/// The request that [`GeometryManager::left_cursor`] makes.
pub open spec fn left_cursor_request(id: usize, output_id: usize) -> WCompRequest {
    WCompRequest::Seat {
        request: SeatRequest::Cursor(CursorRequest::Left { id, output_id }),
    }
}

/// The request that [`GeometryManager::move_cursor`] makes.
pub open spec fn move_cursor_request(id: usize, position: Position2D) -> WCompRequest {
    WCompRequest::Seat { request: SeatRequest::Cursor(CursorRequest::Moved { id, position }) }
}

/// The request that [`GeometryManager::cursor_button`] makes.
pub open spec fn cursor_button_request(id: usize, time: u32, code: u32, key: Option<Button>, state: State) -> WCompRequest {
    WCompRequest::Seat {
        request: SeatRequest::Cursor(CursorRequest::Button { id, time, code, key, state }),
    }
}

/// The request that [`GeometryManager::cursor_axis`] makes.
pub open spec fn cursor_axis_request(id: usize, time: u32, source: AxisSource, direction: AxisDirection, value: AxisValue) -> WCompRequest {
    WCompRequest::Seat {
        request: SeatRequest::Cursor(
            CursorRequest::Axis { id, time, source, direction, value },
        ),
    }
}

/// The request that [`GeometryManager::add_output`] makes.
pub open spec fn add_output_request(id: usize, handle: RenderSurface, size: Size2D) -> WCompRequest {
    WCompRequest::Output { request: OutputRequest::Added { id, handle, size } }
}

/// The request that [`GeometryManager::del_output`] makes.
pub open spec fn del_output_request(id: usize) -> WCompRequest {
    WCompRequest::Output { request: OutputRequest::Removed { id } }
}

/// The request that [`GeometryManager::resize_output`] makes.
pub open spec fn resize_output_request(id: usize, size: Size2D) -> WCompRequest {
    WCompRequest::Output { request: OutputRequest::Resized { id, size } }
}

/// The request that [`GeometryManager::add_surface`] makes.
pub open spec fn add_surface_request(id: usize, kind: SurfaceKind, position: Position2D) -> WCompRequest {
    WCompRequest::Surface { request: SurfaceRequest::Add { id, kind, position } }
}

/// The request that [`GeometryManager::del_surface`] makes.
pub open spec fn del_surface_request(id: usize) -> WCompRequest {
    WCompRequest::Surface { request: SurfaceRequest::Remove { id } }
}

/// The request that [`GeometryManager::interactive_resize_start`] makes.
pub open spec fn interactive_resize_start_request(id: usize, serial: u32, edge: ResizeEdge) -> WCompRequest {
    WCompRequest::Surface {
        request: SurfaceRequest::InteractiveResizeStart { id, serial, edge },
    }
}

/// The request that [`GeometryManager::interactive_resize_end`] makes.
pub open spec fn interactive_resize_end_request(id: usize, serial: u32) -> WCompRequest {
    WCompRequest::Surface { request: SurfaceRequest::InteractiveResizeStop { id, serial } }
}

/// The request that [`GeometryManager::resize_surface`] makes.
pub open spec fn resize_surface_request(id: usize, size: Size2D) -> WCompRequest {
    WCompRequest::Surface { request: SurfaceRequest::Resize { id, size } }
}

/// The request that [`GeometryManager::maximize_surface`] makes.
pub open spec fn maximize_surface_request(id: usize) -> WCompRequest {
    WCompRequest::Surface { request: SurfaceRequest::Maximize { id } }
}

/// The request that [`GeometryManager::unmaximize_surface`] makes.
pub open spec fn unmaximize_surface_request(id: usize) -> WCompRequest {
    WCompRequest::Surface { request: SurfaceRequest::Unmaximize { id } }
}

/// The request that [`GeometryManager::interactive_resize_surface`] makes.
pub open spec fn interactive_resize_surface_request(id: usize, serial: u32, inner_size: Size2D) -> WCompRequest {
    WCompRequest::Surface {
        request: SurfaceRequest::InteractiveResize { id, serial, inner_size },
    }
}

/// The request that [`GeometryManager::configure_surface`] makes.
pub open spec fn configure_surface_request(id: usize, inner_geometry: Option<Rectangle>, min_size: Size2D, max_size: Size2D) -> WCompRequest {
    WCompRequest::Surface {
        request: SurfaceRequest::Configuration {
            id,
            geometry: inner_geometry,
            min_size,
            max_size,
        },
    }
}

/// The request that [`GeometryManager::move_surface`] makes.
pub open spec fn move_surface_request(id: usize, position: Position2D) -> WCompRequest {
    WCompRequest::Surface { request: SurfaceRequest::Move { id, position } }
}

/// The request that [`GeometryManager::attach_buffer`] makes.
pub open spec fn attach_buffer_request(id: usize, handle: WlBuffer, inner_geometry: Rectangle, suggested_size: Size2D) -> WCompRequest {
    WCompRequest::Surface {
        request: SurfaceRequest::AttachBuffer { id, handle, inner_geometry, size: suggested_size },
    }
}

/// The request that [`GeometryManager::detach_buffer`] makes.
pub open spec fn detach_buffer_request(id: usize) -> WCompRequest {
    WCompRequest::Surface { request: SurfaceRequest::DetachBuffer { id } }
}

/// The request that [`GeometryManager::commit_surface`] makes.
pub open spec fn commit_surface_request(id: usize) -> WCompRequest {
    WCompRequest::Surface { request: SurfaceRequest::Commit { id } }
}

/// The point of the compositor space that lies at `position` on the first
/// output with this id.
pub open spec fn absolute(outputs: Seq<Output>, id: usize, position: Position2D) -> Option<
    Position2D,
> {
    match first_where(outputs, crate::output_manager::is_output(id)) {
        Some(i) => Some(
            Position2D {
                x: crate::geometry::wrap_i32(outputs[i].geometry.position.x + position.x),
                y: crate::geometry::wrap_i32(outputs[i].geometry.position.y + position.y),
            },
        ),
        None => None,
    }
}

/// The point of the compositor space that lies at `position` on the output
/// that the pointer of the seat with this id is on.
pub open spec fn pointer_absolute(v: GeometryView, id: usize, position: Position2D) -> Option<
    Position2D,
> {
    match cursor_of(v.seats, id) {
        Some(cursor) => match cursor.output {
            Some(output_id) => absolute(v.outputs, output_id, position),
            None => None,
        },
        None => None,
    }
}

/// The manager after the first `n` of `requests`, in order.
pub open spec fn applied_all(v: GeometryView, requests: Seq<WCompRequest>, n: nat) -> GeometryView
    decreases n,
{
    if n == 0 || n > requests.len() {
        v
    } else {
        applied(applied_all(v, requests, (n - 1) as nat), requests[n - 1])
    }
}

/// The events of the first `n` of `requests`, in order.
pub open spec fn emitted_all(v: GeometryView, requests: Seq<WCompRequest>, n: nat) -> Seq<
    WCompEvent,
>
    decreases n,
{
    if n == 0 || n > requests.len() {
        Seq::empty()
    } else {
        emitted_all(v, requests, (n - 1) as nat) + emitted(
            applied_all(v, requests, (n - 1) as nat),
            requests[n - 1],
        )
    }
}

/// Seat events as events of the compositor, not yet under a serial.
fn from_seats(events: Vec<SeatEvent>) -> (r: Vec<WCompEvent>)
    ensures
        r@ == of_seats(events@),
{
    let mut out: Vec<WCompEvent> = Vec::new();
    for event in it: events
        invariant
            out@.len() == it.index(),
            forall|k: int|
                0 <= k < out@.len() ==> out@[k] == (WCompEvent::Seat {
                    serial: 0,
                    event: it.seq()[k],
                }),
    {
        out.push(WCompEvent::Seat { serial: 0, event });
    }
    assert(out@ =~= of_seats(events@));
    out
}

/// Surface events as events of the compositor, not yet under a serial.
fn from_surfaces(events: Vec<SurfaceEvent>) -> (r: Vec<WCompEvent>)
    ensures
        r@ == of_surfaces(events@),
{
    let mut out: Vec<WCompEvent> = Vec::new();
    for event in it: events
        invariant
            out@.len() == it.index(),
            forall|k: int|
                0 <= k < out@.len() ==> out@[k] == (WCompEvent::Surface {
                    serial: 0,
                    event: it.seq()[k],
                }),
    {
        out.push(WCompEvent::Surface { serial: 0, event });
    }
    assert(out@ =~= of_surfaces(events@));
    out
}

/// Output events as events of the compositor, not yet under a serial.
fn from_outputs(events: Vec<OutputEvent>) -> (r: Vec<WCompEvent>)
    ensures
        r@ == of_outputs(events@),
{
    let mut out: Vec<WCompEvent> = Vec::new();
    for event in it: events
        invariant
            out@.len() == it.index(),
            forall|k: int|
                0 <= k < out@.len() ==> out@[k] == (WCompEvent::Output {
                    serial: 0,
                    event: it.seq()[k],
                }),
    {
        out.push(WCompEvent::Output { serial: 0, event });
    }
    assert(out@ =~= of_outputs(events@));
    out
}

/// Keeps the seats, the surfaces and the outputs of the compositor, and
/// counts the serials of its events.
#[derive(Debug)]
pub struct GeometryManager {
    seat_manager: SeatManager,
    surface_manager: SurfaceManager,
    output_manager: OutputManager,
    events: Vec<WCompRequest>,
    next_serial: u32,
}

impl View for GeometryManager {
    type V = GeometryView;

    closed spec fn view(&self) -> GeometryView {
        GeometryView {
            seats: self.seat_manager@,
            surfaces: self.surface_manager@,
            outputs: self.output_manager@,
            pending: self.events@,
            next_serial: self.next_serial,
        }
    }
}

impl GeometryManager {
    /// The surfaces and the outputs are well formed.
    pub open spec fn wf(&self) -> bool {
        geometry_wf(self@)
    }

    /// A manager without seats, surfaces or outputs, whose first event has
    /// the serial 0.
    pub fn new() -> (r: Self)
        ensures
            r@.seats == Seq::<Seat>::empty(),
            r@.surfaces.surfaces == Seq::<SurfaceView>::empty(),
            r@.surfaces.cursor_surfaces == Seq::<SurfaceView>::empty(),
            r@.surfaces.border_grace == 10,
            r@.surfaces.active_surface is None,
            r@.outputs == Seq::<Output>::empty(),
            r@.pending == Seq::<WCompRequest>::empty(),
            r@.next_serial == 0,
            r.wf(),
    {
        Self {
            seat_manager: SeatManager::new(),
            surface_manager: SurfaceManager::new(),
            output_manager: OutputManager::new(),
            events: Vec::new(),
            next_serial: 0,
        }
    }

    /// Takes the requests that wait.
    pub fn events(&mut self) -> (r: Vec<WCompRequest>)
        ensures
            r@ == old(self)@.pending,
            final(self)@ == (GeometryView { pending: Seq::empty(), ..old(self)@ }),
    {
        let mut taken: Vec<WCompRequest> = Vec::new();
        taken.append(&mut self.events);
        taken
    }

    /// Hands `request` to the manager it concerns.
    fn perform(&mut self, request: WCompRequest) -> (events: Vec<WCompEvent>)
        ensures
            final(self)@ == performed(old(self)@, request),
            events@ == performed_events(old(self)@, request),
            old(self).wf() && wcomp_request_wf(request) ==> final(self).wf(),
    {
        proof {
            reveal(performed);
            reveal(performed_events);
        }
        match request {
            WCompRequest::Seat { request } => {
                match request {
                    SeatRequest::Cursor(CursorRequest::Button { id, time, code, key, state }) => {
                        let focus = match self.seat_manager.cursor_ref(id) {
                            Some(cursor) => {
                                let position = cursor.position;
                                match self.surface_manager.get_surface_at(&position) {
                                    Some(surface) => Some(surface.id()),
                                    None => None,
                                }
                            },
                            None => None,
                        };
                        let mut events = self.seat_manager.cursor_button(
                            id,
                            time,
                            code,
                            key,
                            state,
                        );
                        let mut turned = self.seat_manager.keyboard_focus(id, focus);
                        events.append(&mut turned);
                        from_seats(events)
                    },
                    _ => from_seats(self.seat_manager.handle(request)),
                }
            },
            WCompRequest::Surface { request } => from_surfaces(
                self.surface_manager.handle(request),
            ),
            WCompRequest::Output { request } => from_outputs(self.output_manager.handle(request)),
        }
    }

    /// Follows up on `event`.
    fn settle(&mut self, event: &WCompEvent) -> (events: Vec<WCompEvent>)
        ensures
            final(self)@ == settled(old(self)@, *event),
            events@ == settle_events(old(self)@, *event),
            old(self).wf() ==> final(self).wf(),
    {
        proof {
            reveal(settled);
            reveal(settle_events);
        }
        match event {
            WCompEvent::Seat {
                event: SeatEvent::Keyboard(KeyboardEvent::Focus { surface, .. }),
                ..
            } => from_surfaces(self.surface_manager.focus_surface(*surface)),
            WCompEvent::Seat {
                event: SeatEvent::Cursor(CursorEvent::Moved { id, position }),
                ..
            } => {
                let focus = match self.surface_manager.get_surface_at(position) {
                    Some(surface) => Some(surface.id()),
                    None => None,
                };
                from_seats(self.seat_manager.focus_cursor(*id, focus))
            },
            WCompEvent::Surface { event: SurfaceEvent::Maximized { id }, .. } => {
                let position = match self.surface_manager.surface_ref(*id) {
                    Some(surface) => Some(surface.position),
                    None => None,
                };
                let covered = match position {
                    Some(position) => match self.output_manager.get_output_at(&position) {
                        Some(output) => Some(output.geometry),
                        None => None,
                    },
                    None => None,
                };
                match covered {
                    Some(geometry) => {
                        let mut events = self.surface_manager.move_surface(*id, geometry.position);
                        let mut asked = self.surface_manager.resize_surface(*id, geometry.size);
                        events.append(&mut asked);
                        from_surfaces(events)
                    },
                    None => Vec::new(),
                }
            },
            _ => Vec::new(),
        }
    }

    /// Follows up on each of `events`, in order.
    fn postprocess_events(&mut self, events: &Vec<WCompEvent>) -> (additional: Vec<WCompEvent>)
        ensures
            final(self)@ == settled_all(old(self)@, events@, events@.len()),
            additional@ == settle_all_events(old(self)@, events@, events@.len()),
            old(self).wf() ==> final(self).wf(),
    {
        let mut additional: Vec<WCompEvent> = Vec::new();
        let mut i: usize = 0;
        while i < events.len()
            invariant
                i <= events@.len(),
                self@ == settled_all(old(self)@, events@, i as nat),
                additional@ == settle_all_events(old(self)@, events@, i as nat),
                old(self).wf() ==> self.wf(),
            decreases events@.len() - i,
        {
            let mut more = self.settle(&events[i]);
            additional.append(&mut more);
            i = i + 1;
        }
        additional
    }

    /// Puts `events` under serials that count up from the next serial.
    fn stamp(&mut self, events: &mut Vec<WCompEvent>)
        ensures
            final(events)@ == stamped(old(events)@, old(self)@.next_serial),
            final(self)@ == (GeometryView {
                next_serial: wrap_u32(old(self)@.next_serial + old(events)@.len()),
                ..old(self)@
            }),
    {
        let mut i: usize = 0;
        while i < events.len()
            invariant
                i <= events@.len(),
                events@.len() == old(events)@.len(),
                self@ == (GeometryView {
                    next_serial: wrap_u32(old(self)@.next_serial + i),
                    ..old(self)@
                }),
                forall|k: int|
                    0 <= k < i ==> events@[k] == #[trigger] stamped(
                        old(events)@,
                        old(self)@.next_serial,
                    )[k],
                forall|k: int| i <= k < events@.len() ==> events@[k] == old(events)@[k],
            decreases events@.len() - i,
        {
            let serial = self.next_serial;
            events[i].set_serial(serial);
            self.next_serial = serial.wrapping_add(1);
            proof {
                lemma_wrap_absorb(old(self)@.next_serial + i, 1);
            }
            i = i + 1;
        }
        assert(events@ =~= stamped(old(events)@, old(self)@.next_serial));
    }

    /// Does what `request` asks, follows up on what was reported, and gives
    /// back every event under its serial.
    pub fn apply(&mut self, request: WCompRequest) -> (events: Vec<WCompEvent>)
        ensures
            final(self)@ == applied(old(self)@, request),
            events@ == emitted(old(self)@, request),
            old(self).wf() && wcomp_request_wf(request) ==> final(self).wf(),
    {
        let mut events = self.perform(request);
        let ghost first = events@;
        let mut additional = self.postprocess_events(&events);
        events.append(&mut additional);
        proof {
            lemma_counter_kept(old(self)@, request, first, first.len());
            lemma_counter_kept(performed(old(self)@, request), request, first, first.len());
            assert(events@ == reported(old(self)@, request));
        }
        self.stamp(&mut events);
        events
    }
    /// Adds a seat without devices.
    pub fn add_seat(&mut self, id: usize, name: String) -> (events: Vec<WCompEvent>)
        ensures
            final(self)@ == applied(old(self)@, add_seat_request(id, name)),
            events@ == emitted(old(self)@, add_seat_request(id, name)),
            old(self).wf() ==> final(self).wf(),
    {
        self.apply(
            WCompRequest::Seat { request: SeatRequest::Added { id, name } },
        )
    }

    /// Drops the seat with this id.
    pub fn del_seat(&mut self, id: usize) -> (events: Vec<WCompEvent>)
        ensures
            final(self)@ == applied(old(self)@, del_seat_request(id)),
            events@ == emitted(old(self)@, del_seat_request(id)),
            old(self).wf() ==> final(self).wf(),
    {
        self.apply(
            WCompRequest::Seat { request: SeatRequest::Removed { id } },
        )
    }

    /// Gives the seat with this id a keyboard.
    pub fn add_keyboard(&mut self, id: usize, rate: i32, delay: i32) -> (events: Vec<WCompEvent>)
        ensures
            final(self)@ == applied(old(self)@, add_keyboard_request(id, rate, delay)),
            events@ == emitted(old(self)@, add_keyboard_request(id, rate, delay)),
            old(self).wf() ==> final(self).wf(),
    {
        self.apply(
            WCompRequest::Seat {
                request: SeatRequest::Keyboard(KeyboardRequest::Added { id, rate, delay }),
            },
        )
    }

    /// Takes the keyboard from the seat with this id.
    pub fn del_keyboard(&mut self, id: usize) -> (events: Vec<WCompEvent>)
        ensures
            final(self)@ == applied(old(self)@, del_keyboard_request(id)),
            events@ == emitted(old(self)@, del_keyboard_request(id)),
            old(self).wf() ==> final(self).wf(),
    {
        self.apply(
            WCompRequest::Seat { request: SeatRequest::Keyboard(KeyboardRequest::Removed { id }) },
        )
    }

    /// Passes on a key of the keyboard of the seat with this id.
    pub fn keyboard_key(&mut self, id: usize, time: u32, code: u32, key: Option<Key>, state: State) -> (events: Vec<WCompEvent>)
        ensures
            final(self)@ == applied(old(self)@, keyboard_key_request(id, time, code, key, state)),
            events@ == emitted(old(self)@, keyboard_key_request(id, time, code, key, state)),
            old(self).wf() ==> final(self).wf(),
    {
        self.apply(
            WCompRequest::Seat {
                request: SeatRequest::Keyboard(KeyboardRequest::Key { id, time, code, key, state }),
            },
        )
    }

    /// Gives the seat with this id a pointer at `position`.
    pub fn add_cursor(&mut self, id: usize, position: Position2D, image: Option<usize>) -> (events: Vec<WCompEvent>)
        ensures
            final(self)@ == applied(old(self)@, add_cursor_request(id, position, image)),
            events@ == emitted(old(self)@, add_cursor_request(id, position, image)),
            old(self).wf() ==> final(self).wf(),
    {
        self.apply(
            WCompRequest::Seat {
                request: SeatRequest::Cursor(CursorRequest::Added { id, position, image }),
            },
        )
    }

    /// Takes the pointer from the seat with this id.
    pub fn del_cursor(&mut self, id: usize) -> (events: Vec<WCompEvent>)
        ensures
            final(self)@ == applied(old(self)@, del_cursor_request(id)),
            events@ == emitted(old(self)@, del_cursor_request(id)),
            old(self).wf() ==> final(self).wf(),
    {
        self.apply(
            WCompRequest::Seat { request: SeatRequest::Cursor(CursorRequest::Removed { id }) },
        )
    }

    /// Records that the pointer of the seat with this id is on the output
    /// `output_id`.
    pub fn enter_cursor(&mut self, id: usize, output_id: usize) -> (events: Vec<WCompEvent>)
        ensures
            final(self)@ == applied(old(self)@, enter_cursor_request(id, output_id)),
            events@ == emitted(old(self)@, enter_cursor_request(id, output_id)),
            old(self).wf() ==> final(self).wf(),
    {
        self.apply(
            WCompRequest::Seat {
                request: SeatRequest::Cursor(CursorRequest::Entered { id, output_id }),
            },
        )
    }

    /// Reports that the pointer of the seat with this id left the output
    /// `output_id`.
    pub fn left_cursor(&mut self, id: usize, output_id: usize) -> (events: Vec<WCompEvent>)
        ensures
            final(self)@ == applied(old(self)@, left_cursor_request(id, output_id)),
            events@ == emitted(old(self)@, left_cursor_request(id, output_id)),
            old(self).wf() ==> final(self).wf(),
    {
        self.apply(
            WCompRequest::Seat {
                request: SeatRequest::Cursor(CursorRequest::Left { id, output_id }),
            },
        )
    }

    /// Puts the pointer of the seat with this id at `position`; the pointer
    /// is then over the surface under it.
    pub fn move_cursor(&mut self, id: usize, position: Position2D) -> (events: Vec<WCompEvent>)
        ensures
            final(self)@ == applied(old(self)@, move_cursor_request(id, position)),
            events@ == emitted(old(self)@, move_cursor_request(id, position)),
            old(self).wf() ==> final(self).wf(),
    {
        self.apply(
            WCompRequest::Seat { request: SeatRequest::Cursor(CursorRequest::Moved { id, position }) },
        )
    }

    /// Passes on a button of the pointer of the seat with this id; the
    /// keyboard of the seat turns to the surface under the pointer, which
    /// becomes the active one.
    pub fn cursor_button(&mut self, id: usize, time: u32, code: u32, key: Option<Button>, state: State) -> (events: Vec<WCompEvent>)
        ensures
            final(self)@ == applied(old(self)@, cursor_button_request(id, time, code, key, state)),
            events@ == emitted(old(self)@, cursor_button_request(id, time, code, key, state)),
            old(self).wf() ==> final(self).wf(),
    {
        self.apply(
            WCompRequest::Seat {
                request: SeatRequest::Cursor(CursorRequest::Button { id, time, code, key, state }),
            },
        )
    }

    /// Passes on a scroll of the pointer of the seat with this id.
    pub fn cursor_axis(&mut self, id: usize, time: u32, source: AxisSource, direction: AxisDirection, value: AxisValue) -> (events: Vec<WCompEvent>)
        ensures
            final(self)@ == applied(old(self)@, cursor_axis_request(id, time, source, direction, value)),
            events@ == emitted(old(self)@, cursor_axis_request(id, time, source, direction, value)),
            old(self).wf() ==> final(self).wf(),
    {
        self.apply(
            WCompRequest::Seat {
                request: SeatRequest::Cursor(
                    CursorRequest::Axis { id, time, source, direction, value },
                ),
            },
        )
    }

    /// Adds an output right of the last one.
    pub fn add_output(&mut self, id: usize, handle: RenderSurface, size: Size2D) -> (events: Vec<WCompEvent>)
        ensures
            final(self)@ == applied(old(self)@, add_output_request(id, handle, size)),
            events@ == emitted(old(self)@, add_output_request(id, handle, size)),
            old(self).wf() ==> final(self).wf(),
    {
        self.apply(
            WCompRequest::Output { request: OutputRequest::Added { id, handle, size } },
        )
    }

    /// Drops the output with this id and closes the gap.
    pub fn del_output(&mut self, id: usize) -> (events: Vec<WCompEvent>)
        ensures
            final(self)@ == applied(old(self)@, del_output_request(id)),
            events@ == emitted(old(self)@, del_output_request(id)),
            old(self).wf() ==> final(self).wf(),
    {
        self.apply(
            WCompRequest::Output { request: OutputRequest::Removed { id } },
        )
    }

    /// Gives the output with this id the size `size`; the outputs right of
    /// it follow.
    pub fn resize_output(&mut self, id: usize, size: Size2D) -> (events: Vec<WCompEvent>)
        ensures
            final(self)@ == applied(old(self)@, resize_output_request(id, size)),
            events@ == emitted(old(self)@, resize_output_request(id, size)),
            old(self).wf() ==> final(self).wf(),
    {
        self.apply(
            WCompRequest::Output { request: OutputRequest::Resized { id, size } },
        )
    }

    /// Adds a surface: a toplevel at the front of the stack, a popup to its
    /// parent.
    pub fn add_surface(&mut self, id: usize, kind: SurfaceKind, position: Position2D) -> (events: Vec<WCompEvent>)
        ensures
            final(self)@ == applied(old(self)@, add_surface_request(id, kind, position)),
            events@ == emitted(old(self)@, add_surface_request(id, kind, position)),
            old(self).wf() && kind.wf() ==> final(self).wf(),
    {
        self.apply(
            WCompRequest::Surface { request: SurfaceRequest::Add { id, kind, position } },
        )
    }

    /// Takes away the surface with this id.
    pub fn del_surface(&mut self, id: usize) -> (events: Vec<WCompEvent>)
        ensures
            final(self)@ == applied(old(self)@, del_surface_request(id)),
            events@ == emitted(old(self)@, del_surface_request(id)),
            old(self).wf() ==> final(self).wf(),
    {
        self.apply(
            WCompRequest::Surface { request: SurfaceRequest::Remove { id } },
        )
    }

    /// Starts an interactive resize on the surface with this id.
    pub fn interactive_resize_start(&mut self, id: usize, serial: u32, edge: ResizeEdge) -> (events: Vec<WCompEvent>)
        ensures
            final(self)@ == applied(old(self)@, interactive_resize_start_request(id, serial, edge)),
            events@ == emitted(old(self)@, interactive_resize_start_request(id, serial, edge)),
            old(self).wf() ==> final(self).wf(),
    {
        self.apply(
            WCompRequest::Surface {
                request: SurfaceRequest::InteractiveResizeStart { id, serial, edge },
            },
        )
    }

    /// Stops the interactive resize on the surface with this id.
    pub fn interactive_resize_end(&mut self, id: usize, serial: u32) -> (events: Vec<WCompEvent>)
        ensures
            final(self)@ == applied(old(self)@, interactive_resize_end_request(id, serial)),
            events@ == emitted(old(self)@, interactive_resize_end_request(id, serial)),
            old(self).wf() ==> final(self).wf(),
    {
        self.apply(
            WCompRequest::Surface { request: SurfaceRequest::InteractiveResizeStop { id, serial } },
        )
    }

    /// Asks the client of the surface with this id for the size `size`.
    pub fn resize_surface(&mut self, id: usize, size: Size2D) -> (events: Vec<WCompEvent>)
        ensures
            final(self)@ == applied(old(self)@, resize_surface_request(id, size)),
            events@ == emitted(old(self)@, resize_surface_request(id, size)),
            old(self).wf() ==> final(self).wf(),
    {
        self.apply(
            WCompRequest::Surface { request: SurfaceRequest::Resize { id, size } },
        )
    }

    /// Maximizes the surface with this id: it goes to the origin of the
    /// output that shows its position, and its client is asked for the size
    /// of that output.
    pub fn maximize_surface(&mut self, id: usize) -> (events: Vec<WCompEvent>)
        ensures
            final(self)@ == applied(old(self)@, maximize_surface_request(id)),
            events@ == emitted(old(self)@, maximize_surface_request(id)),
            old(self).wf() ==> final(self).wf(),
    {
        self.apply(
            WCompRequest::Surface { request: SurfaceRequest::Maximize { id } },
        )
    }

    /// Clears the maximized flag of the surface with this id.
    pub fn unmaximize_surface(&mut self, id: usize) -> (events: Vec<WCompEvent>)
        ensures
            final(self)@ == applied(old(self)@, unmaximize_surface_request(id)),
            events@ == emitted(old(self)@, unmaximize_surface_request(id)),
            old(self).wf() ==> final(self).wf(),
    {
        self.apply(
            WCompRequest::Surface { request: SurfaceRequest::Unmaximize { id } },
        )
    }

    /// Makes one step of the interactive resize on the surface with this id.
    pub fn interactive_resize_surface(&mut self, id: usize, serial: u32, inner_size: Size2D) -> (events: Vec<WCompEvent>)
        ensures
            final(self)@ == applied(old(self)@, interactive_resize_surface_request(id, serial, inner_size)),
            events@ == emitted(old(self)@, interactive_resize_surface_request(id, serial, inner_size)),
            old(self).wf() ==> final(self).wf(),
    {
        self.apply(
            WCompRequest::Surface {
                request: SurfaceRequest::InteractiveResize { id, serial, inner_size },
            },
        )
    }

    /// Takes over what the client of the surface with this id acknowledged.
    pub fn configure_surface(&mut self, id: usize, inner_geometry: Option<Rectangle>, min_size: Size2D, max_size: Size2D) -> (events: Vec<WCompEvent>)
        ensures
            final(self)@ == applied(old(self)@, configure_surface_request(id, inner_geometry, min_size, max_size)),
            events@ == emitted(old(self)@, configure_surface_request(id, inner_geometry, min_size, max_size)),
            old(self).wf() ==> final(self).wf(),
    {
        self.apply(
            WCompRequest::Surface {
                request: SurfaceRequest::Configuration {
                    id,
                    geometry: inner_geometry,
                    min_size,
                    max_size,
                },
            },
        )
    }

    /// Moves the surface with this id to `position`.
    pub fn move_surface(&mut self, id: usize, position: Position2D) -> (events: Vec<WCompEvent>)
        ensures
            final(self)@ == applied(old(self)@, move_surface_request(id, position)),
            events@ == emitted(old(self)@, move_surface_request(id, position)),
            old(self).wf() ==> final(self).wf(),
    {
        self.apply(
            WCompRequest::Surface { request: SurfaceRequest::Move { id, position } },
        )
    }

    /// Attaches a buffer to the surface with this id.
    pub fn attach_buffer(&mut self, id: usize, handle: WlBuffer, inner_geometry: Rectangle, suggested_size: Size2D) -> (events: Vec<WCompEvent>)
        ensures
            final(self)@ == applied(old(self)@, attach_buffer_request(id, handle, inner_geometry, suggested_size)),
            events@ == emitted(old(self)@, attach_buffer_request(id, handle, inner_geometry, suggested_size)),
            old(self).wf() ==> final(self).wf(),
    {
        self.apply(
            WCompRequest::Surface {
                request: SurfaceRequest::AttachBuffer { id, handle, inner_geometry, size: suggested_size },
            },
        )
    }

    /// Takes the buffer from the surface with this id.
    pub fn detach_buffer(&mut self, id: usize) -> (events: Vec<WCompEvent>)
        ensures
            final(self)@ == applied(old(self)@, detach_buffer_request(id)),
            events@ == emitted(old(self)@, detach_buffer_request(id)),
            old(self).wf() ==> final(self).wf(),
    {
        self.apply(
            WCompRequest::Surface { request: SurfaceRequest::DetachBuffer { id } },
        )
    }

    /// Reports that the surface with this id was committed.
    pub fn commit_surface(&mut self, id: usize) -> (events: Vec<WCompEvent>)
        ensures
            final(self)@ == applied(old(self)@, commit_surface_request(id)),
            events@ == emitted(old(self)@, commit_surface_request(id)),
            old(self).wf() ==> final(self).wf(),
    {
        self.apply(
            WCompRequest::Surface { request: SurfaceRequest::Commit { id } },
        )
    }

    /// The surface under `position`.
    pub fn get_surface_at(&self, position: &Position2D) -> (r: Option<&Surface>)
        ensures
            match r {
                Some(surface) => surface_at(
                    self@.surfaces.surfaces,
                    self@.surfaces.border_grace,
                    *position,
                ) == Some(surface@),
                None => surface_at(
                    self@.surfaces.surfaces,
                    self@.surfaces.border_grace,
                    *position,
                ) is None,
            },
    {
        self.surface_manager.get_surface_at(position)
    }

    /// The pointer of the seat with this id.
    pub fn cursor_ref(&self, id: usize) -> (r: Option<&Cursor>)
        ensures
            match r {
                Some(cursor) => cursor_of(self@.seats, id) == Some(*cursor),
                None => cursor_of(self@.seats, id) is None,
            },
    {
        self.seat_manager.cursor_ref(id)
    }

    /// The point of the compositor space that lies at `position` on the
    /// output with this id.
    pub fn relative_to_absolute(&self, output_id: usize, position: Position2D) -> (r: Option<
        Position2D,
    >)
        ensures
            r == absolute(self@.outputs, output_id, position),
    {
        self.output_manager.relative_to_absolute(output_id, position)
    }

    /// The point of the compositor space that lies at `position` on the
    /// output that the pointer of the seat with this id is on. `None`
    /// where the seat has no pointer, the pointer is on no output, or the
    /// output is not known.
    pub fn relative_move_cursor(&self, id: usize, position: Position2D) -> (r: Option<
        Position2D,
    >)
        ensures
            r == pointer_absolute(self@, id, position),
    {
        match self.seat_manager.cursor_ref(id) {
            Some(cursor) => match cursor.output {
                Some(output_id) => self.output_manager.relative_to_absolute(output_id, position),
                None => None,
            },
            None => None,
        }
    }

    /// The size for a new surface.
    pub fn get_surface_optimal_size(&self) -> (r: Size2D)
        ensures
            r == crate::output_manager::optimal_size(self@.outputs),
    {
        self.output_manager.get_surface_optimal_size()
    }

    /// The position and the depth for a new surface of size `size`.
    pub fn get_surface_optimal_position(&self, size: &Size2D) -> (r: (Position2D, u32))
        ensures
            r.0 == crate::output_manager::optimal_position(self@.outputs, *size),
            r.1 == 0,
    {
        (self.output_manager.get_surface_optimal_position(size), 0)
    }

    /// The popups of each toplevel, front first, each time followed by the
    /// toplevel, toplevels front first.
    pub fn surfaces_ref(&self) -> (r: Vec<&Surface>)
        ensures
            r@.len() == crate::surface_manager::listed(
                self@.surfaces.surfaces,
                self@.surfaces.surfaces.len(),
            ).len(),
            forall|k: int|
                0 <= k < r@.len() ==> (#[trigger] r@[k])@ == crate::surface_manager::listed(
                    self@.surfaces.surfaces,
                    self@.surfaces.surfaces.len(),
                )[k],
    {
        self.surface_manager.surfaces_ref()
    }

    /// The first surface with this id.
    pub fn surface_ref(&self, id: usize) -> (r: Option<&Surface>)
        ensures
            match r {
                Some(surface) => self@.surfaces.find(id) == Some(surface@),
                None => self@.surfaces.find(id) is None,
            },
    {
        self.surface_manager.surface_ref(id)
    }

    /// Does what each of `requests` asks, in order, and gives back all
    /// events in the order in which they came about.
    pub fn process_requests(&mut self, requests: Vec<WCompRequest>) -> (events: Vec<WCompEvent>)
        ensures
            final(self)@ == applied_all(old(self)@, requests@, requests@.len()),
            events@ == emitted_all(old(self)@, requests@, requests@.len()),
            old(self).wf() && (forall|k: int|
                0 <= k < requests@.len() ==> wcomp_request_wf(#[trigger] requests@[k]))
                ==> final(self).wf(),
    {
        let mut events: Vec<WCompEvent> = Vec::new();
        for request in it: requests
            invariant
                self@ == applied_all(old(self)@, it.seq(), it.index() as nat),
                events@ == emitted_all(old(self)@, it.seq(), it.index() as nat),
                it.seq() == requests@,
                old(self).wf() && (forall|k: int|
                    0 <= k < requests@.len() ==> wcomp_request_wf(#[trigger] requests@[k]))
                    ==> self.wf(),
        {
            let mut more = self.apply(request);
            events.append(&mut more);
        }
        events
    }
}

} // verus!
