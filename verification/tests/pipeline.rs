use wcomp::geometry::{Offset2D, Position2D, Rectangle, Size2D};
use wcomp::geometry_manager::{GeometryManager, WCompEvent, WCompRequest};
use wcomp::move_logic::MoveLogic;
use wcomp::output_manager::{OutputEvent, OutputRequest, RenderSurface};
use wcomp::platform_events::{
    process_platform_requests, startup, PlatformCursorEvent, PlatformEvent, PlatformKeyboardEvent,
    PlatformOutputEvent, PlatformRequest, PlatformSeatEvent, PlatformSurfaceEvent, PlatformType,
};
use wcomp::resize_logic::{ButtonState, GrabStartData, ResizeLogic};
use wcomp::seat_manager::{
    AxisDirection, AxisSource, AxisValue, Button, CursorEvent, CursorRequest, Key, KeyboardEvent,
    KeyboardRequest, SeatEvent, SeatRequest, State,
};
use wcomp::surface::{BufferType, SurfaceEvent, SurfaceRequest, WlBuffer};
use wcomp::surface_state::{
    Anchor, ConstraintAdjustment, Gravity, PopupState, PopupSurface, ResizeEdge, SurfaceKind,
    SurfaceState, ToplevelSurface, WlSurface,
};
use wcomp::wayland_requests::{
    process_wayland_requests, BufferAssignment, CachedState, Positioner, WaylandAction,
    WaylandRequest,
};
use wcomp::wcomp::{Pace, WComp, WCompMessage};
use wcomp::wcomp_events::{
    plan_commit, process_events, CommitPlan, Effect, KeyState, ToplevelState,
};

fn size(width: u32, height: u32) -> Size2D {
    Size2D { width, height }
}

fn at(x: i32, y: i32) -> Position2D {
    Position2D { x, y }
}

fn rect(x: i32, y: i32, width: u32, height: u32) -> Rectangle {
    Rectangle { position: at(x, y), size: size(width, height) }
}

fn handle(id: usize) -> ToplevelSurface {
    ToplevelSurface { surface: Some(WlSurface { id }) }
}

fn toplevel(id: usize) -> SurfaceKind {
    SurfaceKind::Toplevel { handle: handle(id), state: SurfaceState { altered_state: None } }
}

fn buffer(id: usize, kind: BufferType, width: u32, height: u32) -> WlBuffer {
    WlBuffer { id, kind, size: size(width, height) }
}

fn seat_event(time: u32, id: usize, event: PlatformSeatEvent) -> PlatformEvent {
    PlatformEvent::Seat { time, id, event }
}

fn seat_request(request: SeatRequest) -> WCompRequest {
    WCompRequest::Seat { request }
}

fn surface_request(request: SurfaceRequest) -> WCompRequest {
    WCompRequest::Surface { request }
}

/// An output 0 of 800 by 600, a seat 1 with keyboard and pointer on that
/// output, and a toplevel 5 at (50,50) with a 400 by 300 buffer.
fn populated() -> GeometryManager {
    let mut manager = GeometryManager::new();
    manager.add_output(0, RenderSurface { id: 0 }, size(800, 600));
    manager.add_seat(1, String::from("seat0"));
    manager.add_keyboard(1, 200, 25);
    manager.add_cursor(1, at(0, 0), None);
    manager.enter_cursor(1, 0);
    manager.add_surface(5, toplevel(5), at(50, 50));
    manager.attach_buffer(5, buffer(1, BufferType::Shm, 400, 300), rect(0, 0, 400, 300), size(400, 300));
    manager
}

#[test]
fn platform_surface_is_an_output() {
    let manager = GeometryManager::new();
    let (requests, asked) = process_platform_requests(
        &manager,
        PlatformType::Compositor,
        vec![
            PlatformEvent::Output { id: 3, event: PlatformOutputEvent::Added },
            PlatformEvent::Surface {
                id: 3,
                event: PlatformSurfaceEvent::Added {
                    surface: Some(RenderSurface { id: 8 }),
                    size: size(800, 600),
                },
            },
            PlatformEvent::Surface { id: 3, event: PlatformSurfaceEvent::Resized(size(1, 2)) },
            PlatformEvent::Surface { id: 3, event: PlatformSurfaceEvent::Removed },
            PlatformEvent::Surface {
                id: 4,
                event: PlatformSurfaceEvent::Added { surface: None, size: size(1, 1) },
            },
            PlatformEvent::Surface { id: 4, event: PlatformSurfaceEvent::Other },
            PlatformEvent::Output { id: 3, event: PlatformOutputEvent::Removed },
        ],
    );
    assert!(asked.is_empty());
    assert_eq!(
        requests,
        vec![
            WCompRequest::Output {
                request: OutputRequest::Added {
                    id: 3,
                    handle: RenderSurface { id: 8 },
                    size: size(800, 600),
                },
            },
            WCompRequest::Output { request: OutputRequest::Resized { id: 3, size: size(1, 2) } },
            WCompRequest::Output { request: OutputRequest::Removed { id: 3 } },
        ]
    );
}

#[test]
fn direct_platform_is_asked_for_a_surface_on_each_output() {
    let manager = GeometryManager::new();
    let (requests, asked) = process_platform_requests(
        &manager,
        PlatformType::Direct,
        vec![
            PlatformEvent::Output { id: 3, event: PlatformOutputEvent::Added },
            PlatformEvent::Output { id: 3, event: PlatformOutputEvent::Other },
        ],
    );
    assert!(requests.is_empty());
    assert_eq!(asked, vec![PlatformRequest::CreateSurface { output: Some(3) }]);
}

#[test]
fn startup_asks_for_two_windows_under_a_compositor() {
    assert_eq!(
        startup(PlatformType::Compositor),
        vec![
            PlatformRequest::CreateSurface { output: None },
            PlatformRequest::CreateSurface { output: None },
        ]
    );
    assert_eq!(startup(PlatformType::Direct), vec![]);
}

#[test]
fn platform_seat_events_become_seat_requests() {
    let manager = populated();
    let (requests, _) = process_platform_requests(
        &manager,
        PlatformType::Direct,
        vec![
            seat_event(1, 2, PlatformSeatEvent::Added { name: String::from("seat1") }),
            seat_event(2, 2, PlatformSeatEvent::Keyboard(PlatformKeyboardEvent::Added)),
            seat_event(
                3,
                2,
                PlatformSeatEvent::Keyboard(PlatformKeyboardEvent::Key {
                    code: 30,
                    key: Some(Key { symbol: 97 }),
                    state: State::Down,
                    serial: 77,
                    time: 1234,
                }),
            ),
            seat_event(4, 2, PlatformSeatEvent::Keyboard(PlatformKeyboardEvent::AutoRepeat { rate: 1, delay: 2 })),
            seat_event(5, 2, PlatformSeatEvent::Keyboard(PlatformKeyboardEvent::LayoutModified)),
            seat_event(6, 2, PlatformSeatEvent::Cursor(PlatformCursorEvent::Added)),
            seat_event(
                7,
                2,
                PlatformSeatEvent::Cursor(PlatformCursorEvent::Button {
                    code: 272,
                    key: Some(Button { symbol: 1 }),
                    state: State::Up,
                }),
            ),
            seat_event(
                8,
                2,
                PlatformSeatEvent::Cursor(PlatformCursorEvent::Axis {
                    source: AxisSource::Wheel,
                    direction: AxisDirection::Vertical,
                    value: AxisValue::Discrete(-1),
                }),
            ),
            seat_event(9, 2, PlatformSeatEvent::Cursor(PlatformCursorEvent::Entered { surface_id: 0, position: at(1, 1) })),
            seat_event(10, 2, PlatformSeatEvent::Cursor(PlatformCursorEvent::Left { surface_id: 0 })),
            seat_event(11, 2, PlatformSeatEvent::Cursor(PlatformCursorEvent::Other)),
            seat_event(12, 2, PlatformSeatEvent::Cursor(PlatformCursorEvent::Removed)),
            seat_event(13, 2, PlatformSeatEvent::Keyboard(PlatformKeyboardEvent::Removed)),
            seat_event(14, 2, PlatformSeatEvent::Removed),
        ],
    );
    assert_eq!(
        requests,
        vec![
            seat_request(SeatRequest::Added { id: 2, name: String::from("seat1") }),
            seat_request(SeatRequest::Keyboard(KeyboardRequest::Added { id: 2, rate: 200, delay: 25 })),
            seat_request(SeatRequest::Keyboard(KeyboardRequest::Key {
                id: 2,
                time: 1234,
                code: 30,
                key: Some(Key { symbol: 97 }),
                state: State::Down,
            })),
            // The pointer starts where a 24 by 24 surface is centred on the first output.
            seat_request(SeatRequest::Cursor(CursorRequest::Added {
                id: 2,
                position: at(388, 288),
                image: None,
            })),
            seat_request(SeatRequest::Cursor(CursorRequest::Button {
                id: 2,
                time: 7,
                code: 272,
                key: Some(Button { symbol: 1 }),
                state: State::Up,
            })),
            seat_request(SeatRequest::Cursor(CursorRequest::Axis {
                id: 2,
                time: 8,
                source: AxisSource::Wheel,
                direction: AxisDirection::Vertical,
                value: AxisValue::Discrete(-1),
            })),
            seat_request(SeatRequest::Cursor(CursorRequest::Entered { id: 2, output_id: 0 })),
            seat_request(SeatRequest::Cursor(CursorRequest::Left { id: 2, output_id: 0 })),
            seat_request(SeatRequest::Cursor(CursorRequest::Removed { id: 2 })),
            seat_request(SeatRequest::Keyboard(KeyboardRequest::Removed { id: 2 })),
            seat_request(SeatRequest::Removed { id: 2 }),
        ]
    );
}

#[test]
fn absolute_movement_is_taken_from_the_output_of_the_pointer() {
    let mut manager = GeometryManager::new();
    manager.add_output(0, RenderSurface { id: 0 }, size(800, 600));
    manager.add_output(1, RenderSurface { id: 1 }, size(800, 600));
    manager.add_seat(1, String::from("seat0"));
    manager.add_cursor(1, at(0, 0), None);
    let motion = || {
        vec![seat_event(
            0,
            1,
            PlatformSeatEvent::Cursor(PlatformCursorEvent::AbsoluteMovement { position: at(10, 20) }),
        )]
    };
    // On no output yet: the motion is dropped.
    let (requests, _) = process_platform_requests(&manager, PlatformType::Direct, motion());
    assert!(requests.is_empty());
    assert_eq!(manager.relative_move_cursor(1, at(10, 20)), None);
    manager.enter_cursor(1, 1);
    let (requests, _) = process_platform_requests(&manager, PlatformType::Direct, motion());
    assert_eq!(
        requests,
        vec![seat_request(SeatRequest::Cursor(CursorRequest::Moved { id: 1, position: at(810, 20) }))]
    );
    assert_eq!(manager.relative_to_absolute(1, at(10, 20)), Some(at(810, 20)));
    manager.enter_cursor(1, 9);
    let (requests, _) = process_platform_requests(&manager, PlatformType::Direct, motion());
    assert!(requests.is_empty());
}

#[test]
fn new_popup_is_configured_and_added() {
    let manager = populated();
    let surface = PopupSurface {
        surface: Some(WlSurface { id: 6 }),
        parent: Some(WlSurface { id: 5 }),
    };
    let positioner = Positioner {
        rect_size: size(50, 30),
        anchor_rect: rect(1, 2, 3, 4),
        anchor_edges: Anchor::Bottom,
        gravity: Gravity::Top,
        constraint_adjustment: ConstraintAdjustment { bits: 5 },
        offset: Offset2D { x: 7, y: 8 },
        reactive: true,
    };
    let mut queue = Vec::new();
    let (requests, actions) = process_wayland_requests(
        &manager,
        &mut queue,
        vec![WaylandRequest::NewPopup { surface, positioner }],
    );
    assert_eq!(actions, vec![WaylandAction::ConfigurePopup { surface, positioner }]);
    assert_eq!(
        requests,
        vec![surface_request(SurfaceRequest::Add {
            id: 6,
            kind: SurfaceKind::Popup {
                handle: surface,
                state: PopupState {
                    anchor: rect(1, 2, 3, 4),
                    anchor_edges: Anchor::Bottom,
                    gravity: Gravity::Top,
                    constraint_adjustment: ConstraintAdjustment { bits: 5 },
                    offset: Offset2D { x: 7, y: 8 },
                    reactive: true,
                },
            },
            position: at(0, 0),
        })]
    );
}

#[test]
fn dead_client_surfaces_ask_nothing() {
    let manager = populated();
    let mut queue = Vec::new();
    let (requests, actions) = process_wayland_requests(
        &manager,
        &mut queue,
        vec![
            WaylandRequest::NewToplevel { surface: ToplevelSurface { surface: None } },
            WaylandRequest::Maximize { surface: ToplevelSurface { surface: None } },
            WaylandRequest::UnMaximize { surface: ToplevelSurface { surface: None } },
            WaylandRequest::AckConfigure {
                surface: None,
                state: CachedState { geometry: None, min_size: size(0, 0), max_size: size(0, 0) },
            },
            WaylandRequest::Commit { surface: None, assignment: Some(BufferAssignment::Removed), geometry: None },
            WaylandRequest::Fullscreen,
            WaylandRequest::UnFullscreen,
            WaylandRequest::Minimize,
            WaylandRequest::Other,
        ],
    );
    assert!(requests.is_empty());
    assert_eq!(
        actions,
        vec![WaylandAction::ConfigureToplevel {
            surface: ToplevelSurface { surface: None },
            size: size(400, 300),
        }]
    );
}

#[test]
fn client_requests_become_surface_requests() {
    let manager = populated();
    let mut queue = Vec::new();
    let (requests, actions) = process_wayland_requests(
        &manager,
        &mut queue,
        vec![
            WaylandRequest::AckConfigure {
                surface: Some(WlSurface { id: 5 }),
                state: CachedState {
                    geometry: Some(rect(1, 1, 2, 2)),
                    min_size: size(3, 3),
                    max_size: size(4, 4),
                },
            },
            WaylandRequest::Maximize { surface: handle(5) },
            WaylandRequest::UnMaximize { surface: handle(5) },
            WaylandRequest::Commit {
                surface: Some(WlSurface { id: 5 }),
                assignment: Some(BufferAssignment::NewBuffer {
                    buffer: buffer(2, BufferType::Dma, 100, 50),
                }),
                geometry: Some(rect(2, 2, 96, 46)),
            },
            WaylandRequest::Commit {
                surface: Some(WlSurface { id: 5 }),
                assignment: Some(BufferAssignment::Removed),
                geometry: None,
            },
            WaylandRequest::Commit { surface: Some(WlSurface { id: 5 }), assignment: None, geometry: None },
            WaylandRequest::SurfaceRemoved { id: 5 },
        ],
    );
    assert!(actions.is_empty());
    assert!(queue.is_empty());
    assert_eq!(
        requests,
        vec![
            surface_request(SurfaceRequest::Configuration {
                id: 5,
                geometry: Some(rect(1, 1, 2, 2)),
                min_size: size(3, 3),
                max_size: size(4, 4),
            }),
            surface_request(SurfaceRequest::Maximize { id: 5 }),
            surface_request(SurfaceRequest::Unmaximize { id: 5 }),
            surface_request(SurfaceRequest::AttachBuffer {
                id: 5,
                handle: buffer(2, BufferType::Dma, 100, 50),
                inner_geometry: rect(2, 2, 96, 46),
                size: size(100, 50),
            }),
            surface_request(SurfaceRequest::Commit { id: 5 }),
            surface_request(SurfaceRequest::DetachBuffer { id: 5 }),
            surface_request(SurfaceRequest::Commit { id: 5 }),
            surface_request(SurfaceRequest::Commit { id: 5 }),
            surface_request(SurfaceRequest::Remove { id: 5 }),
        ]
    );
}

#[test]
fn grabs_start_from_where_the_surface_stands() {
    let manager = populated();
    let data = GrabStartData {
        focus: Some((WlSurface { id: 5 }, at(0, 0))),
        button: 272,
        location: at(60, 70),
    };
    let placed = GrabStartData { focus: Some((WlSurface { id: 5 }, at(50, 50))), ..data };
    let mut queue = Vec::new();
    let (requests, actions) = process_wayland_requests(
        &manager,
        &mut queue,
        vec![
            WaylandRequest::Move { seat: 1, start_data: Some(data), serial: 9 },
            WaylandRequest::Resize { seat: 1, start_data: Some(data), serial: 10, edges: ResizeEdge::Top },
            WaylandRequest::Move { seat: 1, start_data: None, serial: 11 },
            WaylandRequest::Resize { seat: 1, start_data: None, serial: 12, edges: ResizeEdge::Top },
        ],
    );
    assert!(requests.is_empty());
    assert_eq!(
        actions,
        vec![
            WaylandAction::SetMoveGrab { seat: 1, grab: MoveLogic { start_data: placed }, serial: 9 },
            WaylandAction::SetResizeGrab {
                seat: 1,
                grab: ResizeLogic {
                    start_data: placed,
                    id: 5,
                    serial: 10,
                    inner_geometry: rect(0, 0, 400, 300),
                    edge: ResizeEdge::Top,
                },
                serial: 10,
            },
        ]
    );
    assert_eq!(
        queue,
        vec![surface_request(SurfaceRequest::InteractiveResizeStart {
            id: 5,
            serial: 10,
            edge: ResizeEdge::Top,
        })]
    );
}

#[test]
fn resize_grab_needs_a_known_surface_with_a_buffer() {
    let mut manager = populated();
    manager.add_surface(6, toplevel(6), at(0, 0));
    let mut queue = Vec::new();
    for id in [6, 99] {
        let data = GrabStartData {
            focus: Some((WlSurface { id }, at(1, 2))),
            button: 272,
            location: at(60, 70),
        };
        let (_, actions) = process_wayland_requests(
            &manager,
            &mut queue,
            vec![
                WaylandRequest::Resize { seat: 1, start_data: Some(data), serial: 10, edges: ResizeEdge::Top },
                WaylandRequest::Move { seat: 1, start_data: Some(data), serial: 11 },
            ],
        );
        // The move grab is set all the same; an unknown surface keeps the
        // place that the protocol layer gave.
        let placed = if id == 6 { at(0, 0) } else { at(1, 2) };
        assert_eq!(
            actions,
            vec![WaylandAction::SetMoveGrab {
                seat: 1,
                grab: MoveLogic { start_data: GrabStartData { focus: Some((WlSurface { id }, placed)), ..data } },
                serial: 11,
            }]
        );
    }
    assert!(queue.is_empty());
}

#[test]
fn events_turn_into_effects() {
    let mut manager = populated();
    manager.move_cursor(1, at(60, 60));
    let events = vec![
        WCompEvent::Output {
            serial: 1,
            event: OutputEvent::Added { id: 0, handle: RenderSurface { id: 0 }, size: size(800, 600) },
        },
        WCompEvent::Output { serial: 2, event: OutputEvent::Moved { id: 0, position: at(0, 0) } },
        WCompEvent::Output { serial: 3, event: OutputEvent::Resized { id: 0, size: size(1, 2) } },
        WCompEvent::Output { serial: 4, event: OutputEvent::Removed { id: 0 } },
        WCompEvent::Seat { serial: 5, event: SeatEvent::Added { id: 1, name: String::from("s") } },
        WCompEvent::Seat {
            serial: 6,
            event: SeatEvent::Keyboard(KeyboardEvent::Added { id: 1, rate: 200, delay: 25 }),
        },
        WCompEvent::Seat {
            serial: 7,
            event: SeatEvent::Keyboard(KeyboardEvent::Focus { id: 1, surface: Some(5) }),
        },
        WCompEvent::Seat {
            serial: 8,
            event: SeatEvent::Keyboard(KeyboardEvent::Focus { id: 1, surface: Some(99) }),
        },
        WCompEvent::Seat {
            serial: 9,
            event: SeatEvent::Keyboard(KeyboardEvent::Key {
                id: 1,
                time: 3,
                code: 30,
                key: None,
                state: State::Down,
            }),
        },
        WCompEvent::Seat {
            serial: 10,
            event: SeatEvent::Cursor(CursorEvent::Added { id: 1, position: at(0, 0), image: None }),
        },
        WCompEvent::Seat {
            serial: 11,
            event: SeatEvent::Cursor(CursorEvent::Moved { id: 1, position: at(60, 60) }),
        },
        WCompEvent::Seat {
            serial: 12,
            event: SeatEvent::Cursor(CursorEvent::Button {
                id: 1,
                time: 4,
                code: 272,
                key: None,
                state: State::Up,
            }),
        },
        WCompEvent::Seat {
            serial: 13,
            event: SeatEvent::Cursor(CursorEvent::Axis {
                id: 1,
                time: 5,
                source: AxisSource::Wheel,
                direction: AxisDirection::Vertical,
                value: AxisValue::Discrete(2),
            }),
        },
        WCompEvent::Seat {
            serial: 14,
            event: SeatEvent::Cursor(CursorEvent::Focus { id: 1, surface: None }),
        },
        WCompEvent::Seat { serial: 15, event: SeatEvent::Cursor(CursorEvent::Removed { id: 1 }) },
        WCompEvent::Seat { serial: 16, event: SeatEvent::Keyboard(KeyboardEvent::Removed { id: 1 }) },
        WCompEvent::Seat { serial: 17, event: SeatEvent::Removed { id: 1 } },
    ];
    let (effects, redraw) = process_events(&manager, events);
    assert!(redraw);
    assert_eq!(
        effects,
        vec![
            Effect::CreateOutput { id: 0, handle: RenderSurface { id: 0 }, width: 800, height: 600 },
            Effect::MoveOutput { id: 0, position: at(0, 0) },
            Effect::ResizeOutput { id: 0, width: 1, height: 2 },
            Effect::DestroyOutput { id: 0 },
            Effect::CreateSeat { id: 1, name: String::from("s") },
            Effect::AddKeyboard { id: 1, rate: 200, delay: 25 },
            Effect::SetKeyboardFocus { id: 1, focus: Some(WlSurface { id: 5 }), serial: 7 },
            Effect::SetKeyboardFocus { id: 1, focus: None, serial: 8 },
            Effect::KeyboardInput { id: 1, code: 30, state: KeyState::Pressed, serial: 9, time: 3 },
            Effect::AddCursor { id: 1 },
            Effect::PointerMotion {
                id: 1,
                position: at(60, 60),
                focus: Some((WlSurface { id: 5 }, at(50, 50))),
                serial: 11,
            },
            Effect::PointerButton { id: 1, code: 272, state: ButtonState::Released, serial: 12, time: 4 },
            Effect::PointerAxis {
                id: 1,
                time: 5,
                source: AxisSource::Wheel,
                direction: AxisDirection::Vertical,
                discrete: Some(2),
            },
            Effect::DelCursor { id: 1 },
            Effect::DelKeyboard { id: 1 },
            Effect::DestroySeat { id: 1 },
        ]
    );
}

#[test]
fn surface_events_turn_into_effects() {
    let manager = populated();
    let shm = buffer(1, BufferType::Shm, 400, 300);
    let dma = buffer(2, BufferType::Dma, 400, 300);
    let of = |event: SurfaceEvent| WCompEvent::Surface { serial: 0, event };
    let events = vec![
        of(SurfaceEvent::Added { id: 5, kind: toplevel(5) }),
        of(SurfaceEvent::Moved { id: 5, position: at(1, 2), depth: 3 }),
        of(SurfaceEvent::InteractiveResizeStarted { id: 5, serial: 1, edge: ResizeEdge::Left }),
        of(SurfaceEvent::InteractiveResizeStopped { id: 5, serial: 1 }),
        of(SurfaceEvent::InteractiveResizeStarted { id: 99, serial: 1, edge: ResizeEdge::Left }),
        of(SurfaceEvent::Resized { id: 5, size: size(7, 8) }),
        of(SurfaceEvent::Configuration { id: 5, size: size(9, 10) }),
        of(SurfaceEvent::MinSize { id: 5, size: size(1, 1) }),
        of(SurfaceEvent::MaxSize { id: 5, size: size(1, 1) }),
        of(SurfaceEvent::Geometry { id: 5, geometry: rect(0, 0, 1, 1) }),
        of(SurfaceEvent::BufferAttached {
            id: 5,
            handle: shm,
            inner_geometry: rect(0, 0, 400, 300),
            geometry: rect(50, 50, 400, 300),
        }),
        of(SurfaceEvent::BufferReplaced {
            id: 5,
            handle: shm,
            inner_geometry: rect(0, 0, 400, 300),
            geometry: rect(50, 50, 400, 300),
        }),
        of(SurfaceEvent::BufferReplaced {
            id: 5,
            handle: dma,
            inner_geometry: rect(0, 0, 400, 300),
            geometry: rect(50, 50, 400, 300),
        }),
        of(SurfaceEvent::BufferDetached { id: 5 }),
        of(SurfaceEvent::Activated { id: 5 }),
        of(SurfaceEvent::Deactivated { id: 5 }),
        of(SurfaceEvent::Maximized { id: 5 }),
        of(SurfaceEvent::Unmaximized { id: 5 }),
        of(SurfaceEvent::Committed { id: 5 }),
        of(SurfaceEvent::Committed { id: 99 }),
        of(SurfaceEvent::Removed { id: 5 }),
    ];
    let (effects, redraw) = process_events(&manager, events);
    assert!(redraw);
    assert_eq!(
        effects,
        vec![
            Effect::MoveSurface { id: 5, position: at(1, 2), depth: 3 },
            Effect::SetToplevelState { surface: handle(5), state: ToplevelState::Resizing, set: true },
            Effect::SetToplevelState { surface: handle(5), state: ToplevelState::Resizing, set: false },
            Effect::ResizeSurface { id: 5, size: size(7, 8) },
            Effect::ConfigureSize { surface: handle(5), size: size(9, 10) },
            Effect::CreateSurface { id: 5, buffer: shm, position: at(50, 50), size: size(400, 300) },
            Effect::UpdateSource { id: 5, buffer: shm },
            Effect::RemoveSurface { id: 5 },
            Effect::SetToplevelState { surface: handle(5), state: ToplevelState::Activated, set: true },
            Effect::SetToplevelState { surface: handle(5), state: ToplevelState::Activated, set: false },
            Effect::CommitSurface { id: 5, surface: WlSurface { id: 5 }, buffer: Some(shm) },
        ]
    );
}

#[test]
fn only_some_events_ask_for_a_redraw() {
    let manager = populated();
    let quiet = vec![
        WCompEvent::Output { serial: 0, event: OutputEvent::Moved { id: 0, position: at(0, 0) } },
        WCompEvent::Seat { serial: 0, event: SeatEvent::Removed { id: 1 } },
        WCompEvent::Surface { serial: 0, event: SurfaceEvent::Committed { id: 5 } },
        WCompEvent::Surface { serial: 0, event: SurfaceEvent::Activated { id: 5 } },
    ];
    assert!(!process_events(&manager, quiet).1);
    assert!(!process_events(&manager, Vec::new()).1);
    let loud = [
        WCompEvent::Output { serial: 0, event: OutputEvent::Removed { id: 0 } },
        WCompEvent::Seat {
            serial: 0,
            event: SeatEvent::Cursor(CursorEvent::Moved { id: 9, position: at(0, 0) }),
        },
        WCompEvent::Surface { serial: 0, event: SurfaceEvent::Resized { id: 5, size: size(1, 1) } },
        WCompEvent::Surface { serial: 0, event: SurfaceEvent::BufferDetached { id: 5 } },
    ];
    for event in loud {
        assert!(process_events(&manager, vec![event]).1);
    }
}

#[test]
fn commit_plan_follows_the_damage() {
    let shm = buffer(1, BufferType::Shm, 1, 1);
    let dma = buffer(2, BufferType::Dma, 1, 1);
    assert_eq!(plan_commit(false, Some(shm)), CommitPlan { redraw: false, upload: false, release: false });
    assert_eq!(plan_commit(true, Some(shm)), CommitPlan { redraw: true, upload: true, release: true });
    assert_eq!(plan_commit(true, Some(dma)), CommitPlan { redraw: true, upload: false, release: true });
    assert_eq!(plan_commit(true, None), CommitPlan { redraw: true, upload: false, release: false });
}

#[test]
fn serials_count_up_across_requests() {
    let mut manager = GeometryManager::new();
    let mut serials = Vec::new();
    for event in manager.add_output(0, RenderSurface { id: 0 }, size(800, 600)) {
        serials.push(event.serial());
    }
    for event in manager.add_seat(1, String::from("seat0")) {
        serials.push(event.serial());
    }
    let batch = manager.process_requests(vec![
        seat_request(SeatRequest::Cursor(CursorRequest::Added { id: 1, position: at(0, 0), image: None })),
        surface_request(SurfaceRequest::Add { id: 5, kind: toplevel(5), position: at(0, 0) }),
        surface_request(SurfaceRequest::Add { id: 6, kind: toplevel(6), position: at(0, 0) }),
        seat_request(SeatRequest::Cursor(CursorRequest::Moved { id: 1, position: at(4, 4) })),
    ]);
    for event in batch {
        serials.push(event.serial());
    }
    assert_eq!(serials, (0..serials.len() as u32).collect::<Vec<u32>>());
    assert_eq!(serials.len(), 8);
}

#[test]
fn events_convert_from_pairs() {
    assert_eq!(
        WCompEvent::from((3, SeatEvent::Removed { id: 1 })),
        WCompEvent::Seat { serial: 3, event: SeatEvent::Removed { id: 1 } }
    );
    assert_eq!(
        WCompEvent::from((4, SurfaceEvent::Removed { id: 1 })),
        WCompEvent::Surface { serial: 4, event: SurfaceEvent::Removed { id: 1 } }
    );
    assert_eq!(
        WCompEvent::from((5, OutputEvent::Removed { id: 1 })).serial(),
        5
    );
    assert!(matches!(
        WCompMessage::from(WaylandRequest::Other),
        WCompMessage::Wayland(WaylandRequest::Other)
    ));
}

#[test]
fn waiting_requests_are_taken_once() {
    let mut manager = GeometryManager::new();
    assert!(manager.events().is_empty());
    assert!(manager.events().is_empty());
}

#[test]
fn a_round_gathers_applies_and_reports() {
    let mut wcomp = WComp::new(PlatformType::Direct);
    let outcome = wcomp.process_messages(
        vec![
            PlatformEvent::Output { id: 0, event: PlatformOutputEvent::Added },
            PlatformEvent::Surface {
                id: 0,
                event: PlatformSurfaceEvent::Added {
                    surface: Some(RenderSurface { id: 0 }),
                    size: size(800, 600),
                },
            },
        ],
        Vec::new(),
    );
    assert_eq!(outcome.platform_requests, vec![PlatformRequest::CreateSurface { output: Some(0) }]);
    assert_eq!(
        outcome.effects,
        vec![
            Effect::CreateOutput { id: 0, handle: RenderSurface { id: 0 }, width: 800, height: 600 },
            Effect::MoveOutput { id: 0, position: at(0, 0) },
        ]
    );
    assert!(outcome.redraw);

    let outcome = wcomp.process_messages(
        Vec::new(),
        vec![
            WaylandRequest::NewToplevel { surface: handle(5) },
            WaylandRequest::Commit {
                surface: Some(WlSurface { id: 5 }),
                assignment: Some(BufferAssignment::NewBuffer {
                    buffer: buffer(1, BufferType::Shm, 400, 300),
                }),
                geometry: None,
            },
        ],
    );
    assert_eq!(
        outcome.wayland_actions,
        vec![WaylandAction::ConfigureToplevel { surface: handle(5), size: size(400, 300) }]
    );
    assert_eq!(
        outcome.effects,
        vec![
            Effect::CreateSurface {
                id: 5,
                buffer: buffer(1, BufferType::Shm, 400, 300),
                position: at(200, 150),
                size: size(400, 300),
            },
            Effect::CommitSurface {
                id: 5,
                surface: WlSurface { id: 5 },
                buffer: Some(buffer(1, BufferType::Shm, 400, 300)),
            },
        ]
    );
    assert!(!outcome.redraw);
    assert_eq!(*wcomp.geometry().surface_ref(5).unwrap().position(), at(200, 150));
}

#[test]
fn a_resize_starts_in_the_round_after_the_request() {
    let mut wcomp = WComp::new(PlatformType::Compositor);
    wcomp.process_requests(vec![
        surface_request(SurfaceRequest::Add { id: 5, kind: toplevel(5), position: at(0, 0) }),
        surface_request(SurfaceRequest::AttachBuffer {
            id: 5,
            handle: buffer(1, BufferType::Shm, 400, 300),
            inner_geometry: rect(0, 0, 400, 300),
            size: size(400, 300),
        }),
    ]);
    let data = GrabStartData { focus: Some((WlSurface { id: 5 }, at(0, 0))), button: 272, location: at(1, 1) };
    let outcome = wcomp.process_messages(
        Vec::new(),
        vec![WaylandRequest::Resize { seat: 1, start_data: Some(data), serial: 7, edges: ResizeEdge::Left }],
    );
    assert_eq!(outcome.wayland_actions.len(), 1);
    assert!(outcome.effects.is_empty());
    let outcome = wcomp.process_messages(Vec::new(), Vec::new());
    assert_eq!(
        outcome.effects,
        vec![Effect::SetToplevelState { surface: handle(5), state: ToplevelState::Resizing, set: true }]
    );
    // A grab leaves its requests for the next round.
    wcomp.push_request(surface_request(SurfaceRequest::InteractiveResizeStop { id: 5, serial: 7 }));
    let outcome = wcomp.process_messages(Vec::new(), Vec::new());
    assert_eq!(
        outcome.effects,
        vec![Effect::SetToplevelState { surface: handle(5), state: ToplevelState::Resizing, set: false }]
    );
    assert!(wcomp.process_messages(Vec::new(), Vec::new()).effects.is_empty());
}

#[test]
fn drawing_is_paced_by_the_frame_time() {
    let wcomp = WComp::new(PlatformType::Direct);
    assert_eq!(wcomp.pace(false, 1000), Pace::Idle);
    // At 60 frames a second a frame lasts 16 milliseconds.
    assert_eq!(wcomp.pace(true, 16), Pace::Dispatch);
    assert_eq!(wcomp.pace(true, 17), Pace::Dispatch);
    assert_eq!(wcomp.pace(true, 15), Pace::Wait { millis: 1 });
    assert_eq!(wcomp.pace(true, 0), Pace::Wait { millis: 16 });
}

#[test]
fn keyboard_without_pointer_loses_focus_on_a_button() {
    let mut manager = GeometryManager::new();
    manager.add_seat(1, String::from("seat0"));
    manager.add_keyboard(1, 200, 25);
    manager.add_surface(5, toplevel(5), at(0, 0));
    let events = manager.cursor_button(1, 0, 272, None, State::Down);
    assert_eq!(events.len(), 1);
    assert!(matches!(
        events[0],
        WCompEvent::Seat {
            event: SeatEvent::Keyboard(KeyboardEvent::Focus { id: 1, surface: None }),
            ..
        }
    ));
}

#[test]
fn maximize_without_an_output_at_the_surface_stays() {
    let mut manager = GeometryManager::new();
    manager.add_surface(5, toplevel(5), at(50, 50));
    manager.attach_buffer(5, buffer(1, BufferType::Shm, 400, 300), rect(0, 0, 400, 300), size(400, 300));
    let events = manager.maximize_surface(5);
    assert_eq!(events.len(), 1);
    assert_eq!(*manager.surface_ref(5).unwrap().position(), at(50, 50));
}

#[test]
fn geometry_manager_lookups() {
    let manager = populated();
    assert_eq!(manager.get_surface_at(&at(60, 60)).map(|s| s.id()), Some(5));
    assert!(manager.get_surface_at(&at(700, 500)).is_none());
    assert_eq!(manager.get_surface_optimal_size(), size(400, 300));
    assert_eq!(manager.get_surface_optimal_position(&size(400, 300)), (at(200, 150), 0));
    assert_eq!(manager.surfaces_ref().len(), 1);
    assert!(manager.cursor_ref(2).is_none());
}
