use wcomp::geometry::{Position2D, Rectangle, Size2D};
use wcomp::geometry_manager::WCompRequest;
use wcomp::move_logic::MoveLogic;
use wcomp::resize_logic::{resize_inner, ButtonState, GrabStartData, ResizeLogic};
use wcomp::surface::SurfaceRequest;
use wcomp::surface_state::{ResizeEdge, WlSurface};

fn size(width: u32, height: u32) -> Size2D {
    Size2D { width, height }
}

fn at(x: i32, y: i32) -> Position2D {
    Position2D { x, y }
}

fn start() -> GrabStartData {
    GrabStartData { focus: Some((WlSurface { id: 5 }, at(100, 100))), button: 272, location: at(130, 140) }
}

fn resize_of(id: usize, serial: u32, inner_size: Size2D) -> WCompRequest {
    WCompRequest::Surface { request: SurfaceRequest::InteractiveResize { id, serial, inner_size } }
}

#[test]
fn move_grab_keeps_the_pointer_on_the_surface() {
    let mut grab = MoveLogic::new(start());
    let mut queue = Vec::new();
    grab.motion(&mut queue, at(200, 150));
    // The pointer was 30 right of and 40 below the surface's origin.
    assert_eq!(
        queue,
        vec![WCompRequest::Surface { request: SurfaceRequest::Move { id: 5, position: at(170, 110) } }]
    );
    grab.motion(&mut queue, at(0, 0));
    assert_eq!(
        queue[1],
        WCompRequest::Surface { request: SurfaceRequest::Move { id: 5, position: at(-30, -40) } }
    );
    assert_eq!(*grab.start_data(), start());
}

#[test]
fn move_grab_without_surface_asks_nothing() {
    let mut grab = MoveLogic::new(GrabStartData { focus: None, button: 272, location: at(1, 1) });
    let mut queue = Vec::new();
    grab.motion(&mut queue, at(200, 150));
    assert!(queue.is_empty());
}

#[test]
fn move_grab_ends_on_release_of_its_button() {
    let mut grab = MoveLogic::new(start());
    assert!(!grab.button(272, ButtonState::Pressed));
    assert!(!grab.button(273, ButtonState::Released));
    assert!(grab.button(272, ButtonState::Released));
    grab.axis();
}

#[test]
fn resize_grab_asks_for_the_start() {
    let mut queue = Vec::new();
    let grab = ResizeLogic::new(
        start(),
        &mut queue,
        5,
        42,
        Rectangle { position: at(10, 20), size: size(400, 300) },
        ResizeEdge::Right,
    );
    assert_eq!(
        queue,
        vec![WCompRequest::Surface {
            request: SurfaceRequest::InteractiveResizeStart { id: 5, serial: 42, edge: ResizeEdge::Right },
        }]
    );
    assert_eq!(grab.id, 5);
    assert_eq!(*grab.start_data(), start());
}

#[test]
fn resize_grab_sizes_by_edge() {
    let inner = Rectangle { position: at(10, 20), size: size(400, 300) };
    let relative = at(250, 180);
    let expect = [
        (ResizeEdge::Right, Some(size(240, 300))),
        (ResizeEdge::Bottom, Some(size(400, 160))),
        (ResizeEdge::BottomRight, Some(size(240, 160))),
        (ResizeEdge::Left, Some(size(160, 300))),
        (ResizeEdge::Top, Some(size(400, 140))),
        (ResizeEdge::TopLeft, Some(size(160, 140))),
        (ResizeEdge::TopRight, Some(size(240, 140))),
        (ResizeEdge::BottomLeft, Some(size(160, 160))),
        (ResizeEdge::Unset, None),
    ];
    for (edge, inner_size) in expect {
        assert_eq!(resize_inner(edge, &inner, relative), inner_size);
    }
}

#[test]
fn resize_grab_motion_is_relative_to_the_surface() {
    let mut queue = Vec::new();
    let inner = Rectangle { position: at(10, 20), size: size(400, 300) };
    let mut grab = ResizeLogic::new(start(), &mut queue, 5, 42, inner, ResizeEdge::BottomRight);
    queue.clear();
    grab.motion(&mut queue, at(350, 280));
    assert_eq!(queue, vec![resize_of(5, 42, size(240, 160))]);
}

#[test]
fn resize_grab_wraps_a_negative_size() {
    let mut queue = Vec::new();
    let inner = Rectangle { position: at(10, 20), size: size(400, 300) };
    let mut grab = ResizeLogic::new(start(), &mut queue, 5, 42, inner, ResizeEdge::Right);
    queue.clear();
    grab.motion(&mut queue, at(109, 0));
    assert_eq!(queue, vec![resize_of(5, 42, size(u32::MAX, 300))]);
}

#[test]
fn resize_grab_without_edge_or_surface_asks_nothing() {
    let mut queue = Vec::new();
    let inner = Rectangle { position: at(10, 20), size: size(400, 300) };
    let mut grab = ResizeLogic::new(start(), &mut queue, 5, 42, inner, ResizeEdge::Unset);
    queue.clear();
    grab.motion(&mut queue, at(350, 280));
    assert!(queue.is_empty());
    let blind = GrabStartData { focus: None, button: 272, location: at(0, 0) };
    let mut grab = ResizeLogic::new(blind, &mut queue, 5, 42, inner, ResizeEdge::Left);
    queue.clear();
    grab.motion(&mut queue, at(350, 280));
    assert!(queue.is_empty());
}

#[test]
fn resize_grab_stops_on_release_of_its_button() {
    let mut queue = Vec::new();
    let inner = Rectangle { position: at(10, 20), size: size(400, 300) };
    let mut grab = ResizeLogic::new(start(), &mut queue, 5, 42, inner, ResizeEdge::Left);
    queue.clear();
    assert!(!grab.button(&mut queue, 272, ButtonState::Pressed));
    assert!(!grab.button(&mut queue, 1, ButtonState::Released));
    assert!(queue.is_empty());
    assert!(grab.button(&mut queue, 272, ButtonState::Released));
    assert_eq!(
        queue,
        vec![WCompRequest::Surface { request: SurfaceRequest::InteractiveResizeStop { id: 5, serial: 42 } }]
    );
    grab.axis();
}
