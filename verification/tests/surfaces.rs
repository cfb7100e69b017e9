use wcomp::geometry::{Offset2D, Position2D, Rectangle, Size2D};
use wcomp::surface::{
    anchor, place_popup, BufferType, Surface, SurfaceEvent, SurfaceRequest, WlBuffer,
};
use wcomp::surface_manager::SurfaceManager;
use wcomp::surface_state::{
    AlteredState, Anchor, ConstraintAdjustment, Gravity, PopupState, PopupSurface, ResizeEdge,
    SurfaceKind, SurfaceState, ToplevelSurface, WlSurface,
};

fn size(width: u32, height: u32) -> Size2D {
    Size2D { width, height }
}

fn at(x: i32, y: i32) -> Position2D {
    Position2D { x, y }
}

fn rect(x: i32, y: i32, width: u32, height: u32) -> Rectangle {
    Rectangle { position: at(x, y), size: size(width, height) }
}

fn toplevel(id: usize) -> SurfaceKind {
    SurfaceKind::from(ToplevelSurface { surface: Some(WlSurface { id }) })
}

fn popup_state(anchor_edges: Anchor, gravity: Gravity) -> PopupState {
    PopupState {
        anchor: rect(10, 20, 100, 40),
        anchor_edges,
        gravity,
        constraint_adjustment: ConstraintAdjustment { bits: 0 },
        offset: Offset2D { x: 3, y: -2 },
        reactive: false,
    }
}

fn popup(id: usize, parent: usize, anchor_edges: Anchor, gravity: Gravity) -> SurfaceKind {
    SurfaceKind::Popup {
        handle: PopupSurface {
            surface: Some(WlSurface { id }),
            parent: Some(WlSurface { id: parent }),
        },
        state: popup_state(anchor_edges, gravity),
    }
}

fn buffer(id: usize, width: u32, height: u32) -> WlBuffer {
    WlBuffer { id, kind: BufferType::Shm, size: size(width, height) }
}

fn depths(manager: &SurfaceManager) -> Vec<(usize, u32)> {
    manager.surfaces_ref().iter().map(|surface| (surface.id(), surface.depth())).collect()
}

/// Toplevel 1 at (100,100) with a 400 by 300 buffer whose content starts
/// at (5,5), and popup 2 on it with a 50 by 30 buffer.
fn with_popup(anchor_edges: Anchor, gravity: Gravity) -> SurfaceManager {
    let mut manager = SurfaceManager::new();
    manager.add_surface(1, toplevel(1), at(100, 100));
    manager.attach_buffer(1, buffer(1, 400, 300), rect(5, 5, 390, 290), size(400, 300));
    manager.add_surface(2, popup(2, 1, anchor_edges, gravity), at(0, 0));
    manager.attach_buffer(2, buffer(2, 50, 30), rect(0, 0, 50, 30), size(50, 30));
    manager
}

#[test]
fn new_toplevel_goes_to_the_front() {
    let mut manager = SurfaceManager::new();
    let first = manager.add_surface(1, toplevel(1), at(0, 0));
    assert_eq!(first, vec![SurfaceEvent::Added { id: 1, kind: toplevel(1) }]);
    let second = manager.add_surface(2, toplevel(2), at(9, 9));
    assert_eq!(
        second,
        vec![
            SurfaceEvent::Added { id: 2, kind: toplevel(2) },
            SurfaceEvent::Moved { id: 1, position: at(0, 0), depth: 1 },
        ]
    );
    assert_eq!(depths(&manager), vec![(2, 0), (1, 1)]);
}

#[test]
fn depths_are_distinct_and_follow_the_stack() {
    let mut manager = SurfaceManager::new();
    manager.add_surface(1, toplevel(1), at(0, 0));
    manager.add_surface(2, toplevel(2), at(0, 0));
    manager.add_surface(3, popup(3, 1, Anchor::TopLeft, Gravity::TopRight), at(0, 0));
    manager.add_surface(4, popup(4, 1, Anchor::TopLeft, Gravity::TopRight), at(0, 0));
    manager.add_surface(5, popup(5, 2, Anchor::TopLeft, Gravity::TopRight), at(0, 0));
    // Front first: toplevel 2 with popup 5, then toplevel 1 with popups 4 and 3.
    assert_eq!(depths(&manager), vec![(5, 0), (2, 1), (4, 2), (3, 3), (1, 4)]);
    let mut seen: Vec<u32> = depths(&manager).iter().map(|entry| entry.1).collect();
    seen.sort();
    seen.dedup();
    assert_eq!(seen.len(), 5);
}

#[test]
fn popup_of_a_popup_is_numbered_before_its_parent() {
    let mut manager = SurfaceManager::new();
    manager.add_surface(1, toplevel(1), at(0, 0));
    manager.add_surface(2, popup(2, 1, Anchor::TopLeft, Gravity::TopRight), at(0, 0));
    let events = manager.add_surface(3, popup(3, 2, Anchor::TopLeft, Gravity::TopRight), at(0, 0));
    assert_eq!(
        events,
        vec![
            SurfaceEvent::Added { id: 3, kind: popup(3, 2, Anchor::TopLeft, Gravity::TopRight) },
            SurfaceEvent::Moved { id: 2, position: at(0, 0), depth: 1 },
            SurfaceEvent::Moved { id: 1, position: at(0, 0), depth: 2 },
        ]
    );
    let parent = manager.surface_ref(2).unwrap();
    assert_eq!(parent.children_ref().len(), 1);
    assert_eq!(parent.children_ref()[0].depth(), 0);
}

#[test]
fn popup_with_unknown_parent_is_dropped() {
    let mut manager = SurfaceManager::new();
    manager.add_surface(1, toplevel(1), at(0, 0));
    let events = manager.add_surface(2, popup(2, 99, Anchor::TopLeft, Gravity::TopRight), at(0, 0));
    assert_eq!(events, vec![]);
    assert!(manager.surface_ref(2).is_none());
    assert_eq!(depths(&manager), vec![(1, 0)]);
}

#[test]
fn popup_without_parent_handle_is_dropped() {
    let mut manager = SurfaceManager::new();
    manager.add_surface(1, toplevel(1), at(0, 0));
    let kind = SurfaceKind::Popup {
        handle: PopupSurface { surface: Some(WlSurface { id: 2 }), parent: None },
        state: popup_state(Anchor::TopLeft, Gravity::TopRight),
    };
    assert_eq!(manager.add_surface(2, kind, at(0, 0)), vec![]);
}

#[test]
fn popup_is_placed_when_its_buffer_is_attached() {
    let manager = with_popup(Anchor::BottomLeft, Gravity::TopRight);
    // anchor origin (10,20) + parent (100,100) + inner origin (5,5), down by
    // the anchor's height 40, plus the offset (3,-2).
    assert_eq!(*manager.surface_ref(2).unwrap().position(), at(118, 163));
}

#[test]
fn popup_position_by_anchor_and_gravity() {
    let parent = at(100, 100);
    let inner = rect(5, 5, 390, 290);
    let child = size(50, 30);
    let expect = [
        (Anchor::TopLeft, Gravity::TopRight, at(118, 123)),
        (Anchor::TopRight, Gravity::TopRight, at(218, 123)),
        (Anchor::BottomRight, Gravity::TopRight, at(218, 163)),
        (Anchor::Top, Gravity::TopRight, at(168, 123)),
        (Anchor::Bottom, Gravity::TopRight, at(168, 163)),
        (Anchor::Left, Gravity::TopRight, at(118, 143)),
        (Anchor::Right, Gravity::TopRight, at(218, 143)),
        (Anchor::Center, Gravity::TopRight, at(168, 143)),
        (Anchor::TopLeft, Gravity::BottomRight, at(118, 93)),
        (Anchor::TopLeft, Gravity::TopLeft, at(68, 123)),
        (Anchor::TopLeft, Gravity::BottomLeft, at(68, 93)),
        (Anchor::TopLeft, Gravity::Bottom, at(93, 123)),
        (Anchor::TopLeft, Gravity::Top, at(93, 93)),
        (Anchor::TopLeft, Gravity::Right, at(118, 108)),
        (Anchor::TopLeft, Gravity::Left, at(68, 108)),
        (Anchor::TopLeft, Gravity::Center, at(93, 108)),
    ];
    for (edges, gravity, position) in expect {
        assert_eq!(place_popup(&popup_state(edges, gravity), parent, &inner, &child), position);
    }
}

#[test]
fn moving_a_toplevel_moves_its_popups() {
    let mut manager = with_popup(Anchor::TopLeft, Gravity::TopRight);
    let events = manager.move_surface(1, at(0, 0));
    assert_eq!(
        events,
        vec![
            SurfaceEvent::Moved { id: 1, position: at(0, 0), depth: 1 },
            SurfaceEvent::Moved { id: 2, position: at(18, 23), depth: 0 },
        ]
    );
}

#[test]
fn moving_twice_to_the_same_place_changes_nothing_more() {
    let mut manager = with_popup(Anchor::TopLeft, Gravity::TopRight);
    let first = manager.move_surface(1, at(40, 50));
    let position = *manager.surface_ref(1).unwrap().position();
    let popup_position = *manager.surface_ref(2).unwrap().position();
    let second = manager.move_surface(1, at(40, 50));
    assert_eq!(first, second);
    assert_eq!(
        second.iter().filter(|event| matches!(event, SurfaceEvent::Moved { id: 1, .. })).count(),
        1
    );
    assert_eq!(*manager.surface_ref(1).unwrap().position(), position);
    assert_eq!(*manager.surface_ref(2).unwrap().position(), popup_position);
    assert_eq!(depths(&manager), vec![(2, 0), (1, 1)]);
}

#[test]
fn moving_an_unknown_surface_does_nothing() {
    let mut manager = with_popup(Anchor::TopLeft, Gravity::TopRight);
    assert_eq!(manager.move_surface(77, at(1, 1)), vec![]);
}

#[test]
fn second_buffer_replaces_the_first_and_keeps_the_inner_geometry() {
    let mut manager = SurfaceManager::new();
    manager.add_surface(1, toplevel(1), at(10, 10));
    let first = manager.attach_buffer(1, buffer(1, 400, 300), rect(2, 2, 396, 296), size(640, 480));
    assert_eq!(
        first,
        vec![SurfaceEvent::BufferAttached {
            id: 1,
            handle: buffer(1, 400, 300),
            inner_geometry: rect(2, 2, 396, 296),
            geometry: rect(10, 10, 640, 480),
        }]
    );
    let second = manager.attach_buffer(1, buffer(2, 500, 350), rect(0, 0, 500, 350), size(1, 1));
    assert_eq!(
        second,
        vec![SurfaceEvent::BufferReplaced {
            id: 1,
            handle: buffer(2, 500, 350),
            inner_geometry: rect(0, 0, 500, 350),
            geometry: rect(10, 10, 500, 350),
        }]
    );
    let surface = manager.surface_ref(1).unwrap();
    assert_eq!(surface.inner_geometry(), Some(rect(2, 2, 396, 296)));
    assert_eq!(surface.size(), Some(size(500, 350)));
    assert_eq!(surface.buffer(), Some(buffer(2, 500, 350)));
}

#[test]
fn detach_clears_the_buffer() {
    let mut manager = with_popup(Anchor::TopLeft, Gravity::TopRight);
    assert_eq!(manager.detach_buffer(1), vec![SurfaceEvent::BufferDetached { id: 1 }]);
    assert_eq!(manager.surface_ref(1).unwrap().size(), None);
    assert_eq!(manager.detach_buffer(9), vec![]);
}

#[test]
fn deleting_a_toplevel_reports_buffer_removal_and_deactivation() {
    let mut manager = SurfaceManager::new();
    manager.add_surface(1, toplevel(1), at(0, 0));
    manager.add_surface(2, toplevel(2), at(0, 0));
    manager.attach_buffer(2, buffer(1, 10, 10), rect(0, 0, 10, 10), size(10, 10));
    manager.focus_surface(Some(2));
    let events = manager.del_surface(2);
    assert_eq!(
        events,
        vec![
            SurfaceEvent::BufferDetached { id: 2 },
            SurfaceEvent::Removed { id: 2 },
            SurfaceEvent::Deactivated { id: 2 },
            SurfaceEvent::Moved { id: 1, position: at(0, 0), depth: 0 },
        ]
    );
    assert_eq!(depths(&manager), vec![(1, 0)]);
}

#[test]
fn deleting_a_popup_leaves_the_toplevel() {
    let mut manager = with_popup(Anchor::TopLeft, Gravity::TopRight);
    let events = manager.del_surface(2);
    assert_eq!(
        events,
        vec![
            SurfaceEvent::BufferDetached { id: 2 },
            SurfaceEvent::Removed { id: 2 },
            SurfaceEvent::Moved { id: 1, position: at(100, 100), depth: 0 },
        ]
    );
    assert!(manager.surface_ref(2).is_none());
    assert_eq!(manager.del_surface(2), vec![]);
}

#[test]
fn focus_raises_and_activates() {
    let mut manager = SurfaceManager::new();
    manager.add_surface(1, toplevel(1), at(0, 0));
    manager.add_surface(2, toplevel(2), at(0, 0));
    assert_eq!(manager.focus_surface(Some(2)), vec![SurfaceEvent::Activated { id: 2 }]);
    let events = manager.focus_surface(Some(1));
    assert_eq!(
        events,
        vec![
            SurfaceEvent::Moved { id: 1, position: at(0, 0), depth: 0 },
            SurfaceEvent::Moved { id: 2, position: at(0, 0), depth: 1 },
            SurfaceEvent::Deactivated { id: 2 },
            SurfaceEvent::Activated { id: 1 },
        ]
    );
    assert_eq!(manager.focus_surface(None), vec![SurfaceEvent::Deactivated { id: 1 }]);
    assert_eq!(manager.focus_surface(None), vec![]);
}

#[test]
fn surface_at_takes_the_front_surface_within_the_grace() {
    let mut manager = SurfaceManager::new();
    manager.add_surface(1, toplevel(1), at(0, 0));
    manager.attach_buffer(1, buffer(1, 400, 300), rect(0, 0, 400, 300), size(400, 300));
    manager.add_surface(2, toplevel(2), at(100, 100));
    manager.attach_buffer(2, buffer(2, 400, 300), rect(0, 0, 400, 300), size(400, 300));
    assert_eq!(manager.get_surface_at(&at(150, 150)).map(|s| s.id()), Some(2));
    assert_eq!(manager.get_surface_at(&at(50, 50)).map(|s| s.id()), Some(1));
    // Ten pixels of grace round each surface: 90 is inside the front one, 89 is not.
    assert_eq!(manager.get_surface_at(&at(90, 90)).map(|s| s.id()), Some(2));
    assert_eq!(manager.get_surface_at(&at(89, 89)).map(|s| s.id()), Some(1));
    assert_eq!(manager.get_surface_at(&at(-10, -10)).map(|s| s.id()), Some(1));
    assert_eq!(manager.get_surface_at(&at(509, 409)).map(|s| s.id()), Some(2));
    assert_eq!(manager.get_surface_at(&at(510, 410)).map(|s| s.id()), None);
}

#[test]
fn surface_at_outside_all_surfaces_is_none() {
    let mut manager = SurfaceManager::new();
    assert!(manager.get_surface_at(&at(0, 0)).is_none());
    manager.add_surface(1, toplevel(1), at(0, 0));
    // Without a buffer a surface covers nothing.
    assert!(manager.get_surface_at(&at(0, 0)).is_none());
    manager.attach_buffer(1, buffer(1, 40, 30), rect(0, 0, 40, 30), size(40, 30));
    assert!(manager.get_surface_at(&at(-11, 0)).is_none());
    assert!(manager.get_surface_at(&at(1000, 1000)).is_none());
    assert!(manager.get_surface_at(&at(i32::MAX, i32::MIN)).is_none());
}

#[test]
fn surface_at_finds_a_popup_before_its_toplevel() {
    let manager = with_popup(Anchor::TopLeft, Gravity::TopRight);
    // The popup stands at (118,123) and is 50 by 30.
    assert_eq!(manager.get_surface_at(&at(120, 125)).map(|s| s.id()), Some(2));
    assert_eq!(manager.get_surface_at(&at(300, 300)).map(|s| s.id()), Some(1));
}

#[test]
fn interactive_resize_start_and_stop_leave_no_altered_state() {
    let mut manager = SurfaceManager::new();
    manager.add_surface(1, toplevel(1), at(0, 0));
    manager.attach_buffer(1, buffer(1, 40, 30), rect(0, 0, 40, 30), size(40, 30));
    assert_eq!(
        manager.interactive_resize_start(1, 42, ResizeEdge::BottomRight),
        vec![SurfaceEvent::InteractiveResizeStarted { id: 1, serial: 42, edge: ResizeEdge::BottomRight }]
    );
    match manager.surface_ref(1).unwrap().kind() {
        SurfaceKind::Toplevel { state, .. } => {
            assert!(state.is_resizing_width(42));
            assert_eq!(state.altered_state.unwrap().original, rect(0, 0, 40, 30));
        }
        SurfaceKind::Popup { .. } => unreachable!(),
    }
    // A second start, and a stop under another serial, are refused.
    assert_eq!(manager.interactive_resize_start(1, 43, ResizeEdge::Left), vec![]);
    assert_eq!(manager.interactive_resize_end(1, 43), vec![]);
    assert_eq!(
        manager.interactive_resize_end(1, 42),
        vec![SurfaceEvent::InteractiveResizeStopped { id: 1, serial: 42 }]
    );
    assert_eq!(*manager.surface_ref(1).unwrap().kind(), toplevel(1));
}

#[test]
fn interactive_resize_needs_a_buffer_and_a_toplevel() {
    let mut manager = SurfaceManager::new();
    manager.add_surface(1, toplevel(1), at(0, 0));
    assert_eq!(manager.interactive_resize_start(1, 1, ResizeEdge::Left), vec![]);
    let mut manager = with_popup(Anchor::TopLeft, Gravity::TopRight);
    assert_eq!(manager.interactive_resize_start(2, 1, ResizeEdge::Left), vec![]);
    assert_eq!(manager.maximize_surface(2), vec![]);
}

#[test]
fn resize_step_is_refused_under_another_serial() {
    let mut manager = SurfaceManager::new();
    manager.add_surface(1, toplevel(1), at(0, 0));
    manager.attach_buffer(1, buffer(1, 40, 30), rect(0, 0, 40, 30), size(40, 30));
    // Without a resize in progress any serial is taken.
    assert_eq!(
        manager.interactive_resize_surface(1, 5, size(50, 50)),
        vec![SurfaceEvent::Configuration { id: 1, size: size(50, 50) }]
    );
    manager.interactive_resize_start(1, 42, ResizeEdge::Right);
    assert_eq!(manager.interactive_resize_surface(1, 5, size(50, 50)), vec![]);
    assert_eq!(
        manager.interactive_resize_surface(1, 42, size(60, 50)),
        vec![SurfaceEvent::Configuration { id: 1, size: size(60, 50) }]
    );
    assert_eq!(manager.interactive_resize_surface(9, 42, size(60, 50)), vec![]);
}

#[test]
fn configure_anchors_by_edge() {
    let position = at(100, 100);
    let current = size(400, 300);
    let new = size(350, 280);
    assert_eq!(anchor(position, ResizeEdge::Left, &current, &new), Some(at(150, 100)));
    assert_eq!(anchor(position, ResizeEdge::Top, &current, &new), Some(at(100, 120)));
    assert_eq!(anchor(position, ResizeEdge::TopLeft, &current, &new), Some(at(150, 120)));
    assert_eq!(anchor(position, ResizeEdge::TopRight, &current, &new), Some(at(100, 120)));
    assert_eq!(anchor(position, ResizeEdge::BottomLeft, &current, &new), Some(at(150, 100)));
    assert_eq!(anchor(position, ResizeEdge::Right, &current, &new), None);
    assert_eq!(anchor(position, ResizeEdge::Bottom, &current, &new), None);
    assert_eq!(anchor(position, ResizeEdge::BottomRight, &current, &new), None);
    assert_eq!(anchor(position, ResizeEdge::Unset, &current, &new), None);
}

#[test]
fn configure_reports_limits_only_on_change() {
    let mut manager = SurfaceManager::new();
    manager.add_surface(1, toplevel(1), at(0, 0));
    let events = manager.configure_surface(1, None, size(10, 10), size(0, 0));
    assert_eq!(events, vec![SurfaceEvent::MinSize { id: 1, size: size(10, 10) }]);
    let events = manager.configure_surface(1, None, size(10, 10), size(900, 900));
    assert_eq!(events, vec![SurfaceEvent::MaxSize { id: 1, size: size(900, 900) }]);
    assert_eq!(manager.configure_surface(1, None, size(10, 10), size(900, 900)), vec![]);
    // Without a buffer an inner geometry is not taken over.
    assert_eq!(
        manager.configure_surface(1, Some(rect(0, 0, 5, 5)), size(10, 10), size(900, 900)),
        vec![]
    );
}

#[test]
fn maximize_then_unmaximize_restores_the_position() {
    let mut manager = SurfaceManager::new();
    manager.add_surface(1, toplevel(1), at(50, 60));
    manager.attach_buffer(1, buffer(1, 400, 300), rect(0, 0, 400, 300), size(400, 300));
    assert_eq!(manager.maximize_surface(1), vec![SurfaceEvent::Maximized { id: 1 }]);
    manager.move_surface(1, at(0, 0));
    let events = manager.unmaximize_surface(1);
    assert_eq!(
        events,
        vec![
            SurfaceEvent::Unmaximized { id: 1 },
            SurfaceEvent::Moved { id: 1, position: at(50, 60), depth: 0 },
        ]
    );
    assert_eq!(*manager.surface_ref(1).unwrap().position(), at(50, 60));
    assert_eq!(*manager.surface_ref(1).unwrap().kind(), toplevel(1));
    // Nothing is left to clear.
    assert_eq!(manager.unmaximize_surface(1), vec![]);
}

#[test]
fn altered_state_is_kept_exactly_while_something_is_active() {
    let mut state = SurfaceState::default();
    assert!(state.altered_state.is_none());
    assert!(state.start_interactive_resize(1, ResizeEdge::Top, rect(0, 0, 1, 1)));
    assert!(state.altered_state.is_some());
    assert!(!state.is_empty());
    assert!(!state.stop_interactive_resize(2));
    assert!(state.altered_state.is_some());
    assert!(state.stop_interactive_resize(1));
    assert!(state.altered_state.is_none());
}

#[test]
fn altered_state_queries() {
    let mut altered = AlteredState::new(rect(1, 2, 3, 4));
    assert!(altered.is_empty());
    assert!(altered.check_resize(7));
    assert!(altered.start_interactive_resize(7, ResizeEdge::Left));
    assert!(altered.is_resizing());
    assert!(altered.is_resizing_width(7));
    assert!(!altered.is_resizing_width(8));
    assert!(altered.check_resize(7));
    assert!(!altered.check_resize(8));
    assert!(!altered.start_interactive_resize(8, ResizeEdge::Left));
    assert!(!altered.is_moving());
    assert!(!altered.is_moving_width(7));
    assert!(!altered.is_maximized() && !altered.is_minimized() && !altered.is_fullscreen());
    assert!(altered.stop_interactive_resize(7));
    assert!(altered.is_empty());
}

#[test]
fn maximized_toplevel_cannot_be_resized() {
    let mut manager = SurfaceManager::new();
    manager.add_surface(1, toplevel(1), at(0, 0));
    manager.attach_buffer(1, buffer(1, 40, 30), rect(0, 0, 40, 30), size(40, 30));
    manager.maximize_surface(1);
    assert_eq!(manager.interactive_resize_start(1, 1, ResizeEdge::Left), vec![]);
}

#[test]
fn surface_methods_work_on_a_tree_of_their_own() {
    let mut parent = Surface {
        id: 1,
        kind: toplevel(1),
        buffer: None,
        min_size: size(0, 0),
        max_size: size(0, 0),
        position: at(0, 0),
        depth: 0,
        children: Vec::new(),
    };
    let child = Surface {
        id: 2,
        kind: popup(2, 1, Anchor::TopLeft, Gravity::TopRight),
        buffer: None,
        min_size: size(0, 0),
        max_size: size(0, 0),
        position: at(0, 0),
        depth: 0,
        children: Vec::new(),
    };
    assert_eq!(
        parent.add_child(child),
        vec![SurfaceEvent::Added { id: 2, kind: popup(2, 1, Anchor::TopLeft, Gravity::TopRight) }]
    );
    assert_eq!(parent.surface_ref(2).map(|s| s.id()), Some(2));
    assert_eq!(parent.surface_parent_ref(2).map(|s| s.id()), Some(1));
    assert!(parent.surface_parent_ref(3).is_none());
    let ids: Vec<usize> = parent.surfaces_ref().iter().map(|s| s.id()).collect();
    assert_eq!(ids, vec![2, 1]);
    let mut depth = 7;
    let events = parent.update_depth(&mut depth);
    assert_eq!(depth, 9);
    assert_eq!(
        events,
        vec![
            SurfaceEvent::Moved { id: 2, position: at(0, 0), depth: 7 },
            SurfaceEvent::Moved { id: 1, position: at(0, 0), depth: 8 },
        ]
    );
    assert_eq!(parent.update_children(), vec![]);
    parent.minimize();
    assert_eq!(*parent.kind(), toplevel(1));
    assert_eq!(parent.del_child(2), Some(vec![SurfaceEvent::Removed { id: 2 }]));
    assert_eq!(parent.del_child(2), None);
}

#[test]
fn handle_is_exec_form_of_each_request() {
    let mut manager = SurfaceManager::new();
    assert_eq!(
        manager.handle(SurfaceRequest::Add { id: 1, kind: toplevel(1), position: at(1, 2) }),
        vec![SurfaceEvent::Added { id: 1, kind: toplevel(1) }]
    );
    assert_eq!(
        manager.handle(SurfaceRequest::Resize { id: 1, size: size(3, 4) }),
        vec![SurfaceEvent::Configuration { id: 1, size: size(3, 4) }]
    );
    assert_eq!(manager.handle(SurfaceRequest::Resize { id: 2, size: size(3, 4) }), vec![]);
    assert_eq!(
        manager.handle(SurfaceRequest::Commit { id: 5 }),
        vec![SurfaceEvent::Committed { id: 5 }]
    );
}

#[test]
fn replacing_the_buffer_of_a_toplevel_moves_each_popup_once() {
    let mut manager = with_popup(Anchor::TopLeft, Gravity::TopRight);
    let events = manager.attach_buffer(1, buffer(3, 500, 350), rect(0, 0, 500, 350), size(1, 1));
    assert_eq!(
        events,
        vec![
            SurfaceEvent::BufferReplaced {
                id: 1,
                handle: buffer(3, 500, 350),
                inner_geometry: rect(0, 0, 500, 350),
                geometry: rect(100, 100, 500, 350),
            },
            SurfaceEvent::Moved { id: 2, position: at(118, 123), depth: 0 },
        ]
    );
    let surface = manager.surface_ref(1).unwrap();
    assert_eq!(surface.buffer(), Some(buffer(3, 500, 350)));
    assert_eq!(surface.inner_geometry(), Some(rect(5, 5, 390, 290)));
    assert_eq!(*surface.position(), at(100, 100));
    assert_eq!(surface.depth(), 1);
}

#[test]
fn first_buffer_of_a_toplevel_moves_each_popup_once() {
    let mut manager = SurfaceManager::new();
    manager.add_surface(1, toplevel(1), at(100, 100));
    manager.add_surface(2, popup(2, 1, Anchor::TopLeft, Gravity::TopRight), at(0, 0));
    manager.add_surface(3, popup(3, 1, Anchor::BottomLeft, Gravity::TopRight), at(0, 0));
    // A popup cannot be placed against a parent without a buffer.
    assert_eq!(
        manager.attach_buffer(2, buffer(2, 50, 30), rect(0, 0, 50, 30), size(50, 30)),
        vec![SurfaceEvent::BufferAttached {
            id: 2,
            handle: buffer(2, 50, 30),
            inner_geometry: rect(0, 0, 50, 30),
            geometry: rect(0, 0, 50, 30),
        }]
    );
    manager.attach_buffer(3, buffer(3, 50, 30), rect(0, 0, 50, 30), size(50, 30));
    let events = manager.attach_buffer(1, buffer(1, 400, 300), rect(5, 5, 390, 290), size(400, 300));
    assert_eq!(
        events,
        vec![
            SurfaceEvent::BufferAttached {
                id: 1,
                handle: buffer(1, 400, 300),
                inner_geometry: rect(5, 5, 390, 290),
                geometry: rect(100, 100, 400, 300),
            },
            SurfaceEvent::Moved { id: 3, position: at(118, 163), depth: 0 },
            SurfaceEvent::Moved { id: 2, position: at(118, 123), depth: 1 },
        ]
    );
}

#[test]
fn buffer_of_a_popup_has_its_toplevel_place_it() {
    let mut manager = SurfaceManager::new();
    manager.add_surface(1, toplevel(1), at(100, 100));
    manager.attach_buffer(1, buffer(1, 400, 300), rect(5, 5, 390, 290), size(400, 300));
    manager.add_surface(2, popup(2, 1, Anchor::TopLeft, Gravity::TopRight), at(0, 0));
    let events = manager.attach_buffer(2, buffer(2, 50, 30), rect(0, 0, 50, 30), size(50, 30));
    assert_eq!(
        events,
        vec![
            SurfaceEvent::BufferAttached {
                id: 2,
                handle: buffer(2, 50, 30),
                inner_geometry: rect(0, 0, 50, 30),
                geometry: rect(0, 0, 50, 30),
            },
            SurfaceEvent::Moved { id: 2, position: at(118, 123), depth: 0 },
        ]
    );
    assert_eq!(*manager.surface_ref(2).unwrap().position(), at(118, 123));
}

#[test]
fn attaching_to_an_unknown_surface_does_nothing() {
    let mut manager = with_popup(Anchor::TopLeft, Gravity::TopRight);
    assert_eq!(manager.attach_buffer(9, buffer(3, 1, 1), rect(0, 0, 1, 1), size(1, 1)), vec![]);
    assert_eq!(manager.surface_ref(1).unwrap().buffer(), Some(buffer(1, 400, 300)));
    assert_eq!(depths(&manager), vec![(2, 0), (1, 1)]);
}
