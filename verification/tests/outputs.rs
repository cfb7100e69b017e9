use wcomp::geometry::{Position2D, Rectangle, Size2D};
use wcomp::output_manager::{Output, OutputEvent, OutputManager, OutputRequest, RenderSurface};

fn size(width: u32, height: u32) -> Size2D {
    Size2D { width, height }
}

fn at(x: i32, y: i32) -> Position2D {
    Position2D { x, y }
}

fn three() -> OutputManager {
    let mut manager = OutputManager::new();
    manager.add_output(1, RenderSurface { id: 1 }, size(800, 600));
    manager.add_output(2, RenderSurface { id: 2 }, size(1024, 768));
    manager.add_output(3, RenderSurface { id: 3 }, size(640, 480));
    manager
}

fn origins(manager: &OutputManager) -> Vec<(usize, i32, i32)> {
    manager
        .outputs_ref()
        .iter()
        .map(|output| (output.id, output.geometry.position.x, output.geometry.position.y))
        .collect()
}

#[test]
fn first_output_stands_at_the_origin() {
    let mut manager = OutputManager::new();
    let events = manager.add_output(7, RenderSurface { id: 1 }, size(800, 600));
    assert_eq!(
        events,
        vec![
            OutputEvent::Added { id: 7, handle: RenderSurface { id: 1 }, size: size(800, 600) },
            OutputEvent::Moved { id: 7, position: at(0, 0) },
        ]
    );
}

#[test]
fn outputs_stand_at_the_sum_of_the_widths_before() {
    assert_eq!(origins(&three()), vec![(1, 0, 0), (2, 800, 0), (3, 1824, 0)]);
}

#[test]
fn removing_the_last_output_moves_nothing() {
    let mut manager = three();
    assert_eq!(manager.del_output(3), vec![]);
    assert_eq!(origins(&manager), vec![(1, 0, 0), (2, 800, 0)]);
}

#[test]
fn removing_the_first_output_shifts_all() {
    let mut manager = three();
    assert_eq!(
        manager.del_output(1),
        vec![
            OutputEvent::Moved { id: 2, position: at(0, 0) },
            OutputEvent::Moved { id: 3, position: at(1024, 0) },
        ]
    );
    assert_eq!(origins(&manager), vec![(2, 0, 0), (3, 1024, 0)]);
}

#[test]
fn removing_an_unknown_output_does_nothing() {
    let mut manager = three();
    assert_eq!(manager.del_output(9), vec![]);
    assert_eq!(manager.resize_output(9, size(1, 1)), vec![]);
    assert_eq!(origins(&manager).len(), 3);
}

#[test]
fn resizing_an_output_shifts_those_after_it() {
    let mut manager = three();
    assert_eq!(
        manager.resize_output(1, size(1000, 600)),
        vec![
            OutputEvent::Resized { id: 1, size: size(1000, 600) },
            OutputEvent::Moved { id: 2, position: at(1000, 0) },
            OutputEvent::Moved { id: 3, position: at(2024, 0) },
        ]
    );
    assert_eq!(origins(&manager), vec![(1, 0, 0), (2, 1000, 0), (3, 2024, 0)]);
    // The height does not move anything.
    assert_eq!(
        manager.resize_output(2, size(1024, 10)),
        vec![OutputEvent::Resized { id: 2, size: size(1024, 10) }]
    );
}

#[test]
fn relative_to_absolute_adds_the_origin() {
    let manager = three();
    assert_eq!(manager.relative_to_absolute(2, at(10, 20)), Some(at(810, 20)));
    assert_eq!(manager.relative_to_absolute(1, at(-5, 7)), Some(at(-5, 7)));
    assert_eq!(manager.relative_to_absolute(9, at(10, 20)), None);
}

#[test]
fn optimal_size_is_half_the_first_output() {
    assert_eq!(OutputManager::new().get_surface_optimal_size(), size(200, 200));
    assert_eq!(three().get_surface_optimal_size(), size(400, 300));
}

#[test]
fn optimal_position_centres_and_clamps() {
    let manager = three();
    assert_eq!(manager.get_surface_optimal_position(&size(400, 300)), at(200, 150));
    assert_eq!(manager.get_surface_optimal_position(&size(24, 24)), at(388, 288));
    assert_eq!(manager.get_surface_optimal_position(&size(2000, 100)), at(0, 250));
    assert_eq!(manager.get_surface_optimal_position(&size(u32::MAX, u32::MAX)), at(0, 0));
    assert_eq!(OutputManager::new().get_surface_optimal_position(&size(10, 10)), at(0, 0));
}

#[test]
fn output_at_is_the_first_that_shows_the_position() {
    let manager = three();
    assert_eq!(manager.get_output_at(&at(0, 0)).map(|o| o.id), Some(1));
    assert_eq!(manager.get_output_at(&at(799, 599)).map(|o| o.id), Some(1));
    assert_eq!(manager.get_output_at(&at(800, 599)).map(|o| o.id), Some(2));
    assert_eq!(manager.get_output_at(&at(799, 600)).map(|o| o.id), None);
    assert_eq!(manager.get_output_at(&at(-1, 0)).map(|o| o.id), None);
    assert_eq!(manager.get_output_at(&at(2464, 0)).map(|o| o.id), None);
}

#[test]
fn output_ref_gives_the_index() {
    let manager = three();
    let (index, output) = manager.output_ref(2).unwrap();
    assert_eq!(index, 1);
    assert_eq!(
        *output,
        Output::new(2, Rectangle { position: at(800, 0), size: size(1024, 768) })
    );
    assert!(manager.output_ref(4).is_none());
}

#[test]
fn layout_wraps_past_the_coordinate_range() {
    let mut manager = OutputManager::new();
    manager.add_output(1, RenderSurface { id: 1 }, size(0x8000_0000, 1));
    let events = manager.add_output(2, RenderSurface { id: 2 }, size(1, 1));
    assert_eq!(events[1], OutputEvent::Moved { id: 2, position: at(i32::MIN, 0) });
}

#[test]
fn a_request_to_move_an_output_does_nothing() {
    let mut manager = three();
    let old = Output::new(1, Rectangle { position: at(0, 0), size: size(800, 600) });
    assert_eq!(manager.handle(OutputRequest::Moved { old, new_position: at(5, 5) }), vec![]);
    assert_eq!(origins(&manager), vec![(1, 0, 0), (2, 800, 0), (3, 1824, 0)]);
}
