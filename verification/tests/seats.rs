use wcomp::geometry::Position2D;
use wcomp::seat_manager::{
    AxisDirection, AxisSource, AxisValue, Button, CursorEvent, CursorRequest, Key, KeyboardEvent,
    KeyboardRequest, SeatEvent, SeatManager, SeatRequest, State,
};

fn at(x: i32, y: i32) -> Position2D {
    Position2D { x, y }
}

fn seat_with_devices() -> SeatManager {
    let mut manager = SeatManager::new();
    manager.add_seat(1, String::from("seat0"));
    manager.add_keyboard(1, 200, 25);
    manager.add_cursor(1, at(3, 4), Some(9));
    manager
}

#[test]
fn seat_is_added_without_devices() {
    let mut manager = SeatManager::new();
    assert_eq!(
        manager.add_seat(1, String::from("seat0")),
        vec![SeatEvent::Added { id: 1, name: String::from("seat0") }]
    );
    let seat = manager.seat_ref(1).unwrap();
    assert_eq!(seat.name, "seat0");
    assert!(seat.cursor.is_none() && seat.keyboard.is_none());
    assert!(manager.cursor_ref(1).is_none());
    assert!(manager.keyboard_ref(1).is_none());
}

#[test]
fn devices_need_a_seat() {
    let mut manager = SeatManager::new();
    assert_eq!(manager.add_keyboard(1, 200, 25), vec![]);
    assert_eq!(manager.add_cursor(1, at(0, 0), None), vec![]);
    assert_eq!(manager.del_keyboard(1), vec![]);
    assert_eq!(manager.del_cursor(1), vec![]);
    assert_eq!(manager.del_seat(1), vec![]);
}

#[test]
fn operations_on_missing_devices_report_nothing() {
    let mut manager = SeatManager::new();
    manager.add_seat(1, String::from("seat0"));
    assert_eq!(manager.move_cursor(1, at(1, 1)), vec![]);
    assert_eq!(manager.focus_cursor(1, Some(2)), vec![]);
    assert_eq!(manager.enter_cursor(1, 0), vec![]);
    assert_eq!(manager.left_cursor(1, 0), vec![]);
    assert_eq!(manager.cursor_button(1, 0, 0, None, State::Down), vec![]);
    assert_eq!(
        manager.cursor_axis(1, 0, AxisSource::Wheel, AxisDirection::Vertical, AxisValue::Discrete(1)),
        vec![]
    );
    assert_eq!(manager.keyboard_key(1, 0, 0, None, State::Down), vec![]);
    assert_eq!(manager.keyboard_focus(1, Some(3)), vec![]);
}

#[test]
fn keyboard_lifecycle() {
    let mut manager = SeatManager::new();
    manager.add_seat(1, String::from("seat0"));
    assert_eq!(
        manager.add_keyboard(1, 200, 25),
        vec![SeatEvent::Keyboard(KeyboardEvent::Added { id: 1, rate: 200, delay: 25 })]
    );
    let keyboard = *manager.keyboard_ref(1).unwrap();
    assert_eq!((keyboard.focus, keyboard.rate, keyboard.delay), (None, 200, 25));
    assert_eq!(
        manager.keyboard_focus(1, Some(5)),
        vec![SeatEvent::Keyboard(KeyboardEvent::Focus { id: 1, surface: Some(5) })]
    );
    assert_eq!(manager.keyboard_ref(1).unwrap().focus, Some(5));
    assert_eq!(
        manager.keyboard_key(1, 10, 30, Some(Key { symbol: 97 }), State::Up),
        vec![SeatEvent::Keyboard(KeyboardEvent::Key {
            id: 1,
            time: 10,
            code: 30,
            key: Some(Key { symbol: 97 }),
            state: State::Up,
        })]
    );
    assert_eq!(
        manager.del_keyboard(1),
        vec![SeatEvent::Keyboard(KeyboardEvent::Removed { id: 1 })]
    );
    assert!(manager.keyboard_ref(1).is_none());
}

#[test]
fn move_sets_position_and_leaves_focus() {
    let mut manager = seat_with_devices();
    manager.focus_cursor(1, Some(4));
    assert_eq!(
        manager.move_cursor(1, at(50, 60)),
        vec![SeatEvent::Cursor(CursorEvent::Moved { id: 1, position: at(50, 60) })]
    );
    let cursor = manager.cursor_ref(1).unwrap();
    assert_eq!(*cursor.position(), at(50, 60));
    assert_eq!(*cursor.focus(), Some(4));
}

#[test]
fn focus_is_reported_only_on_change() {
    let mut manager = seat_with_devices();
    assert_eq!(manager.focus_cursor(1, None), vec![]);
    assert_eq!(
        manager.focus_cursor(1, Some(4)),
        vec![SeatEvent::Cursor(CursorEvent::Focus { id: 1, surface: Some(4) })]
    );
    assert_eq!(manager.focus_cursor(1, Some(4)), vec![]);
    assert_eq!(
        manager.focus_cursor(1, None),
        vec![SeatEvent::Cursor(CursorEvent::Focus { id: 1, surface: None })]
    );
}

#[test]
fn enter_records_the_output() {
    let mut manager = seat_with_devices();
    assert_eq!(*manager.cursor_ref(1).unwrap().output(), None);
    assert_eq!(
        manager.enter_cursor(1, 7),
        vec![SeatEvent::Cursor(CursorEvent::Entered { id: 1, output_id: 7 })]
    );
    assert_eq!(*manager.cursor_ref(1).unwrap().output(), Some(7));
    assert_eq!(
        manager.left_cursor(1, 7),
        vec![SeatEvent::Cursor(CursorEvent::Left { id: 1, output_id: 7 })]
    );
    assert_eq!(*manager.cursor_ref(1).unwrap().output(), Some(7));
}

#[test]
fn button_and_axis_are_passed_on() {
    let mut manager = seat_with_devices();
    assert_eq!(
        manager.cursor_button(1, 3, 272, Some(Button { symbol: 1 }), State::Down),
        vec![SeatEvent::Cursor(CursorEvent::Button {
            id: 1,
            time: 3,
            code: 272,
            key: Some(Button { symbol: 1 }),
            state: State::Down,
        })]
    );
    assert_eq!(
        manager.cursor_axis(1, 4, AxisSource::Wheel, AxisDirection::Horizontal, AxisValue::Continuous),
        vec![SeatEvent::Cursor(CursorEvent::Axis {
            id: 1,
            time: 4,
            source: AxisSource::Wheel,
            direction: AxisDirection::Horizontal,
            value: AxisValue::Continuous,
        })]
    );
    assert_eq!(*manager.cursor_ref(1).unwrap().position(), at(3, 4));
}

#[test]
fn seat_removal_takes_its_devices() {
    let mut manager = seat_with_devices();
    assert_eq!(manager.del_seat(1), vec![SeatEvent::Removed { id: 1 }]);
    assert!(manager.seat_ref(1).is_none());
    assert!(manager.cursor_ref(1).is_none());
}

#[test]
fn requests_are_handled_like_the_calls() {
    let mut manager = seat_with_devices();
    assert_eq!(
        manager.handle(SeatRequest::from(CursorRequest::Focus { id: 1, surface: 8 })),
        vec![SeatEvent::from(CursorEvent::Focus { id: 1, surface: Some(8) })]
    );
    assert_eq!(manager.handle(SeatRequest::Keyboard(KeyboardRequest::Focus { id: Some(2) })), vec![]);
    assert_eq!(manager.keyboard_ref(1).unwrap().focus, None);
    assert_eq!(
        manager.handle(SeatRequest::Cursor(CursorRequest::Removed { id: 1 })),
        vec![SeatEvent::Cursor(CursorEvent::Removed { id: 1 })]
    );
}
