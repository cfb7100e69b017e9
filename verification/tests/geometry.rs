use wcomp::geometry::{to_i32, to_u32, Offset2D, Position2D, Rectangle, Size2D};

fn at(x: i32, y: i32) -> Position2D {
    Position2D { x, y }
}

#[test]
fn reduction_to_32_bits() {
    assert_eq!(to_i32(5), 5);
    assert_eq!(to_i32(-5), -5);
    assert_eq!(to_i32(i32::MAX as i64 + 1), i32::MIN);
    assert_eq!(to_i32(i32::MIN as i64 - 1), i32::MAX);
    assert_eq!(to_i32(1 << 32), 0);
    assert_eq!(to_i32(i64::MIN), 0);
    assert_eq!(to_i32(i64::MAX), -1);
    assert_eq!(to_u32(5), 5);
    assert_eq!(to_u32(-1), u32::MAX);
    assert_eq!(to_u32(1 << 32), 0);
    assert_eq!(to_u32((1 << 32) + 7), 7);
    assert_eq!(to_u32(i64::MIN), 0);
}

#[test]
fn points_move_by_offsets() {
    assert_eq!(at(1, 2).plus(Offset2D { x: 10, y: -20 }), at(11, -18));
    assert_eq!(at(1, 2).minus(Offset2D { x: 10, y: -20 }), at(-9, 22));
    assert_eq!(at(1, 2).offset_from(at(10, -20)), Offset2D { x: -9, y: 22 });
    assert_eq!(at(i32::MAX, 0).plus(Offset2D { x: 1, y: 0 }), at(i32::MIN, 0));
    assert_eq!(at(i32::MIN, 0).minus(Offset2D { x: 1, y: 0 }), at(i32::MAX, 0));
}

#[test]
fn rectangles_are_open_at_the_far_sides() {
    let r = Rectangle { position: at(10, 20), size: Size2D { width: 30, height: 40 } };
    assert!(r.contains(&at(10, 20)));
    assert!(r.contains(&at(39, 59)));
    assert!(!r.contains(&at(40, 59)));
    assert!(!r.contains(&at(39, 60)));
    assert!(!r.contains(&at(9, 20)));
    assert!(r.contains_within(10, &at(0, 10)));
    assert!(r.contains_within(10, &at(49, 69)));
    assert!(!r.contains_within(10, &at(50, 69)));
    assert!(!r.contains_within(10, &at(-1, 10)));
    assert_eq!(r.x_offset(), 40);
}

#[test]
fn containment_does_not_wrap() {
    let r = Rectangle { position: at(i32::MAX - 5, 0), size: Size2D { width: 100, height: 1 } };
    assert!(r.contains(&at(i32::MAX, 0)));
    assert!(!r.contains(&at(i32::MIN, 0)));
    assert_eq!(r.x_offset(), i32::MIN + 94);
    let full = Rectangle { position: at(i32::MIN, i32::MIN), size: Size2D { width: u32::MAX, height: u32::MAX } };
    assert!(full.contains(&at(i32::MAX - 1, 0)));
    assert!(full.contains_within(u32::MAX, &at(i32::MAX, i32::MAX)));
}
