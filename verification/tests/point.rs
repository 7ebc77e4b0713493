use records::point::{Point, UnitLike};

#[test]
fn point_fields_are_read_by_position() {
    let new_point = Point(10, 12);
    assert_eq!(new_point.0, 10);
    assert_eq!(new_point.1, 12);
}

#[test]
fn point_positions_are_not_swapped() {
    let p = Point(-3, i32::MAX);
    assert_eq!(p.0, -3);
    assert_eq!(p.1, i32::MAX);
    assert_ne!(Point(1, 2), Point(2, 1));
    assert_eq!(Point(1, 2), Point(1, 2));
}

#[test]
fn unit_like_is_equal_to_itself() {
    let a = UnitLike;
    let b = UnitLike;
    assert_eq!(a, a);
    assert_eq!(a, b);
    assert!(!(a != b));
}

#[test]
fn unit_like_takes_no_space() {
    assert_eq!(std::mem::size_of::<UnitLike>(), 0);
}
