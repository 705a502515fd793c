use pomelo_kernel::graphics::{Color, Point, Rectangle, Size, Vector2d};

#[test]
fn rectangle_corners_and_extent() {
    let r = Rectangle::new(Point::new(10, 20), Size::new(30, 40));
    assert_eq!(r.min_x(), 10);
    assert_eq!(r.min_y(), 20);
    assert_eq!(r.max_x(), 40);
    assert_eq!(r.max_y(), 60);
    assert_eq!(r.width(), 30);
    assert_eq!(r.height(), 40);
    assert_eq!(r.top_left(), Point::new(10, 20));
    assert_eq!(r.top_right(), Point::new(40, 20));
    assert_eq!(r.bottom_left(), Point::new(10, 60));
    assert_eq!(r.bottom_right(), Point::new(40, 60));
}

#[test]
fn from_corner_matches_explicit_size() {
    let r = Rectangle::from_corner(Point::new(-5, 2), Point::new(5, 12));
    assert_eq!(r.width(), 10);
    assert_eq!(r.height(), 10);
    assert_eq!(r.min_x(), -5);
    assert_eq!(r.max_y(), 12);
}

#[test]
fn contains_is_half_open() {
    let r = Rectangle::new(Point::new(0, 0), Size::new(10, 10));
    assert!(r.contains(&Point::new(0, 0)));
    assert!(r.contains(&Point::new(9, 9)));
    assert!(!r.contains(&Point::new(10, 9)));
    assert!(!r.contains(&Point::new(9, 10)));
    assert!(!r.contains(&Point::new(-1, 5)));
}

#[test]
fn intersection_of_overlapping_rectangles() {
    let a = Rectangle::new(Point::new(0, 0), Size::new(10, 10));
    let b = Rectangle::new(Point::new(5, 5), Size::new(10, 10));
    let i = a.intersection(&b);
    assert_eq!(i.min_x(), 5);
    assert_eq!(i.min_y(), 5);
    assert_eq!(i.max_x(), 10);
    assert_eq!(i.max_y(), 10);
}

#[test]
fn intersection_of_disjoint_rectangles_is_empty() {
    let a = Rectangle::new(Point::new(0, 0), Size::new(4, 4));
    let b = Rectangle::new(Point::new(10, 10), Size::new(4, 4));
    let i = a.intersection(&b);
    assert_eq!(i.width(), 0);
    assert_eq!(i.height(), 0);
}

#[test]
fn union_is_the_bounding_box() {
    let a = Rectangle::new(Point::new(0, 0), Size::new(4, 4));
    let b = Rectangle::new(Point::new(10, 10), Size::new(4, 4));
    let u = a.union(&b);
    assert_eq!(u.min_x(), 0);
    assert_eq!(u.min_y(), 0);
    assert_eq!(u.max_x(), 14);
    assert_eq!(u.max_y(), 14);
}

#[test]
fn points_are_row_major() {
    let r = Rectangle::new(Point::new(1, 5), Size::new(3, 2));
    let pts = r.points();
    assert_eq!(pts.len(), 6);
    assert_eq!(pts[0], Point::new(1, 5));
    assert_eq!(pts[1], Point::new(2, 5));
    assert_eq!(pts[2], Point::new(3, 5));
    assert_eq!(pts[3], Point::new(1, 6));
    assert_eq!(pts[5], Point::new(3, 6));

    assert_eq!(r.xs(), vec![1, 2, 3]);
    assert_eq!(r.ys(), vec![5, 6]);
}

#[test]
fn clamped_clamps_both_coordinates_into_the_horizontal_extent() {
    let r = Rectangle::new(Point::new(0, 0), Size::new(10, 20));
    // Both coordinates are clamped into [min_x, max_x].
    assert_eq!(Point::new(5, 15).clamped(r), Point::new(5, 10));
    assert_eq!(Point::new(-3, 4).clamped(r), Point::new(0, 4));
    assert_eq!(Point::new(12, -1).clamped(r), Point::new(10, 0));
}

#[test]
fn colors_decode_from_codes() {
    assert_eq!(Color::from_code(0x123456), Color::new(0x12, 0x34, 0x56));
    assert_eq!(Color::gray_scale(7), Color::new(7, 7, 7));
    assert_eq!(Color::from_code(0xFFFFFF), Color::new(255, 255, 255));
}

#[test]
fn zero_constructors() {
    assert_eq!(Point::zero(), Point::new(0, 0));
    assert_eq!(Vector2d::zero(), Vector2d::new(0, 0));
    assert_eq!(Size::zero(), Size::new(0, 0));
    let e = Rectangle::empty();
    assert_eq!(e.width(), 0);
    assert_eq!(e.height(), 0);
}
