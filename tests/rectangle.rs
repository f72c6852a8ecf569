use rect_geometry::point::Point;
use rect_geometry::rectangle::Rectangle;

#[test]
fn test() {
    let r = Rectangle::new(1, 2, 3, 4);
    println!("{:?}", r);
    let r = Rectangle::new(1i64, 2, 3, 4);
    println!("{:?}", r);
}

#[test]
fn new_with_nonnegative_extent_keeps_anchor() {
    let r = Rectangle::new(3, -4, 7, 2);
    assert_eq!(r.left(), 3);
    assert_eq!(r.bottom(), -4);
    assert_eq!(r.right(), 10);
    assert_eq!(r.top(), -2);
    assert_eq!(r.width(), 7);
    assert_eq!(r.height(), 2);
}

#[test]
fn new_with_negative_width_reaches_left() {
    let r = Rectangle::new(10, 1, -4, 6);
    assert_eq!(r.width(), 4);
    assert_eq!(r.left(), 6);
    assert_eq!(r.right(), 10);
    assert_eq!(r.height(), 6);
    assert_eq!(r.bottom(), 1);
}

#[test]
fn new_with_negative_width_and_height() {
    let r = Rectangle::new(5, 5, -3, -2);
    assert_eq!(r.x(), 2);
    assert_eq!(r.y(), 3);
    assert_eq!(r.width(), 3);
    assert_eq!(r.height(), 2);
}

#[test]
fn new_with_negative_height_uses_height() {
    let r = Rectangle::new(0i64, 10, 100, -7);
    assert_eq!(r.y(), 3);
    assert_eq!(r.height(), 7);
    assert_eq!(r.top(), 10);
    assert_eq!(r.width(), 100);
}

#[test]
fn new_zero_sized() {
    let r = Rectangle::new(0, 0, 0, 0);
    assert_eq!(r.width(), 0);
    assert_eq!(r.height(), 0);
    assert_eq!(r.right(), 0);
    assert_eq!(r.top(), 0);
}

#[test]
fn new_at_the_edge_of_the_range() {
    let r = Rectangle::new(i64::MAX, i64::MAX, -i64::MAX, -1);
    assert_eq!(r.x(), 0);
    assert_eq!(r.width(), i64::MAX);
    assert_eq!(r.right(), i64::MAX);
    assert_eq!(r.y(), i64::MAX - 1);
    assert_eq!(r.top(), i64::MAX);
}

#[test]
fn corners_and_center() {
    let r = Rectangle::new(1, 2, 5, 3);
    assert_eq!(r.bottom_left(), Point { x: 1, y: 2 });
    assert_eq!(r.bottom_right(), Point { x: 6, y: 2 });
    assert_eq!(r.top_left(), Point { x: 1, y: 5 });
    assert_eq!(r.top_right(), Point { x: 6, y: 5 });
    assert_eq!(r.center(), Point { x: 3, y: 3 });
}

#[test]
fn center_of_even_extent() {
    let r = Rectangle::new(-10, 0, 10, 4);
    assert_eq!(r.center(), Point { x: -5, y: 2 });
}

#[test]
fn contains_point_is_inclusive() {
    let r = Rectangle::new(0, 0, 10, 5);
    assert!(r.contains_point(&r.bottom_left()));
    assert!(r.contains_point(&r.bottom_right()));
    assert!(r.contains_point(&r.top_left()));
    assert!(r.contains_point(&r.top_right()));
    assert!(r.contains_point(&Point { x: 10, y: 2 }));
    assert!(r.contains_point(&Point { x: 4, y: 3 }));
    assert!(!r.contains_point(&Point { x: 11, y: 2 }));
    assert!(!r.contains_point(&Point { x: 4, y: -1 }));
    assert!(!r.contains_point(&Point { x: -1, y: 0 }));
    assert!(!r.contains_point(&Point { x: 0, y: 6 }));
}

#[test]
fn contains_rect_compares_anchor_and_extent() {
    let a = Rectangle::new(0, 0, 10, 10);
    assert!(a.contains_rect(&Rectangle::new(2, 2, 3, 3)));
    assert!(a.contains_rect(&Rectangle::new(0, 0, 10, 10)));
    assert!(!a.contains_rect(&Rectangle::new(-1, 2, 3, 3)));
    assert!(!a.contains_rect(&Rectangle::new(2, -1, 3, 3)));
    assert!(!a.contains_rect(&Rectangle::new(2, 2, 11, 3)));
    assert!(!a.contains_rect(&Rectangle::new(2, 2, 3, 11)));
    // The far edges are not compared.
    assert!(a.contains_rect(&Rectangle::new(8, 8, 5, 5)));
}

#[test]
fn united_overlapping() {
    let a = Rectangle::new(0, 0, 10, 10);
    let b = Rectangle::new(5, 5, 10, 10);
    assert_eq!(a.united(&b), Rectangle::new(0, 0, 15, 15));
    assert_eq!(a.intersected(&b), Rectangle::new(5, 5, 5, 5));
}

#[test]
fn disjoint_rectangles() {
    let a = Rectangle::new(0, 0, 10, 10);
    let b = Rectangle::new(20, 20, 5, 5);
    assert!(!a.is_intersected(&b));
    assert_eq!(a.intersected(&b), Rectangle::new(0, 0, 0, 0));
    assert_eq!(a.united(&b), Rectangle::new(0, 0, 25, 25));
}

#[test]
fn united_contains_both_corners() {
    let a = Rectangle::new(-3, 4, 2, 1);
    let b = Rectangle::new(7, -8, 1, 2);
    let u = a.united(&b);
    assert!(u.width() >= 0 && u.height() >= 0);
    for r in [&a, &b] {
        assert!(u.contains_point(&r.bottom_left()));
        assert!(u.contains_point(&r.bottom_right()));
        assert!(u.contains_point(&r.top_left()));
        assert!(u.contains_point(&r.top_right()));
    }
    assert_eq!(u, Rectangle::new(-3, -8, 11, 13));
}

#[test]
fn intersected_when_inside() {
    let outer = Rectangle::new(0, 0, 100, 100);
    let inner = Rectangle::new(10, 20, 5, 6);
    assert!(outer.is_intersected(&inner));
    assert!(inner.is_intersected(&outer));
    assert_eq!(outer.intersected(&inner), Rectangle::new(10, 20, 5, 6));
    assert_eq!(inner.intersected(&outer), Rectangle::new(10, 20, 5, 6));
}

#[test]
fn crossing_bars_are_not_detected() {
    let horizontal = Rectangle::new(0, 4, 10, 2);
    let vertical = Rectangle::new(4, 0, 2, 10);
    assert!(!horizontal.is_intersected(&vertical));
    assert_eq!(horizontal.intersected(&vertical), Rectangle::new(0, 0, 0, 0));
}

#[test]
fn touching_edges_intersect() {
    let a = Rectangle::new(0, 0, 5, 5);
    let b = Rectangle::new(5, 0, 5, 5);
    assert!(a.is_intersected(&b));
    assert_eq!(a.intersected(&b), Rectangle::new(5, 0, 0, 5));
}

#[test]
fn transposed_swaps_extent() {
    let r = Rectangle::new(1, 2, 3, 4);
    let t = r.transposed();
    assert_eq!(t.x(), 1);
    assert_eq!(t.y(), 2);
    assert_eq!(t.width(), 4);
    assert_eq!(t.height(), 3);
    assert_eq!(t.transposed(), Rectangle::new(1, 2, 3, 4));
}

#[test]
fn adjust_const_moves_corners() {
    let r = Rectangle::new(0, 0, 10, 10);
    assert_eq!(r.adjust_const(1, 2, -3, 4), Rectangle::new(1, 2, 6, 12));
    assert_eq!(r.adjust_const(-5, -5, 5, 5), Rectangle::new(-5, -5, 20, 20));
}

#[test]
fn adjust_const_swaps_crossed_corners() {
    let r = Rectangle::new(0, 0, 10, 10);
    let a = r.adjust_const(15, 12, -2, -4);
    assert_eq!(a, Rectangle::new(8, 6, 7, 6));
    assert!(a.width() >= 0 && a.height() >= 0);
}

#[test]
fn adjust_in_place() {
    let mut r = Rectangle::new(2, 3, 4, 5);
    r.adjust(1, -1, 2, 2);
    assert_eq!(r, Rectangle::new(3, 2, 5, 8));
    assert_eq!(r.x(), 3);
    assert_eq!(r.y(), 2);
}

#[test]
fn operators_match_methods() {
    let a = Rectangle::new(0, 0, 10, 10);
    let b = Rectangle::new(5, 5, 10, 10);
    assert_eq!(a & b, Rectangle::new(5, 5, 5, 5));
    let a = Rectangle::new(0, 0, 10, 10);
    let b = Rectangle::new(5, 5, 10, 10);
    assert_eq!(a | b, Rectangle::new(0, 0, 15, 15));
    let mut c = Rectangle::new(0, 0, 10, 10);
    c &= Rectangle::new(5, 5, 10, 10);
    assert_eq!(c, Rectangle::new(5, 5, 5, 5));
}

#[test]
fn default_is_empty_at_origin() {
    let r: Rectangle<i32> = Rectangle::default();
    assert_eq!(r, Rectangle::new(0, 0, 0, 0));
}

#[test]
fn or_assign_unites() {
    let mut c = Rectangle::new(0, 0, 10, 10);
    c |= Rectangle::new(5, 5, 10, 10);
    assert_eq!(c, Rectangle::new(0, 0, 15, 15));
    let mut d = Rectangle::new(0, 0, 10, 10);
    d &= Rectangle::new(20, 20, 5, 5);
    assert_eq!(d, Rectangle::new(0, 0, 0, 0));
}
