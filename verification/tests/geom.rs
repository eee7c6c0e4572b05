//! Rectangles cut along the axes through a point, and the finite range iterator.

use ves::geom::{FiniteRange, Point, Rect, RectIntersection, Size};

fn rect(min: (u32, u32), max: (u32, u32)) -> Rect {
    Rect::new(Point::new(min.0, min.1), Point::new(max.0, max.1))
}

#[test]
fn test_intersect_point_inside() {
    let expected_intersection = RectIntersection::Both {
        top_left: rect((3, 14), (5, 24)),
        top_right: rect((6, 14), (12, 24)),
        bottom_left: rect((3, 25), (5, 30)),
        bottom_right: rect((6, 25), (12, 30)),
    };

    let rect = rect((3, 14), (12, 30));
    let intersection = rect.intersect_point(Point::new(5, 24));
    assert_eq!(expected_intersection, intersection);
}

#[test]
fn test_intersect_point_outside_before() {
    let expected_intersection = RectIntersection::Uncut;

    let rect = rect((3, 14), (12, 30));
    let intersection = rect.intersect_point(Point::new(2, 12));
    assert_eq!(expected_intersection, intersection);
}

#[test]
fn test_intersect_point_outside_after() {
    let expected_intersection = RectIntersection::Uncut;

    let rect = rect((3, 14), (12, 30));
    let intersection = rect.intersect_point(Point::new(14, 31));
    assert_eq!(expected_intersection, intersection);
}

#[test]
fn test_intersect_point_vertical() {
    let expected_intersection = RectIntersection::Vertical {
        left: rect((3, 14), (5, 30)),
        right: rect((6, 14), (12, 30)),
    };

    let rect = rect((3, 14), (12, 30));
    let intersection = rect.intersect_point(Point::new(5, 31));
    assert_eq!(expected_intersection, intersection);
}

#[test]
fn test_intersect_point_horizontal() {
    let expected_intersection = RectIntersection::Horizontal {
        top: rect((3, 14), (12, 24)),
        bottom: rect((3, 25), (12, 30)),
    };

    let rect = rect((3, 14), (12, 30));
    let intersection = rect.intersect_point(Point::new(2, 24));
    assert_eq!(expected_intersection, intersection);
}

#[test]
fn test_intersect_point_top_left() {
    let expected_intersection = RectIntersection::Both {
        top_left: rect((3, 14), (3, 14)),
        top_right: rect((4, 14), (12, 14)),
        bottom_left: rect((3, 15), (3, 30)),
        bottom_right: rect((4, 15), (12, 30)),
    };

    let rect = rect((3, 14), (12, 30));
    let intersection = rect.intersect_point(Point::new(3, 14));
    assert_eq!(expected_intersection, intersection);
}

#[test]
fn test_intersect_point_bottom_right() {
    let expected_intersection = RectIntersection::Uncut;

    let rect = rect((3, 14), (12, 30));
    let intersection = rect.intersect_point(Point::new(12, 30));
    assert_eq!(expected_intersection, intersection);
}

#[test]
fn intersection_parts_cover_the_rectangle_once() {
    let r = rect((3, 14), (12, 30));
    let parts = r.intersect_point(Point::new(5, 24)).parts();
    assert_eq!(parts.len(), 4);
    let area: u32 = parts.iter().map(|p| p.width().raw() * p.height().raw()).sum();
    assert_eq!(area, r.width().raw() * r.height().raw());
    assert!(r.intersect_point(Point::new(12, 30)).parts().is_empty());
}

#[test]
fn rect_accessors() {
    let r = Rect::new_from_size(Point::new(2, 3), Size::new(4, 5));
    assert_eq!(r.min_x().raw(), 2);
    assert_eq!(r.min_y().raw(), 3);
    assert_eq!(r.max_x().raw(), 5);
    assert_eq!(r.max_y().raw(), 7);
    assert_eq!(r.size(), Size::new(4, 5));
    assert_eq!(r.range_x(), 2..=5);
    assert_eq!(r.range_y(), 3..=7);
    assert_eq!(Size::new_square(6), Size::new(6, 6));
    assert_eq!(Size::new(3, 2).as_rect(), rect((0, 0), (2, 1)));
}

#[test]
fn finite_range_iterates_from_both_ends() {
    let mut range = FiniteRange::new(3, 6);
    assert_eq!(range.next(), Some(3));
    assert_eq!(range.next_back(), Some(6));
    assert_eq!(range.next(), Some(4));
    assert_eq!(range.next(), Some(5));
    assert_eq!(range.next(), None);
    assert_eq!(range.next_back(), None);

    let mut single = FiniteRange::new(9, 9);
    assert_eq!(single.next_back(), Some(9));
    assert_eq!(single.next(), None);
}

#[test]
fn rect_from_size_gives_the_size_back() {
    let origin = Point::from((7, 9));
    assert_eq!(origin, Point::new(7, 9));
    let size = Size::new(5, 3);
    let r = Rect::new_from_size(origin, size);
    assert_eq!(r.min_x().raw(), 7);
    assert_eq!(r.min_y().raw(), 9);
    assert_eq!(r.size(), size);
}
