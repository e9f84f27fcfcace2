//! Rectangle overlap and degeneracy behaviour.

use iron_jump::geometry::{Rect, rect_intersection, rect_is_empty_with_tolerance};

#[test]
fn identical_rectangles_intersect_unchanged() {
    let r = Rect { x: 1000, y: 2000, w: 3200, h: 3200 };
    let i = rect_intersection(r, r);
    assert_eq!(i, r);
}

#[test]
fn disjoint_rectangles_intersect_in_zero() {
    let a = Rect { x: 0, y: 0, w: 3200, h: 3200 };
    let b = Rect { x: 10000, y: 0, w: 3200, h: 3200 };
    let i = rect_intersection(a, b);
    assert_eq!(i, Rect { x: 0, y: 0, w: 0, h: 0 });
    let j = rect_intersection(b, a);
    assert_eq!(j, Rect { x: 0, y: 0, w: 0, h: 0 });
}

#[test]
fn touching_rectangles_intersect_in_zero() {
    let a = Rect { x: 0, y: 0, w: 3200, h: 3200 };
    let b = Rect { x: 3200, y: 0, w: 3200, h: 3200 };
    assert_eq!(rect_intersection(a, b), Rect { x: 0, y: 0, w: 0, h: 0 });
}

#[test]
fn partial_overlap_is_the_common_rectangle() {
    let a = Rect { x: 0, y: 0, w: 3200, h: 3200 };
    let b = Rect { x: 1600, y: 2400, w: 3200, h: 3200 };
    assert_eq!(rect_intersection(a, b), Rect { x: 1600, y: 2400, w: 1600, h: 800 });
}

#[test]
fn grazing_overlap_collapses_to_zero() {
    // Overlap of width 5, under the tolerance of 10 (0.1 units).
    let a = Rect { x: 0, y: 0, w: 3200, h: 3200 };
    let b = Rect { x: 3195, y: 0, w: 3200, h: 3200 };
    assert_eq!(rect_intersection(a, b), Rect { x: 0, y: 0, w: 0, h: 0 });
}

#[test]
fn emptiness_follows_the_tolerance() {
    assert!(rect_is_empty_with_tolerance(Rect { x: 0, y: 0, w: 9, h: 3200 }));
    assert!(rect_is_empty_with_tolerance(Rect { x: 0, y: 0, w: 3200, h: 9 }));
    assert!(!rect_is_empty_with_tolerance(Rect { x: 0, y: 0, w: 10, h: 10 }));
}
