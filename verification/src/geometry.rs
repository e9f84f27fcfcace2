//! Axis-aligned rectangles, their overlap, and the degeneracy test that
//! filters grazing contacts.
//!
//! The vertical axis grows downward, as on screen: `top` is the smaller `y`.
//! An overlap thinner than `RECT_TOLERANCE` along either axis counts as no
//! overlap at all, so floating-edge contact never registers as a collision.

use vstd::prelude::*;
use crate::units::{RECT_TOLERANCE, SEGMENTS_LIMIT, TILE_SIZE, in_coord_range};

verus! {

/// An axis-aligned rectangle in hundredths of a world unit.
#[derive(Clone, Copy, PartialEq, Eq, Structural, Debug)]
pub struct Rect {
    pub x: i64,
    pub y: i64,
    pub w: i64,
    pub h: i64,
}

/// The mathematical value of a rectangle.
pub ghost struct RectV {
    pub x: int,
    pub y: int,
    pub w: int,
    pub h: int,
}

impl RectV {
    pub open spec fn left(self) -> int {
        self.x
    }

    pub open spec fn right(self) -> int {
        self.x + self.w
    }

    pub open spec fn top(self) -> int {
        self.y
    }

    pub open spec fn bottom(self) -> int {
        self.y + self.h
    }

    /// Corner coordinates within the saturation bound, sides of a size a
    /// platform or the player can have.
    pub open spec fn wf(self) -> bool {
        &&& in_coord_range(self.x)
        &&& in_coord_range(self.y)
        &&& 0 <= self.w <= (SEGMENTS_LIMIT as int) * (TILE_SIZE as int)
        &&& 0 <= self.h <= (SEGMENTS_LIMIT as int) * (TILE_SIZE as int)
    }
}

impl View for Rect {
    type V = RectV;

    open spec fn view(&self) -> RectV {
        RectV { x: self.x as int, y: self.y as int, w: self.w as int, h: self.h as int }
    }
}

/// The canonical empty rectangle returned for degenerate overlaps.
pub open spec fn spec_zero_rect() -> RectV {
    RectV { x: 0, y: 0, w: 0, h: 0 }
}

/// The raw axis-aligned overlap, before the degeneracy filter: its sides can
/// be negative when the rectangles are apart.
pub open spec fn spec_raw_intersection(a: RectV, b: RectV) -> RectV {
    let x = if a.left() >= b.left() {
        a.left()
    } else {
        b.left()
    };
    let y = if a.top() >= b.top() {
        a.top()
    } else {
        b.top()
    };
    let right = if a.right() <= b.right() {
        a.right()
    } else {
        b.right()
    };
    let bottom = if a.bottom() <= b.bottom() {
        a.bottom()
    } else {
        b.bottom()
    };
    RectV { x, y, w: right - x, h: bottom - y }
}

/// Whether a rectangle is too thin along either axis to count as an overlap.
pub open spec fn spec_is_empty_with_tolerance(r: RectV) -> bool {
    r.w < RECT_TOLERANCE as int || r.h < RECT_TOLERANCE as int
}

/// The overlap of two rectangles: the raw overlap where it is at least the
/// tolerance along both axes, the zero rectangle otherwise.
pub open spec fn spec_intersection(a: RectV, b: RectV) -> RectV {
    let raw = spec_raw_intersection(a, b);
    if spec_is_empty_with_tolerance(raw) {
        spec_zero_rect()
    } else {
        raw
    }
}

/// Computes the overlap rectangle of `a` and `b`; a grazing overlap thinner
/// than the tolerance along either axis collapses to the zero rectangle.
pub fn rect_intersection(a: Rect, b: Rect) -> (r: Rect)
    requires
        a@.wf(),
        b@.wf(),
    ensures
        r@ == spec_intersection(a@, b@),
{
    let x = if a.x >= b.x {
        a.x
    } else {
        b.x
    };
    let y = if a.y >= b.y {
        a.y
    } else {
        b.y
    };
    let right = if a.x + a.w <= b.x + b.w {
        a.x + a.w
    } else {
        b.x + b.w
    };
    let bottom = if a.y + a.h <= b.y + b.h {
        a.y + a.h
    } else {
        b.y + b.h
    };
    let w = right - x;
    let h = bottom - y;
    if w < RECT_TOLERANCE || h < RECT_TOLERANCE {
        Rect { x: 0, y: 0, w: 0, h: 0 }
    } else {
        Rect { x, y, w, h }
    }
}

/// Whether a rectangle is thinner than the tolerance along either axis.
pub fn rect_is_empty_with_tolerance(a: Rect) -> (r: bool)
    ensures
        r == spec_is_empty_with_tolerance(a@),
{
    a.w < RECT_TOLERANCE || a.h < RECT_TOLERANCE
}

/// Two rectangles that do not overlap — each lying fully at or beyond a side
/// of the other — intersect in the zero rectangle.
pub proof fn lemma_disjoint_intersection_zero(a: RectV, b: RectV)
    requires
        a.wf(),
        b.wf(),
        a.right() <= b.left() || b.right() <= a.left() || a.bottom() <= b.top() || b.bottom()
            <= a.top(),
    ensures
        spec_intersection(a, b) == spec_zero_rect(),
{
}

/// A rectangle of genuine size intersected with itself comes back unchanged.
pub proof fn lemma_self_intersection(a: RectV)
    requires
        a.wf(),
        a.w >= RECT_TOLERANCE as int,
        a.h >= RECT_TOLERANCE as int,
    ensures
        spec_intersection(a, a) == a,
{
}

} // verus!
