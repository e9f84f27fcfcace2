//! Platforms and the polymorphic game-object collection.
//!
//! A platform is a static axis-aligned collider: a top-left corner and a
//! positive tile count along each axis.  The world's entity list holds
//! tagged game objects; platforms are the only kind today, and the
//! `is_platform` capability flag lets future kinds opt out of collision.

use vstd::prelude::*;
use crate::geometry::{Rect, RectV};
use crate::units::{SEGMENTS_LIMIT, TILE_SIZE, in_coord_range, spec_shift};

verus! {

/// A static rectangular platform: top-left corner and tile counts.
#[derive(Clone, Copy, PartialEq, Eq, Structural, Debug)]
pub struct Platform {
    pub x: i64,
    pub y: i64,
    pub width_segments: i64,
    pub height_segments: i64,
}

/// The mathematical value of a platform.
pub ghost struct PlatformV {
    pub x: int,
    pub y: int,
    pub width_segments: int,
    pub height_segments: int,
}

impl View for Platform {
    type V = PlatformV;

    open spec fn view(&self) -> PlatformV {
        PlatformV {
            x: self.x as int,
            y: self.y as int,
            width_segments: self.width_segments as int,
            height_segments: self.height_segments as int,
        }
    }
}

impl PlatformV {
    /// The rectangle the platform covers: its tile counts times the tile
    /// size.
    pub open spec fn rect(self) -> RectV {
        RectV {
            x: self.x,
            y: self.y,
            w: self.width_segments * TILE_SIZE as int,
            h: self.height_segments * TILE_SIZE as int,
        }
    }

    /// The platform moved with the world by `(dx, dy)`, saturating at the
    /// coordinate bound.
    pub open spec fn shifted(self, dx: int, dy: int) -> PlatformV {
        PlatformV { x: spec_shift(self.x, dx), y: spec_shift(self.y, dy), ..self }
    }

    /// Corner within the coordinate bound, positive bounded tile counts.
    pub open spec fn wf(self) -> bool {
        &&& in_coord_range(self.x)
        &&& in_coord_range(self.y)
        &&& 1 <= self.width_segments <= SEGMENTS_LIMIT as int
        &&& 1 <= self.height_segments <= SEGMENTS_LIMIT as int
    }
}

/// One entity of the world's ordered game-object list.
#[derive(Clone, Copy, PartialEq, Eq, Structural, Debug)]
pub enum GameObject {
    Platform(Platform),
}

/// The mathematical value of a game object.
pub ghost enum ObjectV {
    Platform(PlatformV),
}

impl View for GameObject {
    type V = ObjectV;

    open spec fn view(&self) -> ObjectV {
        match self {
            GameObject::Platform(p) => ObjectV::Platform(p@),
        }
    }
}

impl ObjectV {
    /// Whether the object takes part in player collision.
    pub open spec fn is_platform(self) -> bool {
        match self {
            ObjectV::Platform(_) => true,
        }
    }

    /// The collider rectangle of the object.
    pub open spec fn rect(self) -> RectV {
        match self {
            ObjectV::Platform(p) => p.rect(),
        }
    }

    /// The object moved with the world by `(dx, dy)`.
    pub open spec fn shifted(self, dx: int, dy: int) -> ObjectV {
        match self {
            ObjectV::Platform(p) => ObjectV::Platform(p.shifted(dx, dy)),
        }
    }

    pub open spec fn wf(self) -> bool {
        match self {
            ObjectV::Platform(p) => p.wf(),
        }
    }
}

impl Platform {
    /// Moves the platform with the world by `(offset_x, offset_y)`.
    pub fn move_world(&mut self, offset_x: i64, offset_y: i64)
        requires
            old(self)@.wf(),
            in_coord_range(offset_x as int),
            in_coord_range(offset_y as int),
        ensures
            final(self)@ == old(self)@.shifted(offset_x as int, offset_y as int),
            final(self)@.wf(),
    {
        self.x = crate::units::shift_saturating(self.x, offset_x);
        self.y = crate::units::shift_saturating(self.y, offset_y);
    }

    /// The rectangle the platform covers.
    pub fn rect(&self) -> (r: Rect)
        requires
            self@.wf(),
        ensures
            r@ == self@.rect(),
            r@.wf(),
    {
        Rect {
            x: self.x,
            y: self.y,
            w: self.width_segments * TILE_SIZE,
            h: self.height_segments * TILE_SIZE,
        }
    }

    /// Per-frame animation hook; a static platform has nothing to animate.
    pub fn update(&mut self)
        ensures
            *final(self) == *old(self),
    {
    }

    /// Platforms always take part in player collision.
    pub fn is_platform(&self) -> (r: bool)
        ensures
            r,
    {
        true
    }
}

impl GameObject {
    /// Moves the object with the world by `(offset_x, offset_y)`.
    pub fn move_world(&mut self, offset_x: i64, offset_y: i64)
        requires
            old(self)@.wf(),
            in_coord_range(offset_x as int),
            in_coord_range(offset_y as int),
        ensures
            final(self)@ == old(self)@.shifted(offset_x as int, offset_y as int),
            final(self)@.wf(),
    {
        match self {
            GameObject::Platform(p) => p.move_world(offset_x, offset_y),
        }
    }

    /// The collider rectangle of the object.
    pub fn rect(&self) -> (r: Rect)
        requires
            self@.wf(),
        ensures
            r@ == self@.rect(),
            r@.wf(),
    {
        match self {
            GameObject::Platform(p) => p.rect(),
        }
    }

    /// Per-frame animation hook, reserved for future animated obstacles.
    pub fn update(&mut self)
        ensures
            *final(self) == *old(self),
    {
        match self {
            GameObject::Platform(p) => p.update(),
        }
    }

    /// Whether the object takes part in player collision.
    pub fn is_platform(&self) -> (r: bool)
        ensures
            r == self@.is_platform(),
    {
        match self {
            GameObject::Platform(p) => p.is_platform(),
        }
    }
}

} // verus!
