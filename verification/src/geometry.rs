//! Integer rectangles: the entity-relative `Rect` and the world-space `Area`.

use vstd::prelude::*;

use crate::entities::entity::Direction;

verus! {

/// A rectangle given by its offset and size, relative to the entity that owns it.
#[derive(Debug, Clone, Copy, PartialEq, Eq, Structural)]
pub struct Rect {
    pub x: i32,
    pub y: i32,
    pub w: i32,
    pub h: i32,
}

/// The mathematical rectangle spanned by four world coordinates.
pub struct Span {
    pub left: int,
    pub top: int,
    pub right: int,
    pub bottom: int,
}

impl Span {
    /// Two rectangles overlap when they share at least one point; touching
    /// edges count.
    pub open spec fn overlaps(self, other: Span) -> bool {
        &&& self.left <= other.right
        &&& self.right >= other.left
        &&& self.top <= other.bottom
        &&& self.bottom >= other.top
    }

    /// The rectangle moved by `distance` towards `direction`.
    pub open spec fn shifted(self, direction: Direction, distance: int) -> Span {
        match direction {
            Direction::Up => Span {
                top: self.top - distance,
                bottom: self.bottom - distance,
                ..self
            },
            Direction::Down => Span {
                top: self.top + distance,
                bottom: self.bottom + distance,
                ..self
            },
            Direction::Left => Span {
                left: self.left - distance,
                right: self.right - distance,
                ..self
            },
            Direction::Right => Span {
                left: self.left + distance,
                right: self.right + distance,
                ..self
            },
        }
    }
}

/// A rectangle in world coordinates, wide enough that sums of entity
/// coordinates never overflow.
#[derive(Debug, Clone, Copy)]
pub struct Area {
    pub left: i64,
    pub top: i64,
    pub right: i64,
    pub bottom: i64,
}

impl View for Area {
    type V = Span;

    open spec fn view(&self) -> Span {
        Span {
            left: self.left as int,
            top: self.top as int,
            right: self.right as int,
            bottom: self.bottom as int,
        }
    }
}

/// The greatest magnitude of a coordinate that can still be shifted.
pub open spec fn area_limit() -> int {
    0x4000_0000_0000_0000
}

impl Area {
    /// Every coordinate is far enough from the limits of `i64` to be
    /// shifted by any distance.
    pub open spec fn bounded(self) -> bool {
        &&& -area_limit() <= self.left <= area_limit()
        &&& -area_limit() <= self.top <= area_limit()
        &&& -area_limit() <= self.right <= area_limit()
        &&& -area_limit() <= self.bottom <= area_limit()
    }

    /// The rectangle that `rect` covers when its owner stands at
    /// (`world_x`, `world_y`).
    pub open spec fn spec_place(rect: Rect, world_x: int, world_y: int) -> Span {
        Span {
            left: world_x + rect.x,
            top: world_y + rect.y,
            right: world_x + rect.x + rect.w,
            bottom: world_y + rect.y + rect.h,
        }
    }

    /// Places `rect` at the world position (`world_x`, `world_y`).
    pub fn place(rect: Rect, world_x: i32, world_y: i32) -> (area: Area)
        ensures
            area@ == Self::spec_place(rect, world_x as int, world_y as int),
            area.bounded(),
    {
        let left: i64 = world_x as i64 + rect.x as i64;
        let top: i64 = world_y as i64 + rect.y as i64;
        Area { left, top, right: left + rect.w as i64, bottom: top + rect.h as i64 }
    }

    /// Moves the rectangle by `distance` towards `direction`.
    pub fn shift(self, direction: Direction, distance: i32) -> (area: Area)
        requires
            self.bounded(),
        ensures
            area@ == self@.shifted(direction, distance as int),
    {
        let d: i64 = distance as i64;
        match direction {
            Direction::Up => Area { top: self.top - d, bottom: self.bottom - d, ..self },
            Direction::Down => Area { top: self.top + d, bottom: self.bottom + d, ..self },
            Direction::Left => Area { left: self.left - d, right: self.right - d, ..self },
            Direction::Right => Area { left: self.left + d, right: self.right + d, ..self },
        }
    }

    /// Whether the two rectangles share at least one point.
    pub fn overlaps(&self, other: &Area) -> (hit: bool)
        ensures
            hit == self@.overlaps(other@),
    {
        self.left <= other.right && self.right >= other.left && self.top <= other.bottom
            && self.bottom >= other.top
    }
}

} // verus!
