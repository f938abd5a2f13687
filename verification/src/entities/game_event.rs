//! Triggers bound to a tile of the world.

use vstd::prelude::*;
use vstd::std_specs::convert::FromSpecImpl;

use crate::entities::entity::Direction;
use crate::geometry::Area;
use crate::geometry::Rect;
use crate::geometry::Span;
use crate::TILE_SIZE;

verus! {

/// What a trigger does when it fires.
#[derive(Debug, Clone, Copy, PartialEq, Eq, Structural)]
pub enum EventKind {
    /// The player falls into a pit and loses one life.
    DamagePit,
    /// The player drinks and recovers; fires only on confirm.
    HealingPool,
    /// The player is moved to the given world position.
    Teleport { world_x: i32, world_y: i32 },
}

/// A trigger: the tile it is bound to, its small rectangle inside that tile,
/// what it does, and what it remembers of its last firing.
#[derive(Debug, Clone, Copy, PartialEq, Eq, Structural)]
pub struct GameEvent {
    pub event_rect: Rect,
    pub event_default_x: i32,
    pub event_default_y: i32,
    pub event_done: bool,
    pub col: i32,
    pub row: i32,
    pub kind: EventKind,
    pub direction: Option<Direction>,
    pub can_touch: bool,
    pub previous_x: i32,
    pub previous_y: i32,
}

/// The greater of the horizontal and the vertical distance between two
/// points.
pub open spec fn chebyshev(x1: int, y1: int, x2: int, y2: int) -> int {
    let dx = if x1 >= x2 { x1 - x2 } else { x2 - x1 };
    let dy = if y1 >= y2 { y1 - y2 } else { y2 - y1 };
    if dx >= dy { dx } else { dy }
}

impl GameEvent {
    /// The trigger bound to the tile (`col`, `row`): a pit that fires from
    /// every side, armed, with a rectangle of two by two units whose offset
    /// inside the tile is (`col`, `row`).
    pub open spec fn spec_at(col: i32, row: i32) -> GameEvent {
        GameEvent {
            event_rect: Rect { x: col, y: row, w: 2, h: 2 },
            event_default_x: col,
            event_default_y: row,
            event_done: false,
            col,
            row,
            kind: EventKind::DamagePit,
            direction: None,
            can_touch: true,
            previous_x: 0,
            previous_y: 0,
        }
    }

    /// The trigger's rectangle in world coordinates.
    pub open spec fn span(self) -> Span {
        Area::spec_place(self.event_rect, self.col * TILE_SIZE, self.row * TILE_SIZE)
    }

    /// How far the point (`x`, `y`) is from where the trigger last fired.
    pub open spec fn distance_from_last(self, x: int, y: int) -> int {
        chebyshev(x, y, self.previous_x as int, self.previous_y as int)
    }

    /// The trigger after the player was seen at (`x`, `y`): armed again once
    /// the player is more than a tile away from where it last fired.
    pub open spec fn spec_rearmed(self, x: int, y: int) -> GameEvent {
        if self.distance_from_last(x, y) > TILE_SIZE {
            GameEvent { can_touch: true, ..self }
        } else {
            self
        }
    }

    /// The trigger after firing with the player at (`x`, `y`).
    pub open spec fn spec_fired(self, x: i32, y: i32) -> GameEvent {
        GameEvent { can_touch: false, previous_x: x, previous_y: y, ..self }
    }

    /// The trigger's rectangle in world coordinates.
    pub fn area(&self) -> (area: Area)
        ensures
            area@ == self.span(),
    {
        let left: i64 = self.col as i64 * 48 + self.event_rect.x as i64;
        let top: i64 = self.row as i64 * 48 + self.event_rect.y as i64;
        Area {
            left,
            top,
            right: left + self.event_rect.w as i64,
            bottom: top + self.event_rect.h as i64,
        }
    }

    /// Arms the trigger again once the player, seen at (`x`, `y`), is more
    /// than a tile away from where it last fired.
    pub fn rearm(&mut self, x: i32, y: i32)
        ensures
            *final(self) == old(self).spec_rearmed(x as int, y as int),
    {
        let dx: i64 = if x >= self.previous_x {
            x as i64 - self.previous_x as i64
        } else {
            self.previous_x as i64 - x as i64
        };
        let dy: i64 = if y >= self.previous_y {
            y as i64 - self.previous_y as i64
        } else {
            self.previous_y as i64 - y as i64
        };
        let distance: i64 = if dx >= dy { dx } else { dy };
        if distance > 48 {
            self.can_touch = true;
        }
    }
}

impl Default for GameEvent {
    fn default() -> (event: GameEvent)
        ensures
            event == GameEvent::spec_at(0, 0),
    {
        GameEvent {
            event_rect: Rect { x: 0, y: 0, w: 2, h: 2 },
            event_default_x: 0,
            event_default_y: 0,
            event_done: false,
            col: 0,
            row: 0,
            kind: EventKind::DamagePit,
            direction: None,
            can_touch: true,
            previous_x: 0,
            previous_y: 0,
        }
    }
}

impl From<(i32, i32)> for GameEvent {
    fn from(value: (i32, i32)) -> (event: GameEvent) {
        GameEvent {
            event_rect: Rect { x: value.0, y: value.1, w: 2, h: 2 },
            event_default_x: value.0,
            event_default_y: value.1,
            event_done: false,
            col: value.0,
            row: value.1,
            kind: EventKind::DamagePit,
            direction: None,
            can_touch: true,
            previous_x: 0,
            previous_y: 0,
        }
    }
}

impl FromSpecImpl<(i32, i32)> for GameEvent {
    open spec fn obeys_from_spec() -> bool {
        true
    }

    open spec fn from_spec(value: (i32, i32)) -> GameEvent {
        GameEvent::spec_at(value.0, value.1)
    }
}

} // verus!
