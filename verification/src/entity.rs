//! The arena's entities: the player sprite and the food it eats.

use vstd::prelude::*;
use crate::units::{coord_in_range, COORD_UNIT, COORD_UNITS_LIMIT};

verus! {

/// A point in the arena, held in coordinate ticks of one millionth of a
/// distance unit. `z` only layers sprites for drawing; the game logic
/// never reads or moves it.
#[derive(Clone, Copy, PartialEq, Eq, Structural, Debug)]
pub struct Position {
    pub x: i64,
    pub y: i64,
    pub z: i64,
}

/// Which way the player sprite looks. The renderer shows `Right` as a
/// half-turn about the vertical axis and `Left` with no turn, so an idle
/// sprite keeps whatever turn it last had.
#[derive(Clone, Copy, PartialEq, Eq, Structural, Debug)]
pub enum Facing {
    Left,
    Right,
}

/// The player entity: a position in the arena and the way it faces.
#[derive(Clone, Copy, PartialEq, Eq, Structural, Debug)]
pub struct Seagl {
    pub pos: Position,
    pub facing: Facing,
}

/// Where a food entity stands in its life cycle. Overlap with a player
/// turns `Alive` into `PendingDeletion`, a deferred removal request; the
/// host's sweep later drops pending entities for good. The step is
/// irreversible, and a pending entity is never matched or marked again.
#[derive(Clone, Copy, PartialEq, Eq, Structural, Debug)]
pub enum FoodState {
    Alive,
    PendingDeletion,
}

/// A food entity: a fixed position and its place in the life cycle.
#[derive(Clone, Copy, PartialEq, Eq, Structural, Debug)]
pub struct Food {
    pub pos: Position,
    pub state: FoodState,
}

/// Both arena coordinates are small enough for exact frame arithmetic.
/// `z` is never computed on, so it needs no bound.
pub open spec fn pos_in_range(p: Position) -> bool {
    coord_in_range(p.x) && coord_in_range(p.y)
}

impl Position {
    /// Builds a position from whole distance units.
    pub fn from_units(x: i64, y: i64, z: i64) -> (p: Position)
        requires
            -COORD_UNITS_LIMIT <= x <= COORD_UNITS_LIMIT,
            -COORD_UNITS_LIMIT <= y <= COORD_UNITS_LIMIT,
            -COORD_UNITS_LIMIT <= z <= COORD_UNITS_LIMIT,
        ensures
            p.x == x * COORD_UNIT,
            p.y == y * COORD_UNIT,
            p.z == z * COORD_UNIT,
            pos_in_range(p),
    {
        Position { x: x * COORD_UNIT, y: y * COORD_UNIT, z: z * COORD_UNIT }
    }
}

} // verus!
