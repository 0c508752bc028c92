//! The scene's starting data: where the player and the first food stand
//! when the arena opens.
//!
//! The arena is a hundred units square. A host engine owns the rest of
//! scene setup — camera, textures, sprite indices — and places these
//! entities where the constructors below say.

use vstd::prelude::*;
use crate::entity::{Facing, Food, FoodState, Position, Seagl, pos_in_range};

verus! {

/// The player starts at the center of the hundred-unit arena, on the
/// base drawing layer, facing left — the unturned pose a fresh sprite
/// is drawn in.
pub fn initial_player() -> (s: Seagl)
    ensures
        s.pos == (Position { x: 50_000_000, y: 50_000_000, z: 0 }),
        s.facing == Facing::Left,
        pos_in_range(s.pos),
{
    Seagl { pos: Position { x: 50_000_000, y: 50_000_000, z: 0 }, facing: Facing::Left }
}

/// The first food waits alive at (75, 75), one layer behind the player
/// so the player is drawn over it when they meet.
pub fn initial_food() -> (f: Food)
    ensures
        f.pos == (Position { x: 75_000_000, y: 75_000_000, z: -1_000_000i64 }),
        f.state == FoodState::Alive,
        pos_in_range(f.pos),
{
    Food { pos: Position { x: 75_000_000, y: 75_000_000, z: -1_000_000i64 }, state: FoodState::Alive }
}

} // verus!
