//! The eat system: each frame it tests every player's bounding box against
//! every live food entity's and marks the overlapping food for deferred
//! deletion.

use vstd::prelude::*;
use crate::entity::{Food, FoodState, Position, Seagl, pos_in_range};

verus! {

/// Width and height of the player's bounding box, eight distance units.
/// The sprite is drawn sixteen units wide; the box is kept smaller so the
/// sprites visibly overlap before a bite lands.
pub const PLAYER_BOX: i64 = 8 * 1_000_000;

/// Width and height of a food entity's bounding box, four distance units,
/// likewise shrunk from a ten-unit sprite.
pub const FOOD_BOX: i64 = 4 * 1_000_000;

/// Axis-aligned box overlap, with each box anchored at its entity's
/// `(x, y)` as the lower-left corner. The player box is `PLAYER_BOX`
/// square and the food box `FOOD_BOX` square, so the two roles are not
/// interchangeable. `z` only layers drawing and plays no part.
pub open spec fn overlap(player: Position, food: Position) -> bool {
    &&& player.x < food.x + FOOD_BOX
    &&& player.x + PLAYER_BOX > food.x
    &&& player.y < food.y + FOOD_BOX
    &&& player.y + PLAYER_BOX > food.y
}

/// Exact overlap test on in-range positions.
pub fn overlaps(player: &Position, food: &Position) -> (b: bool)
    requires
        pos_in_range(*player),
        pos_in_range(*food),
    ensures
        b == overlap(*player, *food),
{
    player.x < food.x + FOOD_BOX && player.x + PLAYER_BOX > food.x
        && player.y < food.y + FOOD_BOX && player.y + PLAYER_BOX > food.y
}

/// Some player's box overlaps the box anchored at `p`.
pub open spec fn some_player_overlaps(players: Seq<Seagl>, p: Position) -> bool {
    exists|j: int| 0 <= j < players.len() && overlap((#[trigger] players[j]).pos, p)
}

/// A food entity is eaten this frame when it is still alive and some
/// player's box overlaps its own. A pending entity is never eaten again.
pub open spec fn eaten_by_any(players: Seq<Seagl>, f: Food) -> bool {
    f.state == FoodState::Alive && some_player_overlaps(players, f.pos)
}

/// One food entity after a resolution pass: an eaten entity moves to
/// `PendingDeletion` in place, every other entity is left untouched.
pub open spec fn resolved_food(players: Seq<Seagl>, f: Food) -> Food {
    if eaten_by_any(players, f) {
        Food { pos: f.pos, state: FoodState::PendingDeletion }
    } else {
        f
    }
}

/// The whole food set after a resolution pass.
pub open spec fn resolved(players: Seq<Seagl>, foods: Seq<Food>) -> Seq<Food> {
    Seq::new(foods.len(), |i: int| resolved_food(players, foods[i]))
}

/// Does any player's box overlap the box anchored at `p`?
fn overlaps_any(players: &Vec<Seagl>, p: &Position) -> (b: bool)
    requires
        pos_in_range(*p),
        forall|j: int| 0 <= j < players@.len() ==> pos_in_range((#[trigger] players@[j]).pos),
    ensures
        b == some_player_overlaps(players@, *p),
{
    let n = players.len();
    let mut j: usize = 0;
    while j < n
        invariant
            n == players@.len(),
            0 <= j <= n,
            pos_in_range(*p),
            forall|k: int| 0 <= k < players@.len() ==> pos_in_range((#[trigger] players@[k]).pos),
            forall|k: int| 0 <= k < j ==> !overlap((#[trigger] players@[k]).pos, *p),
        decreases n - j,
    {
        if overlaps(&players[j].pos, p) {
            return true;
        }
        j = j + 1;
    }
    false
}

/// The per-frame eat system. It owns no state; one value stands for the
/// system in a host's schedule, which runs it after the movement system
/// of the same frame.
pub struct EatSystem;

impl EatSystem {
    /// One resolution pass over a frame snapshot.
    ///
    /// Every live food entity overlapping some player moves to
    /// `PendingDeletion`; everything else, positions included, is left as
    /// it was. The returned vector holds the indices of the entities
    /// marked by this pass — the frame's deferred deletion requests — in
    /// increasing order, each exactly once. Food already pending is
    /// neither matched nor requested again.
    pub fn run(&self, players: &Vec<Seagl>, foods: &mut Vec<Food>) -> (marked: Vec<usize>)
        requires
            forall|j: int| 0 <= j < players@.len() ==> pos_in_range((#[trigger] players@[j]).pos),
            forall|i: int| 0 <= i < old(foods)@.len() ==> pos_in_range(
                (#[trigger] old(foods)@[i]).pos,
            ),
        ensures
            final(foods)@ == resolved(players@, old(foods)@),
            forall|k: int| 0 <= k < marked@.len() ==> #[trigger] marked@[k] < old(foods)@.len()
                && eaten_by_any(players@, old(foods)@[marked@[k] as int]),
            forall|i: int| 0 <= i < old(foods)@.len() ==> (eaten_by_any(
                players@,
                #[trigger] old(foods)@[i],
            ) <==> marked@.contains(i as usize)),
            forall|k1: int, k2: int| 0 <= k1 < k2 < marked@.len() ==> #[trigger] marked@[k1]
                < #[trigger] marked@[k2],
    {
        let ghost foods0 = foods@;
        let mut marked: Vec<usize> = Vec::new();
        let n = foods.len();
        let mut i: usize = 0;
        while i < n
            invariant
                n == foods@.len(),
                foods@.len() == foods0.len(),
                0 <= i <= n,
                forall|j: int| 0 <= j < players@.len() ==> pos_in_range(
                    (#[trigger] players@[j]).pos,
                ),
                forall|k: int| 0 <= k < foods0.len() ==> pos_in_range((#[trigger] foods0[k]).pos),
                forall|k: int| 0 <= k < i ==> #[trigger] foods@[k] == resolved_food(
                    players@,
                    foods0[k],
                ),
                forall|k: int| i <= k < n ==> #[trigger] foods@[k] == foods0[k],
                forall|k: int| 0 <= k < marked@.len() ==> #[trigger] marked@[k] < i
                    && eaten_by_any(players@, foods0[marked@[k] as int]),
                forall|k: int| 0 <= k < i ==> (eaten_by_any(players@, #[trigger] foods0[k])
                    <==> marked@.contains(k as usize)),
                forall|k1: int, k2: int| 0 <= k1 < k2 < marked@.len() ==> #[trigger] marked@[k1]
                    < #[trigger] marked@[k2],
            decreases n - i,
        {
            let f = foods[i];
            if f.state == FoodState::Alive && overlaps_any(players, &f.pos) {
                foods[i] = Food { pos: f.pos, state: FoodState::PendingDeletion };
                let ghost marked_before = marked@;
                marked.push(i);
                proof {
                    assert forall|k: int| 0 <= k < i + 1 implies (eaten_by_any(
                        players@,
                        #[trigger] foods0[k],
                    ) <==> marked@.contains(k as usize)) by {
                        if k < i {
                            assert(eaten_by_any(players@, foods0[k]) <==> marked_before.contains(
                                k as usize,
                            ));
                            if marked_before.contains(k as usize) {
                                let w = choose|w: int| 0 <= w < marked_before.len()
                                    && marked_before[w] == k as usize;
                                assert(marked@[w] == k as usize);
                            }
                            if marked@.contains(k as usize) {
                                let w = choose|w: int| 0 <= w < marked@.len() && marked@[w]
                                    == k as usize;
                                assert(w < marked_before.len());
                                assert(marked_before[w] == k as usize);
                            }
                        } else {
                            assert(marked@[marked@.len() - 1] == i as usize);
                            assert(marked@.contains(i as usize));
                        }
                    }
                }
            } else {
                proof {
                    assert(!eaten_by_any(players@, foods0[i as int]));
                    assert forall|k: int| 0 <= k < i + 1 implies (eaten_by_any(
                        players@,
                        #[trigger] foods0[k],
                    ) <==> marked@.contains(k as usize)) by {
                        if k == i {
                            if marked@.contains(k as usize) {
                                let w = choose|w: int| 0 <= w < marked@.len() && marked@[w]
                                    == k as usize;
                                assert(marked@[w] < i);
                            }
                        }
                    }
                }
            }
            i = i + 1;
        }
        proof {
            assert(foods@ =~= resolved(players@, foods0));
        }
        marked
    }
}

/// The host side of deferred deletion: drops every food entity that is
/// pending deletion and keeps the live ones in order. A host engine runs
/// this between frames; a pass over an already swept set removes nothing.
pub fn sweep(foods: &mut Vec<Food>)
    ensures
        final(foods)@ == old(foods)@.filter(|f: Food| f.state == FoodState::Alive),
{
    let ghost foods0 = foods@;
    let mut kept: Vec<Food> = Vec::new();
    let n = foods.len();
    let mut i: usize = 0;
    while i < n
        invariant
            n == foods@.len(),
            foods@ == foods0,
            0 <= i <= n,
            kept@ == foods0.subrange(0, i as int).filter(|f: Food| f.state == FoodState::Alive),
        decreases n - i,
    {
        let f = foods[i];
        proof {
            let pred = |f: Food| f.state == FoodState::Alive;
            let before = foods0.subrange(0, i as int);
            let after = foods0.subrange(0, i + 1 as int);
            assert(after.drop_last() =~= before);
            assert(after.last() == foods0[i as int]);
            reveal(Seq::filter);
            if pred(foods0[i as int]) {
                assert(after.filter(pred) == before.filter(pred).push(foods0[i as int]));
            } else {
                assert(after.filter(pred) == before.filter(pred));
            }
        }
        if f.state == FoodState::Alive {
            kept.push(f);
        }
        i = i + 1;
    }
    proof {
        assert(foods0.subrange(0, n as int) =~= foods0);
    }
    *foods = kept;
}

/// After one resolution pass nothing is left to eat: a second pass on the
/// same unchanged snapshot changes no food entity and requests no further
/// deletion, because every eaten entity is already pending and every
/// other entity still fails the overlap test.
pub proof fn lemma_resolver_idempotent(players: Seq<Seagl>, foods: Seq<Food>)
    ensures
        resolved(players, resolved(players, foods)) == resolved(players, foods),
        forall|i: int| 0 <= i < foods.len() ==> !eaten_by_any(
            players,
            #[trigger] resolved(players, foods)[i],
        ),
{
    let once = resolved(players, foods);
    assert forall|i: int| 0 <= i < foods.len() implies !eaten_by_any(
        players,
        #[trigger] once[i],
    ) by {
        assert(once[i] == resolved_food(players, foods[i]));
    }
    assert(resolved(players, once) =~= once);
}

/// The two box sizes differ, so which entity plays the player and which
/// the food matters: there are positions whose boxes overlap one way
/// around and not the other.
pub proof fn lemma_overlap_roles_matter()
    ensures
        exists|p: Position, f: Position| #[trigger] overlap(p, f) != overlap(f, p),
{
    let p = Position { x: 0, y: 0, z: 0 };
    let f = Position { x: 6_000_000, y: 0, z: 0 };
    assert(overlap(p, f));
    assert(!overlap(f, p));
}

} // verus!
