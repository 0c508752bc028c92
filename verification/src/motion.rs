//! The movement system: each frame it integrates the two input axes into
//! every player's position and keeps the facing in step with the last
//! horizontal push.

use vstd::prelude::*;
use crate::entity::{Facing, Position, Seagl, pos_in_range};
use crate::units::{
    SPEED, axis_opt_in_range, displacement, dt_in_range, lemma_displacement_bounded,
};

verus! {

/// The facing after one frame: a positive horizontal push turns the player
/// right, a negative one left, and a centered or absent axis leaves the
/// last facing in place. The vertical axis never touches facing.
pub open spec fn facing_after(f: Facing, horizontal: Option<i64>) -> Facing {
    match horizontal {
        Some(h) => if h > 0 {
            Facing::Right
        } else if h < 0 {
            Facing::Left
        } else {
            f
        },
        None => f,
    }
}

/// One coordinate after one frame: an absent axis means no bound input
/// device, so that axis of motion is skipped entirely; a present reading,
/// zero included, moves the coordinate by exactly `axis * dt * SPEED`
/// ticks.
pub open spec fn stepped_coord(c: i64, axis: Option<i64>, dt: i64) -> i64 {
    match axis {
        Some(a) => (c + displacement(a, dt)) as i64,
        None => c,
    }
}

/// A whole player after one frame of input.
pub open spec fn stepped(s: Seagl, dt: i64, horizontal: Option<i64>, vertical: Option<i64>) -> Seagl {
    Seagl {
        pos: Position {
            x: stepped_coord(s.pos.x, horizontal, dt),
            y: stepped_coord(s.pos.y, vertical, dt),
            z: s.pos.z,
        },
        facing: facing_after(s.facing, horizontal),
    }
}

/// Applies one frame of input to one player.
///
/// `dt` is the elapsed frame time in milliseconds; each axis is a raw
/// reading in thousandths of full deflection, or `None` when no input
/// device is bound to it.
pub fn apply_motion(s: &mut Seagl, dt: i64, horizontal: Option<i64>, vertical: Option<i64>)
    requires
        dt_in_range(dt),
        axis_opt_in_range(horizontal),
        axis_opt_in_range(vertical),
        pos_in_range(old(s).pos),
    ensures
        *final(s) == stepped(*old(s), dt, horizontal, vertical),
        horizontal matches Some(h) ==> final(s).pos.x == old(s).pos.x + h * dt * SPEED,
        horizontal matches Some(h) ==> (h > 0 ==> final(s).facing == Facing::Right),
        horizontal matches Some(h) ==> (h < 0 ==> final(s).facing == Facing::Left),
        (horizontal is None || horizontal == Some(0i64)) ==> final(s).pos.x == old(s).pos.x
            && final(s).facing == old(s).facing,
        vertical matches Some(v) ==> final(s).pos.y == old(s).pos.y + v * dt * SPEED,
        vertical is None ==> final(s).pos.y == old(s).pos.y,
        final(s).pos.z == old(s).pos.z,
{
    if let Some(h) = horizontal {
        proof {
            lemma_displacement_bounded(h, dt);
            if h == 0 {
                assert(h * dt * SPEED == 0) by (nonlinear_arith)
                    requires
                        h == 0,
                ;
            }
        }
        let disp: i64 = h * dt * SPEED;
        s.pos.x = s.pos.x + disp;
        if h > 0 {
            s.facing = Facing::Right;
        }
        if h < 0 {
            s.facing = Facing::Left;
        }
    }
    if let Some(v) = vertical {
        proof {
            lemma_displacement_bounded(v, dt);
        }
        let disp: i64 = v * dt * SPEED;
        s.pos.y = s.pos.y + disp;
    }
}

/// The per-frame movement system. It owns no state; one value stands for
/// the system in a host's schedule, which runs it after input polling and
/// before overlap resolution.
pub struct MoveSystem;

impl MoveSystem {
    /// One frame of movement: applies the same elapsed time and axis
    /// readings independently to every player entity.
    pub fn run(
        &self,
        players: &mut Vec<Seagl>,
        dt: i64,
        horizontal: Option<i64>,
        vertical: Option<i64>,
    )
        requires
            dt_in_range(dt),
            axis_opt_in_range(horizontal),
            axis_opt_in_range(vertical),
            forall|i: int| 0 <= i < old(players)@.len() ==> pos_in_range(
                (#[trigger] old(players)@[i]).pos,
            ),
        ensures
            final(players)@.len() == old(players)@.len(),
            forall|i: int| 0 <= i < old(players)@.len() ==> #[trigger] final(players)@[i]
                == stepped(old(players)@[i], dt, horizontal, vertical),
    {
        let n = players.len();
        let mut i: usize = 0;
        while i < n
            invariant
                n == players@.len(),
                players@.len() == old(players)@.len(),
                0 <= i <= n,
                dt_in_range(dt),
                axis_opt_in_range(horizontal),
                axis_opt_in_range(vertical),
                forall|k: int| 0 <= k < i ==> #[trigger] players@[k]
                    == stepped(old(players)@[k], dt, horizontal, vertical),
                forall|k: int| i <= k < n ==> #[trigger] players@[k] == old(players)@[k],
                forall|k: int| 0 <= k < old(players)@.len() ==> pos_in_range(
                    (#[trigger] old(players)@[k]).pos,
                ),
            decreases n - i,
        {
            apply_motion(&mut players[i], dt, horizontal, vertical);
            i = i + 1;
        }
    }
}

} // verus!
