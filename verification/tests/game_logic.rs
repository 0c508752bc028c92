// Scenario tests for the arena's movement and eating logic. Raw values use
// the crate's fixed-point scales: coordinates in millionths of a distance
// unit, axis readings in thousandths of full deflection, frame times in
// milliseconds.

use seagl::entity::{Facing, Food, FoodState, Position, Seagl};
use seagl::motion::MoveSystem;
use seagl::overlap::{sweep, EatSystem};
use seagl::scene::{initial_food, initial_player};

fn player_at(x: i64, y: i64) -> Seagl {
    Seagl { pos: Position { x, y, z: 0 }, facing: Facing::Left }
}

fn food_at(x: i64, y: i64) -> Food {
    Food { pos: Position { x, y, z: 0 }, state: FoodState::Alive }
}

#[test]
fn move_right_one_tenth_second() {
    // Full right deflection for 0.1 s at speed 50 moves x from 50 to 55.
    let mut players = vec![player_at(50_000_000, 50_000_000)];
    MoveSystem.run(&mut players, 100, Some(1000), None);
    assert_eq!(players[0].pos.x, 55_000_000);
    assert_eq!(players[0].pos.y, 50_000_000);
    assert_eq!(players[0].facing, Facing::Right);
}

#[test]
fn move_left_turns_left() {
    let mut players = vec![player_at(50_000_000, 50_000_000)];
    players[0].facing = Facing::Right;
    MoveSystem.run(&mut players, 200, Some(-500), None);
    // -0.5 deflection for 0.2 s at speed 50 moves x by -5 units.
    assert_eq!(players[0].pos.x, 45_000_000);
    assert_eq!(players[0].facing, Facing::Left);
}

#[test]
fn centered_horizontal_keeps_facing_and_x() {
    let mut players = vec![player_at(50_000_000, 50_000_000)];
    players[0].facing = Facing::Right;
    MoveSystem.run(&mut players, 100, Some(0), None);
    assert_eq!(players[0].pos.x, 50_000_000);
    assert_eq!(players[0].facing, Facing::Right);
}

#[test]
fn unbound_axes_change_nothing() {
    let mut players = vec![player_at(50_000_000, 50_000_000)];
    MoveSystem.run(&mut players, 100, None, None);
    assert_eq!(players[0], player_at(50_000_000, 50_000_000));
}

#[test]
fn vertical_moves_y_and_never_facing() {
    let mut players = vec![player_at(50_000_000, 50_000_000)];
    MoveSystem.run(&mut players, 100, None, Some(1000));
    assert_eq!(players[0].pos.y, 55_000_000);
    assert_eq!(players[0].pos.x, 50_000_000);
    assert_eq!(players[0].facing, Facing::Left);

    let mut players = vec![player_at(50_000_000, 50_000_000)];
    players[0].facing = Facing::Right;
    MoveSystem.run(&mut players, 100, None, Some(-1000));
    assert_eq!(players[0].pos.y, 45_000_000);
    assert_eq!(players[0].facing, Facing::Right);
}

#[test]
fn zero_frame_time_moves_nothing() {
    let mut players = vec![player_at(50_000_000, 50_000_000)];
    MoveSystem.run(&mut players, 0, Some(1000), Some(-1000));
    assert_eq!(players[0].pos.x, 50_000_000);
    assert_eq!(players[0].pos.y, 50_000_000);
    // A positive push still turns the player even over a zero-length frame.
    assert_eq!(players[0].facing, Facing::Right);
}

#[test]
fn every_player_moves_independently() {
    let mut players = vec![player_at(0, 0), player_at(10_000_000, -10_000_000)];
    MoveSystem.run(&mut players, 100, Some(1000), Some(1000));
    assert_eq!(players[0].pos.x, 5_000_000);
    assert_eq!(players[0].pos.y, 5_000_000);
    assert_eq!(players[1].pos.x, 15_000_000);
    assert_eq!(players[1].pos.y, -5_000_000);
}

#[test]
fn z_layer_never_moves() {
    let mut players = vec![Seagl {
        pos: Position { x: 0, y: 0, z: 3_000_000 },
        facing: Facing::Left,
    }];
    MoveSystem.run(&mut players, 100, Some(1000), Some(1000));
    assert_eq!(players[0].pos.z, 3_000_000);
}

#[test]
fn close_food_is_eaten() {
    // Player at (50, 50), food at (52, 52): boxes overlap, food is marked.
    let players = vec![player_at(50_000_000, 50_000_000)];
    let mut foods = vec![food_at(52_000_000, 52_000_000)];
    let marked = EatSystem.run(&players, &mut foods);
    assert_eq!(foods[0].state, FoodState::PendingDeletion);
    assert_eq!(marked, vec![0]);
}

#[test]
fn far_food_survives() {
    // Player at (50, 50), food at (60, 60): no overlap, food stays alive.
    let players = vec![player_at(50_000_000, 50_000_000)];
    let mut foods = vec![food_at(60_000_000, 60_000_000)];
    let marked = EatSystem.run(&players, &mut foods);
    assert_eq!(foods[0].state, FoodState::Alive);
    assert!(marked.is_empty());
}

#[test]
fn box_roles_are_not_interchangeable() {
    // The eight-unit player box at (0, 0) reaches the four-unit food box
    // at (6, 0); with the roles swapped the boxes no longer touch.
    let forward = {
        let players = vec![player_at(0, 0)];
        let mut foods = vec![food_at(6_000_000, 0)];
        EatSystem.run(&players, &mut foods).len()
    };
    let swapped = {
        let players = vec![player_at(6_000_000, 0)];
        let mut foods = vec![food_at(0, 0)];
        EatSystem.run(&players, &mut foods).len()
    };
    assert_eq!(forward, 1);
    assert_eq!(swapped, 0);
}

#[test]
fn two_overlapping_foods_each_marked_once() {
    let players = vec![player_at(50_000_000, 50_000_000)];
    let mut foods = vec![
        food_at(52_000_000, 52_000_000),
        food_at(49_000_000, 50_000_000),
        food_at(90_000_000, 90_000_000),
    ];
    let marked = EatSystem.run(&players, &mut foods);
    assert_eq!(marked, vec![0, 1]);
    assert_eq!(foods[0].state, FoodState::PendingDeletion);
    assert_eq!(foods[1].state, FoodState::PendingDeletion);
    assert_eq!(foods[2].state, FoodState::Alive);
}

#[test]
fn second_pass_requests_nothing_again() {
    // Before the deferred sweep runs, a second pass over the unchanged
    // snapshot must not mark pending food a second time.
    let players = vec![player_at(50_000_000, 50_000_000)];
    let mut foods = vec![food_at(52_000_000, 52_000_000), food_at(60_000_000, 60_000_000)];
    let first = EatSystem.run(&players, &mut foods);
    assert_eq!(first, vec![0]);
    let snapshot = foods.clone();
    let second = EatSystem.run(&players, &mut foods);
    assert!(second.is_empty());
    assert_eq!(foods, snapshot);
}

#[test]
fn sweep_drops_pending_and_keeps_alive_in_order() {
    let players = vec![player_at(50_000_000, 50_000_000)];
    let mut foods = vec![
        food_at(52_000_000, 52_000_000),
        food_at(60_000_000, 60_000_000),
        food_at(49_000_000, 49_000_000),
        food_at(80_000_000, 10_000_000),
    ];
    let marked = EatSystem.run(&players, &mut foods);
    assert_eq!(marked, vec![0, 2]);
    sweep(&mut foods);
    assert_eq!(foods, vec![food_at(60_000_000, 60_000_000), food_at(80_000_000, 10_000_000)]);
    // A sweep over an already swept set removes nothing.
    let swept = foods.clone();
    sweep(&mut foods);
    assert_eq!(foods, swept);
}

#[test]
fn overlap_boundary_is_strict() {
    // Boxes that merely touch edge to edge do not overlap: the player box
    // at (50, 50) ends exactly where a food box at (58, 50) begins, and a
    // food box at (46, 50) ends exactly where the player box begins.
    let players = vec![player_at(50_000_000, 50_000_000)];
    let mut foods = vec![food_at(58_000_000, 50_000_000), food_at(46_000_000, 50_000_000)];
    let marked = EatSystem.run(&players, &mut foods);
    assert!(marked.is_empty());
    // One tick inside the edge and the bite lands.
    let mut near = vec![food_at(57_999_999, 50_000_000)];
    let marked = EatSystem.run(&players, &mut near);
    assert_eq!(marked, vec![0]);
}

#[test]
fn frame_order_move_then_eat() {
    // One whole frame at the scene's start: the player starts at (50, 50),
    // the first food at (75, 75) is out of reach, so nothing is eaten.
    let mut players = vec![initial_player()];
    let mut foods = vec![initial_food()];
    MoveSystem.run(&mut players, 16, Some(1000), Some(1000));
    let marked = EatSystem.run(&players, &mut foods);
    assert!(marked.is_empty());
    assert_eq!(foods[0].state, FoodState::Alive);

    // Many frames of pushing up and right carry the player onto the food:
    // each 16 ms frame at full deflection covers 0.8 units, so thirty more
    // frames put the player at (74.8, 74.8), inside reach of (75, 75).
    for _ in 0..30 {
        MoveSystem.run(&mut players, 16, Some(1000), Some(1000));
    }
    let marked = EatSystem.run(&players, &mut foods);
    assert_eq!(marked, vec![0]);
    sweep(&mut foods);
    assert!(foods.is_empty());
}

#[test]
fn scene_starting_data() {
    let player = initial_player();
    assert_eq!(player.pos, Position { x: 50_000_000, y: 50_000_000, z: 0 });
    assert_eq!(player.facing, Facing::Left);
    let food = initial_food();
    assert_eq!(food.pos, Position { x: 75_000_000, y: 75_000_000, z: -1_000_000 });
    assert_eq!(food.state, FoodState::Alive);
}

#[test]
fn positions_build_from_whole_units() {
    let p = Position::from_units(50, 75, -1);
    assert_eq!(p, Position { x: 50_000_000, y: 75_000_000, z: -1_000_000 });
}
