//! Tests of the per-tick physics simulation.

use stackboxes::input::GameInputEvent;
use stackboxes::physics::{CratePosition, PlayerResult};
use stackboxes::player_state::PlayerState;

fn fresh_player(now: u64) -> PlayerState {
    PlayerState::new(now)
}

#[test]
fn ten_ticks_right_moves_player_by_200() {
    let mut player = fresh_player(0);
    let start_x = player.physics_world.player_position.x;
    let mut now: u64 = 0;
    for _ in 0..10 {
        now += 16_000_000;
        player.finalize(vec![GameInputEvent::PlayerGoRight], now);
    }
    assert_eq!(player.physics_world.player_position.x, start_x + 10 * 20);
}

#[test]
fn player_is_clamped_to_floor_line() {
    let mut player = fresh_player(0);
    // no vertical input: the player starts at y = 0, below the floor
    // line camera.y + floor_height = 25, and is lifted exactly onto it
    let data = player.finalize(vec![], 16_000_000);
    assert_eq!(data.player_position.y, 25);
    assert_eq!(player.physics_world.player_position.y, 25);
}

#[test]
fn jump_moves_player_up_from_the_floor() {
    let mut player = fresh_player(0);
    player.finalize(vec![], 16_000_000);
    let data = player.finalize(vec![GameInputEvent::PlayerJump], 32_000_000);
    assert_eq!(data.player_position.y, 45);
}

#[test]
fn crate_spawns_after_three_seconds_and_drifts() {
    let mut player = fresh_player(0);
    let data = player.finalize(vec![], 3_100_000_000);
    // exactly one crate, spawned at the origin and advanced one tick
    assert_eq!(data.crates.len(), 1);
    assert_eq!(data.crates[0].x, 1);
    assert_eq!(data.crates[0].y, 1);
    assert_eq!(data.crates[0].width, 32);
    assert_eq!(data.crates[0].height, 32);
    // the highscore reflects that crate's top extent
    assert_eq!(data.highscore, 1 + 32);
    assert!(matches!(data.result, PlayerResult::PlayerOk));
}

#[test]
fn no_crate_spawns_within_three_seconds() {
    let mut player = fresh_player(0);
    let data = player.finalize(vec![], 2_900_000_000);
    assert_eq!(data.crates.len(), 0);
    assert_eq!(data.highscore, 0);
}

#[test]
fn crate_leaving_the_view_is_culled() {
    let mut player = fresh_player(0);
    // right edge after advancing: 768 + 1 + 32 = 801 > 800
    player.physics_world.crates.push(CratePosition { x: 768, y: 100, width: 32, height: 32 });
    // this crate stays: 700 + 1 + 32 = 733 <= 800
    player.physics_world.crates.push(CratePosition { x: 700, y: 100, width: 32, height: 32 });
    let data = player.finalize(vec![], 16_000_000);
    assert_eq!(data.crates.len(), 1);
    assert_eq!(data.crates[0].x, 701);
}

#[test]
fn pickup_removes_crate_and_second_pickup_releases_it() {
    let mut player = fresh_player(0);
    // a crate overlapping the player sprite (player occupies 0..100 in both axes)
    player.physics_world.crates.push(CratePosition { x: 10, y: 10, width: 32, height: 32 });
    let data = player.finalize(vec![GameInputEvent::PlayerTakeBox], 16_000_000);
    // the crate left the free list and is carried
    assert!(player.player_carrying_crate.is_some());
    assert_eq!(player.physics_world.crates.len(), 0);
    let carried = player.player_carrying_crate.unwrap();
    assert_eq!(carried.x, 11);
    assert_eq!(carried.y, 11);
    // the snapshot shows the synthetic carried crate above the head
    assert_eq!(data.crates.len(), 1);
    assert_eq!(data.crates[0].width, 50);
    assert_eq!(data.crates[0].height, 50);
    assert_eq!(data.crates[0].x, player.physics_world.player_position.x + 25);
    assert_eq!(
        data.crates[0].y,
        player.physics_world.player_position.y + player.physics_world.player_position.height
    );

    // drop: another crate overlaps, so a second take-box releases the carried one
    player.physics_world.crates.push(CratePosition { x: 20, y: 30, width: 32, height: 32 });
    player.finalize(vec![GameInputEvent::PlayerTakeBox], 32_000_000);
    assert!(player.player_carrying_crate.is_none());
    assert_eq!(player.physics_world.crates.len(), 2);
}

#[test]
fn pickup_without_overlap_changes_nothing() {
    let mut player = fresh_player(0);
    player.physics_world.crates.push(CratePosition { x: 500, y: 400, width: 32, height: 32 });
    player.finalize(vec![GameInputEvent::PlayerTakeBox], 16_000_000);
    assert!(player.player_carrying_crate.is_none());
    assert_eq!(player.physics_world.crates.len(), 1);
    // the pending-pickup flag is cleared unconditionally at end of tick
    assert!(!player.player_wants_box);
}

#[test]
fn highscore_is_maximum_crate_top_extent() {
    let mut player = fresh_player(0);
    player.physics_world.crates.push(CratePosition { x: 200, y: 100, width: 32, height: 32 });
    player.physics_world.crates.push(CratePosition { x: 300, y: 250, width: 32, height: 40 });
    player.physics_world.crates.push(CratePosition { x: 400, y: 50, width: 32, height: 32 });
    let data = player.finalize(vec![], 16_000_000);
    // each crate advanced one pixel up before the measurement
    assert_eq!(data.highscore, 251 + 40);
}

#[test]
fn highscore_of_empty_world_is_zero() {
    let mut player = fresh_player(0);
    let data = player.finalize(vec![], 16_000_000);
    assert_eq!(data.highscore, 0);
    assert_eq!(player.highscore, 0);
}

#[test]
fn opposite_moves_cancel() {
    let mut player = fresh_player(0);
    let start_x = player.physics_world.player_position.x;
    player.finalize(
        vec![GameInputEvent::PlayerGoLeft, GameInputEvent::PlayerGoRight],
        16_000_000,
    );
    assert_eq!(player.physics_world.player_position.x, start_x);
}

#[test]
fn spawn_crate_appends_standard_crate() {
    let mut world = stackboxes::physics::PhysicsWorld::new(0);
    world.spawn_crate(5, 7);
    assert_eq!(world.crates.len(), 1);
    assert_eq!(world.crates[0].x, 5);
    assert_eq!(world.crates[0].y, 7);
    assert_eq!(world.crates[0].width, 32);
    assert_eq!(world.crates[0].height, 32);
}

#[test]
fn fresh_player_state_is_default_shaped() {
    let player = fresh_player(42);
    assert_eq!(player.highscore, 0);
    assert!(player.player_carrying_crate.is_none());
    assert!(!player.player_wants_box);
    assert_eq!(player.floor_height, 25);
    assert_eq!(player.camera.screen_width, 800);
    assert_eq!(player.camera.screen_height, 600);
    assert_eq!(player.physics_world.player_position.width, 100);
    assert_eq!(player.physics_world.player_position.height, 100);
    assert_eq!(player.physics_world.last_crate_spawned, 42);
}
