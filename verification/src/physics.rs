//! Physics system.
//!
//! Calculates the physics for the game world and returns a description of
//! the world in world coordinates. All coordinates are whole pixels.

use vstd::prelude::*;

use crate::camera::Camera;
use crate::player_state::PlayerSpritePosition;

verus! {

/// Bound on every coordinate the simulation takes in; keeps all per-tick
/// arithmetic far away from `i64` overflow.
pub const MAX_COORD: i64 = 1_000_000_000_000;

/// Bound that crate coordinates stay within across ticks: drifting crates
/// are culled at the camera's visible bounds, which `camera_wf` keeps at
/// most twice `MAX_COORD` away from the origin.
pub const CRATE_POS_BOUND: i64 = 2_000_000_000_000;

/// Side length, in pixels, of a freshly spawned crate.
pub const CRATE_SIZE: i64 = 32;

/// A new crate is spawned when strictly more than this many nanoseconds
/// have passed since the previous spawn.
pub const CRATE_SPAWN_INTERVAL_NANOS: u64 = 3_000_000_000;

/// Axis-aligned crate rectangle.
#[derive(Debug, Copy, Clone, PartialEq, Eq, Structural)]
pub struct CratePosition {
    /// X of the left edge, from the left of the world.
    pub x: i64,
    /// Y of the bottom edge, from the bottom of the world.
    pub y: i64,
    /// Width of the crate sprite.
    pub width: i64,
    /// Height of the crate.
    pub height: i64,
}

/// Horizontal and vertical player velocity.
#[derive(Debug, Copy, Clone, PartialEq, Eq, Structural)]
pub struct PlayerVelocity {
    pub x: i64,
    pub y: i64,
}

impl PlayerVelocity {
    /// The resting velocity.
    pub fn new() -> (v: Self)
        ensures
            v == (PlayerVelocity { x: 0 as i64, y: 0 as i64 }),
    {
        Self { x: 0, y: 0 }
    }
}

impl Default for PlayerVelocity {
    fn default() -> (v: Self)
        ensures
            v == (PlayerVelocity { x: 0 as i64, y: 0 as i64 }),
    {
        PlayerVelocity::new()
    }
}

/// Has the player quit or lost the game?
#[derive(Debug, Copy, Clone, PartialEq, Eq, Structural)]
pub enum PlayerResult {
    PlayerOk,
    PlayerQuitGame,
    PlayerHasLost,
}

/// The world state that the player mutates tick by tick.
#[derive(Debug, Clone)]
pub struct PhysicsWorld {
    /// Player velocity, in X and Y (unused by the direct-delta integrator,
    /// kept as part of the world state).
    pub player_velocity: PlayerVelocity,
    pub crates: Vec<CratePosition>,
    pub player_position: PlayerSpritePosition,
    /// Timestamp, in nanoseconds, of the last crate spawn.
    pub last_crate_spawned: u64,
    /// Gravity constant (unused by the direct-delta integrator).
    pub gravity: i64,
}

/// A crate is well formed when its coordinates are bounded and its extents
/// are not negative. The position bound leaves room for the drift that a
/// crate accumulates before the cull removes it.
pub open spec fn crate_wf(c: CratePosition) -> bool {
    &&& -CRATE_POS_BOUND <= c.x <= CRATE_POS_BOUND
    &&& -CRATE_POS_BOUND <= c.y <= CRATE_POS_BOUND
    &&& 0 <= c.width <= MAX_COORD
    &&& 0 <= c.height <= MAX_COORD
}

/// Camera coordinates bounded as the simulation arithmetic needs.
pub open spec fn camera_wf(cam: Camera) -> bool {
    &&& -MAX_COORD <= cam.x <= MAX_COORD
    &&& -MAX_COORD <= cam.y <= MAX_COORD
    &&& 0 <= cam.screen_width <= MAX_COORD
    &&& 0 <= cam.screen_height <= MAX_COORD
}

pub open spec fn crates_wf(s: Seq<CratePosition>) -> bool {
    forall|i: int| 0 <= i < s.len() ==> crate_wf(#[trigger] s[i])
}

/// The crate that `spawn_crate` produces.
pub open spec fn new_crate_spec(x: i64, y: i64) -> CratePosition {
    CratePosition { x, y, width: CRATE_SIZE, height: CRATE_SIZE }
}

/// One tick of drift: a crate moves one pixel right and one pixel up.
pub open spec fn advance_crate_spec(c: CratePosition) -> CratePosition {
    CratePosition { x: (c.x + 1) as i64, y: (c.y + 1) as i64, width: c.width, height: c.height }
}

/// A crate is in view when neither its right nor its top extent exceeds
/// the camera's visible bounds.
pub open spec fn crate_in_view(c: CratePosition, cam: Camera) -> bool {
    &&& c.x + c.width <= cam.x + cam.screen_width
    &&& c.y + c.height <= cam.y + cam.screen_height
}

/// Advances every crate by one tick of drift and drops the ones whose
/// advanced extent leaves the visible bounds, keeping the list order.
pub open spec fn advance_and_cull(s: Seq<CratePosition>, cam: Camera) -> Seq<CratePosition>
    decreases s.len(),
{
    if s.len() == 0 {
        Seq::empty()
    } else {
        let rest = advance_and_cull(s.drop_last(), cam);
        let moved = advance_crate_spec(s.last());
        if crate_in_view(moved, cam) {
            rest.push(moved)
        } else {
            rest
        }
    }
}

/// Maximum top extent (`y + height`) over the given crates; zero when the
/// list is empty or every top extent is negative.
pub open spec fn max_crate_top(s: Seq<CratePosition>) -> int
    decreases s.len(),
{
    if s.len() == 0 {
        0
    } else {
        let rest = max_crate_top(s.drop_last());
        let top = s.last().y + s.last().height;
        if top > rest {
            top
        } else {
            rest
        }
    }
}

impl PhysicsWorld {
    /// An empty world: no crates, default player sprite, resting velocity.
    /// `now` seeds the crate-spawn timer.
    pub fn new(now: u64) -> (w: Self)
        ensures
            w.crates@ =~= Seq::<CratePosition>::empty(),
            w.player_position == PlayerSpritePosition::initial_spec(),
            w.player_velocity == (PlayerVelocity { x: 0 as i64, y: 0 as i64 }),
            w.last_crate_spawned == now,
            w.gravity == 10,
    {
        Self {
            last_crate_spawned: now,
            crates: Vec::new(),
            player_position: PlayerSpritePosition::initial(),
            player_velocity: PlayerVelocity::new(),
            gravity: 10,
        }
    }

    /// Spawns a new crate of the standard size at the given position.
    pub fn spawn_crate(&mut self, x_pos: i64, y_pos: i64)
        ensures
            final(self).crates@ == old(self).crates@.push(new_crate_spec(x_pos, y_pos)),
            final(self).player_velocity == old(self).player_velocity,
            final(self).player_position == old(self).player_position,
            final(self).last_crate_spawned == old(self).last_crate_spawned,
            final(self).gravity == old(self).gravity,
    {
        self.crates.push(CratePosition { x: x_pos, y: y_pos, width: CRATE_SIZE, height: CRATE_SIZE });
    }
}

/// Executes `advance_and_cull` on a crate list.
pub fn advance_and_cull_crates(crates: &Vec<CratePosition>, cam: &Camera) -> (r: Vec<CratePosition>)
    requires
        crates_wf(crates@),
        camera_wf(*cam),
    ensures
        r@ == advance_and_cull(crates@, *cam),
        crates_wf(r@),
{
    let mut out: Vec<CratePosition> = Vec::new();
    let mut i: usize = 0;
    while i < crates.len()
        invariant
            0 <= i <= crates.len(),
            crates_wf(crates@),
            camera_wf(*cam),
            out@ == advance_and_cull(crates@.subrange(0, i as int), *cam),
            crates_wf(out@),
        decreases crates.len() - i,
    {
        let c = crates[i];
        let moved = CratePosition { x: c.x + 1, y: c.y + 1, width: c.width, height: c.height };
        if moved.x + moved.width <= cam.x + cam.screen_width
            && moved.y + moved.height <= cam.y + cam.screen_height
        {
            proof {
                assert(crate_wf(moved));
            }
            out.push(moved);
        }
        proof {
            assert(crates@.subrange(0, (i + 1) as int).drop_last() =~= crates@.subrange(0, i as int));
            assert(crates@.subrange(0, (i + 1) as int).last() == crates@[i as int]);
        }
        i = i + 1;
    }
    proof {
        assert(crates@.subrange(0, crates@.len() as int) =~= crates@);
    }
    out
}

/// Every crate that survives `advance_and_cull` lies within the camera's
/// visible bounds: a crate whose right or top extent exceeds them after
/// advancing is absent from the result.
pub proof fn lemma_culled_crates_in_view(s: Seq<CratePosition>, cam: Camera)
    ensures
        forall|i: int|
            0 <= i < advance_and_cull(s, cam).len() ==> crate_in_view(
                #[trigger] advance_and_cull(s, cam)[i],
                cam,
            ),
    decreases s.len(),
{
    if s.len() > 0 {
        lemma_culled_crates_in_view(s.drop_last(), cam);
        let rest = advance_and_cull(s.drop_last(), cam);
        let moved = advance_crate_spec(s.last());
        if crate_in_view(moved, cam) {
            assert(advance_and_cull(s, cam) == rest.push(moved));
            assert forall|i: int| 0 <= i < advance_and_cull(s, cam).len() implies crate_in_view(
                advance_and_cull(s, cam)[i],
                cam,
            ) by {
                if i < rest.len() {
                    assert(advance_and_cull(s, cam)[i] == rest[i]);
                } else {
                    assert(advance_and_cull(s, cam)[i] == moved);
                }
            }
        } else {
            assert(advance_and_cull(s, cam) == rest);
        }
    }
}

/// Computes `max_crate_top` on a crate list.
pub fn compute_highscore(crates: &Vec<CratePosition>) -> (r: i64)
    requires
        crates_wf(crates@),
    ensures
        r as int == max_crate_top(crates@),
{
    let mut best: i64 = 0;
    let mut i: usize = 0;
    while i < crates.len()
        invariant
            0 <= i <= crates.len(),
            crates_wf(crates@),
            best as int == max_crate_top(crates@.subrange(0, i as int)),
        decreases crates.len() - i,
    {
        let c = crates[i];
        let top = c.y + c.height;
        if top > best {
            best = top;
        }
        proof {
            assert(crates@.subrange(0, (i + 1) as int).drop_last() =~= crates@.subrange(0, i as int));
            assert(crates@.subrange(0, (i + 1) as int).last() == crates@[i as int]);
        }
        i = i + 1;
    }
    proof {
        assert(crates@.subrange(0, crates@.len() as int) =~= crates@);
    }
    best
}

/// The physics world, for submission to the renderer: where everything
/// stands for this one frame.
#[derive(Debug, Clone)]
pub struct PhysicsFinalizedData {
    pub player_position: PlayerSpritePosition,
    pub crates: Vec<CratePosition>,
    /// Has the player quit or lost the game?
    pub result: PlayerResult,
    pub highscore: i64,
}

} // verus!
