//! The per-tick simulation of the player: input deltas, floor collision,
//! crate spawning and culling, pickup and drop resolution, and the
//! finalized snapshot handed to the renderer.

use vstd::prelude::*;

use crate::camera::Camera;
use crate::input::GameInputEvent;
use crate::physics::{
    advance_and_cull, advance_and_cull_crates, camera_wf, compute_highscore, crate_wf, crates_wf,
    max_crate_top, new_crate_spec, CratePosition, PhysicsFinalizedData, PhysicsWorld,
    PlayerResult, CRATE_SPAWN_INTERVAL_NANOS, MAX_COORD,
};

verus! {

/// Pixels of positional change per movement event per tick.
pub const MOVE_DELTA: i64 = 20;

/// Default height of the floor above the camera's bottom edge.
pub const DEFAULT_FLOOR_HEIGHT: i64 = 25;

/// Default side length of the player sprite.
pub const PLAYER_SPRITE_SIZE: i64 = 100;

/// Side length of the crate drawn above the player's head while carried.
pub const CARRIED_CRATE_SIZE: i64 = 50;

/// Lateral inset of the carried crate from the player's horizontal center.
pub const CARRIED_CRATE_MARGIN: i64 = 25;

/// Upper bound on the number of input events a single tick accepts; keeps
/// the accumulated movement delta far away from overflow.
pub const MAX_INPUT_EVENTS: usize = 1_000_000;

/// The player sprite rectangle, bottom-left corner plus extent.
#[derive(Debug, Copy, Clone, PartialEq, Eq, Structural)]
pub struct PlayerSpritePosition {
    pub x: i64,
    pub y: i64,
    pub width: i64,
    pub height: i64,
}

impl PlayerSpritePosition {
    /// Where a fresh player starts.
    pub open spec fn initial_spec() -> Self {
        PlayerSpritePosition { x: 0 as i64, y: 0 as i64, width: PLAYER_SPRITE_SIZE, height: PLAYER_SPRITE_SIZE }
    }

    /// Constructs the starting player sprite.
    pub fn initial() -> (p: Self)
        ensures
            p == Self::initial_spec(),
    {
        Self { x: 0, y: 0, width: PLAYER_SPRITE_SIZE, height: PLAYER_SPRITE_SIZE }
    }
}

impl Default for PlayerSpritePosition {
    fn default() -> (p: Self)
        ensures
            p == Self::initial_spec(),
    {
        Self::initial()
    }
}

/// The player sprite is well formed when its coordinates are bounded and
/// its extents are not negative.
pub open spec fn player_wf(p: PlayerSpritePosition) -> bool {
    &&& -MAX_COORD <= p.x <= MAX_COORD
    &&& -MAX_COORD <= p.y <= MAX_COORD
    &&& 0 <= p.width <= MAX_COORD
    &&& 0 <= p.height <= MAX_COORD
}

/// The looser bound that the player sprite satisfies in the middle of a
/// tick, after the movement deltas have been applied.
pub open spec fn player_arith_wf(p: PlayerSpritePosition) -> bool {
    &&& -crate::physics::CRATE_POS_BOUND <= p.x <= crate::physics::CRATE_POS_BOUND
    &&& -crate::physics::CRATE_POS_BOUND <= p.y <= crate::physics::CRATE_POS_BOUND
    &&& 0 <= p.width <= MAX_COORD
    &&& 0 <= p.height <= MAX_COORD
}

/// Horizontal positional delta contributed by one event.
pub open spec fn event_dx(e: GameInputEvent) -> int {
    match e {
        GameInputEvent::PlayerGoRight => MOVE_DELTA as int,
        GameInputEvent::PlayerGoLeft => -(MOVE_DELTA as int),
        _ => 0,
    }
}

/// Vertical positional delta contributed by one event.
pub open spec fn event_dy(e: GameInputEvent) -> int {
    match e {
        GameInputEvent::PlayerJump => MOVE_DELTA as int,
        _ => 0,
    }
}

/// Total horizontal delta of an event list.
pub open spec fn x_delta(events: Seq<GameInputEvent>) -> int
    decreases events.len(),
{
    if events.len() == 0 {
        0
    } else {
        x_delta(events.drop_last()) + event_dx(events.last())
    }
}

/// Total vertical delta of an event list.
pub open spec fn y_delta(events: Seq<GameInputEvent>) -> int
    decreases events.len(),
{
    if events.len() == 0 {
        0
    } else {
        y_delta(events.drop_last()) + event_dy(events.last())
    }
}

/// The pending-pickup flag after an event list: it only ever transitions
/// from false to true.
pub open spec fn wants_box_after(events: Seq<GameInputEvent>, prev: bool) -> bool {
    prev || events.contains(GameInputEvent::PlayerTakeBox)
}

/// Vertical floor clamp: the player never sinks below the floor line.
pub open spec fn clamped_y(y: int, dy: int, floor: int) -> int {
    if y + dy < floor {
        floor
    } else {
        y + dy
    }
}

/// A vertical delta that would place the player below the floor leaves the
/// player exactly on the floor.
pub proof fn lemma_floor_clamp(y: int, dy: int, floor: int)
    requires
        y + dy < floor,
    ensures
        clamped_y(y, dy, floor) == floor,
{
}

/// For every tick whose events would place the player below the floor
/// line, the player ends the tick exactly on `camera.y + floor_height`.
pub proof fn lemma_tick_floor_clamp(s: PlayerState, events: Seq<GameInputEvent>)
    requires
        s.wf(),
        s.physics_world.player_position.y + y_delta(events) < s.camera.y + s.floor_height,
    ensures
        s.moved_player(events).y == s.camera.y + s.floor_height,
{
}

/// Axis-aligned overlap of the player and a crate: the centers lie within
/// the combined half-extents on both axes. Stated over doubled
/// coordinates, which avoids halving and is exact.
pub open spec fn player_overlaps_crate(p: PlayerSpritePosition, c: CratePosition) -> bool {
    let dx2 = (2 * p.x + p.width) - (2 * c.x + c.width);
    let dy2 = (2 * p.y + p.height) - (2 * c.y + c.height);
    let adx2 = if dx2 < 0 { -dx2 } else { dx2 };
    let ady2 = if dy2 < 0 { -dy2 } else { dy2 };
    adx2 < p.width + c.width && ady2 < p.height + c.height
}

/// Index of the first crate the player overlaps, if any.
pub open spec fn first_overlap(p: PlayerSpritePosition, s: Seq<CratePosition>) -> Option<int>
    decreases s.len(),
{
    if s.len() == 0 {
        None
    } else if player_overlaps_crate(p, s[0]) {
        Some(0int)
    } else {
        match first_overlap(p, s.drop_first()) {
            Some(i) => Some(i + 1),
            None => None,
        }
    }
}

pub proof fn lemma_first_overlap_some(p: PlayerSpritePosition, s: Seq<CratePosition>, i: int)
    requires
        0 <= i < s.len(),
        player_overlaps_crate(p, s[i]),
        forall|j: int| 0 <= j < i ==> !player_overlaps_crate(p, #[trigger] s[j]),
    ensures
        first_overlap(p, s) == Some(i),
    decreases s.len(),
{
    if i > 0 {
        lemma_first_overlap_some(p, s.drop_first(), i - 1);
    }
}

/// A found first overlap index is a valid index of an overlapped crate.
pub proof fn lemma_first_overlap_in_range(p: PlayerSpritePosition, s: Seq<CratePosition>)
    ensures
        match first_overlap(p, s) {
            Some(i) => 0 <= i < s.len() && player_overlaps_crate(p, s[i]),
            None => true,
        },
    decreases s.len(),
{
    if s.len() > 0 && !player_overlaps_crate(p, s[0]) {
        lemma_first_overlap_in_range(p, s.drop_first());
    }
}

pub proof fn lemma_first_overlap_none(p: PlayerSpritePosition, s: Seq<CratePosition>)
    requires
        forall|j: int| 0 <= j < s.len() ==> !player_overlaps_crate(p, #[trigger] s[j]),
    ensures
        first_overlap(p, s) is None,
    decreases s.len(),
{
    if s.len() > 0 {
        lemma_first_overlap_none(p, s.drop_first());
    }
}

/// Outcome of pickup/drop resolution: the free crate list and the carried
/// crate after a tick whose pending-pickup flag is `wants`.
pub open spec fn pickup_result(
    wants: bool,
    p: PlayerSpritePosition,
    s: Seq<CratePosition>,
    carrying: Option<CratePosition>,
) -> (Seq<CratePosition>, Option<CratePosition>) {
    if wants {
        match first_overlap(p, s) {
            Some(i) => match carrying {
                Some(b) => (s.push(b), None),
                None => (s.remove(i), Some(s[i])),
            },
            None => (s, carrying),
        }
    } else {
        (s, carrying)
    }
}

/// With no crate carried, a pickup while overlapping removes the first
/// overlapped crate from the free list and starts carrying it.
pub proof fn lemma_pickup_takes_first_overlapped(
    p: PlayerSpritePosition,
    s: Seq<CratePosition>,
    i: int,
)
    requires
        first_overlap(p, s) == Some(i),
    ensures
        pickup_result(true, p, s, None) == (s.remove(i), Some(s[i])),
{
}

/// With a crate already carried, a pickup while overlapping releases the
/// carried crate back to the end of the free list.
pub proof fn lemma_pickup_releases_carried(
    p: PlayerSpritePosition,
    s: Seq<CratePosition>,
    b: CratePosition,
)
    requires
        first_overlap(p, s) is Some,
    ensures
        pickup_result(true, p, s, Some(b)) == (s.push(b), None::<CratePosition>),
{
}

/// How many crates an optional carried slot holds.
pub open spec fn carried_count(c: Option<CratePosition>) -> int {
    match c {
        Some(_) => 1,
        None => 0,
    }
}

/// Pickup and drop conserve crates: a crate moves between the free list
/// and the carried slot, but is never duplicated and never lost, so it
/// cannot stand in both places at once.
pub proof fn lemma_pickup_conserves_crates(
    wants: bool,
    p: PlayerSpritePosition,
    s: Seq<CratePosition>,
    carrying: Option<CratePosition>,
)
    ensures
        ({
            let (free, carried) = pickup_result(wants, p, s, carrying);
            free.len() + carried_count(carried) == s.len() + carried_count(carrying)
        }),
{
    lemma_first_overlap_in_range(p, s);
}

/// The transient crate drawn above the head of a carrying player:
/// horizontally centered up to a fixed margin, resting on the player's
/// top edge.
pub open spec fn carried_display_crate(p: PlayerSpritePosition) -> CratePosition {
    CratePosition {
        x: (p.x + (p.width / 2 - CARRIED_CRATE_MARGIN)) as i64,
        y: (p.y + p.height) as i64,
        width: CARRIED_CRATE_SIZE,
        height: CARRIED_CRATE_SIZE,
    }
}

/// The state of the player in the game world.
#[derive(Debug, Clone)]
pub struct PlayerState {
    /// 2D camera, relative to the game world.
    pub camera: Camera,
    pub floor_height: i64,
    pub physics_world: PhysicsWorld,
    pub highscore: i64,
    pub player_wants_box: bool,
    pub player_carrying_crate: Option<CratePosition>,
    /// Timestamp, in nanoseconds, of the previous tick.
    pub last_tick_update: u64,
}

impl PlayerState {
    /// Everything the per-tick arithmetic needs bounded.
    pub open spec fn wf(self) -> bool {
        &&& camera_wf(self.camera)
        &&& -MAX_COORD <= self.floor_height <= MAX_COORD
        &&& player_wf(self.physics_world.player_position)
        &&& crates_wf(self.physics_world.crates@)
        &&& match self.player_carrying_crate {
            Some(c) => crate_wf(c),
            None => true,
        }
    }

    /// The state a fresh game starts in, its timers seeded with `now`.
    pub open spec fn initial_spec(self, now: u64) -> bool {
        &&& self.player_wants_box == false
        &&& self.player_carrying_crate is None
        &&& self.floor_height == DEFAULT_FLOOR_HEIGHT
        &&& self.last_tick_update == now
        &&& self.camera == (Camera { x: 0 as i64, y: 0 as i64, screen_width: 800 as i64, screen_height: 600 as i64 })
        &&& self.highscore == 0
        &&& self.physics_world.crates@ =~= Seq::<CratePosition>::empty()
        &&& self.physics_world.player_position == PlayerSpritePosition::initial_spec()
        &&& self.physics_world.player_velocity == (crate::physics::PlayerVelocity { x: 0 as i64, y: 0 as i64 })
        &&& self.physics_world.last_crate_spawned == now
    }

    /// A freshly-defaulted player: no carried crate, highscore zero, the
    /// fixed 800 by 600 camera, timers seeded with `now`.
    pub fn new(now: u64) -> (s: Self)
        ensures
            s.initial_spec(now),
            s.wf(),
    {
        Self {
            player_wants_box: false,
            player_carrying_crate: None,
            floor_height: DEFAULT_FLOOR_HEIGHT,
            last_tick_update: now,
            camera: Camera { x: 0, y: 0, screen_width: 800, screen_height: 600 },
            physics_world: PhysicsWorld::new(now),
            highscore: 0,
        }
    }

    /// The player sprite after a tick driven by `events`: the horizontal
    /// delta applies directly, the vertical delta is clamped at the floor
    /// line above the camera's bottom edge.
    pub open spec fn moved_player(self, events: Seq<GameInputEvent>) -> PlayerSpritePosition {
        let p = self.physics_world.player_position;
        let floor = self.camera.y + self.floor_height;
        PlayerSpritePosition {
            x: (p.x + x_delta(events)) as i64,
            y: clamped_y(p.y as int, y_delta(events), floor) as i64,
            width: p.width,
            height: p.height,
        }
    }

    /// Whether a tick at `now` spawns a crate.
    pub open spec fn spawns_crate(self, now: u64) -> bool {
        now - self.physics_world.last_crate_spawned > CRATE_SPAWN_INTERVAL_NANOS
    }

    /// The crate list right after the spawn step of a tick at `now`.
    pub open spec fn crates_after_spawn(self, now: u64) -> Seq<CratePosition> {
        if self.spawns_crate(now) {
            self.physics_world.crates@.push(new_crate_spec(0, 0))
        } else {
            self.physics_world.crates@
        }
    }

    /// The free crate list and carried crate at the end of a tick.
    pub open spec fn tick_crates(self, events: Seq<GameInputEvent>, now: u64) -> (
        Seq<CratePosition>,
        Option<CratePosition>,
    ) {
        pickup_result(
            wants_box_after(events, self.player_wants_box),
            self.moved_player(events),
            advance_and_cull(self.crates_after_spawn(now), self.camera),
            self.player_carrying_crate,
        )
    }

    /// Advances the world by one tick and returns the finalized snapshot
    /// for the renderer.
    ///
    /// In order: input deltas accumulate, the player moves (vertically
    /// clamped at the floor), a crate spawns if the spawn interval has
    /// passed, every crate drifts and out-of-view crates are culled,
    /// pickup/drop resolves against the free list, the highscore is the
    /// maximum top extent of the free crates, and a carried crate is
    /// appended to the snapshot only.
    pub fn finalize(&mut self, events: Vec<GameInputEvent>, now: u64) -> (data: PhysicsFinalizedData)
        requires
            old(self).wf(),
            events@.len() <= MAX_INPUT_EVENTS,
            now >= old(self).physics_world.last_crate_spawned,
        ensures
            ({
                let p_new = old(self).moved_player(events@);
                let (free, carried) = old(self).tick_crates(events@, now);
                &&& final(self).physics_world.player_position == p_new
                &&& data.player_position == p_new
                &&& final(self).physics_world.crates@ == free
                &&& final(self).player_carrying_crate == carried
                &&& final(self).player_wants_box == false
                &&& final(self).highscore as int == max_crate_top(free)
                &&& data.highscore as int == max_crate_top(free)
                &&& data.result == PlayerResult::PlayerOk
                &&& data.crates@ == (match carried {
                    Some(_) => free.push(carried_display_crate(p_new)),
                    None => free,
                })
                &&& final(self).last_tick_update == now
                &&& final(self).physics_world.last_crate_spawned == (if old(self).spawns_crate(now) {
                    now
                } else {
                    old(self).physics_world.last_crate_spawned
                })
                &&& final(self).camera == old(self).camera
                &&& final(self).floor_height == old(self).floor_height
                &&& final(self).physics_world.player_velocity == old(self).physics_world.player_velocity
                &&& final(self).physics_world.gravity == old(self).physics_world.gravity
            }),
    {
        let ghost old_self = *self;

        // -- accumulate movement deltas and the pending-pickup flag
        let mut x_diff: i64 = 0;
        let mut y_diff: i64 = 0;
        let mut wants = self.player_wants_box;
        let mut i: usize = 0;
        while i < events.len()
            invariant
                0 <= i <= events.len(),
                events.len() <= MAX_INPUT_EVENTS,
                x_diff as int == x_delta(events@.subrange(0, i as int)),
                y_diff as int == y_delta(events@.subrange(0, i as int)),
                -20 * (i as int) <= x_diff as int <= 20 * (i as int),
                0 <= y_diff as int <= 20 * (i as int),
                wants == (old_self.player_wants_box || exists|k: int|
                    0 <= k < i && events@[k] == GameInputEvent::PlayerTakeBox),
            decreases events.len() - i,
        {
            proof {
                assert(events@.subrange(0, (i + 1) as int).drop_last() =~= events@.subrange(0, i as int));
                assert(events@.subrange(0, (i + 1) as int).last() == events@[i as int]);
            }
            match events[i] {
                GameInputEvent::PlayerJump => {
                    y_diff = y_diff + MOVE_DELTA;
                },
                GameInputEvent::PlayerGoRight => {
                    x_diff = x_diff + MOVE_DELTA;
                },
                GameInputEvent::PlayerGoLeft => {
                    x_diff = x_diff - MOVE_DELTA;
                },
                GameInputEvent::PlayerTakeBox => {
                    if !wants {
                        wants = true;
                    }
                    proof {
                        assert(events@[i as int] == GameInputEvent::PlayerTakeBox);
                    }
                },
            }
            i = i + 1;
        }
        proof {
            assert(events@.subrange(0, events@.len() as int) =~= events@);
            if events@.contains(GameInputEvent::PlayerTakeBox) {
                let k = choose|k: int|
                    0 <= k < events@.len() && events@[k] == GameInputEvent::PlayerTakeBox;
                assert(events@[k] == GameInputEvent::PlayerTakeBox);
            }
            if exists|k: int| 0 <= k < events@.len() && events@[k] == GameInputEvent::PlayerTakeBox {
                let k = choose|k: int|
                    0 <= k < events@.len() && events@[k] == GameInputEvent::PlayerTakeBox;
                assert(events@.contains(GameInputEvent::PlayerTakeBox));
            }
            assert(wants == wants_box_after(events@, old_self.player_wants_box));
        }

        // -- move the player, clamped at the floor line
        let cam = self.camera;
        let floor = cam.y + self.floor_height;
        let p_old = self.physics_world.player_position;
        let new_x = p_old.x + x_diff;
        let raw_y = p_old.y + y_diff;
        let new_y = if raw_y < floor {
            floor
        } else {
            raw_y
        };
        let p_new = PlayerSpritePosition { x: new_x, y: new_y, width: p_old.width, height: p_old.height };
        proof {
            assert(p_new == old_self.moved_player(events@));
        }

        // -- spawn a crate when the spawn interval has passed
        if now - self.physics_world.last_crate_spawned > CRATE_SPAWN_INTERVAL_NANOS {
            self.physics_world.spawn_crate(0, 0);
            self.physics_world.last_crate_spawned = now;
        }
        proof {
            assert(self.physics_world.crates@ == old_self.crates_after_spawn(now));
            assert(crates_wf(self.physics_world.crates@));
        }

        // -- drift every crate and cull the ones leaving the view
        let culled = advance_and_cull_crates(&self.physics_world.crates, &cam);
        self.physics_world.crates = culled;
        self.physics_world.player_position = p_new;

        let game_result = PlayerResult::PlayerOk;

        // -- pickup/drop resolution against the free list
        let ghost culled_view = self.physics_world.crates@;
        proof {
            assert(player_arith_wf(p_new));
        }
        if wants {
            match player_intersect_crate(p_new, &self.physics_world.crates) {
                Some(idx) => {
                    match self.player_carrying_crate {
                        Some(box_crate) => {
                            // the carried crate is released back to the free list
                            self.physics_world.crates.push(box_crate);
                            self.player_carrying_crate = None;
                            proof {
                                assert(crate_wf(box_crate));
                                assert forall|j: int|
                                    0 <= j < self.physics_world.crates@.len() implies crate_wf(
                                    self.physics_world.crates@[j],
                                ) by {
                                    if j < culled_view.len() {
                                        assert(self.physics_world.crates@[j] == culled_view[j]);
                                    }
                                }
                            }
                        },
                        None => {
                            // the overlapped crate leaves the free list and is carried
                            let carrying_crate = self.physics_world.crates.remove(idx);
                            self.player_carrying_crate = Some(carrying_crate);
                            proof {
                                assert forall|j: int|
                                    0 <= j < self.physics_world.crates@.len() implies crate_wf(
                                    self.physics_world.crates@[j],
                                ) by {
                                    if j < idx {
                                        assert(self.physics_world.crates@[j] == culled_view[j]);
                                    } else {
                                        assert(self.physics_world.crates@[j] == culled_view[j + 1]);
                                    }
                                }
                            }
                        },
                    }
                },
                None => {},
            }
        }
        self.player_wants_box = false;
        proof {
            assert(crates_wf(self.physics_world.crates@));
        }

        // -- the highscore is the maximum top extent over the free crates
        let new_highscore = compute_highscore(&self.physics_world.crates);
        self.highscore = new_highscore;

        // -- the snapshot shows the carried crate above the player's head
        let mut snapshot_crates = copy_crates(&self.physics_world.crates);
        if self.player_carrying_crate.is_some() {
            snapshot_crates.push(
                CratePosition {
                    x: p_new.x + (p_new.width / 2 - CARRIED_CRATE_MARGIN),
                    y: p_new.y + p_new.height,
                    width: CARRIED_CRATE_SIZE,
                    height: CARRIED_CRATE_SIZE,
                },
            );
        }

        self.last_tick_update = now;

        PhysicsFinalizedData {
            crates: snapshot_crates,
            result: game_result,
            player_position: p_new,
            highscore: new_highscore,
        }
    }
}

/// A shallow copy of a crate list.
fn copy_crates(crates: &Vec<CratePosition>) -> (r: Vec<CratePosition>)
    ensures
        r@ == crates@,
{
    let mut out: Vec<CratePosition> = Vec::new();
    let mut i: usize = 0;
    while i < crates.len()
        invariant
            0 <= i <= crates.len(),
            out@ == crates@.subrange(0, i as int),
        decreases crates.len() - i,
    {
        out.push(crates[i]);
        proof {
            assert(crates@.subrange(0, i + 1 as int) =~= crates@.subrange(0, i as int).push(
                crates@[i as int],
            ));
        }
        i = i + 1;
    }
    proof {
        assert(crates@.subrange(0, crates@.len() as int) =~= crates@);
    }
    out
}

/// Scans the crate list for the first crate the player's bounding box
/// overlaps.
pub fn player_intersect_crate(
    player_position: PlayerSpritePosition,
    crates: &Vec<CratePosition>,
) -> (r: Option<usize>)
    requires
        player_arith_wf(player_position),
        crates_wf(crates@),
    ensures
        match r {
            Some(idx) => idx < crates@.len() && first_overlap(player_position, crates@) == Some(
                idx as int,
            ),
            None => first_overlap(player_position, crates@) is None,
        },
{
    let p = player_position;
    let mut idx: usize = 0;
    while idx < crates.len()
        invariant
            p == player_position,
            0 <= idx <= crates.len(),
            player_arith_wf(p),
            crates_wf(crates@),
            forall|j: int| 0 <= j < idx ==> !player_overlaps_crate(p, #[trigger] crates@[j]),
        decreases crates.len() - idx,
    {
        let box_crate = crates[idx];
        let pcx2 = 2 * p.x + p.width;
        let pcy2 = 2 * p.y + p.height;
        let ccx2 = 2 * box_crate.x + box_crate.width;
        let ccy2 = 2 * box_crate.y + box_crate.height;
        let dx2 = if pcx2 >= ccx2 {
            pcx2 - ccx2
        } else {
            ccx2 - pcx2
        };
        let dy2 = if pcy2 >= ccy2 {
            pcy2 - ccy2
        } else {
            ccy2 - pcy2
        };
        if dx2 < p.width + box_crate.width && dy2 < p.height + box_crate.height {
            proof {
                assert(player_overlaps_crate(p, crates@[idx as int]));
                lemma_first_overlap_some(p, crates@, idx as int);
            }
            return Some(idx);
        }
        proof {
            assert(!player_overlaps_crate(p, crates@[idx as int]));
        }
        idx = idx + 1;
    }
    proof {
        lemma_first_overlap_none(p, crates@);
    }
    None
}

} // verus!
