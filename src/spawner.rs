use vstd::prelude::*;
use crate::collision::CollisionTag;
use crate::timer::Timer;

verus! {

/// Radius of a fuel pickup's sensor body, in world units.
pub const FUEL_RADIUS: u32 = 10;

/// Vertical distance from the craft beyond which a pickup is cleaned up.
pub const FUEL_MAX_Y_DIST: i64 = 1000;

/// Horizontal spread of new pickups around the world's centre line.
pub const SPAWN_SPREAD_X: i64 = 500;

/// Vertical spread of new pickups around the craft's altitude.
pub const SPAWN_SPREAD_Y: i64 = 1000;

/// Nanoseconds before the first spawn of a run.
pub const RESPAWN_TIME: u64 = 1_000_000_000;

/// Altitude below which the spawn cadence no longer changes.
pub const MIN_SPAWN_ALTITUDE: i32 = 100;

/// Denominator of the uniform draw that scales the spawn interval.
pub const DRAW_SCALE: u32 = 1_000_000;

/// Divides `draw * ln_micro` into nanoseconds: the draw counts millionths,
/// the logarithm counts millionths, and the interval is a hundredth of a
/// second per unit of logarithm.
pub const INTERVAL_DIVISOR: u64 = 100_000;

/// Most pickups alive at once in a default run.
pub const DEFAULT_MAX_SPAWN: u32 = 1000;

/// Live pickup count together with its cap.
pub struct FuelCurrentlySpawned {
    spawned: u32,
    max_spawn: u32,
}

impl FuelCurrentlySpawned {
    pub closed spec fn count(&self) -> nat {
        self.spawned as nat
    }

    pub closed spec fn cap(&self) -> nat {
        self.max_spawn as nat
    }

    pub open spec fn wf(&self) -> bool {
        self.count() <= self.cap()
    }

    /// The cap is a `u32`.
    pub proof fn lemma_cap_fits(&self)
        ensures
            self.cap() <= u32::MAX,
    {
    }

    /// An empty population with the given cap.
    pub fn new(max_spawn: u32) -> (r: FuelCurrentlySpawned)
        ensures
            r.wf(),
            r.count() == 0,
            r.cap() == max_spawn,
    {
        FuelCurrentlySpawned { spawned: 0, max_spawn }
    }

    pub fn spawned(&self) -> (r: u32)
        ensures
            r == self.count(),
    {
        self.spawned
    }

    pub fn max_spawn(&self) -> (r: u32)
        ensures
            r == self.cap(),
    {
        self.max_spawn
    }

    /// Whether one more pickup fits under the cap.
    pub fn has_room(&self) -> (r: bool)
        ensures
            r == (self.count() < self.cap()),
    {
        self.spawned < self.max_spawn
    }

    /// Sets the count; the caller keeps it at or under the cap.
    pub fn set_spawned(&mut self, n: u32)
        requires
            n <= old(self).cap(),
        ensures
            final(self).wf(),
            final(self).count() == n,
            final(self).cap() == old(self).cap(),
    {
        self.spawned = n;
    }
}

/// The countdown to the next pickup.
pub struct FuelSpawner {
    pub timer: Timer,
}

impl FuelSpawner {
    pub open spec fn wf(&self) -> bool {
        self.timer.wf()
    }

    /// A spawner that first fires after `RESPAWN_TIME`.
    pub fn new() -> (r: FuelSpawner)
        ensures
            r.wf(),
            r.timer.elapsed_spec() == 0,
            r.timer.duration_spec() == RESPAWN_TIME,
    {
        FuelSpawner { timer: Timer::new(RESPAWN_TIME) }
    }
}

impl Default for FuelSpawner {
    fn default() -> (r: FuelSpawner)
        ensures
            r.wf(),
            r.timer.elapsed_spec() == 0,
            r.timer.duration_spec() == RESPAWN_TIME,
    {
        FuelSpawner::new()
    }
}

/// A fuel pickup: a sensor body at a fixed place.
#[derive(Clone, Copy, Debug, PartialEq, Eq, Structural)]
pub struct Pickup {
    pub id: u64,
    pub x: i64,
    pub y: i64,
    pub tag: CollisionTag,
}

/// The random values one spawn consumes.
#[derive(Clone, Copy, Debug, PartialEq, Eq, Structural)]
pub struct SpawnDraw {
    /// Horizontal offset, within `SPAWN_SPREAD_X` of zero.
    pub dx: i64,
    /// Vertical offset from the craft, within `SPAWN_SPREAD_Y` of zero.
    pub dy: i64,
    /// Uniform draw in `[0, DRAW_SCALE]` that scales the next interval.
    pub frac: u32,
}

impl SpawnDraw {
    pub open spec fn wf(&self) -> bool {
        -SPAWN_SPREAD_X <= self.dx <= SPAWN_SPREAD_X
            && -SPAWN_SPREAD_Y <= self.dy <= SPAWN_SPREAD_Y
            && self.frac <= DRAW_SCALE
    }
}

/// The altitude whose logarithm sets the spawn cadence: the craft's
/// altitude, but never below `MIN_SPAWN_ALTITUDE`.
pub open spec fn cadence_altitude_spec(player_y: int) -> int {
    if player_y < MIN_SPAWN_ALTITUDE {
        MIN_SPAWN_ALTITUDE as int
    } else {
        player_y
    }
}

/// Nanoseconds until the next spawn: the uniform draw times the natural
/// logarithm of the cadence altitude, over a hundred, in seconds.
pub open spec fn next_interval_spec(frac: nat, ln_micro: nat) -> nat {
    frac * ln_micro / INTERVAL_DIVISOR as nat
}

/// The altitude whose logarithm sets the spawn cadence.
pub fn cadence_altitude(player_y: i32) -> (r: u32)
    ensures
        r == cadence_altitude_spec(player_y as int),
        r >= MIN_SPAWN_ALTITUDE,
{
    if player_y < MIN_SPAWN_ALTITUDE {
        MIN_SPAWN_ALTITUDE as u32
    } else {
        player_y as u32
    }
}

/// Nanoseconds until the next spawn, from the uniform draw (in millionths)
/// and the natural logarithm of the cadence altitude (in millionths).
pub fn next_interval(frac: u32, ln_micro: u32) -> (r: u64)
    ensures
        r == next_interval_spec(frac as nat, ln_micro as nat),
{
    assert((frac as int) * (ln_micro as int) <= (u32::MAX as int) * (u32::MAX as int)) by (nonlinear_arith)
        requires frac <= u32::MAX, ln_micro <= u32::MAX;
    (frac as u64) * (ln_micro as u64) / INTERVAL_DIVISOR
}

/// Where a pickup drawn with `draw` appears when the craft is at `player_y`.
pub open spec fn sited(draw: SpawnDraw, player_y: int, id: u64) -> Pickup {
    Pickup {
        id,
        x: draw.dx,
        y: (player_y + draw.dy) as i64,
        tag: CollisionTag::NotCollided,
    }
}

/// Whether a pickup has drifted too far above or below the craft.
pub open spec fn too_far(p: Pickup, player_y: int) -> bool {
    p.y - player_y > FUEL_MAX_Y_DIST || player_y - p.y > FUEL_MAX_Y_DIST
}

/// Whether a pickup has drifted too far above or below the craft.
pub fn is_too_far(p: &Pickup, player_y: i32) -> (r: bool)
    ensures
        r == too_far(*p, player_y as int),
{
    let d = (p.y as i128) - (player_y as i128);
    d > FUEL_MAX_Y_DIST as i128 || -d > FUEL_MAX_Y_DIST as i128
}

/// Relies on bevy_turborand's `DelegatedRng::i64` (turborand's `TurboRand::i64`):
/// for a non-empty inclusive range it returns a value inside it, and it
/// panics on an empty one.
#[verifier::external_body]
fn draw_i64(rng: &mut bevy_turborand::RngComponent, lo: i64, hi: i64) -> (r: i64)
    requires
        lo <= hi,
    ensures
        lo <= r <= hi,
{
    bevy_turborand::DelegatedRng::i64(rng, lo..=hi)
}

/// Relies on bevy_turborand's `DelegatedRng::u32` (turborand's `TurboRand::u32`):
/// for a non-empty inclusive range it returns a value inside it, and it
/// panics on an empty one.
#[verifier::external_body]
fn draw_u32(rng: &mut bevy_turborand::RngComponent, lo: u32, hi: u32) -> (r: u32)
    requires
        lo <= hi,
    ensures
        lo <= r <= hi,
{
    bevy_turborand::DelegatedRng::u32(rng, lo..=hi)
}

/// Draws the random values of one spawn from the spawner's generator.
pub fn draw_spawn(rng: &mut bevy_turborand::RngComponent) -> (r: SpawnDraw)
    ensures
        r.wf(),
{
    let dx = draw_i64(rng, -SPAWN_SPREAD_X, SPAWN_SPREAD_X);
    let dy = draw_i64(rng, -SPAWN_SPREAD_Y, SPAWN_SPREAD_Y);
    let frac = draw_u32(rng, 0, DRAW_SCALE);
    SpawnDraw { dx, dy, frac }
}

} // verus!
