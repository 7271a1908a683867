use vstd::prelude::*;
use crate::collision::{mark, marked, starts_on, CollisionEvent, CollisionTag};
use crate::cooling::PlayerCoolingTimer;
use crate::fuel::PlayerFuel;
use crate::movement::{
    applied_change, apply_thrust, follow_height, fuel_spent, magnitude, requested,
    requested_change, Delta, Keys,
};
use crate::score::{raised, MaxScore, PlayerScore};
use crate::spawner::{
    draw_spawn, is_too_far, next_interval, next_interval_spec, sited, too_far,
    FuelCurrentlySpawned, FuelSpawner, Pickup, SpawnDraw,
};
use crate::timer::Timer;

verus! {

pub use crate::collision::PLAYER_ID;

/// Fuel capacity of a fresh craft.
pub const PLAYER_MAX_FUEL: u32 = 1000;

/// Fuel a pickup offers; a contact tops the gauge off whatever it offers.
pub const PICKUP_REFILL: u32 = 100;

/// The craft: where it is, its gauges, and its contact tag.
pub struct Player {
    pub x: i32,
    pub y: i32,
    pub fuel: PlayerFuel,
    pub cooling: PlayerCoolingTimer,
    pub score: PlayerScore,
    pub tag: CollisionTag,
}

/// What the pickups, the population counter, the spawn countdown and the
/// contact tags of one run amount to.
pub struct SessionModel {
    pub player_tag: CollisionTag,
    pub pickups: Seq<Pickup>,
    pub count: nat,
    pub cap: nat,
    pub next_id: nat,
    pub spawn_elapsed: nat,
    pub spawn_duration: nat,
}

impl SessionModel {
    /// The counter matches the live pickups and stays under the cap.
    pub open spec fn wf(&self) -> bool {
        &&& self.count == self.pickups.len()
        &&& self.count <= self.cap
        &&& self.next_id >= 1
        &&& self.spawn_elapsed <= self.spawn_duration
    }
}

/// A pickup after a batch of contact events.
pub open spec fn marked_pickup(p: Pickup, events: Seq<CollisionEvent>) -> Pickup {
    Pickup { tag: marked(p.tag, events, p.id), ..p }
}

/// Pickups that no contact has reached.
pub open spec fn untouched() -> spec_fn(Pickup) -> bool {
    |p: Pickup| p.tag == CollisionTag::NotCollided
}

/// Pickups that a contact has reached.
pub open spec fn consumed() -> spec_fn(Pickup) -> bool {
    |p: Pickup| p.tag == CollisionTag::Collided
}

/// Phase A: both bodies of every contact that began are tagged.
pub open spec fn mark_step(m: SessionModel, events: Seq<CollisionEvent>) -> SessionModel {
    SessionModel {
        player_tag: marked(m.player_tag, events, PLAYER_ID),
        pickups: m.pickups.map_values(|p: Pickup| marked_pickup(p, events)),
        ..m
    }
}

/// Whether phase B refuels the craft: it is tagged, and a tagged pickup is
/// consumed in the same pass. A contact with anything else (the ground)
/// tags the craft but gives no fuel.
pub open spec fn refuels(m: SessionModel) -> bool {
    &&& m.player_tag == CollisionTag::Collided
    &&& m.pickups.filter(consumed()).len() > 0
}

/// Phase B: tagged pickups are consumed and leave the population, and every
/// tag left is cleared.
pub open spec fn consume_step(m: SessionModel) -> SessionModel {
    SessionModel {
        player_tag: CollisionTag::NotCollided,
        pickups: m.pickups.filter(untouched()),
        count: m.pickups.filter(untouched()).len(),
        ..m
    }
}

/// Pickups within `FUEL_MAX_Y_DIST` of the craft's altitude.
pub open spec fn in_reach(player_y: int) -> spec_fn(Pickup) -> bool {
    |p: Pickup| !too_far(p, player_y)
}

/// Pickups beyond `FUEL_MAX_Y_DIST` of the craft's altitude.
pub open spec fn out_of_reach(player_y: int) -> spec_fn(Pickup) -> bool {
    |p: Pickup| too_far(p, player_y)
}

/// Cleanup: pickups too far above or below the craft leave the population.
pub open spec fn cleanup_step(m: SessionModel, player_y: int) -> SessionModel {
    SessionModel {
        pickups: m.pickups.filter(in_reach(player_y)),
        count: m.pickups.filter(in_reach(player_y)).len(),
        ..m
    }
}

/// Whether a spawn tick of `delta` nanoseconds places a pickup: the
/// countdown has run out, the population is under its cap, and an
/// identifier is left.
pub open spec fn fires(m: SessionModel, delta: nat) -> bool {
    &&& Timer::ticked(m.spawn_elapsed, m.spawn_duration, delta) >= m.spawn_duration
    &&& m.count < m.cap
    &&& m.next_id < u64::MAX
}

/// A spawn tick. When it fires, a pickup is placed by `draw` around the
/// craft's altitude, the population grows by one, and the countdown starts
/// over with an interval set by the draw and the logarithm of the altitude.
/// Otherwise only the countdown advances; a countdown that has run out
/// while the population is full stays run out until room is made.
pub open spec fn spawn_step(
    m: SessionModel,
    player_y: int,
    delta: nat,
    draw: SpawnDraw,
    ln_micro: nat,
) -> SessionModel {
    if fires(m, delta) {
        SessionModel {
            pickups: m.pickups.push(sited(draw, player_y, m.next_id as u64)),
            count: m.count + 1,
            next_id: m.next_id + 1,
            spawn_elapsed: 0,
            spawn_duration: next_interval_spec(draw.frac as nat, ln_micro),
            ..m
        }
    } else {
        SessionModel {
            spawn_elapsed: Timer::ticked(m.spawn_elapsed, m.spawn_duration, delta),
            ..m
        }
    }
}

/// One tick of the spawner's economy: a spawn tick, a cleanup pass, or a
/// consumption pass of the contact protocol.
#[derive(Clone, Copy, Debug, PartialEq, Eq, Structural)]
pub enum SpawnerTick {
    Fire { player_y: i32, delta: u64, draw: SpawnDraw, ln_micro: u32 },
    Cleanup { player_y: i32 },
    Consume,
}

pub open spec fn apply_tick(m: SessionModel, t: SpawnerTick) -> SessionModel {
    match t {
        SpawnerTick::Fire { player_y, delta, draw, ln_micro } => spawn_step(
            m,
            player_y as int,
            delta as nat,
            draw,
            ln_micro as nat,
        ),
        SpawnerTick::Cleanup { player_y } => cleanup_step(m, player_y as int),
        SpawnerTick::Consume => consume_step(m),
    }
}

/// The model after a sequence of ticks, in order.
pub open spec fn run_ticks(m: SessionModel, ts: Seq<SpawnerTick>) -> SessionModel
    decreases ts.len(),
{
    if ts.len() == 0 {
        m
    } else {
        apply_tick(run_ticks(m, ts.drop_last()), ts.last())
    }
}

/// The live population never exceeds its cap, and always matches the live
/// pickups, whatever sequence of spawn, cleanup and consumption ticks runs.
pub proof fn lemma_population_within_cap(m: SessionModel, ts: Seq<SpawnerTick>)
    requires
        m.wf(),
    ensures
        run_ticks(m, ts).wf(),
        run_ticks(m, ts).cap == m.cap,
        run_ticks(m, ts).count <= m.cap,
    decreases ts.len(),
{
    if ts.len() > 0 {
        lemma_population_within_cap(m, ts.drop_last());
        let p = run_ticks(m, ts.drop_last());
        match ts.last() {
            SpawnerTick::Fire { player_y, delta, draw, ln_micro } => {},
            SpawnerTick::Cleanup { player_y } => {
                p.pickups.lemma_filter_len(in_reach(player_y as int));
            },
            SpawnerTick::Consume => {
                p.pickups.lemma_filter_len(untouched());
            },
        }
    }
}

/// A contact that begins between bodies `a` and `b` tags both in phase A;
/// the next phase B consumes a tagged pickup, so it is gone, and leaves
/// every body still present untagged.
pub proof fn lemma_tag_lasts_one_step(
    m: SessionModel,
    events: Seq<CollisionEvent>,
    k: int,
    a: u64,
    b: u64,
)
    requires
        0 <= k < events.len(),
        events[k] == CollisionEvent::Started(a, b),
    ensures
        (a == PLAYER_ID || b == PLAYER_ID) ==> mark_step(m, events).player_tag
            == CollisionTag::Collided,
        forall|i: int|
            0 <= i < m.pickups.len() && (m.pickups[i].id == a || m.pickups[i].id == b)
                ==> #[trigger] mark_step(m, events).pickups[i].tag == CollisionTag::Collided,
        consume_step(mark_step(m, events)).player_tag == CollisionTag::NotCollided,
        forall|i: int|
            0 <= i < consume_step(mark_step(m, events)).pickups.len()
                ==> #[trigger] consume_step(mark_step(m, events)).pickups[i].tag
                == CollisionTag::NotCollided,
        forall|i: int|
            0 <= i < m.pickups.len() && (m.pickups[i].id == a || m.pickups[i].id == b)
                ==> !consume_step(mark_step(m, events)).pickups.contains(
                #[trigger] mark_step(m, events).pickups[i],
            ),
{
    assert(starts_on(events[k], a));
    assert(starts_on(events[k], b));
    let m1 = mark_step(m, events);
    let m2 = consume_step(m1);
    assert forall|i: int| 0 <= i < m2.pickups.len() implies #[trigger] m2.pickups[i].tag
        == CollisionTag::NotCollided by {
        m1.pickups.lemma_filter_pred(untouched(), i);
    }
    assert forall|i: int|
        0 <= i < m.pickups.len() && (m.pickups[i].id == a || m.pickups[i].id == b)
            implies !m2.pickups.contains(#[trigger] m1.pickups[i]) by {
        assert(m1.pickups[i].tag == CollisionTag::Collided);
        if m2.pickups.contains(m1.pickups[i]) {
            let j = choose|j: int| 0 <= j < m2.pickups.len() && m2.pickups[j] == m1.pickups[i];
            m1.pickups.lemma_filter_pred(untouched(), j);
        }
    }
}

proof fn lemma_filter_step(s: Seq<Pickup>, pred: spec_fn(Pickup) -> bool, i: int)
    requires
        0 <= i < s.len(),
    ensures
        s.subrange(0, i + 1).filter(pred) == if pred(s[i]) {
            s.subrange(0, i).filter(pred).push(s[i])
        } else {
            s.subrange(0, i).filter(pred)
        },
{
    reveal(Seq::filter);
    assert(s.subrange(0, i + 1).drop_last() =~= s.subrange(0, i));
}

/// One run: the craft, its camera, the live pickups and the spawner.
pub struct Session {
    player: Player,
    camera_y: i32,
    pickups: Vec<Pickup>,
    spawner: FuelSpawner,
    population: FuelCurrentlySpawned,
    next_id: u64,
}

impl View for Session {
    type V = SessionModel;

    closed spec fn view(&self) -> SessionModel {
        SessionModel {
            player_tag: self.player.tag,
            pickups: self.pickups@,
            count: self.population.count(),
            cap: self.population.cap(),
            next_id: self.next_id as nat,
            spawn_elapsed: self.spawner.timer.elapsed_spec(),
            spawn_duration: self.spawner.timer.duration_spec(),
        }
    }
}

impl Session {
    /// The craft.
    pub closed spec fn player_spec(&self) -> Player {
        self.player
    }

    /// Height of the camera.
    pub closed spec fn camera_spec(&self) -> int {
        self.camera_y as int
    }

    pub open spec fn wf(&self) -> bool {
        &&& self@.wf()
        &&& self.player_spec().fuel.wf()
        &&& self.player_spec().cooling.wf()
        &&& self.player_spec().score.wf()
        &&& self@.player_tag == self.player_spec().tag
    }

    /// The craft of a fresh run: at the origin, full, cool, with no score
    /// and no tag, and the camera at zero.
    pub open spec fn fresh_craft(&self) -> bool {
        &&& self.player_spec().x == 0
        &&& self.player_spec().y == 0
        &&& self.player_spec().fuel.level() == PLAYER_MAX_FUEL
        &&& self.player_spec().fuel.capacity() == PLAYER_MAX_FUEL
        &&& self.player_spec().cooling.used() == 0
        &&& self.player_spec().cooling.limit() == crate::cooling::COOLING_TIME
        &&& self.player_spec().score.value() == 0
        &&& self.player_spec().score.offered() == Seq::<int>::empty()
        &&& self.player_spec().tag == CollisionTag::NotCollided
        &&& self.camera_spec() == 0
    }

    /// The model of a fresh run.
    pub open spec fn new_spec(max_spawn: nat) -> SessionModel {
        SessionModel {
            player_tag: CollisionTag::NotCollided,
            pickups: Seq::empty(),
            count: 0,
            cap: max_spawn,
            next_id: 1,
            spawn_elapsed: 0,
            spawn_duration: crate::spawner::RESPAWN_TIME as nat,
        }
    }

    /// A fresh run: a full craft at the origin, no pickups, and a spawner
    /// that first fires after `RESPAWN_TIME`.
    pub fn new(max_spawn: u32) -> (r: Session)
        ensures
            r.wf(),
            r@ == Self::new_spec(max_spawn as nat),
            r.fresh_craft(),
            r@.pickups.len() == 0,
            r@.count == 0,
            r@.cap == max_spawn,
            r@.next_id == 1,
            r@.spawn_elapsed == 0,
            r@.spawn_duration == crate::spawner::RESPAWN_TIME,
            r@.player_tag == CollisionTag::NotCollided,
            r.player_spec().x == 0,
            r.player_spec().y == 0,
            r.player_spec().fuel.level() == PLAYER_MAX_FUEL,
            r.player_spec().fuel.capacity() == PLAYER_MAX_FUEL,
            r.player_spec().cooling.used() == 0,
            r.player_spec().cooling.limit() == crate::cooling::COOLING_TIME,
            r.player_spec().score.value() == 0,
            r.camera_spec() == 0,
    {
        let player = Player {
            x: 0,
            y: 0,
            fuel: PlayerFuel::new(PLAYER_MAX_FUEL),
            cooling: PlayerCoolingTimer::new(),
            score: PlayerScore::new(),
            tag: CollisionTag::NotCollided,
        };
        let r = Session {
            player,
            camera_y: 0,
            pickups: Vec::new(),
            spawner: FuelSpawner::new(),
            population: FuelCurrentlySpawned::new(max_spawn),
            next_id: 1,
        };
        assert(r@.pickups =~= Seq::<Pickup>::empty());
        r
    }

    pub fn player(&self) -> (r: &Player)
        ensures
            *r == self.player_spec(),
    {
        &self.player
    }

    pub fn pickups(&self) -> (r: &Vec<Pickup>)
        ensures
            r@ == self@.pickups,
    {
        &self.pickups
    }

    pub fn population(&self) -> (r: &FuelCurrentlySpawned)
        ensures
            r.count() == self@.count,
            r.cap() == self@.cap,
    {
        &self.population
    }

    pub fn camera_y(&self) -> (r: i32)
        ensures
            r == self.camera_spec(),
    {
        self.camera_y
    }

    /// Records where the physics provider has moved the craft.
    pub fn set_player_position(&mut self, x: i32, y: i32)
        requires
            old(self).wf(),
        ensures
            final(self).wf(),
            final(self)@ == old(self)@,
            final(self).player_spec() == (Player { x, y, ..old(self).player_spec() }),
            final(self).camera_spec() == old(self).camera_spec(),
    {
        self.player.x = x;
        self.player.y = y;
    }

    /// Phase A of the contact protocol, run after the physics update: both
    /// bodies of every contact that began are tagged `Collided`. Contacts
    /// that ended change nothing, and identifiers of bodies that are gone
    /// are passed over.
    pub fn mark_collisions(&mut self, events: &Vec<CollisionEvent>)
        requires
            old(self).wf(),
        ensures
            final(self).wf(),
            final(self)@ == mark_step(old(self)@, events@),
            final(self).player_spec() == (Player {
                tag: marked(old(self).player_spec().tag, events@, PLAYER_ID),
                ..old(self).player_spec()
            }),
            final(self).camera_spec() == old(self).camera_spec(),
    {
        self.player.tag = mark(self.player.tag, events, PLAYER_ID);
        let ghost snap = *self;
        let mut out: Vec<Pickup> = Vec::new();
        let mut i: usize = 0;
        while i < self.pickups.len()
            invariant
                *self == snap,
                i <= self.pickups@.len(),
                out@.len() == i,
                forall|j: int|
                    0 <= j < i ==> out@[j] == marked_pickup(#[trigger] self.pickups@[j], events@),
            decreases self.pickups@.len() - i,
        {
            let p = self.pickups[i];
            out.push(Pickup { id: p.id, x: p.x, y: p.y, tag: mark(p.tag, events, p.id) });
            i = i + 1;
        }
        assert(out@ =~= self.pickups@.map_values(|p: Pickup| marked_pickup(p, events@)));
        self.pickups = out;
    }

    /// Phase B of the contact protocol, run before the other gameplay
    /// systems read tags. Each tagged pickup is consumed and leaves the
    /// population once; a tagged craft that consumed a pickup this pass is
    /// refuelled to capacity and its cooling refilled; then every tag is
    /// cleared. Returns the consumed
    /// pickups, for the caller to destroy.
    pub fn handle_collision(&mut self) -> (removed: Vec<Pickup>)
        requires
            old(self).wf(),
        ensures
            final(self).wf(),
            final(self)@ == consume_step(old(self)@),
            removed@ == old(self)@.pickups.filter(consumed()),
            final(self).player_spec().x == old(self).player_spec().x,
            final(self).player_spec().y == old(self).player_spec().y,
            final(self).player_spec().score == old(self).player_spec().score,
            final(self).player_spec().fuel.capacity() == old(self).player_spec().fuel.capacity(),
            final(self).player_spec().cooling.limit() == old(self).player_spec().cooling.limit(),
            refuels(old(self)@) ==> {
                &&& final(self).player_spec().fuel.level() == old(self).player_spec().fuel.capacity()
                &&& final(self).player_spec().cooling.used() == 0
            },
            !refuels(old(self)@) ==> {
                &&& final(self).player_spec().fuel == old(self).player_spec().fuel
                &&& final(self).player_spec().cooling == old(self).player_spec().cooling
            },
            final(self).camera_spec() == old(self).camera_spec(),
    {
        let ghost snap = *self;
        let mut kept: Vec<Pickup> = Vec::new();
        let mut removed: Vec<Pickup> = Vec::new();
        let mut i: usize = 0;
        while i < self.pickups.len()
            invariant
                *self == snap,
                i <= self.pickups@.len(),
                kept@ == self.pickups@.subrange(0, i as int).filter(untouched()),
                removed@ == self.pickups@.subrange(0, i as int).filter(consumed()),
            decreases self.pickups@.len() - i,
        {
            let p = self.pickups[i];
            proof {
                lemma_filter_step(self.pickups@, untouched(), i as int);
                lemma_filter_step(self.pickups@, consumed(), i as int);
            }
            if p.tag == CollisionTag::Collided {
                removed.push(p);
            } else {
                kept.push(p);
            }
            i = i + 1;
        }
        assert(self.pickups@.subrange(0, self.pickups@.len() as int) =~= self.pickups@);
        proof {
            self.pickups@.lemma_filter_len(untouched());
        }
        proof {
            self.population.lemma_cap_fits();
        }
        let n = kept.len() as u32;
        self.population.set_spawned(n);
        self.pickups = kept;
        if self.player.tag == CollisionTag::Collided && removed.len() > 0 {
            self.player.fuel.add_fuel(PICKUP_REFILL);
            self.player.cooling.refill_cooling();
        }
        self.player.tag = CollisionTag::NotCollided;
        removed
    }

    /// Advances the spawn countdown by `delta` nanoseconds and, when it
    /// fires, places the pickup that `draw` sites. `ln_micro` is the natural
    /// logarithm of `cadence_altitude` of the craft's altitude, in
    /// millionths. Returns the new pickup, if any.
    pub fn tick_spawn_with(&mut self, delta: u64, draw: SpawnDraw, ln_micro: u32) -> (r: Option<
        Pickup,
    >)
        requires
            old(self).wf(),
            draw.wf(),
        ensures
            final(self).wf(),
            final(self)@ == spawn_step(
                old(self)@,
                old(self).player_spec().y as int,
                delta as nat,
                draw,
                ln_micro as nat,
            ),
            r == if fires(old(self)@, delta as nat) {
                Some(sited(draw, old(self).player_spec().y as int, old(self)@.next_id as u64))
            } else {
                None
            },
            final(self).player_spec() == old(self).player_spec(),
            final(self).camera_spec() == old(self).camera_spec(),
    {
        let fire = self.spawner.timer.finishes_after(delta);
        self.spawner.timer.tick(delta);
        if fire && self.population.has_room() && self.next_id < u64::MAX {
            let p = Pickup {
                id: self.next_id,
                x: draw.dx,
                y: self.player.y as i64 + draw.dy,
                tag: CollisionTag::NotCollided,
            };
            self.pickups.push(p);
            proof {
                self.population.lemma_cap_fits();
            }
            let n = self.population.spawned() + 1;
            self.population.set_spawned(n);
            self.next_id = self.next_id + 1;
            let interval = next_interval(draw.frac, ln_micro);
            self.spawner.timer.restart_with(interval);
            Some(p)
        } else {
            None
        }
    }

    /// Whether a spawn tick of `delta` nanoseconds would place a pickup.
    pub fn spawn_fires(&self, delta: u64) -> (r: bool)
        requires
            self.wf(),
        ensures
            r == fires(self@, delta as nat),
    {
        self.spawner.timer.finishes_after(delta) && self.population.has_room()
            && self.next_id < u64::MAX
    }

    /// A spawn tick that draws the siting and the next interval from the
    /// spawner's generator, and only when the tick fires.
    pub fn tick_spawn(
        &mut self,
        delta: u64,
        ln_micro: u32,
        rng: &mut bevy_turborand::RngComponent,
    ) -> (r: Option<Pickup>)
        requires
            old(self).wf(),
        ensures
            final(self).wf(),
            exists|draw: SpawnDraw|
                {
                    &&& draw.wf()
                    &&& final(self)@ == #[trigger] spawn_step(
                        old(self)@,
                        old(self).player_spec().y as int,
                        delta as nat,
                        draw,
                        ln_micro as nat,
                    )
                    &&& r == if fires(old(self)@, delta as nat) {
                        Some(
                            sited(draw, old(self).player_spec().y as int, old(self)@.next_id as u64),
                        )
                    } else {
                        None
                    }
                },
            final(self).player_spec() == old(self).player_spec(),
            final(self).camera_spec() == old(self).camera_spec(),
    {
        let draw = if self.spawn_fires(delta) {
            draw_spawn(rng)
        } else {
            SpawnDraw { dx: 0, dy: 0, frac: 0 }
        };
        let r = self.tick_spawn_with(delta, draw, ln_micro);
        assert(draw.wf());
        r
    }

    /// Destroys every pickup farther than `FUEL_MAX_Y_DIST` above or below
    /// the craft, each leaving the population once. Returns them, for the
    /// caller to destroy.
    pub fn clean_up_fuel(&mut self) -> (removed: Vec<Pickup>)
        requires
            old(self).wf(),
        ensures
            final(self).wf(),
            final(self)@ == cleanup_step(old(self)@, old(self).player_spec().y as int),
            removed@ == old(self)@.pickups.filter(
                out_of_reach(old(self).player_spec().y as int),
            ),
            final(self).player_spec() == old(self).player_spec(),
            final(self).camera_spec() == old(self).camera_spec(),
    {
        let player_y = self.player.y;
        let ghost snap = *self;
        let mut kept: Vec<Pickup> = Vec::new();
        let mut removed: Vec<Pickup> = Vec::new();
        let mut i: usize = 0;
        while i < self.pickups.len()
            invariant
                *self == snap,
                player_y == self.player.y,
                i <= self.pickups@.len(),
                kept@ == self.pickups@.subrange(0, i as int).filter(in_reach(player_y as int)),
                removed@ == self.pickups@.subrange(0, i as int).filter(
                    out_of_reach(player_y as int),
                ),
            decreases self.pickups@.len() - i,
        {
            let p = self.pickups[i];
            proof {
                lemma_filter_step(self.pickups@, in_reach(player_y as int), i as int);
                lemma_filter_step(self.pickups@, out_of_reach(player_y as int), i as int);
            }
            if is_too_far(&p, player_y) {
                removed.push(p);
            } else {
                kept.push(p);
            }
            i = i + 1;
        }
        assert(self.pickups@.subrange(0, self.pickups@.len() as int) =~= self.pickups@);
        proof {
            self.pickups@.lemma_filter_len(in_reach(player_y as int));
        }
        proof {
            self.population.lemma_cap_fits();
        }
        let n = kept.len() as u32;
        self.population.set_spawned(n);
        self.pickups = kept;
        removed
    }

    /// Turns the held keys into thrust: burns fuel for the requested change
    /// and returns the change applied to the craft's velocity.
    pub fn input_system(&mut self, keys: Keys, delta_nanos: u64) -> (applied: Delta)
        requires
            old(self).wf(),
        ensures
            final(self).wf(),
            final(self)@ == old(self)@,
            applied == applied_change(
                requested(keys, delta_nanos as nat),
                old(self).player_spec().fuel.level(),
            ),
            final(self).player_spec().fuel.level() == old(self).player_spec().fuel.level()
                - fuel_spent(requested(keys, delta_nanos as nat), old(self).player_spec().fuel.level()),
            final(self).player_spec().fuel.capacity() == old(self).player_spec().fuel.capacity(),
            magnitude(requested(keys, delta_nanos as nat)) == 0
                ==> final(self).player_spec().fuel.level() == old(self).player_spec().fuel.level(),
            applied.x * applied.x + applied.y * applied.y <= fuel_spent(
                requested(keys, delta_nanos as nat),
                old(self).player_spec().fuel.level(),
            ) * fuel_spent(requested(keys, delta_nanos as nat), old(self).player_spec().fuel.level()),
            final(self).player_spec() == (Player {
                fuel: final(self).player_spec().fuel,
                ..old(self).player_spec()
            }),
            final(self).camera_spec() == old(self).camera_spec(),
    {
        let req = requested_change(keys, delta_nanos);
        apply_thrust(&mut self.player.fuel, req)
    }

    /// Counts `delta` nanoseconds of cooling and reports whether it has run
    /// out, which ends the run.
    pub fn player_cooling(&mut self, delta: u64) -> (expired: bool)
        requires
            old(self).wf(),
        ensures
            final(self).wf(),
            final(self)@ == old(self)@,
            final(self).player_spec().cooling.used() == Timer::ticked(
                old(self).player_spec().cooling.used(),
                old(self).player_spec().cooling.limit(),
                delta as nat,
            ),
            final(self).player_spec().cooling.limit() == old(self).player_spec().cooling.limit(),
            expired == final(self).player_spec().cooling.expired(),
            final(self).player_spec() == (Player {
                cooling: final(self).player_spec().cooling,
                ..old(self).player_spec()
            }),
            final(self).camera_spec() == old(self).camera_spec(),
    {
        self.player.cooling.tick(delta);
        self.player.cooling.finished()
    }

    /// Raises the run's score and the cross-run watermark to the craft's
    /// altitude.
    pub fn update_score(&mut self, best: &mut MaxScore)
        requires
            old(self).wf(),
            old(best).score.wf(),
        ensures
            final(self).wf(),
            final(best).score.wf(),
            final(best).score.offered() == old(best).score.offered().push(
                old(self).player_spec().y as int,
            ),
            final(self).player_spec().score.offered() == old(self).player_spec().score.offered().push(
                old(self).player_spec().y as int,
            ),
            final(self)@ == old(self)@,
            final(self).player_spec().score.value() == raised(
                old(self).player_spec().score.value(),
                old(self).player_spec().y as int,
            ),
            final(best).score.value() == raised(
                old(best).score.value(),
                old(self).player_spec().y as int,
            ),
            final(self).player_spec() == (Player {
                score: final(self).player_spec().score,
                ..old(self).player_spec()
            }),
            final(self).camera_spec() == old(self).camera_spec(),
    {
        let y = self.player.y as i64;
        self.player.score.set_score(y);
        best.score.set_score(y);
    }

    /// Moves the camera up to the craft; it never moves back down.
    pub fn update_camera_height(&mut self)
        requires
            old(self).wf(),
        ensures
            final(self).wf(),
            final(self)@ == old(self)@,
            final(self).player_spec() == old(self).player_spec(),
            final(self).camera_spec() == if old(self).player_spec().y > old(self).camera_spec() {
                old(self).player_spec().y as int
            } else {
                old(self).camera_spec()
            },
    {
        self.camera_y = follow_height(self.camera_y, self.player.y);
    }
}

} // verus!
