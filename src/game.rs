use vstd::prelude::*;
use crate::collision::{CollisionEvent, CollisionTag};
use crate::movement::{applied_change, fuel_spent, requested, Delta, Keys};
use crate::score::{highest, raised, MaxScore};
use crate::session::{
    cleanup_step, consume_step, consumed, fires, out_of_reach, refuels, spawn_step, Session,
};
use crate::spawner::{sited, Pickup, SpawnDraw};
use crate::timer::Timer;

verus! {

/// Which part of the game loop is running.
#[derive(Clone, Copy, Debug, PartialEq, Eq, Structural, Hash)]
pub enum GameState {
    Loading,
    Game,
    GameOver,
}

/// What the outside world hands the simulation for one frame.
#[derive(Clone, Copy, Debug, PartialEq, Eq, Structural)]
pub struct FrameInput {
    /// Directions held during the frame.
    pub keys: Keys,
    /// Nanoseconds since the previous frame.
    pub delta_nanos: u64,
    /// Craft position reported by the physics provider.
    pub player_x: i32,
    pub player_y: i32,
    /// Natural logarithm, in millionths, of `cadence_altitude(player_y)`.
    pub ln_micro: u32,
}

/// What one frame of play did, for the outside world to carry out.
pub struct StepReport {
    /// Change to add to the craft's velocity.
    pub applied: Delta,
    /// Pickup to create, if the spawner fired.
    pub spawned: Option<Pickup>,
    /// Pickups consumed by contact, to destroy.
    pub consumed: Vec<Pickup>,
    /// Pickups that drifted out of reach, to destroy.
    pub cleaned: Vec<Pickup>,
    /// The cooling ran out: the run is over.
    pub game_over: bool,
}

/// Process-wide context: the current state, the run in progress, and the
/// best score over every run.
pub struct GameContext {
    state: GameState,
    session: Option<Session>,
    best: MaxScore,
    max_spawn: u32,
}

impl GameContext {
    pub closed spec fn state_spec(&self) -> GameState {
        self.state
    }

    pub closed spec fn session_spec(&self) -> Option<Session> {
        self.session
    }

    /// The high-score watermark.
    pub closed spec fn best_spec(&self) -> int {
        self.best.score.value()
    }

    /// Every altitude the watermark has been offered, over every run.
    pub closed spec fn offered_spec(&self) -> Seq<int> {
        self.best.score.offered()
    }

    /// Population cap of every run.
    pub closed spec fn max_spawn_spec(&self) -> nat {
        self.max_spawn as nat
    }

    /// A run exists exactly while the game is being played, and the
    /// watermark is the highest altitude of every frame so far.
    pub open spec fn wf(&self) -> bool {
        &&& (self.state_spec() == GameState::Game) == self.session_spec().is_some()
        &&& self.session_spec().is_some() ==> self.session_spec().unwrap().wf()
        &&& self.best_spec() == highest(0, self.offered_spec())
    }

    /// Starts in `Loading`, with no run and a watermark of zero.
    pub fn new(max_spawn: u32) -> (r: GameContext)
        ensures
            r.wf(),
            r.state_spec() == GameState::Loading,
            r.best_spec() == 0,
            r.offered_spec() == Seq::<int>::empty(),
            r.max_spawn_spec() == max_spawn,
    {
        GameContext {
            state: GameState::Loading,
            session: None,
            best: MaxScore::default(),
            max_spawn,
        }
    }

    pub fn state(&self) -> (r: GameState)
        ensures
            r == self.state_spec(),
    {
        self.state
    }

    pub fn best_score(&self) -> (r: i64)
        ensures
            r == self.best_spec(),
    {
        self.best.score.get_score()
    }

    pub fn session(&self) -> (r: Option<&Session>)
        ensures
            r == match self.session_spec() {
                Some(s) => Some(&s),
                None => None,
            },
    {
        self.session.as_ref()
    }

    /// Live pickups: those of the run in progress, and zero between runs.
    pub fn population(&self) -> (r: u32)
        requires
            self.wf(),
        ensures
            r == match self.session_spec() {
                Some(s) => s@.count,
                None => 0,
            },
    {
        match &self.session {
            Some(s) => s.population().spawned(),
            None => 0,
        }
    }

    /// Entering `Game`: a fresh run with a full craft and no pickups.
    fn enter_game(&mut self)
        requires
            old(self).best_spec() == highest(0, old(self).offered_spec()),
        ensures
            final(self).wf(),
            final(self).offered_spec() == old(self).offered_spec(),
            final(self).session_spec().unwrap().fresh_craft(),
            final(self).state_spec() == GameState::Game,
            final(self).best_spec() == old(self).best_spec(),
            final(self).max_spawn_spec() == old(self).max_spawn_spec(),
            final(self).session_spec().is_some(),
            final(self).session_spec().unwrap()@ == Session::new_spec(old(self).max_spawn_spec()),
    {
        self.session = Some(Session::new(self.max_spawn));
        self.state = GameState::Game;
    }

    /// `Loading` to `Game`, once the assets are ready. In any other state
    /// nothing happens.
    pub fn assets_ready(&mut self)
        requires
            old(self).wf(),
        ensures
            final(self).wf(),
            final(self).best_spec() == old(self).best_spec(),
            final(self).max_spawn_spec() == old(self).max_spawn_spec(),
            final(self).offered_spec() == old(self).offered_spec(),
            old(self).state_spec() == GameState::Loading ==> {
                &&& final(self).state_spec() == GameState::Game
                &&& final(self).session_spec().unwrap().fresh_craft()
                &&& final(self).session_spec().unwrap()@ == Session::new_spec(
                    old(self).max_spawn_spec(),
                )
            },
            old(self).state_spec() != GameState::Loading ==> *final(self) == *old(self),
    {
        if self.state == GameState::Loading {
            self.enter_game();
        }
    }

    /// `GameOver` to `Game`, on the player's restart. The watermark carries
    /// over. In any other state nothing happens.
    pub fn restart(&mut self)
        requires
            old(self).wf(),
        ensures
            final(self).wf(),
            final(self).offered_spec() == old(self).offered_spec(),
            final(self).best_spec() == old(self).best_spec(),
            final(self).max_spawn_spec() == old(self).max_spawn_spec(),
            old(self).state_spec() == GameState::GameOver ==> {
                &&& final(self).state_spec() == GameState::Game
                &&& final(self).session_spec().unwrap().fresh_craft()
                &&& final(self).session_spec().unwrap()@ == Session::new_spec(
                    old(self).max_spawn_spec(),
                )
            },
            old(self).state_spec() != GameState::GameOver ==> *final(self) == *old(self),
    {
        if self.state == GameState::GameOver {
            self.enter_game();
        }
    }

    /// Phase A of the contact protocol for the run in progress; outside
    /// `Game` the events are dropped.
    pub fn mark_collisions(&mut self, events: &Vec<CollisionEvent>)
        requires
            old(self).wf(),
        ensures
            final(self).wf(),
            final(self).state_spec() == old(self).state_spec(),
            final(self).best_spec() == old(self).best_spec(),
            final(self).max_spawn_spec() == old(self).max_spawn_spec(),
            old(self).session_spec().is_some() ==> final(self).session_spec().unwrap()@
                == crate::session::mark_step(old(self).session_spec().unwrap()@, events@),
            old(self).session_spec().is_none() ==> *final(self) == *old(self),
            final(self).offered_spec() == old(self).offered_spec(),
    {
        match self.session.take() {
            Some(mut s) => {
                s.mark_collisions(events);
                self.session = Some(s);
            },
            None => {},
        }
    }

    /// One frame of play, in the fixed order of the gameplay systems:
    /// contacts are consumed (phase B), the craft thrusts, the cooling
    /// counts, the spawner ticks, far pickups are cleaned up, and the scores
    /// rise to the craft's altitude. When the cooling has run out the run
    /// ends: its pickups are dropped, the population goes back to zero, and
    /// the state becomes `GameOver`. Outside `Game` nothing happens.
    pub fn step(&mut self, input: FrameInput, rng: &mut bevy_turborand::RngComponent) -> (r:
        Option<StepReport>)
        requires
            old(self).wf(),
        ensures
            final(self).wf(),
            final(self).max_spawn_spec() == old(self).max_spawn_spec(),
            old(self).state_spec() != GameState::Game ==> {
                &&& r.is_none()
                &&& *final(self) == *old(self)
            },
            old(self).state_spec() == GameState::Game ==> {
                let s = old(self).session_spec().unwrap();
                let p = s.player_spec();
                let refuelled = refuels(s@);
                let level = if refuelled {
                    p.fuel.capacity()
                } else {
                    p.fuel.level()
                };
                let cooled = if refuelled {
                    0
                } else {
                    p.cooling.used()
                };
                let req = requested(input.keys, input.delta_nanos as nat);
                let expired = Timer::ticked(cooled, p.cooling.limit(), input.delta_nanos as nat)
                    >= p.cooling.limit();
                &&& r.is_some()
                &&& r.unwrap().game_over == expired
                &&& final(self).state_spec() == if expired {
                    GameState::GameOver
                } else {
                    GameState::Game
                }
                &&& final(self).best_spec() == raised(old(self).best_spec(), input.player_y as int)
                &&& final(self).offered_spec() == old(self).offered_spec().push(
                    input.player_y as int,
                )
                &&& r.unwrap().consumed@ == s@.pickups.filter(consumed())
                &&& r.unwrap().applied == applied_change(req, level)
                &&& !expired ==> {
                    let q = final(self).session_spec().unwrap().player_spec();
                    &&& q.x == input.player_x
                    &&& q.y == input.player_y
                    &&& q.tag == CollisionTag::NotCollided
                    &&& q.fuel.capacity() == p.fuel.capacity()
                    &&& q.fuel.level() == level - fuel_spent(req, level)
                    &&& q.cooling.limit() == p.cooling.limit()
                    &&& q.cooling.used() == Timer::ticked(
                        cooled,
                        p.cooling.limit(),
                        input.delta_nanos as nat,
                    )
                    &&& q.score.value() == raised(p.score.value(), input.player_y as int)
                    &&& q.score.offered() == p.score.offered().push(input.player_y as int)
                    &&& final(self).session_spec().unwrap().camera_spec() == if input.player_y
                        > s.camera_spec() {
                        input.player_y as int
                    } else {
                        s.camera_spec()
                    }
                }
                &&& exists|draw: SpawnDraw|
                    {
                        let spawned = #[trigger] spawn_step(
                            consume_step(s@),
                            input.player_y as int,
                            input.delta_nanos as nat,
                            draw,
                            input.ln_micro as nat,
                        );
                        &&& draw.wf()
                        &&& r.unwrap().spawned == if fires(
                            consume_step(s@),
                            input.delta_nanos as nat,
                        ) {
                            Some(sited(draw, input.player_y as int, s@.next_id as u64))
                        } else {
                            None
                        }
                        &&& r.unwrap().cleaned@ == spawned.pickups.filter(
                            out_of_reach(input.player_y as int),
                        )
                        &&& !expired ==> final(self).session_spec().unwrap()@ == cleanup_step(
                            spawned,
                            input.player_y as int,
                        )
                    }
            },
    {
        if self.state != GameState::Game {
            return None;
        }
        let mut s = match self.session.take() {
            Some(s) => s,
            None => {
                return None;
            },
        };
        s.set_player_position(input.player_x, input.player_y);
        let consumed = s.handle_collision();
        let applied = s.input_system(input.keys, input.delta_nanos);
        let game_over = s.player_cooling(input.delta_nanos);
        let spawned = s.tick_spawn(input.delta_nanos, input.ln_micro, rng);
        let cleaned = s.clean_up_fuel();
        s.update_score(&mut self.best);
        s.update_camera_height();
        if game_over {
            self.state = GameState::GameOver;
        } else {
            self.session = Some(s);
        }
        Some(StepReport { applied, spawned, consumed, cleaned, game_over })
    }
}

} // verus!
