use bevy_turborand::RngComponent;
use fuel_climb::collision::{mark, CollisionEvent, CollisionTag};
use fuel_climb::movement::Keys;
use fuel_climb::session::{Session, PLAYER_ID};
use fuel_climb::spawner::{
    cadence_altitude, draw_spawn, is_too_far, next_interval, FuelCurrentlySpawned, FuelSpawner,
    Pickup, SpawnDraw, RESPAWN_TIME,
};

const SECOND: u64 = 1_000_000_000;

fn draw(dx: i64, dy: i64) -> SpawnDraw {
    SpawnDraw { dx, dy, frac: 0 }
}

/// A session holding pickups at the given vertical offsets from the craft,
/// spawned while the craft sat at `at_y`.
fn session_with(at_y: i32, offsets: &[i64]) -> Session {
    let mut s = Session::new(10);
    s.set_player_position(0, at_y);
    let mut first = true;
    for &dy in offsets {
        let delta = if first { RESPAWN_TIME } else { 0 };
        first = false;
        assert!(s.tick_spawn_with(delta, draw(0, dy), 4_605_170).is_some());
    }
    s
}

#[test]
fn fresh_session() {
    let s = Session::new(1000);
    assert_eq!(s.population().spawned(), 0);
    assert_eq!(s.population().max_spawn(), 1000);
    assert!(s.pickups().is_empty());
    assert_eq!(s.player().fuel.get_fuel(), 1000);
    assert_eq!(s.player().tag, CollisionTag::NotCollided);
    assert_eq!(s.camera_y(), 0);
}

#[test]
fn first_spawn_after_respawn_time() {
    let mut s = Session::new(5);
    s.set_player_position(0, 200);
    assert!(s.tick_spawn_with(RESPAWN_TIME - 1, draw(10, 20), 0).is_none());
    let p = s.tick_spawn_with(1, draw(-500, 1000), 0).unwrap();
    assert_eq!(p, Pickup { id: 1, x: -500, y: 1200, tag: CollisionTag::NotCollided });
    assert_eq!(s.population().spawned(), 1);
    assert_eq!(s.pickups().len(), 1);
}

#[test]
fn next_interval_from_draw_and_logarithm() {
    // a draw of one half, ln(100) = 4.605170: 0.5 * 4.605170 / 100 s
    assert_eq!(next_interval(500_000, 4_605_170), 23_025_850);
    assert_eq!(next_interval(0, 4_605_170), 0);
    assert_eq!(next_interval(1_000_000, 13_815_510), 138_155_100);
}

#[test]
fn cadence_altitude_floors_at_hundred() {
    assert_eq!(cadence_altitude(-300), 100);
    assert_eq!(cadence_altitude(99), 100);
    assert_eq!(cadence_altitude(100), 100);
    assert_eq!(cadence_altitude(5000), 5000);
}

#[test]
fn spawn_interval_rescheduled_after_fire() {
    let mut s = Session::new(5);
    s.set_player_position(0, 0);
    let d = SpawnDraw { dx: 0, dy: 0, frac: 500_000 };
    assert!(s.tick_spawn_with(RESPAWN_TIME, d, 4_605_170).is_some());
    assert!(s.tick_spawn_with(23_025_849, d, 4_605_170).is_none());
    assert!(s.tick_spawn_with(1, d, 4_605_170).is_some());
    assert_eq!(s.population().spawned(), 2);
}

#[test]
fn population_never_exceeds_cap() {
    let mut s = Session::new(2);
    s.set_player_position(0, 0);
    let mut fired = 0;
    for i in 0..10 {
        let delta = if i == 0 { RESPAWN_TIME } else { SECOND };
        if s.tick_spawn_with(delta, draw(0, 0), 0).is_some() {
            fired += 1;
        }
        assert!(s.population().spawned() <= 2);
    }
    assert_eq!(fired, 2);
    assert_eq!(s.pickups().len(), 2);
    // cleanup frees budget; the finished countdown fires at once
    s.set_player_position(0, 5000);
    assert_eq!(s.clean_up_fuel().len(), 2);
    assert_eq!(s.population().spawned(), 0);
    assert!(s.tick_spawn_with(0, draw(0, 0), 0).is_some());
    assert_eq!(s.population().spawned(), 1);
}

#[test]
fn zero_cap_never_spawns() {
    let mut s = Session::new(0);
    for _ in 0..3 {
        assert!(s.tick_spawn_with(SECOND, draw(0, 0), 0).is_none());
    }
    assert_eq!(s.population().spawned(), 0);
}

#[test]
fn cleanup_uses_vertical_distance() {
    // pickups at 1600 and 1400, spawned from altitudes 600 and 400
    let mut s = Session::new(10);
    s.set_player_position(0, 600);
    assert!(s.tick_spawn_with(RESPAWN_TIME, draw(0, 1000), 0).is_some());
    s.set_player_position(0, 400);
    assert!(s.tick_spawn_with(0, draw(0, 1000), 0).is_some());
    assert_eq!(s.pickups()[0].y, 1600);
    assert_eq!(s.pickups()[1].y, 1400);
    s.set_player_position(0, 500);
    let removed = s.clean_up_fuel();
    assert_eq!(removed.len(), 1);
    assert_eq!(removed[0].y, 1600);
    assert_eq!(s.pickups().len(), 1);
    assert_eq!(s.pickups()[0].y, 1400);
    assert_eq!(s.population().spawned(), 1);
}

#[test]
fn cleanup_threshold_is_strict() {
    let mut s = session_with(0, &[1000, -1000, 1001, -1001]);
    let removed = s.clean_up_fuel();
    let ys: Vec<i64> = removed.iter().map(|p| p.y).collect();
    assert_eq!(ys, vec![1001, -1001]);
    assert_eq!(s.population().spawned(), 2);
    let p = s.pickups()[0];
    assert!(!is_too_far(&p, 0));
    assert!(is_too_far(&p, -1));
}

#[test]
fn contact_tags_both_bodies_then_clears() {
    let mut s = session_with(0, &[10, 20]);
    let ids: Vec<u64> = s.pickups().iter().map(|p| p.id).collect();
    assert_eq!(ids, vec![1, 2]);
    let events = vec![CollisionEvent::Started(PLAYER_ID, 1)];
    s.mark_collisions(&events);
    assert_eq!(s.player().tag, CollisionTag::Collided);
    assert_eq!(s.pickups()[0].tag, CollisionTag::Collided);
    assert_eq!(s.pickups()[1].tag, CollisionTag::NotCollided);
    let removed = s.handle_collision();
    assert_eq!(removed.len(), 1);
    assert_eq!(removed[0].id, 1);
    assert_eq!(s.player().tag, CollisionTag::NotCollided);
    assert!(s.pickups().iter().all(|p| p.tag == CollisionTag::NotCollided));
    assert_eq!(s.pickups().len(), 1);
    assert_eq!(s.population().spawned(), 1);
    // a second pass finds nothing left to consume
    assert!(s.handle_collision().is_empty());
    assert_eq!(s.population().spawned(), 1);
}

#[test]
fn contact_refuels_and_refills_cooling() {
    let mut s = session_with(0, &[5]);
    let keys = Keys { left: false, right: true, up: false, down: false };
    s.input_system(keys, 300_000_000);
    assert_eq!(s.player().fuel.get_fuel(), 700);
    assert!(!s.player_cooling(4 * SECOND));
    s.mark_collisions(&vec![CollisionEvent::Started(1, PLAYER_ID)]);
    s.handle_collision();
    assert_eq!(s.player().fuel.get_fuel(), 1000);
    assert_eq!(s.player().cooling.get_elapsed(), 0);
}

#[test]
fn repeated_contacts_react_once() {
    let mut s = session_with(0, &[5]);
    s.input_system(Keys { left: false, right: false, up: true, down: false }, 100_000_000);
    let events = vec![
        CollisionEvent::Started(PLAYER_ID, 1),
        CollisionEvent::Started(1, PLAYER_ID),
        CollisionEvent::Started(PLAYER_ID, 1),
    ];
    s.mark_collisions(&events);
    s.mark_collisions(&events);
    let removed = s.handle_collision();
    assert_eq!(removed.len(), 1);
    assert_eq!(s.population().spawned(), 0);
    assert_eq!(s.player().fuel.get_fuel(), 1000);
}

#[test]
fn ended_contacts_and_missing_bodies_change_nothing() {
    let mut s = session_with(0, &[5]);
    s.mark_collisions(&vec![CollisionEvent::Stopped(PLAYER_ID, 1), CollisionEvent::Started(77, 88)]);
    assert_eq!(s.player().tag, CollisionTag::NotCollided);
    assert_eq!(s.pickups()[0].tag, CollisionTag::NotCollided);
    assert!(s.handle_collision().is_empty());
    assert_eq!(s.population().spawned(), 1);
}

#[test]
fn marking_is_idempotent() {
    let events = vec![CollisionEvent::Started(3, 4), CollisionEvent::Started(3, 4)];
    assert_eq!(mark(CollisionTag::NotCollided, &events, 3), CollisionTag::Collided);
    assert_eq!(mark(CollisionTag::Collided, &events, 4), CollisionTag::Collided);
    assert_eq!(mark(CollisionTag::Collided, &events, 5), CollisionTag::Collided);
    assert_eq!(mark(CollisionTag::NotCollided, &events, 5), CollisionTag::NotCollided);
    let ended = vec![CollisionEvent::Stopped(3, 4)];
    assert_eq!(mark(CollisionTag::NotCollided, &ended, 3), CollisionTag::NotCollided);
}

#[test]
fn ground_contact_tags_but_does_not_refuel() {
    let mut s = session_with(0, &[5]);
    s.input_system(Keys { left: true, right: false, up: false, down: false }, 200_000_000);
    assert_eq!(s.player().fuel.get_fuel(), 800);
    s.player_cooling(2 * SECOND);
    s.mark_collisions(&vec![CollisionEvent::Started(PLAYER_ID, u64::MAX)]);
    assert_eq!(s.player().tag, CollisionTag::Collided);
    assert_eq!(s.pickups()[0].tag, CollisionTag::NotCollided);
    assert!(s.handle_collision().is_empty());
    assert_eq!(s.player().tag, CollisionTag::NotCollided);
    assert_eq!(s.player().fuel.get_fuel(), 800);
    assert_eq!(s.player().cooling.get_elapsed(), 2 * SECOND);
    assert_eq!(s.population().spawned(), 1);
}

#[test]
fn pickup_touching_another_body_is_consumed() {
    let mut s = session_with(0, &[5, 6]);
    s.mark_collisions(&vec![CollisionEvent::Started(1, u64::MAX), CollisionEvent::Started(2, 1)]);
    assert_eq!(s.player().tag, CollisionTag::NotCollided);
    assert_eq!(s.pickups()[0].tag, CollisionTag::Collided);
    assert_eq!(s.pickups()[1].tag, CollisionTag::Collided);
    let removed = s.handle_collision();
    assert_eq!(removed.len(), 2);
    assert_eq!(s.population().spawned(), 0);
    assert_eq!(s.player().fuel.get_fuel(), 1000);
}

#[test]
fn counter_tracks_cap() {
    let mut c = FuelCurrentlySpawned::new(3);
    assert!(c.has_room());
    c.set_spawned(3);
    assert!(!c.has_room());
    assert_eq!(c.spawned(), 3);
    let sp = FuelSpawner::default();
    assert_eq!(sp.timer.duration(), RESPAWN_TIME);
}

#[test]
fn drawn_spawns_stay_in_spread_and_vary() {
    let mut rng = RngComponent::with_seed(7);
    let mut xs = Vec::new();
    let mut ys = Vec::new();
    for _ in 0..200 {
        let d = draw_spawn(&mut rng);
        assert!(-500 <= d.dx && d.dx <= 500);
        assert!(-1000 <= d.dy && d.dy <= 1000);
        assert!(d.frac <= 1_000_000);
        xs.push(d.dx);
        ys.push(d.dy);
    }
    assert!(xs.iter().any(|&x| x != -500));
    assert!(xs.iter().any(|&x| x != xs[0]));
    assert!(ys.iter().any(|&y| y != ys[0]));
}

#[test]
fn tick_spawn_draws_only_when_firing() {
    let mut s = Session::new(4);
    s.set_player_position(0, 300);
    let mut rng = RngComponent::with_seed(11);
    assert!(s.tick_spawn(RESPAWN_TIME / 2, 4_605_170, &mut rng).is_none());
    let p = s.tick_spawn(RESPAWN_TIME / 2, 4_605_170, &mut rng).unwrap();
    assert!(-500 <= p.x && p.x <= 500);
    assert!(-700 <= p.y && p.y <= 1300);
    assert_eq!(s.population().spawned(), 1);
}
