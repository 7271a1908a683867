use fuel_climb::cooling::{PlayerCoolingTimer, COOLING_TIME};
use fuel_climb::fuel::PlayerFuel;
use fuel_climb::movement::{
    apply_thrust, follow_height, isqrt, isqrt_ceil, requested_change, Delta, Keys,
};
use fuel_climb::score::{MaxScore, PlayerScore};
use fuel_climb::timer::Timer;

fn clamp(a: i64, lo: i64, hi: i64) -> i64 {
    a.max(lo).min(hi)
}

#[test]
fn set_fuel_then_get_fuel_clamps() {
    for a in [-50i64, 0, 1, 30, 999, 1000, 1001, 5000, i64::MIN, i64::MAX] {
        let mut f = PlayerFuel::new(1000);
        f.set_fuel(a);
        assert_eq!(f.get_fuel() as i64, clamp(a, 0, 1000));
        assert_eq!(f.get_max(), 1000);
    }
}

#[test]
fn new_fuel_is_full() {
    let f = PlayerFuel::new(250);
    assert_eq!(f.get_fuel(), 250);
    assert_eq!(f.get_fuel_ratio_left(), 1000);
}

#[test]
fn fuel_ratio_in_thousandths() {
    let mut f = PlayerFuel::new(1000);
    f.set_fuel(250);
    assert_eq!(f.get_fuel_ratio_left(), 250);
    let mut g = PlayerFuel::new(3);
    g.set_fuel(1);
    assert_eq!(g.get_fuel_ratio_left(), 333);
    let z = PlayerFuel::new(0);
    assert_eq!(z.get_fuel_ratio_left(), 0);
}

#[test]
fn pickup_contact_tops_off_fuel() {
    for start in [0i64, 1, 500, 999, 1000] {
        let mut f = PlayerFuel::new(1000);
        f.set_fuel(start);
        f.add_fuel(100);
        assert_eq!(f.get_fuel(), 1000);
    }
}

#[test]
fn thrust_capped_by_remaining_fuel() {
    let mut f = PlayerFuel::new(1000);
    f.set_fuel(30);
    let applied = apply_thrust(&mut f, Delta { x: 50, y: 0 });
    assert_eq!(applied, Delta { x: 30, y: 0 });
    assert_eq!(f.get_fuel(), 0);
}

#[test]
fn thrust_with_enough_fuel_is_whole() {
    let mut f = PlayerFuel::new(1000);
    let applied = apply_thrust(&mut f, Delta { x: -30, y: 40 });
    assert_eq!(applied, Delta { x: -30, y: 40 });
    assert_eq!(f.get_fuel(), 950);
}

#[test]
fn thrust_keeps_direction_when_cut() {
    let mut f = PlayerFuel::new(1000);
    f.set_fuel(25);
    let applied = apply_thrust(&mut f, Delta { x: 30, y: -40 });
    assert_eq!(applied, Delta { x: 15, y: -20 });
    assert_eq!(f.get_fuel(), 0);
}

#[test]
fn zero_request_burns_no_fuel() {
    let mut f = PlayerFuel::new(1000);
    f.set_fuel(123);
    let applied = apply_thrust(&mut f, Delta { x: 0, y: 0 });
    assert_eq!(applied, Delta { x: 0, y: 0 });
    assert_eq!(f.get_fuel(), 123);
    let mut empty = PlayerFuel::new(1000);
    empty.set_fuel(0);
    let applied = apply_thrust(&mut empty, Delta { x: 0, y: 0 });
    assert_eq!(applied, Delta { x: 0, y: 0 });
    assert_eq!(empty.get_fuel(), 0);
}

#[test]
fn thrust_on_empty_tank_applies_nothing() {
    let mut f = PlayerFuel::new(1000);
    f.set_fuel(0);
    let applied = apply_thrust(&mut f, Delta { x: 7, y: 7 });
    assert_eq!(applied, Delta { x: 0, y: 0 });
    assert_eq!(f.get_fuel(), 0);
}

#[test]
fn diagonal_thrust_never_outruns_fuel() {
    let mut f = PlayerFuel::new(1000);
    let right = apply_thrust(&mut f, Delta { x: 930, y: 0 });
    assert_eq!(right, Delta { x: 930, y: 0 });
    assert_eq!(f.get_fuel(), 70);
    let applied = apply_thrust(&mut f, Delta { x: 50, y: 50 });
    assert_eq!(applied, Delta { x: 49, y: 49 });
    let len2 = (applied.x as i64).pow(2) + (applied.y as i64).pow(2);
    assert!(len2 <= 70 * 70);
    assert_eq!(f.get_fuel(), 0);
}

#[test]
fn diagonal_thrust_burns_rounded_up_length() {
    let mut f = PlayerFuel::new(1000);
    let applied = apply_thrust(&mut f, Delta { x: 50, y: 50 });
    assert_eq!(applied, Delta { x: 50, y: 50 });
    assert_eq!(f.get_fuel(), 1000 - 71);
}

#[test]
fn rounded_up_square_roots() {
    assert_eq!(isqrt_ceil(0), 0);
    assert_eq!(isqrt_ceil(1), 1);
    assert_eq!(isqrt_ceil(2), 2);
    assert_eq!(isqrt_ceil(2500), 50);
    assert_eq!(isqrt_ceil(2501), 51);
    assert_eq!(isqrt_ceil(5000), 71);
    assert_eq!(isqrt_ceil(u64::MAX), 4294967296);
}

#[test]
fn integer_square_roots() {
    assert_eq!(isqrt(0), 0);
    assert_eq!(isqrt(1), 1);
    assert_eq!(isqrt(2), 1);
    assert_eq!(isqrt(2500), 50);
    assert_eq!(isqrt(2499), 49);
    assert_eq!(isqrt(u64::MAX), 4294967295);
}

#[test]
fn keys_request_steps() {
    let none = Keys { left: false, right: false, up: false, down: false };
    let up_right = Keys { left: false, right: true, up: true, down: false };
    let both_x = Keys { left: true, right: true, up: false, down: true };
    // 16 ms at 1000 units per second
    assert_eq!(requested_change(up_right, 16_000_000), Delta { x: 16, y: 16 });
    assert_eq!(requested_change(both_x, 16_000_000), Delta { x: 0, y: -16 });
    assert_eq!(requested_change(none, 16_000_000), Delta { x: 0, y: 0 });
    assert_eq!(requested_change(up_right, 999_999), Delta { x: 0, y: 0 });
    assert_eq!(requested_change(up_right, u64::MAX), Delta { x: 1 << 30, y: 1 << 30 });
}

#[test]
fn camera_only_rises() {
    assert_eq!(follow_height(100, 250), 250);
    assert_eq!(follow_height(100, 50), 100);
    assert_eq!(follow_height(-5, -5), -5);
}

#[test]
fn cooling_counts_and_refills() {
    let mut c = PlayerCoolingTimer::new();
    assert_eq!(c.get_frac_used(), 0);
    c.tick(COOLING_TIME / 4);
    assert_eq!(c.get_frac_used(), 250);
    assert!(!c.finished());
    c.refill_cooling();
    assert_eq!(c.get_elapsed(), 0);
    c.tick(COOLING_TIME - 1);
    assert!(!c.finished());
    c.tick(1);
    assert!(c.finished());
    assert_eq!(c.get_frac_used(), 1000);
    c.tick(u64::MAX);
    assert_eq!(c.get_elapsed(), COOLING_TIME);
}

#[test]
fn zero_length_countdown_reads_used() {
    let c = PlayerCoolingTimer::with_duration(0);
    assert!(c.finished());
    assert_eq!(c.get_frac_used(), 1000);
}

#[test]
fn timer_holds_at_duration() {
    let mut t = Timer::new(10);
    t.tick(4);
    assert_eq!(t.elapsed(), 4);
    assert!(!t.finishes_after(5));
    assert!(t.finishes_after(6));
    t.tick(100);
    assert_eq!(t.elapsed(), 10);
    assert!(t.finished());
    t.restart_with(3);
    assert_eq!(t.elapsed(), 0);
    assert_eq!(t.duration(), 3);
}

#[test]
fn score_is_a_watermark() {
    let mut s = PlayerScore::new();
    assert_eq!(s.get_score(), 0);
    s.set_score(40);
    s.set_score(10);
    assert_eq!(s.get_score(), 40);
    s.set_score(-100);
    assert_eq!(s.get_score(), 40);
    s.set_score(41);
    assert_eq!(s.get_score(), 41);
    let best = MaxScore::default();
    assert_eq!(best.score.get_score(), 0);
}
