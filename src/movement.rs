use vstd::prelude::*;
use crate::fuel::PlayerFuel;

verus! {

/// Craft speed, in world units per second of held input.
pub const PLAYER_SPEED: u64 = 1000;

/// Nanoseconds in one second.
pub const NANOS_PER_SEC: u64 = 1_000_000_000;

/// Largest per-axis step that one frame of input may request.
pub const MAX_STEP: u64 = 1_073_741_824;

/// A change of velocity, in world units.
#[derive(Clone, Copy, Debug, PartialEq, Eq, Structural)]
pub struct Delta {
    pub x: i32,
    pub y: i32,
}

/// The directions held down during a frame.
#[derive(Clone, Copy, Debug, PartialEq, Eq, Structural)]
pub struct Keys {
    pub left: bool,
    pub right: bool,
    pub up: bool,
    pub down: bool,
}

/// `r` is the square root of `n`, rounded down.
pub open spec fn is_floor_sqrt(n: nat, r: nat) -> bool {
    r * r <= n && n < (r + 1) * (r + 1)
}

/// The square root of `n`, rounded down.
pub open spec fn floor_sqrt(n: nat) -> nat {
    choose|r: nat| is_floor_sqrt(n, r)
}

/// `r` is the square root of `n`, rounded up.
pub open spec fn is_ceil_sqrt(n: nat, r: nat) -> bool {
    n <= r * r && (r == 0 || (r - 1) * (r - 1) < n)
}

/// The square root of `n`, rounded up.
pub open spec fn ceil_sqrt(n: nat) -> nat {
    choose|r: nat| is_ceil_sqrt(n, r)
}

/// Length of a requested change, rounded up to whole units, so that a
/// change cut to a given length is never longer than that length.
pub open spec fn magnitude(d: Delta) -> nat {
    ceil_sqrt((d.x * d.x + d.y * d.y) as nat)
}

/// Fuel burnt by a request: its length, but never more than is held.
pub open spec fn fuel_spent(req: Delta, level: nat) -> nat {
    if magnitude(req) <= level {
        magnitude(req)
    } else {
        level
    }
}

/// One component of a request shrunk by `used / mag`, rounded toward zero.
pub open spec fn scale(c: int, used: nat, mag: nat) -> int {
    if c >= 0 {
        (c * used) / (mag as int)
    } else {
        -((-c * used) / (mag as int))
    }
}

/// The change applied for a request when `level` fuel is held.
pub open spec fn applied_change(req: Delta, level: nat) -> Delta {
    if magnitude(req) == 0 {
        Delta { x: 0, y: 0 }
    } else {
        Delta {
            x: scale(req.x as int, fuel_spent(req, level), magnitude(req)) as i32,
            y: scale(req.y as int, fuel_spent(req, level), magnitude(req)) as i32,
        }
    }
}

/// Per-axis step for a frame of `delta_nanos`.
pub open spec fn step_length(delta_nanos: nat) -> nat {
    let s = (delta_nanos * PLAYER_SPEED) as int / NANOS_PER_SEC as int;
    if s > MAX_STEP {
        MAX_STEP as nat
    } else {
        s as nat
    }
}

pub open spec fn axis(neg: bool, pos: bool, s: nat) -> int {
    (if pos {
        s as int
    } else {
        0
    }) - (if neg {
        s as int
    } else {
        0
    })
}

proof fn lemma_floor_sqrt_unique(n: nat, a: nat, b: nat)
    requires
        is_floor_sqrt(n, a),
        is_floor_sqrt(n, b),
    ensures
        a == b,
{
    if a < b {
        assert((a + 1) * (a + 1) <= b * b) by (nonlinear_arith)
            requires a + 1 <= b;
    } else if b < a {
        assert((b + 1) * (b + 1) <= a * a) by (nonlinear_arith)
            requires b + 1 <= a;
    }
}

proof fn lemma_ceil_sqrt_unique(n: nat, a: nat, b: nat)
    requires
        is_ceil_sqrt(n, a),
        is_ceil_sqrt(n, b),
    ensures
        a == b,
{
    if a < b {
        assert((b - 1) * (b - 1) >= a * a) by (nonlinear_arith)
            requires a <= b - 1, a >= 0;
    } else if b < a {
        assert((a - 1) * (a - 1) >= b * b) by (nonlinear_arith)
            requires b <= a - 1, b >= 0;
    }
}

/// The square root of `n`, rounded down.
pub fn isqrt(n: u64) -> (r: u64)
    ensures
        is_floor_sqrt(n as nat, r as nat),
        r == floor_sqrt(n as nat),
        r < 0x1_0000_0000,
{
    let mut lo: u64 = 0;
    let mut hi: u64 = 0x1_0000_0000;
    assert(hi * hi > u64::MAX);
    while hi - lo > 1
        invariant
            lo < hi,
            hi <= 0x1_0000_0000,
            lo * lo <= n,
            n < hi * hi,
        decreases hi - lo,
    {
        let mid = lo + (hi - lo) / 2;
        assert(mid * mid < 0x1_0000_0000 * 0x1_0000_0000) by (nonlinear_arith)
            requires mid < 0x1_0000_0000;
        if mid * mid <= n {
            lo = mid;
        } else {
            hi = mid;
        }
    }
    assert(hi == lo + 1);
    proof {
        lemma_floor_sqrt_unique(n as nat, lo as nat, floor_sqrt(n as nat));
    }
    lo
}

/// The square root of `n`, rounded up.
pub fn isqrt_ceil(n: u64) -> (r: u64)
    ensures
        is_ceil_sqrt(n as nat, r as nat),
        r == ceil_sqrt(n as nat),
        r <= 0x1_0000_0000,
{
    let f = isqrt(n);
    assert(f * f < 0x1_0000_0000 * 0x1_0000_0000) by (nonlinear_arith)
        requires f < 0x1_0000_0000;
    let r = if f * f == n {
        if f > 0 {
            assert((f - 1) * (f - 1) < f * f) by (nonlinear_arith)
                requires f >= 1;
        }
        f
    } else {
        f + 1
    };
    assert(is_ceil_sqrt(n as nat, r as nat));
    proof {
        lemma_ceil_sqrt_unique(n as nat, r as nat, ceil_sqrt(n as nat));
    }
    r
}

/// The change that the held keys ask for during a frame of `delta_nanos`.
pub open spec fn requested(keys: Keys, delta_nanos: nat) -> Delta {
    Delta {
        x: axis(keys.left, keys.right, step_length(delta_nanos)) as i32,
        y: axis(keys.down, keys.up, step_length(delta_nanos)) as i32,
    }
}

/// The change that the held keys ask for during a frame of `delta_nanos`:
/// on each axis, the step length toward each held direction.
pub fn requested_change(keys: Keys, delta_nanos: u64) -> (r: Delta)
    ensures
        r.x == axis(keys.left, keys.right, step_length(delta_nanos as nat)),
        r.y == axis(keys.down, keys.up, step_length(delta_nanos as nat)),
        r == requested(keys, delta_nanos as nat),
{
    assert((delta_nanos as u128) * (PLAYER_SPEED as u128) <= u64::MAX as u128 * 1000) by (nonlinear_arith)
        requires delta_nanos <= u64::MAX, PLAYER_SPEED == 1000;
    let raw = (delta_nanos as u128) * (PLAYER_SPEED as u128) / (NANOS_PER_SEC as u128);
    let s: i32 = if raw > MAX_STEP as u128 {
        MAX_STEP as i32
    } else {
        raw as i32
    };
    let mut x: i32 = 0;
    let mut y: i32 = 0;
    if keys.right {
        x = x + s;
    }
    if keys.left {
        x = x - s;
    }
    if keys.up {
        y = y + s;
    }
    if keys.down {
        y = y - s;
    }
    Delta { x, y }
}

fn scale_component(c: i32, used: u64, mag: u64) -> (r: i32)
    requires
        mag > 0,
        mag <= 0x1_0000_0000,
        used <= mag,
        (c as int) * (c as int) <= (mag as int) * (mag as int),
    ensures
        r == scale(c as int, used as nat, mag as nat),
        (r as int) * (r as int) * (mag as int) * (mag as int) <= (c as int) * (c as int) * (
        used as int) * (used as int),
{
    let a: u64 = if c >= 0 {
        c as u64
    } else {
        (-(c as i64)) as u64
    };
    assert((a as int) * (a as int) == (c as int) * (c as int)) by (nonlinear_arith)
        requires a == c || a == -c;
    assert(a <= mag) by (nonlinear_arith)
        requires
            a * a <= mag * mag,
            mag > 0,
    {
        if a > mag {
            assert(a * a > mag * mag);
        }
    }
    assert((a as int) * (used as int) <= u64::MAX as int * u64::MAX as int) by (nonlinear_arith)
        requires a <= u64::MAX, used <= u64::MAX;
    let p = (a as u128) * (used as u128);
    assert(p <= (a as u128) * (mag as u128)) by (nonlinear_arith)
        requires p == a * used, used <= mag;
    assert(p / (mag as u128) <= a) by {
        vstd::arithmetic::div_mod::lemma_div_is_ordered(p as int, a * mag, mag as int);
        vstd::arithmetic::div_mod::lemma_div_by_multiple(a as int, mag as int);
    }
    let q = (p / (mag as u128)) as i64;
    assert((q as int) * (mag as int) <= p as int) by {
        vstd::arithmetic::div_mod::lemma_fundamental_div_mod(p as int, mag as int);
        vstd::arithmetic::div_mod::lemma_mod_bound(p as int, mag as int);
        let d = (p as int) / (mag as int);
        assert(q as int == d);
        assert(d * (mag as int) == (mag as int) * d) by (nonlinear_arith);
    }
    assert((q as int) * (q as int) * (mag as int) * (mag as int) <= (a as int) * (a as int) * (
    used as int) * (used as int)) by (nonlinear_arith)
        requires
            (q as int) * (mag as int) <= p as int,
            p as int == (a as int) * (used as int),
            q >= 0,
            mag > 0;
    assert((a as int) * (a as int) == (c as int) * (c as int)) by (nonlinear_arith)
        requires a == c || a == -c;
    if c >= 0 {
        q as i32
    } else {
        assert((-q as int) * (-q as int) == (q as int) * (q as int)) by (nonlinear_arith);
        (-q) as i32
    }
}

/// Burns fuel for a requested change and returns the change actually
/// applied. The direction is kept; the length is cut to the fuel held, and
/// exactly that much fuel is burnt: the applied change is never longer than
/// the fuel burnt. A request of zero length changes nothing.
pub fn apply_thrust(fuel: &mut PlayerFuel, req: Delta) -> (applied: Delta)
    requires
        old(fuel).wf(),
    ensures
        final(fuel).wf(),
        final(fuel).capacity() == old(fuel).capacity(),
        applied == applied_change(req, old(fuel).level()),
        final(fuel).level() == old(fuel).level() - fuel_spent(req, old(fuel).level()),
        magnitude(req) == 0 ==> final(fuel).level() == old(fuel).level(),
        applied.x * applied.x + applied.y * applied.y <= fuel_spent(req, old(fuel).level())
            * fuel_spent(req, old(fuel).level()),
{
    let x = req.x as i64;
    let y = req.y as i64;
    assert(0 <= x * x <= 0x4000_0000_0000_0000 && 0 <= y * y <= 0x4000_0000_0000_0000) by (nonlinear_arith)
        requires -0x8000_0000 <= x <= 0x7fff_ffff, -0x8000_0000 <= y <= 0x7fff_ffff;
    let n = ((x * x) as u64) + ((y * y) as u64);
    let mag = isqrt_ceil(n);
    assert(n as nat == (req.x * req.x + req.y * req.y) as nat);
    assert(mag == magnitude(req));
    if mag == 0 {
        let z = Delta { x: 0, y: 0 };
        let ghost spent = fuel_spent(req, fuel.level());
        assert(spent == 0);
        assert(z.x * z.x + z.y * z.y <= spent * spent) by (nonlinear_arith)
            requires spent == 0, z.x == 0, z.y == 0;
        return z;
    }
    let level = fuel.get_fuel() as u64;
    let used: u64 = if mag <= level {
        mag
    } else {
        level
    };
    assert(x * x <= n && y * y <= n && n <= mag * mag);
    assert(used == fuel_spent(req, fuel.level()));
    let ax = scale_component(req.x, used, mag);
    let ay = scale_component(req.y, used, mag);
    assert((ax as int) * (ax as int) + (ay as int) * (ay as int) <= (used as int) * (used as int))
        by (nonlinear_arith)
        requires
            (ax as int) * (ax as int) * (mag as int) * (mag as int) <= (x as int) * (x as int) * (
            used as int) * (used as int),
            (ay as int) * (ay as int) * (mag as int) * (mag as int) <= (y as int) * (y as int) * (
            used as int) * (used as int),
            (x as int) * (x as int) + (y as int) * (y as int) <= (mag as int) * (mag as int),
            mag > 0;
    fuel.set_fuel((level - used) as i64);
    Delta { x: ax, y: ay }
}

/// Height of a camera that follows the craft upward but never back down.
pub fn follow_height(camera_y: i32, player_y: i32) -> (r: i32)
    ensures
        r == if player_y > camera_y {
            player_y
        } else {
            camera_y
        },
{
    if player_y > camera_y {
        player_y
    } else {
        camera_y
    }
}

} // verus!
