use vstd::prelude::*;
use crate::timer::Timer;

verus! {

/// Nanoseconds the craft can go without a fuel pickup before the run ends.
pub const COOLING_TIME: u64 = 10_000_000_000;

/// Countdown toward a forced game over, refilled by fuel pickups.
pub struct PlayerCoolingTimer {
    timer: Timer,
}

impl PlayerCoolingTimer {
    pub open spec fn wf(&self) -> bool {
        self.used() <= self.limit()
    }

    /// Nanoseconds counted since the last refill.
    pub closed spec fn used(&self) -> nat {
        self.timer.elapsed_spec()
    }

    /// Nanoseconds the countdown runs in all.
    pub closed spec fn limit(&self) -> nat {
        self.timer.duration_spec()
    }

    /// Whether the countdown has run out.
    pub open spec fn expired(&self) -> bool {
        self.used() >= self.limit()
    }

    /// A fresh countdown of `COOLING_TIME`.
    pub fn new() -> (r: PlayerCoolingTimer)
        ensures
            r.wf(),
            r.used() == 0,
            r.limit() == COOLING_TIME,
    {
        PlayerCoolingTimer { timer: Timer::new(COOLING_TIME) }
    }

    /// A fresh countdown of the given length.
    pub fn with_duration(duration: u64) -> (r: PlayerCoolingTimer)
        ensures
            r.wf(),
            r.used() == 0,
            r.limit() == duration,
    {
        PlayerCoolingTimer { timer: Timer::new(duration) }
    }

    /// Nanoseconds counted since the last refill.
    pub fn get_elapsed(&self) -> (r: u64)
        ensures
            r == self.used(),
    {
        self.timer.elapsed()
    }

    /// Share of the countdown used, in thousandths (0 to 1000).
    pub fn get_frac_used(&self) -> (r: u64)
        requires
            self.wf(),
        ensures
            self.limit() == 0 ==> r == 1000,
            self.limit() > 0 ==> r == self.used() * 1000 / self.limit(),
            r <= 1000,
    {
        self.timer.permille_used()
    }

    /// Gives back the whole countdown.
    pub fn refill_cooling(&mut self)
        ensures
            final(self).wf(),
            final(self).used() == 0,
            final(self).limit() == old(self).limit(),
    {
        self.timer.reset()
    }

    /// Counts `delta` more nanoseconds, holding at the limit.
    pub fn tick(&mut self, delta: u64)
        requires
            old(self).wf(),
        ensures
            final(self).wf(),
            final(self).limit() == old(self).limit(),
            final(self).used() == Timer::ticked(old(self).used(), old(self).limit(), delta as nat),
    {
        self.timer.tick(delta)
    }

    /// Whether the countdown has run out.
    pub fn finished(&self) -> (r: bool)
        requires
            self.wf(),
        ensures
            r == self.expired(),
    {
        self.timer.finished()
    }
}

} // verus!
