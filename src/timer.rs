use vstd::prelude::*;

verus! {

/// A one-shot countdown measured in nanoseconds. It stops counting once
/// the elapsed time reaches the duration.
pub struct Timer {
    elapsed: u64,
    duration: u64,
}

impl Timer {
    pub open spec fn wf(&self) -> bool {
        self.elapsed_spec() <= self.duration_spec()
    }

    pub closed spec fn elapsed_spec(&self) -> nat {
        self.elapsed as nat
    }

    pub closed spec fn duration_spec(&self) -> nat {
        self.duration as nat
    }

    /// Elapsed time after `delta` more nanoseconds, held at the duration.
    pub open spec fn ticked(elapsed: nat, duration: nat, delta: nat) -> nat {
        if elapsed + delta >= duration {
            duration
        } else {
            elapsed + delta
        }
    }

    pub fn new(duration: u64) -> (r: Timer)
        ensures
            r.wf(),
            r.elapsed_spec() == 0,
            r.duration_spec() == duration,
    {
        Timer { elapsed: 0, duration }
    }

    pub fn elapsed(&self) -> (r: u64)
        ensures
            r == self.elapsed_spec(),
    {
        self.elapsed
    }

    pub fn duration(&self) -> (r: u64)
        ensures
            r == self.duration_spec(),
    {
        self.duration
    }

    /// Advances the countdown by `delta` nanoseconds.
    pub fn tick(&mut self, delta: u64)
        requires
            old(self).wf(),
        ensures
            final(self).wf(),
            final(self).duration_spec() == old(self).duration_spec(),
            final(self).elapsed_spec() == Self::ticked(
                old(self).elapsed_spec(),
                old(self).duration_spec(),
                delta as nat,
            ),
    {
        if delta >= self.duration - self.elapsed {
            self.elapsed = self.duration;
        } else {
            self.elapsed = self.elapsed + delta;
        }
    }

    /// Whether `delta` more nanoseconds would use up the whole duration.
    pub fn finishes_after(&self, delta: u64) -> (r: bool)
        requires
            self.wf(),
        ensures
            r == (Self::ticked(self.elapsed_spec(), self.duration_spec(), delta as nat)
                >= self.duration_spec()),
    {
        delta >= self.duration - self.elapsed
    }

    /// Whether the whole duration has elapsed.
    pub fn finished(&self) -> (r: bool)
        requires
            self.wf(),
        ensures
            r == (self.elapsed_spec() >= self.duration_spec()),
    {
        self.elapsed >= self.duration
    }

    /// Starts the countdown over from zero elapsed time.
    pub fn reset(&mut self)
        ensures
            final(self).wf(),
            final(self).elapsed_spec() == 0,
            final(self).duration_spec() == old(self).duration_spec(),
    {
        self.elapsed = 0;
    }

    /// Starts a new countdown of the given duration from zero elapsed time.
    pub fn restart_with(&mut self, duration: u64)
        ensures
            final(self).wf(),
            final(self).elapsed_spec() == 0,
            final(self).duration_spec() == duration,
    {
        self.elapsed = 0;
        self.duration = duration;
    }

    /// Share of the duration used so far, in thousandths (0 to 1000).
    /// A countdown of zero duration counts as fully used.
    pub fn permille_used(&self) -> (r: u64)
        requires
            self.wf(),
        ensures
            self.duration_spec() == 0 ==> r == 1000,
            self.duration_spec() > 0 ==> r == self.elapsed_spec() * 1000
                / self.duration_spec(),
            r <= 1000,
    {
        if self.duration == 0 {
            1000
        } else {
            let e = self.elapsed as u128;
            let d = self.duration as u128;
            assert(e * 1000 <= d * 1000) by (nonlinear_arith)
                requires e <= d;
            proof {
                vstd::arithmetic::div_mod::lemma_div_is_ordered(
                    (e * 1000) as int, (d * 1000) as int, d as int);
                vstd::arithmetic::div_mod::lemma_div_by_multiple(1000, d as int);
            }
            ((e * 1000) / d) as u64
        }
    }
}

} // verus!
