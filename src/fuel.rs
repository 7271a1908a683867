use vstd::prelude::*;

verus! {

/// Clamps `a` into `[lo, hi]`.
pub open spec fn clamp(a: int, lo: int, hi: int) -> int {
    if a < lo {
        lo
    } else if a > hi {
        hi
    } else {
        a
    }
}

/// The player's fuel gauge: an amount between zero and a fixed maximum.
pub struct PlayerFuel {
    amount: u32,
    max: u32,
}

impl PlayerFuel {
    pub open spec fn wf(&self) -> bool {
        self.level() <= self.capacity()
    }

    /// Fuel currently held.
    pub closed spec fn level(&self) -> nat {
        self.amount as nat
    }

    /// Most fuel the gauge can hold.
    pub closed spec fn capacity(&self) -> nat {
        self.max as nat
    }

    /// A full gauge of the given capacity.
    pub fn new(max: u32) -> (r: PlayerFuel)
        ensures
            r.wf(),
            r.level() == max,
            r.capacity() == max,
    {
        PlayerFuel { amount: max, max }
    }

    pub fn get_fuel(&self) -> (r: u32)
        ensures
            r == self.level(),
    {
        self.amount
    }

    pub fn get_max(&self) -> (r: u32)
        ensures
            r == self.capacity(),
    {
        self.max
    }

    /// Fuel left as a share of the capacity, in thousandths (0 to 1000).
    /// A gauge of zero capacity reads as empty.
    pub fn get_fuel_ratio_left(&self) -> (r: u32)
        requires
            self.wf(),
        ensures
            self.capacity() == 0 ==> r == 0,
            self.capacity() > 0 ==> r == self.level() * 1000 / self.capacity(),
            r <= 1000,
    {
        if self.max == 0 {
            0
        } else {
            let a = self.amount as u64;
            let m = self.max as u64;
            assert(a * 1000 <= m * 1000) by (nonlinear_arith)
                requires a <= m;
            proof {
                vstd::arithmetic::div_mod::lemma_div_is_ordered(
                    (a * 1000) as int, (m * 1000) as int, m as int);
                vstd::arithmetic::div_mod::lemma_div_by_multiple(1000, m as int);
            }
            ((a * 1000) / m) as u32
        }
    }

    /// Sets the amount, clamped into `[0, capacity]`.
    pub fn set_fuel(&mut self, amount: i64)
        ensures
            final(self).wf(),
            final(self).capacity() == old(self).capacity(),
            final(self).level() == clamp(amount as int, 0, old(self).capacity() as int),
    {
        if amount < 0 {
            self.amount = 0;
        } else if amount > self.max as i64 {
            self.amount = self.max;
        } else {
            self.amount = amount as u32;
        }
    }

    /// Refuels on pickup contact. A contact always tops the gauge off to its
    /// capacity, whatever the offered quantity: the refill is not partial.
    pub fn add_fuel(&mut self, amount: u32)
        ensures
            final(self).wf(),
            final(self).capacity() == old(self).capacity(),
            final(self).level() == old(self).capacity(),
    {
        self.amount = self.max;
    }
}

} // verus!
