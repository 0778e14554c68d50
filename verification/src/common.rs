use vstd::prelude::*;

use crate::rng::random_below;

verus! {

/// The integer `x` clamped to the closed interval `[lo, hi]`.
pub open spec fn clip(lo: int, x: int, hi: int) -> int {
    if x < lo {
        lo
    } else if x > hi {
        hi
    } else {
        x
    }
}

/// A chance expressed as a whole percentage, always within `[0, 100]`.
#[derive(Debug, Clone, Copy, PartialEq, Eq, Structural)]
pub struct Probability(u8);

impl Probability {
    /// The percentage this probability stands for.
    pub closed spec fn spec_value(self) -> u8 {
        self.0
    }

    /// Every probability a constructor hands out satisfies this bound.
    pub open spec fn wf(self) -> bool {
        self.spec_value() <= 100
    }

    /// Builds a probability, clamping the given percentage to at most 100.
    pub fn new(probability: u8) -> (r: Self)
        ensures
            r.spec_value() == clip(0, probability as int, 100),
            r.wf(),
    {
        if probability > 100 {
            Self(100)
        } else {
            Self(probability)
        }
    }

    /// The stored percentage.
    pub fn value(&self) -> (r: u8)
        ensures
            r == self.spec_value(),
    {
        self.0
    }

    /// Draws a weighted coin: true with this probability. A probability of 0
    /// never succeeds and a probability of 100 (or more) always does.
    pub fn generate_random_bool(&self) -> (r: bool)
        ensures
            self.spec_value() == 0 ==> !r,
            self.spec_value() >= 100 ==> r,
    {
        let roll = random_below(100);
        roll < self.0 as u32
    }
}

/// A bounded numeric resource (health, mana): a current `value` and a cap
/// `max`, with `0 <= value <= max` maintained by every operation.
#[derive(Debug, Clone, Copy, PartialEq, Eq, Structural)]
pub struct Stat {
    pub max: i32,
    pub value: i32,
}

/// The stat after setting its value to `amount`, clamped to `[0, max]`.
pub open spec fn set_value_spec(s: Stat, amount: int) -> Stat {
    Stat { max: s.max, value: clip(0, amount, s.max as int) as i32 }
}

/// The stat after adding `amount` to its value, clamped to `[0, max]`.
pub open spec fn add_value_spec(s: Stat, amount: int) -> Stat {
    set_value_spec(s, s.value + amount)
}

/// The stat after subtracting `amount` from its value, clamped to `[0, max]`.
pub open spec fn subtract_value_spec(s: Stat, amount: int) -> Stat {
    set_value_spec(s, s.value - amount)
}

/// The stat after growing the cap by `amount`: the current value grows by the
/// same amount, so a fresh stat stays fresh.
pub open spec fn add_max_value_spec(s: Stat, amount: int) -> Stat {
    Stat {
        max: (s.max + amount) as i32,
        value: clip(0, s.value + amount, s.max + amount) as i32,
    }
}

/// The stat after shrinking the cap by `amount`, floored at 0; the current
/// value is re-clamped to the new cap.
pub open spec fn subtract_max_value_spec(s: Stat, amount: int) -> Stat {
    Stat {
        max: clip(0, s.max - amount, i32::MAX as int) as i32,
        value: clip(0, s.value as int, clip(0, s.max - amount, i32::MAX as int)) as i32,
    }
}

/// The truncated percentage `value * 100 / max`, with a cap of 0 treated as 0
/// rather than a division by zero.
pub open spec fn percentage_spec(s: Stat) -> int {
    if s.max <= 0 {
        0
    } else {
        s.value * 100 / s.max as int
    }
}

impl Stat {
    /// The resource invariant: the current value stays within `[0, max]`.
    pub open spec fn wf(self) -> bool {
        0 <= self.value <= self.max
    }

    /// A fresh stat: full, with cap and value both `value`.
    pub fn new(value: i32) -> (r: Self)
        requires
            value >= 0,
        ensures
            r == (Stat { max: value, value }),
            r.wf(),
    {
        Self { value, max: value }
    }

    /// The filled share of the resource as a whole percentage, truncated; a
    /// cap of 0 yields 0 instead of dividing by zero.
    pub fn percentage(&self) -> (r: i32)
        requires
            self.wf(),
        ensures
            r == percentage_spec(*self),
    {
        if self.max == 0 {
            0
        } else {
            let q: i64 = self.value as i64 * 100 / self.max as i64;
            proof {
                let v = self.value as int;
                let m = self.max as int;
                assert(0 <= v * 100 / m <= 100) by (nonlinear_arith)
                    requires
                        0 <= v <= m,
                        m > 0,
                ;
            }
            q as i32
        }
    }

    /// Refills the resource to its cap.
    pub fn restore_value(&mut self)
        ensures
            *final(self) == (Stat { max: old(self).max, value: old(self).max }),
    {
        self.value = self.max;
    }

    /// Sets the value to `amount`, clamped to `[0, max]`.
    pub fn set_value(&mut self, amount: i32)
        requires
            old(self).wf(),
        ensures
            *final(self) == set_value_spec(*old(self), amount as int),
            final(self).wf(),
            0 <= final(self).value <= final(self).max,
    {
        if amount < 0 {
            self.value = 0;
        } else if amount > self.max {
            self.value = self.max;
        } else {
            self.value = amount;
        }
    }

    /// Adds `amount` to the value, clamped to `[0, max]`.
    pub fn add_value(&mut self, amount: i32)
        requires
            old(self).wf(),
        ensures
            *final(self) == add_value_spec(*old(self), amount as int),
            final(self).wf(),
    {
        let raw: i64 = self.value as i64 + amount as i64;
        if raw < 0 {
            self.value = 0;
        } else if raw > self.max as i64 {
            self.value = self.max;
        } else {
            self.value = raw as i32;
        }
    }

    /// Subtracts `amount` from the value, clamped to `[0, max]`.
    pub fn subtract_value(&mut self, amount: i32)
        requires
            old(self).wf(),
        ensures
            *final(self) == subtract_value_spec(*old(self), amount as int),
            final(self).wf(),
    {
        let raw: i64 = self.value as i64 - amount as i64;
        if raw < 0 {
            self.value = 0;
        } else if raw > self.max as i64 {
            self.value = self.max;
        } else {
            self.value = raw as i32;
        }
    }

    /// Grows the cap by `amount` and the current value with it: growing a
    /// resource pool raises both the ceiling and the level.
    pub fn add_max_value(&mut self, amount: i32)
        requires
            old(self).wf(),
            0 <= old(self).max + amount <= i32::MAX,
        ensures
            *final(self) == add_max_value_spec(*old(self), amount as int),
            final(self).wf(),
    {
        self.max = self.max + amount;
        let raw: i64 = self.value as i64 + amount as i64;
        if raw < 0 {
            self.value = 0;
        } else if raw > self.max as i64 {
            self.value = self.max;
        } else {
            self.value = raw as i32;
        }
    }

    /// Shrinks the cap by `amount`, floored at 0, re-clamping the current
    /// value to the new cap.
    pub fn subtract_max_value(&mut self, amount: i32)
        requires
            old(self).wf(),
            old(self).max - amount <= i32::MAX,
        ensures
            *final(self) == subtract_max_value_spec(*old(self), amount as int),
            final(self).wf(),
    {
        let raw: i64 = self.max as i64 - amount as i64;
        if raw < 0 {
            self.max = 0;
        } else {
            self.max = raw as i32;
        }
        if self.value > self.max {
            self.value = self.max;
        }
    }
}

impl Default for Stat {
    /// The default resource pool: 100 of 100.
    fn default() -> (r: Self)
        ensures
            r == (Stat { max: 100, value: 100 }),
    {
        Self::new(100)
    }
}

/// Growing a fresh stat's cap by `n` and then shrinking it by `n` restores the
/// stat exactly: the cap returns to its original value, and because growing
/// moves the current value together with the cap, the value returns as well.
pub proof fn lemma_grow_shrink_round_trip(s: Stat, n: i32)
    requires
        s.wf(),
        s.value == s.max,
        n >= 0,
        s.max + n <= i32::MAX,
    ensures
        subtract_max_value_spec(add_max_value_spec(s, n as int), n as int) == s,
{
}

} // verus!
