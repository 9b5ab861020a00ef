//! An adaptive mutation rate, kept between a floor and a ceiling.
use vstd::prelude::*;

verus! {

/// Controlled mutation rate for evolutionary tuning.
#[derive(Clone, Debug)]
pub struct MutationRate {
    /// Per-gene probability (0..1000 per thousand).
    pub rate_per_thousand: u32,
    /// Minimum rate (floor).
    pub min_rate: u32,
    /// Maximum rate (ceiling).
    pub max_rate: u32,
}

/// `x` brought into `[lo, hi]`.
pub open spec fn clamp_spec(x: int, lo: int, hi: int) -> int {
    if x < lo {
        lo
    } else if x > hi {
        hi
    } else {
        x
    }
}

/// The rate after one adaptation step: down by 5 when fitness improved, up by 10
/// when it stagnated (both saturating at the bounds of `u32`), then clamped.
pub open spec fn adapted_rate(rate: u32, min_rate: u32, max_rate: u32, improved: bool) -> int {
    let stepped: int = if improved {
        if rate >= 5 {
            rate - 5
        } else {
            0
        }
    } else {
        if rate + 10 > u32::MAX {
            u32::MAX as int
        } else {
            rate + 10
        }
    };
    clamp_spec(stepped, min_rate as int, max_rate as int)
}

impl MutationRate {
    pub fn new(rate: u32) -> (r: Self)
        ensures
            r.rate_per_thousand == rate,
            r.min_rate == 1,
            r.max_rate == 500,
    {
        MutationRate { rate_per_thousand: rate, min_rate: 1, max_rate: 500 }
    }

    /// Adapt mutation rate based on fitness improvement.
    pub fn adapt(&mut self, improved: bool)
        requires
            old(self).min_rate <= old(self).max_rate,
        ensures
            final(self).rate_per_thousand == adapted_rate(
                old(self).rate_per_thousand,
                old(self).min_rate,
                old(self).max_rate,
                improved,
            ),
            final(self).min_rate == old(self).min_rate,
            final(self).max_rate == old(self).max_rate,
            final(self).min_rate <= final(self).rate_per_thousand <= final(self).max_rate,
    {
        if improved {
            self.rate_per_thousand = self.rate_per_thousand.saturating_sub(5);
        } else {
            self.rate_per_thousand = self.rate_per_thousand.saturating_add(10);
        }
        if self.rate_per_thousand < self.min_rate {
            self.rate_per_thousand = self.min_rate;
        } else if self.rate_per_thousand > self.max_rate {
            self.rate_per_thousand = self.max_rate;
        }
    }
}

/// Adaptation keeps the rate within its bounds; from a rate within its bounds,
/// an improvement never raises it and a stagnation never lowers it.
pub proof fn lemma_adapt_direction(rate: u32, min_rate: u32, max_rate: u32)
    requires
        min_rate <= max_rate,
    ensures
        min_rate <= adapted_rate(rate, min_rate, max_rate, true) <= max_rate,
        min_rate <= adapted_rate(rate, min_rate, max_rate, false) <= max_rate,
        min_rate <= rate <= max_rate ==> adapted_rate(rate, min_rate, max_rate, true) <= rate,
        min_rate <= rate <= max_rate ==> adapted_rate(rate, min_rate, max_rate, false) >= rate,
{
}

/// A stagnation step adds exactly 10 to the rate (stopping at `u32::MAX`) and
/// an improvement step takes exactly 5 off (stopping at 0); the result is that
/// raw rate when it lies within the bounds, else the bound it passed.
pub proof fn lemma_adapt_steps(rate: u32, min_rate: u32, max_rate: u32)
    requires
        min_rate <= max_rate,
    ensures
        ({
            let up: int = if rate as int + 10 <= 0xffff_ffff {
                rate as int + 10
            } else {
                0xffff_ffff
            };
            let r = adapted_rate(rate, min_rate, max_rate, false);
            &&& min_rate <= up <= max_rate ==> r == up
            &&& up < min_rate ==> r == min_rate
            &&& up > max_rate ==> r == max_rate
        }),
        ({
            let down: int = if rate >= 5 {
                rate as int - 5
            } else {
                0
            };
            let r = adapted_rate(rate, min_rate, max_rate, true);
            &&& min_rate <= down <= max_rate ==> r == down
            &&& down < min_rate ==> r == min_rate
            &&& down > max_rate ==> r == max_rate
        }),
{
}

} // verus!
