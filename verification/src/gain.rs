//! Gains: the exact ratios by which a bandwidth or a bandwidth-delay product
//! is scaled.

use vstd::prelude::*;

verus! {

/// A non-negative ratio `numerator / denominator`.
///
/// A gain is kept as a fraction so that scaling is exact integer arithmetic:
/// the product is taken in full and divided once, rounding toward zero.
#[derive(Clone, Copy, Debug, PartialEq, Eq, Structural)]
pub struct Gain {
    pub numerator: u32,
    pub denominator: u32,
}

/// How many entries the cycle of pacing gains has.
pub const GAIN_CYCLE_LEN: u8 = 8;

impl Gain {
    /// A gain is usable when its denominator is not zero.
    pub open spec fn valid(self) -> bool {
        self.denominator > 0
    }

    /// `value` times this gain, rounded toward zero, as a mathematical
    /// integer.
    pub open spec fn product(self, value: u64) -> int {
        (value * self.numerator) / (self.denominator as int)
    }

    /// `value` times this gain, held at `u64::MAX` where the product does
    /// not fit.
    pub open spec fn scaled(self, value: u64) -> u64 {
        if self.product(value) > u64::MAX {
            u64::MAX
        } else {
            self.product(value) as u64
        }
    }

    /// The gain of start-up, for pacing and for window growth: 2.885.
    pub open spec fn high_spec() -> Gain {
        Gain { numerator: 2885, denominator: 1000 }
    }

    /// The pacing gain that drains the queue start-up built: 1 / 2.885.
    pub open spec fn drain_spec() -> Gain {
        Gain { numerator: 1000, denominator: 2885 }
    }

    /// The window gain while probing for bandwidth: 2.
    pub open spec fn probe_bw_window_spec() -> Gain {
        Gain { numerator: 2, denominator: 1 }
    }

    /// The gain that changes nothing: 1.
    pub open spec fn unity_spec() -> Gain {
        Gain { numerator: 1, denominator: 1 }
    }

    /// The pacing gain at position `offset` of the cycle: 1.25, then 0.75,
    /// then 1 six times.
    pub open spec fn cycle_spec(offset: u8) -> Gain {
        if offset == 0 {
            Gain { numerator: 5, denominator: 4 }
        } else if offset == 1 {
            Gain { numerator: 3, denominator: 4 }
        } else {
            Gain::unity_spec()
        }
    }

    #[verifier::when_used_as_spec(high_spec)]
    pub fn high() -> (g: Gain)
        ensures
            g == Gain::high_spec(),
    {
        Gain { numerator: 2885, denominator: 1000 }
    }

    #[verifier::when_used_as_spec(drain_spec)]
    pub fn drain() -> (g: Gain)
        ensures
            g == Gain::drain_spec(),
    {
        Gain { numerator: 1000, denominator: 2885 }
    }

    #[verifier::when_used_as_spec(probe_bw_window_spec)]
    pub fn probe_bw_window() -> (g: Gain)
        ensures
            g == Gain::probe_bw_window_spec(),
    {
        Gain { numerator: 2, denominator: 1 }
    }

    #[verifier::when_used_as_spec(unity_spec)]
    pub fn unity() -> (g: Gain)
        ensures
            g == Gain::unity_spec(),
    {
        Gain { numerator: 1, denominator: 1 }
    }

    /// The pacing gain at position `offset` of the cycle.
    #[verifier::when_used_as_spec(cycle_spec)]
    pub fn cycle(offset: u8) -> (g: Gain)
        requires
            offset < GAIN_CYCLE_LEN,
        ensures
            g == Gain::cycle_spec(offset),
    {
        if offset == 0 {
            Gain { numerator: 5, denominator: 4 }
        } else if offset == 1 {
            Gain { numerator: 3, denominator: 4 }
        } else {
            Gain { numerator: 1, denominator: 1 }
        }
    }

    /// Scales `value` by this gain.
    pub fn scale(&self, value: u64) -> (r: u64)
        requires
            self.valid(),
        ensures
            r == self.scaled(value),
    {
        assert(value * self.numerator <= u64::MAX * u32::MAX) by (nonlinear_arith);
        let wide: u128 = (value as u128) * (self.numerator as u128);
        let quotient: u128 = wide / (self.denominator as u128);
        if quotient > u64::MAX as u128 {
            u64::MAX
        } else {
            quotient as u64
        }
    }
}

} // verus!
