//! The numeric rules: bandwidth-delay product, pacing rate, congestion
//! window and recovery window.

use crate::state::{calculate_min_window, greater, lesser, Mode, State, MIN_PACING_PACKETS};
use crate::time::Duration;
use vstd::prelude::*;

verus! {

/// Microseconds in one second.
pub const MICROS_PER_SEC: u64 = 1_000_000;

/// One more than the largest `u64`.
pub const U64_RANGE: u128 = 0x1_0000_0000_0000_0000;

/// The bytes that a path of `estimate` bytes per second holds in flight
/// over a round trip of `min_rtt`: the rate times the whole microseconds of
/// the round trip, divided by a million and rounded toward zero. Of a
/// product too large for 64 bits the low 64 bits are kept.
pub open spec fn bdp_of(estimate: u64, min_rtt: Duration) -> u64 {
    ((estimate * min_rtt.micros() / (MICROS_PER_SEC as int)) % (U64_RANGE as int)) as u64
}

/// The smaller of `cap` and the sum of `a` and `b`, the sum taken without
/// limit.
pub open spec fn capped_sum(cap: u64, a: u64, b: u64) -> u64 {
    if a + b < cap {
        (a + b) as u64
    } else {
        cap
    }
}

/// `a` less `b`, zero where `b` is the larger.
pub open spec fn reduced(a: u64, b: u64) -> u64 {
    if a >= b {
        (a - b) as u64
    } else {
        0
    }
}

impl State {
    /// The state with the bandwidth-delay product recomputed from
    /// `estimate`; unchanged where the estimate or the minimum round-trip
    /// time is zero.
    pub open spec fn with_bdp(self, estimate: u64) -> State {
        if estimate > 0 && self.min_rtt.nanos != 0 {
            State { bdp: bdp_of(estimate, self.min_rtt), ..self }
        } else {
            self
        }
    }

    /// The lowest pacing rate: a hundred datagrams of the path MTU per
    /// second.
    pub open spec fn min_pacing_rate(self) -> u64 {
        (MIN_PACING_PACKETS * self.current_mtu) as u64
    }

    /// The state with the pacing rate recomputed from `estimate`: the
    /// estimate times the pacing gain, and no less than the lowest rate;
    /// unchanged where the estimate is zero.
    pub open spec fn paced(self, estimate: u64) -> State {
        if estimate == 0 {
            self
        } else {
            State {
                pacing_rate: greater(self.pacing_gain.scaled(estimate), self.min_pacing_rate()),
                ..self
            }
        }
    }

    /// The window that the model asks for: the bandwidth-delay product
    /// times the window gain, and no less than the initial window or the
    /// floor; the initial window while no bandwidth-delay product is known.
    pub open spec fn target_window(self, initial_window: u64) -> u64 {
        if self.bdp > 0 {
            greater(greater(self.cwnd_gain.scaled(self.bdp), initial_window), self.min_window())
        } else {
            initial_window
        }
    }

    /// The target window held within the bounds on the bytes in flight.
    pub open spec fn bounded_target(self, initial_window: u64) -> u64 {
        greater(lesser(self.target_window(initial_window), self.inflight_hi), self.inflight_lo)
    }

    /// Whether the window grows without a cap: in `Startup`, until the pipe
    /// is full.
    pub open spec fn grows_uncapped(self) -> bool {
        self.mode == Mode::Startup && !self.full_pipe
    }

    /// The congestion window after `bytes_acked` more bytes were
    /// acknowledged, by the rule of the mode, and no less than the floor.
    pub open spec fn next_cwnd(self, initial_window: u64, bytes_acked: u64) -> u64 {
        let bounded = self.bounded_target(initial_window);
        let raised = if self.grows_uncapped() {
            (self.cwnd + bytes_acked) as u64
        } else if self.mode == Mode::Drain {
            bounded
        } else {
            capped_sum(bounded, self.cwnd, bytes_acked)
        };
        greater(raised, self.min_window())
    }

    /// The state with bandwidth-delay product and congestion window
    /// recomputed from `estimate` and `bytes_acked`.
    pub open spec fn windowed(self, initial_window: u64, estimate: u64, bytes_acked: u64) -> State {
        State {
            cwnd: self.with_bdp(estimate).next_cwnd(initial_window, bytes_acked),
            ..self.with_bdp(estimate)
        }
    }

    /// The recovery window before the loss is taken off: the one in force,
    /// or, where none is, the larger of congestion window and floor.
    pub open spec fn seeded_recovery(self) -> u64 {
        if self.recovery_window == 0 {
            greater(self.cwnd, self.min_window())
        } else {
            self.recovery_window
        }
    }

    /// The state after a loss of `bytes_lost` bytes: the recovery window
    /// taken down by them, never below zero, and then raised to the larger
    /// of congestion window and floor. Where nothing was lost the state is
    /// unchanged.
    pub open spec fn recovered(self, bytes_lost: u64) -> State {
        if bytes_lost == 0 {
            self
        } else {
            State {
                recovery_window: greater(
                    greater(reduced(self.seeded_recovery(), bytes_lost), self.cwnd),
                    self.min_window(),
                ),
                ..self
            }
        }
    }

    /// Recomputes the bandwidth-delay product from `estimate`.
    pub fn update_bdp(&mut self, estimate: u64)
        ensures
            *final(self) == old(self).with_bdp(estimate),
    {
        if estimate > 0 && !self.min_rtt.is_zero() {
            let micros: u64 = self.min_rtt.as_micros();
            assert(estimate * micros <= u64::MAX * u64::MAX) by (nonlinear_arith);
            let wide: u128 = (estimate as u128) * (micros as u128) / (MICROS_PER_SEC as u128);
            self.bdp = (wide % U64_RANGE) as u64;
        }
    }

    /// Recomputes the pacing rate from `estimate`.
    pub fn update_pacing_rate(&mut self, estimate: u64)
        requires
            old(self).wf(),
        ensures
            *final(self) == old(self).paced(estimate),
            final(self).wf(),
            estimate != 0 ==> final(self).pacing_rate >= old(self).min_pacing_rate(),
            estimate == 0 ==> final(self).pacing_rate == old(self).pacing_rate,
    {
        if estimate == 0 {
            return ;
        }
        let scaled: u64 = self.pacing_gain.scale(estimate);
        let floor: u64 = self.current_mtu * MIN_PACING_PACKETS;
        self.pacing_rate = if scaled >= floor {
            scaled
        } else {
            floor
        };
    }

    /// Recomputes bandwidth-delay product and congestion window at the
    /// close of a batch in which the bandwidth estimate was `estimate` and
    /// `bytes_acked` bytes were acknowledged.
    pub fn update_congestion_window(&mut self, initial_window: u64, estimate: u64, bytes_acked: u64)
        requires
            old(self).wf(),
            old(self).grows_uncapped() ==> old(self).cwnd + bytes_acked <= u64::MAX,
        ensures
            *final(self) == old(self).windowed(initial_window, estimate, bytes_acked),
            final(self).wf(),
            final(self).cwnd >= 4 * final(self).current_mtu,
    {
        self.update_bdp(estimate);
        let floor: u64 = calculate_min_window(self.current_mtu);
        let target_cwnd: u64 = if self.bdp > 0 {
            let scaled: u64 = self.cwnd_gain.scale(self.bdp);
            let wanted: u64 = if scaled >= initial_window {
                scaled
            } else {
                initial_window
            };
            if wanted >= floor {
                wanted
            } else {
                floor
            }
        } else {
            initial_window
        };
        let held: u64 = if target_cwnd <= self.inflight_hi {
            target_cwnd
        } else {
            self.inflight_hi
        };
        let bounded_cwnd: u64 = if held >= self.inflight_lo {
            held
        } else {
            self.inflight_lo
        };
        match self.mode {
            Mode::Startup => {
                if !self.full_pipe {
                    self.cwnd += bytes_acked;
                } else {
                    self.cwnd = capped(bounded_cwnd, self.cwnd, bytes_acked);
                }
            },
            Mode::Drain => {
                self.cwnd = bounded_cwnd;
            },
            Mode::ProbeBw | Mode::ProbeRtt => {
                self.cwnd = capped(bounded_cwnd, self.cwnd, bytes_acked);
            },
        }
        if self.cwnd < floor {
            self.cwnd = floor;
        }
    }

    /// Where `bytes_lost` is not zero, takes it off the recovery window,
    /// seeded first where none is active, and raises the window again to
    /// the larger of congestion window and floor. Where nothing was lost,
    /// changes nothing.
    pub fn update_recovery_window(&mut self, _bytes_acked: u64, bytes_lost: u64)
        requires
            old(self).wf(),
        ensures
            *final(self) == old(self).recovered(bytes_lost),
            bytes_lost == 0 ==> *final(self) == *old(self),
            bytes_lost > 0 ==> final(self).recovery_window >= old(self).cwnd,
            bytes_lost > 0 ==> final(self).recovery_window >= 4 * old(self).current_mtu,
            bytes_lost > 0 && bytes_lost >= old(self).seeded_recovery() ==> {
                final(self).recovery_window == greater(old(self).cwnd, old(self).min_window())
            },
    {
        if bytes_lost == 0 {
            return ;
        }
        let floor: u64 = calculate_min_window(self.current_mtu);
        if self.recovery_window == 0 {
            self.recovery_window = if self.cwnd >= floor {
                self.cwnd
            } else {
                floor
            };
        }
        self.recovery_window = self.recovery_window.saturating_sub(bytes_lost);
        if self.recovery_window < self.cwnd {
            self.recovery_window = self.cwnd;
        }
        if self.recovery_window < floor {
            self.recovery_window = floor;
        }
    }
}

/// The smaller of `cap` and `a + b`, computed without overflow.
pub fn capped(cap: u64, a: u64, b: u64) -> (r: u64)
    ensures
        r == capped_sum(cap, a, b),
{
    match a.checked_add(b) {
        Some(sum) => if sum < cap {
            sum
        } else {
            cap
        },
        None => cap,
    }
}

} // verus!
