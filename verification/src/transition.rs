//! The mode machine: when the controller changes mode, and what each entry
//! sets.

use crate::gain::{Gain, GAIN_CYCLE_LEN};
use crate::state::{Mode, State};
use crate::time::Instant;
use vstd::prelude::*;

verus! {

/// How long the controller goes without probing the round-trip time:
/// ten seconds, in nanoseconds.
pub const PROBE_RTT_INTERVAL_NANOS: u64 = 10_000_000_000;

/// How long `ProbeRtt` lasts once the data in flight is low: 200
/// milliseconds, in nanoseconds.
pub const PROBE_RTT_DURATION_NANOS: u64 = 200_000_000;

/// How many values a draw for the start of the gain cycle can take.
pub const CYCLE_DRAWS: u8 = 7;

/// The position in the gain cycle that a draw selects: position 0 for a draw
/// of 0, else the position after the draw, so that position 1, the one slot
/// that paces below the bandwidth, never begins a cycle.
pub open spec fn cycle_start(draw: u8) -> u8 {
    if draw >= 1 {
        (draw + 1) as u8
    } else {
        draw
    }
}

impl State {
    /// The delivered bytes above which the pipe counts as full: four fifths
    /// of the bandwidth-delay product, rounded toward zero.
    pub open spec fn full_pipe_threshold(self) -> u64 {
        (self.bdp * 4 / 5) as u64
    }

    /// The state with `full_pipe` latched where the delivered bytes exceed
    /// the threshold; unchanged where the latch is set already or no
    /// bandwidth-delay product is known.
    pub open spec fn pipe_checked(self) -> State {
        if !self.full_pipe && self.bdp > 0 && self.delivered_bytes
            > self.full_pipe_threshold() {
            State { full_pipe: true, ..self }
        } else {
            self
        }
    }

    /// The state on entry to `Startup`.
    pub open spec fn in_startup(self) -> State {
        State {
            mode: Mode::Startup,
            pacing_gain: Gain::high_spec(),
            cwnd_gain: Gain::high_spec(),
            ..self
        }
    }

    /// The state on entry to `Drain`.
    pub open spec fn in_drain(self) -> State {
        State {
            mode: Mode::Drain,
            pacing_gain: Gain::drain_spec(),
            cwnd_gain: Gain::high_spec(),
            ..self
        }
    }

    /// The state on entry to `ProbeBw` at time `now`, the gain cycle begun
    /// at the position that `draw` selects.
    pub open spec fn in_probe_bw(self, now: Instant, draw: u8) -> State {
        State {
            mode: Mode::ProbeBw,
            cwnd_gain: Gain::probe_bw_window_spec(),
            last_cycle_start: Some(now),
            current_cycle_offset: cycle_start(draw),
            pacing_gain: Gain::cycle_spec(cycle_start(draw)),
            ..self
        }
    }

    /// The state on entry to `ProbeRtt` at time `now`.
    pub open spec fn in_probe_rtt(self, now: Instant) -> State {
        State {
            mode: Mode::ProbeRtt,
            pacing_gain: Gain::unity_spec(),
            exit_probe_rtt_at: None,
            last_probe_rtt: Some(now),
            ..self
        }
    }

    /// Whether the gain cycle advances at `now`: in `ProbeBw`, once the
    /// minimum round-trip time or more has passed since it last did.
    pub open spec fn cycle_due(self, now: Instant) -> bool {
        self.mode == Mode::ProbeBw && match self.last_cycle_start {
            Some(last) => now.since(last).nanos >= self.min_rtt.nanos,
            None => false,
        }
    }

    /// The position after `offset` in the gain cycle.
    pub open spec fn next_offset(offset: u8) -> u8 {
        ((offset + 1) % (GAIN_CYCLE_LEN as int)) as u8
    }

    /// The state with the gain cycle advanced by one position where that is
    /// due at `now`; else unchanged.
    pub open spec fn cycle_stepped(self, now: Instant) -> State {
        if self.cycle_due(now) {
            State {
                current_cycle_offset: State::next_offset(self.current_cycle_offset),
                last_cycle_start: Some(now),
                pacing_gain: Gain::cycle_spec(State::next_offset(self.current_cycle_offset)),
                cycle_count: (self.cycle_count + 1) as u64,
                ..self
            }
        } else {
            self
        }
    }

    /// Whether a probe of the round-trip time is due at `now`: none was made
    /// yet, or the last lies more than ten seconds back.
    pub open spec fn probe_rtt_due(self, now: Instant) -> bool {
        match self.last_probe_rtt {
            Some(last) => now.since(last).nanos > PROBE_RTT_INTERVAL_NANOS,
            None => true,
        }
    }

    /// The state after the periodic check at `now`: in `ProbeRtt` where a
    /// probe is due and the controller is in another mode; else unchanged.
    pub open spec fn rtt_probed(self, now: Instant) -> State {
        if self.probe_rtt_due(now) && self.mode != Mode::ProbeRtt {
            self.in_probe_rtt(now)
        } else {
            self
        }
    }

    /// Whether `in_flight` bytes are few enough to arm the exit from
    /// `ProbeRtt`: fewer than the window floor and one datagram more.
    pub open spec fn inflight_low(self, in_flight: u64) -> bool {
        in_flight < self.min_window() + self.current_mtu
    }

    /// Whether the batch closed at `now` with `in_flight` bytes in flight
    /// takes the controller into `ProbeBw`.
    pub open spec fn enters_probe_bw(self, now: Instant, in_flight: u64) -> bool {
        match self.mode {
            Mode::Drain => in_flight <= self.bdp,
            Mode::ProbeRtt => match self.exit_probe_rtt_at {
                Some(at) => now.nanos >= at.nanos && self.full_pipe,
                None => false,
            },
            _ => false,
        }
    }

    /// Whether the batch closed at `now` arms the exit from `ProbeRtt`.
    pub open spec fn arms_exit(self, in_flight: u64) -> bool {
        self.mode == Mode::ProbeRtt && self.exit_probe_rtt_at.is_none() && self.inflight_low(
            in_flight,
        )
    }

    /// The state after the mode's own rule for a batch closed at `now` with
    /// `in_flight` bytes in flight. `draw` is consulted only where the
    /// controller enters `ProbeBw`.
    pub open spec fn moved(self, now: Instant, in_flight: u64, draw: u8) -> State {
        match self.mode {
            Mode::Startup => {
                if self.pipe_checked().full_pipe && self.round_start {
                    self.pipe_checked().in_drain()
                } else {
                    self.pipe_checked()
                }
            },
            Mode::Drain => {
                if in_flight <= self.bdp {
                    self.in_probe_bw(now, draw)
                } else {
                    self
                }
            },
            Mode::ProbeBw => self.cycle_stepped(now),
            Mode::ProbeRtt => match self.exit_probe_rtt_at {
                None => {
                    if self.inflight_low(in_flight) {
                        State {
                            exit_probe_rtt_at: Some(
                                Instant { nanos: (now.nanos + PROBE_RTT_DURATION_NANOS) as u64 },
                            ),
                            ..self
                        }
                    } else {
                        self
                    }
                },
                Some(at) => {
                    if now.nanos >= at.nanos {
                        if self.full_pipe {
                            self.in_probe_bw(now, draw)
                        } else {
                            self.in_startup()
                        }
                    } else {
                        self
                    }
                },
            },
        }
    }

    /// Whether the batch closed at `now` with `in_flight` bytes in flight
    /// takes the controller into `ProbeBw`.
    pub fn will_enter_probe_bw(&self, now: Instant, in_flight: u64) -> (enters: bool)
        ensures
            enters == self.enters_probe_bw(now, in_flight),
    {
        match self.mode {
            Mode::Drain => in_flight <= self.bdp,
            Mode::ProbeRtt => match self.exit_probe_rtt_at {
                Some(exit_at) => now.nanos >= exit_at.nanos && self.full_pipe,
                None => false,
            },
            _ => false,
        }
    }

    /// Enters `Startup`.
    pub fn enter_startup_mode(&mut self)
        ensures
            *final(self) == old(self).in_startup(),
    {
        self.mode = Mode::Startup;
        self.pacing_gain = Gain::high();
        self.cwnd_gain = Gain::high();
    }

    /// Enters `Drain`.
    pub fn enter_drain_mode(&mut self)
        ensures
            *final(self) == old(self).in_drain(),
    {
        self.mode = Mode::Drain;
        self.pacing_gain = Gain::drain();
        self.cwnd_gain = Gain::high();
    }

    /// Enters `ProbeBw` at `now`, the gain cycle begun where `draw` says.
    pub fn enter_probe_bw_mode(&mut self, now: Instant, draw: u8)
        requires
            draw < CYCLE_DRAWS,
        ensures
            *final(self) == old(self).in_probe_bw(now, draw),
            final(self).current_cycle_offset < GAIN_CYCLE_LEN,
            final(self).current_cycle_offset != 1,
    {
        self.mode = Mode::ProbeBw;
        self.cwnd_gain = Gain::probe_bw_window();
        self.last_cycle_start = Some(now);
        let mut index: u8 = draw;
        if index >= 1 {
            index += 1;
        }
        self.current_cycle_offset = index;
        self.pacing_gain = Gain::cycle(index);
    }

    /// Enters `ProbeRtt` at `now`.
    pub fn enter_probe_rtt_mode(&mut self, now: Instant)
        ensures
            *final(self) == old(self).in_probe_rtt(now),
    {
        self.mode = Mode::ProbeRtt;
        self.pacing_gain = Gain::unity();
        self.exit_probe_rtt_at = None;
        self.last_probe_rtt = Some(now);
    }

    /// Latches `full_pipe` once the delivered bytes exceed four fifths of
    /// the bandwidth-delay product.
    pub fn check_full_pipe(&mut self)
        ensures
            *final(self) == old(self).pipe_checked(),
    {
        if self.full_pipe {
            return ;
        }
        if self.bdp > 0 {
            let threshold: u64 = ((self.bdp as u128) * 4 / 5) as u64;
            if self.delivered_bytes > threshold {
                self.full_pipe = true;
            }
        }
    }

    /// Advances the gain cycle where that is due at `now`.
    pub fn update_cycle_phase(&mut self, now: Instant, _in_flight: u64)
        requires
            old(self).current_cycle_offset < GAIN_CYCLE_LEN,
            old(self).cycle_due(now) ==> old(self).cycle_count < u64::MAX,
        ensures
            *final(self) == old(self).cycle_stepped(now),
            final(self).current_cycle_offset < GAIN_CYCLE_LEN,
    {
        if self.mode != Mode::ProbeBw {
            return ;
        }
        let should_advance = match self.last_cycle_start {
            Some(last) => now.saturating_duration_since(last).nanos >= self.min_rtt.nanos,
            None => false,
        };
        if should_advance {
            self.current_cycle_offset = (self.current_cycle_offset + 1) % GAIN_CYCLE_LEN;
            self.last_cycle_start = Some(now);
            self.pacing_gain = Gain::cycle(self.current_cycle_offset);
            self.cycle_count += 1;
        }
    }

    /// Enters `ProbeRtt` where a probe of the round-trip time is due at
    /// `now` and the controller is in another mode.
    pub fn maybe_probe_rtt(&mut self, now: Instant)
        ensures
            *final(self) == old(self).rtt_probed(now),
            old(self).wf() ==> final(self).wf(),
            final(self).cwnd == old(self).cwnd,
            final(self).full_pipe == old(self).full_pipe,
    {
        let should_probe = match self.last_probe_rtt {
            Some(last) => now.saturating_duration_since(last).nanos > PROBE_RTT_INTERVAL_NANOS,
            None => true,
        };
        if should_probe && self.mode != Mode::ProbeRtt {
            self.enter_probe_rtt_mode(now);
        }
    }
}

} // verus!
