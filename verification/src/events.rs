//! The controller's operations on its state: one transition for each event
//! that the transport reports.

use crate::state::{calculate_min_window, greater, min_window_of, Mode, State};
use crate::time::{Duration, Instant};
use crate::transition::{CYCLE_DRAWS, PROBE_RTT_DURATION_NANOS};
use vstd::prelude::*;

verus! {

/// What the bandwidth estimator reports at the close of a batch of
/// acknowledgments.
#[derive(Clone, Copy, Debug, PartialEq, Eq)]
pub struct BandwidthSample {
    /// Its best estimate of the delivery rate, in bytes per second.
    pub estimate: u64,
    /// The bytes acknowledged in the measurement window just closed.
    pub bytes_acked: u64,
}

/// A snapshot of what the controller allows.
#[derive(Clone, Copy, Debug, PartialEq, Eq)]
pub struct ControllerMetrics {
    /// The window that the transport may fill, in bytes.
    pub congestion_window: u64,
    /// The slow-start threshold; this controller has none.
    pub ssthresh: Option<u64>,
    /// The pacing rate in bits per second.
    pub pacing_rate: Option<u64>,
}

impl State {
    /// The state after `bytes` bytes were sent, the last of them in packet
    /// `last_packet_number`.
    pub open spec fn sent(self, bytes: u64, last_packet_number: u64) -> State {
        State {
            max_sent_packet_number: last_packet_number,
            sent_bytes: (self.sent_bytes + bytes) as u64,
            ..self
        }
    }

    /// The minimum round-trip time once the estimator reports `rtt_min`:
    /// the report where it is smaller or nothing was known; else as before.
    pub open spec fn tightened_rtt(self, rtt_min: Duration) -> Duration {
        if self.min_rtt.nanos > rtt_min.nanos || self.min_rtt.nanos == 0 {
            rtt_min
        } else {
            self.min_rtt
        }
    }

    /// The state after `bytes` bytes were acknowledged at `now`, the
    /// estimator's minimum round-trip time being `rtt_min`.
    pub open spec fn acked(self, now: Instant, bytes: u64, rtt_min: Duration) -> State {
        State {
            acked_bytes: (self.acked_bytes + bytes) as u64,
            delivered_bytes: (self.delivered_bytes + bytes) as u64,
            last_ack_time: Some(now),
            min_rtt: self.tightened_rtt(rtt_min),
            ..self
        }
    }

    /// The largest packet number acknowledged once a batch reports
    /// `largest`.
    pub open spec fn acked_up_to(self, largest: Option<u64>) -> u64 {
        match largest {
            Some(number) => number,
            None => self.max_acked_packet_number,
        }
    }

    /// Whether a batch that reports `largest` begins a round: it
    /// acknowledges a packet sent after the round under way began.
    pub open spec fn round_starts(self, largest: Option<u64>) -> bool {
        self.acked_up_to(largest) > self.current_round_trip_end_packet_number
    }

    /// The state with the round accounted for: where the batch begins a
    /// round, the round ends at the last packet sent and the count goes up
    /// by one.
    pub open spec fn round_marked(self, largest: Option<u64>) -> State {
        if self.round_starts(largest) {
            State {
                max_acked_packet_number: self.acked_up_to(largest),
                round_start: true,
                current_round_trip_end_packet_number: self.max_sent_packet_number,
                round_count: (self.round_count + 1) as u64,
                ..self
            }
        } else {
            State {
                max_acked_packet_number: self.acked_up_to(largest),
                round_start: false,
                ..self
            }
        }
    }

    /// The state in which the window is recomputed at the close of a
    /// batch: after the round was marked, the mode's rule applied and the
    /// periodic check made. The draw does not bear on its mode, its latch
    /// or its window.
    pub open spec fn settled(self, now: Instant, in_flight: u64, largest: Option<u64>) -> State {
        self.round_marked(largest).moved(now, in_flight, 0).rtt_probed(now)
    }

    /// Whether every count that closing a batch raises stays within 64
    /// bits.
    pub open spec fn batch_fits(
        self,
        now: Instant,
        in_flight: u64,
        largest: Option<u64>,
        bytes_acked: u64,
    ) -> bool {
        &&& self.round_starts(largest) ==> self.round_count < u64::MAX
        &&& self.cycle_due(now) ==> self.cycle_count < u64::MAX
        &&& self.arms_exit(in_flight) ==> now.nanos + PROBE_RTT_DURATION_NANOS <= u64::MAX
        &&& self.settled(now, in_flight, largest).grows_uncapped() ==> self.cwnd + bytes_acked
            <= u64::MAX
    }

    /// The state after a batch of acknowledgments was closed at `now` with
    /// `in_flight` bytes in flight and `largest` the largest packet number
    /// it acknowledged: round marked, mode advanced, periodic probe
    /// checked, pacing rate and window recomputed from `sample`, and the
    /// counts of the batch set back to zero.
    pub open spec fn batch_closed(
        self,
        now: Instant,
        in_flight: u64,
        largest: Option<u64>,
        initial_window: u64,
        sample: BandwidthSample,
        draw: u8,
    ) -> State {
        State {
            acked_bytes: 0,
            lost_bytes: 0,
            ..self.round_marked(largest).moved(now, in_flight, draw).rtt_probed(now).paced(
                sample.estimate,
            ).windowed(initial_window, sample.estimate, sample.bytes_acked)
        }
    }

    /// The state after `lost_bytes` bytes were declared lost.
    pub open spec fn congested(self, lost_bytes: u64) -> State {
        State { lost_bytes: (self.lost_bytes + lost_bytes) as u64, ..self }.recovered(lost_bytes)
    }

    /// The state after the path MTU became `new_mtu`: the window raised to
    /// the new floor where it lay below.
    pub open spec fn mtu_updated(self, new_mtu: u16) -> State {
        State {
            current_mtu: new_mtu as u64,
            cwnd: greater(self.cwnd, min_window_of(new_mtu as u64)),
            ..self
        }
    }

    /// The snapshot of this state: the effective window, no threshold, and
    /// the pacing rate in bits per second.
    pub open spec fn snapshot(self) -> ControllerMetrics {
        ControllerMetrics {
            congestion_window: self.effective_window(),
            ssthresh: None,
            pacing_rate: Some((self.pacing_rate * 8) as u64),
        }
    }

    /// Records that `bytes` bytes were sent, the last of them in packet
    /// `last_packet_number`. The count of bytes sent has to stay within 64
    /// bits.
    pub fn on_sent(&mut self, _now: Instant, bytes: u64, last_packet_number: u64)
        requires
            old(self).wf(),
            old(self).sent_bytes + bytes <= u64::MAX,
        ensures
            *final(self) == old(self).sent(bytes, last_packet_number),
            final(self).wf(),
            final(self).effective_window() == old(self).effective_window(),
    {
        self.max_sent_packet_number = last_packet_number;
        self.sent_bytes += bytes;
    }

    /// Records that `bytes` bytes were acknowledged at `now`, and takes
    /// over the estimator's minimum round-trip time `rtt_min` where it is
    /// smaller than the one held, or none is held. The counts of bytes
    /// acknowledged and delivered have to stay within 64 bits.
    pub fn on_ack(
        &mut self,
        now: Instant,
        _sent: Instant,
        bytes: u64,
        _app_limited: bool,
        rtt_min: Duration,
    )
        requires
            old(self).wf(),
            old(self).acked_bytes + bytes <= u64::MAX,
            old(self).delivered_bytes + bytes <= u64::MAX,
        ensures
            *final(self) == old(self).acked(now, bytes, rtt_min),
            final(self).wf(),
            final(self).effective_window() == old(self).effective_window(),
            old(self).min_rtt.nanos != 0 ==> final(self).min_rtt.nanos <= old(self).min_rtt.nanos,
    {
        self.acked_bytes += bytes;
        self.delivered_bytes += bytes;
        self.last_ack_time = Some(now);
        if self.min_rtt.nanos > rtt_min.nanos || self.min_rtt.is_zero() {
            self.min_rtt = rtt_min;
        }
    }

    /// Whether closing a batch with these values keeps every count within
    /// 64 bits, so that [`on_end_acks`](State::on_end_acks) may be called.
    pub fn can_end_acks(
        &self,
        now: Instant,
        in_flight: u64,
        largest_packet_num_acked: Option<u64>,
        bytes_acked: u64,
    ) -> (fits: bool)
        requires
            self.wf(),
        ensures
            fits == self.batch_fits(now, in_flight, largest_packet_num_acked, bytes_acked),
    {
        let mut probe: State = *self;
        let acked_up_to: u64 = match largest_packet_num_acked {
            Some(number) => number,
            None => self.max_acked_packet_number,
        };
        let round_starts: bool = acked_up_to > self.current_round_trip_end_packet_number;
        if round_starts && self.round_count == u64::MAX {
            return false;
        }
        let cycle_due: bool = self.mode == Mode::ProbeBw && match self.last_cycle_start {
            Some(last) => now.saturating_duration_since(last).nanos >= self.min_rtt.nanos,
            None => false,
        };
        if cycle_due && self.cycle_count == u64::MAX {
            return false;
        }
        let arms_exit: bool = self.mode == Mode::ProbeRtt && self.exit_probe_rtt_at.is_none()
            && in_flight < calculate_min_window(self.current_mtu) + self.current_mtu;
        if arms_exit && now.nanos > u64::MAX - PROBE_RTT_DURATION_NANOS {
            return false;
        }
        probe.mark_round(largest_packet_num_acked);
        probe.advance_mode(now, in_flight, 0);
        probe.maybe_probe_rtt(now);
        if probe.mode == Mode::Startup && !probe.full_pipe {
            self.cwnd.checked_add(bytes_acked).is_some()
        } else {
            true
        }
    }

    /// Accounts for the round at the close of a batch that acknowledged
    /// packets up to `largest_packet_num_acked`.
    pub fn mark_round(&mut self, largest_packet_num_acked: Option<u64>)
        requires
            old(self).round_starts(largest_packet_num_acked) ==> old(self).round_count < u64::MAX,
        ensures
            *final(self) == old(self).round_marked(largest_packet_num_acked),
            final(self).round_start == old(self).round_starts(largest_packet_num_acked),
            old(self).wf() ==> final(self).wf(),
    {
        if let Some(largest_acked) = largest_packet_num_acked {
            self.max_acked_packet_number = largest_acked;
        }
        self.round_start = self.max_acked_packet_number
            > self.current_round_trip_end_packet_number;
        if self.round_start {
            self.current_round_trip_end_packet_number = self.max_sent_packet_number;
            self.round_count += 1;
        }
    }

    /// Applies the rule of the mode at the close of a batch.
    pub fn advance_mode(&mut self, now: Instant, in_flight: u64, draw: u8)
        requires
            old(self).wf(),
            draw < CYCLE_DRAWS,
            old(self).cycle_due(now) ==> old(self).cycle_count < u64::MAX,
            old(self).arms_exit(in_flight) ==> now.nanos + PROBE_RTT_DURATION_NANOS <= u64::MAX,
        ensures
            *final(self) == old(self).moved(now, in_flight, draw),
            final(self).wf(),
    {
        match self.mode {
            Mode::Startup => {
                self.check_full_pipe();
                if self.full_pipe && self.round_start {
                    self.enter_drain_mode();
                }
            },
            Mode::Drain => {
                if in_flight <= self.bdp {
                    self.enter_probe_bw_mode(now, draw);
                }
            },
            Mode::ProbeBw => {
                self.update_cycle_phase(now, in_flight);
            },
            Mode::ProbeRtt => {
                match self.exit_probe_rtt_at {
                    None => {
                        if in_flight < calculate_min_window(self.current_mtu) + self.current_mtu {
                            self.exit_probe_rtt_at = Some(
                                Instant { nanos: now.nanos + PROBE_RTT_DURATION_NANOS },
                            );
                        }
                    },
                    Some(exit_at) => {
                        if now.nanos >= exit_at.nanos {
                            if self.full_pipe {
                                self.enter_probe_bw_mode(now, draw);
                            } else {
                                self.enter_startup_mode();
                            }
                        }
                    },
                }
            },
        }
    }

    /// Closes a batch of acknowledgments: marks the round, advances the
    /// mode, checks whether a probe of the round-trip time is due,
    /// recomputes pacing rate and congestion window from `sample`, and sets
    /// the counts of the batch back to zero.
    ///
    /// `draw` selects where the gain cycle begins, should the controller
    /// enter `ProbeBw`; it has no effect otherwise. The counts that the
    /// batch raises have to stay within 64 bits:
    /// [`can_end_acks`](State::can_end_acks) tells whether they do.
    pub fn on_end_acks(
        &mut self,
        now: Instant,
        in_flight: u64,
        _app_limited: bool,
        largest_packet_num_acked: Option<u64>,
        initial_window: u64,
        sample: BandwidthSample,
        draw: u8,
    )
        requires
            old(self).wf(),
            draw < CYCLE_DRAWS,
            old(self).batch_fits(now, in_flight, largest_packet_num_acked, sample.bytes_acked),
        ensures
            *final(self) == old(self).batch_closed(
                now,
                in_flight,
                largest_packet_num_acked,
                initial_window,
                sample,
                draw,
            ),
            final(self).wf(),
            final(self).cwnd >= 4 * final(self).current_mtu,
            final(self).effective_window() >= 1,
            final(self).round_start == old(self).round_starts(largest_packet_num_acked),
            final(self).round_count == old(self).round_count + if final(self).round_start {
                1int
            } else {
                0int
            },
            final(self).mode == Mode::Drain ==> final(self).full_pipe,
            old(self).full_pipe ==> final(self).full_pipe,
            sample.estimate != 0 ==> final(self).pacing_rate >= 100 * final(self).current_mtu,
            sample.estimate == 0 ==> final(self).pacing_rate == old(self).pacing_rate,
            final(self).recovery_window == old(self).recovery_window,
            final(self).acked_bytes == 0 && final(self).lost_bytes == 0,
    {
        let ghost marked = old(self).round_marked(largest_packet_num_acked);
        self.mark_round(largest_packet_num_acked);
        self.advance_mode(now, in_flight, draw);
        self.maybe_probe_rtt(now);
        proof {
            lemma_draw_is_immaterial(marked, now, in_flight, draw);
            assert(self.grows_uncapped() == old(self).settled(
                now,
                in_flight,
                largest_packet_num_acked,
            ).grows_uncapped());
            assert(self.cwnd == old(self).cwnd);
        }
        self.update_pacing_rate(sample.estimate);
        self.update_congestion_window(initial_window, sample.estimate, sample.bytes_acked);
        self.acked_bytes = 0;
        self.lost_bytes = 0;
        proof {
            lemma_batch_closed(
                *old(self),
                now,
                in_flight,
                largest_packet_num_acked,
                initial_window,
                sample,
                draw,
            );
        }
    }

    /// Records `lost_bytes` lost bytes and lowers the recovery window by
    /// them; an event that carries no loss leaves the recovery window as
    /// it is. The count of bytes lost in the batch has to stay within 64
    /// bits.
    pub fn on_congestion_event(
        &mut self,
        _now: Instant,
        _sent: Instant,
        _is_persistent_congestion: bool,
        lost_bytes: u64,
    )
        requires
            old(self).wf(),
            old(self).lost_bytes + lost_bytes <= u64::MAX,
        ensures
            *final(self) == old(self).congested(lost_bytes),
            final(self).wf(),
            lost_bytes == 0 ==> final(self).recovery_window == old(self).recovery_window,
            lost_bytes > 0 ==> final(self).recovery_window >= greater(
                old(self).cwnd,
                old(self).min_window(),
            ),
            lost_bytes > 0 && lost_bytes >= old(self).seeded_recovery() ==> {
                final(self).recovery_window == greater(old(self).cwnd, old(self).min_window())
            },
    {
        self.lost_bytes += lost_bytes;
        let acked: u64 = self.acked_bytes;
        self.update_recovery_window(acked, lost_bytes);
    }

    /// Takes over a new path MTU and raises the window to the new floor
    /// where it lay below.
    pub fn on_mtu_update(&mut self, new_mtu: u16)
        requires
            old(self).wf(),
            new_mtu > 0,
        ensures
            *final(self) == old(self).mtu_updated(new_mtu),
            final(self).wf(),
            final(self).cwnd >= old(self).cwnd,
            final(self).cwnd >= 4 * new_mtu,
    {
        self.current_mtu = new_mtu as u64;
        let floor: u64 = calculate_min_window(self.current_mtu);
        if self.cwnd < floor {
            self.cwnd = floor;
        }
    }

    /// A snapshot of what the controller allows. The pacing rate in bits
    /// per second has to fit in 64 bits.
    pub fn metrics(&self) -> (m: ControllerMetrics)
        requires
            self.wf(),
            self.pacing_rate * 8 <= u64::MAX,
        ensures
            m == self.snapshot(),
            m.congestion_window == self.effective_window(),
            m.ssthresh.is_none(),
            m.pacing_rate == Some((self.pacing_rate * 8) as u64),
    {
        ControllerMetrics {
            congestion_window: self.window(),
            ssthresh: None,
            pacing_rate: Some(self.pacing_rate * 8),
        }
    }
}

/// Marking the round touches nothing but the round's own fields.
pub proof fn lemma_round_marked(s: State, largest: Option<u64>)
    requires
        s.wf(),
    ensures
        ({
            let t = s.round_marked(largest);
            &&& t.wf()
            &&& t.round_start == s.round_starts(largest)
            &&& (!t.round_start ==> t.round_count == s.round_count)
            &&& (t.round_start && s.round_count < u64::MAX ==> t.round_count == s.round_count
                + 1)
            &&& t == (State {
                max_acked_packet_number: t.max_acked_packet_number,
                round_start: t.round_start,
                current_round_trip_end_packet_number: t.current_round_trip_end_packet_number,
                round_count: t.round_count,
                ..s
            })
        }),
{
}

/// The rule of the mode keeps a state well formed and its latch set, and
/// touches neither the windows nor the rates nor the round.
pub proof fn lemma_moved(s: State, now: Instant, in_flight: u64, draw: u8)
    requires
        s.wf(),
        draw < CYCLE_DRAWS,
    ensures
        ({
            let t = s.moved(now, in_flight, draw);
            &&& t.wf()
            &&& (s.full_pipe ==> t.full_pipe)
            &&& t.cwnd == s.cwnd
            &&& t.recovery_window == s.recovery_window
            &&& t.pacing_rate == s.pacing_rate
            &&& t.current_mtu == s.current_mtu
            &&& t.round_start == s.round_start
            &&& t.round_count == s.round_count
        }),
{
}

/// The periodic check keeps a state well formed and touches neither the
/// latch nor the windows nor the rates nor the round.
pub proof fn lemma_rtt_probed(s: State, now: Instant)
    requires
        s.wf(),
    ensures
        ({
            let t = s.rtt_probed(now);
            &&& t.wf()
            &&& t.full_pipe == s.full_pipe
            &&& t.cwnd == s.cwnd
            &&& t.recovery_window == s.recovery_window
            &&& t.pacing_rate == s.pacing_rate
            &&& t.current_mtu == s.current_mtu
            &&& t.round_start == s.round_start
            &&& t.round_count == s.round_count
        }),
{
}

/// Recomputing rate and window keeps a state well formed, leaves the
/// window at or above its floor, and touches neither the mode nor the
/// latch nor the recovery window nor the round.
pub proof fn lemma_paced_and_windowed(
    s: State,
    initial_window: u64,
    sample: BandwidthSample,
)
    requires
        s.wf(),
    ensures
        ({
            let t = s.paced(sample.estimate).windowed(
                initial_window,
                sample.estimate,
                sample.bytes_acked,
            );
            &&& t.wf()
            &&& t.cwnd >= 4 * t.current_mtu
            &&& (sample.estimate != 0 ==> t.pacing_rate >= 100 * t.current_mtu)
            &&& (sample.estimate == 0 ==> t.pacing_rate == s.pacing_rate)
            &&& t.mode == s.mode
            &&& t.full_pipe == s.full_pipe
            &&& t.recovery_window == s.recovery_window
            &&& t.current_mtu == s.current_mtu
            &&& t.round_start == s.round_start
            &&& t.round_count == s.round_count
        }),
{
}

/// What closing a batch leaves behind, whatever the state was and whether
/// or not its counts fit: a well-formed state, the window at or above its
/// floor, the latch kept, and the counts of the batch at zero; and the
/// round counted where one began, as long as the count was not at its
/// largest.
pub proof fn lemma_batch_closed(
    s: State,
    now: Instant,
    in_flight: u64,
    largest: Option<u64>,
    initial_window: u64,
    sample: BandwidthSample,
    draw: u8,
)
    requires
        s.wf(),
        draw < CYCLE_DRAWS,
    ensures
        ({
            let t = s.batch_closed(now, in_flight, largest, initial_window, sample, draw);
            &&& t.wf()
            &&& t.cwnd >= 4 * t.current_mtu
            &&& t.effective_window() >= 1
            &&& t.round_start == s.round_starts(largest)
            &&& (!t.round_start ==> t.round_count == s.round_count)
            &&& (t.round_start && s.round_count < u64::MAX ==> t.round_count == s.round_count
                + 1)
            &&& (t.mode == Mode::Drain ==> t.full_pipe)
            &&& (s.full_pipe ==> t.full_pipe)
            &&& (sample.estimate != 0 ==> t.pacing_rate >= 100 * t.current_mtu)
            &&& (sample.estimate == 0 ==> t.pacing_rate == s.pacing_rate)
            &&& t.recovery_window == s.recovery_window
            &&& t.current_mtu == s.current_mtu
            &&& t.acked_bytes == 0
            &&& t.lost_bytes == 0
        }),
{
    let marked = s.round_marked(largest);
    let moved = marked.moved(now, in_flight, draw);
    let probed = moved.rtt_probed(now);
    let windowed = probed.paced(sample.estimate).windowed(
        initial_window,
        sample.estimate,
        sample.bytes_acked,
    );
    lemma_round_marked(s, largest);
    lemma_moved(marked, now, in_flight, draw);
    lemma_rtt_probed(moved, now);
    lemma_paced_and_windowed(probed, initial_window, sample);
    assert(s.batch_closed(now, in_flight, largest, initial_window, sample, draw) == (State {
        acked_bytes: 0,
        lost_bytes: 0,
        ..windowed
    }));
}

/// The draw bears on nothing but the position in the gain cycle and the
/// pacing gain that goes with it.
pub proof fn lemma_draw_is_immaterial(s: State, now: Instant, in_flight: u64, draw: u8)
    ensures
        s.moved(now, in_flight, draw) == (State {
            current_cycle_offset: s.moved(now, in_flight, draw).current_cycle_offset,
            pacing_gain: s.moved(now, in_flight, draw).pacing_gain,
            ..s.moved(now, in_flight, 0)
        }),
        !s.enters_probe_bw(now, in_flight) ==> s.moved(now, in_flight, draw) == s.moved(
            now,
            in_flight,
            0,
        ),
{
}

} // verus!
