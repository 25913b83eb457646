//! The controller's state as a plain record, and what makes it well formed.

use crate::gain::{Gain, GAIN_CYCLE_LEN};
use crate::time::{Duration, Instant};
use vstd::prelude::*;

verus! {

/// The largest path MTU, in bytes, that a controller can be given.
pub const MAX_MTU: u64 = 65_535;

/// The smallest congestion window, counted in datagrams of the path MTU.
pub const MIN_WINDOW_PACKETS: u64 = 4;

/// The lowest pacing rate, counted in datagrams of the path MTU per second.
pub const MIN_PACING_PACKETS: u64 = 100;

/// The four control states of the controller.
#[derive(Clone, Copy, Debug, PartialEq, Eq, Structural)]
pub enum Mode {
    /// Grow fast until the bottleneck bandwidth has been found.
    Startup,
    /// Drain the queue that start-up built.
    Drain,
    /// Steady state: cycle the pacing gain to probe for more bandwidth.
    ProbeBw,
    /// Hold the data in flight low to measure the base round-trip time.
    ProbeRtt,
}

/// Everything the controller remembers, as plain values.
///
/// The fields are public so that a state can be inspected and written down;
/// the operations ask for a state that is [`wf`](State::wf) and keep it so.
#[derive(Clone, Copy, Debug, PartialEq, Eq)]
pub struct State {
    /// Path MTU in bytes.
    pub current_mtu: u64,
    /// Smallest round-trip time seen; zero while none was seen.
    pub min_rtt: Duration,
    /// Bandwidth-delay product in bytes, as last computed.
    pub bdp: u64,
    /// Upper bound on the bytes allowed in flight.
    pub inflight_hi: u64,
    /// Lower bound on the bytes allowed in flight.
    pub inflight_lo: u64,
    /// Upper bound on the bandwidth; kept, not yet consulted.
    pub bw_hi: u64,
    /// Lower bound on the bandwidth; kept, not yet consulted.
    pub bw_lo: u64,
    /// The control state.
    pub mode: Mode,
    /// How often the gain cycle has advanced.
    pub cycle_count: u64,
    /// When the gain cycle last advanced or was entered.
    pub last_cycle_start: Option<Instant>,
    /// Position in the gain cycle.
    pub current_cycle_offset: u8,
    /// Multiplier from bandwidth to pacing rate.
    pub pacing_gain: Gain,
    /// Multiplier from bandwidth-delay product to target window.
    pub cwnd_gain: Gain,
    /// Bytes acknowledged in the batch under way.
    pub acked_bytes: u64,
    /// Bytes lost in the batch under way.
    pub lost_bytes: u64,
    /// Bytes sent so far.
    pub sent_bytes: u64,
    /// Bytes delivered so far.
    pub delivered_bytes: u64,
    /// Largest packet number acknowledged.
    pub max_acked_packet_number: u64,
    /// Largest packet number sent.
    pub max_sent_packet_number: u64,
    /// The packet number whose acknowledgment ends the round under way.
    pub current_round_trip_end_packet_number: u64,
    /// How many rounds have begun.
    pub round_count: u64,
    /// When the last acknowledgment arrived.
    pub last_ack_time: Option<Instant>,
    /// When the round-trip time was last probed.
    pub last_probe_rtt: Option<Instant>,
    /// When to leave `ProbeRtt`, once that is armed.
    pub exit_probe_rtt_at: Option<Instant>,
    /// Congestion window in bytes.
    pub cwnd: u64,
    /// Pacing rate in bytes per second.
    pub pacing_rate: u64,
    /// Window after loss; zero while none is active.
    pub recovery_window: u64,
    /// Latched once the bottleneck bandwidth has been found.
    pub full_pipe: bool,
    /// Whether the batch last closed began a round.
    pub round_start: bool,
}

impl State {
    /// The state of a controller before any event, for a window of
    /// `initial_window` bytes and a path MTU of `current_mtu` bytes.
    pub open spec fn initial(initial_window: u64, current_mtu: u64) -> State {
        State {
            current_mtu,
            min_rtt: Duration { nanos: 0 },
            bdp: 0,
            inflight_hi: u64::MAX,
            inflight_lo: 0,
            bw_hi: u64::MAX,
            bw_lo: 0,
            mode: Mode::Startup,
            cycle_count: 0,
            last_cycle_start: None,
            current_cycle_offset: 0,
            pacing_gain: Gain::high_spec(),
            cwnd_gain: Gain::high_spec(),
            acked_bytes: 0,
            lost_bytes: 0,
            sent_bytes: 0,
            delivered_bytes: 0,
            max_acked_packet_number: 0,
            max_sent_packet_number: 0,
            current_round_trip_end_packet_number: 0,
            round_count: 0,
            last_ack_time: None,
            last_probe_rtt: None,
            exit_probe_rtt_at: None,
            cwnd: initial_window,
            pacing_rate: 0,
            recovery_window: 0,
            full_pipe: false,
            round_start: false,
        }
    }

    /// Gains as the mode prescribes them, and what each mode presupposes.
    pub open spec fn mode_consistent(self) -> bool {
        match self.mode {
            Mode::Startup => {
                &&& self.pacing_gain == Gain::high_spec()
                &&& self.cwnd_gain == Gain::high_spec()
            },
            Mode::Drain => {
                &&& self.pacing_gain == Gain::drain_spec()
                &&& self.cwnd_gain == Gain::high_spec()
                &&& self.full_pipe
            },
            Mode::ProbeBw => {
                &&& self.pacing_gain == Gain::cycle_spec(self.current_cycle_offset)
                &&& self.cwnd_gain == Gain::probe_bw_window_spec()
                &&& self.full_pipe
                &&& self.last_cycle_start.is_some()
            },
            Mode::ProbeRtt => {
                &&& self.pacing_gain == Gain::unity_spec()
                &&& (self.cwnd_gain == Gain::high_spec() || self.cwnd_gain
                    == Gain::probe_bw_window_spec())
                &&& self.last_probe_rtt.is_some()
            },
        }
    }

    /// What holds of every state that the operations produce.
    pub open spec fn wf(self) -> bool {
        &&& 0 < self.current_mtu <= MAX_MTU
        &&& self.current_cycle_offset < GAIN_CYCLE_LEN
        &&& self.inflight_lo <= self.inflight_hi
        &&& self.mode_consistent()
    }

    /// The floor of the congestion window: four datagrams of the path MTU.
    pub open spec fn min_window(self) -> u64 {
        min_window_of(self.current_mtu)
    }

    /// The window that the transport may fill: the floor while in
    /// `ProbeRtt`; else the smaller of the congestion window and an active
    /// recovery window.
    pub open spec fn effective_window(self) -> u64 {
        if self.mode == Mode::ProbeRtt {
            self.min_window()
        } else if self.recovery_window > 0 {
            lesser(self.cwnd, self.recovery_window)
        } else {
            self.cwnd
        }
    }

    /// The state of a controller before any event.
    pub fn new(initial_window: u64, current_mtu: u16) -> (s: State)
        requires
            current_mtu > 0,
        ensures
            s == State::initial(initial_window, current_mtu as u64),
            s.wf(),
            s.mode == Mode::Startup,
            !s.full_pipe,
            s.effective_window() == initial_window,
    {
        State {
            current_mtu: current_mtu as u64,
            min_rtt: Duration::from_nanos(0),
            bdp: 0,
            inflight_hi: u64::MAX,
            inflight_lo: 0,
            bw_hi: u64::MAX,
            bw_lo: 0,
            mode: Mode::Startup,
            cycle_count: 0,
            last_cycle_start: None,
            current_cycle_offset: 0,
            pacing_gain: Gain::high(),
            cwnd_gain: Gain::high(),
            acked_bytes: 0,
            lost_bytes: 0,
            sent_bytes: 0,
            delivered_bytes: 0,
            max_acked_packet_number: 0,
            max_sent_packet_number: 0,
            current_round_trip_end_packet_number: 0,
            round_count: 0,
            last_ack_time: None,
            last_probe_rtt: None,
            exit_probe_rtt_at: None,
            cwnd: initial_window,
            pacing_rate: 0,
            recovery_window: 0,
            full_pipe: false,
            round_start: false,
        }
    }

    /// The window that the transport may fill.
    pub fn window(&self) -> (w: u64)
        requires
            self.wf(),
        ensures
            w == self.effective_window(),
            self.mode == Mode::ProbeRtt ==> w == 4 * self.current_mtu,
    {
        if self.mode == Mode::ProbeRtt {
            calculate_min_window(self.current_mtu)
        } else if self.recovery_window > 0 {
            if self.cwnd < self.recovery_window {
                self.cwnd
            } else {
                self.recovery_window
            }
        } else {
            self.cwnd
        }
    }
}

/// The smaller of two counts.
pub open spec fn lesser(a: u64, b: u64) -> u64 {
    if a <= b {
        a
    } else {
        b
    }
}

/// The larger of two counts.
pub open spec fn greater(a: u64, b: u64) -> u64 {
    if a >= b {
        a
    } else {
        b
    }
}

/// Four datagrams of `current_mtu` bytes, as a mathematical statement over
/// machine integers: meaningful while the product fits.
pub open spec fn min_window_of(current_mtu: u64) -> u64 {
    (MIN_WINDOW_PACKETS * current_mtu) as u64
}

/// The floor of the congestion window for a path MTU of `current_mtu` bytes.
pub fn calculate_min_window(current_mtu: u64) -> (w: u64)
    requires
        MIN_WINDOW_PACKETS * current_mtu <= u64::MAX,
    ensures
        w == MIN_WINDOW_PACKETS * current_mtu,
        w == min_window_of(current_mtu),
{
    MIN_WINDOW_PACKETS * current_mtu
}

} // verus!
