//! The controller as the transport holds it: the state, the shared
//! configuration and the generator for the gain cycle.

use crate::entropy::{draw_below, duplicate, os_seeded, seeded_from};
use crate::events::{BandwidthSample, ControllerMetrics};
use crate::gain::GAIN_CYCLE_LEN;
use crate::state::{Mode, State};
use crate::time::{Duration, Instant};
use crate::transition::CYCLE_DRAWS;
use std::sync::Arc;
use vstd::prelude::*;

verus! {

/// The size in bytes of the datagram that every path carries.
pub const BASE_DATAGRAM_SIZE: u64 = 1200;

/// The default initial window, counted in base datagrams.
pub const K_MAX_INITIAL_CONGESTION_WINDOW: u64 = 200;

/// The seed of the generator where the operating system gives no entropy.
pub const FALLBACK_SEED: u64 = 0;

/// Configuration of a [`BbrV2`] controller.
#[derive(Debug, Clone, Copy)]
pub struct BbrV2Config {
    initial_window: u64,
}

impl BbrV2Config {
    /// The configured initial congestion window, in bytes.
    pub closed spec fn spec_initial_window(&self) -> u64 {
        self.initial_window
    }

    /// Sets the initial congestion window to `value` bytes.
    pub fn initial_window(&mut self, value: u64) -> (config: &mut Self)
        ensures
            config.spec_initial_window() == value,
            *final(self) == *final(config),
    {
        self.initial_window = value;
        self
    }

    /// The configured initial congestion window, in bytes.
    pub fn get_initial_window(&self) -> (value: u64)
        ensures
            value == self.spec_initial_window(),
    {
        self.initial_window
    }

    /// A fresh controller for a path of MTU `current_mtu` that shares this
    /// configuration.
    pub fn build(self: Arc<Self>, _now: Instant, current_mtu: u16) -> (controller: Box<BbrV2>)
        requires
            current_mtu > 0,
        ensures
            controller.config() == *self,
            controller@ == State::initial(self.spec_initial_window(), current_mtu as u64),
            controller@.wf(),
    {
        Box::new(BbrV2::new(self, current_mtu))
    }
}

impl Default for BbrV2Config {
    /// The configuration with the default initial window of 200 base
    /// datagrams.
    fn default() -> (config: Self)
        ensures
            config.spec_initial_window() == K_MAX_INITIAL_CONGESTION_WINDOW * BASE_DATAGRAM_SIZE,
    {
        BbrV2Config { initial_window: K_MAX_INITIAL_CONGESTION_WINDOW * BASE_DATAGRAM_SIZE }
    }
}

/// A BBR-style congestion controller for one path.
///
/// Its state is the [`State`] that [`view`](BbrV2::view) returns, written
/// `self@` in contracts; every state it can be in is
/// [well formed](State::wf).
pub struct BbrV2 {
    config: Arc<BbrV2Config>,
    state: State,
    random_number_generator: rand::rngs::StdRng,
}

impl View for BbrV2 {
    type V = State;

    closed spec fn view(&self) -> State {
        self.state
    }
}

impl BbrV2 {
    #[verifier::type_invariant]
    spec fn well_formed(&self) -> bool {
        self.state.wf()
    }

    /// The configuration that this controller shares.
    pub closed spec fn config(&self) -> BbrV2Config {
        *self.config
    }

    /// A fresh controller for a path of MTU `current_mtu`.
    ///
    /// The generator for the gain cycle is seeded from the operating
    /// system; where the system gives no entropy it starts from a fixed
    /// seed.
    pub fn new(config: Arc<BbrV2Config>, current_mtu: u16) -> (controller: Self)
        requires
            current_mtu > 0,
        ensures
            controller.config() == *config,
            controller@ == State::initial(config.spec_initial_window(), current_mtu as u64),
            controller@.wf(),
            controller@.mode == Mode::Startup,
            controller@.effective_window() == config.spec_initial_window(),
    {
        let state = State::new(config.initial_window, current_mtu);
        let random_number_generator = match os_seeded() {
            Some(rng) => rng,
            None => seeded_from(FALLBACK_SEED),
        };
        BbrV2 { config, state, random_number_generator }
    }

    /// Draws where the gain cycle begins. The generator is advanced on a
    /// copy that then takes its place: a field of a value with a type
    /// invariant is not lent out mutably.
    fn draw_cycle_start(&mut self) -> (draw: u8)
        ensures
            draw < CYCLE_DRAWS,
            final(self)@ == old(self)@,
            final(self).config() == old(self).config(),
    {
        proof {
            use_type_invariant(&*self);
        }
        let mut generator = duplicate(&self.random_number_generator);
        let draw = draw_below(&mut generator, CYCLE_DRAWS);
        self.random_number_generator = generator;
        draw
    }

    /// The controller's state.
    pub fn state(&self) -> (s: State)
        ensures
            s == self@,
            s.wf(),
    {
        proof {
            use_type_invariant(self);
        }
        self.state
    }

    /// Records that `bytes` bytes were sent, the last of them in packet
    /// `last_packet_number`.
    pub fn on_sent(&mut self, now: Instant, bytes: u64, last_packet_number: u64)
        requires
            old(self)@.sent_bytes + bytes <= u64::MAX,
        ensures
            final(self)@ == old(self)@.sent(bytes, last_packet_number),
            final(self).config() == old(self).config(),
            final(self)@.wf(),
    {
        proof {
            use_type_invariant(&*self);
        }
        let mut state = self.state;
        state.on_sent(now, bytes, last_packet_number);
        self.state = state;
    }

    /// Records that `bytes` bytes were acknowledged at `now`, and takes
    /// over `rtt_min`, the minimum round-trip time that the round-trip
    /// estimator reports, where it is smaller than the one held.
    pub fn on_ack(
        &mut self,
        now: Instant,
        sent: Instant,
        bytes: u64,
        app_limited: bool,
        rtt_min: Duration,
    )
        requires
            old(self)@.acked_bytes + bytes <= u64::MAX,
            old(self)@.delivered_bytes + bytes <= u64::MAX,
        ensures
            final(self)@ == old(self)@.acked(now, bytes, rtt_min),
            final(self).config() == old(self).config(),
            final(self)@.wf(),
    {
        proof {
            use_type_invariant(&*self);
        }
        let mut state = self.state;
        state.on_ack(now, sent, bytes, app_limited, rtt_min);
        self.state = state;
    }

    /// Closes a batch of acknowledgments, given what the bandwidth
    /// estimator reports at its close.
    ///
    /// Where the batch takes the controller into `ProbeBw`, the position
    /// at which the gain cycle begins is drawn from the generator: the
    /// state is then the one that [`State::batch_closed`] gives for some
    /// draw below [`CYCLE_DRAWS`]. In every other case the draw has no
    /// part and the state is fixed by the arguments. The counts that the
    /// batch raises have to stay within 64 bits, which
    /// [`State::can_end_acks`] tells of the state before the call.
    pub fn on_end_acks(
        &mut self,
        now: Instant,
        in_flight: u64,
        app_limited: bool,
        largest_packet_num_acked: Option<u64>,
        sample: BandwidthSample,
    )
        requires
            old(self)@.batch_fits(now, in_flight, largest_packet_num_acked, sample.bytes_acked),
        ensures
            exists|draw: u8|
                draw < CYCLE_DRAWS && final(self)@ == #[trigger] old(self)@.batch_closed(
                    now,
                    in_flight,
                    largest_packet_num_acked,
                    old(self).config().spec_initial_window(),
                    sample,
                    draw,
                ),
            !old(self)@.enters_probe_bw(now, in_flight) ==> final(self)@ == old(self)@.batch_closed(
                now,
                in_flight,
                largest_packet_num_acked,
                old(self).config().spec_initial_window(),
                sample,
                0,
            ),
            final(self).config() == old(self).config(),
            final(self)@.wf(),
            final(self)@.cwnd >= 4 * final(self)@.current_mtu,
            final(self)@.effective_window() >= 1,
            final(self)@.round_start == old(self)@.round_starts(largest_packet_num_acked),
            final(self)@.round_count == old(self)@.round_count + if final(self)@.round_start {
                1int
            } else {
                0int
            },
            final(self)@.mode == Mode::Drain ==> final(self)@.full_pipe,
            old(self)@.full_pipe ==> final(self)@.full_pipe,
            sample.estimate != 0 ==> final(self)@.pacing_rate >= 100 * final(self)@.current_mtu,
            old(self)@.enters_probe_bw(now, in_flight) ==> {
                &&& final(self)@.current_cycle_offset < GAIN_CYCLE_LEN
                &&& final(self)@.current_cycle_offset != 1
            },
    {
        proof {
            use_type_invariant(&*self);
        }
        let draw: u8 = if self.state.will_enter_probe_bw(now, in_flight) {
            self.draw_cycle_start()
        } else {
            0
        };
        let mut state = self.state;
        state.on_end_acks(
            now,
            in_flight,
            app_limited,
            largest_packet_num_acked,
            self.config.initial_window,
            sample,
            draw,
        );
        self.state = state;
    }

    /// Records `lost_bytes` lost bytes and lowers the recovery window by
    /// them.
    pub fn on_congestion_event(
        &mut self,
        now: Instant,
        sent: Instant,
        is_persistent_congestion: bool,
        lost_bytes: u64,
    )
        requires
            old(self)@.lost_bytes + lost_bytes <= u64::MAX,
        ensures
            final(self)@ == old(self)@.congested(lost_bytes),
            final(self).config() == old(self).config(),
            final(self)@.wf(),
    {
        proof {
            use_type_invariant(&*self);
        }
        let mut state = self.state;
        state.on_congestion_event(now, sent, is_persistent_congestion, lost_bytes);
        self.state = state;
    }

    /// Takes over a new path MTU and raises the window to the new floor
    /// where it lay below.
    pub fn on_mtu_update(&mut self, new_mtu: u16)
        requires
            new_mtu > 0,
        ensures
            final(self)@ == old(self)@.mtu_updated(new_mtu),
            final(self).config() == old(self).config(),
            final(self)@.wf(),
            final(self)@.cwnd >= old(self)@.cwnd,
            final(self)@.cwnd >= 4 * new_mtu,
    {
        proof {
            use_type_invariant(&*self);
        }
        let mut state = self.state;
        state.on_mtu_update(new_mtu);
        self.state = state;
    }

    /// The window that the transport may fill: the floor while in
    /// `ProbeRtt`; else the smaller of the congestion window and an active
    /// recovery window.
    pub fn window(&self) -> (w: u64)
        ensures
            w == self@.effective_window(),
            self@.mode == Mode::ProbeRtt ==> w == 4 * self@.current_mtu,
    {
        proof {
            use_type_invariant(self);
        }
        self.state.window()
    }

    /// A snapshot of what the controller allows.
    pub fn metrics(&self) -> (m: ControllerMetrics)
        requires
            self@.pacing_rate * 8 <= u64::MAX,
        ensures
            m == self@.snapshot(),
    {
        proof {
            use_type_invariant(self);
        }
        self.state.metrics()
    }

    /// The configured initial window, whatever has happened since.
    pub fn initial_window(&self) -> (w: u64)
        ensures
            w == self.config().spec_initial_window(),
    {
        self.config.initial_window
    }

    /// An independent copy of this controller on the heap.
    pub fn clone_box(&self) -> (copy: Box<BbrV2>)
        ensures
            copy@ == self@,
            copy.config() == self.config(),
            copy.config().spec_initial_window() == self.config().spec_initial_window(),
            copy@.effective_window() == self@.effective_window(),
            copy@.snapshot() == self@.snapshot(),
    {
        Box::new(self.clone())
    }
}

impl Clone for BbrV2 {
    /// An independent copy: the same state, the same shared configuration,
    /// and a generator in the same internal state, so that the two draw
    /// the same values until one of them is advanced alone.
    fn clone(&self) -> (copy: Self)
        ensures
            copy@ == self@,
            copy.config() == self.config(),
            copy.config().spec_initial_window() == self.config().spec_initial_window(),
            copy@.effective_window() == self@.effective_window(),
            copy@.snapshot() == self@.snapshot(),
    {
        proof {
            use_type_invariant(self);
        }
        BbrV2 {
            config: self.config.clone(),
            state: self.state,
            random_number_generator: duplicate(&self.random_number_generator),
        }
    }
}

} // verus!
