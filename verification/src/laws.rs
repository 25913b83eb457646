//! What holds of every state that a controller can reach.
//!
//! A run of the controller is a sequence of [`Event`]s applied to its
//! initial state. The laws below are proved of every run whose events the
//! operations admit.

use crate::events::{lemma_batch_closed, lemma_round_marked, BandwidthSample, ControllerMetrics};
use crate::gain::{Gain, GAIN_CYCLE_LEN};
use crate::state::{Mode, State, MAX_MTU};
use crate::time::{Duration, Instant};
use crate::transition::{cycle_start, CYCLE_DRAWS};
use vstd::prelude::*;

verus! {

/// One call of an operation that changes the controller, with its
/// arguments.
pub enum Event {
    /// [`State::on_sent`].
    Sent { bytes: u64, last_packet_number: u64 },
    /// [`State::on_ack`].
    Ack { now: Instant, bytes: u64, rtt_min: Duration },
    /// [`State::on_end_acks`].
    EndAcks { now: Instant, in_flight: u64, largest: Option<u64>, sample: BandwidthSample, draw: u8 },
    /// [`State::on_congestion_event`].
    Congestion { lost_bytes: u64 },
    /// [`State::on_mtu_update`].
    MtuUpdate { new_mtu: u16 },
}

impl Event {
    /// Whether the arguments of the event are ones that its operation
    /// takes in any state: a draw within its range, an MTU above zero.
    pub open spec fn valid(self) -> bool {
        match self {
            Event::EndAcks { draw, .. } => draw < CYCLE_DRAWS,
            Event::MtuUpdate { new_mtu } => new_mtu > 0,
            _ => true,
        }
    }
}

impl State {
    /// Whether the operation behind `event` may be called in this state:
    /// the event is valid, and every count that it raises stays within 64
    /// bits.
    pub open spec fn admits(self, event: Event) -> bool {
        &&& event.valid()
        &&& match event {
            Event::Sent { bytes, .. } => self.sent_bytes + bytes <= u64::MAX,
            Event::Ack { bytes, .. } => {
                &&& self.acked_bytes + bytes <= u64::MAX
                &&& self.delivered_bytes + bytes <= u64::MAX
            },
            Event::EndAcks { now, in_flight, largest, sample, .. } => self.batch_fits(
                now,
                in_flight,
                largest,
                sample.bytes_acked,
            ),
            Event::Congestion { lost_bytes } => self.lost_bytes + lost_bytes <= u64::MAX,
            Event::MtuUpdate { .. } => true,
        }
    }

    /// The state after the operation behind `event`, for a controller
    /// configured with `initial_window`.
    pub open spec fn after(self, initial_window: u64, event: Event) -> State {
        match event {
            Event::Sent { bytes, last_packet_number } => self.sent(bytes, last_packet_number),
            Event::Ack { now, bytes, rtt_min } => self.acked(now, bytes, rtt_min),
            Event::EndAcks { now, in_flight, largest, sample, draw } => self.batch_closed(
                now,
                in_flight,
                largest,
                initial_window,
                sample,
                draw,
            ),
            Event::Congestion { lost_bytes } => self.congested(lost_bytes),
            Event::MtuUpdate { new_mtu } => self.mtu_updated(new_mtu),
        }
    }

    /// The state after `events`, one after the other.
    pub open spec fn run(self, initial_window: u64, events: Seq<Event>) -> State
        decreases events.len(),
    {
        if events.len() == 0 {
            self
        } else {
            self.run(initial_window, events.drop_last()).after(initial_window, events.last())
        }
    }

    /// Whether each of `events` is admitted by the state that the events
    /// before it lead to.
    pub open spec fn admits_all(self, initial_window: u64, events: Seq<Event>) -> bool
        decreases events.len(),
    {
        if events.len() == 0 {
            true
        } else {
            &&& self.admits_all(initial_window, events.drop_last())
            &&& self.run(initial_window, events.drop_last()).admits(events.last())
        }
    }
}

/// A fresh state: in `Startup` with the latch clear, both gains at 2.885,
/// the window at the configured initial window and not raised to any
/// floor, no round-trip time seen, every count at zero and no window after
/// loss.
pub proof fn law_fresh_state(initial_window: u64, current_mtu: u64)
    requires
        0 < current_mtu <= MAX_MTU,
    ensures
        ({
            let s = State::initial(initial_window, current_mtu);
            &&& s.wf()
            &&& s.mode == Mode::Startup
            &&& !s.full_pipe
            &&& !s.round_start
            &&& s.round_count == 0
            &&& s.cycle_count == 0
            &&& s.pacing_gain == Gain::high_spec()
            &&& s.cwnd_gain == Gain::high_spec()
            &&& s.current_mtu == current_mtu
            &&& s.cwnd == initial_window
            &&& s.effective_window() == initial_window
            &&& s.bdp == 0
            &&& s.pacing_rate == 0
            &&& s.recovery_window == 0
            &&& s.min_rtt.nanos == 0
            &&& s.inflight_lo == 0
            &&& s.inflight_hi == u64::MAX
            &&& s.acked_bytes == 0
            &&& s.lost_bytes == 0
            &&& s.sent_bytes == 0
            &&& s.delivered_bytes == 0
        }),
{
}

/// The first acknowledgment after none gives the controller its minimum
/// round-trip time: whatever the estimator reports is taken over. After
/// that a report is taken over only where it is smaller.
pub proof fn law_first_ack_sets_min_rtt(s: State, now: Instant, bytes: u64, rtt_min: Duration)
    ensures
        s.min_rtt.nanos == 0 ==> s.acked(now, bytes, rtt_min).min_rtt == rtt_min,
        s.min_rtt.nanos != 0 && rtt_min.nanos < s.min_rtt.nanos ==> s.acked(
            now,
            bytes,
            rtt_min,
        ).min_rtt == rtt_min,
        s.min_rtt.nanos != 0 && rtt_min.nanos >= s.min_rtt.nanos ==> s.acked(
            now,
            bytes,
            rtt_min,
        ).min_rtt == s.min_rtt,
        State::initial(s.cwnd, s.current_mtu).acked(now, bytes, rtt_min).min_rtt == rtt_min,
{
}

/// An acknowledgment or a send touches neither the round nor the mode nor
/// the latch nor any window or rate.
pub proof fn law_ack_and_send_frame(s: State, initial_window: u64, event: Event)
    requires
        event is Ack || event is Sent,
    ensures
        ({
            let t = s.after(initial_window, event);
            &&& t.round_count == s.round_count
            &&& t.round_start == s.round_start
            &&& t.mode == s.mode
            &&& t.full_pipe == s.full_pipe
            &&& t.cwnd == s.cwnd
            &&& t.pacing_rate == s.pacing_rate
            &&& t.recovery_window == s.recovery_window
            &&& t.max_acked_packet_number == s.max_acked_packet_number
            &&& t.current_round_trip_end_packet_number == s.current_round_trip_end_packet_number
            &&& (event is Ack ==> t.max_sent_packet_number == s.max_sent_packet_number)
        }),
{
}

/// How a batch accounts for the round: it begins one exactly where it
/// acknowledges a packet beyond the end of the round under way; then that
/// end moves to the last packet sent and the count goes up by one.
pub proof fn law_round_accounting(
    s: State,
    now: Instant,
    in_flight: u64,
    largest: Option<u64>,
    initial_window: u64,
    sample: BandwidthSample,
    draw: u8,
)
    requires
        s.wf(),
        draw < CYCLE_DRAWS,
        s.round_starts(largest) ==> s.round_count < u64::MAX,
    ensures
        ({
            let t = s.batch_closed(now, in_flight, largest, initial_window, sample, draw);
            &&& t.max_acked_packet_number == s.acked_up_to(largest)
            &&& t.round_start == (s.acked_up_to(largest)
                > s.current_round_trip_end_packet_number)
            &&& t.round_count == s.round_count + if t.round_start {
                1int
            } else {
                0int
            }
            &&& t.current_round_trip_end_packet_number == if t.round_start {
                s.max_sent_packet_number
            } else {
                s.current_round_trip_end_packet_number
            }
            &&& t.max_sent_packet_number == s.max_sent_packet_number
        }),
{
    lemma_round_marked(s, largest);
    lemma_batch_closed(s, now, in_flight, largest, initial_window, sample, draw);
}

/// In `Startup`, with no probe of the round-trip time due: a batch that
/// begins a round while the pipe is full, or becomes full in that batch,
/// ends in `Drain` with the latch set, pacing at 1 / 2.885 and the window
/// gain at 2.885.
pub proof fn law_startup_drains_at_round_start(
    s: State,
    now: Instant,
    in_flight: u64,
    largest: Option<u64>,
    initial_window: u64,
    sample: BandwidthSample,
    draw: u8,
)
    requires
        s.wf(),
        draw < CYCLE_DRAWS,
        s.mode == Mode::Startup,
        s.full_pipe || (s.bdp > 0 && s.delivered_bytes > s.full_pipe_threshold()),
        s.round_starts(largest),
        !s.probe_rtt_due(now),
    ensures
        ({
            let t = s.batch_closed(now, in_flight, largest, initial_window, sample, draw);
            &&& t.mode == Mode::Drain
            &&& t.full_pipe
            &&& t.round_start
            &&& t.pacing_gain == Gain::drain_spec()
            &&& t.cwnd_gain == Gain::high_spec()
        }),
{
    lemma_round_marked(s, largest);
}

/// In `Startup`, with no probe of the round-trip time due: a batch that
/// begins no round stays in `Startup` with both gains at 2.885 and the
/// round count as it was, and sets the latch exactly where it was set
/// already or the delivered bytes exceed four fifths of the
/// bandwidth-delay product.
pub proof fn law_startup_waits_for_round_start(
    s: State,
    now: Instant,
    in_flight: u64,
    largest: Option<u64>,
    initial_window: u64,
    sample: BandwidthSample,
    draw: u8,
)
    requires
        s.wf(),
        draw < CYCLE_DRAWS,
        s.mode == Mode::Startup,
        !s.round_starts(largest),
        !s.probe_rtt_due(now),
    ensures
        ({
            let t = s.batch_closed(now, in_flight, largest, initial_window, sample, draw);
            &&& t.mode == Mode::Startup
            &&& t.pacing_gain == Gain::high_spec()
            &&& t.cwnd_gain == Gain::high_spec()
            &&& !t.round_start
            &&& t.round_count == s.round_count
            &&& t.full_pipe == (s.full_pipe || (s.bdp > 0 && s.delivered_bytes
                > s.full_pipe_threshold()))
        }),
{
    lemma_round_marked(s, largest);
}

/// In `Drain`, with no probe of the round-trip time due: a batch ends in
/// `ProbeBw` exactly where the bytes in flight are at most the
/// bandwidth-delay product held before the batch. The window gain is then
/// 2, the cycle begins at `now` at the position that the draw selects,
/// never the second, and the pacing gain is the one of that position.
pub proof fn law_drain_enters_probe_bw(
    s: State,
    now: Instant,
    in_flight: u64,
    largest: Option<u64>,
    initial_window: u64,
    sample: BandwidthSample,
    draw: u8,
)
    requires
        s.wf(),
        draw < CYCLE_DRAWS,
        s.mode == Mode::Drain,
        !s.probe_rtt_due(now),
    ensures
        ({
            let t = s.batch_closed(now, in_flight, largest, initial_window, sample, draw);
            &&& (in_flight > s.bdp ==> t.mode == Mode::Drain)
            &&& (in_flight <= s.bdp ==> {
                &&& t.mode == Mode::ProbeBw
                &&& t.cwnd_gain == Gain::probe_bw_window_spec()
                &&& t.last_cycle_start == Some(now)
                &&& t.current_cycle_offset == cycle_start(draw)
                &&& t.current_cycle_offset < GAIN_CYCLE_LEN
                &&& t.current_cycle_offset != 1
                &&& t.pacing_gain == Gain::cycle_spec(t.current_cycle_offset)
            })
        }),
{
    lemma_round_marked(s, largest);
}

/// In `ProbeBw` the gain cycle advances by one position, around the end
/// of the table, as soon as the minimum round-trip time or more has
/// passed since it last did, and not before.
pub proof fn law_cycle_advances_at_min_rtt(s: State, now: Instant, last: Instant)
    requires
        s.wf(),
        s.mode == Mode::ProbeBw,
        s.last_cycle_start == Some(last),
        s.cycle_count < u64::MAX,
    ensures
        now.since(last).nanos >= s.min_rtt.nanos ==> {
            &&& s.cycle_stepped(now).current_cycle_offset == (s.current_cycle_offset + 1) % 8
            &&& s.cycle_stepped(now).cycle_count == s.cycle_count + 1
            &&& s.cycle_stepped(now).last_cycle_start == Some(now)
            &&& s.cycle_stepped(now).pacing_gain == Gain::cycle_spec(
                s.cycle_stepped(now).current_cycle_offset,
            )
        },
        now.since(last).nanos < s.min_rtt.nanos ==> s.cycle_stepped(now) == s,
{
}

/// A congestion event that carries no loss changes nothing but the count
/// of lost bytes, which it leaves as it was: the recovery window is seeded
/// only by an event that carries loss.
pub proof fn law_no_loss_no_recovery(s: State)
    ensures
        s.congested(0) == s,
        s.recovered(0) == s,
{
}

/// Every operation keeps a well-formed state well formed.
pub proof fn law_step_keeps_wf(s: State, initial_window: u64, event: Event)
    requires
        s.wf(),
        event.valid(),
    ensures
        s.after(initial_window, event).wf(),
{
    match event {
        Event::EndAcks { now, in_flight, largest, sample, draw } => {
            lemma_batch_closed(s, now, in_flight, largest, initial_window, sample, draw);
        },
        _ => {},
    }
}

/// Every state that a fresh controller can reach is well formed.
pub proof fn law_reachable_wf(
    initial_window: u64,
    current_mtu: u64,
    events: Seq<Event>,
)
    requires
        0 < current_mtu <= MAX_MTU,
        State::initial(initial_window, current_mtu).admits_all(initial_window, events),
    ensures
        State::initial(initial_window, current_mtu).run(initial_window, events).wf(),
    decreases events.len(),
{
    if events.len() > 0 {
        law_reachable_wf(initial_window, current_mtu, events.drop_last());
        law_step_keeps_wf(
            State::initial(initial_window, current_mtu).run(initial_window, events.drop_last()),
            initial_window,
            events.last(),
        );
    }
}

/// No operation takes the effective window of a well-formed state from one
/// byte or more down to none.
pub proof fn law_step_keeps_window_positive(s: State, initial_window: u64, event: Event)
    requires
        s.wf(),
        event.valid(),
        s.effective_window() >= 1,
    ensures
        s.after(initial_window, event).effective_window() >= 1,
{
    match event {
        Event::EndAcks { now, in_flight, largest, sample, draw } => {
            lemma_batch_closed(s, now, in_flight, largest, initial_window, sample, draw);
        },
        _ => {},
    }
}

/// A controller whose initial window is at least one byte offers a window
/// of at least one byte in every state it can reach.
pub proof fn law_window_positive(initial_window: u64, current_mtu: u64, events: Seq<Event>)
    requires
        initial_window >= 1,
        0 < current_mtu <= MAX_MTU,
        State::initial(initial_window, current_mtu).admits_all(initial_window, events),
    ensures
        State::initial(initial_window, current_mtu).run(
            initial_window,
            events,
        ).effective_window() >= 1,
    decreases events.len(),
{
    if events.len() > 0 {
        let before = State::initial(initial_window, current_mtu).run(
            initial_window,
            events.drop_last(),
        );
        law_window_positive(initial_window, current_mtu, events.drop_last());
        law_reachable_wf(initial_window, current_mtu, events.drop_last());
        law_step_keeps_window_positive(before, initial_window, events.last());
    }
}

/// Closing a batch leaves the congestion window at or above four
/// datagrams of the path MTU, and the effective window at or above one
/// byte, whatever they were.
pub proof fn law_batch_floors_window(
    s: State,
    now: Instant,
    in_flight: u64,
    largest: Option<u64>,
    initial_window: u64,
    sample: BandwidthSample,
    draw: u8,
)
    requires
        s.wf(),
        draw < CYCLE_DRAWS,
    ensures
        s.batch_closed(now, in_flight, largest, initial_window, sample, draw).cwnd >= 4
            * s.current_mtu,
        s.batch_closed(now, in_flight, largest, initial_window, sample, draw).effective_window()
            >= 1,
{
    lemma_batch_closed(s, now, in_flight, largest, initial_window, sample, draw);
}

/// While the controller is in `ProbeRtt` its effective window is exactly
/// four datagrams of the path MTU, whatever the congestion window and the
/// recovery window hold.
pub proof fn law_probe_rtt_window(s: State)
    requires
        s.wf(),
        s.mode == Mode::ProbeRtt,
    ensures
        s.effective_window() == 4 * s.current_mtu,
{
}

/// What `metrics` returns is fixed by the state it is called in: two
/// snapshots of one state, with no event between them, are identical.
pub proof fn law_metrics_repeatable(s: State, first: ControllerMetrics, second: ControllerMetrics)
    requires
        first == s.snapshot(),
        second == s.snapshot(),
    ensures
        first == second,
        first.congestion_window == s.effective_window(),
        first.ssthresh.is_none(),
{
}

/// An active recovery window stays at or above four datagrams of the path
/// MTU through every event but a change of the MTU.
pub proof fn law_recovery_window_floor(s: State, initial_window: u64, event: Event)
    requires
        s.wf(),
        event.valid(),
        !(event is MtuUpdate),
        s.recovery_window == 0 || s.recovery_window >= 4 * s.current_mtu,
    ensures
        s.after(initial_window, event).recovery_window == 0 || s.after(
            initial_window,
            event,
        ).recovery_window >= 4 * s.after(initial_window, event).current_mtu,
        event matches Event::Congestion { lost_bytes } && lost_bytes > 0 ==> s.after(
            initial_window,
            event,
        ).recovery_window >= s.cwnd,
        event matches Event::Congestion { lost_bytes } && lost_bytes == 0 ==> s.after(
            initial_window,
            event,
        ).recovery_window == s.recovery_window,
{
    match event {
        Event::EndAcks { now, in_flight, largest, sample, draw } => {
            lemma_batch_closed(s, now, in_flight, largest, initial_window, sample, draw);
        },
        _ => {},
    }
}

/// The round count never goes down. It goes up only where a batch is
/// closed that begins a round, and then by exactly one.
pub proof fn law_round_count_step(s: State, initial_window: u64, event: Event)
    requires
        s.wf(),
        event.valid(),
        event matches Event::EndAcks { largest, .. } && s.round_starts(largest)
            ==> s.round_count < u64::MAX,
    ensures
        s.after(initial_window, event).round_count >= s.round_count,
        s.after(initial_window, event).round_count > s.round_count ==> {
            &&& event is EndAcks
            &&& s.after(initial_window, event).round_start
        },
        event is EndAcks && s.after(initial_window, event).round_start ==> s.after(
            initial_window,
            event,
        ).round_count == s.round_count + 1,
{
    match event {
        Event::EndAcks { now, in_flight, largest, sample, draw } => {
            lemma_batch_closed(s, now, in_flight, largest, initial_window, sample, draw);
        },
        _ => {},
    }
}

/// Over a run the round count never goes down: after any prefix of the
/// events it is at most what it is after all of them.
pub proof fn law_round_count_monotone(
    initial_window: u64,
    current_mtu: u64,
    events: Seq<Event>,
    prefix: int,
)
    requires
        0 < current_mtu <= MAX_MTU,
        0 <= prefix <= events.len(),
        State::initial(initial_window, current_mtu).admits_all(initial_window, events),
    ensures
        State::initial(initial_window, current_mtu).run(
            initial_window,
            events.take(prefix),
        ).round_count <= State::initial(initial_window, current_mtu).run(
            initial_window,
            events,
        ).round_count,
    decreases events.len(),
{
    if prefix == events.len() {
        assert(events.take(prefix) =~= events);
    } else {
        let shorter = events.drop_last();
        assert(shorter.take(prefix) =~= events.take(prefix));
        law_round_count_monotone(initial_window, current_mtu, shorter, prefix);
        law_reachable_wf(initial_window, current_mtu, shorter);
        law_round_count_step(
            State::initial(initial_window, current_mtu).run(initial_window, shorter),
            initial_window,
            events.last(),
        );
    }
}

/// The latch `full_pipe` is set only by closing a batch, and no operation
/// clears it.
pub proof fn law_full_pipe_latched(s: State, initial_window: u64, event: Event)
    requires
        s.wf(),
        event.valid(),
    ensures
        s.full_pipe ==> s.after(initial_window, event).full_pipe,
        !s.full_pipe && s.after(initial_window, event).full_pipe ==> event is EndAcks,
{
    match event {
        Event::EndAcks { now, in_flight, largest, sample, draw } => {
            lemma_batch_closed(s, now, in_flight, largest, initial_window, sample, draw);
        },
        _ => {},
    }
}

/// The mode changes only where a batch is closed, and a batch leads into
/// `Drain` only from `Startup`, with the latch `full_pipe` set by then and
/// a round begun.
pub proof fn law_drain_entry(s: State, initial_window: u64, event: Event)
    requires
        s.wf(),
        event.valid(),
    ensures
        !(event is EndAcks) ==> s.after(initial_window, event).mode == s.mode,
        s.mode != Mode::Drain && s.after(initial_window, event).mode == Mode::Drain ==> {
            &&& s.mode == Mode::Startup
            &&& s.after(initial_window, event).full_pipe
            &&& s.after(initial_window, event).round_start
        },
{
}

/// A fresh controller is in `Startup` with the latch `full_pipe` clear,
/// and in whatever state it reaches, it is in `Drain` only with the latch
/// set.
pub proof fn law_drain_needs_full_pipe(
    initial_window: u64,
    current_mtu: u64,
    events: Seq<Event>,
)
    requires
        0 < current_mtu <= MAX_MTU,
        State::initial(initial_window, current_mtu).admits_all(initial_window, events),
    ensures
        State::initial(initial_window, current_mtu).mode == Mode::Startup,
        !State::initial(initial_window, current_mtu).full_pipe,
        State::initial(initial_window, current_mtu).run(initial_window, events).mode
            == Mode::Drain ==> State::initial(initial_window, current_mtu).run(
            initial_window,
            events,
        ).full_pipe,
{
    law_reachable_wf(initial_window, current_mtu, events);
}

} // verus!
