use bbrv2::{BbrV2Config, Instant};
use std::sync::Arc;

#[test]
fn test_bbrv2_creation() {
    let config = Arc::new(BbrV2Config::default());
    let now = Instant::from_nanos(0);
    let controller = config.build(now, 1500);

    // Basic sanity checks
    assert!(controller.initial_window() > 0);
    assert!(controller.window() > 0);
}

#[test]
fn test_bbrv2_clone() {
    let config = Arc::new(BbrV2Config::default());
    let now = Instant::from_nanos(0);
    let controller = config.build(now, 1500);
    let cloned = controller.clone_box();

    assert_eq!(controller.initial_window(), cloned.initial_window());
    assert_eq!(controller.window(), cloned.window());
}

#[test]
fn test_bbrv2_basic_functionality() {
    let config = Arc::new(BbrV2Config::default());
    let now = Instant::from_nanos(0);
    let controller = config.build(now, 1500);

    // Test initial window
    assert!(controller.initial_window() > 0);
    assert!(controller.window() > 0);

    // Test cloning
    let cloned = controller.clone_box();
    assert_eq!(controller.initial_window(), cloned.initial_window());

    // Test metrics
    let metrics = controller.metrics();
    assert!(metrics.congestion_window > 0);
}

#[test]
fn test_bbrv2_config() {
    let mut config = BbrV2Config::default();
    config.initial_window(10000);

    let config_arc = Arc::new(config);
    let now = Instant::from_nanos(0);
    let controller = config_arc.build(now, 1500);

    assert_eq!(controller.initial_window(), 10000);
}

fn fresh(mtu: u16) -> Box<bbrv2::BbrV2> {
    Arc::new(BbrV2Config::default()).build(Instant::from_nanos(0), mtu)
}

fn sample(estimate: u64, bytes_acked: u64) -> bbrv2::BandwidthSample {
    bbrv2::BandwidthSample { estimate, bytes_acked }
}

fn millis(ms: u64) -> Instant {
    Instant::from_nanos(ms * 1_000_000)
}

/// Takes a fresh controller through its first probe of the round-trip
/// time and back into start-up, with a minimum round-trip time of one
/// millisecond, a bandwidth-delay product of 10 000 bytes and 1 000 bytes
/// delivered.
fn in_startup_after_first_probe() -> Box<bbrv2::BbrV2> {
    let mut c = fresh(1500);
    c.on_sent(millis(0), 1000, 10);
    c.on_ack(millis(1000), millis(0), 1000, false, bbrv2::Duration::from_millis(1));
    assert_eq!(c.state().min_rtt, bbrv2::Duration::from_millis(1));
    c.on_end_acks(millis(1000), 0, false, Some(5), sample(10_000_000, 1000));
    assert_eq!(c.state().mode, bbrv2::Mode::ProbeRtt);
    c.on_end_acks(millis(1100), 0, false, None, sample(10_000_000, 0));
    assert_eq!(c.state().exit_probe_rtt_at, Some(millis(1300)));
    c.on_end_acks(millis(1300), 0, false, None, sample(10_000_000, 0));
    assert_eq!(c.state().mode, bbrv2::Mode::Startup);
    assert_eq!(c.state().bdp, 10_000);
    assert_eq!(c.state().delivered_bytes, 1000);
    c
}

/// From there into `Drain`.
fn in_drain() -> Box<bbrv2::BbrV2> {
    let mut c = in_startup_after_first_probe();
    c.on_sent(millis(1400), 9000, 20);
    c.on_ack(millis(1500), millis(1400), 8000, false, bbrv2::Duration::from_millis(50));
    c.on_end_acks(millis(1500), 20_000, false, Some(11), sample(10_000_000, 8000));
    assert_eq!(c.state().mode, bbrv2::Mode::Drain);
    c
}

#[test]
fn default_config_gives_two_hundred_base_datagrams() {
    let c = fresh(1500);
    assert_eq!(c.initial_window(), 200 * 1200);
    assert_eq!(c.initial_window(), 240_000);
    assert_eq!(c.window(), 240_000);
    assert_eq!(BbrV2Config::default().get_initial_window(), 240_000);
}

#[test]
fn fresh_controller_matches_state_new() {
    let c = fresh(1500);
    assert_eq!(c.state(), bbrv2::State::new(240_000, 1500));
    assert_eq!(c.state().mode, bbrv2::Mode::Startup);
    assert!(!c.state().full_pipe);
    assert_eq!(c.state().cwnd, 240_000);
    assert_eq!(c.state().pacing_rate, 0);
    assert_eq!(c.state().recovery_window, 0);
    assert_eq!(c.state().min_rtt, bbrv2::Duration::from_nanos(0));
}

#[test]
fn setter_chains_and_last_value_wins() {
    let mut config = BbrV2Config::default();
    config.initial_window(1).initial_window(77_000);
    assert_eq!(config.get_initial_window(), 77_000);
    let c = Arc::new(config).build(Instant::from_nanos(0), 1200);
    assert_eq!(c.initial_window(), 77_000);
    assert_eq!(c.window(), 77_000);
}

#[test]
fn initial_window_is_unaffected_by_events() {
    let mut c = in_drain();
    c.on_mtu_update(9000);
    c.on_congestion_event(millis(1600), millis(1500), false, 5000);
    assert_eq!(c.initial_window(), 240_000);
}

#[test]
fn metrics_report_window_and_rate_in_bits() {
    let c = fresh(1500);
    let m = c.metrics();
    assert_eq!(m.congestion_window, 240_000);
    assert_eq!(m.ssthresh, None);
    assert_eq!(m.pacing_rate, Some(0));

    let c = in_drain();
    let m = c.metrics();
    assert_eq!(m.congestion_window, c.window());
    assert_eq!(m.pacing_rate, Some(c.state().pacing_rate * 8));
    // 10 000 000 bytes per second at the drain gain of 1000/2885.
    assert_eq!(c.state().pacing_rate, 3_466_204);
    assert_eq!(m.pacing_rate, Some(27_729_632));
}

#[test]
fn metrics_twice_are_identical() {
    let c = in_drain();
    let first = c.metrics();
    let second = c.metrics();
    assert_eq!(first, second);
    assert_eq!(c.window(), c.window());
}

#[test]
fn clone_agrees_on_window_metrics_and_initial_window() {
    let c = in_drain();
    let copy = c.clone();
    assert_eq!(copy.initial_window(), c.initial_window());
    assert_eq!(copy.window(), c.window());
    assert_eq!(copy.metrics(), c.metrics());
    assert_eq!(copy.state(), c.state());
    let boxed = c.clone_box();
    assert_eq!(boxed.state(), c.state());
}

#[test]
fn clone_evolves_independently() {
    let mut c = in_drain();
    let copy = c.clone_box();
    let before = copy.state();
    c.on_mtu_update(9000);
    c.on_congestion_event(millis(1600), millis(1500), false, 100);
    assert_eq!(copy.state(), before);
    assert_ne!(c.state(), before);
}

#[test]
fn clone_draws_the_same_cycle_start_as_its_source() {
    for _ in 0..20 {
        let mut c = in_drain();
        let mut copy = c.clone_box();
        c.on_end_acks(millis(1600), 5000, false, None, sample(10_000_000, 0));
        copy.on_end_acks(millis(1600), 5000, false, None, sample(10_000_000, 0));
        assert_eq!(c.state().mode, bbrv2::Mode::ProbeBw);
        assert_eq!(copy.state(), c.state());
    }
}

#[test]
fn startup_turns_to_drain_only_when_round_start_meets_full_pipe() {
    let mut c = in_startup_after_first_probe();
    // A round begins, but 1 000 delivered bytes do not exceed four fifths
    // of 10 000: the pipe is not full.
    c.on_sent(millis(1350), 500, 20);
    c.on_end_acks(millis(1350), 0, false, Some(11), sample(10_000_000, 0));
    assert!(c.state().round_start);
    assert!(!c.state().full_pipe);
    assert_eq!(c.state().mode, bbrv2::Mode::Startup);

    // The threshold is crossed in a batch that begins no round: the latch
    // is set, the mode stays.
    c.on_ack(millis(1400), millis(1350), 7001, false, bbrv2::Duration::from_millis(50));
    assert_eq!(c.state().delivered_bytes, 8001);
    c.on_end_acks(millis(1400), 0, false, Some(12), sample(10_000_000, 7001));
    assert!(!c.state().round_start);
    assert!(c.state().full_pipe);
    assert_eq!(c.state().mode, bbrv2::Mode::Startup);

    // The next round boundary takes the controller into Drain.
    c.on_sent(millis(1450), 500, 30);
    c.on_end_acks(millis(1500), 0, false, Some(21), sample(10_000_000, 0));
    assert!(c.state().round_start);
    assert_eq!(c.state().mode, bbrv2::Mode::Drain);
    assert_eq!(c.state().pacing_gain, bbrv2::Gain::drain());
    assert_eq!(c.state().cwnd_gain, bbrv2::Gain::high());
}

#[test]
fn threshold_is_strict() {
    let mut c = in_startup_after_first_probe();
    c.on_sent(millis(1350), 500, 20);
    // Exactly four fifths of the bandwidth-delay product: not yet full.
    c.on_ack(millis(1400), millis(1350), 7000, false, bbrv2::Duration::from_millis(50));
    c.on_end_acks(millis(1400), 0, false, Some(11), sample(10_000_000, 7000));
    assert_eq!(c.state().delivered_bytes, 8000);
    assert!(!c.state().full_pipe);
    assert_eq!(c.state().mode, bbrv2::Mode::Startup);
}

#[test]
fn drain_turns_to_probe_bw_once_in_flight_is_within_bdp() {
    let mut c = in_drain();
    let bdp = c.state().bdp;
    assert_eq!(bdp, 10_000);
    c.on_end_acks(millis(1600), bdp + 1, false, None, sample(10_000_000, 0));
    assert_eq!(c.state().mode, bbrv2::Mode::Drain);
    c.on_end_acks(millis(1700), bdp, false, None, sample(10_000_000, 0));
    let s = c.state();
    assert_eq!(s.mode, bbrv2::Mode::ProbeBw);
    assert!(s.current_cycle_offset < 8);
    assert_ne!(s.current_cycle_offset, 1);
    assert_eq!(s.pacing_gain, bbrv2::Gain::cycle(s.current_cycle_offset));
    assert_eq!(s.cwnd_gain, bbrv2::Gain::probe_bw_window());
    assert_eq!(s.last_cycle_start, Some(millis(1700)));
}

#[test]
fn cycle_start_is_always_a_position_of_the_table_and_never_the_second() {
    let mut seen = [false; 8];
    for _ in 0..400 {
        let mut c = in_drain();
        c.on_end_acks(millis(1600), 0, false, None, sample(10_000_000, 0));
        let offset = c.state().current_cycle_offset;
        assert!(offset < 8);
        assert_ne!(offset, 1);
        seen[offset as usize] = true;
    }
    // With 400 draws over seven positions each one turns up.
    assert_eq!(seen, [true, false, true, true, true, true, true, true]);
}

#[test]
fn window_never_drops_to_zero_and_batches_floor_the_congestion_window() {
    let mut config = BbrV2Config::default();
    config.initial_window(1);
    let mut c = Arc::new(config).build(Instant::from_nanos(0), 1500);
    assert_eq!(c.window(), 1);
    c.on_sent(millis(0), 100, 1);
    assert!(c.window() >= 1);
    c.on_congestion_event(millis(1), millis(0), false, 1_000_000);
    assert!(c.window() >= 1);
    c.on_ack(millis(2), millis(0), 100, false, bbrv2::Duration::from_nanos(0));
    assert!(c.window() >= 1);
    c.on_end_acks(millis(3), 0, false, Some(1), sample(0, 0));
    assert!(c.state().cwnd >= 4 * 1500);
    assert!(c.window() >= 1);
    c.on_mtu_update(1);
    assert!(c.window() >= 1);
    c.on_end_acks(millis(4), 0, false, None, sample(0, 0));
    assert!(c.state().cwnd >= 4);
    assert!(c.window() >= 1);
}

#[test]
fn window_in_probe_rtt_is_four_datagrams_whatever_cwnd_holds() {
    let mut c = fresh(1500);
    c.on_end_acks(millis(1), 0, false, None, sample(0, 0));
    assert_eq!(c.state().mode, bbrv2::Mode::ProbeRtt);
    assert_eq!(c.state().cwnd, 240_000);
    assert_eq!(c.window(), 6000);
    c.on_congestion_event(millis(2), millis(1), false, 500_000);
    assert_eq!(c.window(), 6000);
    c.on_mtu_update(9000);
    assert_eq!(c.window(), 36_000);
    assert_eq!(c.metrics().congestion_window, 36_000);
}

#[test]
fn round_count_rises_by_one_exactly_where_a_round_starts() {
    let mut c = fresh(1500);
    assert_eq!(c.state().round_count, 0);
    c.on_sent(millis(0), 100, 7);
    c.on_end_acks(millis(1), 0, false, None, sample(0, 0));
    assert!(!c.state().round_start);
    assert_eq!(c.state().round_count, 0);
    c.on_end_acks(millis(2), 0, false, Some(1), sample(0, 0));
    assert!(c.state().round_start);
    assert_eq!(c.state().round_count, 1);
    assert_eq!(c.state().current_round_trip_end_packet_number, 7);
    // Acknowledgments up to the end of the round begin no new one.
    c.on_end_acks(millis(3), 0, false, Some(7), sample(0, 0));
    assert!(!c.state().round_start);
    assert_eq!(c.state().round_count, 1);
    c.on_sent(millis(4), 100, 9);
    c.on_ack(millis(5), millis(4), 100, false, bbrv2::Duration::from_millis(5));
    c.on_congestion_event(millis(5), millis(4), false, 10);
    c.on_mtu_update(1400);
    assert_eq!(c.state().round_count, 1);
    c.on_end_acks(millis(6), 0, false, Some(8), sample(0, 0));
    assert!(c.state().round_start);
    assert_eq!(c.state().round_count, 2);
    assert_eq!(c.state().current_round_trip_end_packet_number, 9);
}

#[test]
fn mtu_update_raises_the_window_and_never_lowers_it() {
    let mut config = BbrV2Config::default();
    config.initial_window(10_000);
    let mut c = Arc::new(config).build(Instant::from_nanos(0), 1500);
    c.on_mtu_update(9000);
    assert_eq!(c.state().current_mtu, 9000);
    assert_eq!(c.state().cwnd, 36_000);
    c.on_mtu_update(1200);
    assert_eq!(c.state().cwnd, 36_000);
    assert_eq!(c.window(), 36_000);
}

#[test]
fn loss_beyond_the_recovery_window_floors_it_at_cwnd() {
    let mut c = fresh(1500);
    c.on_congestion_event(millis(1), millis(0), false, 1_000_000);
    let s = c.state();
    assert_eq!(s.lost_bytes, 1_000_000);
    assert_eq!(s.recovery_window, 240_000);
    assert_eq!(c.window(), 240_000);
}

#[test]
fn batch_counts_are_reset_at_the_close() {
    let mut c = fresh(1500);
    c.on_ack(millis(1), millis(0), 700, false, bbrv2::Duration::from_millis(5));
    c.on_congestion_event(millis(1), millis(0), false, 300);
    assert_eq!(c.state().acked_bytes, 700);
    assert_eq!(c.state().lost_bytes, 300);
    c.on_end_acks(millis(2), 0, false, None, sample(0, 700));
    assert_eq!(c.state().acked_bytes, 0);
    assert_eq!(c.state().lost_bytes, 0);
    assert_eq!(c.state().delivered_bytes, 700);
}

#[test]
fn first_ack_gives_the_minimum_round_trip() {
    let mut c = fresh(1500);
    assert!(c.state().min_rtt.is_zero());
    c.on_ack(millis(10), millis(0), 1200, false, bbrv2::Duration::from_millis(50));
    assert_eq!(c.state().min_rtt, bbrv2::Duration::from_millis(50));
    // A larger report changes nothing, a smaller one is taken over.
    c.on_ack(millis(20), millis(0), 1200, false, bbrv2::Duration::from_millis(80));
    assert_eq!(c.state().min_rtt, bbrv2::Duration::from_millis(50));
    c.on_ack(millis(30), millis(0), 1200, false, bbrv2::Duration::from_millis(20));
    assert_eq!(c.state().min_rtt, bbrv2::Duration::from_millis(20));
}

#[test]
fn no_bandwidth_delay_product_before_the_first_round_trip_is_seen() {
    let mut c = fresh(1500);
    c.on_end_acks(millis(1), 0, false, None, sample(10_000_000, 0));
    assert_eq!(c.state().bdp, 0);
    c.on_ack(millis(2), millis(0), 100, false, bbrv2::Duration::from_millis(50));
    c.on_end_acks(millis(3), 0, false, None, sample(10_000_000, 0));
    assert_eq!(c.state().bdp, 500_000);
}

#[test]
fn congestion_event_without_loss_leaves_the_recovery_window_inactive() {
    let mut c = fresh(1500);
    c.on_congestion_event(millis(1), millis(0), false, 0);
    assert_eq!(c.state().recovery_window, 0);
    assert_eq!(c.state(), bbrv2::State::new(240_000, 1500));
    c.on_congestion_event(millis(2), millis(0), false, 1);
    assert_eq!(c.state().recovery_window, 240_000);
    assert_eq!(c.state().lost_bytes, 1);
}
