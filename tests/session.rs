use tick_session::client::{Client, TICKS_PER_PROBE, TICKS_PER_REPORT};
use tick_session::latency::{round_trip, LatencyAggregator};
use tick_session::rate::{requested_rate, RateControls};
use tick_session::server::{PlayerLatency, Server, UNKNOWN_LATENCY};
use tick_session::spawn::{plan_tick, BurstQueue, BURST_SIZE};
use tick_session::ttl::{expired, TTL_NANOS};
use tick_session::world::{Ball, Marker};

const SEC: u64 = 1_000_000_000;
const MS: u64 = 1_000_000;

fn controls(increase: bool, decrease: bool) -> RateControls {
    RateControls { increase, decrease }
}

#[test]
fn rate_decrease_saturates_at_zero() {
    assert_eq!(requested_rate(0, controls(false, true)), Some(0));
    assert_eq!(requested_rate(3, controls(false, true)), Some(2));
    let mut rate = 2;
    for _ in 0..10 {
        rate = requested_rate(rate, controls(false, true)).unwrap();
    }
    assert_eq!(rate, 0);
}

#[test]
fn rate_increase_and_both_controls() {
    assert_eq!(requested_rate(0, controls(true, false)), Some(1));
    assert_eq!(requested_rate(u32::MAX, controls(true, false)), Some(u32::MAX));
    assert_eq!(requested_rate(0, controls(true, true)), Some(1));
    assert_eq!(requested_rate(5, controls(true, true)), Some(5));
    assert_eq!(requested_rate(5, controls(false, false)), None);
}

#[test]
fn ema_first_sample_is_a_quarter() {
    let mut agg = LatencyAggregator::new();
    assert_eq!(agg.smoothed, 0);
    agg.record(100 * MS);
    assert_eq!(agg.smoothed, 25 * MS);
    agg.record(100 * MS);
    assert_eq!(agg.smoothed, 43_750_000);
}

#[test]
fn ema_converges_to_constant_sample() {
    let mut agg = LatencyAggregator::new();
    for _ in 0..200 {
        agg.record(80 * MS);
    }
    assert!(80 * MS - agg.smoothed <= 3);
    let mut high = LatencyAggregator { smoothed: 500 * MS };
    for _ in 0..200 {
        high.record(80 * MS);
    }
    assert_eq!(high.smoothed, 80 * MS);
}

#[test]
fn ema_rounds_down_and_handles_large_values() {
    let mut agg = LatencyAggregator::new();
    agg.record(3);
    assert_eq!(agg.smoothed, 0);
    let mut big = LatencyAggregator { smoothed: u64::MAX };
    big.record(u64::MAX);
    assert_eq!(big.smoothed, u64::MAX);
}

#[test]
fn round_trip_elapsed() {
    assert_eq!(round_trip(5 * SEC, 4 * SEC), SEC);
    assert_eq!(round_trip(4 * SEC, 4 * SEC), 0);
    assert_eq!(round_trip(4 * SEC, 5 * SEC), 0);
}

#[test]
fn ttl_threshold_is_exact() {
    let t0 = 10 * SEC;
    assert!(!expired(t0 + 4_900 * MS, t0));
    assert!(!expired(t0 + TTL_NANOS, t0));
    assert!(expired(t0 + TTL_NANOS + 1, t0));
    assert!(expired(t0 + 5_100 * MS, t0));
    assert!(!expired(t0, t0 + SEC));
}

#[test]
fn reaper_keeps_object_until_threshold() {
    let t0 = 2 * SEC;
    let mut server = Server::new();
    server.set_rate(1);
    assert_eq!(server.spawn_tick(t0), 1);
    server.balls.push(Ball { id: 99, created: None });
    assert!(server.reap_tick(t0 + 4_900 * MS).is_empty());
    assert_eq!(server.balls.len(), 2);
    assert_eq!(server.reap_tick(t0 + 5_100 * MS), vec![0]);
    assert_eq!(server.balls, vec![Ball { id: 99, created: None }]);
    assert!(server.reap_tick(t0 + 1_000 * SEC).is_empty());
}

#[test]
fn burst_queue_accumulates_and_saturates() {
    let mut q = BurstQueue::new();
    q.request(100);
    q.request(20);
    assert_eq!(q.pending, 120);
    let mut full = BurstQueue { pending: u64::MAX - 1 };
    full.request(5);
    assert_eq!(full.pending, u64::MAX);
    assert!(full.take_one());
    let mut empty = BurstQueue::new();
    assert!(!empty.take_one());
    assert_eq!(empty.pending, 0);
}

#[test]
fn plan_tick_adds_one_while_burst_pending() {
    let mut q = BurstQueue { pending: 2 };
    assert_eq!(plan_tick(3, &mut q), 4);
    assert_eq!(plan_tick(3, &mut q), 4);
    assert_eq!(plan_tick(3, &mut q), 3);
    assert_eq!(q.pending, 0);
}

#[test]
fn burst_of_hundred_drains_one_per_tick() {
    let mut server = Server::new();
    server.request_burst(BURST_SIZE);
    assert_eq!(server.burst.pending, 100);
    for tick in 0..100u64 {
        assert_eq!(server.spawn_tick(tick * 16 * MS), 1);
        assert_eq!(server.burst.pending, 99 - tick);
    }
    assert_eq!(server.balls.len(), 100);
    assert_eq!(server.burst.pending, 0);
    assert_eq!(server.spawn_tick(100 * 16 * MS), 0);
    assert_eq!(server.balls.len(), 100);
}

#[test]
fn probe_makes_one_marker_consumed_once() {
    let mut server = Server::new();
    let mut client = Client::new(7);
    server.on_probe(Some(7), SEC);
    server.on_probe(Some(8), SEC);
    assert_eq!(server.markers.len(), 2);
    let removed = client.consume_markers(&mut server.markers, SEC + 40 * MS);
    assert_eq!(removed, vec![0]);
    assert_eq!(client.latency.smoothed, 10 * MS);
    assert_eq!(server.markers, vec![Marker { id: 1, parent: 8, timestamp: SEC }]);
    let again = client.consume_markers(&mut server.markers, SEC + 80 * MS);
    assert!(again.is_empty());
    assert_eq!(client.latency.smoothed, 10 * MS);
    assert_eq!(server.markers.len(), 1);
}

#[test]
fn lost_or_unknown_probe_leaves_no_marker() {
    let mut server = Server::new();
    let mut client = Client::new(7);
    server.on_probe(None, SEC);
    assert!(server.markers.is_empty());
    assert_eq!(server.next_id, 0);
    let removed = client.consume_markers(&mut server.markers, 2 * SEC);
    assert!(removed.is_empty());
    assert_eq!(client.latency.smoothed, 0);
}

#[test]
fn several_markers_fold_in_order() {
    let mut client = Client::new(1);
    let mut markers = vec![
        Marker { id: 10, parent: 1, timestamp: 0 },
        Marker { id: 11, parent: 2, timestamp: 0 },
        Marker { id: 12, parent: 1, timestamp: 60 },
    ];
    let removed = client.consume_markers(&mut markers, 100);
    assert_eq!(removed, vec![10, 12]);
    // 0 -> (0 + 100) / 4 = 25 -> (75 + 40) / 4 = 28
    assert_eq!(client.latency.smoothed, 28);
    assert_eq!(markers, vec![Marker { id: 11, parent: 2, timestamp: 0 }]);
}

#[test]
fn player_latency_join_and_report() {
    let mut server = Server::new();
    server.join_player(3);
    server.join_player(4);
    server.join_player(3);
    assert_eq!(
        server.latencies,
        vec![
            PlayerLatency { player: 3, latency: UNKNOWN_LATENCY },
            PlayerLatency { player: 4, latency: UNKNOWN_LATENCY },
        ]
    );
    server.report_latency(Some(4), 30 * MS);
    server.report_latency(None, 1);
    server.report_latency(Some(9), 1);
    assert_eq!(
        server.latencies,
        vec![
            PlayerLatency { player: 3, latency: UNKNOWN_LATENCY },
            PlayerLatency { player: 4, latency: 30 * MS },
        ]
    );
}

#[test]
fn client_tick_cadence() {
    let mut client = Client::new(1);
    client.latency.smoothed = 12;
    let mut probes = 0;
    let mut reports = 0;
    for tick in 0..120u64 {
        let m = client.on_tick(controls(false, false), false, tick);
        assert_eq!(m.set_rate, None);
        assert_eq!(m.burst, None);
        if let Some(t) = m.probe {
            assert_eq!(tick % TICKS_PER_PROBE, 0);
            assert_eq!(t, tick);
            probes += 1;
        }
        if let Some(l) = m.report {
            assert_eq!(tick % TICKS_PER_REPORT, 0);
            assert_eq!(l, 12);
            reports += 1;
        }
    }
    assert_eq!(probes, 12);
    assert_eq!(reports, 2);
    assert_eq!(client.tick_no, 120);
    let m = client.on_tick(controls(false, false), true, 0);
    assert_eq!(m.burst, Some(100));
}

#[test]
fn set_rate_is_last_writer_wins() {
    let mut server = Server::new();
    server.set_rate(4);
    server.set_rate(2);
    assert_eq!(server.rate, 2);
}

#[test]
fn end_to_end_hold_increase_five_ticks() {
    let mut server = Server::new();
    let mut client = Client::new(1);
    let mut sent = Vec::new();
    for tick in 0..5u64 {
        let m = client.on_tick(controls(true, false), false, tick * 16 * MS);
        if let Some(r) = m.set_rate {
            sent.push(r);
            server.set_rate(r);
        }
    }
    assert_eq!(sent, vec![1, 2, 3, 4, 5]);
    assert_eq!(server.rate, 5);

    // Three waves, one tick apart, then the reaper at several times.
    let t0 = 10 * SEC;
    let tick = 16 * MS;
    for w in 0..3u64 {
        let m = client.on_tick(controls(false, false), false, t0 + w * tick);
        assert_eq!(m.set_rate, None);
        assert_eq!(server.spawn_tick(t0 + w * tick), 5);
        assert!(server.reap_tick(t0 + w * tick).is_empty());
    }
    assert_eq!(server.balls.len(), 15);
    assert!(server.reap_tick(t0 + TTL_NANOS).is_empty());
    assert_eq!(server.reap_tick(t0 + TTL_NANOS + 1), vec![0, 1, 2, 3, 4]);
    assert_eq!(server.reap_tick(t0 + tick + TTL_NANOS), Vec::<u128>::new());
    assert_eq!(server.reap_tick(t0 + tick + TTL_NANOS + 1), vec![5, 6, 7, 8, 9]);
    assert_eq!(server.reap_tick(t0 + 2 * tick + TTL_NANOS + 1), vec![10, 11, 12, 13, 14]);
    assert!(server.balls.is_empty());
}
