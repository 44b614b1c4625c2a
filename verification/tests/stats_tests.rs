//! Statistics aggregation: counters, min/max/average, loss percentage, and
//! the formatted summary line.

use pinggraph::result::PingResult;
use pinggraph::stats::PingStats;

fn success(seq: u64, rtt_us: u64) -> PingResult {
    PingResult::success(seq, rtt_us, 0, rtt_us, 0, None)
}

fn timeout(seq: u64) -> PingResult {
    PingResult::timeout(seq, 0, 0)
}

#[test]
fn fresh_stats_are_zero() {
    let s = PingStats::new();
    assert_eq!(s.total_sent, 0);
    assert_eq!(s.total_received, 0);
    assert_eq!(s.total_lost, 0);
    assert_eq!(s.min_rtt_us, None);
    assert_eq!(s.max_rtt_us, None);
    assert_eq!(s.sum_rtt_us, 0);
    assert_eq!(s.avg_rtt(), None);
    assert_eq!(s.loss_percent_hundredths(), 0);
}

#[test]
fn successes_and_timeouts_fold_into_counters() {
    let mut s = PingStats::new();
    let rtts = [250_000u64, 100_000, 400_000, 100_000];
    for (i, &rtt) in rtts.iter().enumerate() {
        s.record(&success(i as u64 + 1, rtt));
    }
    s.record(&timeout(5));
    s.record(&timeout(6));
    assert_eq!(s.total_sent, 6);
    assert_eq!(s.total_received, 4);
    assert_eq!(s.total_lost, 2);
    assert_eq!(s.min_rtt_us, Some(100_000));
    assert_eq!(s.max_rtt_us, Some(400_000));
    assert_eq!(s.sum_rtt_us, 850_000);
    assert_eq!(s.avg_rtt(), Some(212_500));
}

#[test]
fn loss_percent_is_exact_hundredths() {
    let mut s = PingStats::new();
    s.record(&success(1, 1000));
    s.record(&success(2, 1000));
    s.record(&success(3, 1000));
    s.record(&timeout(4));
    assert_eq!(s.loss_percent_hundredths(), 2500);
    let mut all_lost = PingStats::new();
    all_lost.record(&timeout(1));
    assert_eq!(all_lost.loss_percent_hundredths(), 10000);
}

#[test]
fn end_to_end_scenario_statistics() {
    // interval=1000ms, timeout=3000ms, scale=200ms; three successes of
    // 50ms, 60ms, 210ms, then one timeout.
    let mut s = PingStats::new();
    s.record(&success(1, 50_000));
    s.record(&success(2, 60_000));
    s.record(&success(3, 210_000));
    s.record(&timeout(4));
    assert_eq!(s.total_sent, 4);
    assert_eq!(s.total_received, 3);
    assert_eq!(s.total_lost, 1);
    assert_eq!(s.loss_percent_hundredths(), 2500); // 25.00%
    assert_eq!(s.min_rtt_us, Some(50_000));
    assert_eq!(s.max_rtt_us, Some(210_000));
    assert_eq!(s.avg_rtt(), Some(106_666)); // 320ms / 3, in microseconds
}

#[test]
fn format_stats_line() {
    let mut s = PingStats::new();
    s.record(&success(1, 50_000));
    s.record(&success(2, 60_000));
    s.record(&success(3, 210_000));
    s.record(&timeout(4));
    assert_eq!(
        s.format_stats(),
        "Sent: 4 | Rcvd: 3 | Lost: 1 (25.0%) | RTT min/avg/max: 50.0/106.6/210.0 ms"
    );
}

#[test]
fn format_stats_line_empty() {
    let s = PingStats::new();
    assert_eq!(s.format_stats(), "Sent: 0 | Rcvd: 0 | Lost: 0 (0.0%) | RTT min/avg/max: -/-/- ms");
}
