//! End-to-end engine scenario: a validated configuration, a UDP session
//! producing results, and the history store folding them in.

use pinggraph::color::ColorScheme;
use pinggraph::config::{Config, Mode};
use pinggraph::history::HistoryStore;
use pinggraph::session::UdpSession;

#[test]
fn end_to_end_udp_session_scenario() {
    // interval=1000ms, timeout=3000ms, scale=200ms.
    let config = Config {
        host: Some(String::from("198.51.100.7")),
        mode: Mode::UdpClient,
        interval: 1000,
        port: 44444,
        bind: None,
        timeout: 3000,
        scale: 200,
        colors: ColorScheme::Dark,
        hide_cursor: false,
        buffer_mb: 10,
    };
    assert!(config.validate().is_ok());
    let mut store = HistoryStore::new(config.max_history());
    let mut session = UdpSession::new();
    let timeout_us = config.timeout * 1000;

    // Three probes, one per interval tick, answered after 50ms, 60ms, 210ms.
    let rtts_us = [50_000u64, 60_000, 210_000];
    for (i, &rtt) in rtts_us.iter().enumerate() {
        let t = i as u64 * 1_000_000;
        let packet = session.on_tick(t);
        let result = session.on_receive(&packet, t + rtt, 0).expect("reply resolves");
        store.record_result(result);
    }
    // A fourth probe that nothing answers before the timeout.
    let t4 = 3_000_000u64;
    let _unanswered = session.on_tick(t4);
    let mut timeouts = session.on_sweep(t4 + timeout_us + 1, timeout_us, 0);
    assert_eq!(timeouts.len(), 1);
    store.record_result(timeouts.pop().unwrap());

    let stats = &store.stats;
    assert_eq!(stats.total_sent, 4);
    assert_eq!(stats.total_received, 3);
    assert_eq!(stats.total_lost, 1);
    assert_eq!(stats.loss_percent_hundredths(), 2500); // 25.0%
    assert_eq!(stats.min_rtt_us, Some(50_000));
    assert_eq!(stats.max_rtt_us, Some(210_000));
    assert_eq!(stats.avg_rtt(), Some(106_666)); // about 106.7ms

    assert_eq!(store.results.len(), 4);
    // Jitter chain: absent, then 10ms, then 150ms; absent on the timeout.
    assert_eq!(store.results[0].jitter_us, None);
    assert_eq!(store.results[1].jitter_us, Some(10_000));
    assert_eq!(store.results[2].jitter_us, Some(150_000));
    assert_eq!(store.results[3].rtt_us, None);
    assert_eq!(store.results[3].jitter_us, None);
}
