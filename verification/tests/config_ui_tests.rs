//! Configuration validation, derived capacity, display strings, and the
//! presentation-boundary types.

use pinggraph::color::{ColorScale, ColorScheme};
use pinggraph::config::{Config, ConfigError, Mode};
use pinggraph::result::PingResult;
use pinggraph::ui::{Header, HeaderField, SettingsField};

fn base_config() -> Config {
    Config {
        host: Some(String::from("example.com")),
        mode: Mode::Icmp,
        interval: 1000,
        port: 44444,
        bind: None,
        timeout: 3000,
        scale: 200,
        colors: ColorScheme::Dark,
        hide_cursor: false,
        buffer_mb: 10,
    }
}

#[test]
fn validate_accepts_positive_values() {
    assert!(base_config().validate().is_ok());
    let mut no_host = base_config();
    no_host.host = None;
    assert!(no_host.validate().is_ok()); // host may stay unset
}

#[test]
fn validate_rejects_each_zero() {
    let mut c = base_config();
    c.interval = 0;
    assert_eq!(c.validate(), Err(ConfigError::ZeroInterval));
    let mut c = base_config();
    c.timeout = 0;
    assert_eq!(c.validate(), Err(ConfigError::ZeroTimeout));
    let mut c = base_config();
    c.scale = 0;
    assert_eq!(c.validate(), Err(ConfigError::ZeroScale));
    let mut c = base_config();
    c.buffer_mb = 0;
    assert_eq!(c.validate(), Err(ConfigError::ZeroBuffer));
    assert_eq!(
        ConfigError::ZeroInterval.message(),
        "Interval must be greater than 0"
    );
    assert_eq!(
        ConfigError::ZeroBuffer.message(),
        "Buffer size must be greater than 0"
    );
}

#[test]
fn max_history_from_budget() {
    let c = base_config();
    // 10 MB at 48 bytes per result.
    assert_eq!(c.max_history(), 10 * 1024 * 1024 / 48);
    let mut one = base_config();
    one.buffer_mb = 1;
    assert_eq!(one.max_history(), 21845);
}

#[test]
fn target_display_shows_host_or_wildcard() {
    let c = base_config();
    assert_eq!(c.target_display(), "example.com");
    let mut no_host = base_config();
    no_host.host = None;
    assert_eq!(no_host.target_display(), "0.0.0.0:44444");
}

#[test]
fn mode_labels() {
    assert_eq!(Mode::Icmp.label(), "ICMP");
    assert_eq!(Mode::UdpClient.label(), "UDP Client");
    assert_eq!(Mode::UdpServer.label(), "UDP Server");
}

#[test]
fn color_scheme_cycle_round_trips() {
    let all = [
        ColorScheme::Classic,
        ColorScheme::Dark,
        ColorScheme::Ocean,
        ColorScheme::Fire,
        ColorScheme::Neon,
        ColorScheme::Grayscale,
        ColorScheme::Matrix,
        ColorScheme::Plasma,
        ColorScheme::Ice,
        ColorScheme::Thermal,
    ];
    for &s in &all {
        assert_eq!(s.next().prev(), s);
        assert_eq!(s.prev().next(), s);
    }
    assert_eq!(ColorScheme::Classic.next(), ColorScheme::Dark);
    assert_eq!(ColorScheme::Thermal.next(), ColorScheme::Classic);
    assert_eq!(ColorScheme::default(), ColorScheme::Dark);
    assert_eq!(ColorScheme::Grayscale.label(), "Grayscale");
    let scale = ColorScale::new(200, ColorScheme::Classic);
    assert_eq!(scale.max_rtt, 200);
    assert_eq!(scale.scheme, ColorScheme::Classic);
}

#[test]
fn settings_field_navigation() {
    let order = [
        SettingsField::Target,
        SettingsField::Interval,
        SettingsField::Scale,
        SettingsField::ColorScheme,
        SettingsField::HideCursor,
        SettingsField::BufferSize,
        SettingsField::Confirm,
        SettingsField::Cancel,
    ];
    for w in order.windows(2) {
        assert_eq!(w[0].next(), w[1]);
        assert_eq!(w[1].prev(), w[0]);
    }
    assert_eq!(SettingsField::Cancel.next(), SettingsField::Target);
    assert_eq!(SettingsField::Target.prev(), SettingsField::Cancel);
    assert!(SettingsField::Target.is_text_input());
    assert!(SettingsField::BufferSize.is_text_input());
    assert!(!SettingsField::Confirm.is_text_input());
    assert!(SettingsField::Confirm.is_button());
    assert!(SettingsField::Cancel.is_button());
    assert!(!SettingsField::Scale.is_button());
}

#[test]
fn header_click_regions_positions() {
    let config = base_config();
    let ip = String::from("1.2.3.4");
    let header = Header::new(&config, Some(&ip), 120, None);
    let regions = header.calculate_click_regions();
    assert_eq!(regions.len(), 5);
    // target text: "example.com (1.2.3.4)", 21 columns, after "Target: " at
    // column 9 inside the border.
    assert_eq!(regions[0].field, HeaderField::Target);
    assert_eq!((regions[0].start_x, regions[0].end_x), (9, 30));
    // " │ Mode: ICMP │ Interval: " then "1000ms".
    assert_eq!(regions[1].field, HeaderField::Interval);
    assert_eq!((regions[1].start_x, regions[1].end_x), (56, 62));
    assert_eq!(regions[2].field, HeaderField::Scale);
    assert_eq!((regions[2].start_x, regions[2].end_x), (72, 77));
    assert_eq!(regions[3].field, HeaderField::Colors);
    assert_eq!((regions[3].start_x, regions[3].end_x), (88, 92));
    // "[s: Settings]" right-aligned: 13 columns ending one before the border.
    assert_eq!(regions[4].field, HeaderField::Settings);
    assert_eq!((regions[4].start_x, regions[4].end_x), (105, 118));
}

#[test]
fn header_target_collapses_when_host_is_the_address() {
    let mut config = base_config();
    config.host = Some(String::from("1.2.3.4"));
    let ip = String::from("1.2.3.4");
    let header = Header::new(&config, Some(&ip), 80, None);
    let regions = header.calculate_click_regions();
    // target text is just "1.2.3.4": 7 columns.
    assert_eq!((regions[0].start_x, regions[0].end_x), (9, 16));
}

#[test]
fn timestamp_formatting() {
    let t_ms = 13 * 3_600_000 + 5 * 60_000 + 7_000 + 89;
    let r = PingResult::success(1, 1000, 0, 1000, t_ms, None);
    assert_eq!(r.timestamp_str(), "13:05:07.089");
    let start = PingResult::timeout(2, 0, 0);
    assert_eq!(start.timestamp_str(), "00:00:00.000");
    let end = PingResult::timeout(3, 0, 24 * 3_600_000 - 1);
    assert_eq!(end.timestamp_str(), "23:59:59.999");
}

#[test]
fn rtt_milliseconds() {
    let r = PingResult::success(1, 1550, 0, 1550, 0, None);
    assert_eq!(r.rtt_ms(), Some(1));
    assert_eq!(PingResult::timeout(2, 0, 0).rtt_ms(), None);
}
