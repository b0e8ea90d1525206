use dice_logs::config::ExporterConfig;
use dice_logs::dice::roll_dice;
use dice_logs::message::{completion_marker, dice_message};
use dice_logs::severity::{passes_threshold, Severity};

#[test]
fn dice_value_always_in_range() {
    for _ in 0..200 {
        let v = roll_dice();
        assert!((1..=6).contains(&v), "die value {} out of range", v);
    }
}

#[test]
fn message_for_each_face() {
    assert_eq!(dice_message(1), "Player is rolling the dice: 1");
    assert_eq!(dice_message(2), "Player is rolling the dice: 2");
    assert_eq!(dice_message(3), "Player is rolling the dice: 3");
    assert_eq!(dice_message(4), "Player is rolling the dice: 4");
    assert_eq!(dice_message(5), "Player is rolling the dice: 5");
    assert_eq!(dice_message(6), "Player is rolling the dice: 6");
}

#[test]
fn completion_marker_is_done() {
    assert_eq!(completion_marker(), "Done");
}

#[test]
fn authorization_and_client_headers() {
    let cfg = ExporterConfig::new(
        "https://collector.example.com/v1/logs".to_string(),
        "abc123".to_string(),
        "demo-client".to_string(),
    );
    assert_eq!(cfg.authorization_value(), "Bearer abc123");
    let headers = cfg.header_pairs();
    assert_eq!(headers.len(), 2);
    assert_eq!(headers[0], ("Authorization".to_string(), "Bearer abc123".to_string()));
    assert_eq!(headers[1], ("User-Agent".to_string(), "demo-client".to_string()));
}

#[test]
fn threshold_discards_less_severe_levels() {
    assert!(passes_threshold(Severity::Info, Severity::Info));
    assert!(passes_threshold(Severity::Warn, Severity::Info));
    assert!(passes_threshold(Severity::Error, Severity::Info));
    assert!(!passes_threshold(Severity::Debug, Severity::Info));
    assert!(!passes_threshold(Severity::Trace, Severity::Info));
    assert!(passes_threshold(Severity::Trace, Severity::Trace));
}
