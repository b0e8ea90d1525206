use dice_logs::config::ExporterConfig;
use dice_logs::run::{exit_code, InitError, LoggerSlot, Phase, Session};
use dice_logs::severity::Severity;

fn demo_config() -> ExporterConfig {
    ExporterConfig::new(
        "https://collector.example.com/v1/logs".to_string(),
        "test-token".to_string(),
        "demo-client".to_string(),
    )
}

#[test]
fn second_install_fails() {
    let mut slot = LoggerSlot::new();
    assert!(slot.install().is_ok());
    assert_eq!(slot.install(), Err(InitError::LoggerAlreadyInstalled));
    // And a third attempt fails too: the slot stays occupied.
    assert_eq!(slot.install(), Err(InitError::LoggerAlreadyInstalled));
}

#[test]
fn failed_install_leaves_session_configured() {
    let mut slot = LoggerSlot::new();
    assert!(slot.install().is_ok());

    let mut session = Session::new();
    session.configure(demo_config());
    let r = session.install_logger(&mut slot);
    assert_eq!(r, Err(InitError::LoggerAlreadyInstalled));
    assert_eq!(session.phase, Phase::Configured);
    assert!(session.records.is_empty());
}

#[test]
fn full_run_with_mocked_roll_of_four() {
    let mut slot = LoggerSlot::new();
    let mut session = Session::new();
    assert_eq!(session.phase, Phase::Uninitialized);

    session.configure(demo_config());
    assert_eq!(session.phase, Phase::Configured);

    assert!(session.install_logger(&mut slot).is_ok());
    assert_eq!(session.phase, Phase::LoggerInstalled);
    assert_eq!(session.min_severity, Severity::Info);
    assert!(session.records.is_empty());

    // A fixed roll of 4 stands in for the random source.
    session.emit_roll(4);
    assert_eq!(session.phase, Phase::EventEmitted);
    assert_eq!(session.records.len(), 1);
    assert_eq!(session.records[0].severity, Severity::Info);
    assert_eq!(session.records[0].message, "Player is rolling the dice: 4");

    let marker = session.print_marker();
    assert_eq!(marker, "Done");
    assert!(session.marker_printed);
    assert_eq!(session.flush_count, 0);

    session.force_flush();
    assert_eq!(session.phase, Phase::Flushed);
    assert_eq!(session.flush_count, 1);
    assert_eq!(session.records.len(), 1);

    let code = session.terminate();
    assert_eq!(code, 0);
    assert_eq!(session.phase, Phase::Terminated);

    // One export attempt, with the expected authorization header.
    let headers = session.config.as_ref().unwrap().header_pairs();
    assert_eq!(headers[0].0, "Authorization");
    assert_eq!(headers[0].1, "Bearer test-token");
}

#[test]
fn exit_code_maps_outcomes() {
    assert_eq!(exit_code(&Ok(())), 0);
    assert_eq!(exit_code(&Err(InitError::ExporterConstruction)), 1);
    assert_eq!(exit_code(&Err(InitError::LoggerAlreadyInstalled)), 1);
}
