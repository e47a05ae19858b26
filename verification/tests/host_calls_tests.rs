use zenith_core::host_calls::HostCallInterface;
use zenith_core::host_calls::LogLevel;

#[test]
fn test_log_level_from_is_permissive() {
    assert!(matches!(LogLevel::from(0), LogLevel::Info));
    assert!(matches!(LogLevel::from(1), LogLevel::Warn));
    assert!(matches!(LogLevel::from(2), LogLevel::Error));
    assert!(matches!(LogLevel::from(255), LogLevel::Error));
}

#[test]
fn test_call_counter_advances_per_call() {
    let mut host = HostCallInterface::new();
    assert_eq!(host.get_call_count(), 0);

    host.log(LogLevel::Info, "hello");
    assert_eq!(host.get_call_count(), 1);

    let _ts = host.get_timestamp_ns();
    assert_eq!(host.get_call_count(), 2);

    let _field = host.read_event_field("source_id");
    assert_eq!(host.get_call_count(), 3);
}

#[test]
fn test_read_event_field_returns_field_bytes() {
    let mut host = HostCallInterface::new();
    let bytes = host.read_event_field("seq_no").unwrap();
    assert_eq!(bytes, b"seq_no".to_vec());
}

#[test]
fn test_timestamp_is_after_epoch() {
    let mut host = HostCallInterface::new();
    let ts = host.get_timestamp_ns();
    // Any clock this runs under lies well after the epoch.
    assert!(ts > 0);
}

#[test]
fn test_default_interface_has_no_calls() {
    let host = HostCallInterface::default();
    assert_eq!(host.get_call_count(), 0);
}
