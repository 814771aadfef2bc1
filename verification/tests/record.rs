use log4rs_fluentd::LogRecord;
use std::time::{Duration, SystemTime, UNIX_EPOCH};

#[test]
fn record_keeps_what_it_was_made_of() {
    let time = UNIX_EPOCH + Duration::new(1_524_650_081, 1_234_500);
    let record = LogRecord::at("svc", "INFO", "hello", time);
    assert_eq!(record.target(), "svc");
    assert_eq!(record.level(), "INFO");
    assert_eq!(record.message(), "hello");
    assert_eq!(record.time(), time);
}

#[test]
fn new_record_is_stamped_with_the_current_time() {
    let before = SystemTime::now();
    let record = LogRecord::new("svc", "WARN", "disk almost full");
    let after = SystemTime::now();
    assert_eq!(record.target(), "svc");
    assert_eq!(record.level(), "WARN");
    assert_eq!(record.message(), "disk almost full");
    assert!(before <= record.time());
    assert!(record.time() <= after);
}
