use horizon_logger::History;
use horizon_logger::LogEntry;
use horizon_logger::LogLevel;

fn entry(message: &str) -> LogEntry {
    LogEntry {
        timestamp: String::from("2024-01-02 03:04:05.678"),
        level: LogLevel::INFO,
        component: String::from("BUF"),
        message: String::from(message),
    }
}

#[test]
fn record_appends_in_order() {
    let mut history = History::new();
    history.record(entry("a"));
    history.record(entry("b"));
    let snap = history.snapshot();
    assert_eq!(snap.len(), 2);
    assert_eq!(snap[0].message, "a");
    assert_eq!(snap[1].message, "b");
}

#[test]
fn record_evicts_only_the_oldest_at_the_boundary() {
    let mut history = History::new();
    for i in 0..1000 {
        history.record(entry(&format!("{}", i)));
    }
    assert_eq!(history.snapshot().len(), 1000);
    history.record(entry("one more"));
    let snap = history.snapshot();
    assert_eq!(snap.len(), 1000);
    assert_eq!(snap[0].message, "1");
    assert_eq!(snap[999].message, "one more");
}

#[test]
fn snapshot_is_an_independent_copy() {
    let mut history = History::new();
    history.record(entry("kept"));
    let mut snap = history.snapshot();
    snap.clear();
    let again = history.snapshot();
    assert_eq!(again.len(), 1);
    assert_eq!(again[0].message, "kept");
}
