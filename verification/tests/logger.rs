use horizon_logger::HorizonLogger;
use horizon_logger::LogLevel;

#[test]
fn test_logger() {
    let logger = HorizonLogger::new();

    logger.debug("TEST", "This is a debug message");
    logger.info("TEST", "This is an info message");
    logger.warn("TEST", "This is a warning message");
    logger.error("TEST", "This is an error message");
    logger.critical("TEST", "This is a critical message");

    let history = logger.get_history();
    assert_eq!(history.len(), 5);
}

#[test]
fn short_sequences_are_kept_whole_and_in_order() {
    let logger = HorizonLogger::new();
    for i in 0..5 {
        logger.info("SEQ", &format!("message {}", i));
    }
    let history = logger.get_history();
    assert_eq!(history.len(), 5);
    for (i, entry) in history.iter().enumerate() {
        assert_eq!(entry.component, "SEQ");
        assert_eq!(entry.message, format!("message {}", i));
    }
}

#[test]
fn empty_component_and_message_are_accepted() {
    let logger = HorizonLogger::new();
    logger.warn("", "");
    let history = logger.get_history();
    assert_eq!(history.len(), 1);
    assert_eq!(history[0].component, "");
    assert_eq!(history[0].message, "");
    assert!(history[0].level == LogLevel::WARN);
}

#[test]
fn exactly_capacity_many_calls_are_all_kept() {
    let logger = HorizonLogger::new();
    for i in 0..1000 {
        logger.debug("FULL", &format!("{}", i));
    }
    let history = logger.get_history();
    assert_eq!(history.len(), 1000);
    assert_eq!(history[0].message, "0");
    assert_eq!(history[999].message, "999");
}

#[test]
fn overflow_retains_exactly_the_most_recent_thousand() {
    let logger = HorizonLogger::new();
    for i in 1..=1500 {
        logger.info("MANY", &format!("call {}", i));
    }
    let history = logger.get_history();
    assert_eq!(history.len(), 1000);
    // The oldest retained entry is call number 1500 - 999 = 501.
    assert_eq!(history[0].message, "call 501");
    assert_eq!(history[999].message, "call 1500");
    for (i, entry) in history.iter().enumerate() {
        assert_eq!(entry.message, format!("call {}", 501 + i));
    }
}

#[test]
fn reading_history_twice_gives_equal_snapshots() {
    let logger = HorizonLogger::new();
    logger.error("READ", "only entry");
    let first = logger.get_history();
    let second = logger.get_history();
    assert_eq!(first.len(), second.len());
    for (a, b) in first.iter().zip(second.iter()) {
        assert_eq!(a.timestamp, b.timestamp);
        assert!(a.level == b.level);
        assert_eq!(a.component, b.component);
        assert_eq!(a.message, b.message);
    }
}

#[test]
fn example_scenario_two_records_in_order() {
    let logger = HorizonLogger::new();
    logger.debug("SYSTEM", "Initializing server...");
    logger.critical("SECURITY", "Detected potential security breach");
    let history = logger.get_history();
    assert_eq!(history.len(), 2);
    assert!(history[0].level == LogLevel::DEBUG);
    assert_eq!(history[0].component, "SYSTEM");
    assert_eq!(history[0].message, "Initializing server...");
    assert!(history[1].level == LogLevel::CRITICAL);
    assert_eq!(history[1].component, "SECURITY");
    assert_eq!(history[1].message, "Detected potential security breach");
}

#[test]
fn timestamps_are_non_decreasing_and_well_formed() {
    let logger = HorizonLogger::new();
    logger.info("CLOCK", "first");
    logger.info("CLOCK", "second");
    logger.info("CLOCK", "third");
    let history = logger.get_history();
    assert_eq!(history.len(), 3);
    for pair in history.windows(2) {
        assert!(pair[0].timestamp <= pair[1].timestamp);
    }
    // The format is YYYY-MM-DD HH:MM:SS.mmm: 23 characters, fixed separators,
    // digits everywhere else, so the lexicographic order above is the
    // chronological order.
    for entry in &history {
        let bytes = entry.timestamp.as_bytes();
        assert_eq!(bytes.len(), 23);
        for (i, b) in bytes.iter().enumerate() {
            match i {
                4 | 7 => assert_eq!(*b, b'-'),
                10 => assert_eq!(*b, b' '),
                13 | 16 => assert_eq!(*b, b':'),
                19 => assert_eq!(*b, b'.'),
                _ => assert!(b.is_ascii_digit()),
            }
        }
    }
}

#[test]
fn example_usage_runs() {
    horizon_logger::example_usage();
}
