use oslog::{Channel, Level, LevelFilter, LogLevel, OsLogger};

fn bytes_of(s: &str) -> Vec<u8> {
    let mut v = s.as_bytes().to_vec();
    v.push(0);
    v
}

fn category_of(channel: &Channel) -> String {
    match channel {
        Channel::Named { category, .. } => category.clone(),
        Channel::Default => panic!("a named channel"),
    }
}

#[test]
fn test_basic_usage() {
    let mut logger = OsLogger::new("com.example.oslog")
        .with_level(LevelFilter::Trace)
        .with_category("Settings", LevelFilter::Warn)
        .with_category("Database", LevelFilter::Error)
        .with_category("Database", LevelFilter::Trace);

    // Not logged because of its category's override.
    assert!(logger.log("Settings", LogLevel::Info, "Info").is_none());

    assert!(logger.log("Settings", LogLevel::Warn, "Warn").is_some());
    assert!(logger.log("Settings", LogLevel::Error, "Error").is_some());

    assert!(logger.log("", LogLevel::Trace, "Trace").is_some());
    assert!(logger.log("", LogLevel::Debug, "Debug").is_some());
    assert!(logger.log("", LogLevel::Info, "Info").is_some());
    let record = logger.log("Database", LogLevel::Warn, "Warn").expect("enabled");
    assert_eq!(record.code, 0x10);
    assert_eq!(category_of(&record.channel), "Database");
    assert!(logger.log("", LogLevel::Error, "Error").is_some());
}

#[test]
fn level_mapping_table() {
    assert_eq!(Level::from(LogLevel::Trace), Level::Debug);
    assert_eq!(Level::from(LogLevel::Debug), Level::Info);
    assert_eq!(Level::from(LogLevel::Info), Level::Default);
    assert_eq!(Level::from(LogLevel::Warn), Level::Error);
    assert_eq!(Level::from(LogLevel::Error), Level::Fault);
    assert_eq!(Level::Debug.code(), 0x02);
    assert_eq!(Level::Fault.code(), 0x11);
}

#[test]
fn levels_against_filters() {
    assert!(LogLevel::Error.is_within(LevelFilter::Error));
    assert!(!LogLevel::Warn.is_within(LevelFilter::Error));
    assert!(LogLevel::Trace.is_within(LevelFilter::Trace));
    assert!(!LogLevel::Error.is_within(LevelFilter::Off));
}

#[test]
fn settings_override_and_unconfigured_category() {
    let logger = OsLogger::new("com.example.oslog")
        .with_level(LevelFilter::Info)
        .with_category("Settings", LevelFilter::Trace);
    assert!(logger.enabled("Settings", LogLevel::Debug));
    assert!(!logger.enabled("Other", LogLevel::Debug));
    assert!(logger.enabled_with("Settings", LogLevel::Debug, LevelFilter::Info));
    assert!(!logger.enabled_with("Other", LogLevel::Debug, LevelFilter::Info));
    assert!(logger.enabled_with("Other", LogLevel::Info, LevelFilter::Info));
}

#[test]
fn last_override_wins() {
    let logger = OsLogger::new("s")
        .with_category("Database", LevelFilter::Error)
        .with_category("Database", LevelFilter::Trace);
    assert_eq!(logger.category_level("Database"), Some(LevelFilter::Trace));
    assert_eq!(logger.category_level("Other"), None);
    assert_eq!(logger.effective_threshold("Database", LevelFilter::Off), LevelFilter::Trace);
    assert_eq!(logger.effective_threshold("Other", LevelFilter::Warn), LevelFilter::Warn);
}

#[test]
fn categories_are_case_sensitive() {
    let logger = OsLogger::new("s").with_category("db", LevelFilter::Off);
    assert!(!logger.enabled_with("db", LogLevel::Error, LevelFilter::Trace));
    assert!(logger.enabled_with("DB", LogLevel::Error, LevelFilter::Trace));
}

#[test]
fn handles_are_stable_and_distinct() {
    let mut logger = OsLogger::new("com.example.oslog");
    let a = logger.handle_for("a");
    let a_again = logger.handle_for("a");
    let b = logger.handle_for("b");
    assert_eq!(category_of(&a), "a");
    assert_eq!(category_of(&a_again), "a");
    assert_eq!(category_of(&b), "b");
    assert_eq!(a.native_names(), a_again.native_names());
    assert_ne!(a.native_names(), b.native_names());
    assert_eq!(logger.category_level("a"), None);
}

#[test]
fn log_call_does_not_set_an_override() {
    let mut logger = OsLogger::new("s");
    let record = logger.log_with("fresh", LogLevel::Info, "m\0", LevelFilter::Info).expect("enabled");
    assert_eq!(record.message, bytes_of("m(null)"));
    assert_eq!(record.code, 0x00);
    assert_eq!(logger.category_level("fresh"), None);
    assert!(logger.log_with("fresh", LogLevel::Debug, "m", LevelFilter::Info).is_none());
}

#[test]
fn filtered_call_creates_nothing() {
    let mut logger = OsLogger::new("s");
    assert!(logger.log_with("quiet", LogLevel::Trace, "m", LevelFilter::Error).is_none());
    assert_eq!(logger.category_level("quiet"), None);
    let later = logger.with_category("quiet", LevelFilter::Trace);
    assert!(later.enabled_with("quiet", LogLevel::Trace, LevelFilter::Error));
}

#[test]
fn interleaved_emission_counts() {
    let mut logger = OsLogger::new("com.example.oslog").with_category("first", LevelFilter::Trace);
    let mut emitted: usize = 0;
    for i in 0..1000 {
        for producer in 0..8 {
            let category = if producer % 2 == 0 { "first" } else { "second" };
            let message = format!("message {} from {}", i, producer);
            if logger.log_with(category, LogLevel::Info, &message, LevelFilter::Trace).is_some() {
                emitted += 1;
            }
        }
    }
    assert_eq!(emitted, 8000);
    assert_eq!(category_of(&logger.handle_for("second")), "second");
    assert_eq!(logger.category_level("second"), None);
    assert_eq!(logger.category_level("first"), Some(LevelFilter::Trace));
}
