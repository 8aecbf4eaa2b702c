use ztnet_box::server::handlers::logs::{default_limit, level_response, query_filter, LogQuery};
use ztnet_box::server::log_collector::{LogBuffer, LogEntry, LogLevel, BUFFER_CAP};

fn entry(level: LogLevel, message: String) -> LogEntry {
    LogEntry { timestamp: "2024-01-01T00:00:00Z".into(), level, target: "t".into(), message }
}

#[test]
fn push_and_retrieve() {
    let mut c = LogBuffer::new();
    c.push(entry(LogLevel::Info, "hello".into()));
    let entries = c.entries(None, 100);
    assert_eq!(entries.len(), 1);
    assert_eq!(entries[0].message, "hello");
}

#[test]
fn level_filter() {
    let mut c = LogBuffer::new();
    c.set_level(LogLevel::Warn);
    c.push(entry(LogLevel::Info, "filtered".into()));
    c.push(entry(LogLevel::Error, "kept".into()));
    let entries = c.entries(None, 100);
    assert_eq!(entries.len(), 1);
    assert_eq!(entries[0].message, "kept");
}

#[test]
fn clear_buffer() {
    let mut c = LogBuffer::new();
    c.set_level(LogLevel::Trace);
    for i in 0..5 {
        c.push(entry(LogLevel::Info, format!("msg {i}")));
    }
    assert_eq!(c.entries(None, 100).len(), 5);
    c.clear();
    assert_eq!(c.entries(None, 100).len(), 0);
}

#[test]
fn ring_buffer_evicts_oldest() {
    let mut c = LogBuffer::new();
    c.set_level(LogLevel::Trace);
    for i in 0..BUFFER_CAP + 10 {
        c.push(entry(LogLevel::Info, format!("msg {i}")));
    }
    let entries = c.entries(None, BUFFER_CAP + 100);
    assert_eq!(entries.len(), BUFFER_CAP);
    assert_eq!(entries[0].message, "msg 10");
}

#[test]
fn min_level_filter_on_entries() {
    let mut c = LogBuffer::new();
    c.set_level(LogLevel::Trace);
    for &lvl in &[LogLevel::Debug, LogLevel::Info, LogLevel::Warn, LogLevel::Error] {
        c.push(entry(lvl, lvl.as_str().to_string()));
    }
    let warn_up = c.entries(Some(LogLevel::Warn), 100);
    assert_eq!(warn_up.len(), 2);
    assert_eq!(warn_up[0].level, LogLevel::Warn);
    assert_eq!(warn_up[1].level, LogLevel::Error);
}

#[test]
fn log_level_parse_roundtrip() {
    for s in &["error", "warn", "info", "debug", "trace"] {
        let lvl = LogLevel::parse(s).unwrap();
        assert_eq!(lvl.as_str(), *s);
    }
    assert!(LogLevel::parse("bad").is_err());
    assert_eq!(LogLevel::parse("WARNING").unwrap(), LogLevel::Warn);
    assert_eq!(LogLevel::parse("Bad").unwrap_err(), "unknown log level 'bad'");
}

#[test]
fn entries_limit_keeps_newest() {
    let mut c = LogBuffer::new();
    for i in 0..10 {
        c.push(entry(LogLevel::Error, format!("{i}")));
    }
    let e = c.entries(None, 3);
    let m: Vec<&str> = e.iter().map(|x| x.message.as_str()).collect();
    assert_eq!(m, vec!["7", "8", "9"]);
    assert_eq!(c.current_level(), LogLevel::Info);
}

#[test]
fn log_query_handling() {
    assert_eq!(default_limit(), 200);
    let q = LogQuery { level: Some("Error".into()), limit: 10_000 };
    assert_eq!(query_filter(&q), (Some(LogLevel::Error), 500));
    let q = LogQuery { level: Some("loud".into()), limit: 7 };
    assert_eq!(query_filter(&q), (None, 7));
    assert_eq!(level_response(LogLevel::Debug).level, "debug");
}

#[test]
fn recorded_events_keep_their_level() {
    let mut buf = LogBuffer::new();
    assert!(buf.record_event("2024-01-01T00:00:00Z".into(), LogLevel::Warn, "ztnet_box".into(), "disk full".into()));
    assert!(!buf.record_event("2024-01-01T00:00:01Z".into(), LogLevel::Debug, "ztnet_box".into(), "noise".into()));
    assert!(buf.record_event("2024-01-01T00:00:02Z".into(), LogLevel::Error, "ztnet_box".into(), "boom".into()));
    let all = buf.entries(None, 10);
    assert_eq!(all.len(), 2);
    assert_eq!(all[0].level, LogLevel::Warn);
    assert_eq!(all[0].message, "disk full");
    assert_eq!(all[1].level, LogLevel::Error);
    assert_eq!(LogLevel::from_tracing(&tracing::Level::TRACE), LogLevel::Trace);
    assert_eq!(LogLevel::from_tracing(&tracing::Level::INFO), LogLevel::Info);
    assert_eq!(LogLevel::from_tracing(&tracing::Level::DEBUG), LogLevel::Debug);
    assert_eq!(LogLevel::from_tracing(&tracing::Level::WARN), LogLevel::Warn);
    assert_eq!(LogLevel::from_tracing(&tracing::Level::ERROR), LogLevel::Error);
}

#[test]
fn level_name_round_trip_and_ascii_case() {
    for l in [LogLevel::Error, LogLevel::Warn, LogLevel::Info, LogLevel::Debug, LogLevel::Trace] {
        assert_eq!(LogLevel::parse(l.as_str()), Ok(l));
    }
    assert_eq!(LogLevel::parse("ERROR"), Ok(LogLevel::Error));
    assert_eq!(LogLevel::parse("Warning"), Ok(LogLevel::Warn));
    assert_eq!(LogLevel::parse("LOUD"), Err("unknown log level 'loud'".to_string()));
}
