use holdmybackup::log::{initial_level, tracer_settings, LogLevel};

#[test]
fn level_names_in_any_case() {
    assert_eq!(LogLevel::parse("info"), Some(LogLevel::Info));
    assert_eq!(LogLevel::parse("INFO"), Some(LogLevel::Info));
    assert_eq!(LogLevel::parse("WaRn"), Some(LogLevel::Warn));
    assert_eq!(LogLevel::parse("error"), Some(LogLevel::Error));
    assert_eq!(LogLevel::parse("debug"), Some(LogLevel::Debug));
    assert_eq!(LogLevel::parse("Trace"), Some(LogLevel::Trace));
}

#[test]
fn level_numbers() {
    assert_eq!(LogLevel::parse("1"), Some(LogLevel::Error));
    assert_eq!(LogLevel::parse("2"), Some(LogLevel::Warn));
    assert_eq!(LogLevel::parse("3"), Some(LogLevel::Info));
    assert_eq!(LogLevel::parse("4"), Some(LogLevel::Debug));
    assert_eq!(LogLevel::parse("5"), Some(LogLevel::Trace));
    assert_eq!(LogLevel::parse("+5"), Some(LogLevel::Trace));
    assert_eq!(LogLevel::parse("003"), Some(LogLevel::Info));
}

#[test]
fn non_levels() {
    assert_eq!(LogLevel::parse(""), None);
    assert_eq!(LogLevel::parse("0"), None);
    assert_eq!(LogLevel::parse("6"), None);
    assert_eq!(LogLevel::parse("99999999999999999999999"), None);
    assert_eq!(LogLevel::parse("-1"), None);
    assert_eq!(LogLevel::parse("+"), None);
    assert_eq!(LogLevel::parse("warning"), None);
    assert_eq!(LogLevel::parse(" info"), None);
    assert_eq!(LogLevel::parse("inf\u{f6}"), None);
}

#[test]
fn level_parse_agrees_with_tracing() {
    for s in ["info", "INFO", "1", "+5", "007", "warning", "", "0", "x", "Debug", "tRaCe"] {
        let ours = LogLevel::parse(s).map(|l| format!("{:?}", l).to_uppercase());
        let theirs = s.parse::<tracing::Level>().ok().map(|l| l.to_string());
        assert_eq!(ours, theirs, "{}", s);
    }
}

#[test]
fn initial_level_error_message() {
    assert_eq!(initial_level("debug").unwrap(), LogLevel::Debug);
    assert_eq!(
        initial_level("loud").unwrap_err(),
        "error parsing level: expected one of \"error\", \"warn\", \"info\", \"debug\", \"trace\", or a number 1-5"
    );
}

#[test]
fn tracer_export_settings() {
    let t = tracer_settings();
    assert_eq!(t.endpoint, "http://localhost:4317");
    assert_eq!(t.timeout_secs, 3);
    assert_eq!(t.max_attributes_per_span, 16);
    assert_eq!(t.max_events_per_span, 16);
    assert_eq!(t.service_name_key, "service.name");
    assert_eq!(t.service_name, "holdmybackup");
}
