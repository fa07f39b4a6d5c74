use launchdeck::model::{
    ElevationNeeds, LaunchConfig, Origin, SafetyLevel, Service, ServiceScope, ServiceSource,
    ServiceStatus,
};
use launchdeck::oslog::{
    build_predicate, build_query, derive_executable, log_args, parse_compact, sanitize,
    LogWindow, UnifiedLogQuery,
};

fn sample_service() -> Service {
    let mut config = LaunchConfig::empty();
    config.program = Some("/opt/homebrew/opt/redis/bin/redis-server".to_string());
    Service {
        id: "homebrew.mxcl.redis".to_string(),
        label: "homebrew.mxcl.redis".to_string(),
        display_name: "redis".to_string(),
        source: ServiceSource::Homebrew,
        scope: ServiceScope::UserAgent,
        domain: "gui/501".to_string(),
        plist_path: None,
        config,
        pid: None,
        exit_code: None,
        status: ServiceStatus::Running,
        enabled: Some(true),
        loaded: Some(true),
        brew_formula: Some("redis".to_string()),
        brew_status: Some("started".to_string()),
        safety_level: SafetyLevel::UserWritable,
        elevation: ElevationNeeds::none(),
        origin: Origin::unknown(),
        health: Vec::new(),
    }
}

#[test]
fn derives_executable_from_program() {
    let s = sample_service();
    assert_eq!(derive_executable(&s).as_deref(), Some("redis-server"));
}

#[test]
fn derives_executable_from_first_argument() {
    let mut s = sample_service();
    s.config.program = None;
    s.config.arguments = vec!["/usr/local/bin/cool tool".to_string(), "--flag".to_string()];
    assert_eq!(derive_executable(&s).as_deref(), Some("cool tool"));
}

#[test]
fn build_predicate_includes_lifecycle_and_process() {
    let q = UnifiedLogQuery {
        label: "homebrew.mxcl.redis".to_string(),
        executable: Some("redis-server".to_string()),
        window: LogWindow::FifteenMin,
    };
    let pred = build_predicate(&q);
    assert!(pred.contains(r#"eventMessage CONTAINS "homebrew.mxcl.redis""#));
    assert!(pred.contains(r#"process == "redis-server""#));
}

#[test]
fn build_predicate_falls_back_to_lifecycle_only() {
    let q = UnifiedLogQuery {
        label: "com.example.job".to_string(),
        executable: None,
        window: LogWindow::FiveMin,
    };
    assert_eq!(
        build_predicate(&q),
        r#"(processImagePath ENDSWITH "/launchd" AND eventMessage CONTAINS "com.example.job")"#
    );
}

#[test]
fn sanitize_rejects_quotes_and_unicode() {
    assert!(sanitize(r#"label" OR 1=1"#).is_none());
    assert!(sanitize("la bel").is_none());
    assert!(sanitize("com.apple.Finder").is_some());
    assert!(sanitize("redis-server").is_some());
    assert!(sanitize("foo+bar.baz_1").is_some());
}

#[test]
fn build_query_drops_unsafe_executable_but_keeps_label() {
    let mut s = sample_service();
    s.config.program = Some("/usr/local/bin/has space".to_string());
    let q = build_query(&s, LogWindow::FiveMin).unwrap();
    assert_eq!(q.label, "homebrew.mxcl.redis");
    assert!(q.executable.is_none());
}

#[test]
fn parse_compact_strips_header_and_caps() {
    let raw = "Timestamp               Ty Process[PID:TID]\n2026-05-06 a\n2026-05-06 b\n";
    assert_eq!(parse_compact(raw), vec!["2026-05-06 a", "2026-05-06 b"]);
}

#[test]
fn parse_compact_keeps_the_newest_five_hundred_lines() {
    let raw: String = (0..620).map(|i| format!("line {i}\n")).collect();
    let lines = parse_compact(&raw);
    assert_eq!(lines.len(), 500);
    assert_eq!(lines[0], "line 120");
    assert_eq!(lines[499], "line 619");
}

#[test]
fn sanitize_rejects_empty_and_unicode() {
    assert!(sanitize("").is_none());
    assert!(sanitize("café").is_none());
    assert_eq!(sanitize("a.b").as_deref(), Some("a.b"));
}

#[test]
fn an_unsafe_label_gives_no_query() {
    let mut s = sample_service();
    s.label = "bad\"label".to_string();
    assert!(build_query(&s, LogWindow::OneHour).is_none());
}

#[test]
fn windows_cycle_and_become_arguments() {
    assert_eq!(LogWindow::FiveMin.next(), LogWindow::FifteenMin);
    assert_eq!(LogWindow::OneHour.next(), LogWindow::FiveMin);
    assert_eq!(LogWindow::OneHour.label(), "1h");
    let q = UnifiedLogQuery {
        label: "job".to_string(),
        executable: None,
        window: LogWindow::OneHour,
    };
    let args = log_args(&q);
    assert_eq!(&args[..6], &["show", "--last", "1h", "--style", "compact", "--predicate"]);
    assert_eq!(args[6], build_predicate(&q));
}
