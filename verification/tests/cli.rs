use launchdeck::cli::{is_list_command, list_header, list_lines, list_row, run_at_load_label, shows_all, wants_help};
use launchdeck::model::{
    ElevationNeeds, LaunchConfig, Origin, SafetyLevel, Service, ServiceScope, ServiceSource,
    ServiceStatus,
};

fn args(list: &[&str]) -> Vec<String> {
    list.iter().map(|s| s.to_string()).collect()
}

fn service(label: &str) -> Service {
    let mut config = LaunchConfig::empty();
    config.run_at_load = Some(true);
    config.start_interval = Some(300);
    Service {
        id: format!("gui/501:{label}"),
        label: label.to_string(),
        display_name: label.to_string(),
        source: ServiceSource::Launchd,
        scope: ServiceScope::UserAgent,
        domain: "gui/501".to_string(),
        plist_path: Some(format!("/tmp/{label}.plist")),
        config,
        pid: Some(42),
        exit_code: None,
        status: ServiceStatus::Running,
        enabled: Some(true),
        loaded: Some(true),
        brew_formula: None,
        brew_status: None,
        safety_level: SafetyLevel::UserWritable,
        elevation: ElevationNeeds::none(),
        origin: Origin::unknown(),
        health: Vec::new(),
    }
}

#[test]
fn arguments_choose_the_mode() {
    assert!(is_list_command(&args(&["list"])));
    assert!(is_list_command(&args(&["-a", "--list"])));
    assert!(!is_list_command(&args(&["-a", "list"])));
    assert!(!is_list_command(&args(&[])));
    assert!(wants_help(&args(&["x", "-h"])));
    assert!(shows_all(&args(&["list", "--all"])));
    assert!(!shows_all(&args(&["list"])));
}

#[test]
fn list_rows_are_padded_columns() {
    assert_eq!(
        list_header(),
        format!(
            "{:<10} {:<7} {:<13} {:<8} {:<6} {:<24} NAME",
            "STATUS", "SOURCE", "SCOPE", "PID", "LOAD", "SCHEDULE"
        )
    );
    assert_eq!(
        list_row(&service("com.example.job")),
        format!(
            "{:<10} {:<7} {:<13} {:<8} {:<6} {:<24} {}",
            "running", "launchd", "user agent", "42", "yes", "5min", "com.example.job"
        )
    );
    assert_eq!(run_at_load_label(None), "-");
}

#[test]
fn listing_hides_apple_services_by_default() {
    let services = vec![service("com.apple.Finder"), service("com.example.job")];
    assert_eq!(list_lines(&services, false).len(), 2);
    assert_eq!(list_lines(&services, true).len(), 3);
}
