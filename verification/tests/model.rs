use launchdeck::model::{
    format_interval, CalendarSchedule, ElevationNeeds, LaunchConfig, Origin, Provenance,
    ServiceStatus,
};

#[test]
fn calendar_schedule_describes_plain_times() {
    let schedule = CalendarSchedule {
        minute: Some(0),
        hour: Some(6),
        day: None,
        weekday: None,
        month: None,
    };

    assert_eq!(schedule.describe(), "06:00");
}

#[test]
fn calendar_schedule_describes_calendar_dates_compactly() {
    let schedule = CalendarSchedule {
        minute: Some(30),
        hour: Some(9),
        day: None,
        weekday: Some(1),
        month: None,
    };

    assert_eq!(schedule.describe(), "Mon 09:30");
}

#[test]
fn start_interval_uses_short_units() {
    assert_eq!(format_interval(300), "5min");
    assert_eq!(format_interval(3600), "1h");
    assert_eq!(format_interval(86_400), "1d");
    assert_eq!(format_interval(45), "45s");
}

#[test]
fn launch_config_summarizes_interval_and_calendar_entries() {
    let config = LaunchConfig {
        program: None,
        arguments: Vec::new(),
        working_directory: None,
        stdout_path: None,
        stderr_path: None,
        run_at_load: None,
        keep_alive: None,
        start_interval: Some(3600),
        start_calendar_intervals: vec![
            CalendarSchedule {
                minute: Some(0),
                hour: Some(0),
                day: None,
                weekday: None,
                month: None,
            },
            CalendarSchedule {
                minute: Some(30),
                hour: Some(12),
                day: None,
                weekday: None,
                month: None,
            },
        ],
    };

    assert_eq!(config.schedule_summary(), "1h, 00:00, 12:30");
}

#[test]
fn a_config_without_a_schedule_summarizes_as_a_dash() {
    assert_eq!(LaunchConfig::empty().schedule_summary(), "-");
    assert_eq!(LaunchConfig::empty().command_preview(), "-");
}

#[test]
fn command_preview_prefers_arguments() {
    let mut config = LaunchConfig::empty();
    config.program = Some("/bin/prog".to_string());
    assert_eq!(config.command_preview(), "/bin/prog");
    config.arguments = vec!["/bin/echo".to_string(), "hi".to_string()];
    assert_eq!(config.command_preview(), "/bin/echo hi");
}

#[test]
fn elevation_summary_names_each_axis() {
    assert_eq!(ElevationNeeds::none().summary(), "none needed");
    let all = ElevationNeeds {
        runtime: true,
        plist_write: true,
        plist_remove: true,
    };
    assert_eq!(all.summary(), "sudo for launchctl, plist edit, plist delete");
}

#[test]
fn origin_summary_and_statuses_read_as_text() {
    assert_eq!(Origin::unknown().summary(), "unknown (guess)");
    assert_eq!(Provenance::Nix.label(), "nix");
    assert_eq!(ServiceStatus::Running.to_text(), "running");
}
