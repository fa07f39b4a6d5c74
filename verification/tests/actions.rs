use launchdeck::actions::{compact_output, refusal};
use launchdeck::actions::{effective_command, effective_followup, plan, shell_quote, ActionKind, Elevation};
use launchdeck::model::{
    ElevationNeeds, LaunchConfig, Origin, SafetyLevel, Service, ServiceScope, ServiceSource,
    ServiceStatus,
};

fn service(source: ServiceSource, run_at_load: Option<bool>) -> Service {
    let mut config = LaunchConfig::empty();
    config.run_at_load = run_at_load;

    Service {
        id: "gui/501/com.example.demo".to_string(),
        label: "com.example.demo".to_string(),
        display_name: "com.example.demo".to_string(),
        source,
        scope: ServiceScope::UserAgent,
        domain: "gui/501".to_string(),
        plist_path: Some("/tmp/com.example.demo.plist".to_string()),
        config,
        pid: None,
        exit_code: None,
        status: ServiceStatus::Stopped,
        enabled: Some(true),
        loaded: Some(true),
        brew_formula: Some("demo".to_string()),
        brew_status: None,
        safety_level: SafetyLevel::UserWritable,
        elevation: ElevationNeeds::none(),
        origin: Origin::unknown(),
        health: Vec::new(),
    }
}

#[test]
fn global_agent_start_needs_no_sudo_even_though_its_plist_is_root_owned() {
    let mut service = service(ServiceSource::Launchd, Some(false));
    service.scope = ServiceScope::GlobalAgent;
    service.safety_level = SafetyLevel::AdminRequired;
    service.plist_path = Some("/Library/LaunchAgents/com.example.demo.plist".to_string());
    // Root owns the file, but the job still runs in the caller's gui domain.
    service.elevation = ElevationNeeds {
        runtime: false,
        plist_write: true,
        plist_remove: true,
    };

    let plan = plan(&service, ActionKind::Start);

    assert!(!plan.is_blocked());
    assert!(!plan.needs_sudo());
    assert_eq!(plan.command.first().map(String::as_str), Some("launchctl"));
}

#[test]
fn deleting_a_root_owned_plist_is_planned_through_sudo() {
    let mut service = service(ServiceSource::Launchd, Some(false));
    service.elevation = ElevationNeeds {
        runtime: false,
        plist_write: true,
        plist_remove: true,
    };

    let plan = plan(&service, ActionKind::Delete);

    assert!(!plan.is_blocked());
    assert!(plan.needs_sudo());
    assert_eq!(
        effective_command(&plan).first().map(String::as_str),
        Some("sudo")
    );
    assert!(plan.command_display().starts_with("sudo -- "));
}

#[test]
fn system_daemon_runtime_actions_need_sudo() {
    let mut service = service(ServiceSource::Launchd, Some(false));
    service.scope = ServiceScope::SystemDaemon;
    service.domain = "system".to_string();
    service.elevation = ElevationNeeds {
        runtime: true,
        plist_write: true,
        plist_remove: true,
    };

    let plan = plan(&service, ActionKind::Stop);

    assert!(!plan.is_blocked());
    assert!(plan.needs_sudo());
    assert_eq!(
        effective_command(&plan),
        vec![
            "sudo".to_string(),
            "--".to_string(),
            "launchctl".to_string(),
            "bootout".to_string(),
            "system/com.example.demo".to_string(),
        ]
    );
}

#[test]
fn editing_a_plist_never_asks_for_sudo() {
    let mut service = service(ServiceSource::Launchd, Some(false));
    service.elevation = ElevationNeeds {
        runtime: true,
        plist_write: true,
        plist_remove: true,
    };

    assert!(!plan(&service, ActionKind::EditPlist).needs_sudo());
}

#[test]
fn run_at_load_toggle_updates_launchd_plist() {
    let plan = plan(
        &service(ServiceSource::Launchd, Some(false)),
        ActionKind::ToggleRunAtLoad,
    );

    assert!(!plan.is_blocked());
    assert_eq!(plan.command.first().map(String::as_str), Some("/bin/sh"));
    assert_eq!(plan.command.get(1).map(String::as_str), Some("-lc"));
    assert!(plan
        .command
        .get(2)
        .is_some_and(|command| command.contains("Add :RunAtLoad bool true")));
    assert!(plan
        .command
        .get(2)
        .is_some_and(|command| command.contains("plutil -lint")));
}

#[test]
fn run_at_load_toggle_is_blocked_for_brew_services() {
    let plan = plan(
        &service(ServiceSource::Homebrew, Some(false)),
        ActionKind::ToggleRunAtLoad,
    );

    assert!(plan.is_blocked());
    assert_eq!(
        plan.blocked_reason.as_deref(),
        Some("Homebrew service plists are managed by brew services")
    );
}

#[test]
fn edit_plist_opens_launchd_plist_in_text_editor() {
    let plan = plan(
        &service(ServiceSource::Launchd, Some(false)),
        ActionKind::EditPlist,
    );

    assert!(!plan.is_blocked());
    assert_eq!(
        plan.command,
        vec![
            "open".to_string(),
            "-t".to_string(),
            "/tmp/com.example.demo.plist".to_string()
        ]
    );
}

#[test]
fn stop_launchd_service_unloads_job() {
    let plan = plan(
        &service(ServiceSource::Launchd, Some(false)),
        ActionKind::Stop,
    );

    assert!(!plan.is_blocked());
    assert_eq!(
        plan.command,
        vec![
            "launchctl".to_string(),
            "bootout".to_string(),
            "gui/501/com.example.demo".to_string(),
        ]
    );
}

#[test]
fn delete_loaded_service_unloads_before_removing_plist() {
    let plan = plan(
        &service(ServiceSource::Launchd, Some(false)),
        ActionKind::Delete,
    );

    assert!(!plan.is_blocked());
    assert_eq!(plan.command.first().map(String::as_str), Some("/bin/sh"));
    assert!(plan.command.get(2).is_some_and(|command| {
        command.contains("launchctl bootout 'gui/501/com.example.demo'")
    }));
    assert!(plan
        .command
        .get(2)
        .is_some_and(|command| command.contains("rm -- '/tmp/com.example.demo.plist'")));
}

#[test]
fn read_only_system_services_are_blocked_without_a_command() {
    let mut service = service(ServiceSource::Launchd, Some(false));
    service.safety_level = SafetyLevel::ReadonlySystem;

    let plan = plan(&service, ActionKind::Restart);

    assert!(plan.is_blocked());
    assert!(plan.command.is_empty());
    assert_eq!(plan.command_display(), "-");
    assert_eq!(
        plan.blocked_reason.as_deref(),
        Some("system services under /System/Library are inspect-only")
    );
}

#[test]
fn protected_vendor_services_are_blocked() {
    let mut service = service(ServiceSource::Launchd, Some(false));
    service.safety_level = SafetyLevel::ProtectedVendor;

    let plan = plan(&service, ActionKind::Delete);

    assert!(plan.is_blocked());
    assert_eq!(plan.elevation, Elevation::Unprivileged);
    assert_eq!(
        plan.blocked_reason.as_deref(),
        Some("vendor/runtime services are protected until an explicit allowlist exists")
    );
}

#[test]
fn brew_start_goes_through_brew_services() {
    let plan = plan(&service(ServiceSource::Homebrew, None), ActionKind::Start);

    assert!(!plan.is_blocked());
    assert_eq!(
        plan.command,
        vec![
            "brew".to_string(),
            "services".to_string(),
            "start".to_string(),
            "demo".to_string()
        ]
    );
    assert_eq!(plan.command_display(), "brew services start demo");
}

#[test]
fn action_labels_are_the_prompt_words() {
    assert_eq!(ActionKind::Start.label(), "start");
    assert_eq!(ActionKind::ToggleRunAtLoad.label(), "toggle RunAtLoad");
    assert_eq!(ActionKind::Delete.label(), "delete");
}

#[test]
fn refused_plans_and_compacted_output() {
    let mut locked = service(ServiceSource::Launchd, None);
    locked.safety_level = SafetyLevel::ReadonlySystem;
    let blocked = plan(&locked, ActionKind::Stop);
    let refused = refusal(&blocked).expect("refused");
    assert!(!refused.success);
    assert_eq!(refused.message, "system services under /System/Library are inspect-only");
    assert!(refusal(&plan(&service(ServiceSource::Launchd, None), ActionKind::Stop)).is_none());
    assert_eq!(compact_output("  \n", "command succeeded"), "command succeeded");
    assert_eq!(compact_output("a\nb\nc\nd\n", "x"), "a | b | c");
}

fn root_service(loaded: Option<bool>) -> Service {
    let mut service = service(ServiceSource::Launchd, Some(false));
    service.loaded = loaded;
    service.elevation = ElevationNeeds {
        runtime: true,
        plist_write: true,
        plist_remove: true,
    };
    service
}

fn words(items: &[&str]) -> Vec<String> {
    items.iter().map(|s| s.to_string()).collect()
}

#[test]
fn root_delete_of_a_loaded_job_is_two_argument_lists() {
    let plan = plan(&root_service(Some(true)), ActionKind::Delete);

    assert!(!plan.is_blocked());
    assert!(plan.needs_sudo());
    assert_eq!(
        effective_command(&plan),
        words(&["sudo", "--", "launchctl", "bootout", "gui/501/com.example.demo"])
    );
    assert_eq!(
        effective_followup(&plan),
        words(&["sudo", "--", "rm", "--", "/tmp/com.example.demo.plist"])
    );
    assert_eq!(
        plan.command_display(),
        "sudo -- launchctl bootout gui/501/com.example.demo && sudo -- rm -- /tmp/com.example.demo.plist"
    );
}

#[test]
fn root_restart_of_an_unloaded_job_bootstraps_then_kickstarts() {
    let plan = plan(&root_service(Some(false)), ActionKind::Restart);

    assert!(!plan.is_blocked());
    assert_eq!(
        plan.command,
        words(&["launchctl", "bootstrap", "gui/501", "/tmp/com.example.demo.plist"])
    );
    assert_eq!(
        plan.followup,
        words(&["launchctl", "kickstart", "-k", "gui/501/com.example.demo"])
    );
}

#[test]
fn root_run_at_load_toggle_uses_plutil_without_a_shell() {
    let mut service = root_service(Some(true));
    service.config.run_at_load = Some(true);
    let plan = plan(&service, ActionKind::ToggleRunAtLoad);

    assert!(!plan.is_blocked());
    assert!(plan.needs_sudo());
    assert_eq!(
        plan.command,
        words(&[
            "plutil",
            "-replace",
            "RunAtLoad",
            "-bool",
            "false",
            "/tmp/com.example.demo.plist"
        ])
    );
    assert!(plan.followup.is_empty());
    assert_eq!(effective_followup(&plan), Vec::<String>::new());
}

#[test]
fn root_plans_never_start_with_a_shell() {
    let kinds = [
        ActionKind::Start,
        ActionKind::Stop,
        ActionKind::Restart,
        ActionKind::ToggleEnabled,
        ActionKind::ToggleRunAtLoad,
        ActionKind::EditPlist,
        ActionKind::Delete,
    ];
    for loaded in [Some(true), Some(false), None] {
        for kind in kinds {
            let plan = plan(&root_service(loaded), kind);
            if plan.needs_sudo() && !plan.is_blocked() {
                assert_ne!(plan.command[0], "/bin/sh");
                assert!(plan.followup.first().map_or(true, |w| w != "/bin/sh"));
            }
        }
    }
}

#[test]
fn unprivileged_delete_of_a_loaded_job_stays_one_command() {
    let plan = plan(&service(ServiceSource::Launchd, Some(false)), ActionKind::Delete);
    assert!(!plan.needs_sudo());
    assert!(plan.followup.is_empty());
}

#[test]
fn shell_quote_escapes_single_quotes() {
    assert_eq!(shell_quote("it's"), "'it'\\''s'");
    assert_eq!(shell_quote("plain"), "'plain'");
    assert_eq!(shell_quote(""), "''");
}
