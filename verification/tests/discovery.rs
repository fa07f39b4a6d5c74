use launchdeck::discovery::{health_probes, is_plist_file};
use launchdeck::discovery::{
    apply_brew_services, apply_disabled, apply_runtime, assemble_inventory, classify_origin,
    classify_origin_with, elevation_for, finish_health, parse_disabled, parse_launchctl_print,
    read_plist_dir, reuse_brew_snapshot, runtime_domains, service_dirs, service_from_plist,
    status_from_brew, status_from_state, BrewService, FileOwnership, PathAccess, PlistDirListing,
    PlistFile, PlistValue, RuntimeState, RuntimeTable, TextSet, BREW_TTL_MS,
};
use launchdeck::model::{
    Confidence, ElevationNeeds, LaunchConfig, Origin, Provenance, SafetyLevel, Service,
    ServiceScope, ServiceSource, ServiceStatus,
};
use launchdeck::table::ServiceTable;
use std::path::Path;

fn service_with_plist(config: LaunchConfig) -> Service {
    Service {
        id: "gui/501:com.example.demo".to_string(),
        label: "com.example.demo".to_string(),
        display_name: "com.example.demo".to_string(),
        source: ServiceSource::Launchd,
        scope: ServiceScope::UserAgent,
        domain: "gui/501".to_string(),
        plist_path: Some("/tmp/com.example.demo.plist".to_string()),
        config,
        pid: None,
        exit_code: None,
        status: ServiceStatus::Unloaded,
        enabled: Some(true),
        loaded: Some(false),
        brew_formula: None,
        brew_status: None,
        safety_level: SafetyLevel::UserWritable,
        elevation: ElevationNeeds::none(),
        origin: Origin::unknown(),
        health: Vec::new(),
    }
}

fn runtime_only_service() -> Service {
    Service {
        id: "gui/501:com.example.runtime".to_string(),
        label: "com.example.runtime".to_string(),
        display_name: "com.example.runtime".to_string(),
        source: ServiceSource::Launchd,
        scope: ServiceScope::UserAgent,
        domain: "gui/501".to_string(),
        plist_path: None,
        config: LaunchConfig::empty(),
        pid: Some(123),
        exit_code: None,
        status: ServiceStatus::Running,
        enabled: None,
        loaded: Some(true),
        brew_formula: None,
        brew_status: None,
        safety_level: SafetyLevel::ProtectedVendor,
        elevation: ElevationNeeds::none(),
        origin: Origin::unknown(),
        health: Vec::new(),
    }
}

/// What the file system says of a service's plist and probed executable.
fn finish_on_disk(service: &mut Service) {
    let plist_exists = service
        .plist_path
        .as_deref()
        .is_some_and(|p| Path::new(p).exists());
    let program = service
        .config
        .arguments
        .first()
        .cloned()
        .or_else(|| service.config.program.clone());
    let program_exists = program.is_some_and(|p| Path::new(&p).exists());
    finish_health(service, plist_exists, program_exists);
}

fn root_dir() -> FileOwnership {
    FileOwnership {
        owner_uid: 0,
        mode: 0o40755,
    }
}

#[test]
fn runtime_only_service_health_does_not_claim_parsed_plist() {
    let mut service = runtime_only_service();

    finish_on_disk(&mut service);

    assert_eq!(
        service.health,
        vec!["no source plist discovered for loaded service".to_string()]
    );
}

#[test]
fn parsed_plist_without_program_gets_program_warning() {
    let mut service = service_with_plist(LaunchConfig::empty());

    finish_on_disk(&mut service);

    assert!(service
        .health
        .iter()
        .any(|warning| { warning == "no Program or ProgramArguments in parsed plist" }));
}

#[test]
fn loaded_scheduled_service_is_not_reported_as_stopped() {
    let mut config = LaunchConfig::empty();
    config.start_interval = Some(300);

    let state = RuntimeState {
        pid: None,
        exit_code: Some(0),
        loaded: true,
    };

    assert_eq!(status_from_state(&state, &config), ServiceStatus::Scheduled);
}

fn service_with_command(command: &str, plist: Option<&str>) -> Service {
    let mut service = service_with_plist(LaunchConfig::empty());
    service.config.program = Some(command.to_string());
    service.plist_path = plist.map(str::to_string);
    service
}

#[test]
fn nix_command_wins_over_the_system_directory_it_lives_in() {
    let service = service_with_command(
        "/nix/store/abc-my-daemon/bin/my-daemon",
        Some("/Library/LaunchDaemons/org.nixos.my-daemon.plist"),
    );

    let origin = classify_origin(&service);

    assert_eq!(origin.kind, Provenance::Nix);
    assert_eq!(origin.confidence, Confidence::High);
}

#[test]
fn brew_formula_beats_every_path_heuristic() {
    let mut service = service_with_command("/opt/homebrew/opt/redis/bin/redis-server", None);
    service.brew_formula = Some("redis".to_string());

    assert_eq!(classify_origin(&service).kind, Provenance::Homebrew);
}

#[test]
fn vendor_helper_in_user_agents_is_not_reported_as_a_hand_written_plist() {
    let Some(home) = dirs::home_dir() else {
        return;
    };
    let plist = home.join("Library/LaunchAgents/com.vendor.helper.plist");
    let service = service_with_command(
        "/Applications/Vendor.app/Contents/MacOS/helper",
        plist.to_str(),
    );

    assert_eq!(classify_origin(&service).kind, Provenance::VendorApp);
}

#[test]
fn loaded_job_without_a_plist_is_runtime_only() {
    let mut service = runtime_only_service();
    service.config.program = Some("/usr/bin/true".to_string());

    assert_eq!(classify_origin(&service).kind, Provenance::RuntimeOnly);
}

#[test]
fn root_owned_agent_needs_sudo_for_the_plist_but_not_for_launchctl() {
    // /Library/LaunchAgents is root-owned and not world-writable, yet its jobs
    // live in the caller's gui domain.
    let access = PathAccess {
        meta: Some(root_dir()),
        parent_meta: Some(Some(root_dir())),
    };
    let needs = elevation_for("gui/501", Some(&access), 501);

    assert!(!needs.runtime);
    assert!(needs.plist_write);
}

#[test]
fn system_domain_needs_sudo_at_runtime() {
    let needs = elevation_for("system", None, 501);

    assert!(needs.runtime);
}

#[test]
fn root_needs_no_elevation_anywhere() {
    let access = PathAccess {
        meta: Some(root_dir()),
        parent_meta: Some(Some(root_dir())),
    };
    let needs = elevation_for("system", Some(&access), 0);

    assert_eq!(needs, ElevationNeeds::none());
}

#[test]
fn a_fresh_brew_snapshot_is_reused_instead_of_shelling_out() {
    assert!(reuse_brew_snapshot(false, Some(0)));
    assert!(reuse_brew_snapshot(false, Some(BREW_TTL_MS - 1)));
}

#[test]
fn an_expired_brew_snapshot_is_not_reused() {
    assert!(!reuse_brew_snapshot(false, Some(BREW_TTL_MS * 2)));
    assert!(!reuse_brew_snapshot(false, Some(BREW_TTL_MS)));
}

#[test]
fn a_forced_refresh_never_reuses_the_brew_snapshot() {
    assert!(!reuse_brew_snapshot(true, Some(0)));
    assert!(!reuse_brew_snapshot(false, None));
}

#[test]
fn disabled_parses_modern_macos_wording() {
    let text = r#"
	disabled services = {
		"com.docker.helper" => enabled
		"com.example.off" => disabled
	}
"#;
    let mut disabled = TextSet::new();
    parse_disabled("gui/501", text, &mut disabled);

    assert!(disabled.contains("gui/501:com.example.off"));
    assert!(!disabled.contains("gui/501:com.docker.helper"));
}

#[test]
fn disabled_still_parses_legacy_boolean_wording() {
    let text = "\t\t\"com.example.off\" => true\n\t\t\"com.example.on\" => false\n";
    let mut disabled = TextSet::new();
    parse_disabled("system", text, &mut disabled);

    assert_eq!(
        disabled.to_vec(),
        vec!["system:com.example.off".to_string()]
    );
}

#[test]
fn unloaded_scheduled_service_stays_unloaded_until_bootstrapped() {
    let mut service = service_with_plist(LaunchConfig::empty());
    service.config.start_interval = Some(300);

    finish_on_disk(&mut service);

    assert_eq!(service.status, ServiceStatus::Unloaded);
}

const PRINT: &str = "gui/501 = {\n\ttype = login\n\tservices = {\n\t\t  123      0 \tcom.example.running\n\t\t    -     78 \tcom.example.failed\n\t\t    -      0 \tcom.apple.xpc.launchd.oneshot.0x1\n\t\t    -      0 \tapplication.com.example.app.123\n\t}\n\tpid = 1\n}\n";

#[test]
fn launchctl_print_lists_loaded_jobs_with_pid_and_exit_code() {
    let mut runtime = RuntimeTable::new();
    parse_launchctl_print("gui/501", PRINT, &mut runtime);

    assert_eq!(runtime.len(), 2);
    let mut seen = Vec::new();
    for i in 0..runtime.len() {
        let (id, state) = runtime.entry(i);
        seen.push((id.clone(), state));
    }
    seen.sort_by(|a, b| a.0.cmp(&b.0));
    assert_eq!(
        seen,
        vec![
            (
                "gui/501:com.example.failed".to_string(),
                RuntimeState {
                    pid: None,
                    exit_code: Some(78),
                    loaded: true
                }
            ),
            (
                "gui/501:com.example.running".to_string(),
                RuntimeState {
                    pid: Some(123),
                    exit_code: Some(0),
                    loaded: true
                }
            ),
        ]
    );
}

fn dict(entries: Vec<(&str, PlistValue)>) -> PlistValue {
    PlistValue::Dictionary(
        entries
            .into_iter()
            .map(|(k, v)| (k.to_string(), v))
            .collect(),
    )
}

fn writable_by(uid: u32) -> PathAccess {
    PathAccess {
        meta: Some(FileOwnership {
            owner_uid: uid,
            mode: 0o100644,
        }),
        parent_meta: Some(Some(FileOwnership {
            owner_uid: uid,
            mode: 0o40755,
        })),
    }
}

fn demo_plist(path: &str) -> PlistFile {
    PlistFile {
        path: path.to_string(),
        value: Some(dict(vec![
            ("Label", PlistValue::String("com.example.demo".to_string())),
            (
                "ProgramArguments",
                PlistValue::Array(vec![
                    PlistValue::String("/usr/bin/demo".to_string()),
                    PlistValue::String("--serve".to_string()),
                ]),
            ),
            ("RunAtLoad", PlistValue::Boolean(true)),
            ("KeepAlive", dict(vec![("SuccessfulExit", PlistValue::Boolean(false))])),
            ("StartInterval", PlistValue::Integer(600)),
            (
                "StartCalendarInterval",
                dict(vec![
                    ("Hour", PlistValue::Integer(6)),
                    ("Minute", PlistValue::Integer(0)),
                ]),
            ),
        ])),
        access: writable_by(501),
    }
}

#[test]
fn a_parsed_plist_becomes_an_unloaded_launchd_row() {
    let file = demo_plist("/Users/me/Library/LaunchAgents/com.example.demo.plist");
    let service = service_from_plist(&file, ServiceScope::UserAgent, 501).expect("parses");

    assert_eq!(service.id, "gui/501:com.example.demo");
    assert_eq!(service.status, ServiceStatus::Unloaded);
    assert_eq!(service.loaded, Some(false));
    assert_eq!(service.safety_level, SafetyLevel::UserWritable);
    assert_eq!(service.config.program, None);
    assert_eq!(service.config.arguments, vec!["/usr/bin/demo", "--serve"]);
    assert_eq!(service.config.run_at_load, Some(true));
    assert_eq!(service.config.keep_alive.as_deref(), Some("conditional"));
    assert_eq!(service.config.start_interval, Some(600));
    assert_eq!(service.config.schedule_summary(), "10min, 06:00");
    assert_eq!(service.elevation, ElevationNeeds::none());
}

#[test]
fn a_homebrew_label_shows_its_formula_name() {
    let mut file = demo_plist("/Users/me/Library/LaunchAgents/homebrew.mxcl.redis.plist");
    file.value = Some(dict(vec![(
        "Label",
        PlistValue::String("homebrew.mxcl.redis".to_string()),
    )]));
    let service = service_from_plist(&file, ServiceScope::UserAgent, 501).expect("parses");

    assert_eq!(service.label, "homebrew.mxcl.redis");
    assert_eq!(service.display_name, "redis");
}

#[test]
fn a_plist_that_is_not_a_dictionary_is_an_error() {
    let mut file = demo_plist("/tmp/x.plist");
    file.value = Some(PlistValue::Boolean(true));

    assert_eq!(
        service_from_plist(&file, ServiceScope::UserAgent, 501).err(),
        Some("/tmp/x.plist is not a plist dictionary".to_string())
    );
}

#[test]
fn unreadable_plists_keep_a_row_with_the_parse_error() {
    let mut table = ServiceTable::new();
    let files = vec![
        PlistFile {
            path: "/Library/LaunchDaemons/broken.plist".to_string(),
            value: None,
            access: writable_by(0),
        },
        PlistFile {
            path: "/Library/LaunchDaemons/README.txt".to_string(),
            value: None,
            access: writable_by(0),
        },
    ];
    read_plist_dir(
        "/Library/LaunchDaemons",
        ServiceScope::SystemDaemon,
        501,
        &files,
        &mut table,
    );

    let rows = table.into_ordered();
    assert_eq!(rows.len(), 1);
    let row = &rows[0];
    assert_eq!(row.id, "unreadable:/Library/LaunchDaemons/broken.plist");
    assert_eq!(row.label, "broken");
    assert_eq!(row.status, ServiceStatus::Unknown);
    assert_eq!(row.safety_level, SafetyLevel::AdminRequired);
    assert_eq!(
        row.health,
        vec!["plist parse failed: parse /Library/LaunchDaemons/broken.plist".to_string()]
    );
    assert!(row.elevation.runtime);
    assert!(row.elevation.plist_write);
}

#[test]
fn runtime_state_updates_known_rows_and_adds_protected_runtime_rows() {
    let mut table = ServiceTable::new();
    let files = vec![demo_plist("/Users/me/Library/LaunchAgents/com.example.demo.plist")];
    read_plist_dir(
        "/Users/me/Library/LaunchAgents",
        ServiceScope::UserAgent,
        501,
        &files,
        &mut table,
    );
    let mut runtime = RuntimeTable::new();
    parse_launchctl_print(
        "gui/501",
        "services = {\n 77 0 com.example.demo\n - 0 homebrew.mxcl.redis\n}\n",
        &mut runtime,
    );
    apply_runtime(&mut table, &runtime, 501);

    let rows = table.into_ordered();
    assert_eq!(rows.len(), 2);
    assert_eq!(rows[0].id, "gui/501:com.example.demo");
    assert_eq!(rows[0].pid, Some(77));
    assert_eq!(rows[0].status, ServiceStatus::Running);
    assert_eq!(rows[0].loaded, Some(true));
    assert_eq!(rows[1].id, "gui/501:homebrew.mxcl.redis");
    assert_eq!(rows[1].display_name, "redis");
    assert_eq!(rows[1].plist_path, None);
    assert_eq!(rows[1].safety_level, SafetyLevel::ProtectedVendor);
    assert_eq!(rows[1].status, ServiceStatus::Stopped);
}

#[test]
fn disabled_marks_rows_and_enables_the_rest() {
    let mut table = ServiceTable::new();
    table.insert(service_with_plist(LaunchConfig::empty()));
    table.insert(runtime_only_service());
    let mut disabled = TextSet::new();
    disabled.insert("gui/501:com.example.demo".to_string());

    apply_disabled(&mut table, &disabled);

    let rows = table.into_ordered();
    assert_eq!(rows[0].id, "gui/501:com.example.demo");
    assert_eq!(rows[0].enabled, Some(false));
    assert_eq!(rows[0].status, ServiceStatus::Disabled);
    assert_eq!(rows[1].enabled, Some(true));
    assert_eq!(rows[1].status, ServiceStatus::Running);
}

#[test]
fn brew_services_merge_into_launchd_rows_or_get_their_own() {
    let mut table = ServiceTable::new();
    let mut known = runtime_only_service();
    known.id = "gui/501:homebrew.mxcl.redis".to_string();
    known.label = "homebrew.mxcl.redis".to_string();
    known.status = ServiceStatus::Unloaded;
    known.pid = None;
    table.insert(known);
    let brew = vec![
        BrewService {
            name: "redis".to_string(),
            status: "started".to_string(),
            user: Some("me".to_string()),
            plist: None,
            exit_code: Some(0),
        },
        BrewService {
            name: "postgresql".to_string(),
            status: "error".to_string(),
            user: Some("root".to_string()),
            plist: None,
            exit_code: Some(1),
        },
    ];

    apply_brew_services(501, &mut table, &brew);

    let rows = table.into_ordered();
    assert_eq!(rows.len(), 2);
    let redis = &rows[0];
    assert_eq!(redis.id, "gui/501:homebrew.mxcl.redis");
    assert_eq!(redis.source, ServiceSource::Both);
    assert_eq!(redis.brew_formula.as_deref(), Some("redis"));
    assert_eq!(redis.status, ServiceStatus::Running);
    assert_eq!(redis.exit_code, Some(0));
    let pg = &rows[1];
    assert_eq!(pg.id, "system:homebrew.mxcl.postgresql");
    assert_eq!(pg.source, ServiceSource::Homebrew);
    assert_eq!(pg.scope, ServiceScope::SystemDaemon);
    assert_eq!(pg.status, ServiceStatus::Failed);
    assert_eq!(
        pg.config.program.as_deref(),
        Some("brew services start postgresql")
    );
    assert!(pg.elevation.runtime);
}

#[test]
fn brew_status_words_map_to_statuses() {
    assert_eq!(status_from_brew("started", None), ServiceStatus::Running);
    assert_eq!(status_from_brew("stopped", None), ServiceStatus::Stopped);
    assert_eq!(status_from_brew("error", None), ServiceStatus::Failed);
    assert_eq!(status_from_brew("none", None), ServiceStatus::Unloaded);
    assert_eq!(status_from_brew("other", Some(3)), ServiceStatus::Failed);
    assert_eq!(status_from_brew("other", Some(0)), ServiceStatus::Unknown);
}

#[test]
fn plist_directories_and_runtime_domains() {
    let dirs = service_dirs(Some("/Users/me"));
    assert_eq!(dirs.len(), 5);
    assert_eq!(dirs[0].0, "/Users/me/Library/LaunchAgents");
    assert_eq!(dirs[0].1, ServiceScope::UserAgent);
    assert_eq!(dirs[4].0, "/System/Library/LaunchDaemons");
    assert_eq!(service_dirs(None).len(), 4);
    assert_eq!(
        runtime_domains(501),
        vec!["gui/501".to_string(), "user/501".to_string(), "system".to_string()]
    );
}

#[test]
fn the_whole_pass_orders_rows_by_id_and_finishes_them() {
    let listings = vec![PlistDirListing {
        dir: "/Users/me/Library/LaunchAgents".to_string(),
        scope: ServiceScope::UserAgent,
        files: vec![demo_plist("/Users/me/Library/LaunchAgents/com.example.demo.plist")],
    }];
    let mut runtime = RuntimeTable::new();
    parse_launchctl_print("gui/501", "services = {\n - 0 com.apple.Finder\n}\n", &mut runtime);
    let disabled = TextSet::new();
    let existing = TextSet::new();

    let inventory = assemble_inventory(
        501,
        &listings,
        &runtime,
        &disabled,
        None,
        Some("/Users/me"),
        &existing,
        vec!["warned".to_string()],
    );

    assert_eq!(inventory.warnings, vec!["warned".to_string()]);
    let ids: Vec<&str> = inventory.services.iter().map(|s| s.id.as_str()).collect();
    assert_eq!(ids, vec!["gui/501:com.apple.Finder", "gui/501:com.example.demo"]);
    let demo = &inventory.services[1];
    assert_eq!(demo.origin.kind, Provenance::UserPlist);
    assert_eq!(demo.enabled, Some(true));
    assert!(demo
        .health
        .contains(&"executable does not exist: /usr/bin/demo".to_string()));
    let finder = &inventory.services[0];
    assert_eq!(finder.origin.kind, Provenance::System);
}

#[test]
fn classification_with_a_known_home_finds_user_plists() {
    let service = service_with_command(
        "/Users/me/bin/tool",
        Some("/Users/me/Library/LaunchAgents/com.example.tool.plist"),
    );
    let origin = classify_origin_with(&service, Some("/Users/me"));
    assert_eq!(origin.kind, Provenance::UserPlist);
    assert_eq!(origin.summary(), "user-plist (high)");
}

#[test]
fn health_probes_list_plists_and_programs() {
    let mut table = ServiceTable::new();
    let mut s = service_with_plist(LaunchConfig::empty());
    s.config.arguments = vec!["/usr/bin/demo".to_string()];
    table.insert(s);
    table.insert(runtime_only_service());
    assert_eq!(
        health_probes(&table),
        vec!["/tmp/com.example.demo.plist".to_string(), "/usr/bin/demo".to_string()]
    );
}

#[test]
fn only_files_ending_in_plist_are_plist_files() {
    assert!(is_plist_file("/Library/LaunchAgents/com.example.demo.plist"));
    assert!(!is_plist_file("/Library/LaunchAgents/README.txt"));
    assert!(!is_plist_file("/Library/LaunchAgents/plist"));
    assert!(!is_plist_file("/Library/LaunchAgents/.DS_Store"));
}
