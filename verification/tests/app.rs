use launchdeck::app::{log_window, tail_lines};
use launchdeck::oslog::{LogWindow, UnifiedLogResult};
use launchdeck::app::{
    detail_item_value, handle_key, is_apple_service, should_refresh, status_detail_action,
    status_rank, App, DetailItem, Key, KeyEffect, KeyInput, LogStream, SortMode, SourceFilter,
    StatusFilter, ViewMode,
};
use launchdeck::actions::{ActionKind, ActionResult};
use launchdeck::model::{
    Confidence, ElevationNeeds, Inventory, LaunchConfig, Origin, Provenance, SafetyLevel, Service,
    ServiceScope, ServiceSource, ServiceStatus,
};

fn service(label: &str, status: ServiceStatus) -> Service {
    Service {
        id: format!("gui/501:{label}"),
        label: label.to_string(),
        display_name: label.to_string(),
        source: ServiceSource::Launchd,
        scope: ServiceScope::UserAgent,
        domain: "gui/501".to_string(),
        plist_path: Some(format!("/tmp/{label}.plist")),
        config: LaunchConfig::empty(),
        pid: if status == ServiceStatus::Running {
            Some(123)
        } else {
            None
        },
        exit_code: None,
        status,
        enabled: Some(true),
        loaded: Some(true),
        brew_formula: None,
        brew_status: None,
        safety_level: SafetyLevel::UserWritable,
        elevation: ElevationNeeds::none(),
        origin: Origin::unknown(),
        health: Vec::new(),
    }
}

fn inventory(services: Vec<Service>) -> Inventory {
    Inventory {
        services,
        warnings: Vec::new(),
    }
}

fn listed_labels(app: &App) -> Vec<String> {
    app.filtered
        .iter()
        .map(|i| app.services[*i].label.clone())
        .collect()
}

fn key(code: Key) -> KeyInput {
    KeyInput {
        code,
        ctrl: false,
        alt: false,
    }
}

fn refresh_preserves_selected_service_identity_after_resort() {
    let mut app = App::new(inventory(vec![
        service("com.example.selected", ServiceStatus::Running),
        service("com.example.other", ServiceStatus::Stopped),
    ]));
    app.open_detail();

    app.apply_inventory(inventory(vec![
        service("com.example.selected", ServiceStatus::Unloaded),
        service("com.example.other", ServiceStatus::Running),
    ]));

    assert_eq!(app.mode, ViewMode::Detail);
    assert_eq!(
        app.selected_service_id().as_deref(),
        Some("gui/501:com.example.selected")
    );
}

fn refresh_closes_detail_when_selected_service_leaves_filter() {
    let mut app = App::new(inventory(vec![
        service("com.example.selected", ServiceStatus::Running),
        service("com.example.other", ServiceStatus::Running),
    ]));
    app.status_filter = StatusFilter::Running;
    app.apply_filter_with_selection(None);
    let Some(position) = app
        .filtered
        .iter()
        .position(|index| app.services[*index].id == "gui/501:com.example.selected")
    else {
        panic!("selected service missing from test inventory");
    };
    app.selected = position;
    app.open_detail();

    app.apply_inventory(inventory(vec![
        service("com.example.selected", ServiceStatus::Unloaded),
        service("com.example.other", ServiceStatus::Running),
    ]));

    assert_eq!(app.mode, ViewMode::Overview);
    assert_eq!(
        app.selected_service_id().as_deref(),
        Some("gui/501:com.example.other")
    );
}

#[test]
fn app_refresh_preserves_selected_service_identity_after_resort() {
    refresh_preserves_selected_service_identity_after_resort();
}

#[test]
fn app_refresh_closes_detail_when_selected_service_leaves_filter() {
    refresh_closes_detail_when_selected_service_leaves_filter();
}

#[test]
fn mod_refresh_preserves_selected_service_identity_after_resort() {
    refresh_preserves_selected_service_identity_after_resort();
}

#[test]
fn mod_refresh_closes_detail_when_selected_service_leaves_filter() {
    refresh_closes_detail_when_selected_service_leaves_filter();
}

#[test]
fn the_status_sort_puts_failures_first_and_ties_by_name() {
    let app = App::new(inventory(vec![
        service("b.running", ServiceStatus::Running),
        service("a.running", ServiceStatus::Running),
        service("c.failed", ServiceStatus::Failed),
        service("d.stopped", ServiceStatus::Stopped),
    ]));
    assert_eq!(
        listed_labels(&app),
        vec!["c.failed", "a.running", "b.running", "d.stopped"]
    );
    assert_eq!(app.status_line, "inventory ready; actions require confirmation");
}

#[test]
fn the_name_sort_ignores_case_and_keeps_ties_in_inventory_order() {
    let mut first = service("one", ServiceStatus::Running);
    first.display_name = "Beta".to_string();
    let mut second = service("two", ServiceStatus::Running);
    second.display_name = "alpha".to_string();
    let mut third = service("three", ServiceStatus::Running);
    third.display_name = "beta".to_string();
    let mut app = App::new(inventory(vec![first, second, third]));
    app.sort_mode = SortMode::Name;
    app.apply_filter_with_selection(None);
    assert_eq!(listed_labels(&app), vec!["two", "one", "three"]);
}

#[test]
fn the_health_sort_puts_the_most_warnings_first() {
    let mut warned = service("warned", ServiceStatus::Running);
    warned.health = vec!["a".to_string(), "b".to_string()];
    let mut once = service("once", ServiceStatus::Running);
    once.health = vec!["a".to_string()];
    let mut app = App::new(inventory(vec![service("clean", ServiceStatus::Running), once, warned]));
    app.cycle_sort();
    app.cycle_sort();
    assert_eq!(app.sort_mode, SortMode::Health);
    assert_eq!(listed_labels(&app), vec!["warned", "once", "clean"]);
    app.toggle_warnings_only();
    assert_eq!(listed_labels(&app), vec!["warned", "once"]);
    assert_eq!(app.status_line, "showing warnings only");
}

#[test]
fn apple_services_are_hidden_until_asked_for() {
    let mut finder = service("com.apple.Finder", ServiceStatus::Running);
    finder.plist_path = None;
    let mut app = App::new(inventory(vec![finder, service("com.example.mine", ServiceStatus::Running)]));
    assert_eq!(listed_labels(&app), vec!["com.example.mine"]);
    app.toggle_apple();
    assert_eq!(listed_labels(&app).len(), 2);
    assert_eq!(app.status_line, "showing Apple services");
    let mut system = service("org.example.x", ServiceStatus::Running);
    system.plist_path = Some("/System/Library/LaunchDaemons/x.plist".to_string());
    assert!(is_apple_service(&system));
}

#[test]
fn search_and_filters_narrow_the_listing() {
    let mut brew = service("homebrew.mxcl.redis", ServiceStatus::Failed);
    brew.source = ServiceSource::Homebrew;
    brew.display_name = "redis".to_string();
    let mut app = App::new(inventory(vec![brew, service("com.example.web", ServiceStatus::Running)]));
    app.cycle_source_filter();
    assert_eq!(app.source_filter, SourceFilter::Homebrew);
    assert_eq!(listed_labels(&app), vec!["homebrew.mxcl.redis"]);
    assert_eq!(app.status_line, "source filter: brew");
    app.cycle_source_filter();
    assert_eq!(listed_labels(&app), vec!["com.example.web"]);
    app.cycle_source_filter();
    app.start_quick_search('W');
    assert_eq!(listed_labels(&app).len(), 2);
    app.type_search('E');
    app.type_search('B');
    assert_eq!(app.search, "WEB");
    assert_eq!(listed_labels(&app), vec!["com.example.web"]);
    app.erase_search();
    assert_eq!(app.search, "WE");
    app.clear_search();
    assert_eq!(listed_labels(&app).len(), 2);
    app.cycle_status_filter();
    assert_eq!(app.status_filter, StatusFilter::Running);
    assert_eq!(listed_labels(&app), vec!["com.example.web"]);
}

#[test]
fn planning_and_confirming_an_action() {
    let mut app = App::new(inventory(vec![service("com.example.web", ServiceStatus::Running)]));
    app.plan_action(ActionKind::Stop);
    assert_eq!(
        app.status_line,
        "stop com.example.web: press y to run `launchctl bootout gui/501/com.example.web`"
    );
    assert_eq!(handle_key(&mut app, key(Key::Char('y'))), KeyEffect::Continue);
    assert!(app.pending_action.is_none());
    assert!(app.armed_action.is_some());
    assert!(app.action_in_flight);
    assert_eq!(app.status_line, "running `launchctl bootout gui/501/com.example.web`...");
    app.apply_action_result(
        "launchctl bootout gui/501/com.example.web".to_string(),
        ActionResult {
            success: true,
            message: "done".to_string(),
        },
    );
    assert!(!app.action_in_flight);
    assert!(app.refresh_requested);
    assert_eq!(app.status_line, "ran `launchctl bootout gui/501/com.example.web`: done");
}

#[test]
fn a_blocked_plan_is_dropped_on_confirmation() {
    let mut locked = service("com.example.locked", ServiceStatus::Running);
    locked.safety_level = SafetyLevel::ReadonlySystem;
    let mut app = App::new(inventory(vec![locked]));
    app.plan_action(ActionKind::Restart);
    assert_eq!(
        app.status_line,
        "restart blocked for com.example.locked: system services under /System/Library are inspect-only"
    );
    app.confirm_action();
    assert!(app.pending_action.is_none());
    assert!(app.armed_action.is_none());
    assert_eq!(
        app.status_line,
        "restart blocked: system services under /System/Library are inspect-only"
    );
}

#[test]
fn keys_move_between_views() {
    let mut app = App::new(inventory(vec![service("com.example.web", ServiceStatus::Running)]));
    assert_eq!(handle_key(&mut app, key(Key::Enter)), KeyEffect::Continue);
    assert_eq!(app.mode, ViewMode::Detail);
    handle_key(&mut app, key(Key::Down));
    assert_eq!(app.selected_detail_item(), DetailItem::Source);
    handle_key(&mut app, key(Key::Char('G')));
    assert_eq!(app.selected_detail_item(), DetailItem::Health);
    handle_key(&mut app, key(Key::Char('l')));
    assert_eq!(app.mode, ViewMode::Logs);
    assert_eq!(app.log_stream, LogStream::Stdout);
    handle_key(&mut app, key(Key::Tab));
    assert_eq!(app.log_stream, LogStream::Stderr);
    assert_eq!(handle_key(&mut app, key(Key::Char('c'))), KeyEffect::Copy);
    handle_key(&mut app, key(Key::Esc));
    assert_eq!(app.mode, ViewMode::Detail);
    handle_key(&mut app, key(Key::Esc));
    assert_eq!(app.mode, ViewMode::Overview);
    assert_eq!(
        handle_key(
            &mut app,
            KeyInput {
                code: Key::Char('c'),
                ctrl: true,
                alt: false
            }
        ),
        KeyEffect::Quit
    );
    assert_eq!(handle_key(&mut app, key(Key::Char('q'))), KeyEffect::Quit);
}

#[test]
fn help_captures_keys_until_closed() {
    let mut app = App::new(inventory(vec![service("com.example.web", ServiceStatus::Running)]));
    handle_key(&mut app, key(Key::Char('?')));
    assert!(app.show_help);
    assert_eq!(app.status_line, "help opened");
    handle_key(&mut app, key(Key::Down));
    assert_eq!(app.selected, 0);
    handle_key(&mut app, key(Key::Esc));
    assert!(!app.show_help);
    assert_eq!(app.status_line, "help closed");
}

#[test]
fn the_create_form_takes_typing_and_asks_to_save() {
    let mut app = App::new(inventory(Vec::new()));
    handle_key(&mut app, key(Key::Char('N')));
    assert!(app.create_form.is_some());
    handle_key(&mut app, key(Key::Char('x')));
    handle_key(&mut app, key(Key::Backspace));
    handle_key(&mut app, key(Key::Backspace));
    let form = app.create_form.as_ref().unwrap();
    assert_eq!(form.label, "");
    assert_eq!(form.selected, 11);
    assert_eq!(handle_key(&mut app, key(Key::F(5))), KeyEffect::SaveCreateForm);
    handle_key(&mut app, key(Key::Esc));
    assert!(app.create_form.is_none());
    assert_eq!(app.status_line, "service creation cancelled");
}

#[test]
fn copying_reads_the_current_view() {
    let mut app = App::new(inventory(vec![service("com.example.web", ServiceStatus::Running)]));
    assert_eq!(
        app.copy_request(),
        Some(("service".to_string(), "com.example.web".to_string()))
    );
    app.open_logs(LogStream::Stdout);
    assert_eq!(app.copy_request(), None);
    assert_eq!(app.status_line, "nothing to copy for stdout path");
    app.copy_finished("service", "x", Err("no pbcopy".to_string()));
    assert_eq!(app.status_line, "copy failed: no pbcopy");
}

#[test]
fn detail_rows_show_service_facts() {
    let mut s = service("com.example.demo", ServiceStatus::Running);
    s.origin = Origin {
        kind: Provenance::Nix,
        confidence: Confidence::High,
        evidence: vec!["command resolves into /nix/store".to_string()],
    };
    s.elevation = ElevationNeeds {
        runtime: true,
        plist_write: true,
        plist_remove: true,
    };
    assert!(detail_item_value(&s, DetailItem::Origin).starts_with("nix (high) — "));
    assert!(detail_item_value(&s, DetailItem::Origin).ends_with(" [command resolves into /nix/store]"));
    assert_eq!(
        detail_item_value(&s, DetailItem::Elevation),
        "sudo for launchctl, plist edit, plist delete"
    );
    assert_eq!(detail_item_value(&s, DetailItem::Health), "clean");
    assert_eq!(detail_item_value(&s, DetailItem::StartInterval), "-");
    assert_eq!(detail_item_value(&s, DetailItem::Status), "running");
    assert_eq!(App::detail_items().len(), 19);
}

#[test]
fn the_status_row_proposes_a_fitting_action() {
    let running = service("a", ServiceStatus::Running);
    let stopped = service("b", ServiceStatus::Stopped);
    assert_eq!(status_detail_action(Some(&running)), ActionKind::Stop);
    assert_eq!(status_detail_action(Some(&stopped)), ActionKind::Start);
    assert_eq!(status_detail_action(None), ActionKind::Restart);
    assert_eq!(status_rank(&ServiceStatus::Failed), 0);
    assert_eq!(status_rank(&ServiceStatus::Unknown), 6);
}

#[test]
fn refresh_waits_for_quiet_moments() {
    let mut app = App::new(inventory(Vec::new()));
    assert!(!should_refresh(&app, false, 100));
    assert!(should_refresh(&app, false, 3000));
    assert!(!should_refresh(&app, true, 5000));
    app.refresh_requested = true;
    assert!(should_refresh(&app, false, 0));
    app.show_help = true;
    assert!(!should_refresh(&app, false, 5000));
}

#[test]
fn counts_report_running_failed_and_warned() {
    let mut warned = service("w", ServiceStatus::Failed);
    warned.health = vec!["x".to_string()];
    let app = App::new(inventory(vec![
        service("r", ServiceStatus::Running),
        warned,
        service("s", ServiceStatus::Stopped),
    ]));
    assert_eq!(app.counts(), (3, 1, 1, 1));
}

#[test]
fn viewports_follow_the_selection() {
    let services: Vec<Service> = (0..30)
        .map(|i| service(&format!("svc.{i:02}"), ServiceStatus::Running))
        .collect();
    let mut app = App::new(inventory(services));
    app.selected = 25;
    app.sync_viewport(10);
    assert_eq!(app.viewport_start, 16);
    app.selected = 3;
    app.sync_viewport(10);
    assert_eq!(app.viewport_start, 3);
    app.detail_selected = 18;
    app.sync_detail_viewport(5);
    assert_eq!(app.detail_scroll, 14);
}

#[test]
fn log_windows_and_tails() {
    assert_eq!(log_window(100, 10, 0), (90, 100));
    assert_eq!(log_window(100, 10, 5), (85, 95));
    assert_eq!(log_window(100, 10, 500), (0, 10));
    assert_eq!(log_window(3, 10, 2), (0, 3));
    assert_eq!(tail_lines("cut\na\nb\nc\n", true, 2), vec!["b", "c"]);
    assert_eq!(tail_lines("a\nb", false, 5), vec!["a", "b"]);
}

#[test]
fn unified_fetch_is_prepared_for_the_selection() {
    let mut s = service("com.example.web", ServiceStatus::Running);
    s.config.program = Some("/usr/bin/web-server".to_string());
    let mut app = App::new(inventory(vec![s]));
    let (id, query) = app.prepare_unified_fetch().expect("query");
    assert_eq!(id, "gui/501:com.example.web");
    assert_eq!(query.executable.as_deref(), Some("web-server"));
    assert!(app.unified_in_flight);
    assert_eq!(app.status_line, "fetching os_log for com.example.web (15m)");
    app.apply_unified_result(UnifiedLogResult {
        service_id: id,
        query,
        elapsed_ms: 12,
        lines: vec!["x".to_string()],
        error: None,
    });
    assert!(!app.unified_in_flight);
    assert_eq!(app.status_line, "os_log: 1 lines from last 15m in 12ms");
    app.cycle_unified_window();
    assert_eq!(app.unified_window, LogWindow::OneHour);
    assert!(app.unified_cache.is_none());
    assert!(app.unified_fetch_requested);
}

#[test]
fn search_matches_the_program_path() {
    let mut tool = service("com.example.one", ServiceStatus::Running);
    tool.config.program = Some("/opt/Tools/bin/WidgetD".to_string());
    let mut argv = service("com.example.two", ServiceStatus::Running);
    argv.config.arguments = vec!["/usr/local/bin/gizmo".to_string(), "--serve".to_string()];
    let plain = service("com.example.three", ServiceStatus::Running);
    let mut app = App::new(inventory(vec![tool, argv, plain]));

    app.start_quick_search('w');
    for c in "idgetd".chars() {
        app.type_search(c);
    }
    assert_eq!(listed_labels(&app), vec!["com.example.one"]);

    app.clear_search();
    app.start_quick_search('g');
    for c in "izmo".chars() {
        app.type_search(c);
    }
    assert_eq!(listed_labels(&app), vec!["com.example.two"]);
}
