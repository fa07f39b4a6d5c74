use launchdeck::create::{
    launch_steps, parse_argument_tail, parse_environment, parse_start_interval,
    program_argument_strings, step_report, user_agent_plist, validate, validation_probes,
    CreateField, CreateOutcome, CreateServiceForm, StepOutcome,
};
use launchdeck::discovery::{PlistValue, TextSet};
use std::path::Path;

fn form_with_arguments(arguments: &str) -> CreateServiceForm {
    let mut form = CreateServiceForm::new();
    form.label = "com.sderosiaux.launchdeck.test".to_string();
    form.command = "/bin/echo".to_string();
    form.arguments = arguments.to_string();
    form
}

/// Validates a form against the real file system, as the program does.
fn validate_on_disk(form: &CreateServiceForm) -> Result<(), String> {
    let (must_exist, must_be_dirs) = validation_probes(form);
    let mut existing = TextSet::new();
    for path in must_exist {
        if Path::new(&path).exists() {
            existing.insert(path);
        }
    }
    let mut dirs = TextSet::new();
    for path in must_be_dirs {
        if Path::new(&path).is_dir() {
            dirs.insert(path);
        }
    }
    validate(form, &existing, &dirs)
}

fn field_position(field: CreateField) -> usize {
    CreateServiceForm::fields()
        .iter()
        .position(|f| *f == field)
        .unwrap()
}

#[test]
fn program_arguments_preserve_shell_quoted_values() {
    let form = form_with_arguments(r#"--name "hello world" 'single quoted' plain"#);

    let args = program_argument_strings(&form).expect("arguments parse");

    assert_eq!(
        args,
        vec![
            "/bin/echo",
            "--name",
            "hello world",
            "single quoted",
            "plain"
        ]
    );
}

#[test]
fn invalid_argument_quoting_is_rejected() {
    let form = form_with_arguments(r#""unterminated"#);

    let err = validate_on_disk(&form).expect_err("unterminated quotes should fail");

    assert!(err.to_string().contains("shell-style quoting"));
}

#[test]
fn environment_preserves_quoted_values() {
    let environment = parse_environment(r#"GREETING="hello world" EMPTY= PLAIN=value"#)
        .expect("environment parses");

    assert_eq!(
        environment,
        vec![
            ("GREETING".to_string(), "hello world".to_string()),
            ("EMPTY".to_string(), "".to_string()),
            ("PLAIN".to_string(), "value".to_string())
        ]
    );
}

#[test]
fn invalid_environment_assignment_is_rejected() {
    let err = parse_environment("NO_EQUALS").expect_err("assignment should fail");

    assert!(err.to_string().contains("KEY=value"));
}

#[test]
fn start_interval_must_be_positive() {
    assert_eq!(parse_start_interval("").unwrap(), None);
    assert_eq!(parse_start_interval("60").unwrap(), Some(60));

    let err = parse_start_interval("0").expect_err("zero interval should fail");
    assert!(err.to_string().contains("greater than 0"));
}

#[test]
fn start_now_enables_bootstrap_now() {
    let mut form = form_with_arguments("");
    form.selected = field_position(CreateField::StartNow);

    form.toggle();

    assert!(form.start_now);
    assert!(form.bootstrap_now);
}

#[test]
fn disabling_bootstrap_disables_start_now() {
    let mut form = form_with_arguments("");
    form.bootstrap_now = true;
    form.start_now = true;
    form.selected = field_position(CreateField::BootstrapNow);

    form.toggle();

    assert!(!form.bootstrap_now);
    assert!(!form.start_now);
}

#[test]
fn start_interval_rejects_text() {
    assert_eq!(
        parse_start_interval(" soon ").err(),
        Some("start interval must be a positive integer: soon".to_string())
    );
    assert_eq!(parse_start_interval(" +90 ").unwrap(), Some(90));
}

#[test]
fn environment_names_must_be_plain() {
    assert_eq!(
        parse_environment("=x").err(),
        Some("environment variable name cannot be empty".to_string())
    );
    assert_eq!(
        parse_environment("A-B=1").err(),
        Some(
            "environment variable name may only contain letters, numbers, and '_': A-B".to_string()
        )
    );
    assert_eq!(
        parse_environment("'open").err(),
        Some("environment must use valid shell-style quoting".to_string())
    );
    assert!(parse_environment("   ").unwrap().is_empty());
}

#[test]
fn blank_arguments_are_no_arguments() {
    assert!(parse_argument_tail("  ").unwrap().is_empty());
}

#[test]
fn validation_reports_the_first_problem() {
    let mut form = CreateServiceForm::new();
    assert_eq!(validate_on_disk(&form).err().as_deref(), Some("label is required"));
    form.label = "bad label".to_string();
    assert_eq!(
        validate_on_disk(&form).err().as_deref(),
        Some("label may only contain letters, numbers, '.', '-' and '_'")
    );
    form.label = "com.example.ok".to_string();
    assert_eq!(validate_on_disk(&form).err().as_deref(), Some("command is required"));
    form.command = "echo".to_string();
    assert_eq!(
        validate_on_disk(&form).err().as_deref(),
        Some("command must be an absolute path")
    );
    form.command = "/definitely/not/here".to_string();
    assert_eq!(
        validate_on_disk(&form).err().as_deref(),
        Some("command does not exist: /definitely/not/here")
    );
    form.command = "/bin/echo".to_string();
    form.working_directory = "/definitely/not/a/dir".to_string();
    assert_eq!(
        validate_on_disk(&form).err().as_deref(),
        Some("working directory does not exist: /definitely/not/a/dir")
    );
    form.working_directory = "/tmp".to_string();
    form.stdout_path = "/definitely/missing/out.log".to_string();
    assert_eq!(
        validate_on_disk(&form).err().as_deref(),
        Some("stdout path parent does not exist: /definitely/missing")
    );
    form.stdout_path = "/tmp/out.log".to_string();
    form.start_now = true;
    assert_eq!(
        validate_on_disk(&form).err().as_deref(),
        Some("start now requires bootstrap now")
    );
    form.bootstrap_now = true;
    assert_eq!(validate_on_disk(&form), Ok(()));
}

#[test]
fn the_agent_plist_holds_what_was_typed() {
    let mut form = form_with_arguments("--flag 'two words'");
    form.label = "  com.example.job ".to_string();
    form.run_at_load = true;
    form.working_directory = " /tmp ".to_string();
    form.environment = "A=1 B=2 A=3".to_string();
    form.start_interval = "120".to_string();

    let Ok(PlistValue::Dictionary(entries)) = user_agent_plist(&form) else {
        panic!("plist builds");
    };
    let keys: Vec<&str> = entries.iter().map(|(k, _)| k.as_str()).collect();
    assert_eq!(
        keys,
        vec![
            "Label",
            "ProgramArguments",
            "RunAtLoad",
            "KeepAlive",
            "WorkingDirectory",
            "EnvironmentVariables",
            "StartInterval"
        ]
    );
    assert!(matches!(&entries[0].1, PlistValue::String(s) if s == "com.example.job"));
    assert!(matches!(&entries[2].1, PlistValue::Boolean(true)));
    assert!(matches!(&entries[4].1, PlistValue::String(s) if s == "/tmp"));
    match &entries[5].1 {
        PlistValue::Dictionary(env) => {
            let pairs: Vec<(&str, &str)> = env
                .iter()
                .map(|(k, v)| match v {
                    PlistValue::String(s) => (k.as_str(), s.as_str()),
                    _ => panic!("string value"),
                })
                .collect();
            assert_eq!(pairs, vec![("A", "3"), ("B", "2")]);
        }
        _ => panic!("environment dictionary"),
    }
    assert!(matches!(&entries[6].1, PlistValue::Integer(120)));
}

#[test]
fn the_form_shows_markers_and_moves_around() {
    let mut form = CreateServiceForm::new();
    assert_eq!(form.value_for(CreateField::Label), "(required)");
    assert_eq!(form.value_for(CreateField::Arguments), "-");
    assert_eq!(form.value_for(CreateField::KeepAlive), "no");
    form.insert('a');
    form.insert('b');
    form.backspace();
    assert_eq!(form.label, "a");
    form.previous();
    assert_eq!(form.current_field(), CreateField::StartNow);
    form.insert('x');
    assert!(!form.start_now);
    form.next();
    assert_eq!(form.current_field(), CreateField::Label);
    assert_eq!(CreateField::WorkingDirectory.label(), "Working directory");
}

#[test]
fn launch_steps_and_reports() {
    let mut form = form_with_arguments("");
    form.label = " com.example.job ".to_string();
    form.bootstrap_now = true;
    form.start_now = true;
    let steps = launch_steps(&form, "gui/501", "/Users/me/Library/LaunchAgents/com.example.job.plist");
    assert_eq!(
        steps,
        vec![
            vec![
                "bootstrap".to_string(),
                "gui/501".to_string(),
                "/Users/me/Library/LaunchAgents/com.example.job.plist".to_string()
            ],
            vec!["kickstart".to_string(), "gui/501/com.example.job".to_string()],
        ]
    );
    assert_eq!(
        step_report(&steps[1], &StepOutcome::Succeeded),
        "launchctl kickstart gui/501/com.example.job: ok"
    );
    assert_eq!(
        step_report(
            &steps[1],
            &StepOutcome::Failed {
                stdout: " out ".to_string(),
                stderr: "  ".to_string()
            }
        ),
        "launchctl kickstart gui/501/com.example.job: failed out"
    );
    let outcome = CreateOutcome {
        path: "/p.plist".to_string(),
        steps: vec!["a: ok".to_string(), "b: ok".to_string()],
    };
    assert_eq!(outcome.status_message(), "created /p.plist; a: ok; b: ok");
    let quiet = CreateOutcome {
        path: "/p.plist".to_string(),
        steps: Vec::new(),
    };
    assert_eq!(quiet.status_message(), "created /p.plist");
}

#[test]
fn the_target_path_is_under_the_launch_agents() {
    let mut form = CreateServiceForm::new();
    form.label = " com.example.job ".to_string();
    assert_eq!(
        form.target_path_in("/Users/me"),
        "/Users/me/Library/LaunchAgents/com.example.job.plist"
    );
}
