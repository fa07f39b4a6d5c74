//! Properties of the library as a whole: what holds of every action plan, of
//! the merge of discovered state, of the create form and of the key handling.
use vstd::prelude::*;
use crate::actions::{
    action_plan, command_line, effective_argv, effective_followup_argv, lemma_root_plans_skip_the_shell,
    lemma_shell_word_reads_back, sh_read_word, shell_word, needs_root,
    runs_through_shell, ActionKind, Elevation, PlanView,
};
use crate::app::{confirm_action_step, key_step, status_passes, App, KeyEffect, KeyInput, StatusFilter};
use crate::create::{
    env_assignments, form_problem, label_char, next_field, path_problem, previous_field, toggled,
    typed, erased, FormView, FIELD_COUNT,
};
use crate::model::LaunchConfigView;
use crate::oslog::predicate_text;
use crate::discovery::{
    disabled_merge, origin_command, origin_of, path_text, runtime_merge, runtime_status, RuntimeState,
};
use crate::model::{
    opt_view, Provenance, SafetyLevel, Service, ServiceSource, ServiceStatus, ServiceView,
};
use crate::text::{contains_text, has_prefix, join, trim};

verus! {

/// Services under `/System/Library` are inspect-only: every action on them is
/// blocked with that reason, and there is no command to run.
pub proof fn read_only_services_are_inspect_only(service: Service, kind: ActionKind)
    requires
        service.safety_level == SafetyLevel::ReadonlySystem,
    ensures
        action_plan(service, kind).blocked_reason == Some(
            "system services under /System/Library are inspect-only"@,
        ),
        action_plan(service, kind).command.len() == 0,
{
}

/// Vendor and runtime-only services are protected: every action on them is
/// blocked, with no command to run.
pub proof fn protected_services_are_blocked(service: Service, kind: ActionKind)
    requires
        service.safety_level == SafetyLevel::ProtectedVendor,
    ensures
        action_plan(service, kind).blocked_reason is Some,
        action_plan(service, kind).command.len() == 0,
{
}

/// A plan is blocked exactly when it has no command: nothing blocked ever runs,
/// and nothing runnable lacks a command.
pub proof fn blocked_exactly_when_commandless(service: Service, kind: ActionKind)
    ensures
        (action_plan(service, kind).blocked_reason is Some) <==> action_plan(service, kind).command.len()
            == 0,
{
}

/// Root is asked for per action, by the axis the action touches: launchctl
/// actions by the domain, a `RunAtLoad` edit by the plist's ownership, a
/// delete by either, and never for opening the plist in an editor.
pub proof fn elevation_follows_the_action(service: Service, kind: ActionKind)
    requires
        service.safety_level != SafetyLevel::ReadonlySystem,
        service.safety_level != SafetyLevel::ProtectedVendor,
    ensures
        (action_plan(service, kind).elevation == Elevation::Sudo) <==> needs_root(service.elevation, kind),
        action_plan(service, ActionKind::EditPlist).elevation == Elevation::Unprivileged,
{
}

/// The prompt shows exactly the argvs that run, `sudo --` included when the
/// plan needs root: the first, and the second after ` && ` where there is one.
pub proof fn the_prompt_shows_what_runs(p: PlanView)
    requires
        p.command.len() > 0,
    ensures
        p.followup.len() == 0 ==> command_line(p) == join(effective_argv(p), " "@),
        p.followup.len() > 0 ==> command_line(p) == join(effective_argv(p), " "@) + " && "@ + join(
            effective_followup_argv(p),
            " "@,
        ),
        p.elevation == Elevation::Sudo ==> effective_argv(p) == seq!["sudo"@, "--"@] + p.command,
        p.elevation == Elevation::Unprivileged ==> effective_argv(p) == p.command,
        p.followup.len() > 0 && p.elevation == Elevation::Sudo ==> effective_followup_argv(p)
            == seq!["sudo"@, "--"@] + p.followup,
        p.followup.len() > 0 && p.elevation == Elevation::Unprivileged ==> effective_followup_argv(p)
            == p.followup,
{
}

/// A command that needs root runs as `sudo --` followed by a plain argument
/// list, never through a shell; so does its second step, where it has one.
pub proof fn root_commands_never_go_through_a_shell(service: Service, kind: ActionKind)
    requires
        action_plan(service, kind).elevation == Elevation::Sudo,
        action_plan(service, kind).blocked_reason is None,
    ensures
        effective_argv(action_plan(service, kind)) == seq!["sudo"@, "--"@] + action_plan(
            service,
            kind,
        ).command,
        !runs_through_shell(action_plan(service, kind).command),
        !runs_through_shell(action_plan(service, kind).followup),
{
    lemma_root_plans_skip_the_shell(service, kind);
}

/// A value quoted for the shell reads back, as one word, as exactly that
/// value: `shell_quote` wraps it in single quotes and writes each `'` inside
/// as `'\''`.
pub proof fn a_quoted_word_reads_back_as_itself(v: Seq<char>)
    ensures
        sh_read_word(shell_word(v), false) == Some(v),
{
    lemma_shell_word_reads_back(v);
}

/// Homebrew services start, stop and restart through `brew services` with
/// their formula.
pub proof fn homebrew_lifecycle_goes_through_brew_services(service: Service, kind: ActionKind)
    requires
        service.safety_level != SafetyLevel::ReadonlySystem,
        service.safety_level != SafetyLevel::ProtectedVendor,
        service.source == ServiceSource::Homebrew || service.source == ServiceSource::Both,
        opt_view(service.brew_formula) is Some,
        kind == ActionKind::Start || kind == ActionKind::Stop || kind == ActionKind::Restart,
    ensures
        action_plan(service, kind).blocked_reason is None,
        action_plan(service, kind).command == seq![
            "brew"@,
            "services"@,
            if kind == ActionKind::Start {
                "start"@
            } else if kind == ActionKind::Stop {
                "stop"@
            } else {
                "restart"@
            },
            opt_view(service.brew_formula)->0,
        ],
{
}

/// Stopping a plain launchd job unloads it with `launchctl bootout`, so a
/// scheduled job does not wake up again.
pub proof fn stopping_a_launchd_job_unloads_it(service: Service)
    requires
        service.safety_level != SafetyLevel::ReadonlySystem,
        service.safety_level != SafetyLevel::ProtectedVendor,
        service.source == ServiceSource::Launchd,
    ensures
        action_plan(service, ActionKind::Stop).command == seq![
            "launchctl"@,
            "bootout"@,
            service.domain@ + "/"@ + service.label@,
        ],
{
}

/// A loaded job without a PID that did not fail and has a schedule is
/// scheduled, never stopped.
pub proof fn loaded_scheduled_jobs_are_scheduled(state: RuntimeState, v: ServiceView)
    requires
        state.pid is None,
        !(state.exit_code matches Some(code) && code != 0),
        v.config.start_interval is Some || v.config.start_calendar_intervals.len() > 0,
    ensures
        runtime_status(state, v.config) == ServiceStatus::Scheduled,
{
}

/// The order of the provenance checks decides: a command in `/nix/store` is
/// Nix wherever its plist lives, unless Homebrew claims the job first.
pub proof fn a_nix_command_wins_over_its_directory(v: ServiceView, home: Option<Seq<char>>)
    requires
        v.brew_formula is None,
        !has_prefix(v.label, "homebrew.mxcl."@),
        !contains_text(path_text(v.plist_path), "/Cellar/"@),
        !contains_text(origin_command(v.config), "/Cellar/"@),
        contains_text(origin_command(v.config), "/nix/store/"@),
    ensures
        origin_of(v, home).kind == Provenance::Nix,
{
}

/// A loaded job that no plist describes becomes a protected runtime-only row.
pub proof fn runtime_only_rows_are_protected(
    m: Map<Seq<char>, ServiceView>,
    rt: Map<Seq<char>, RuntimeState>,
    uid: u32,
    k: Seq<char>,
)
    requires
        !m.contains_key(k),
        runtime_merge(m, rt, rt.dom(), uid).contains_key(k),
    ensures
        runtime_merge(m, rt, rt.dom(), uid)[k].safety_level == SafetyLevel::ProtectedVendor,
        runtime_merge(m, rt, rt.dom(), uid)[k].plist_path is None,
        runtime_merge(m, rt, rt.dom(), uid)[k].loaded == Some(true),
        runtime_merge(m, rt, rt.dom(), uid)[k].source == ServiceSource::Launchd,
        runtime_merge(m, rt, rt.dom(), uid)[k].id == k,
{
}

/// Runtime state changes only the runtime fields of a known service: its
/// definition, identity and safety stay as the plist gave them.
pub proof fn runtime_state_keeps_definitions(
    m: Map<Seq<char>, ServiceView>,
    rt: Map<Seq<char>, RuntimeState>,
    uid: u32,
    k: Seq<char>,
)
    requires
        m.contains_key(k),
    ensures
        runtime_merge(m, rt, rt.dom(), uid).contains_key(k),
        runtime_merge(m, rt, rt.dom(), uid)[k].id == m[k].id,
        runtime_merge(m, rt, rt.dom(), uid)[k].config == m[k].config,
        runtime_merge(m, rt, rt.dom(), uid)[k].plist_path == m[k].plist_path,
        runtime_merge(m, rt, rt.dom(), uid)[k].safety_level == m[k].safety_level,
        rt.contains_key(k) ==> runtime_merge(m, rt, rt.dom(), uid)[k].status == runtime_status(
            rt[k],
            m[k].config,
        ),
        !rt.contains_key(k) ==> runtime_merge(m, rt, rt.dom(), uid)[k] == m[k],
{
}

/// After the disabled overrides are applied, every row says whether it is
/// enabled, and exactly the listed ids are disabled.
pub proof fn disabled_marks_are_exact(m: Map<Seq<char>, ServiceView>, d: Set<Seq<char>>, k: Seq<char>)
    requires
        m.contains_key(k),
    ensures
        disabled_merge(m, d).contains_key(k),
        disabled_merge(m, d)[k].enabled == Some(!d.contains(m[k].id)),
        d.contains(m[k].id) ==> disabled_merge(m, d)[k].status == ServiceStatus::Disabled,
        !d.contains(m[k].id) ==> disabled_merge(m, d)[k].status == m[k].status,
{
}

/// Starting now needs a bootstrap: no edit of the form ever leaves start-now
/// on with bootstrap-now off, once that holds.
pub proof fn start_now_keeps_bootstrap_now(v: FormView, c: char)
    requires
        v.start_now ==> v.bootstrap_now,
    ensures
        toggled(v).start_now ==> toggled(v).bootstrap_now,
        typed(v, c).start_now ==> typed(v, c).bootstrap_now,
        erased(v).start_now ==> erased(v).bootstrap_now,
        next_field(v).start_now ==> next_field(v).bootstrap_now,
        previous_field(v).start_now ==> previous_field(v).bootstrap_now,
{
}

/// Moving to the previous field undoes moving to the next, and the reverse.
pub proof fn previous_undoes_next(v: FormView)
    requires
        0 <= v.selected < FIELD_COUNT,
    ensures
        previous_field(next_field(v)) == v,
        next_field(previous_field(v)) == v,
{
}

/// Only a confirmation arms an action, and only the plan that was pending and
/// not blocked: no other key puts anything in front of the executor.
pub proof fn only_confirmation_arms_an_action(a: App, k: KeyInput, r: KeyEffect, b: App)
    requires
        key_step(a, k, r, b),
    ensures
        b.armed_action != a.armed_action ==> (confirm_action_step(a, b) && a.pending_action == b.armed_action
            && (b.armed_action matches Some(p) && p.blocked_reason is None)),
{
}

/// A job with no process whose last exit code was not zero has failed,
/// whatever its schedule; a job with a process is running; and a job with
/// neither a process nor a failing exit is scheduled or stopped, by whether it
/// has a schedule. So `failed` means exactly: not running, non-zero last exit.
pub proof fn a_nonzero_exit_without_a_process_is_a_failure(state: RuntimeState, c: LaunchConfigView)
    ensures
        (runtime_status(state, c) == ServiceStatus::Failed) <==> (state.pid is None
            && state.exit_code is Some && state.exit_code->0 != 0),
        (runtime_status(state, c) == ServiceStatus::Running) <==> state.pid is Some,
        state.pid is None && state.exit_code is Some && state.exit_code->0 != 0 ==> runtime_status(
            state,
            c,
        ) == ServiceStatus::Failed,
        state.pid is None && !(state.exit_code is Some && state.exit_code->0 != 0) ==> (
        runtime_status(state, c) == ServiceStatus::Scheduled || runtime_status(state, c)
            == ServiceStatus::Stopped),
{
}

/// Toggling a plain launchd job flips its enabled state: a job that is
/// disabled is enabled, and any other job is disabled, by `launchctl` on the
/// job's `domain/label` target.
pub proof fn toggling_enabled_flips_the_job(service: Service)
    requires
        service.safety_level != SafetyLevel::ReadonlySystem,
        service.safety_level != SafetyLevel::ProtectedVendor,
        service.source == ServiceSource::Launchd,
    ensures
        action_plan(service, ActionKind::ToggleEnabled).blocked_reason is None,
        action_plan(service, ActionKind::ToggleEnabled).command.len() == 3,
        action_plan(service, ActionKind::ToggleEnabled).command[0] == "launchctl"@,
        action_plan(service, ActionKind::ToggleEnabled).command[2] == service.domain@ + "/"@
            + service.label@,
        service.enabled == Some(false) ==> action_plan(service, ActionKind::ToggleEnabled).command[1]
            == "enable"@,
        service.enabled != Some(false) ==> action_plan(service, ActionKind::ToggleEnabled).command[1]
            == "disable"@,
{
}

/// With an executable, the log predicate widens the launchd clause about the
/// label by a disjunction: it is that clause, ` OR `, and a match on the
/// process name; so a line of the service's own process is selected as well.
/// The launchd clause itself is one parenthesised group.
pub proof fn the_process_clause_widens_the_log_predicate(label: Seq<char>, exe: Seq<char>)
    ensures
        predicate_text(label, Some(exe)) == predicate_text(label, None) + " OR process == \""@ + exe
            + "\""@,
        predicate_text(label, None)[0] == '(',
        predicate_text(label, None).last() == ')',
{
    reveal_strlit("(processImagePath ENDSWITH \"/launchd\" AND eventMessage CONTAINS \"");
    reveal_strlit("\")");
}

/// The inactive status filter lists exactly the services that are neither
/// running nor failed (nor of unknown status); with the running and failed
/// filters it splits every known status into exactly one of the three.
pub proof fn the_inactive_filter_is_everything_not_running_or_failed(s: ServiceStatus)
    ensures
        status_passes(s, StatusFilter::Stopped) <==> !(s == ServiceStatus::Running || s
            == ServiceStatus::Failed || s == ServiceStatus::Unknown),
        s != ServiceStatus::Unknown ==> (status_passes(s, StatusFilter::Running) as int
            + status_passes(s, StatusFilter::Failed) as int + status_passes(s, StatusFilter::Stopped) as int
            == 1),
        status_passes(s, StatusFilter::All),
{
}

/// Every problem with the environment field names it: it begins with `e`.
proof fn lemma_environment_problems_name_it(ws: Seq<Seq<char>>)
    ensures
        env_assignments(ws) matches Err(m) ==> m.len() > 0 && m[0] == 'e',
    decreases ws.len(),
{
    reveal_strlit("environment entry must be KEY=value: ");
    reveal_strlit("environment variable name cannot be empty");
    reveal_strlit("environment variable name may only contain letters, numbers, and '_': ");
    if ws.len() > 0 {
        lemma_environment_problems_name_it(ws.drop_last());
    }
}

proof fn lemma_path_problems_name_the_field(what: Seq<char>, raw: Seq<char>, is_dir: bool, dirs: Set<Seq<char>>)
    requires
        what.len() > 0,
    ensures
        path_problem(what, raw, is_dir, dirs) matches Some(m) ==> m.len() > 0 && m[0] == what[0],
{
}

/// Every problem the form checks after the label names another field: none
/// of them begins with the letter that the label problems begin with.
proof fn lemma_later_problems_are_not_the_labels(v: FormView, existing: Set<Seq<char>>, dirs: Set<Seq<char>>)
    requires
        trim(v.label).len() > 0,
        forall|i: int| 0 <= i < trim(v.label).len() ==> label_char(#[trigger] trim(v.label)[i]),
    ensures
        form_problem(v, existing, dirs) matches Some(m) ==> m.len() > 0 && m[0] != 'l',
{
    reveal_strlit("command is required");
    reveal_strlit("command must be an absolute path");
    reveal_strlit("command does not exist: ");
    reveal_strlit("working directory");
    reveal_strlit("stdout path");
    reveal_strlit("stderr path");
    reveal_strlit("arguments must use valid shell-style quoting");
    reveal_strlit("environment must use valid shell-style quoting");
    reveal_strlit("start interval must be a positive integer: ");
    reveal_strlit("start interval must be greater than 0");
    reveal_strlit("start now requires bootstrap now");
    lemma_path_problems_name_the_field("working directory"@, v.working_directory, true, dirs);
    lemma_path_problems_name_the_field("stdout path"@, v.stdout_path, false, dirs);
    lemma_path_problems_name_the_field("stderr path"@, v.stderr_path, false, dirs);
    match crate::create::shell_split(v.environment) {
        Some(ws) => lemma_environment_problems_name_it(ws),
        None => {},
    }
}

/// A label made only of ASCII letters and digits, `.`, `-` and `_` is never
/// refused: validation reports some other field's problem, or none.
pub proof fn labels_of_letters_digits_dots_dashes_and_underscores_pass(
    v: FormView,
    existing: Set<Seq<char>>,
    dirs: Set<Seq<char>>,
)
    requires
        trim(v.label).len() > 0,
        forall|i: int|
            0 <= i < trim(v.label).len() ==> {
                let c = #[trigger] trim(v.label)[i];
                ('a' <= c && c <= 'z') || ('A' <= c && c <= 'Z') || ('0' <= c && c <= '9') || c == '.'
                    || c == '-' || c == '_'
            },
    ensures
        form_problem(v, existing, dirs) != Some(
            "label may only contain letters, numbers, '.', '-' and '_'"@,
        ),
        form_problem(v, existing, dirs) != Some("label is required"@),
{
    assert forall|i: int| 0 <= i < trim(v.label).len() implies label_char(#[trigger] trim(v.label)[i]) by {
        let c = trim(v.label)[i];
        assert(('a' <= c && c <= 'z') || ('A' <= c && c <= 'Z') || ('0' <= c && c <= '9') || c == '.'
            || c == '-' || c == '_');
    }
    lemma_later_problems_are_not_the_labels(v, existing, dirs);
    reveal_strlit("label may only contain letters, numbers, '.', '-' and '_'");
    reveal_strlit("label is required");
}

/// A label holding any other character is refused for it, whatever else the
/// form holds.
pub proof fn a_label_with_another_character_is_refused(
    v: FormView,
    existing: Set<Seq<char>>,
    dirs: Set<Seq<char>>,
    i: int,
)
    requires
        0 <= i < trim(v.label).len(),
        !({
            let c = trim(v.label)[i];
            ('a' <= c && c <= 'z') || ('A' <= c && c <= 'Z') || ('0' <= c && c <= '9') || c == '.'
                || c == '-' || c == '_'
        }),
    ensures
        form_problem(v, existing, dirs) == Some(
            "label may only contain letters, numbers, '.', '-' and '_'"@,
        ),
{
    assert(!label_char(trim(v.label)[i]));
}

} // verus!
