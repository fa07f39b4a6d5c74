//! Action planning: which command a lifecycle action on a service runs, whether
//! it is blocked, and whether it needs root.
use vstd::prelude::*;
use vstd::string::*;
use crate::model::{
    opt_view, ElevationNeeds, SafetyLevel, Service, ServiceSource, ServiceStatus,
};
use crate::text::{
    concat2, join, join_strings, lines, lines_of, owned, push_char, string_of, string_views, trim,
    trim_str, views,
};

verus! {

/// A lifecycle action the user can ask for.
#[derive(Clone, Copy, Debug, PartialEq, Eq, Structural)]
pub enum ActionKind {
    Start,
    Stop,
    Restart,
    ToggleEnabled,
    ToggleRunAtLoad,
    EditPlist,
    Delete,
}

pub open spec fn action_label(k: ActionKind) -> Seq<char> {
    match k {
        ActionKind::Start => "start"@,
        ActionKind::Stop => "stop"@,
        ActionKind::Restart => "restart"@,
        ActionKind::ToggleEnabled => "toggle enabled"@,
        ActionKind::ToggleRunAtLoad => "toggle RunAtLoad"@,
        ActionKind::EditPlist => "edit plist"@,
        ActionKind::Delete => "delete"@,
    }
}

impl ActionKind {
    pub fn label(self) -> (r: &'static str)
        ensures
            r@ == action_label(self),
    {
        match self {
            ActionKind::Start => "start",
            ActionKind::Stop => "stop",
            ActionKind::Restart => "restart",
            ActionKind::ToggleEnabled => "toggle enabled",
            ActionKind::ToggleRunAtLoad => "toggle RunAtLoad",
            ActionKind::EditPlist => "edit plist",
            ActionKind::Delete => "delete",
        }
    }
}

/// Whether the planned command has to run as root. Kept apart from the command
/// itself so that the confirmation prompt still shows exactly what will run.
#[derive(Clone, Copy, Debug, PartialEq, Eq, Structural)]
pub enum Elevation {
    Unprivileged,
    Sudo,
}

impl Default for Elevation {
    fn default() -> (r: Self)
        ensures
            r == Elevation::Unprivileged,
    {
        Elevation::Unprivileged
    }
}

/// A planned action: what will run, and why it might not.
#[derive(Clone, Debug)]
pub struct ActionPlan {
    pub kind: ActionKind,
    pub service_name: String,
    pub command: Vec<String>,
    /// Run after `command` succeeds, with the same elevation; empty when the
    /// action is a single command.
    pub followup: Vec<String>,
    pub warning: String,
    pub blocked_reason: Option<String>,
    pub elevation: Elevation,
}

/// The mathematical content of a plan.
pub struct PlanView {
    pub kind: ActionKind,
    pub service_name: Seq<char>,
    pub command: Seq<Seq<char>>,
    pub followup: Seq<Seq<char>>,
    pub warning: Seq<char>,
    pub blocked_reason: Option<Seq<char>>,
    pub elevation: Elevation,
}

impl View for ActionPlan {
    type V = PlanView;

    open spec fn view(&self) -> PlanView {
        PlanView {
            kind: self.kind,
            service_name: self.service_name@,
            command: string_views(self.command@),
            followup: string_views(self.followup@),
            warning: self.warning@,
            blocked_reason: opt_view(self.blocked_reason),
            elevation: self.elevation,
        }
    }
}

/// `argv` as spawned at this elevation: behind `sudo --` when it needs root.
pub open spec fn elevated_argv(e: Elevation, argv: Seq<Seq<char>>) -> Seq<Seq<char>> {
    match e {
        Elevation::Unprivileged => argv,
        Elevation::Sudo => seq!["sudo"@, "--"@] + argv,
    }
}

/// The argv that is actually spawned, `sudo --` included when the plan needs
/// root.
pub open spec fn effective_argv(p: PlanView) -> Seq<Seq<char>> {
    elevated_argv(p.elevation, p.command)
}

/// The argv spawned after the first one succeeds, if the plan has a second
/// step; empty otherwise.
pub open spec fn effective_followup_argv(p: PlanView) -> Seq<Seq<char>> {
    if p.followup.len() == 0 {
        seq![]
    } else {
        elevated_argv(p.elevation, p.followup)
    }
}

/// The command line shown in the confirmation prompt: the first argv, and the
/// second after ` && ` where the plan has one.
pub open spec fn command_line(p: PlanView) -> Seq<char> {
    if p.command.len() == 0 {
        "-"@
    } else if p.followup.len() == 0 {
        join(effective_argv(p), " "@)
    } else {
        join(effective_argv(p), " "@) + " && "@ + join(effective_followup_argv(p), " "@)
    }
}

impl ActionPlan {
    pub fn command_display(&self) -> (r: String)
        ensures
            r@ == command_line(self@),
    {
        if self.command.len() == 0 {
            owned("-")
        } else if self.followup.len() == 0 {
            let argv = effective_command(self);
            join_strings(&argv, " ")
        } else {
            let argv = effective_command(self);
            let mut r = join_strings(&argv, " ");
            r.append(" && ");
            let next = effective_followup(self);
            let shown = join_strings(&next, " ");
            r.append(shown.as_str());
            r
        }
    }

    pub fn is_blocked(&self) -> (r: bool)
        ensures
            r == (self.blocked_reason is Some),
    {
        self.blocked_reason.is_some()
    }

    pub fn needs_sudo(&self) -> (r: bool)
        ensures
            r == (self.elevation == Elevation::Sudo),
    {
        self.elevation == Elevation::Sudo
    }
}

/// What running a plan gave.
#[derive(Debug)]
pub struct ActionResult {
    pub success: bool,
    pub message: String,
}

/// `argv` behind `sudo --` when `elevation` asks for root, as it is.
fn elevate(elevation: Elevation, argv: &Vec<String>) -> (r: Vec<String>)
    ensures
        string_views(r@) == elevated_argv(elevation, string_views(argv@)),
{
    match elevation {
        Elevation::Unprivileged => {
            let r = argv.clone();
            assert(string_views(r@) =~= string_views(argv@));
            r
        },
        Elevation::Sudo => {
            let mut command: Vec<String> = Vec::new();
            command.push(owned("sudo"));
            command.push(owned("--"));
            let mut i: usize = 0;
            while i < argv.len()
                invariant
                    i <= argv.len(),
                    string_views(command@) == seq!["sudo"@, "--"@] + string_views(argv@).take(
                        i as int,
                    ),
                decreases argv.len() - i,
            {
                let ghost before = string_views(command@);
                command.push(argv[i].clone());
                assert(string_views(command@) =~= before.push(argv@[i as int]@));
                assert(string_views(argv@).take(i + 1) =~= string_views(argv@).take(i as int).push(
                    argv@[i as int]@,
                ));
                i = i + 1;
                assert(string_views(command@) =~= seq!["sudo"@, "--"@] + string_views(argv@).take(
                    i as int,
                ));
            }
            assert(string_views(argv@).take(i as int) =~= string_views(argv@));
            command
        },
    }
}

/// The argv actually spawned, sudo prefix included. The confirmation prompt shows
/// this, so it is what the executor runs.
pub fn effective_command(plan: &ActionPlan) -> (r: Vec<String>)
    ensures
        string_views(r@) == effective_argv(plan@),
{
    elevate(plan.elevation, &plan.command)
}

/// The argv spawned once the first has succeeded, sudo prefix included; empty
/// when the plan is a single command.
pub fn effective_followup(plan: &ActionPlan) -> (r: Vec<String>)
    ensures
        string_views(r@) == effective_followup_argv(plan@),
{
    if plan.followup.len() == 0 {
        let r: Vec<String> = Vec::new();
        assert(string_views(r@) =~= seq![]);
        r
    } else {
        elevate(plan.elevation, &plan.followup)
    }
}

/// Whether an action on a service with these needs runs as root. launchd scope
/// and file ownership are separate axes, so this is decided per action.
pub open spec fn needs_root(e: ElevationNeeds, kind: ActionKind) -> bool {
    match kind {
        ActionKind::Start | ActionKind::Stop | ActionKind::Restart | ActionKind::ToggleEnabled => e.runtime,
        ActionKind::ToggleRunAtLoad => e.plist_write,
        ActionKind::Delete => e.plist_remove || e.runtime,
        ActionKind::EditPlist => false,
    }
}

/// The elevation an action needs; `open -t` runs as the user, and the editor
/// reports a failed save more clearly than a sudo prompt would.
pub fn elevation_for(service: &Service, kind: ActionKind) -> (r: Elevation)
    ensures
        r == (if needs_root(service.elevation, kind) {
            Elevation::Sudo
        } else {
            Elevation::Unprivileged
        }),
{
    let needs = match kind {
        ActionKind::Start | ActionKind::Stop | ActionKind::Restart | ActionKind::ToggleEnabled => {
            service.elevation.runtime
        },
        ActionKind::ToggleRunAtLoad => service.elevation.plist_write,
        ActionKind::Delete => service.elevation.plist_remove || service.elevation.runtime,
        ActionKind::EditPlist => false,
    };
    if needs {
        Elevation::Sudo
    } else {
        Elevation::Unprivileged
    }
}

// ---------------------------------------------------------------------------
// Shell quoting
// ---------------------------------------------------------------------------

/// `v` with each `'` written as `'\''`.
pub open spec fn escape_quotes(v: Seq<char>) -> Seq<char>
    decreases v.len(),
{
    if v.len() == 0 {
        seq![]
    } else {
        (if v[0] == '\'' {
            seq!['\'', '\\', '\'', '\'']
        } else {
            seq![v[0]]
        }) + escape_quotes(v.drop_first())
    }
}

/// `v` as one single-quoted POSIX shell word.
pub open spec fn shell_word(v: Seq<char>) -> Seq<char> {
    seq!['\''] + escape_quotes(v) + seq!['\'']
}

/// `c` in front of a word that was read, if one was.
pub open spec fn word_after(c: char, w: Option<Seq<char>>) -> Option<Seq<char>> {
    match w {
        Some(w) => Some(seq![c] + w),
        None => None,
    }
}

/// How POSIX `sh` reads text written as one word out of single-quoted runs and
/// backslash-escaped characters: outside quotes, `'` opens a quoted run and
/// `\` takes the next character literally; inside quotes every character but
/// `'` is literal and `'` closes the run. `None` for text that is not such a
/// word: an unclosed quote, a trailing backslash, a backslash before a
/// newline (a line continuation), or any other unquoted character.
pub open spec fn sh_read_word(s: Seq<char>, quoted: bool) -> Option<Seq<char>>
    decreases s.len(),
{
    if s.len() == 0 {
        if quoted {
            None
        } else {
            Some(seq![])
        }
    } else if quoted {
        if s[0] == '\'' {
            sh_read_word(s.drop_first(), false)
        } else {
            word_after(s[0], sh_read_word(s.drop_first(), true))
        }
    } else if s[0] == '\'' {
        sh_read_word(s.drop_first(), true)
    } else if s[0] == '\\' && s.len() >= 2 && s[1] != '\n' {
        word_after(s[1], sh_read_word(s.subrange(2, s.len() as int), false))
    } else {
        None
    }
}

/// Inside a quoted run, the escaped form of `v` reads back as `v`, followed by
/// whatever the rest reads as.
proof fn lemma_escaped_reads_back(v: Seq<char>, rest: Seq<char>)
    ensures
        sh_read_word(escape_quotes(v) + rest, true) == match sh_read_word(rest, true) {
            Some(w) => Some(v + w),
            None => None::<Seq<char>>,
        },
    decreases v.len(),
{
    if v.len() == 0 {
        assert(escape_quotes(v) + rest =~= rest);
        match sh_read_word(rest, true) {
            Some(w) => assert(v + w =~= w),
            None => {},
        }
    } else {
        let c = v[0];
        let tail = v.drop_first();
        let x = escape_quotes(tail) + rest;
        lemma_escaped_reads_back(tail, rest);
        if c == '\'' {
            let s = escape_quotes(v) + rest;
            assert(s =~= seq!['\'', '\\', '\'', '\''] + x);
            let s1 = s.drop_first();
            assert(s1 =~= seq!['\\', '\'', '\''] + x);
            assert(s1.subrange(2, s1.len() as int) =~= seq!['\''] + x);
            assert((seq!['\''] + x).drop_first() =~= x);
            assert(sh_read_word(seq!['\''] + x, false) == sh_read_word(x, true));
            assert(sh_read_word(s1, false) == word_after('\'', sh_read_word(x, true)));
            assert(sh_read_word(s, true) == sh_read_word(s1, false));
        } else {
            let s = escape_quotes(v) + rest;
            assert(s =~= seq![c] + x);
            assert(s.drop_first() =~= x);
            assert(sh_read_word(s, true) == word_after(c, sh_read_word(x, true)));
        }
        match sh_read_word(rest, true) {
            Some(w) => {
                assert(seq![c] + (tail + w) =~= v + w);
            },
            None => {},
        }
    }
}

/// A quoted word reads back as exactly the text that was quoted.
pub proof fn lemma_shell_word_reads_back(v: Seq<char>)
    ensures
        sh_read_word(shell_word(v), false) == Some(v),
{
    let closing = seq!['\''];
    lemma_escaped_reads_back(v, closing);
    assert(closing.drop_first() =~= Seq::<char>::empty());
    assert(sh_read_word(Seq::<char>::empty(), false) == Some(Seq::<char>::empty()));
    assert(closing[0] == '\'');
    assert(sh_read_word(closing, true) == sh_read_word(closing.drop_first(), false));
    assert(sh_read_word(closing, true) == Some(Seq::<char>::empty()));
    assert(v + Seq::<char>::empty() =~= v);
    let s = shell_word(v);
    assert(s.drop_first() =~= escape_quotes(v) + closing);
}

proof fn lemma_escape_quotes_push(v: Seq<char>, c: char)
    ensures
        escape_quotes(v.push(c)) == escape_quotes(v) + (if c == '\'' {
            seq!['\'', '\\', '\'', '\'']
        } else {
            seq![c]
        }),
    decreases v.len(),
{
    let tail = if c == '\'' {
        seq!['\'', '\\', '\'', '\'']
    } else {
        seq![c]
    };
    if v.len() == 0 {
        assert(v.push(c).drop_first() =~= seq![]);
        assert(escape_quotes(v) =~= seq![]);
        assert(v.push(c)[0] == c);
        assert(escape_quotes(v.push(c)) == tail + escape_quotes(seq![]));
        assert(tail + seq![] =~= tail);
        assert(escape_quotes(v) + tail =~= tail);
    } else {
        let head = if v[0] == '\'' {
            seq!['\'', '\\', '\'', '\'']
        } else {
            seq![v[0]]
        };
        assert(v.push(c).drop_first() =~= v.drop_first().push(c));
        lemma_escape_quotes_push(v.drop_first(), c);
        assert(v.push(c)[0] == v[0]);
        assert(escape_quotes(v.push(c)) == head + escape_quotes(v.drop_first().push(c)));
        assert(escape_quotes(v) == head + escape_quotes(v.drop_first()));
        assert(head + (escape_quotes(v.drop_first()) + tail) =~= (head + escape_quotes(
            v.drop_first(),
        )) + tail);
    }
}

/// `v` as one single-quoted POSIX shell word.
pub fn shell_quote(value: &str) -> (r: String)
    ensures
        r@ == shell_word(value@),
{
    let chars = crate::text::chars_of(value);
    let mut r = owned("'");
    let mut i: usize = 0;
    proof {
        reveal_strlit("'");
        assert(chars@.take(0) =~= seq![]);
    }
    while i < chars.len()
        invariant
            i <= chars.len(),
            r@ == seq!['\''] + escape_quotes(chars@.take(i as int)),
        decreases chars.len() - i,
    {
        let c = chars[i];
        if c == '\'' {
            push_char(&mut r, '\'');
            push_char(&mut r, '\\');
            push_char(&mut r, '\'');
            push_char(&mut r, '\'');
        } else {
            push_char(&mut r, c);
        }
        proof {
            assert(chars@.take(i + 1) =~= chars@.take(i as int).push(c));
            lemma_escape_quotes_push(chars@.take(i as int), c);
        }
        i = i + 1;
        assert(r@ =~= seq!['\''] + escape_quotes(chars@.take(i as int)));
    }
    assert(chars@.take(i as int) =~= chars@);
    push_char(&mut r, '\'');
    r
}

// ---------------------------------------------------------------------------
// Plans
// ---------------------------------------------------------------------------

/// A plan that refuses to run, with the reason.
pub open spec fn blocked_plan(service: Service, kind: ActionKind, reason: Seq<char>) -> PlanView {
    PlanView {
        kind,
        service_name: service.display_name@,
        command: seq![],
        followup: seq![],
        warning: reason,
        blocked_reason: Some(reason),
        elevation: Elevation::Unprivileged,
    }
}

fn blocked(service: &Service, kind: ActionKind, reason: &str) -> (r: ActionPlan)
    ensures
        r@ == blocked_plan(*service, kind, reason@),
{
    let r = ActionPlan {
        kind,
        service_name: service.display_name.clone(),
        command: Vec::new(),
        followup: Vec::new(),
        warning: owned(reason),
        blocked_reason: Some(owned(reason)),
        elevation: Elevation::Unprivileged,
    };
    assert(r@.command =~= seq![]);
    assert(r@.followup =~= seq![]);
    r
}

/// The `domain/label` service target of launchctl.
pub open spec fn service_target(service: Service) -> Seq<char> {
    service.domain@ + "/"@ + service.label@
}

/// The shell script that toggles `RunAtLoad` to `desired` in the plist at
/// `path` (already quoted), then lints it.
pub open spec fn run_at_load_script(path: Seq<char>, desired: Seq<char>) -> Seq<char> {
    "if /usr/libexec/PlistBuddy -c 'Print :RunAtLoad' "@ + path
        + " >/dev/null 2>&1; then /usr/libexec/PlistBuddy -c 'Set :RunAtLoad "@ + desired + "' "@
        + path + "; else /usr/libexec/PlistBuddy -c 'Add :RunAtLoad bool "@ + desired + "' "@ + path
        + "; fi && plutil -lint "@ + path
}

/// The command for an action on a plain launchd job, or the reason it is
/// blocked. Where the action runs as root, the command is a plain argument
/// list: two steps that a shell would chain become this command and a
/// follow-up (`launchd_followup`), and the `RunAtLoad` edit goes through
/// `plutil -replace`.
pub open spec fn launchd_command(service: Service, kind: ActionKind) -> Result<
    Seq<Seq<char>>,
    Seq<char>,
> {
    let target = service_target(service);
    let unloaded = service.loaded == Some(false);
    let root = needs_root(service.elevation, kind);
    match kind {
        ActionKind::Start => if unloaded {
            match opt_view(service.plist_path) {
                None => Err("unloaded service has no plist to bootstrap"@),
                Some(path) => Ok(seq!["launchctl"@, "bootstrap"@, service.domain@, path]),
            }
        } else {
            Ok(seq!["launchctl"@, "kickstart"@, target])
        },
        ActionKind::Stop => Ok(seq!["launchctl"@, "bootout"@, target]),
        ActionKind::Restart => if unloaded {
            match opt_view(service.plist_path) {
                None => Err("unloaded service has no plist to bootstrap"@),
                Some(path) => if root {
                    Ok(seq!["launchctl"@, "bootstrap"@, service.domain@, path])
                } else {
                    Ok(
                        seq![
                            "/bin/sh"@,
                            "-lc"@,
                            "launchctl bootstrap "@ + shell_word(service.domain@) + " "@ + shell_word(
                                path,
                            ) + " && launchctl kickstart -k "@ + shell_word(target),
                        ],
                    )
                },
            }
        } else {
            Ok(seq!["launchctl"@, "kickstart"@, "-k"@, target])
        },
        ActionKind::ToggleEnabled => Ok(
            seq![
                "launchctl"@,
                if service.enabled == Some(false) {
                    "enable"@
                } else {
                    "disable"@
                },
                target,
            ],
        ),
        ActionKind::ToggleRunAtLoad => match opt_view(service.plist_path) {
            None => Err("service has no plist to update"@),
            Some(path) => {
                let desired = if service.config.run_at_load == Some(true) {
                    "false"@
                } else {
                    "true"@
                };
                if root {
                    Ok(seq!["plutil"@, "-replace"@, "RunAtLoad"@, "-bool"@, desired, path])
                } else {
                    Ok(seq!["/bin/sh"@, "-lc"@, run_at_load_script(shell_word(path), desired)])
                }
            },
        },
        ActionKind::EditPlist => match opt_view(service.plist_path) {
            None => Err("service has no plist to edit"@),
            Some(path) => Ok(seq!["open"@, "-t"@, path]),
        },
        ActionKind::Delete => match opt_view(service.plist_path) {
            None => Err("service has no plist to delete"@),
            Some(path) => if unloaded {
                Ok(seq!["rm"@, "--"@, path])
            } else if root {
                Ok(seq!["launchctl"@, "bootout"@, target])
            } else {
                Ok(
                    seq![
                        "/bin/sh"@,
                        "-lc"@,
                        "launchctl bootout "@ + shell_word(target) + " >/dev/null 2>&1 && rm -- "@
                            + shell_word(path),
                    ],
                )
            },
        },
    }
}

/// The second step of a launchd action that runs as root and takes two
/// commands: kickstart after bootstrapping an unloaded job on restart, and
/// removing the plist after unloading a loaded job on delete. Empty for every
/// other action, which is one command.
pub open spec fn launchd_followup(service: Service, kind: ActionKind) -> Seq<Seq<char>> {
    let unloaded = service.loaded == Some(false);
    if !needs_root(service.elevation, kind) {
        seq![]
    } else {
        match (kind, opt_view(service.plist_path)) {
            (ActionKind::Restart, Some(_)) => if unloaded {
                seq!["launchctl"@, "kickstart"@, "-k"@, service_target(service)]
            } else {
                seq![]
            },
            (ActionKind::Delete, Some(path)) => if unloaded {
                seq![]
            } else {
                seq!["rm"@, "--"@, path]
            },
            _ => seq![],
        }
    }
}

fn launchd_followup_exec(service: &Service, kind: ActionKind) -> (r: Vec<String>)
    ensures
        string_views(r@) == launchd_followup(*service, kind),
{
    let unloaded = service.loaded == Some(false);
    let root = match elevation_for(service, kind) {
        Elevation::Sudo => true,
        Elevation::Unprivileged => false,
    };
    let none: Vec<String> = Vec::new();
    assert(string_views(none@) =~= seq![]);
    if !root {
        return none;
    }
    match (kind, &service.plist_path) {
        (ActionKind::Restart, Some(_)) => {
            if unloaded {
                let mut target = service.domain.clone();
                target.append("/");
                target.append(service.label.as_str());
                let v = vec![owned("launchctl"), owned("kickstart"), owned("-k"), target];
                assert(string_views(v@) =~= launchd_followup(*service, kind));
                v
            } else {
                none
            }
        },
        (ActionKind::Delete, Some(path)) => {
            if unloaded {
                none
            } else {
                let v = vec![owned("rm"), owned("--"), path.clone()];
                assert(string_views(v@) =~= launchd_followup(*service, kind));
                v
            }
        },
        _ => none,
    }
}

/// The note shown with a launchd plan.
pub open spec fn launchd_warning(service: Service, kind: ActionKind) -> Seq<char> {
    let unloaded = service.loaded == Some(false);
    match kind {
        ActionKind::Start => if unloaded {
            "This will bootstrap the plist into the launchd domain."@
        } else {
            "This will ask launchd to start the selected job."@
        },
        ActionKind::Stop => "This unloads the selected launchd job from its domain."@,
        ActionKind::Restart => if unloaded {
            "This will bootstrap the plist, then kickstart the launchd job."@
        } else {
            "This kills and immediately restarts the launchd job."@
        },
        ActionKind::ToggleEnabled => if service.status == ServiceStatus::Disabled {
            "This will enable the launchd job in its domain."@
        } else {
            "This will disable the launchd job in its domain."@
        },
        ActionKind::ToggleRunAtLoad => if service.config.run_at_load == Some(true) {
            "This will set RunAtLoad to false in the plist."@
        } else {
            "This will set RunAtLoad to true in the plist."@
        },
        ActionKind::EditPlist => "This opens the plist in the default macOS text editor."@,
        ActionKind::Delete => if unloaded {
            "This permanently removes the plist file."@
        } else {
            "This tries to unload the launchd job, then permanently removes the plist file."@
        },
    }
}

/// The plan for a plain launchd job, before elevation is decided.
pub open spec fn launchd_plan(service: Service, kind: ActionKind) -> PlanView {
    match launchd_command(service, kind) {
        Err(reason) => blocked_plan(service, kind, reason),
        Ok(command) => PlanView {
            kind,
            service_name: service.display_name@,
            command,
            followup: launchd_followup(service, kind),
            warning: launchd_warning(service, kind),
            blocked_reason: None,
            elevation: Elevation::Unprivileged,
        },
    }
}

/// The plan for a Homebrew-managed service, before elevation is decided.
pub open spec fn brew_plan(service: Service, kind: ActionKind) -> PlanView {
    match opt_view(service.brew_formula) {
        None => blocked_plan(service, kind, "Homebrew service has no formula name"@),
        Some(formula) => match kind {
            ActionKind::Start | ActionKind::Stop | ActionKind::Restart => PlanView {
                kind,
                service_name: service.display_name@,
                command: seq![
                    "brew"@,
                    "services"@,
                    match kind {
                        ActionKind::Start => "start"@,
                        ActionKind::Stop => "stop"@,
                        _ => "restart"@,
                    },
                    formula,
                ],
                followup: seq![],
                warning: "Homebrew will update the service registration for this formula."@,
                blocked_reason: None,
                elevation: Elevation::Unprivileged,
            },
            ActionKind::ToggleRunAtLoad | ActionKind::EditPlist | ActionKind::Delete => blocked_plan(
                service,
                kind,
                "Homebrew service plists are managed by brew services"@,
            ),
            ActionKind::ToggleEnabled => blocked_plan(
                service,
                kind,
                "Homebrew has no enable-only toggle; use start, stop, or restart"@,
            ),
        },
    }
}

/// The plan for any action on any service.
pub open spec fn action_plan(service: Service, kind: ActionKind) -> PlanView {
    if service.safety_level == SafetyLevel::ReadonlySystem {
        blocked_plan(service, kind, "system services under /System/Library are inspect-only"@)
    } else if service.safety_level == SafetyLevel::ProtectedVendor {
        blocked_plan(
            service,
            kind,
            "vendor/runtime services are protected until an explicit allowlist exists"@,
        )
    } else {
        let p = if service.source == ServiceSource::Homebrew || service.source
            == ServiceSource::Both {
            brew_plan(service, kind)
        } else {
            launchd_plan(service, kind)
        };
        PlanView {
            elevation: if needs_root(service.elevation, kind) {
                Elevation::Sudo
            } else {
                Elevation::Unprivileged
            },
            ..p
        }
    }
}

fn plan_brew(service: &Service, kind: ActionKind) -> (r: ActionPlan)
    ensures
        r@ == brew_plan(*service, kind),
{
    let formula = match &service.brew_formula {
        None => {
            return blocked(service, kind, "Homebrew service has no formula name");
        },
        Some(f) => f,
    };
    let subcommand = match kind {
        ActionKind::Start => "start",
        ActionKind::Stop => "stop",
        ActionKind::Restart => "restart",
        ActionKind::ToggleRunAtLoad | ActionKind::EditPlist | ActionKind::Delete => {
            return blocked(service, kind, "Homebrew service plists are managed by brew services");
        },
        ActionKind::ToggleEnabled => {
            return blocked(
                service,
                kind,
                "Homebrew has no enable-only toggle; use start, stop, or restart",
            );
        },
    };
    let command = vec![owned("brew"), owned("services"), owned(subcommand), formula.clone()];
    let r = ActionPlan {
        kind,
        service_name: service.display_name.clone(),
        command,
        followup: Vec::new(),
        warning: owned("Homebrew will update the service registration for this formula."),
        blocked_reason: None,
        elevation: Elevation::Unprivileged,
    };
    assert(r@.command =~= brew_plan(*service, kind).command);
    assert(r@.followup =~= seq![]);
    r
}

fn warning_for_launchd(service: &Service, kind: ActionKind) -> (r: String)
    ensures
        r@ == launchd_warning(*service, kind),
{
    let unloaded = service.loaded == Some(false);
    let text = match kind {
        ActionKind::Start => if unloaded {
            "This will bootstrap the plist into the launchd domain."
        } else {
            "This will ask launchd to start the selected job."
        },
        ActionKind::Stop => "This unloads the selected launchd job from its domain.",
        ActionKind::Restart => if unloaded {
            "This will bootstrap the plist, then kickstart the launchd job."
        } else {
            "This kills and immediately restarts the launchd job."
        },
        ActionKind::ToggleEnabled => if service.status == ServiceStatus::Disabled {
            "This will enable the launchd job in its domain."
        } else {
            "This will disable the launchd job in its domain."
        },
        ActionKind::ToggleRunAtLoad => if service.config.run_at_load == Some(true) {
            "This will set RunAtLoad to false in the plist."
        } else {
            "This will set RunAtLoad to true in the plist."
        },
        ActionKind::EditPlist => "This opens the plist in the default macOS text editor.",
        ActionKind::Delete => if unloaded {
            "This permanently removes the plist file."
        } else {
            "This tries to unload the launchd job, then permanently removes the plist file."
        },
    };
    owned(text)
}

fn launchd_command_exec(service: &Service, kind: ActionKind) -> (r: Result<Vec<String>, &'static str>)
    ensures
        match launchd_command(*service, kind) {
            Ok(c) => r matches Ok(v) && string_views(v@) == c,
            Err(reason) => r matches Err(m) && m@ == reason,
        },
{
    let mut target = service.domain.clone();
    target.append("/");
    target.append(service.label.as_str());
    assert(target@ == service_target(*service));
    let unloaded = service.loaded == Some(false);
    let root = match elevation_for(service, kind) {
        Elevation::Sudo => true,
        Elevation::Unprivileged => false,
    };
    match kind {
        ActionKind::Start => {
            if unloaded {
                match &service.plist_path {
                    None => Err("unloaded service has no plist to bootstrap"),
                    Some(path) => {
                        let v = vec![owned("launchctl"), owned("bootstrap"), service.domain.clone(), path.clone()];
                        assert(string_views(v@) =~= seq!["launchctl"@, "bootstrap"@, service.domain@, path@]);
                        Ok(v)
                    },
                }
            } else {
                let v = vec![owned("launchctl"), owned("kickstart"), target];
                assert(string_views(v@) =~= seq!["launchctl"@, "kickstart"@, service_target(*service)]);
                Ok(v)
            }
        },
        ActionKind::Stop => {
            let v = vec![owned("launchctl"), owned("bootout"), target];
            assert(string_views(v@) =~= seq!["launchctl"@, "bootout"@, service_target(*service)]);
            Ok(v)
        },
        ActionKind::Restart => {
            if unloaded {
                match &service.plist_path {
                    None => Err("unloaded service has no plist to bootstrap"),
                    Some(path) => {
                        if root {
                            let v = vec![owned("launchctl"), owned("bootstrap"), service.domain.clone(), path.clone()];
                            assert(string_views(v@) =~= launchd_command(*service, kind)->Ok_0);
                            return Ok(v);
                        }
                        let mut script = owned("launchctl bootstrap ");
                        let q = shell_quote(service.domain.as_str());
                        script.append(q.as_str());
                        script.append(" ");
                        let q = shell_quote(path.as_str());
                        script.append(q.as_str());
                        script.append(" && launchctl kickstart -k ");
                        let q = shell_quote(target.as_str());
                        script.append(q.as_str());
                        let v = vec![owned("/bin/sh"), owned("-lc"), script];
                        assert(string_views(v@) =~= launchd_command(*service, kind)->Ok_0);
                        Ok(v)
                    },
                }
            } else {
                let v = vec![owned("launchctl"), owned("kickstart"), owned("-k"), target];
                assert(string_views(v@) =~= launchd_command(*service, kind)->Ok_0);
                Ok(v)
            }
        },
        ActionKind::ToggleEnabled => {
            let subcommand = if service.enabled == Some(false) {
                "enable"
            } else {
                "disable"
            };
            let v = vec![owned("launchctl"), owned(subcommand), target];
            assert(string_views(v@) =~= launchd_command(*service, kind)->Ok_0);
            Ok(v)
        },
        ActionKind::ToggleRunAtLoad => {
            match &service.plist_path {
                None => Err("service has no plist to update"),
                Some(path) => {
                    let desired = if service.config.run_at_load == Some(true) {
                        "false"
                    } else {
                        "true"
                    };
                    if root {
                        let v = vec![
                            owned("plutil"),
                            owned("-replace"),
                            owned("RunAtLoad"),
                            owned("-bool"),
                            owned(desired),
                            path.clone(),
                        ];
                        assert(string_views(v@) =~= launchd_command(*service, kind)->Ok_0);
                        return Ok(v);
                    }
                    let p = shell_quote(path.as_str());
                    let mut script = owned("if /usr/libexec/PlistBuddy -c 'Print :RunAtLoad' ");
                    script.append(p.as_str());
                    script.append(" >/dev/null 2>&1; then /usr/libexec/PlistBuddy -c 'Set :RunAtLoad ");
                    script.append(desired);
                    script.append("' ");
                    script.append(p.as_str());
                    script.append("; else /usr/libexec/PlistBuddy -c 'Add :RunAtLoad bool ");
                    script.append(desired);
                    script.append("' ");
                    script.append(p.as_str());
                    script.append("; fi && plutil -lint ");
                    script.append(p.as_str());
                    assert(script@ =~= run_at_load_script(p@, desired@));
                    let v = vec![owned("/bin/sh"), owned("-lc"), script];
                    assert(string_views(v@) =~= launchd_command(*service, kind)->Ok_0);
                    Ok(v)
                },
            }
        },
        ActionKind::EditPlist => {
            match &service.plist_path {
                None => Err("service has no plist to edit"),
                Some(path) => {
                    let v = vec![owned("open"), owned("-t"), path.clone()];
                    assert(string_views(v@) =~= launchd_command(*service, kind)->Ok_0);
                    Ok(v)
                },
            }
        },
        ActionKind::Delete => {
            match &service.plist_path {
                None => Err("service has no plist to delete"),
                Some(path) => {
                    if unloaded {
                        let v = vec![owned("rm"), owned("--"), path.clone()];
                        assert(string_views(v@) =~= launchd_command(*service, kind)->Ok_0);
                        Ok(v)
                    } else if root {
                        let v = vec![owned("launchctl"), owned("bootout"), target];
                        assert(string_views(v@) =~= launchd_command(*service, kind)->Ok_0);
                        Ok(v)
                    } else {
                        let mut script = owned("launchctl bootout ");
                        let q = shell_quote(target.as_str());
                        script.append(q.as_str());
                        script.append(" >/dev/null 2>&1 && rm -- ");
                        let q = shell_quote(path.as_str());
                        script.append(q.as_str());
                        let v = vec![owned("/bin/sh"), owned("-lc"), script];
                        assert(string_views(v@) =~= launchd_command(*service, kind)->Ok_0);
                        Ok(v)
                    }
                },
            }
        },
    }
}

fn plan_launchd(service: &Service, kind: ActionKind) -> (r: ActionPlan)
    ensures
        r@ == launchd_plan(*service, kind),
{
    match launchd_command_exec(service, kind) {
        Err(reason) => blocked(service, kind, reason),
        Ok(command) => ActionPlan {
            kind,
            service_name: service.display_name.clone(),
            command,
            followup: launchd_followup_exec(service, kind),
            warning: warning_for_launchd(service, kind),
            blocked_reason: None,
            elevation: Elevation::Unprivileged,
        },
    }
}

/// Whether a command hands its work to a shell.
pub open spec fn runs_through_shell(command: Seq<Seq<char>>) -> bool {
    command.len() > 0 && command[0] == "/bin/sh"@
}

/// A plan that runs as root runs plain argument lists, never a shell.
pub proof fn lemma_root_plans_skip_the_shell(service: Service, kind: ActionKind)
    ensures
        action_plan(service, kind).elevation == Elevation::Sudo
            && action_plan(service, kind).blocked_reason is None ==> !runs_through_shell(
            action_plan(service, kind).command,
        ) && !runs_through_shell(action_plan(service, kind).followup),
{
    reveal_strlit("/bin/sh");
    reveal_strlit("launchctl");
    reveal_strlit("rm");
    reveal_strlit("plutil");
    reveal_strlit("brew");
    reveal_strlit("open");
    let p = action_plan(service, kind);
    if p.elevation == Elevation::Sudo && p.blocked_reason is None && p.command.len() > 0 {
        let w = p.command[0];
        assert(w == "launchctl"@ || w == "rm"@ || w == "plutil"@ || w == "brew"@ || w == "open"@);
        assert(w.len() != 7 || w[0] != '/');
    }
    if p.elevation == Elevation::Sudo && p.blocked_reason is None && p.followup.len() > 0 {
        let w = p.followup[0];
        assert(w == "launchctl"@ || w == "rm"@);
        assert(w.len() != 7);
    }
}

/// Plans `kind` for `service`: blocked for read-only and protected services,
/// through `brew services` for Homebrew formulas, through launchctl otherwise,
/// with root asked for exactly where the action's axis needs it. A plan that
/// runs as root is a plain argument list, never a shell script.
pub fn plan(service: &Service, kind: ActionKind) -> (r: ActionPlan)
    ensures
        r@ == action_plan(*service, kind),
        r@.elevation == Elevation::Sudo && r@.blocked_reason is None ==> !runs_through_shell(r@.command)
            && !runs_through_shell(r@.followup),
{
    proof {
        lemma_root_plans_skip_the_shell(*service, kind);
    }
    if service.safety_level == SafetyLevel::ReadonlySystem {
        return blocked(service, kind, "system services under /System/Library are inspect-only");
    }
    if service.safety_level == SafetyLevel::ProtectedVendor {
        return blocked(
            service,
            kind,
            "vendor/runtime services are protected until an explicit allowlist exists",
        );
    }
    let elevation = elevation_for(service, kind);
    let p = if service.source == ServiceSource::Homebrew || service.source == ServiceSource::Both {
        plan_brew(service, kind)
    } else {
        plan_launchd(service, kind)
    };
    ActionPlan { elevation, ..p }
}


// ---------------------------------------------------------------------------
// Running a plan
// ---------------------------------------------------------------------------

/// Why a plan cannot be run at all: its blocked reason, or that it has no
/// command; `None` when it can run.
pub open spec fn refusal_text(p: PlanView) -> Option<Seq<char>> {
    match p.blocked_reason {
        Some(reason) => Some(reason),
        None => if p.command.len() == 0 {
            Some("action has no command"@)
        } else {
            None
        },
    }
}

/// The failed result for a plan that cannot run, or `None` when it can.
pub fn refusal(plan: &ActionPlan) -> (r: Option<ActionResult>)
    ensures
        match refusal_text(plan@) {
            Some(m) => r matches Some(res) && !res.success && res.message@ == m,
            None => r is None,
        },
{
    match &plan.blocked_reason {
        Some(reason) => Some(ActionResult { success: false, message: reason.clone() }),
        None => if plan.command.len() == 0 {
            Some(ActionResult { success: false, message: owned("action has no command") })
        } else {
            None
        },
    }
}

/// What a finished command said, compacted for the status line: its first
/// three lines joined with ` | `, or `fallback` when it said nothing.
pub open spec fn compact_text(output: Seq<char>, fallback: Seq<char>) -> Seq<char> {
    let t = trim(output);
    if t.len() == 0 {
        fallback
    } else {
        join(lines(t).take(crate::app::min_int(3, lines(t).len() as int)), " | "@)
    }
}

pub fn compact_output(output: &str, fallback: &str) -> (r: String)
    ensures
        r@ == compact_text(output@, fallback@),
{
    let t = trim_str(output);
    if t.len() == 0 {
        return owned(fallback);
    }
    let ls = lines_of(&t);
    let n = if ls.len() < 3 {
        ls.len()
    } else {
        3
    };
    let mut parts: Vec<String> = Vec::new();
    let mut i: usize = 0;
    while i < n
        invariant
            i <= n,
            n <= ls@.len(),
            string_views(parts@) == views(ls@).take(i as int),
        decreases n - i,
    {
        let ghost before = string_views(parts@);
        parts.push(string_of(&ls[i]));
        assert(string_views(parts@) =~= before.push(ls@[i as int]@));
        assert(views(ls@).take(i + 1) =~= views(ls@).take(i as int).push(ls@[i as int]@));
        i = i + 1;
    }
    join_strings(&parts, " | ")
}
} // verus!
