//! The unified service model: one row per launchd job or Homebrew service,
//! with the compact schedule and origin texts shown for it.
use vstd::prelude::*;
use vstd::string::*;
use crate::text::{
    concat2, decimal, decimal_string, join, join_strings, lowercase, owned, pad2, pad2_string,
    string_views, to_lowercase,
};

verus! {

/// Where a service was discovered.
#[derive(Clone, Copy, Debug, PartialEq, Eq, Structural)]
pub enum ServiceSource {
    Launchd,
    Homebrew,
    Both,
}

/// The display name of a source.
pub open spec fn source_text(s: ServiceSource) -> Seq<char> {
    match s {
        ServiceSource::Launchd => "launchd"@,
        ServiceSource::Homebrew => "brew"@,
        ServiceSource::Both => "both"@,
    }
}

impl ServiceSource {
    /// The display name: `launchd`, `brew` or `both`.
    pub fn to_text(&self) -> (r: String)
        ensures
            r@ == source_text(*self),
    {
        match self {
            ServiceSource::Launchd => owned("launchd"),
            ServiceSource::Homebrew => owned("brew"),
            ServiceSource::Both => owned("both"),
        }
    }
}

/// Which launchd directory family a job belongs to.
#[derive(Clone, Copy, Debug, PartialEq, Eq, Structural)]
pub enum ServiceScope {
    UserAgent,
    GlobalAgent,
    SystemDaemon,
}

/// The launchd domain of a scope for the user `uid`.
pub open spec fn scope_domain(s: ServiceScope, uid: u32) -> Seq<char> {
    match s {
        ServiceScope::UserAgent | ServiceScope::GlobalAgent => "gui/"@ + decimal(uid as nat),
        ServiceScope::SystemDaemon => "system"@,
    }
}

/// The display name of a scope.
pub open spec fn scope_label(s: ServiceScope) -> Seq<char> {
    match s {
        ServiceScope::UserAgent => "user agent"@,
        ServiceScope::GlobalAgent => "global agent"@,
        ServiceScope::SystemDaemon => "system"@,
    }
}

/// `gui/<uid>` for the current user.
pub fn gui_domain(uid: u32) -> (r: String)
    ensures
        r@ == "gui/"@ + decimal(uid as nat),
{
    let digits = decimal_string(uid as u64);
    concat2("gui/", digits.as_str())
}

impl ServiceScope {
    /// The launchd domain in which jobs of this scope run for user `uid`.
    pub fn domain(&self, uid: u32) -> (r: String)
        ensures
            r@ == scope_domain(*self, uid),
    {
        match self {
            ServiceScope::UserAgent | ServiceScope::GlobalAgent => gui_domain(uid),
            ServiceScope::SystemDaemon => owned("system"),
        }
    }

    pub fn label(&self) -> (r: &'static str)
        ensures
            r@ == scope_label(*self),
    {
        match self {
            ServiceScope::UserAgent => "user agent",
            ServiceScope::GlobalAgent => "global agent",
            ServiceScope::SystemDaemon => "system",
        }
    }
}

/// The derived runtime state of a service.
#[derive(Clone, Copy, Debug, PartialEq, Eq, Structural)]
pub enum ServiceStatus {
    Running,
    Scheduled,
    Stopped,
    Failed,
    Unloaded,
    Disabled,
    Unknown,
}

/// The display name of a status.
pub open spec fn status_text(s: ServiceStatus) -> Seq<char> {
    match s {
        ServiceStatus::Running => "running"@,
        ServiceStatus::Scheduled => "scheduled"@,
        ServiceStatus::Stopped => "stopped"@,
        ServiceStatus::Failed => "failed"@,
        ServiceStatus::Unloaded => "unloaded"@,
        ServiceStatus::Disabled => "disabled"@,
        ServiceStatus::Unknown => "unknown"@,
    }
}

impl ServiceStatus {
    /// The display name of the status.
    pub fn to_text(&self) -> (r: String)
        ensures
            r@ == status_text(*self),
    {
        match self {
            ServiceStatus::Running => owned("running"),
            ServiceStatus::Scheduled => owned("scheduled"),
            ServiceStatus::Stopped => owned("stopped"),
            ServiceStatus::Failed => owned("failed"),
            ServiceStatus::Unloaded => owned("unloaded"),
            ServiceStatus::Disabled => owned("disabled"),
            ServiceStatus::Unknown => owned("unknown"),
        }
    }
}

/// How much care a service needs before it is changed.
#[derive(Clone, Copy, Debug, PartialEq, Eq, Structural)]
pub enum SafetyLevel {
    UserWritable,
    AdminRequired,
    ReadonlySystem,
    ProtectedVendor,
}

/// The display name of a safety level.
pub open spec fn safety_text(s: SafetyLevel) -> Seq<char> {
    match s {
        SafetyLevel::UserWritable => "user"@,
        SafetyLevel::AdminRequired => "admin"@,
        SafetyLevel::ReadonlySystem => "readonly"@,
        SafetyLevel::ProtectedVendor => "vendor"@,
    }
}

impl SafetyLevel {
    /// The display name of the safety level.
    pub fn to_text(&self) -> (r: String)
        ensures
            r@ == safety_text(*self),
    {
        match self {
            SafetyLevel::UserWritable => owned("user"),
            SafetyLevel::AdminRequired => owned("admin"),
            SafetyLevel::ReadonlySystem => owned("readonly"),
            SafetyLevel::ProtectedVendor => owned("vendor"),
        }
    }
}

/// Which tool put a job on the machine. It answers "who do I go edit to change
/// this for good", which `launchctl` cannot tell: reinstalling a Homebrew
/// formula or re-running `nix-darwin switch` silently undoes a plist edit.
#[derive(Clone, Copy, Debug, PartialEq, Eq, Structural)]
pub enum Provenance {
    Homebrew,
    UserPlist,
    Mise,
    Nix,
    VendorApp,
    System,
    RuntimeOnly,
    Unknown,
}

pub open spec fn provenance_label(p: Provenance) -> Seq<char> {
    match p {
        Provenance::Homebrew => "homebrew"@,
        Provenance::UserPlist => "user-plist"@,
        Provenance::Mise => "mise"@,
        Provenance::Nix => "nix"@,
        Provenance::VendorApp => "vendor-app"@,
        Provenance::System => "system"@,
        Provenance::RuntimeOnly => "runtime-only"@,
        Provenance::Unknown => "unknown"@,
    }
}

pub open spec fn provenance_hint(p: Provenance) -> Seq<char> {
    match p {
        Provenance::Homebrew => "manage with `brew services`"@,
        Provenance::UserPlist => "edit the plist or use `launchctl`"@,
        Provenance::Mise => "edit mise.toml, then re-run the mise bootstrap"@,
        Provenance::Nix => "edit the Nix config, then rebuild/switch"@,
        Provenance::VendorApp => "change it from the owning app's settings"@,
        Provenance::System => "Apple-managed; inspect only"@,
        Provenance::RuntimeOnly => "no plist on disk; inspect before changing"@,
        Provenance::Unknown => "origin unknown; inspect before changing"@,
    }
}

impl Provenance {
    pub fn label(self) -> (r: &'static str)
        ensures
            r@ == provenance_label(self),
    {
        match self {
            Provenance::Homebrew => "homebrew",
            Provenance::UserPlist => "user-plist",
            Provenance::Mise => "mise",
            Provenance::Nix => "nix",
            Provenance::VendorApp => "vendor-app",
            Provenance::System => "system",
            Provenance::RuntimeOnly => "runtime-only",
            Provenance::Unknown => "unknown",
        }
    }

    /// How to change this service permanently, rather than just until the
    /// owning tool next runs.
    pub fn change_hint(self) -> (r: &'static str)
        ensures
            r@ == provenance_hint(self),
    {
        match self {
            Provenance::Homebrew => "manage with `brew services`",
            Provenance::UserPlist => "edit the plist or use `launchctl`",
            Provenance::Mise => "edit mise.toml, then re-run the mise bootstrap",
            Provenance::Nix => "edit the Nix config, then rebuild/switch",
            Provenance::VendorApp => "change it from the owning app's settings",
            Provenance::System => "Apple-managed; inspect only",
            Provenance::RuntimeOnly => "no plist on disk; inspect before changing",
            Provenance::Unknown => "origin unknown; inspect before changing",
        }
    }
}

/// How sure a provenance guess is.
#[derive(Clone, Copy, Debug, PartialEq, Eq, Structural)]
pub enum Confidence {
    High,
    Medium,
    Guess,
}

pub open spec fn confidence_label(c: Confidence) -> Seq<char> {
    match c {
        Confidence::High => "high"@,
        Confidence::Medium => "medium"@,
        Confidence::Guess => "guess"@,
    }
}

impl Confidence {
    pub fn label(self) -> (r: &'static str)
        ensures
            r@ == confidence_label(self),
    {
        match self {
            Confidence::High => "high",
            Confidence::Medium => "medium",
            Confidence::Guess => "guess",
        }
    }
}

/// A provenance guess with the evidence behind it, so that it stays auditable.
#[derive(Clone, Debug)]
pub struct Origin {
    pub kind: Provenance,
    pub confidence: Confidence,
    pub evidence: Vec<String>,
}

impl Origin {
    pub fn unknown() -> (r: Self)
        ensures
            r.kind == Provenance::Unknown,
            r.confidence == Confidence::Guess,
            r.evidence@.len() == 0,
    {
        Origin { kind: Provenance::Unknown, confidence: Confidence::Guess, evidence: Vec::new() }
    }

    /// `<kind> (<confidence>)`.
    pub fn summary(&self) -> (r: String)
        ensures
            r@ == provenance_label(self.kind) + " ("@ + confidence_label(self.confidence) + ")"@,
    {
        let mut r = owned(self.kind.label());
        r.append(" (");
        r.append(self.confidence.label());
        r.append(")");
        r
    }

    /// A copy of this origin.
    pub fn duplicate(&self) -> (r: Self)
        ensures
            r.kind == self.kind,
            r.confidence == self.confidence,
            string_views(r.evidence@) == string_views(self.evidence@),
    {
        let evidence = self.evidence.clone();
        assert(string_views(evidence@) =~= string_views(self.evidence@));
        Origin { kind: self.kind, confidence: self.confidence, evidence }
    }
}

/// What actually needs root, per axis. launchd scope and file ownership are
/// independent: an agent in `/Library/LaunchAgents` is root-owned on disk but
/// runs in the caller's `gui/<uid>` domain, so starting it needs no privileges
/// while deleting its plist does.
#[derive(Clone, Copy, Debug, PartialEq, Eq, Structural)]
pub struct ElevationNeeds {
    /// Driving `launchctl` in this service's domain needs root.
    pub runtime: bool,
    /// Editing the plist in place needs root.
    pub plist_write: bool,
    /// Removing the plist from its directory needs root.
    pub plist_remove: bool,
}

/// The detail-view text for elevation needs.
pub open spec fn elevation_summary(e: ElevationNeeds) -> Seq<char> {
    let needs = (if e.runtime { seq!["launchctl"@] } else { seq![] }) + (if e.plist_write {
        seq!["plist edit"@]
    } else {
        seq![]
    }) + (if e.plist_remove { seq!["plist delete"@] } else { seq![] });
    if needs.len() == 0 {
        "none needed"@
    } else {
        "sudo for "@ + join(needs, ", "@)
    }
}

impl ElevationNeeds {
    pub fn none() -> (r: Self)
        ensures
            !r.runtime && !r.plist_write && !r.plist_remove,
    {
        ElevationNeeds { runtime: false, plist_write: false, plist_remove: false }
    }

    /// Human summary for the detail view: which axes actually need root.
    pub fn summary(&self) -> (r: String)
        ensures
            r@ == elevation_summary(*self),
    {
        let mut needs: Vec<String> = Vec::new();
        if self.runtime {
            needs.push(owned("launchctl"));
        }
        if self.plist_write {
            needs.push(owned("plist edit"));
        }
        if self.plist_remove {
            needs.push(owned("plist delete"));
        }
        let ghost expected = (if self.runtime { seq!["launchctl"@] } else { seq![] }) + (if self.plist_write {
            seq!["plist edit"@]
        } else {
            seq![]
        }) + (if self.plist_remove { seq!["plist delete"@] } else { seq![] });
        assert(string_views(needs@) =~= expected);
        if needs.len() == 0 {
            owned("none needed")
        } else {
            let joined = join_strings(&needs, ", ");
            concat2("sudo for ", joined.as_str())
        }
    }
}

impl Default for ElevationNeeds {
    fn default() -> (r: Self)
        ensures
            !r.runtime && !r.plist_write && !r.plist_remove,
    {
        ElevationNeeds::none()
    }
}


/// A `StartCalendarInterval` entry; missing components are wildcards.
#[derive(Clone, Copy, Debug, PartialEq, Eq, Structural)]
pub struct CalendarSchedule {
    pub minute: Option<u64>,
    pub hour: Option<u64>,
    pub day: Option<u64>,
    pub weekday: Option<u64>,
    pub month: Option<u64>,
}

/// The three-letter name of a launchd weekday (0 and 7 are Sunday).
pub open spec fn weekday_text(weekday: u64) -> Seq<char> {
    if weekday == 0 || weekday == 7 {
        "Sun"@
    } else if weekday == 1 {
        "Mon"@
    } else if weekday == 2 {
        "Tue"@
    } else if weekday == 3 {
        "Wed"@
    } else if weekday == 4 {
        "Thu"@
    } else if weekday == 5 {
        "Fri"@
    } else if weekday == 6 {
        "Sat"@
    } else {
        "?"@
    }
}

/// The `HH:MM` part of a calendar entry, with `*` for a missing component.
pub open spec fn clock_text(hour: Option<u64>, minute: Option<u64>) -> Option<Seq<char>> {
    match (hour, minute) {
        (Some(h), Some(m)) => Some(pad2(h as nat) + ":"@ + pad2(m as nat)),
        (Some(h), None) => Some(pad2(h as nat) + ":*"@),
        (None, Some(m)) => Some("*:"@ + pad2(m as nat)),
        (None, None) => None,
    }
}

/// The space-separated parts of a calendar entry that names a month, day or
/// weekday.
pub open spec fn calendar_parts(c: CalendarSchedule) -> Seq<Seq<char>> {
    (match c.month {
        Some(m) => seq!["mo"@ + decimal(m as nat)],
        None => seq![],
    }) + (match c.day {
        Some(d) => seq!["d"@ + decimal(d as nat)],
        None => seq![],
    }) + (match c.weekday {
        Some(w) => seq![weekday_text(w)],
        None => seq![],
    }) + (match clock_text(c.hour, c.minute) {
        Some(t) => seq![t],
        None => seq![],
    })
}

/// The compact description of a calendar entry: `06:00`, `Mon 09:30`,
/// `mo1 d15 12:00`, or `calendar` when nothing is set.
pub open spec fn calendar_text(c: CalendarSchedule) -> Seq<char> {
    if c.month is None && c.day is None && c.weekday is None {
        match clock_text(c.hour, c.minute) {
            Some(t) => t,
            None => "calendar"@,
        }
    } else {
        join(calendar_parts(c), " "@)
    }
}

/// The three-letter name of a launchd weekday.
pub fn weekday_name(weekday: u64) -> (r: &'static str)
    ensures
        r@ == weekday_text(weekday),
{
    if weekday == 0 || weekday == 7 {
        "Sun"
    } else if weekday == 1 {
        "Mon"
    } else if weekday == 2 {
        "Tue"
    } else if weekday == 3 {
        "Wed"
    } else if weekday == 4 {
        "Thu"
    } else if weekday == 5 {
        "Fri"
    } else if weekday == 6 {
        "Sat"
    } else {
        "?"
    }
}

fn clock_string(hour: Option<u64>, minute: Option<u64>) -> (r: Option<String>)
    ensures
        match clock_text(hour, minute) {
            Some(t) => r matches Some(s) && s@ == t,
            None => r is None,
        },
{
    match (hour, minute) {
        (Some(h), Some(m)) => {
            let mut s = pad2_string(h);
            s.append(":");
            let mm = pad2_string(m);
            s.append(mm.as_str());
            Some(s)
        },
        (Some(h), None) => {
            let mut s = pad2_string(h);
            s.append(":*");
            Some(s)
        },
        (None, Some(m)) => {
            let mm = pad2_string(m);
            Some(concat2("*:", mm.as_str()))
        },
        (None, None) => None,
    }
}

impl CalendarSchedule {
    /// The compact description of this entry.
    pub fn describe(&self) -> (r: String)
        ensures
            r@ == calendar_text(*self),
    {
        if self.month.is_none() && self.day.is_none() && self.weekday.is_none() {
            return match clock_string(self.hour, self.minute) {
                Some(t) => t,
                None => owned("calendar"),
            };
        }
        let mut parts: Vec<String> = Vec::new();
        let ghost mut expected: Seq<Seq<char>> = seq![];
        if let Some(month) = self.month {
            let digits = decimal_string(month);
            parts.push(concat2("mo", digits.as_str()));
            proof {
                expected = expected.push("mo"@ + decimal(month as nat));
            }
        }
        if let Some(day) = self.day {
            let digits = decimal_string(day);
            parts.push(concat2("d", digits.as_str()));
            proof {
                expected = expected.push("d"@ + decimal(day as nat));
            }
        }
        if let Some(weekday) = self.weekday {
            parts.push(owned(weekday_name(weekday)));
            proof {
                expected = expected.push(weekday_text(weekday));
            }
        }
        if let Some(t) = clock_string(self.hour, self.minute) {
            proof {
                expected = expected.push(t@);
            }
            parts.push(t);
        }
        assert(string_views(parts@) =~= expected);
        assert(expected =~= calendar_parts(*self));
        join_strings(&parts, " ")
    }
}

/// A start interval in the largest whole unit: `1d`, `2h`, `5min`, `45s`.
pub open spec fn interval_text(seconds: nat) -> Seq<char> {
    if seconds >= 86400 && seconds % 86400 == 0 {
        decimal(seconds / 86400) + "d"@
    } else if seconds >= 3600 && seconds % 3600 == 0 {
        decimal(seconds / 3600) + "h"@
    } else if seconds >= 60 && seconds % 60 == 0 {
        decimal(seconds / 60) + "min"@
    } else {
        decimal(seconds) + "s"@
    }
}

/// A start interval in the largest whole unit.
pub fn format_interval(seconds: u64) -> (r: String)
    ensures
        r@ == interval_text(seconds as nat),
{
    let minute: u64 = 60;
    let hour: u64 = 3600;
    let day: u64 = 86400;
    if seconds >= day && seconds % day == 0 {
        let n = decimal_string(seconds / day);
        concat2(n.as_str(), "d")
    } else if seconds >= hour && seconds % hour == 0 {
        let n = decimal_string(seconds / hour);
        concat2(n.as_str(), "h")
    } else if seconds >= minute && seconds % minute == 0 {
        let n = decimal_string(seconds / minute);
        concat2(n.as_str(), "min")
    } else {
        let n = decimal_string(seconds);
        concat2(n.as_str(), "s")
    }
}

/// The launch configuration read from a plist.
#[derive(Clone, Debug)]
pub struct LaunchConfig {
    pub program: Option<String>,
    pub arguments: Vec<String>,
    pub working_directory: Option<String>,
    pub stdout_path: Option<String>,
    pub stderr_path: Option<String>,
    pub run_at_load: Option<bool>,
    pub keep_alive: Option<String>,
    pub start_interval: Option<u64>,
    pub start_calendar_intervals: Vec<CalendarSchedule>,
}

/// The view of an optional string.
pub open spec fn opt_view(o: Option<String>) -> Option<Seq<char>> {
    match o {
        Some(s) => Some(s@),
        None => None,
    }
}

/// A copy of an optional string.
pub fn opt_copy(o: &Option<String>) -> (r: Option<String>)
    ensures
        opt_view(r) == opt_view(*o),
{
    match o {
        Some(s) => Some(s.clone()),
        None => None,
    }
}

/// The mathematical content of a launch configuration.
pub struct LaunchConfigView {
    pub program: Option<Seq<char>>,
    pub arguments: Seq<Seq<char>>,
    pub working_directory: Option<Seq<char>>,
    pub stdout_path: Option<Seq<char>>,
    pub stderr_path: Option<Seq<char>>,
    pub run_at_load: Option<bool>,
    pub keep_alive: Option<Seq<char>>,
    pub start_interval: Option<u64>,
    pub start_calendar_intervals: Seq<CalendarSchedule>,
}

impl View for LaunchConfig {
    type V = LaunchConfigView;

    open spec fn view(&self) -> LaunchConfigView {
        LaunchConfigView {
            program: opt_view(self.program),
            arguments: string_views(self.arguments@),
            working_directory: opt_view(self.working_directory),
            stdout_path: opt_view(self.stdout_path),
            stderr_path: opt_view(self.stderr_path),
            run_at_load: self.run_at_load,
            keep_alive: opt_view(self.keep_alive),
            start_interval: self.start_interval,
            start_calendar_intervals: self.start_calendar_intervals@,
        }
    }
}

/// The configuration of a job about which nothing is known.
pub open spec fn empty_config() -> LaunchConfigView {
    LaunchConfigView {
        program: None,
        arguments: seq![],
        working_directory: None,
        stdout_path: None,
        stderr_path: None,
        run_at_load: None,
        keep_alive: None,
        start_interval: None,
        start_calendar_intervals: seq![],
    }
}

/// The command shown for a configuration: its arguments joined by spaces, else
/// its program, else `-`.
pub open spec fn command_text(c: LaunchConfigView) -> Seq<char> {
    if c.arguments.len() > 0 {
        join(c.arguments, " "@)
    } else {
        match c.program {
            Some(p) => p,
            None => "-"@,
        }
    }
}

/// The schedule summary of a configuration: the interval, then each calendar
/// entry, comma-separated; `-` when there is none.
pub open spec fn schedule_text(c: LaunchConfigView) -> Seq<char> {
    let parts = (match c.start_interval {
        Some(i) => seq![interval_text(i as nat)],
        None => seq![],
    }) + c.start_calendar_intervals.map_values(|e: CalendarSchedule| calendar_text(e));
    if parts.len() == 0 {
        "-"@
    } else {
        join(parts, ", "@)
    }
}

impl LaunchConfig {
    pub fn empty() -> (r: Self)
        ensures
            r@ == empty_config(),
    {
        let r = LaunchConfig {
            program: None,
            arguments: Vec::new(),
            working_directory: None,
            stdout_path: None,
            stderr_path: None,
            run_at_load: None,
            keep_alive: None,
            start_interval: None,
            start_calendar_intervals: Vec::new(),
        };
        assert(r@.arguments =~= seq![]);
        assert(r@.start_calendar_intervals =~= seq![]);
        r
    }

    /// A copy of this configuration.
    pub fn duplicate(&self) -> (r: Self)
        ensures
            r@ == self@,
    {
        let arguments = self.arguments.clone();
        let calendars = self.start_calendar_intervals.clone();
        assert(string_views(arguments@) =~= string_views(self.arguments@));
        assert(calendars@ =~= self.start_calendar_intervals@);
        LaunchConfig {
            program: opt_copy(&self.program),
            arguments,
            working_directory: opt_copy(&self.working_directory),
            stdout_path: opt_copy(&self.stdout_path),
            stderr_path: opt_copy(&self.stderr_path),
            run_at_load: self.run_at_load,
            keep_alive: opt_copy(&self.keep_alive),
            start_interval: self.start_interval,
            start_calendar_intervals: calendars,
        }
    }

    pub fn command_preview(&self) -> (r: String)
        ensures
            r@ == command_text(self@),
    {
        if self.arguments.len() > 0 {
            join_strings(&self.arguments, " ")
        } else {
            match &self.program {
                Some(p) => p.clone(),
                None => owned("-"),
            }
        }
    }

    pub fn schedule_summary(&self) -> (r: String)
        ensures
            r@ == schedule_text(self@),
    {
        let mut schedules: Vec<String> = Vec::new();
        if let Some(interval) = self.start_interval {
            schedules.push(format_interval(interval));
        }
        let ghost base = string_views(schedules@);
        assert(base =~= (match self.start_interval {
            Some(i) => seq![interval_text(i as nat)],
            None => seq![],
        }));
        let ghost mapped = self.start_calendar_intervals@.map_values(
            |e: CalendarSchedule| calendar_text(e),
        );
        let mut i: usize = 0;
        assert(base + mapped.take(0) =~= base);
        while i < self.start_calendar_intervals.len()
            invariant
                i <= self.start_calendar_intervals.len(),
                mapped.len() == self.start_calendar_intervals.len(),
                mapped == self.start_calendar_intervals@.map_values(
                    |e: CalendarSchedule| calendar_text(e),
                ),
                string_views(schedules@) == base + mapped.take(i as int),
            decreases self.start_calendar_intervals.len() - i,
        {
            let d = self.start_calendar_intervals[i].describe();
            assert(mapped[i as int] == calendar_text(self.start_calendar_intervals@[i as int]));
            let ghost before = string_views(schedules@);
            schedules.push(d);
            assert(string_views(schedules@) =~= before.push(d@));
            assert(mapped.take(i + 1) =~= mapped.take(i as int).push(mapped[i as int]));
            i = i + 1;
            assert(string_views(schedules@) =~= base + mapped.take(i as int));
        }
        assert(mapped.take(i as int) =~= mapped);
        assert(self@.start_calendar_intervals == self.start_calendar_intervals@);
        if schedules.len() == 0 {
            owned("-")
        } else {
            join_strings(&schedules, ", ")
        }
    }
}

/// One service row.
#[derive(Clone, Debug)]
pub struct Service {
    pub id: String,
    pub label: String,
    pub display_name: String,
    pub source: ServiceSource,
    pub scope: ServiceScope,
    pub domain: String,
    pub plist_path: Option<String>,
    pub config: LaunchConfig,
    pub pid: Option<u32>,
    pub exit_code: Option<i32>,
    pub status: ServiceStatus,
    pub enabled: Option<bool>,
    pub loaded: Option<bool>,
    pub brew_formula: Option<String>,
    pub brew_status: Option<String>,
    pub safety_level: SafetyLevel,
    pub elevation: ElevationNeeds,
    pub origin: Origin,
    pub health: Vec<String>,
}

/// The program a job runs: `Program`, or else the first argument; empty when
/// there is neither.
pub open spec fn program_text(c: LaunchConfigView) -> Seq<char> {
    match c.program {
        Some(p) => p,
        None => if c.arguments.len() > 0 {
            c.arguments[0]
        } else {
            seq![]
        },
    }
}

/// The text that search matches against: the service's names, source, scope,
/// plist path, program path, formula, provenance and health warnings,
/// lower-cased.
pub open spec fn search_text(s: Service) -> Seq<char> {
    lowercase(
        s.label@ + " "@ + s.display_name@ + " "@ + source_text(s.source) + " "@ + scope_label(s.scope)
            + " "@ + (match opt_view(s.plist_path) {
            Some(p) => p,
            None => seq![],
        }) + " "@ + program_text(s.config@) + " "@ + (match opt_view(s.brew_formula) {
            Some(f) => f,
            None => seq![],
        }) + " "@ + provenance_label(s.origin.kind) + " "@ + join(string_views(s.health@), " "@),
    )
}

impl Service {
    pub fn searchable_text(&self) -> (r: String)
        ensures
            r@ == search_text(*self),
    {
        let mut t = self.label.clone();
        t.append(" ");
        t.append(self.display_name.as_str());
        t.append(" ");
        let source = self.source.to_text();
        t.append(source.as_str());
        t.append(" ");
        t.append(self.scope.label());
        t.append(" ");
        match &self.plist_path {
            Some(p) => t.append(p.as_str()),
            None => {},
        }
        t.append(" ");
        match &self.config.program {
            Some(p) => t.append(p.as_str()),
            None => if self.config.arguments.len() > 0 {
                t.append(self.config.arguments[0].as_str());
            },
        }
        t.append(" ");
        match &self.brew_formula {
            Some(f) => t.append(f.as_str()),
            None => {},
        }
        t.append(" ");
        t.append(self.origin.kind.label());
        t.append(" ");
        let health = join_strings(&self.health, " ");
        t.append(health.as_str());
        proof {
            let p = match opt_view(self.plist_path) {
                Some(p) => p,
                None => seq![],
            };
            let f = match opt_view(self.brew_formula) {
                Some(f) => f,
                None => seq![],
            };
            assert(t@ =~= self.label@ + " "@ + self.display_name@ + " "@ + source_text(self.source)
                + " "@ + scope_label(self.scope) + " "@ + p + " "@ + program_text(self.config@) + " "@
                + f + " "@ + provenance_label(
                self.origin.kind,
            ) + " "@ + join(string_views(self.health@), " "@));
        }
        to_lowercase(t.as_str())
    }
}

/// The mathematical content of a provenance guess.
pub struct OriginView {
    pub kind: Provenance,
    pub confidence: Confidence,
    pub evidence: Seq<Seq<char>>,
}

impl View for Origin {
    type V = OriginView;

    open spec fn view(&self) -> OriginView {
        OriginView {
            kind: self.kind,
            confidence: self.confidence,
            evidence: string_views(self.evidence@),
        }
    }
}

/// The mathematical content of a service row.
pub struct ServiceView {
    pub id: Seq<char>,
    pub label: Seq<char>,
    pub display_name: Seq<char>,
    pub source: ServiceSource,
    pub scope: ServiceScope,
    pub domain: Seq<char>,
    pub plist_path: Option<Seq<char>>,
    pub config: LaunchConfigView,
    pub pid: Option<u32>,
    pub exit_code: Option<i32>,
    pub status: ServiceStatus,
    pub enabled: Option<bool>,
    pub loaded: Option<bool>,
    pub brew_formula: Option<Seq<char>>,
    pub brew_status: Option<Seq<char>>,
    pub safety_level: SafetyLevel,
    pub elevation: ElevationNeeds,
    pub origin: OriginView,
    pub health: Seq<Seq<char>>,
}

impl View for Service {
    type V = ServiceView;

    open spec fn view(&self) -> ServiceView {
        ServiceView {
            id: self.id@,
            label: self.label@,
            display_name: self.display_name@,
            source: self.source,
            scope: self.scope,
            domain: self.domain@,
            plist_path: opt_view(self.plist_path),
            config: self.config@,
            pid: self.pid,
            exit_code: self.exit_code,
            status: self.status,
            enabled: self.enabled,
            loaded: self.loaded,
            brew_formula: opt_view(self.brew_formula),
            brew_status: opt_view(self.brew_status),
            safety_level: self.safety_level,
            elevation: self.elevation,
            origin: self.origin@,
            health: string_views(self.health@),
        }
    }
}

/// Everything discovered in one pass, with the problems met on the way.
#[derive(Clone, Debug)]
pub struct Inventory {
    pub services: Vec<Service>,
    pub warnings: Vec<String>,
}

} // verus!
