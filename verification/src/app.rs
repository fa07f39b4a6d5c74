//! The interactive state of the service browser: views, filters and sort
//! order, the selection and what it survives, detail rows, log streams,
//! action confirmation and the create form. Drawing and the terminal loop
//! live with the program; they read and drive this state.
use vstd::prelude::*;
use vstd::string::*;
use crate::model::{
    command_text, confidence_label, elevation_summary, opt_view, provenance_hint, provenance_label,
    safety_text, schedule_text, scope_label, source_text, status_text, Service, ServiceSource,
    ServiceStatus,
};
use crate::oslog::LogWindow;
use crate::text::{
    concat2, decimal, decimal_string, has_prefix, join, join_strings, owned, str_eq, string_views,
};

verus! {

/// Which screen is shown.
#[derive(Clone, Copy, Debug, PartialEq, Eq, Structural)]
pub enum ViewMode {
    Overview,
    Detail,
    Logs,
}

/// The rows of the detail view.
#[derive(Clone, Copy, Debug, PartialEq, Eq, Structural)]
pub enum DetailItem {
    Status,
    Source,
    Domain,
    Scope,
    Safety,
    Origin,
    Elevation,
    Plist,
    BrewFormula,
    BrewStatus,
    Command,
    WorkingDirectory,
    Stdout,
    Stderr,
    RunAtLoad,
    KeepAlive,
    StartInterval,
    Schedule,
    Health,
}

/// How many rows the detail view has.
pub const DETAIL_COUNT: usize = 19;

/// The detail row at position `i`.
pub open spec fn detail_at(i: int) -> DetailItem {
    if i == 0 {
        DetailItem::Status
    } else if i == 1 {
        DetailItem::Source
    } else if i == 2 {
        DetailItem::Domain
    } else if i == 3 {
        DetailItem::Scope
    } else if i == 4 {
        DetailItem::Safety
    } else if i == 5 {
        DetailItem::Origin
    } else if i == 6 {
        DetailItem::Elevation
    } else if i == 7 {
        DetailItem::Plist
    } else if i == 8 {
        DetailItem::BrewFormula
    } else if i == 9 {
        DetailItem::BrewStatus
    } else if i == 10 {
        DetailItem::Command
    } else if i == 11 {
        DetailItem::WorkingDirectory
    } else if i == 12 {
        DetailItem::Stdout
    } else if i == 13 {
        DetailItem::Stderr
    } else if i == 14 {
        DetailItem::RunAtLoad
    } else if i == 15 {
        DetailItem::KeepAlive
    } else if i == 16 {
        DetailItem::StartInterval
    } else if i == 17 {
        DetailItem::Schedule
    } else {
        DetailItem::Health
    }
}

fn detail_at_index(i: usize) -> (r: DetailItem)
    requires
        i < DETAIL_COUNT,
    ensures
        r == detail_at(i as int),
{
    if i == 0 {
        DetailItem::Status
    } else if i == 1 {
        DetailItem::Source
    } else if i == 2 {
        DetailItem::Domain
    } else if i == 3 {
        DetailItem::Scope
    } else if i == 4 {
        DetailItem::Safety
    } else if i == 5 {
        DetailItem::Origin
    } else if i == 6 {
        DetailItem::Elevation
    } else if i == 7 {
        DetailItem::Plist
    } else if i == 8 {
        DetailItem::BrewFormula
    } else if i == 9 {
        DetailItem::BrewStatus
    } else if i == 10 {
        DetailItem::Command
    } else if i == 11 {
        DetailItem::WorkingDirectory
    } else if i == 12 {
        DetailItem::Stdout
    } else if i == 13 {
        DetailItem::Stderr
    } else if i == 14 {
        DetailItem::RunAtLoad
    } else if i == 15 {
        DetailItem::KeepAlive
    } else if i == 16 {
        DetailItem::StartInterval
    } else if i == 17 {
        DetailItem::Schedule
    } else {
        DetailItem::Health
    }
}

/// The caption of a detail row.
pub open spec fn detail_caption(d: DetailItem) -> Seq<char> {
    match d {
        DetailItem::Status => "status"@,
        DetailItem::Source => "source"@,
        DetailItem::Domain => "domain"@,
        DetailItem::Scope => "scope"@,
        DetailItem::Safety => "safety"@,
        DetailItem::Origin => "origin"@,
        DetailItem::Elevation => "elevation"@,
        DetailItem::Plist => "plist"@,
        DetailItem::BrewFormula => "brew formula"@,
        DetailItem::BrewStatus => "brew status"@,
        DetailItem::Command => "command"@,
        DetailItem::WorkingDirectory => "working directory"@,
        DetailItem::Stdout => "stdout"@,
        DetailItem::Stderr => "stderr"@,
        DetailItem::RunAtLoad => "RunAtLoad"@,
        DetailItem::KeepAlive => "KeepAlive"@,
        DetailItem::StartInterval => "StartInterval"@,
        DetailItem::Schedule => "schedule"@,
        DetailItem::Health => "health"@,
    }
}

impl DetailItem {
    pub fn label(self) -> (r: &'static str)
        ensures
            r@ == detail_caption(self),
    {
        match self {
            DetailItem::Status => "status",
            DetailItem::Source => "source",
            DetailItem::Domain => "domain",
            DetailItem::Scope => "scope",
            DetailItem::Safety => "safety",
            DetailItem::Origin => "origin",
            DetailItem::Elevation => "elevation",
            DetailItem::Plist => "plist",
            DetailItem::BrewFormula => "brew formula",
            DetailItem::BrewStatus => "brew status",
            DetailItem::Command => "command",
            DetailItem::WorkingDirectory => "working directory",
            DetailItem::Stdout => "stdout",
            DetailItem::Stderr => "stderr",
            DetailItem::RunAtLoad => "RunAtLoad",
            DetailItem::KeepAlive => "KeepAlive",
            DetailItem::StartInterval => "StartInterval",
            DetailItem::Schedule => "schedule",
            DetailItem::Health => "health",
        }
    }
}

/// The log streams of the log view.
#[derive(Clone, Copy, Debug, PartialEq, Eq, Structural)]
pub enum LogStream {
    Stdout,
    Stderr,
    Unified,
}

/// The caption of a log stream.
pub open spec fn stream_caption(s: LogStream) -> Seq<char> {
    match s {
        LogStream::Stdout => "stdout"@,
        LogStream::Stderr => "stderr"@,
        LogStream::Unified => "os_log"@,
    }
}

/// The stream after `s` in the cycle stdout, stderr, os_log.
pub open spec fn stream_after(s: LogStream) -> LogStream {
    match s {
        LogStream::Stdout => LogStream::Stderr,
        LogStream::Stderr => LogStream::Unified,
        LogStream::Unified => LogStream::Stdout,
    }
}

impl LogStream {
    pub fn label(self) -> (r: &'static str)
        ensures
            r@ == stream_caption(self),
    {
        match self {
            LogStream::Stdout => "stdout",
            LogStream::Stderr => "stderr",
            LogStream::Unified => "os_log",
        }
    }

    fn toggle(self) -> (r: Self)
        ensures
            r == stream_after(self),
    {
        match self {
            LogStream::Stdout => LogStream::Stderr,
            LogStream::Stderr => LogStream::Unified,
            LogStream::Unified => LogStream::Stdout,
        }
    }
}

/// The unified-log lines last fetched, with the predicate that found them.
#[derive(Clone, Debug)]
pub struct UnifiedLogCache {
    pub service_id: String,
    pub window: LogWindow,
    pub elapsed_ms: u128,
    pub lines: Vec<String>,
    pub error: Option<String>,
    pub predicate: String,
}

/// Which sources the list shows.
#[derive(Clone, Copy, Debug, PartialEq, Eq, Structural)]
pub enum SourceFilter {
    All,
    Launchd,
    Homebrew,
}

/// The source filter after `f` in the cycle all, brew, launchd.
pub open spec fn source_filter_after(f: SourceFilter) -> SourceFilter {
    match f {
        SourceFilter::All => SourceFilter::Homebrew,
        SourceFilter::Homebrew => SourceFilter::Launchd,
        SourceFilter::Launchd => SourceFilter::All,
    }
}

/// The caption of a source filter.
pub open spec fn source_filter_caption(f: SourceFilter) -> Seq<char> {
    match f {
        SourceFilter::All => "all"@,
        SourceFilter::Launchd => "launchd"@,
        SourceFilter::Homebrew => "brew"@,
    }
}

impl SourceFilter {
    fn next(self) -> (r: Self)
        ensures
            r == source_filter_after(self),
    {
        match self {
            SourceFilter::All => SourceFilter::Homebrew,
            SourceFilter::Homebrew => SourceFilter::Launchd,
            SourceFilter::Launchd => SourceFilter::All,
        }
    }

    pub fn label(self) -> (r: &'static str)
        ensures
            r@ == source_filter_caption(self),
    {
        match self {
            SourceFilter::All => "all",
            SourceFilter::Launchd => "launchd",
            SourceFilter::Homebrew => "brew",
        }
    }
}

/// Which statuses the list shows.
#[derive(Clone, Copy, Debug, PartialEq, Eq, Structural)]
pub enum StatusFilter {
    All,
    Running,
    Failed,
    Stopped,
}

/// The status filter after `f` in the cycle all, running, failed, inactive.
pub open spec fn status_filter_after(f: StatusFilter) -> StatusFilter {
    match f {
        StatusFilter::All => StatusFilter::Running,
        StatusFilter::Running => StatusFilter::Failed,
        StatusFilter::Failed => StatusFilter::Stopped,
        StatusFilter::Stopped => StatusFilter::All,
    }
}

/// The caption of a status filter.
pub open spec fn status_filter_caption(f: StatusFilter) -> Seq<char> {
    match f {
        StatusFilter::All => "all"@,
        StatusFilter::Running => "running"@,
        StatusFilter::Failed => "failed"@,
        StatusFilter::Stopped => "inactive"@,
    }
}

impl StatusFilter {
    fn next(self) -> (r: Self)
        ensures
            r == status_filter_after(self),
    {
        match self {
            StatusFilter::All => StatusFilter::Running,
            StatusFilter::Running => StatusFilter::Failed,
            StatusFilter::Failed => StatusFilter::Stopped,
            StatusFilter::Stopped => StatusFilter::All,
        }
    }

    pub fn label(self) -> (r: &'static str)
        ensures
            r@ == status_filter_caption(self),
    {
        match self {
            StatusFilter::All => "all",
            StatusFilter::Running => "running",
            StatusFilter::Failed => "failed",
            StatusFilter::Stopped => "inactive",
        }
    }
}

/// The order of the list.
#[derive(Clone, Copy, Debug, PartialEq, Eq, Structural)]
pub enum SortMode {
    Name,
    Status,
    Source,
    Health,
}

/// The sort mode after `m` in the cycle name, status, source, health.
pub open spec fn sort_mode_after(m: SortMode) -> SortMode {
    match m {
        SortMode::Name => SortMode::Status,
        SortMode::Status => SortMode::Source,
        SortMode::Source => SortMode::Health,
        SortMode::Health => SortMode::Name,
    }
}

/// The caption of a sort mode.
pub open spec fn sort_mode_caption(m: SortMode) -> Seq<char> {
    match m {
        SortMode::Name => "name"@,
        SortMode::Status => "status"@,
        SortMode::Source => "source"@,
        SortMode::Health => "health"@,
    }
}

impl SortMode {
    fn next(self) -> (r: Self)
        ensures
            r == sort_mode_after(self),
    {
        match self {
            SortMode::Name => SortMode::Status,
            SortMode::Status => SortMode::Source,
            SortMode::Source => SortMode::Health,
            SortMode::Health => SortMode::Name,
        }
    }

    pub fn label(self) -> (r: &'static str)
        ensures
            r@ == sort_mode_caption(self),
    {
        match self {
            SortMode::Name => "name",
            SortMode::Status => "status",
            SortMode::Source => "source",
            SortMode::Health => "health",
        }
    }
}

// ---------------------------------------------------------------------------
// Filters over one service
// ---------------------------------------------------------------------------

/// Whether a service passes the source filter; services known to both pass
/// either side.
pub open spec fn source_passes(s: ServiceSource, f: SourceFilter) -> bool {
    match f {
        SourceFilter::All => true,
        SourceFilter::Launchd => s is Launchd || s is Both,
        SourceFilter::Homebrew => s is Homebrew || s is Both,
    }
}

/// Whether a service passes the status filter; "inactive" covers scheduled,
/// stopped, unloaded and disabled services.
pub open spec fn status_passes(s: ServiceStatus, f: StatusFilter) -> bool {
    match f {
        StatusFilter::All => true,
        StatusFilter::Running => s is Running,
        StatusFilter::Failed => s is Failed,
        StatusFilter::Stopped => s is Scheduled || s is Stopped || s is Unloaded || s is Disabled,
    }
}

pub fn matches_source(service: &Service, filter: SourceFilter) -> (r: bool)
    ensures
        r == source_passes(service.source, filter),
{
    match filter {
        SourceFilter::All => true,
        SourceFilter::Launchd => match service.source {
            ServiceSource::Launchd | ServiceSource::Both => true,
            _ => false,
        },
        SourceFilter::Homebrew => match service.source {
            ServiceSource::Homebrew | ServiceSource::Both => true,
            _ => false,
        },
    }
}

pub fn matches_status(service: &Service, filter: StatusFilter) -> (r: bool)
    ensures
        r == status_passes(service.status, filter),
{
    match filter {
        StatusFilter::All => true,
        StatusFilter::Running => service.status == ServiceStatus::Running,
        StatusFilter::Failed => service.status == ServiceStatus::Failed,
        StatusFilter::Stopped => match service.status {
            ServiceStatus::Scheduled | ServiceStatus::Stopped | ServiceStatus::Unloaded
            | ServiceStatus::Disabled => true,
            _ => false,
        },
    }
}

/// Whether a service belongs to Apple: a `com.apple.` label, or a plist under
/// `/System/Library`.
pub open spec fn apple_service(s: Service) -> bool {
    has_prefix(s.label@, "com.apple."@) || (opt_view(s.plist_path) matches Some(p)
        && crate::paths::path_has_base(p, "/System/Library"@))
}

pub fn is_apple_service(service: &Service) -> (r: bool)
    ensures
        r == apple_service(*service),
{
    let label = crate::text::chars_of(service.label.as_str());
    if crate::text::has_prefix_exec(&label, &crate::text::chars_of("com.apple.")) {
        return true;
    }
    match &service.plist_path {
        Some(p) => crate::paths::path_starts_with(p.as_str(), "/System/Library"),
        None => false,
    }
}

/// The rank of a status in the status sort: failures first, then disabled,
/// running, scheduled, stopped, unloaded, unknown.
pub open spec fn rank_of(s: ServiceStatus) -> int {
    match s {
        ServiceStatus::Failed => 0,
        ServiceStatus::Disabled => 1,
        ServiceStatus::Running => 2,
        ServiceStatus::Scheduled => 3,
        ServiceStatus::Stopped => 4,
        ServiceStatus::Unloaded => 5,
        ServiceStatus::Unknown => 6,
    }
}

pub fn status_rank(status: &ServiceStatus) -> (r: u8)
    ensures
        r as int == rank_of(*status),
{
    match status {
        ServiceStatus::Failed => 0,
        ServiceStatus::Disabled => 1,
        ServiceStatus::Running => 2,
        ServiceStatus::Scheduled => 3,
        ServiceStatus::Stopped => 4,
        ServiceStatus::Unloaded => 5,
        ServiceStatus::Unknown => 6,
    }
}

/// The action that Enter on the status row proposes: stop what runs or is
/// scheduled, start what is stopped or unloaded, restart what failed or is
/// unknown, and toggle what is disabled.
pub open spec fn status_action(s: Option<ServiceStatus>) -> crate::actions::ActionKind {
    match s {
        Some(ServiceStatus::Running) | Some(ServiceStatus::Scheduled) => crate::actions::ActionKind::Stop,
        Some(ServiceStatus::Stopped) | Some(ServiceStatus::Unloaded) => crate::actions::ActionKind::Start,
        Some(ServiceStatus::Failed) => crate::actions::ActionKind::Restart,
        Some(ServiceStatus::Disabled) => crate::actions::ActionKind::ToggleEnabled,
        Some(ServiceStatus::Unknown) | None => crate::actions::ActionKind::Restart,
    }
}

pub fn status_detail_action(service: Option<&Service>) -> (r: crate::actions::ActionKind)
    ensures
        r == status_action(
            match service {
                Some(s) => Some(s.status),
                None => None,
            },
        ),
{
    match service {
        Some(s) => match s.status {
            ServiceStatus::Running | ServiceStatus::Scheduled => crate::actions::ActionKind::Stop,
            ServiceStatus::Stopped | ServiceStatus::Unloaded => crate::actions::ActionKind::Start,
            ServiceStatus::Failed => crate::actions::ActionKind::Restart,
            ServiceStatus::Disabled => crate::actions::ActionKind::ToggleEnabled,
            ServiceStatus::Unknown => crate::actions::ActionKind::Restart,
        },
        None => crate::actions::ActionKind::Restart,
    }
}

// ---------------------------------------------------------------------------
// Detail rows
// ---------------------------------------------------------------------------

/// An optional text, `-` when absent.
pub open spec fn or_dash(o: Option<Seq<char>>) -> Seq<char> {
    match o {
        Some(t) => t,
        None => "-"@,
    }
}

/// `true` or `false`.
pub open spec fn bool_text(b: bool) -> Seq<char> {
    if b {
        "true"@
    } else {
        "false"@
    }
}

/// The origin row: summary, change hint, and the first piece of evidence.
pub open spec fn origin_text(s: Service) -> Seq<char> {
    let base = provenance_label(s.origin.kind) + " ("@ + confidence_label(s.origin.confidence) + ")"@
        + " — "@ + provenance_hint(s.origin.kind);
    if s.origin.evidence@.len() > 0 {
        base + " ["@ + s.origin.evidence@[0]@ + "]"@
    } else {
        base
    }
}

/// The value shown in a detail row.
pub open spec fn detail_text(s: Service, item: DetailItem) -> Seq<char> {
    match item {
        DetailItem::Status => status_text(s.status),
        DetailItem::Source => source_text(s.source),
        DetailItem::Domain => s.domain@,
        DetailItem::Scope => scope_label(s.scope),
        DetailItem::Safety => safety_text(s.safety_level),
        DetailItem::Origin => origin_text(s),
        DetailItem::Elevation => elevation_summary(s.elevation),
        DetailItem::Plist => or_dash(opt_view(s.plist_path)),
        DetailItem::BrewFormula => or_dash(opt_view(s.brew_formula)),
        DetailItem::BrewStatus => or_dash(opt_view(s.brew_status)),
        DetailItem::Command => command_text(s.config@),
        DetailItem::WorkingDirectory => or_dash(opt_view(s.config.working_directory)),
        DetailItem::Stdout => or_dash(opt_view(s.config.stdout_path)),
        DetailItem::Stderr => or_dash(opt_view(s.config.stderr_path)),
        DetailItem::RunAtLoad => match s.config.run_at_load {
            Some(b) => bool_text(b),
            None => "-"@,
        },
        DetailItem::KeepAlive => or_dash(opt_view(s.config.keep_alive)),
        DetailItem::StartInterval => match s.config.start_interval {
            Some(n) => decimal(n as nat),
            None => "-"@,
        },
        DetailItem::Schedule => schedule_text(s.config@),
        DetailItem::Health => if s.health@.len() == 0 {
            "clean"@
        } else {
            join(string_views(s.health@), " | "@)
        },
    }
}

fn text_or_dash(o: &Option<String>) -> (r: String)
    ensures
        r@ == or_dash(opt_view(*o)),
{
    match o {
        Some(t) => t.clone(),
        None => owned("-"),
    }
}

/// The value shown in a detail row for a service.
pub fn detail_item_value(service: &Service, item: DetailItem) -> (r: String)
    ensures
        r@ == detail_text(*service, item),
{
    match item {
        DetailItem::Status => service.status.to_text(),
        DetailItem::Source => service.source.to_text(),
        DetailItem::Domain => service.domain.clone(),
        DetailItem::Scope => owned(service.scope.label()),
        DetailItem::Safety => service.safety_level.to_text(),
        DetailItem::Origin => {
            let mut value = service.origin.summary();
            value.append(" — ");
            value.append(service.origin.kind.change_hint());
            if service.origin.evidence.len() > 0 {
                value.append(" [");
                value.append(service.origin.evidence[0].as_str());
                value.append("]");
            }
            value
        },
        DetailItem::Elevation => service.elevation.summary(),
        DetailItem::Plist => text_or_dash(&service.plist_path),
        DetailItem::BrewFormula => text_or_dash(&service.brew_formula),
        DetailItem::BrewStatus => text_or_dash(&service.brew_status),
        DetailItem::Command => service.config.command_preview(),
        DetailItem::WorkingDirectory => text_or_dash(&service.config.working_directory),
        DetailItem::Stdout => text_or_dash(&service.config.stdout_path),
        DetailItem::Stderr => text_or_dash(&service.config.stderr_path),
        DetailItem::RunAtLoad => match service.config.run_at_load {
            Some(b) => if b {
                owned("true")
            } else {
                owned("false")
            },
            None => owned("-"),
        },
        DetailItem::KeepAlive => text_or_dash(&service.config.keep_alive),
        DetailItem::StartInterval => match service.config.start_interval {
            Some(n) => decimal_string(n),
            None => owned("-"),
        },
        DetailItem::Schedule => service.config.schedule_summary(),
        DetailItem::Health => if service.health.len() == 0 {
            owned("clean")
        } else {
            join_strings(&service.health, " | ")
        },
    }
}


// ---------------------------------------------------------------------------
// Listing: which services are shown, in which order
// ---------------------------------------------------------------------------

/// Whether a service is listed: it passes the source and status filters, is
/// not an Apple service unless those are shown, has a health warning when
/// only warnings are shown, and its search text contains the query.
pub open spec fn listed(
    s: Service,
    query: Seq<char>,
    source: SourceFilter,
    status: StatusFilter,
    show_apple: bool,
    warnings_only: bool,
) -> bool {
    &&& source_passes(s.source, source)
    &&& status_passes(s.status, status)
    &&& show_apple || !apple_service(s)
    &&& !warnings_only || s.health@.len() > 0
    &&& query.len() == 0 || crate::text::contains_text(crate::model::search_text(s), query)
}

/// The key a service sorts by: a number, then two texts, compared in that
/// order. By name: the lower-cased display name. By status: the status rank,
/// then the display name. By source: the source's name, then the display
/// name. By health: more warnings first, then the display name.
pub open spec fn sort_key(s: Service, mode: SortMode) -> (int, Seq<char>, Seq<char>) {
    match mode {
        SortMode::Name => (0, crate::text::lowercase(s.display_name@), seq![]),
        SortMode::Status => (rank_of(s.status), s.display_name@, seq![]),
        SortMode::Source => (0, source_text(s.source), s.display_name@),
        SortMode::Health => (-(s.health@.len() as int), s.display_name@, seq![]),
    }
}

/// `a` sorts strictly before `b`.
pub open spec fn key_lt(a: (int, Seq<char>, Seq<char>), b: (int, Seq<char>, Seq<char>)) -> bool {
    a.0 < b.0 || (a.0 == b.0 && (crate::text::lex_lt(a.1, b.1) || (a.1 == b.1 && crate::text::lex_lt(
        a.2,
        b.2,
    ))))
}

/// Service `i` is listed before service `j`: its key is smaller, or the keys
/// tie and it came first in the inventory (the sort is stable).
pub open spec fn listed_before(services: Seq<Service>, mode: SortMode, i: int, j: int) -> bool {
    let a = sort_key(services[i], mode);
    let b = sort_key(services[j], mode);
    key_lt(a, b) || (a == b && i < j)
}

/// A listing in strictly increasing display order.
pub open spec fn in_display_order(services: Seq<Service>, mode: SortMode, l: Seq<usize>) -> bool {
    forall|a: int, b: int| 0 <= a < b < l.len() ==> listed_before(services, mode, l[a] as int, l[b] as int)
}

/// The listing of the services under the given filters and order: exactly the
/// listed services, each once, in display order.
pub open spec fn is_listing(
    services: Seq<Service>,
    l: Seq<usize>,
    query: Seq<char>,
    source: SourceFilter,
    status: StatusFilter,
    show_apple: bool,
    warnings_only: bool,
    mode: SortMode,
) -> bool {
    &&& forall|a: int| 0 <= a < l.len() ==> (#[trigger] l[a]) < services.len()
    &&& forall|a: int| 0 <= a < l.len() ==> listed(services[#[trigger] l[a] as int], query, source, status, show_apple, warnings_only)
    &&& forall|i: int| 0 <= i < services.len() && listed(services[i], query, source, status, show_apple, warnings_only)
        ==> #[trigger] l.contains(i as usize)
    &&& in_display_order(services, mode, l)
}

proof fn lemma_key_order(a: (int, Seq<char>, Seq<char>), b: (int, Seq<char>, Seq<char>), c: (int, Seq<char>, Seq<char>))
    ensures
        !(key_lt(a, b) && key_lt(b, a)),
        key_lt(a, b) ==> a != b,
        a != b ==> key_lt(a, b) || key_lt(b, a),
        key_lt(a, b) && key_lt(b, c) ==> key_lt(a, c),
{
    crate::text::lemma_lex_strict_total(a.1, b.1);
    crate::text::lemma_lex_strict_total(a.2, b.2);
    crate::text::lemma_lex_strict_total(b.1, c.1);
    crate::text::lemma_lex_strict_total(a.1, c.1);
    if key_lt(a, b) && key_lt(b, c) {
        if crate::text::lex_lt(a.1, b.1) && crate::text::lex_lt(b.1, c.1) {
            crate::text::lemma_lex_transitive(a.1, b.1, c.1);
        }
        if a.1 == b.1 && b.1 == c.1 && crate::text::lex_lt(a.2, b.2) && crate::text::lex_lt(b.2, c.2) {
            crate::text::lemma_lex_transitive(a.2, b.2, c.2);
        }
    }
    if a != b && a.0 == b.0 && a.1 == b.1 {
        assert(a.2 != b.2);
    }
}

/// `listed_before` is a strict total order on distinct services.
proof fn lemma_listed_order(services: Seq<Service>, mode: SortMode, i: int, j: int, k: int)
    ensures
        !(listed_before(services, mode, i, j) && listed_before(services, mode, j, i)),
        i != j ==> listed_before(services, mode, i, j) || listed_before(services, mode, j, i),
        listed_before(services, mode, i, j) && listed_before(services, mode, j, k) ==> listed_before(
            services,
            mode,
            i,
            k,
        ),
{
    let a = sort_key(services[i], mode);
    let b = sort_key(services[j], mode);
    let c = sort_key(services[k], mode);
    lemma_key_order(a, b, c);
    lemma_key_order(b, a, c);
    lemma_key_order(a, c, b);
}

/// The sort key of a service, computed.
fn key_of(s: &Service, mode: SortMode) -> (r: (i128, Vec<char>, Vec<char>))
    ensures
        (r.0 as int, r.1@, r.2@) == sort_key(*s, mode),
{
    match mode {
        SortMode::Name => {
            let lower = crate::text::to_lowercase(s.display_name.as_str());
            (0, crate::text::chars_of(lower.as_str()), Vec::new())
        },
        SortMode::Status => (
            status_rank(&s.status) as i128,
            crate::text::chars_of(s.display_name.as_str()),
            Vec::new(),
        ),
        SortMode::Source => {
            let src = s.source.to_text();
            (0, crate::text::chars_of(src.as_str()), crate::text::chars_of(s.display_name.as_str()))
        },
        SortMode::Health => (
            -(s.health.len() as i128),
            crate::text::chars_of(s.display_name.as_str()),
            Vec::new(),
        ),
    }
}

/// The sort keys of all services, by inventory position.
fn keys_of(services: &Vec<Service>, mode: SortMode) -> (r: Vec<(i128, Vec<char>, Vec<char>)>)
    ensures
        r@.len() == services@.len(),
        forall|i: int| 0 <= i < services@.len() ==> ((#[trigger] r@[i]).0 as int, r@[i].1@, r@[i].2@) == sort_key(services@[i], mode),
{
    let mut keys: Vec<(i128, Vec<char>, Vec<char>)> = Vec::new();
    let mut i: usize = 0;
    while i < services.len()
        invariant
            i <= services@.len(),
            keys@.len() == i,
            forall|k: int| 0 <= k < i ==> ((#[trigger] keys@[k]).0 as int, keys@[k].1@, keys@[k].2@) == sort_key(services@[k], mode),
        decreases services.len() - i,
    {
        keys.push(key_of(&services[i], mode));
        i = i + 1;
    }
    keys
}

fn before(keys: &Vec<(i128, Vec<char>, Vec<char>)>, i: usize, j: usize, Ghost(services): Ghost<Seq<Service>>, Ghost(mode): Ghost<SortMode>) -> (r: bool)
    requires
        i < keys@.len(),
        j < keys@.len(),
        keys@.len() == services.len(),
        forall|k: int| 0 <= k < services.len() ==> ((#[trigger] keys@[k]).0 as int, keys@[k].1@, keys@[k].2@) == sort_key(services[k], mode),
    ensures
        r == listed_before(services, mode, i as int, j as int),
{
    let a = &keys[i];
    let b = &keys[j];
    assert((a.0 as int, a.1@, a.2@) == sort_key(services[i as int], mode));
    assert((b.0 as int, b.1@, b.2@) == sort_key(services[j as int], mode));
    if a.0 != b.0 {
        return a.0 < b.0;
    }
    let c1 = crate::text::lex_compare(&a.1, &b.1);
    if c1 != 0 {
        return c1 < 0;
    }
    let c2 = crate::text::lex_compare(&a.2, &b.2);
    if c2 != 0 {
        return c2 < 0;
    }
    i < j
}

/// Sorts distinct service positions into display order (insertion sort).
fn sort_listing(candidates: &Vec<usize>, services: &Vec<Service>, mode: SortMode) -> (r: Vec<usize>)
    requires
        candidates@.no_duplicates(),
        forall|a: int| 0 <= a < candidates@.len() ==> (#[trigger] candidates@[a]) < services@.len(),
    ensures
        forall|x: usize| #[trigger] r@.contains(x) <==> candidates@.contains(x),
        in_display_order(services@, mode, r@),
{
    let keys = keys_of(services, mode);
    let mut out: Vec<usize> = Vec::new();
    let mut i: usize = 0;
    while i < candidates.len()
        invariant
            i <= candidates@.len(),
            candidates@.no_duplicates(),
            forall|a: int| 0 <= a < candidates@.len() ==> (#[trigger] candidates@[a]) < services@.len(),
            keys@.len() == services@.len(),
            forall|k: int| 0 <= k < services@.len() ==> ((#[trigger] keys@[k]).0 as int, keys@[k].1@, keys@[k].2@) == sort_key(services@[k], mode),
            forall|x: usize| #[trigger] out@.contains(x) <==> candidates@.take(i as int).contains(x),
            forall|a: int| 0 <= a < out@.len() ==> (#[trigger] out@[a]) < services@.len(),
            in_display_order(services@, mode, out@),
        decreases candidates.len() - i,
    {
        let x = candidates[i];
        let mut p: usize = 0;
        while p < out.len() && !before(&keys, x, out[p], Ghost(services@), Ghost(mode))
            invariant
                p <= out@.len(),
                x < services@.len(),
                keys@.len() == services@.len(),
                forall|k: int| 0 <= k < services@.len() ==> ((#[trigger] keys@[k]).0 as int, keys@[k].1@, keys@[k].2@) == sort_key(services@[k], mode),
                forall|a: int| 0 <= a < out@.len() ==> (#[trigger] out@[a]) < services@.len(),
                forall|a: int| 0 <= a < p ==> !listed_before(services@, mode, x as int, #[trigger] out@[a] as int),
            decreases out.len() - p,
        {
            p = p + 1;
        }
        proof {
            assert(!out@.contains(x)) by {
                if out@.contains(x) {
                    let a = choose|a: int| 0 <= a < out@.len() && out@[a] == x;
                    assert(candidates@.take(i as int).contains(x));
                    let b = choose|b: int| 0 <= b < i && candidates@.take(i as int)[b] == x;
                    assert(candidates@[b] == candidates@[i as int]);
                }
            }
        }
        let ghost before_out = out@;
        out.insert(p, x);
        proof {
            assert(out@ =~= before_out.insert(p as int, x));
            assert forall|a: int, b: int| 0 <= a < b < out@.len() implies listed_before(
                services@,
                mode,
                out@[a] as int,
                out@[b] as int,
            ) by {
                if a < p && b == p {
                    lemma_listed_order(services@, mode, x as int, out@[a] as int, x as int);
                } else if a == p && b > p {
                    if (b - 1) as int > p {
                        lemma_listed_order(services@, mode, x as int, before_out[p as int] as int, out@[b] as int);
                    }
                } else if a < p && b > p {
                } else if a < p && b < p {
                } else {
                }
            }
            assert(candidates@.take(i + 1) =~= candidates@.take(i as int).push(x));
            let ci = candidates@.take(i as int);
            let cn = candidates@.take(i + 1);
            assert forall|y: usize| out@.contains(y) implies #[trigger] cn.contains(y) by {
                let a = choose|a: int| 0 <= a < out@.len() && out@[a] == y;
                if a < p {
                    assert(before_out[a] == y);
                    assert(before_out.contains(y));
                    assert(ci.contains(y));
                    let b = choose|b: int| 0 <= b < ci.len() && ci[b] == y;
                    assert(cn[b] == y);
                } else if a > p {
                    assert(before_out[a - 1] == y);
                    assert(before_out.contains(y));
                    assert(ci.contains(y));
                    let b = choose|b: int| 0 <= b < ci.len() && ci[b] == y;
                    assert(cn[b] == y);
                } else {
                    assert(cn[i as int] == y);
                }
            }
            assert forall|y: usize| cn.contains(y) implies #[trigger] out@.contains(y) by {
                let b = choose|b: int| 0 <= b < cn.len() && cn[b] == y;
                if b == i {
                    assert(out@[p as int] == y);
                } else {
                    assert(ci[b] == y);
                    assert(ci.contains(y));
                    assert(before_out.contains(y));
                    let a = choose|a: int| 0 <= a < before_out.len() && before_out[a] == y;
                    if a < p {
                        assert(out@[a] == y);
                    } else {
                        assert(out@[a + 1] == y);
                    }
                }
            }
        }
        i = i + 1;
    }
    assert(candidates@.take(candidates@.len() as int) =~= candidates@);
    out
}


// ---------------------------------------------------------------------------
// The state
// ---------------------------------------------------------------------------

/// Everything the browser shows and remembers between key presses.
#[derive(Debug)]
pub struct App {
    pub services: Vec<Service>,
    pub filtered: Vec<usize>,
    pub warnings: Vec<String>,
    pub selected: usize,
    pub viewport_start: usize,
    pub search: String,
    pub source_filter: SourceFilter,
    pub status_filter: StatusFilter,
    pub sort_mode: SortMode,
    pub show_apple: bool,
    pub warnings_only: bool,
    pub detail_selected: usize,
    pub detail_scroll: usize,
    pub log_stream: LogStream,
    pub log_scroll: usize,
    pub unified_window: LogWindow,
    pub unified_cache: Option<UnifiedLogCache>,
    pub unified_in_flight: bool,
    pub unified_fetch_requested: bool,
    pub editing_search: bool,
    pub mode: ViewMode,
    pub show_help: bool,
    pub pending_action: Option<crate::actions::ActionPlan>,
    /// Confirmed and waiting for the event loop to dispatch it.
    pub armed_action: Option<crate::actions::ActionPlan>,
    pub action_in_flight: bool,
    pub create_form: Option<crate::create::CreateServiceForm>,
    pub refresh_requested: bool,
    pub status_line: String,
}

/// The search query as matched: trimmed and lower-cased.
pub open spec fn query_of(search: Seq<char>) -> Seq<char> {
    if crate::text::trim(search).len() == 0 {
        seq![]
    } else {
        crate::text::lowercase(crate::text::trim(search))
    }
}

/// Whether `l` is the listing of the app's services under its settings.
pub open spec fn app_listing(a: App, l: Seq<usize>) -> bool {
    is_listing(
        a.services@,
        l,
        query_of(a.search@),
        a.source_filter,
        a.status_filter,
        a.show_apple,
        a.warnings_only,
        a.sort_mode,
    )
}

/// The inventory position of the selected service, if the selection points at
/// one.
pub open spec fn selection(a: App) -> Option<int> {
    if a.selected < a.filtered@.len() && a.filtered@[a.selected as int] < a.services@.len() {
        Some(a.filtered@[a.selected as int] as int)
    } else {
        None
    }
}

/// The id of the selected service, if any.
pub open spec fn selected_id(a: App) -> Option<Seq<char>> {
    match selection(a) {
        Some(i) => Some(a.services@[i].id@),
        None => None,
    }
}

/// The first position of the listing whose service has this id.
pub open spec fn first_with_id(services: Seq<Service>, l: Seq<usize>, id: Seq<char>, p: int) -> bool {
    &&& 0 <= p < l.len()
    &&& services[l[p] as int].id@ == id
    &&& forall|q: int| 0 <= q < p ==> services[#[trigger] l[q] as int].id@ != id
}

/// The view of an optional id.
pub open spec fn id_view(id: Option<&str>) -> Option<Seq<char>> {
    match id {
        Some(i) => Some(i@),
        None => None,
    }
}

/// Whether a service with this id is in the listing.
pub open spec fn still_listed(id: Option<Seq<char>>, services: Seq<Service>, l: Seq<usize>) -> bool {
    match id {
        Some(i) => exists|p: int| first_with_id(services, l, i, p),
        None => false,
    }
}

/// Whether a refresh took the selected service out of the listing while its
/// detail or logs were open.
pub open spec fn left_view(a: App, services: Seq<Service>, l: Seq<usize>) -> bool {
    &&& selected_id(a) is Some
    &&& !still_listed(selected_id(a), services, l)
    &&& (a.mode is Detail || a.mode is Logs)
}

/// How many services satisfy `p`.
pub open spec fn count_where(s: Seq<Service>, p: spec_fn(Service) -> bool) -> nat
    decreases s.len(),
{
    if s.len() == 0 {
        0
    } else {
        count_where(s.drop_last(), p) + if p(s.last()) {
            1nat
        } else {
            0nat
        }
    }
}

/// The confirmation prompt of a plan, or its blocked reason.
pub open spec fn plan_status(kind: crate::actions::ActionKind, p: crate::actions::PlanView) -> Seq<char> {
    match p.blocked_reason {
        Some(reason) => crate::actions::action_label(kind) + " blocked for "@ + p.service_name + ": "@ + reason,
        None => crate::actions::action_label(kind) + " "@ + p.service_name + ": press y to run `"@
            + crate::actions::command_line(p) + "`"@,
    }
}

/// Whether the log view must fetch unified-log lines: a service is selected,
/// no fetch is running, and the cache does not already hold that service's
/// lines for the current window.
pub open spec fn needs_unified_fetch(a: App) -> bool {
    &&& selected_id(a) is Some
    &&& !a.unified_in_flight
    &&& !(a.unified_cache matches Some(c) && Some(c.service_id@) == selected_id(a) && c.window == a.unified_window)
}

/// `b` is `a` after planning `kind` for the selected service: nothing happens
/// without a selection; otherwise the plan is pending and its prompt shown.
pub open spec fn planned(a: App, kind: crate::actions::ActionKind, b: App) -> bool {
    match selection(a) {
        None => b == a,
        Some(i) => b.pending_action matches Some(p) && p@ == crate::actions::action_plan(a.services@[i], kind)
            && b.status_line@ == plan_status(kind, p@) && b == (App {
            pending_action: b.pending_action,
            status_line: b.status_line,
            ..a
        }),
    }
}

/// `b` is `a` with the log view opened on `stream`.
pub open spec fn logs_opened(a: App, stream: LogStream, b: App) -> bool {
    &&& b.status_line@ == "logs: tab cycles streams, r refresh, w window"@
    &&& b.unified_fetch_requested == (a.unified_fetch_requested || (stream == LogStream::Unified
        && needs_unified_fetch(a)))
    &&& b == (App {
        mode: ViewMode::Logs,
        log_stream: stream,
        log_scroll: 0,
        status_line: b.status_line,
        unified_fetch_requested: b.unified_fetch_requested,
        ..a
    })
}

/// The caption and value the copy key takes for service `s` in the current
/// view.
pub open spec fn copy_text(a: App, s: Service) -> (Seq<char>, Seq<char>) {
    match a.mode {
        ViewMode::Overview => ("service"@, s.display_name@),
        ViewMode::Detail => {
            let item = detail_at(min_int(a.detail_selected as int, DETAIL_COUNT - 1));
            (detail_caption(item), detail_text(s, item))
        },
        ViewMode::Logs => match a.log_stream {
            LogStream::Stdout => ("stdout path"@, or_dash(opt_view(s.config.stdout_path))),
            LogStream::Stderr => ("stderr path"@, or_dash(opt_view(s.config.stderr_path))),
            LogStream::Unified => (
                "os_log predicate"@,
                match a.unified_cache {
                    Some(c) => c.predicate@,
                    None => "-"@,
                },
            ),
        },
    }
}

/// `b` is `a` with a failed unified-log fetch cached for service `id`.
pub open spec fn cached_error(a: App, id: Seq<char>, msg: Seq<char>, b: App) -> bool {
    &&& b.unified_cache matches Some(c) && c.service_id@ == id && c.window == a.unified_window && opt_view(c.error)
        == Some(msg) && c.elapsed_ms == 0 && c.lines@.len() == 0 && c.predicate@ == Seq::<char>::empty()
    &&& b == (App { unified_cache: b.unified_cache, ..a })
}

/// The state change of `App::move_down`.
pub open spec fn move_down_step(a: App, b: App) -> bool {
    &&& b == (App {
            selected: if a.selected + 1 < a.filtered@.len() {
                (a.selected + 1) as usize
            } else {
                a.selected
            },
            ..a
        })
}

/// The state change of `App::move_up`.
pub open spec fn move_up_step(a: App, b: App) -> bool {
    &&& b == (App {
            selected: if a.selected > 0 {
                (a.selected - 1) as usize
            } else {
                0
            },
            ..a
        })
}

/// The state change of `App::page_down`.
pub open spec fn page_down_step(a: App, b: App) -> bool {
    &&& b == (App {
            selected: crate::app::min_int(
                a.selected + page_step(a.filtered@.len()),
                last_index(a.filtered@.len()) as int,
            ) as usize,
            ..a
        })
}

/// The state change of `App::page_up`.
pub open spec fn page_up_step(a: App, b: App) -> bool {
    &&& b == (App {
            selected: if a.selected >= page_step(a.filtered@.len()) {
                (a.selected - page_step(a.filtered@.len())) as usize
            } else {
                0
            },
            ..a
        })
}

/// The state change of `App::clear_search`.
pub open spec fn clear_search_step(a: App, b: App) -> bool {
    &&& b.search@ == Seq::<char>::empty()
    &&& app_listing(b, b.filtered@)
    &&& b.selected == 0
    &&& b.viewport_start == 0
    &&& b.status_line@ == "search cleared"@
    &&& b == (App {
            search: b.search,
            filtered: b.filtered,
            selected: 0,
            viewport_start: 0,
            status_line: b.status_line,
            ..a
        })
}

/// The state change of `App::open_search`.
pub open spec fn open_search_step(a: App, b: App) -> bool {
    &&& b == (App {
            editing_search: true,
            mode: ViewMode::Overview,
            status_line: b.status_line,
            ..a
        })
    &&& b.status_line@ == "search mode: type query, enter to apply, esc to cancel"@
}

/// The state change of `App::start_quick_search`.
pub open spec fn start_quick_search_step(a: App, value: char, b: App) -> bool {
    &&& b.search@ == seq![value]
    &&& b.editing_search
    &&& b.mode == ViewMode::Overview
    &&& b.selected == 0
    &&& b.viewport_start == 0
    &&& app_listing(b, b.filtered@)
    &&& b.status_line@ == "quick search: keep typing, enter to apply, esc to cancel"@
    &&& b == (App {
            search: b.search,
            filtered: b.filtered,
            editing_search: true,
            mode: ViewMode::Overview,
            selected: 0,
            viewport_start: 0,
            status_line: b.status_line,
            ..a
        })
}

/// The state change of `App::cycle_source_filter`.
pub open spec fn cycle_source_filter_step(a: App, b: App) -> bool {
    &&& b.source_filter == source_filter_after(a.source_filter)
    &&& b.selected == 0
    &&& b.viewport_start == 0
    &&& app_listing(b, b.filtered@)
    &&& b.status_line@ == "source filter: "@ + source_filter_caption(b.source_filter)
    &&& b == (App {
            source_filter: b.source_filter,
            filtered: b.filtered,
            selected: 0,
            viewport_start: 0,
            status_line: b.status_line,
            ..a
        })
}

/// The state change of `App::cycle_status_filter`.
pub open spec fn cycle_status_filter_step(a: App, b: App) -> bool {
    &&& b.status_filter == status_filter_after(a.status_filter)
    &&& b.selected == 0
    &&& b.viewport_start == 0
    &&& app_listing(b, b.filtered@)
    &&& b.status_line@ == "status filter: "@ + status_filter_caption(b.status_filter)
    &&& b == (App {
            status_filter: b.status_filter,
            filtered: b.filtered,
            selected: 0,
            viewport_start: 0,
            status_line: b.status_line,
            ..a
        })
}

/// The state change of `App::cycle_sort`.
pub open spec fn cycle_sort_step(a: App, b: App) -> bool {
    &&& b.sort_mode == sort_mode_after(a.sort_mode)
    &&& b.selected == 0
    &&& b.viewport_start == 0
    &&& app_listing(b, b.filtered@)
    &&& b.status_line@ == "sort: "@ + sort_mode_caption(b.sort_mode)
    &&& b == (App {
            sort_mode: b.sort_mode,
            filtered: b.filtered,
            selected: 0,
            viewport_start: 0,
            status_line: b.status_line,
            ..a
        })
}

/// The state change of `App::toggle_apple`.
pub open spec fn toggle_apple_step(a: App, b: App) -> bool {
    &&& b.show_apple == !a.show_apple
    &&& b.selected == 0
    &&& b.viewport_start == 0
    &&& app_listing(b, b.filtered@)
    &&& b.status_line@ == (if b.show_apple {
            "showing Apple services"@
        } else {
            "hiding Apple services"@
        })
    &&& b == (App {
            show_apple: !a.show_apple,
            filtered: b.filtered,
            selected: 0,
            viewport_start: 0,
            status_line: b.status_line,
            ..a
        })
}

/// The state change of `App::toggle_warnings_only`.
pub open spec fn toggle_warnings_only_step(a: App, b: App) -> bool {
    &&& b.warnings_only == !a.warnings_only
    &&& b.selected == 0
    &&& b.viewport_start == 0
    &&& app_listing(b, b.filtered@)
    &&& b.status_line@ == (if b.warnings_only {
            "showing warnings only"@
        } else {
            "showing all health states"@
        })
    &&& b == (App {
            warnings_only: !a.warnings_only,
            filtered: b.filtered,
            selected: 0,
            viewport_start: 0,
            status_line: b.status_line,
            ..a
        })
}

/// The state change of `App::cancel_action`.
pub open spec fn cancel_action_step(a: App, b: App) -> bool {
    &&& b.status_line@ == "action cancelled"@
    &&& b == (App { pending_action: None, status_line: b.status_line, ..a })
}

/// The state change of `App::confirm_action`.
pub open spec fn confirm_action_step(a: App, b: App) -> bool {
    &&& match a.pending_action {
            None => b == a,
            Some(p) => if p.blocked_reason is Some {
                b.status_line@ == crate::actions::action_label(p.kind) + " blocked: "@
                    + p@.blocked_reason->0 && b == (App {
                    pending_action: None,
                    status_line: b.status_line,
                    ..a
                })
            } else if a.action_in_flight {
                b.status_line@ == "another action is still running"@ && b == (App {
                    status_line: b.status_line,
                    ..a
                })
            } else {
                b.status_line@ == (if p.elevation == crate::actions::Elevation::Sudo {
                    "suspending to run `"@ + crate::actions::command_line(p@) + "`..."@
                } else {
                    "running `"@ + crate::actions::command_line(p@) + "`..."@
                }) && b == (App {
                    pending_action: None,
                    armed_action: Some(p),
                    action_in_flight: true,
                    status_line: b.status_line,
                    ..a
                })
            },
        }
}

/// The state change of `App::open_create_form`.
pub open spec fn open_create_form_step(a: App, b: App) -> bool {
    &&& b.create_form matches Some(f) && f@ == crate::create::CreateServiceForm::new_view()
    &&& b.status_line@ == "new user agent: edit fields, ctrl+s or F5 to save"@
    &&& b == (App {
            create_form: b.create_form,
            status_line: b.status_line,
            ..a
        })
}

/// The state change of `App::cancel_create_form`.
pub open spec fn cancel_create_form_step(a: App, b: App) -> bool {
    &&& b.status_line@ == "service creation cancelled"@
    &&& b == (App { create_form: None, status_line: b.status_line, ..a })
}

/// The state change of `App::open_detail`.
pub open spec fn open_detail_step(a: App, b: App) -> bool {
    &&& b.status_line@ == "detail: up/down moves inside, enter opens selected row"@
    &&& b == (App {
            mode: ViewMode::Detail,
            detail_selected: 0,
            detail_scroll: 0,
            status_line: b.status_line,
            ..a
        })
}

/// The state change of `App::close_detail`.
pub open spec fn close_detail_step(a: App, b: App) -> bool {
    &&& b.status_line@ == "detail closed"@
    &&& b == (App { mode: ViewMode::Overview, status_line: b.status_line, ..a })
}

/// The state change of `App::move_detail_down`.
pub open spec fn move_detail_down_step(a: App, b: App) -> bool {
    &&& b == (App {
            detail_selected: if a.detail_selected + 1 < DETAIL_COUNT {
                (a.detail_selected + 1) as usize
            } else {
                a.detail_selected
            },
            ..a
        })
}

/// The state change of `App::move_detail_up`.
pub open spec fn move_detail_up_step(a: App, b: App) -> bool {
    &&& b == (App {
            detail_selected: if a.detail_selected > 0 {
                (a.detail_selected - 1) as usize
            } else {
                0
            },
            ..a
        })
}

/// The state change of `App::page_detail_down`.
pub open spec fn page_detail_down_step(a: App, b: App) -> bool {
    &&& b == (App {
            detail_selected: min_int(a.detail_selected + 6, DETAIL_COUNT - 1) as usize,
            ..a
        })
}

/// The state change of `App::page_detail_up`.
pub open spec fn page_detail_up_step(a: App, b: App) -> bool {
    &&& b == (App {
            detail_selected: if a.detail_selected >= 6 {
                (a.detail_selected - 6) as usize
            } else {
                0
            },
            ..a
        })
}

/// The state change of `App::scroll_logs_up`.
pub open spec fn scroll_logs_up_step(a: App, amount: usize, b: App) -> bool {
    &&& b == (App {
            log_scroll: if a.log_scroll + amount > usize::MAX {
                usize::MAX
            } else {
                (a.log_scroll + amount) as usize
            },
            ..a
        })
}

/// The state change of `App::scroll_logs_down`.
pub open spec fn scroll_logs_down_step(a: App, amount: usize, b: App) -> bool {
    &&& b == (App {
            log_scroll: if a.log_scroll >= amount {
                (a.log_scroll - amount) as usize
            } else {
                0
            },
            ..a
        })
}

/// The state change of `App::switch_log_stream`.
pub open spec fn switch_log_stream_step(a: App, b: App) -> bool {
    &&& b.log_stream == stream_after(a.log_stream)
    &&& b.log_scroll == 0
    &&& b.status_line@ == "showing "@ + stream_caption(b.log_stream)
    &&& b.unified_fetch_requested == (a.unified_fetch_requested || (b.log_stream
            == LogStream::Unified && needs_unified_fetch(a)))
    &&& b == (App {
            log_stream: b.log_stream,
            log_scroll: 0,
            status_line: b.status_line,
            unified_fetch_requested: b.unified_fetch_requested,
            ..a
        })
}

/// The state change of `App::refresh_unified_log`.
pub open spec fn refresh_unified_log_step(a: App, b: App) -> bool {
    &&& b.status_line@ == "refreshing os_log..."@
    &&& b == (App {
            unified_cache: None,
            unified_fetch_requested: true,
            status_line: b.status_line,
            ..a
        })
}

/// The state change of `App::cycle_unified_window`.
pub open spec fn cycle_unified_window_step(a: App, b: App) -> bool {
    &&& b.unified_window == crate::oslog::window_after(a.unified_window)
    &&& b.status_line@ == "os_log window: "@ + crate::oslog::window_text(b.unified_window)
    &&& b == (App {
            unified_window: b.unified_window,
            unified_cache: None,
            unified_fetch_requested: true,
            status_line: b.status_line,
            ..a
        })
}

/// The state change of `App::open_selected_detail_item`.
pub open spec fn open_selected_detail_item_step(a: App, b: App) -> bool {
    &&& match detail_at(min_int(a.detail_selected as int, DETAIL_COUNT - 1)) {
            DetailItem::Status => planned(
                a,
                status_action(
                    match selection(a) {
                        Some(i) => Some(a.services@[i].status),
                        None => None,
                    },
                ),
                b,
            ),
            DetailItem::Stdout => logs_opened(a, LogStream::Stdout, b),
            DetailItem::Stderr => logs_opened(a, LogStream::Stderr, b),
            DetailItem::RunAtLoad => planned(a, crate::actions::ActionKind::ToggleRunAtLoad, b),
            DetailItem::Plist => planned(a, crate::actions::ActionKind::EditPlist, b),
            item => b.status_line@ == detail_caption(item) + " selected"@ && b == (App {
                status_line: b.status_line,
                ..a
            }),
        }
}

/// The smaller of two integers.
pub open spec fn min_int(a: int, b: int) -> int {
    if a < b {
        a
    } else {
        b
    }
}

/// The rows a page moves in a list of `n`: ten, or fewer in a shorter list,
/// but at least one.
pub open spec fn page_step(n: nat) -> int {
    let last = last_index(n) as int;
    if last < 10 {
        if last == 0 {
            1
        } else {
            last
        }
    } else {
        10
    }
}

/// `n - 1`, or 0 for 0.
pub open spec fn last_index(n: nat) -> nat {
    if n == 0 {
        0
    } else {
        (n - 1) as nat
    }
}

/// A position clamped into a list of `n`: positions past the end move to the
/// last one.
pub open spec fn clamp_to(pos: usize, n: nat) -> int {
    if pos >= n {
        last_index(n) as int
    } else {
        pos as int
    }
}

fn is_listed(
    s: &Service,
    query: &Vec<char>,
    source: SourceFilter,
    status: StatusFilter,
    show_apple: bool,
    warnings_only: bool,
) -> (r: bool)
    ensures
        r == listed(*s, query@, source, status, show_apple, warnings_only),
{
    if !matches_source(s, source) {
        return false;
    }
    if !matches_status(s, status) {
        return false;
    }
    if !show_apple && is_apple_service(s) {
        return false;
    }
    if warnings_only && s.health.len() == 0 {
        return false;
    }
    if query.len() == 0 {
        return true;
    }
    let text = s.searchable_text();
    crate::text::contains_exec(&crate::text::chars_of(text.as_str()), query)
}

/// The first position of the listing whose service has this id.
fn position_of_id(services: &Vec<Service>, filtered: &Vec<usize>, id: &str) -> (r: Option<usize>)
    requires
        forall|a: int| 0 <= a < filtered@.len() ==> (#[trigger] filtered@[a]) < services@.len(),
    ensures
        match r {
            Some(p) => first_with_id(services@, filtered@, id@, p as int),
            None => forall|q: int| !first_with_id(services@, filtered@, id@, q),
        },
{
    let mut p: usize = 0;
    while p < filtered.len()
        invariant
            p <= filtered@.len(),
            forall|a: int| 0 <= a < filtered@.len() ==> (#[trigger] filtered@[a]) < services@.len(),
            forall|q: int| 0 <= q < p ==> services@[#[trigger] filtered@[q] as int].id@ != id@,
        decreases filtered.len() - p,
    {
        let idx = filtered[p];
        if str_eq(services[idx].id.as_str(), id) {
            return Some(p);
        }
        p = p + 1;
    }
    proof {
        assert forall|q: int| !first_with_id(services@, filtered@, id@, q) by {
            if 0 <= q < filtered@.len() {
                assert(services@[filtered@[q] as int].id@ != id@);
            }
        }
    }
    None
}

impl App {
    /// The browser over an inventory: everything listed but Apple's services,
    /// sorted by status, in the overview.
    pub fn new(inventory: crate::model::Inventory) -> (r: Self)
        ensures
            r.services@ == inventory.services@,
            r.warnings@ == inventory.warnings@,
            r.search@ == Seq::<char>::empty(),
            r.source_filter == SourceFilter::All,
            r.status_filter == StatusFilter::All,
            r.sort_mode == SortMode::Status,
            !r.show_apple,
            !r.warnings_only,
            r.mode == ViewMode::Overview,
            r.selected == 0,
            r.viewport_start == 0,
            r.log_stream == LogStream::Stdout,
            r.unified_window == LogWindow::FifteenMin,
            r.pending_action is None,
            r.armed_action is None,
            r.create_form is None,
            !r.action_in_flight,
            !r.refresh_requested,
            app_listing(r, r.filtered@),
            r.status_line@ == "inventory ready; actions require confirmation"@,
    {
        let mut app = App {
            services: inventory.services,
            filtered: Vec::new(),
            warnings: inventory.warnings,
            selected: 0,
            viewport_start: 0,
            search: String::new(),
            source_filter: SourceFilter::All,
            status_filter: StatusFilter::All,
            sort_mode: SortMode::Status,
            show_apple: false,
            warnings_only: false,
            detail_selected: 0,
            detail_scroll: 0,
            log_stream: LogStream::Stdout,
            log_scroll: 0,
            unified_window: LogWindow::FifteenMin,
            unified_cache: None,
            unified_in_flight: false,
            unified_fetch_requested: false,
            editing_search: false,
            mode: ViewMode::Overview,
            show_help: false,
            pending_action: None,
            armed_action: None,
            action_in_flight: false,
            create_form: None,
            refresh_requested: false,
            status_line: owned("inventory ready; actions require confirmation"),
        };
        app.apply_filter();
        app
    }

    /// The listing of the services under the current search, filters and
    /// sort order.
    fn listing(&self) -> (r: Vec<usize>)
        ensures
            app_listing(*self, r@),
    {
        let trimmed = crate::text::trim_str(self.search.as_str());
        let query = if trimmed.len() == 0 {
            Vec::new()
        } else {
            let t = crate::text::string_of(&trimmed);
            let lower = crate::text::to_lowercase(t.as_str());
            crate::text::chars_of(lower.as_str())
        };
        assert(query@ == query_of(self.search@));
        let mut candidates: Vec<usize> = Vec::new();
        let mut i: usize = 0;
        while i < self.services.len()
            invariant
                i <= self.services@.len(),
                query@ == query_of(self.search@),
                forall|a: int, b: int| 0 <= a < b < candidates@.len() ==> candidates@[a] < candidates@[b],
                forall|a: int| 0 <= a < candidates@.len() ==> (#[trigger] candidates@[a]) < i,
                forall|a: int| 0 <= a < candidates@.len() ==> listed(
                    self.services@[#[trigger] candidates@[a] as int],
                    query@,
                    self.source_filter,
                    self.status_filter,
                    self.show_apple,
                    self.warnings_only,
                ),
                forall|k: int| 0 <= k < i && listed(
                    self.services@[k],
                    query@,
                    self.source_filter,
                    self.status_filter,
                    self.show_apple,
                    self.warnings_only,
                ) ==> #[trigger] candidates@.contains(k as usize),
            decreases self.services.len() - i,
        {
            if is_listed(
                &self.services[i],
                &query,
                self.source_filter,
                self.status_filter,
                self.show_apple,
                self.warnings_only,
            ) {
                let ghost before = candidates@;
                candidates.push(i);
                proof {
                    assert forall|k: int| 0 <= k < i + 1 && listed(
                        self.services@[k],
                        query@,
                        self.source_filter,
                        self.status_filter,
                        self.show_apple,
                        self.warnings_only,
                    ) implies #[trigger] candidates@.contains(k as usize) by {
                        if k < i {
                            assert(before.contains(k as usize));
                            let a = choose|a: int| 0 <= a < before.len() && before[a] == k as usize;
                            assert(candidates@[a] == k as usize);
                        } else {
                            assert(candidates@[before.len() as int] == k as usize);
                        }
                    }
                }
            }
            i = i + 1;
        }
        let sorted = sort_listing(&candidates, &self.services, self.sort_mode);
        proof {
            assert forall|a: int| 0 <= a < sorted@.len() implies (#[trigger] sorted@[a]) < self.services@.len()
                && listed(
                self.services@[sorted@[a] as int],
                query@,
                self.source_filter,
                self.status_filter,
                self.show_apple,
                self.warnings_only,
            ) by {
                assert(sorted@.contains(sorted@[a]));
                assert(candidates@.contains(sorted@[a]));
                let b = choose|b: int| 0 <= b < candidates@.len() && candidates@[b] == sorted@[a];
            }
        }
        sorted
    }

    fn apply_filter(&mut self)
        ensures
            app_listing(*final(self), final(self).filtered@),
            *final(self) == (App {
                filtered: final(self).filtered,
                selected: clamp_to(old(self).selected, final(self).filtered@.len()) as usize,
                viewport_start: clamp_to(old(self).viewport_start, final(self).filtered@.len()) as usize,
                ..*old(self)
            }),
    {
        self.apply_filter_with_selection(None);
    }

    /// Recomputes the listing. When `selected_id` names a listed service, the
    /// selection moves to it and `true` is returned; otherwise the selection
    /// and the viewport start are clamped into the new listing.
    #[verifier::spinoff_prover]
    #[verifier::rlimit(50)]
    pub fn apply_filter_with_selection(&mut self, selected_id: Option<&str>) -> (r: bool)
        ensures
            app_listing(*final(self), final(self).filtered@),
            r == still_listed(id_view(selected_id), final(self).services@, final(self).filtered@),
            r ==> first_with_id(
                final(self).services@,
                final(self).filtered@,
                id_view(selected_id)->0,
                final(self).selected as int,
            ),
            *final(self) == (App {
                filtered: final(self).filtered,
                selected: if r {
                    final(self).selected
                } else {
                    clamp_to(old(self).selected, final(self).filtered@.len()) as usize
                },
                viewport_start: clamp_to(old(self).viewport_start, final(self).filtered@.len()) as usize,
                ..*old(self)
            }),
    {
        let l = self.listing();
        proof {
            assert(forall|a: int| 0 <= a < l@.len() ==> (#[trigger] l@[a]) < self.services@.len());
        }
        let found = match selected_id {
            Some(id) => position_of_id(&self.services, &l, id),
            None => None,
        };
        let n = l.len();
        let restored = found.is_some();
        let selected = match found {
            Some(p) => p,
            None => if self.selected >= n {
                if n == 0 {
                    0
                } else {
                    n - 1
                }
            } else {
                self.selected
            },
        };
        let viewport_start = if self.viewport_start >= n {
            if n == 0 {
                0
            } else {
                n - 1
            }
        } else {
            self.viewport_start
        };
        proof {
            match selected_id {
                Some(id) => match found {
                    Some(p) => {
                        assert(first_with_id(self.services@, l@, id@, p as int));
                        assert(exists|q: int| first_with_id(self.services@, l@, id@, q));
                        assert(id_view(selected_id) == Some(id@));
                        let iv = id_view(selected_id);
                        assert(iv->0 == id@);
                        assert(first_with_id(self.services@, l@, iv->0, p as int));
                        assert(exists|q: int| first_with_id(self.services@, l@, iv->0, q));
                        assert(still_listed(iv, self.services@, l@));
                    },
                    None => {
                        assert(!(exists|q: int| first_with_id(self.services@, l@, id@, q)));
                        assert(!still_listed(id_view(selected_id), self.services@, l@));
                    },
                },
                None => {},
            }
        }
        self.filtered = l;
        self.selected = selected;
        self.viewport_start = viewport_start;
        restored
    }

    /// The selected service, if the selection points at one.
    pub fn selected_service(&self) -> (r: Option<&Service>)
        ensures
            match selection(*self) {
                Some(i) => r matches Some(s) && *s == self.services@[i],
                None => r is None,
            },
    {
        if self.selected < self.filtered.len() {
            let idx = self.filtered[self.selected];
            if idx < self.services.len() {
                return Some(&self.services[idx]);
            }
        }
        None
    }

    /// The id of the selected service, if any.
    pub fn selected_service_id(&self) -> (r: Option<String>)
        ensures
            opt_view(r) == selected_id(*self),
    {
        match self.selected_service() {
            Some(s) => Some(s.id.clone()),
            None => None,
        }
    }

    /// Takes a fresh inventory. The selection follows the service it was on
    /// when that service is still listed; when it is not, the old row index is
    /// clamped into the new listing, and a detail or log view of it closes
    /// back to the overview. The viewport start is clamped too; nothing else
    /// changes but the status line.
    pub fn apply_inventory(&mut self, inventory: crate::model::Inventory)
        ensures
            final(self).services@ == inventory.services@,
            final(self).warnings@ == inventory.warnings@,
            app_listing(*final(self), final(self).filtered@),
            still_listed(selected_id(*old(self)), inventory.services@, final(self).filtered@) ==> selected_id(
                *final(self),
            ) == selected_id(*old(self)) && final(self).mode == old(self).mode,
            left_view(*old(self), inventory.services@, final(self).filtered@) ==> final(self).mode
                == ViewMode::Overview && final(self).detail_scroll == 0 && final(self).log_scroll == 0
                && final(self).status_line@ == "refreshed "@ + decimal(inventory.services@.len())
                + " services; selected service left the current view"@,
            !left_view(*old(self), inventory.services@, final(self).filtered@) ==> final(self).mode == old(
                self,
            ).mode && final(self).status_line@ == "refreshed "@ + decimal(inventory.services@.len())
                + " services"@,
            !still_listed(selected_id(*old(self)), inventory.services@, final(self).filtered@)
                ==> final(self).selected == clamp_to(old(self).selected, final(self).filtered@.len()) as usize,
            !left_view(*old(self), inventory.services@, final(self).filtered@) ==> final(self).detail_scroll
                == old(self).detail_scroll && final(self).log_scroll == old(self).log_scroll,
            *final(self) == (App {
                services: final(self).services,
                warnings: final(self).warnings,
                filtered: final(self).filtered,
                selected: final(self).selected,
                viewport_start: clamp_to(old(self).viewport_start, final(self).filtered@.len()) as usize,
                mode: final(self).mode,
                detail_scroll: final(self).detail_scroll,
                log_scroll: final(self).log_scroll,
                status_line: final(self).status_line,
                ..*old(self)
            }),
    {
        let previous = self.selected_service_id();
        self.services = inventory.services;
        self.warnings = inventory.warnings;
        let kept = match &previous {
            Some(id) => self.apply_filter_with_selection(Some(id.as_str())),
            None => self.apply_filter_with_selection(None),
        };
        let count = decimal_string(self.services.len() as u64);
        if previous.is_some() && !kept && (self.mode == ViewMode::Detail || self.mode == ViewMode::Logs) {
            self.mode = ViewMode::Overview;
            self.detail_scroll = 0;
            self.log_scroll = 0;
            let mut line = concat2("refreshed ", count.as_str());
            line.append(" services; selected service left the current view");
            self.status_line = line;
        } else {
            let mut line = concat2("refreshed ", count.as_str());
            line.append(" services");
            self.status_line = line;
        }
    }

    /// Moves the selection one row down, stopping at the last row.
    pub fn move_down(&mut self)
        ensures
            move_down_step(*old(self), *final(self)),
    {
        if self.selected < self.filtered.len() && self.selected + 1 < self.filtered.len() {
            self.selected = self.selected + 1;
        }
    }

    /// Moves the selection one row up, stopping at the first row.
    pub fn move_up(&mut self)
        ensures
            move_up_step(*old(self), *final(self)),
    {
        if self.selected > 0 {
            self.selected = self.selected - 1;
        }
    }

    /// Moves the selection down by a page of ten rows (fewer in a short list),
    /// stopping at the last row.
    pub fn page_down(&mut self)
        requires
            old(self).selected + 10 <= usize::MAX,
        ensures
            page_down_step(*old(self), *final(self)),
    {
        let last = if self.filtered.len() == 0 {
            0
        } else {
            self.filtered.len() - 1
        };
        let step = if last < 10 {
            if last == 0 {
                1
            } else {
                last
            }
        } else {
            10
        };
        let target = self.selected + step;
        self.selected = if target < last {
            target
        } else {
            last
        };
    }

    /// Moves the selection up by a page, stopping at the first row.
    pub fn page_up(&mut self)
        ensures
            page_up_step(*old(self), *final(self)),
    {
        let last = if self.filtered.len() == 0 {
            0
        } else {
            self.filtered.len() - 1
        };
        let step = if last < 10 {
            if last == 0 {
                1
            } else {
                last
            }
        } else {
            10
        };
        self.selected = if self.selected >= step {
            self.selected - step
        } else {
            0
        };
    }

    /// Empties the search and lists everything the filters allow again.
    pub fn clear_search(&mut self)
        ensures
            clear_search_step(*old(self), *final(self)),
    {
        self.search = String::new();
        self.selected = 0;
        self.viewport_start = 0;
        self.apply_filter();
        self.status_line = owned("search cleared");
    }

    /// Starts editing the search in the overview.
    pub fn open_search(&mut self)
        ensures
            open_search_step(*old(self), *final(self)),
    {
        self.editing_search = true;
        self.mode = ViewMode::Overview;
        self.status_line = owned("search mode: type query, enter to apply, esc to cancel");
    }

    /// Starts a search with one typed character.
    pub fn start_quick_search(&mut self, value: char)
        ensures
            start_quick_search_step(*old(self), value, *final(self)),
    {
        let mut search = String::new();
        crate::text::push_char(&mut search, value);
        self.search = search;
        self.editing_search = true;
        self.mode = ViewMode::Overview;
        self.selected = 0;
        self.viewport_start = 0;
        self.apply_filter();
        self.status_line = owned("quick search: keep typing, enter to apply, esc to cancel");
    }

    /// Steps the source filter and relists from the top.
    pub fn cycle_source_filter(&mut self)
        ensures
            cycle_source_filter_step(*old(self), *final(self)),
    {
        self.source_filter = self.source_filter.next();
        self.selected = 0;
        self.viewport_start = 0;
        self.apply_filter();
        self.status_line = concat2("source filter: ", self.source_filter.label());
    }

    /// Steps the status filter and relists from the top.
    pub fn cycle_status_filter(&mut self)
        ensures
            cycle_status_filter_step(*old(self), *final(self)),
    {
        self.status_filter = self.status_filter.next();
        self.selected = 0;
        self.viewport_start = 0;
        self.apply_filter();
        self.status_line = concat2("status filter: ", self.status_filter.label());
    }

    /// Steps the sort order and relists from the top.
    pub fn cycle_sort(&mut self)
        ensures
            cycle_sort_step(*old(self), *final(self)),
    {
        self.sort_mode = self.sort_mode.next();
        self.selected = 0;
        self.viewport_start = 0;
        self.apply_filter();
        self.status_line = concat2("sort: ", self.sort_mode.label());
    }

    /// Shows or hides Apple's services and relists from the top.
    pub fn toggle_apple(&mut self)
        ensures
            toggle_apple_step(*old(self), *final(self)),
    {
        self.show_apple = !self.show_apple;
        self.selected = 0;
        self.viewport_start = 0;
        self.apply_filter();
        self.status_line = if self.show_apple {
            owned("showing Apple services")
        } else {
            owned("hiding Apple services")
        };
    }

    /// Lists only services with health warnings, or all again, from the top.
    pub fn toggle_warnings_only(&mut self)
        ensures
            toggle_warnings_only_step(*old(self), *final(self)),
    {
        self.warnings_only = !self.warnings_only;
        self.selected = 0;
        self.viewport_start = 0;
        self.apply_filter();
        self.status_line = if self.warnings_only {
            owned("showing warnings only")
        } else {
            owned("showing all health states")
        };
    }

    /// Plans `kind` for the selected service and asks for confirmation; a
    /// blocked plan is kept too, so that its reason stays on screen.
    pub fn plan_action(&mut self, kind: crate::actions::ActionKind)
        ensures
            planned(*old(self), kind, *final(self)),
    {
        let plan = match self.selected_service() {
            Some(service) => crate::actions::plan(service, kind),
            None => {
                return;
            },
        };
        let mut line = owned(kind.label());
        if plan.is_blocked() {
            line.append(" blocked for ");
            line.append(plan.service_name.as_str());
            line.append(": ");
            match &plan.blocked_reason {
                Some(reason) => line.append(reason.as_str()),
                None => line.append("blocked"),
            }
        } else {
            line.append(" ");
            line.append(plan.service_name.as_str());
            line.append(": press y to run `");
            let shown = plan.command_display();
            line.append(shown.as_str());
            line.append("`");
        }
        self.status_line = line;
        self.pending_action = Some(plan);
    }

    /// Drops the pending plan.
    pub fn cancel_action(&mut self)
        ensures
            cancel_action_step(*old(self), *final(self)),
    {
        self.pending_action = None;
        self.status_line = owned("action cancelled");
    }

    /// Confirms the pending plan: a blocked plan is dropped with its reason; a
    /// plan that arrives while another action runs stays pending; otherwise it
    /// is armed for the event loop, which runs a root plan in the terminal and
    /// any other in the background.
    #[verifier::spinoff_prover]
    #[verifier::rlimit(60)]
    pub fn confirm_action(&mut self)
        ensures
            confirm_action_step(*old(self), *final(self)),
    {
        let plan = match self.pending_action.take() {
            Some(p) => p,
            None => {
                return;
            },
        };
        if plan.is_blocked() {
            let mut line = owned(plan.kind.label());
            line.append(" blocked: ");
            match &plan.blocked_reason {
                Some(reason) => line.append(reason.as_str()),
                None => line.append("blocked"),
            }
            self.status_line = line;
            return;
        }
        if self.action_in_flight {
            self.pending_action = Some(plan);
            self.status_line = owned("another action is still running");
            return;
        }
        let shown = plan.command_display();
        let mut line = if plan.needs_sudo() {
            owned("suspending to run `")
        } else {
            owned("running `")
        };
        line.append(shown.as_str());
        line.append("`...");
        self.status_line = line;
        self.armed_action = Some(plan);
        self.action_in_flight = true;
    }

    /// Records how a dispatched action went and asks for a refresh.
    pub fn apply_action_result(&mut self, command: String, result: crate::actions::ActionResult)
        ensures
            final(self).status_line@ == (if result.success {
                "ran `"@ + command@ + "`: "@ + result.message@
            } else {
                "failed `"@ + command@ + "`: "@ + result.message@
            }),
            *final(self) == (App {
                action_in_flight: false,
                refresh_requested: true,
                status_line: final(self).status_line,
                ..*old(self)
            }),
    {
        self.action_in_flight = false;
        self.refresh_requested = true;
        let mut line = if result.success {
            owned("ran `")
        } else {
            owned("failed `")
        };
        line.append(command.as_str());
        line.append("`: ");
        line.append(result.message.as_str());
        self.status_line = line;
    }

    /// Opens an empty create form.
    pub fn open_create_form(&mut self)
        ensures
            open_create_form_step(*old(self), *final(self)),
    {
        self.create_form = Some(crate::create::CreateServiceForm::new());
        self.status_line = owned("new user agent: edit fields, ctrl+s or F5 to save");
    }

    /// Closes the create form without writing anything.
    pub fn cancel_create_form(&mut self)
        ensures
            cancel_create_form_step(*old(self), *final(self)),
    {
        self.create_form = None;
        self.status_line = owned("service creation cancelled");
    }

    /// Records how writing the create form went: on success the form closes, a
    /// refresh is asked for, and the outcome is reported; on failure the form
    /// stays open with the reason.
    pub fn apply_create_result(&mut self, result: Result<crate::create::CreateOutcome, String>)
        ensures
            match result {
                Ok(o) => final(self).status_line@ == crate::create::outcome_message(
                    o.path@,
                    string_views(o.steps@),
                ) && *final(self) == (App {
                    create_form: None,
                    refresh_requested: true,
                    status_line: final(self).status_line,
                    ..*old(self)
                }),
                Err(e) => final(self).status_line@ == "create failed: "@ + e@ && *final(self) == (App {
                    status_line: final(self).status_line,
                    ..*old(self)
                }),
            },
    {
        match result {
            Ok(outcome) => {
                self.create_form = None;
                self.refresh_requested = true;
                self.status_line = outcome.status_message();
            },
            Err(err) => {
                self.status_line = concat2("create failed: ", err.as_str());
            },
        }
    }

    /// Opens the detail view on its first row.
    pub fn open_detail(&mut self)
        ensures
            open_detail_step(*old(self), *final(self)),
    {
        self.mode = ViewMode::Detail;
        self.detail_selected = 0;
        self.detail_scroll = 0;
        self.status_line = owned("detail: up/down moves inside, enter opens selected row");
    }

    /// Returns to the overview.
    pub fn close_detail(&mut self)
        ensures
            close_detail_step(*old(self), *final(self)),
    {
        self.mode = ViewMode::Overview;
        self.status_line = owned("detail closed");
    }

    /// The rows of the detail view, in order.
    pub fn detail_items() -> (r: Vec<DetailItem>)
        ensures
            r@.len() == DETAIL_COUNT,
            forall|i: int| 0 <= i < DETAIL_COUNT ==> #[trigger] r@[i] == detail_at(i),
    {
        let mut v: Vec<DetailItem> = Vec::new();
        let mut i: usize = 0;
        while i < DETAIL_COUNT
            invariant
                i <= DETAIL_COUNT,
                v@.len() == i,
                forall|k: int| 0 <= k < i ==> #[trigger] v@[k] == detail_at(k),
            decreases DETAIL_COUNT - i,
        {
            v.push(detail_at_index(i));
            i = i + 1;
        }
        v
    }

    /// The highlighted detail row; a position past the end means the last row.
    pub fn selected_detail_item(&self) -> (r: DetailItem)
        ensures
            r == detail_at(min_int(self.detail_selected as int, DETAIL_COUNT - 1)),
    {
        if self.detail_selected < DETAIL_COUNT - 1 {
            detail_at_index(self.detail_selected)
        } else {
            detail_at_index(DETAIL_COUNT - 1)
        }
    }

    pub fn move_detail_down(&mut self)
        ensures
            move_detail_down_step(*old(self), *final(self)),
    {
        if self.detail_selected < DETAIL_COUNT - 1 {
            self.detail_selected = self.detail_selected + 1;
        }
    }

    pub fn move_detail_up(&mut self)
        ensures
            move_detail_up_step(*old(self), *final(self)),
    {
        if self.detail_selected > 0 {
            self.detail_selected = self.detail_selected - 1;
        }
    }

    pub fn page_detail_down(&mut self)
        ensures
            page_detail_down_step(*old(self), *final(self)),
    {
        self.detail_selected = if self.detail_selected < DETAIL_COUNT - 1 - 6 {
            self.detail_selected + 6
        } else {
            DETAIL_COUNT - 1
        };
    }

    pub fn page_detail_up(&mut self)
        ensures
            page_detail_up_step(*old(self), *final(self)),
    {
        self.detail_selected = if self.detail_selected >= 6 {
            self.detail_selected - 6
        } else {
            0
        };
    }

    /// Opens the log view on a stream, asking for a unified-log fetch when
    /// that stream is chosen.
    pub fn open_logs(&mut self, stream: LogStream)
        ensures
            logs_opened(*old(self), stream, *final(self)),
    {
        self.mode = ViewMode::Logs;
        self.log_stream = stream;
        self.log_scroll = 0;
        self.status_line = owned("logs: tab cycles streams, r refresh, w window");
        if stream == LogStream::Unified {
            self.ensure_unified_fetch();
        }
    }

    /// Scrolls the log view back (towards older lines).
    pub fn scroll_logs_up(&mut self, amount: usize)
        ensures
            scroll_logs_up_step(*old(self), amount, *final(self)),
    {
        self.log_scroll = if self.log_scroll > usize::MAX - amount {
            usize::MAX
        } else {
            self.log_scroll + amount
        };
    }

    /// Scrolls the log view forward (towards the newest lines).
    pub fn scroll_logs_down(&mut self, amount: usize)
        ensures
            scroll_logs_down_step(*old(self), amount, *final(self)),
    {
        self.log_scroll = if self.log_scroll >= amount {
            self.log_scroll - amount
        } else {
            0
        };
    }

    /// Moves to the next log stream.
    pub fn switch_log_stream(&mut self)
        ensures
            switch_log_stream_step(*old(self), *final(self)),
    {
        self.log_stream = self.log_stream.toggle();
        self.log_scroll = 0;
        self.status_line = concat2("showing ", self.log_stream.label());
        if self.log_stream == LogStream::Unified {
            self.ensure_unified_fetch();
        }
    }

    /// Whether a unified-log fetch is due: a service is selected, no fetch is
    /// running, and the cache does not hold that service for this window.
    pub fn ensure_unified_fetch(&mut self)
        ensures
            *final(self) == (App {
                unified_fetch_requested: old(self).unified_fetch_requested || needs_unified_fetch(*old(self)),
                ..*old(self)
            }),
    {
        let id = match self.selected_service() {
            Some(s) => s.id.clone(),
            None => {
                return;
            },
        };
        let fresh = match &self.unified_cache {
            Some(c) => str_eq(c.service_id.as_str(), id.as_str()) && c.window == self.unified_window,
            None => false,
        };
        if !fresh && !self.unified_in_flight {
            self.unified_fetch_requested = true;
        }
    }

    /// The counts in the header: services, running, failed, with warnings.
    pub fn counts(&self) -> (r: (usize, usize, usize, usize))
        ensures
            r.0 == self.services@.len(),
            r.1 == count_where(self.services@, |s: Service| s.status == ServiceStatus::Running),
            r.2 == count_where(self.services@, |s: Service| s.status == ServiceStatus::Failed),
            r.3 == count_where(self.services@, |s: Service| s.health@.len() > 0),
    {
        let mut running: usize = 0;
        let mut failed: usize = 0;
        let mut warnings: usize = 0;
        let mut i: usize = 0;
        while i < self.services.len()
            invariant
                i <= self.services@.len(),
                running == count_where(self.services@.take(i as int), |s: Service| s.status == ServiceStatus::Running),
                failed == count_where(self.services@.take(i as int), |s: Service| s.status == ServiceStatus::Failed),
                warnings == count_where(self.services@.take(i as int), |s: Service| s.health@.len() > 0),
                running <= i,
                failed <= i,
                warnings <= i,
            decreases self.services.len() - i,
        {
            proof {
                assert(self.services@.take(i + 1).drop_last() =~= self.services@.take(i as int));
            }
            if self.services[i].status == ServiceStatus::Running {
                running = running + 1;
            }
            if self.services[i].status == ServiceStatus::Failed {
                failed = failed + 1;
            }
            if self.services[i].health.len() > 0 {
                warnings = warnings + 1;
            }
            i = i + 1;
        }
        assert(self.services@.take(self.services@.len() as int) =~= self.services@);
        (self.services.len(), running, failed, warnings)
    }

    /// Types a character into the search and relists from the top.
    pub fn type_search(&mut self, c: char)
        ensures
            search_edited(*old(self), old(self).search@.push(c), *final(self)),
    {
        crate::text::push_char(&mut self.search, c);
        self.selected = 0;
        self.viewport_start = 0;
        self.apply_filter();
    }

    /// Erases the last character of the search and relists from the top.
    pub fn erase_search(&mut self)
        ensures
            search_edited(
                *old(self),
                if old(self).search@.len() > 0 {
                    old(self).search@.drop_last()
                } else {
                    old(self).search@
                },
                *final(self),
            ),
    {
        crate::text::pop_char(&mut self.search);
        self.selected = 0;
        self.viewport_start = 0;
        self.apply_filter();
    }

    /// Acts on the highlighted detail row: the status row plans the action
    /// that fits the status, the log rows open their log, the RunAtLoad row
    /// plans a toggle, the plist row plans an edit; other rows are only named.
    pub fn open_selected_detail_item(&mut self)
        ensures
            open_selected_detail_item_step(*old(self), *final(self)),
    {
        let item = self.selected_detail_item();
        match item {
            DetailItem::Status => {
                let kind = status_detail_action(self.selected_service());
                self.plan_action(kind);
            },
            DetailItem::Stdout => self.open_logs(LogStream::Stdout),
            DetailItem::Stderr => self.open_logs(LogStream::Stderr),
            DetailItem::RunAtLoad => self.plan_action(crate::actions::ActionKind::ToggleRunAtLoad),
            DetailItem::Plist => self.plan_action(crate::actions::ActionKind::EditPlist),
            _ => {
                self.status_line = concat2(item.label(), " selected");
            },
        }
    }

    /// What the copy key copies in the current view, as a caption and a value:
    /// the service name in the overview, the highlighted row in the detail
    /// view, and the log path or unified-log predicate in the log view.
    pub fn copy_target(&self) -> (r: Option<(String, String)>)
        ensures
            match selection(*self) {
                None => r is None,
                Some(i) => r matches Some(t) && (t.0@, t.1@) == copy_text(*self, self.services@[i]),
            },
    {
        let service = match self.selected_service() {
            Some(s) => s,
            None => {
                return None;
            },
        };
        match self.mode {
            ViewMode::Overview => Some((owned("service"), service.display_name.clone())),
            ViewMode::Detail => {
                let item = self.selected_detail_item();
                Some((owned(item.label()), detail_item_value(service, item)))
            },
            ViewMode::Logs => match self.log_stream {
                LogStream::Stdout => Some((owned("stdout path"), text_or_dash(&service.config.stdout_path))),
                LogStream::Stderr => Some((owned("stderr path"), text_or_dash(&service.config.stderr_path))),
                LogStream::Unified => Some((
                    owned("os_log predicate"),
                    match &self.unified_cache {
                        Some(c) => c.predicate.clone(),
                        None => owned("-"),
                    },
                )),
            },
        }
    }

    /// Starts a copy: the caption and trimmed value to put on the clipboard,
    /// or `None` with the reason in the status line when there is nothing to
    /// copy.
    #[verifier::spinoff_prover]
    #[verifier::rlimit(60)]
    pub fn copy_request(&mut self) -> (r: Option<(String, String)>)
        ensures
            match selection(*old(self)) {
                None => r is None && final(self).status_line@ == "nothing selected to copy"@,
                Some(i) => {
                    let t = copy_text(*old(self), old(self).services@[i]);
                    let v = crate::text::trim(t.1);
                    if v.len() == 0 || v == "-"@ {
                        r is None && final(self).status_line@ == "nothing to copy for "@ + t.0
                    } else {
                        r matches Some(c) && c.0@ == t.0 && c.1@ == v && final(self).status_line
                            == old(self).status_line
                    }
                },
            },
            *final(self) == (App { status_line: final(self).status_line, ..*old(self) }),
    {
        let (label, value) = match self.copy_target() {
            Some(t) => t,
            None => {
                self.status_line = owned("nothing selected to copy");
                return None;
            },
        };
        let v = crate::text::trim_str(value.as_str());
        let dash = crate::text::chars_of("-");
        if v.len() == 0 || crate::text::seq_eq(&v, &dash) {
            self.status_line = concat2("nothing to copy for ", label.as_str());
            return None;
        }
        Some((label, crate::text::string_of(&v)))
    }

    /// Reports how a clipboard copy went.
    pub fn copy_finished(&mut self, label: &str, value: &str, outcome: Result<(), String>)
        ensures
            final(self).status_line@ == match outcome {
                Ok(()) => "copied "@ + label@ + ": "@ + value@,
                Err(e) => "copy failed: "@ + e@,
            },
            *final(self) == (App { status_line: final(self).status_line, ..*old(self) }),
    {
        match outcome {
            Ok(()) => {
                let mut line = concat2("copied ", label);
                line.append(": ");
                line.append(value);
                self.status_line = line;
            },
            Err(e) => {
                self.status_line = concat2("copy failed: ", e.as_str());
            },
        }
    }

    /// Prepares a unified-log fetch for the selected service: the id and
    /// query to fetch, with the fetch marked running; or `None` with the
    /// reason cached when nothing is selected or the label is unsafe.
    pub fn prepare_unified_fetch(&mut self) -> (r: Option<(String, crate::oslog::UnifiedLogQuery)>)
        ensures
            match selection(*old(self)) {
                None => r is None && cached_error(*old(self), Seq::<char>::empty(), "no service selected"@, *final(self)),
                Some(i) => {
                    let s = old(self).services@[i];
                    match crate::oslog::query_for(s.label@, s.config@) {
                        None => r is None && cached_error(
                            *old(self),
                            s.id@,
                            "label has characters unsafe for log predicate"@,
                            *final(self),
                        ),
                        Some((label, exe)) => r matches Some(f) && f.0@ == s.id@ && f.1.label@ == label
                            && opt_view(f.1.executable) == exe && f.1.window == old(self).unified_window
                            && final(self).status_line@ == "fetching os_log for "@ + s.display_name@ + " ("@
                            + crate::oslog::window_text(old(self).unified_window) + ")"@ && *final(self) == (
                        App {
                            unified_in_flight: true,
                            status_line: final(self).status_line,
                            ..*old(self)
                        }),
                    }
                },
            },
    {
        let window = self.unified_window;
        let prepared = match self.selected_service() {
            Some(service) => Some(
                (service.id.clone(), service.display_name.clone(), crate::oslog::build_query(service, window)),
            ),
            None => None,
        };
        let (service_id, display_name, query) = match prepared {
            Some(p) => p,
            None => {
                self.unified_cache = Some(
                    UnifiedLogCache {
                        service_id: String::new(),
                        window,
                        elapsed_ms: 0,
                        lines: Vec::new(),
                        error: Some(owned("no service selected")),
                        predicate: String::new(),
                    },
                );
                return None;
            },
        };
        let query = match query {
            Some(q) => q,
            None => {
                self.unified_cache = Some(
                    UnifiedLogCache {
                        service_id,
                        window,
                        elapsed_ms: 0,
                        lines: Vec::new(),
                        error: Some(owned("label has characters unsafe for log predicate")),
                        predicate: String::new(),
                    },
                );
                return None;
            },
        };
        self.unified_in_flight = true;
        let mut line = concat2("fetching os_log for ", display_name.as_str());
        line.append(" (");
        line.append(window.label());
        line.append(")");
        self.status_line = line;
        Some((service_id, query))
    }

    /// Stores what a unified-log fetch brought back and reports it.
    pub fn apply_unified_result(&mut self, result: crate::oslog::UnifiedLogResult)
        ensures
            final(self).unified_cache matches Some(c) && c.service_id@ == result.service_id@ && c.window
                == result.query.window && c.elapsed_ms == result.elapsed_ms && c.lines@ == result.lines@
                && c.error == result.error && c.predicate@ == crate::oslog::predicate_text(
                result.query.label@,
                opt_view(result.query.executable),
            ),
            final(self).status_line@ == match result.error {
                Some(e) => "os_log error ("@ + crate::oslog::window_text(result.query.window) + "): "@ + e@,
                None => "os_log: "@ + decimal(result.lines@.len()) + " lines from last "@
                    + crate::oslog::window_text(result.query.window) + " in "@ + decimal(
                    result.elapsed_ms as nat,
                ) + "ms"@,
            },
            *final(self) == (App {
                unified_in_flight: false,
                unified_cache: final(self).unified_cache,
                log_scroll: 0,
                status_line: final(self).status_line,
                ..*old(self)
            }),
    {
        self.unified_in_flight = false;
        let predicate = crate::oslog::build_predicate(&result.query);
        let count = decimal_string(result.lines.len() as u64);
        let elapsed = crate::text::decimal_string_wide(result.elapsed_ms);
        let window = result.query.window;
        let line = match &result.error {
            Some(err) => {
                let mut l = concat2("os_log error (", window.label());
                l.append("): ");
                l.append(err.as_str());
                l
            },
            None => {
                let mut l = concat2("os_log: ", count.as_str());
                l.append(" lines from last ");
                l.append(window.label());
                l.append(" in ");
                l.append(elapsed.as_str());
                l.append("ms");
                l
            },
        };
        self.unified_cache = Some(
            UnifiedLogCache {
                service_id: result.service_id,
                window,
                elapsed_ms: result.elapsed_ms,
                lines: result.lines,
                error: result.error,
                predicate,
            },
        );
        self.log_scroll = 0;
        self.status_line = line;
    }

    /// Drops the cached unified-log lines and asks for a new fetch.
    pub fn refresh_unified_log(&mut self)
        ensures
            refresh_unified_log_step(*old(self), *final(self)),
    {
        self.unified_cache = None;
        self.unified_fetch_requested = true;
        self.status_line = owned("refreshing os_log...");
    }

    /// Steps the unified-log window and asks for a new fetch.
    pub fn cycle_unified_window(&mut self)
        ensures
            cycle_unified_window_step(*old(self), *final(self)),
    {
        self.unified_window = self.unified_window.next();
        self.unified_cache = None;
        self.unified_fetch_requested = true;
        self.status_line = concat2("os_log window: ", self.unified_window.label());
    }
}


// ---------------------------------------------------------------------------
// Keys
// ---------------------------------------------------------------------------

/// The key of a key press.
#[derive(Clone, Copy, Debug, PartialEq, Eq, Structural)]
pub enum Key {
    Char(char),
    F(u8),
    Esc,
    Enter,
    Backspace,
    Tab,
    BackTab,
    Up,
    Down,
    Left,
    Right,
    PageUp,
    PageDown,
    Other,
}

/// A key press with the modifiers that matter here.
#[derive(Clone, Copy, Debug, PartialEq, Eq, Structural)]
pub struct KeyInput {
    pub code: Key,
    pub ctrl: bool,
    pub alt: bool,
}

/// What the event loop does after a key: go on, quit, copy the current
/// value to the clipboard, or write the create form.
#[derive(Clone, Copy, Debug, PartialEq, Eq, Structural)]
pub enum KeyEffect {
    Continue,
    Quit,
    Copy,
    SaveCreateForm,
}

/// A control character (`char::is_control`: the C0 and C1 control codes).
pub open spec fn control_char(c: char) -> bool {
    ('\u{0}' <= c && c <= '\u{1F}') || ('\u{7F}' <= c && c <= '\u{9F}')
}

/// Control or Alt is held.
pub open spec fn command_modifier(k: KeyInput) -> bool {
    k.ctrl || k.alt
}

/// A printable character typed without Control or Alt starts a quick search.
pub open spec fn quick_search_key(k: KeyInput) -> bool {
    k.code matches Key::Char(c) && !control_char(c) && !command_modifier(k)
}

fn is_quick_search_key(key: KeyInput) -> (r: bool)
    ensures
        r == quick_search_key(key),
{
    match key.code {
        Key::Char(c) => !(('\u{0}' <= c && c <= '\u{1F}') || ('\u{7F}' <= c && c <= '\u{9F}')) && !(key.ctrl
            || key.alt),
        _ => false,
    }
}

/// The form after a key in the create form: Tab, Down, Right and Enter move
/// on; BackTab, Up and Left move back; Backspace erases, and moves back when
/// there was nothing to erase; Space flips a switch or types a space; other
/// characters are typed.
pub open spec fn form_key(v: crate::create::FormView, code: Key) -> crate::create::FormView {
    let f = crate::create::field_at(v.selected);
    match code {
        Key::Tab | Key::Down | Key::Right | Key::Enter => crate::create::next_field(v),
        Key::BackTab | Key::Up | Key::Left => crate::create::previous_field(v),
        Key::Backspace => {
            let e = crate::create::erased(v);
            if crate::create::shown_value(v, f) == crate::create::shown_value(e, crate::create::field_at(e.selected)) {
                crate::create::previous_field(e)
            } else {
                e
            }
        },
        Key::Char(c) => if c == ' ' && !crate::create::is_text_field(f) {
            crate::create::toggled(v)
        } else {
            crate::create::typed(v, c)
        },
        _ => v,
    }
}

/// A key while the create form is open.
pub open spec fn create_key_step(a: App, k: KeyInput, r: KeyEffect, b: App) -> bool {
    if k.ctrl && k.code == Key::Char('s') {
        r == KeyEffect::SaveCreateForm && b == a
    } else if k.code == Key::Esc {
        r == KeyEffect::Continue && cancel_create_form_step(a, b)
    } else if k.code == Key::F(5) {
        r == KeyEffect::SaveCreateForm && b == a
    } else {
        &&& r == KeyEffect::Continue
        &&& a.create_form matches Some(f) && b.create_form matches Some(g) && g@ == form_key(f@, k.code)
        &&& b == (App { create_form: b.create_form, ..a })
    }
}

/// A key while an action waits for confirmation: y or Enter confirms; n, Esc,
/// Left or Backspace cancels.
pub open spec fn pending_key_step(a: App, k: KeyInput, b: App) -> bool {
    if k.code == Key::Char('y') || k.code == Key::Enter {
        confirm_action_step(a, b)
    } else if k.code == Key::Char('n') || k.code == Key::Esc || k.code == Key::Left || k.code == Key::Backspace {
        cancel_action_step(a, b)
    } else {
        b == a
    }
}

/// A key while the search is edited.
pub open spec fn search_key_step(a: App, k: KeyInput, b: App) -> bool {
    match k.code {
        Key::Esc | Key::Left => b.status_line@ == "search cancelled"@ && b == (App {
            editing_search: false,
            status_line: b.status_line,
            ..a
        }),
        Key::Enter => {
            let a1 = App { editing_search: false, ..a };
            if selection(a) is Some {
                open_detail_step(a1, b)
            } else {
                b.status_line@ == decimal(a.filtered@.len()) + " services match"@ && b == (App {
                    status_line: b.status_line,
                    ..a1
                })
            }
        },
        Key::Down => move_down_step(a, b),
        Key::Up => move_up_step(a, b),
        Key::PageDown => page_down_step(a, b),
        Key::PageUp => page_up_step(a, b),
        Key::Char(c) => if c == 'C' {
            clear_search_step(App { editing_search: false, ..a }, b)
        } else {
            search_edited(a, a.search@.push(c), b)
        },
        Key::Backspace => search_edited(
            a,
            if a.search@.len() > 0 {
                a.search@.drop_last()
            } else {
                a.search@
            },
            b,
        ),
        _ => b == a,
    }
}

/// `b` is `a` with the search text `t`, relisted from the top.
pub open spec fn search_edited(a: App, t: Seq<char>, b: App) -> bool {
    &&& b.search@ == t
    &&& app_listing(b, b.filtered@)
    &&& b == (App { search: b.search, filtered: b.filtered, selected: 0, viewport_start: 0, ..a })
}

/// A key in the log view.
pub open spec fn logs_key_step(a: App, k: KeyInput, r: KeyEffect, b: App) -> bool {
    match k.code {
        Key::Char(c) => if c == 'q' {
            r == KeyEffect::Quit && b == a
        } else if c == 'j' {
            r == KeyEffect::Continue && scroll_logs_down_step(a, 1, b)
        } else if c == 'k' {
            r == KeyEffect::Continue && scroll_logs_up_step(a, 1, b)
        } else if c == 'G' {
            r == KeyEffect::Continue && b == (App { log_scroll: 0, ..a })
        } else if c == 'g' {
            r == KeyEffect::Continue && b == (App { log_scroll: (usize::MAX / 2) as usize, ..a })
        } else if c == 'c' {
            r == KeyEffect::Copy && b == a
        } else if c == 'l' {
            r == KeyEffect::Continue && switch_log_stream_step(a, b)
        } else if c == 'r' {
            r == KeyEffect::Continue && refresh_unified_log_step(a, b)
        } else if c == 'w' {
            r == KeyEffect::Continue && cycle_unified_window_step(a, b)
        } else {
            r == KeyEffect::Continue && b == a
        },
        Key::Esc | Key::Backspace => r == KeyEffect::Continue && b == (App { mode: ViewMode::Detail, ..a }),
        Key::Down => r == KeyEffect::Continue && scroll_logs_down_step(a, 1, b),
        Key::Up => r == KeyEffect::Continue && scroll_logs_up_step(a, 1, b),
        Key::PageDown => r == KeyEffect::Continue && scroll_logs_down_step(a, 10, b),
        Key::PageUp => r == KeyEffect::Continue && scroll_logs_up_step(a, 10, b),
        Key::Tab | Key::BackTab | Key::Left | Key::Right => r == KeyEffect::Continue && switch_log_stream_step(a, b),
        _ => r == KeyEffect::Continue && b == a,
    }
}

/// A key in the detail view.
pub open spec fn detail_key_step(a: App, k: KeyInput, r: KeyEffect, b: App) -> bool {
    match k.code {
        Key::Char(c) => if c == 'q' {
            r == KeyEffect::Quit && b == a
        } else if c == 'c' {
            r == KeyEffect::Copy && b == a
        } else {
            &&& r == KeyEffect::Continue
            &&& if c == 'j' {
                move_detail_down_step(a, b)
            } else if c == 'k' {
                move_detail_up_step(a, b)
            } else if c == 'g' {
                b == (App { detail_selected: 0, ..a })
            } else if c == 'G' {
                b == (App { detail_selected: (DETAIL_COUNT - 1) as usize, ..a })
            } else if c == 'l' {
                logs_opened(a, LogStream::Stdout, b)
            } else if c == 's' {
                planned(a, crate::actions::ActionKind::Start, b)
            } else if c == 'x' {
                planned(a, crate::actions::ActionKind::Stop, b)
            } else if c == 'R' {
                planned(a, crate::actions::ActionKind::Restart, b)
            } else if c == 'e' {
                planned(a, crate::actions::ActionKind::ToggleEnabled, b)
            } else if c == 'u' {
                planned(a, crate::actions::ActionKind::ToggleRunAtLoad, b)
            } else if c == 'E' {
                planned(a, crate::actions::ActionKind::EditPlist, b)
            } else if c == 'D' {
                planned(a, crate::actions::ActionKind::Delete, b)
            } else {
                b == a
            }
        },
        Key::Esc | Key::Left | Key::Backspace => r == KeyEffect::Continue && close_detail_step(a, b),
        Key::Down => r == KeyEffect::Continue && move_detail_down_step(a, b),
        Key::Up => r == KeyEffect::Continue && move_detail_up_step(a, b),
        Key::PageDown => r == KeyEffect::Continue && page_detail_down_step(a, b),
        Key::PageUp => r == KeyEffect::Continue && page_detail_up_step(a, b),
        Key::Enter => r == KeyEffect::Continue && open_selected_detail_item_step(a, b),
        _ => r == KeyEffect::Continue && b == a,
    }
}

/// `b` is `a` with a refresh asked for.
pub open spec fn refresh_asked(a: App, b: App) -> bool {
    &&& b.status_line@ == "refresh requested"@
    &&& b == (App { refresh_requested: true, status_line: b.status_line, ..a })
}

/// A key in the overview.
pub open spec fn overview_key_step(a: App, k: KeyInput, r: KeyEffect, b: App) -> bool {
    match k.code {
        Key::Char(c) => if c == 'q' {
            r == KeyEffect::Quit && b == a
        } else if c == 'Y' {
            r == KeyEffect::Copy && b == a
        } else {
            &&& r == KeyEffect::Continue
            &&& if c == '/' {
                open_search_step(a, b)
            } else if c == 'C' {
                clear_search_step(a, b)
            } else if c == 'F' {
                cycle_status_filter_step(a, b)
            } else if c == 'P' {
                cycle_source_filter_step(a, b)
            } else if c == 'O' {
                cycle_sort_step(a, b)
            } else if c == 'A' {
                toggle_apple_step(a, b)
            } else if c == 'W' {
                toggle_warnings_only_step(a, b)
            } else if c == 'L' && selection(a) is Some {
                logs_opened(a, LogStream::Stdout, b)
            } else if c == 'R' {
                planned(a, crate::actions::ActionKind::Restart, b)
            } else if c == 'S' {
                planned(a, crate::actions::ActionKind::Start, b)
            } else if c == 'X' {
                planned(a, crate::actions::ActionKind::Stop, b)
            } else if c == 'T' {
                planned(a, crate::actions::ActionKind::ToggleEnabled, b)
            } else if c == 'U' {
                planned(a, crate::actions::ActionKind::ToggleRunAtLoad, b)
            } else if c == 'E' {
                planned(a, crate::actions::ActionKind::EditPlist, b)
            } else if c == 'D' {
                planned(a, crate::actions::ActionKind::Delete, b)
            } else if c == 'N' {
                open_create_form_step(a, b)
            } else if c == 'r' && command_modifier(k) {
                refresh_asked(a, b)
            } else if quick_search_key(k) {
                start_quick_search_step(a, c, b)
            } else {
                b == a
            }
        },
        Key::F(n) => r == KeyEffect::Continue && if n == 5 {
            refresh_asked(a, b)
        } else {
            b == a
        },
        Key::Down => r == KeyEffect::Continue && move_down_step(a, b),
        Key::Up => r == KeyEffect::Continue && move_up_step(a, b),
        Key::PageDown => r == KeyEffect::Continue && page_down_step(a, b),
        Key::PageUp => r == KeyEffect::Continue && page_up_step(a, b),
        Key::Enter => r == KeyEffect::Continue && if selection(a) is Some {
            open_detail_step(a, b)
        } else {
            b == a
        },
        Key::Esc | Key::Left | Key::Backspace => r == KeyEffect::Continue && b == (App {
            mode: ViewMode::Overview,
            ..a
        }),
        _ => r == KeyEffect::Continue && b == a,
    }
}

/// What a key does: Ctrl-C quits anywhere, `?` or F1 toggles help, and
/// otherwise the open help, the create form, a pending confirmation, the
/// search, the log view, the detail view or the overview takes it, in that
/// order.
pub open spec fn key_step(a: App, k: KeyInput, r: KeyEffect, b: App) -> bool {
    if k.ctrl && k.code == Key::Char('c') {
        r == KeyEffect::Quit && b == a
    } else if k.code == Key::Char('?') || k.code == Key::F(1) {
        &&& r == KeyEffect::Continue
        &&& b.status_line@ == (if !a.show_help {
            "help opened"@
        } else {
            "help closed"@
        })
        &&& b == (App { show_help: !a.show_help, status_line: b.status_line, ..a })
    } else if a.show_help {
        if k.code == Key::Char('q') {
            r == KeyEffect::Quit && b == a
        } else if k.code == Key::Esc || k.code == Key::Backspace || k.code == Key::Left || k.code == Key::Enter {
            r == KeyEffect::Continue && b.status_line@ == "help closed"@ && b == (App {
                show_help: false,
                status_line: b.status_line,
                ..a
            })
        } else {
            r == KeyEffect::Continue && b == a
        }
    } else if a.create_form is Some {
        create_key_step(a, k, r, b)
    } else if a.pending_action is Some {
        r == KeyEffect::Continue && pending_key_step(a, k, b)
    } else if a.editing_search {
        r == KeyEffect::Continue && search_key_step(a, k, b)
    } else if a.mode == ViewMode::Logs {
        logs_key_step(a, k, r, b)
    } else if a.mode == ViewMode::Detail {
        detail_key_step(a, k, r, b)
    } else {
        overview_key_step(a, k, r, b)
    }
}

/// Whether the create form's cursor is on one of its fields.
pub open spec fn form_cursor_ok(a: App) -> bool {
    a.create_form matches Some(f) ==> f.selected < crate::create::FIELD_COUNT
}

#[verifier::spinoff_prover]
#[verifier::rlimit(40)]
fn handle_create_key(app: &mut App, key: KeyInput) -> (r: KeyEffect)
    requires
        old(app).create_form is Some,
        form_cursor_ok(*old(app)),
    ensures
        create_key_step(*old(app), key, r, *final(app)),
        form_cursor_ok(*final(app)),
{
    if key.ctrl && key.code == Key::Char('s') {
        return KeyEffect::SaveCreateForm;
    }
    match key.code {
        Key::Esc => {
            app.cancel_create_form();
            return KeyEffect::Continue;
        },
        Key::F(5) => {
            return KeyEffect::SaveCreateForm;
        },
        _ => {},
    }
    let mut form = match app.create_form.take() {
        Some(f) => f,
        None => {
            return KeyEffect::Continue;
        },
    };
    let ghost v = form@;
    match key.code {
        Key::Tab | Key::Down | Key::Right | Key::Enter => form.next(),
        Key::BackTab | Key::Up | Key::Left => form.previous(),
        Key::Backspace => {
            let before = form.value_for(form.current_field());
            form.backspace();
            let after = form.value_for(form.current_field());
            if str_eq(before.as_str(), after.as_str()) {
                form.previous();
            }
        },
        Key::Char(c) => {
            let f = form.current_field();
            if c == ' ' && !crate::create::CreateField::is_switch(f) {
                form.insert(' ');
            } else if c == ' ' {
                form.toggle();
            } else {
                form.insert(c);
            }
        },
        _ => {},
    }
    proof {
        assert(form@ == form_key(v, key.code));
    }
    app.create_form = Some(form);
    KeyEffect::Continue
}

#[verifier::spinoff_prover]
#[verifier::rlimit(40)]
fn handle_pending_key(app: &mut App, key: KeyInput)
    ensures
        pending_key_step(*old(app), key, *final(app)),
{
    if key.code == Key::Char('y') || key.code == Key::Enter {
        app.confirm_action();
    } else if key.code == Key::Char('n') || key.code == Key::Esc || key.code == Key::Left || key.code
        == Key::Backspace {
        app.cancel_action();
    }
}

#[verifier::spinoff_prover]
#[verifier::rlimit(40)]
fn handle_search_key(app: &mut App, key: KeyInput)
    requires
        old(app).selected + 10 <= usize::MAX,
    ensures
        search_key_step(*old(app), key, *final(app)),
{
    match key.code {
        Key::Esc | Key::Left => {
            app.editing_search = false;
            app.status_line = owned("search cancelled");
        },
        Key::Enter => {
            app.editing_search = false;
            if app.selected_service().is_some() {
                app.open_detail();
            } else {
                let mut line = decimal_string(app.filtered.len() as u64);
                line.append(" services match");
                app.status_line = line;
            }
        },
        Key::Down => app.move_down(),
        Key::Up => app.move_up(),
        Key::PageDown => app.page_down(),
        Key::PageUp => app.page_up(),
        Key::Char(c) => {
            if c == 'C' {
                app.editing_search = false;
                app.clear_search();
            } else {
                app.type_search(c);
            }
        },
        Key::Backspace => app.erase_search(),
        _ => {},
    }
}

#[verifier::spinoff_prover]
#[verifier::rlimit(40)]
fn handle_logs_key(app: &mut App, key: KeyInput) -> (r: KeyEffect)
    ensures
        logs_key_step(*old(app), key, r, *final(app)),
{
    match key.code {
        Key::Char(c) => {
            if c == 'q' {
                return KeyEffect::Quit;
            } else if c == 'j' {
                app.scroll_logs_down(1);
            } else if c == 'k' {
                app.scroll_logs_up(1);
            } else if c == 'G' {
                app.log_scroll = 0;
            } else if c == 'g' {
                app.log_scroll = usize::MAX / 2;
            } else if c == 'c' {
                return KeyEffect::Copy;
            } else if c == 'l' {
                app.switch_log_stream();
            } else if c == 'r' {
                app.refresh_unified_log();
            } else if c == 'w' {
                app.cycle_unified_window();
            }
        },
        Key::Esc | Key::Backspace => app.mode = ViewMode::Detail,
        Key::Down => app.scroll_logs_down(1),
        Key::Up => app.scroll_logs_up(1),
        Key::PageDown => app.scroll_logs_down(10),
        Key::PageUp => app.scroll_logs_up(10),
        Key::Tab | Key::BackTab | Key::Left | Key::Right => app.switch_log_stream(),
        _ => {},
    }
    KeyEffect::Continue
}

#[verifier::spinoff_prover]
#[verifier::rlimit(40)]
fn handle_detail_key(app: &mut App, key: KeyInput) -> (r: KeyEffect)
    ensures
        detail_key_step(*old(app), key, r, *final(app)),
{
    match key.code {
        Key::Char(c) => {
            if c == 'q' {
                return KeyEffect::Quit;
            } else if c == 'c' {
                return KeyEffect::Copy;
            } else if c == 'j' {
                app.move_detail_down();
            } else if c == 'k' {
                app.move_detail_up();
            } else if c == 'g' {
                app.detail_selected = 0;
            } else if c == 'G' {
                app.detail_selected = DETAIL_COUNT - 1;
            } else if c == 'l' {
                app.open_logs(LogStream::Stdout);
            } else if c == 's' {
                app.plan_action(crate::actions::ActionKind::Start);
            } else if c == 'x' {
                app.plan_action(crate::actions::ActionKind::Stop);
            } else if c == 'R' {
                app.plan_action(crate::actions::ActionKind::Restart);
            } else if c == 'e' {
                app.plan_action(crate::actions::ActionKind::ToggleEnabled);
            } else if c == 'u' {
                app.plan_action(crate::actions::ActionKind::ToggleRunAtLoad);
            } else if c == 'E' {
                app.plan_action(crate::actions::ActionKind::EditPlist);
            } else if c == 'D' {
                app.plan_action(crate::actions::ActionKind::Delete);
            }
        },
        Key::Esc | Key::Left | Key::Backspace => app.close_detail(),
        Key::Down => app.move_detail_down(),
        Key::Up => app.move_detail_up(),
        Key::PageDown => app.page_detail_down(),
        Key::PageUp => app.page_detail_up(),
        Key::Enter => app.open_selected_detail_item(),
        _ => {},
    }
    KeyEffect::Continue
}

#[verifier::spinoff_prover]
#[verifier::rlimit(40)]
fn handle_overview_key(app: &mut App, key: KeyInput) -> (r: KeyEffect)
    requires
        old(app).selected + 10 <= usize::MAX,
    ensures
        overview_key_step(*old(app), key, r, *final(app)),
{
    match key.code {
        Key::Char(c) => {
            if c == 'q' {
                return KeyEffect::Quit;
            } else if c == 'Y' {
                return KeyEffect::Copy;
            } else if c == '/' {
                app.open_search();
            } else if c == 'C' {
                app.clear_search();
            } else if c == 'F' {
                app.cycle_status_filter();
            } else if c == 'P' {
                app.cycle_source_filter();
            } else if c == 'O' {
                app.cycle_sort();
            } else if c == 'A' {
                app.toggle_apple();
            } else if c == 'W' {
                app.toggle_warnings_only();
            } else if c == 'L' && app.selected_service().is_some() {
                app.open_logs(LogStream::Stdout);
            } else if c == 'R' {
                app.plan_action(crate::actions::ActionKind::Restart);
            } else if c == 'S' {
                app.plan_action(crate::actions::ActionKind::Start);
            } else if c == 'X' {
                app.plan_action(crate::actions::ActionKind::Stop);
            } else if c == 'T' {
                app.plan_action(crate::actions::ActionKind::ToggleEnabled);
            } else if c == 'U' {
                app.plan_action(crate::actions::ActionKind::ToggleRunAtLoad);
            } else if c == 'E' {
                app.plan_action(crate::actions::ActionKind::EditPlist);
            } else if c == 'D' {
                app.plan_action(crate::actions::ActionKind::Delete);
            } else if c == 'N' {
                app.open_create_form();
            } else if c == 'r' && (key.ctrl || key.alt) {
                app.refresh_requested = true;
                app.status_line = owned("refresh requested");
            } else if is_quick_search_key(key) {
                app.start_quick_search(c);
            }
        },
        Key::F(n) => {
            if n == 5 {
                app.refresh_requested = true;
                app.status_line = owned("refresh requested");
            }
        },
        Key::Down => app.move_down(),
        Key::Up => app.move_up(),
        Key::PageDown => app.page_down(),
        Key::PageUp => app.page_up(),
        Key::Enter => {
            if app.selected_service().is_some() {
                app.open_detail();
            }
        },
        Key::Esc | Key::Left | Key::Backspace => app.mode = ViewMode::Overview,
        _ => {},
    }
    KeyEffect::Continue
}

/// Handles one key press and says what the event loop must do next.
#[verifier::spinoff_prover]
#[verifier::rlimit(40)]
pub fn handle_key(app: &mut App, key: KeyInput) -> (r: KeyEffect)
    requires
        form_cursor_ok(*old(app)),
        old(app).selected + 10 <= usize::MAX,
    ensures
        key_step(*old(app), key, r, *final(app)),
        form_cursor_ok(*final(app)),
{
    if key.ctrl && key.code == Key::Char('c') {
        return KeyEffect::Quit;
    }
    if key.code == Key::Char('?') || key.code == Key::F(1) {
        app.show_help = !app.show_help;
        app.status_line = if app.show_help {
            owned("help opened")
        } else {
            owned("help closed")
        };
        return KeyEffect::Continue;
    }
    if app.show_help {
        if key.code == Key::Char('q') {
            return KeyEffect::Quit;
        }
        if key.code == Key::Esc || key.code == Key::Backspace || key.code == Key::Left || key.code == Key::Enter {
            app.show_help = false;
            app.status_line = owned("help closed");
        }
        return KeyEffect::Continue;
    }
    if app.create_form.is_some() {
        return handle_create_key(app, key);
    }
    if app.pending_action.is_some() {
        handle_pending_key(app, key);
        return KeyEffect::Continue;
    }
    if app.editing_search {
        handle_search_key(app, key);
        return KeyEffect::Continue;
    }
    if app.mode == ViewMode::Logs {
        return handle_logs_key(app, key);
    }
    if app.mode == ViewMode::Detail {
        return handle_detail_key(app, key);
    }
    handle_overview_key(app, key)
}

// ---------------------------------------------------------------------------
// Refresh timing
// ---------------------------------------------------------------------------

/// How often the inventory is refreshed in the background, in milliseconds.
pub const REFRESH_INTERVAL_MS: u128 = 3000;

/// How long a background refresh may stay silent before it counts as lost,
/// in milliseconds: a full pass takes about a second.
pub const REFRESH_TIMEOUT_MS: u128 = 30000;

/// Whether to start a background refresh: never while one runs or while the
/// user is searching, reading help, confirming an action or filling the
/// create form; otherwise when one was asked for or the interval has passed
/// since the last one.
pub fn should_refresh(app: &App, refresh_in_progress: bool, since_last_refresh_ms: u128) -> (r: bool)
    ensures
        r == (!(refresh_in_progress || app.editing_search || app.show_help || app.pending_action is Some
            || app.create_form is Some) && (app.refresh_requested || since_last_refresh_ms >= REFRESH_INTERVAL_MS)),
{
    if refresh_in_progress || app.editing_search || app.show_help || app.pending_action.is_some()
        || app.create_form.is_some() {
        return false;
    }
    app.refresh_requested || since_last_refresh_ms >= REFRESH_INTERVAL_MS
}

/// Whether a running background refresh is given up on, so that another can
/// start.
pub fn refresh_gave_up(refresh_in_progress: bool, since_refresh_started_ms: u128) -> (r: bool)
    ensures
        r == (refresh_in_progress && since_refresh_started_ms >= REFRESH_TIMEOUT_MS),
{
    refresh_in_progress && since_refresh_started_ms >= REFRESH_TIMEOUT_MS
}

// ---------------------------------------------------------------------------
// Scrolling windows
// ---------------------------------------------------------------------------

/// The first row shown when `rows` rows fit and `selected` must stay visible:
/// the current start, pulled back so the view is not past the end, then moved
/// just enough to show the selection.
pub open spec fn viewport_for(start: int, selected: int, len: int, rows: int) -> int {
    let max_start = if len > rows {
        len - rows
    } else {
        0
    };
    let s = min_int(start, max_start);
    if selected < s {
        selected
    } else if selected >= s + rows {
        selected + 1 - rows
    } else {
        s
    }
}

fn viewport_exec(start: usize, selected: usize, len: usize, rows: usize) -> (r: usize)
    requires
        rows >= 1,
    ensures
        r as int == viewport_for(start as int, selected as int, len as int, rows as int),
{
    let max_start = if len > rows {
        len - rows
    } else {
        0
    };
    let s = if start < max_start {
        start
    } else {
        max_start
    };
    if selected < s {
        selected
    } else if selected - s >= rows {
        selected - (rows - 1)
    } else {
        s
    }
}

impl App {
    /// Keeps the selected row inside a list view `visible_rows` high.
    pub fn sync_viewport(&mut self, visible_rows: usize)
        requires
            visible_rows >= 1,
        ensures
            *final(self) == (App {
                viewport_start: if old(self).filtered@.len() == 0 {
                    0
                } else {
                    viewport_for(
                        old(self).viewport_start as int,
                        old(self).selected as int,
                        old(self).filtered@.len() as int,
                        visible_rows as int,
                    ) as usize
                },
                ..*old(self)
            }),
    {
        if self.filtered.len() == 0 {
            self.viewport_start = 0;
            return;
        }
        self.viewport_start = viewport_exec(self.viewport_start, self.selected, self.filtered.len(), visible_rows);
    }

    /// Keeps the highlighted detail row inside a detail view `visible_rows`
    /// high.
    pub fn sync_detail_viewport(&mut self, visible_rows: usize)
        requires
            visible_rows >= 1,
        ensures
            *final(self) == (App {
                detail_scroll: viewport_for(
                    old(self).detail_scroll as int,
                    old(self).detail_selected as int,
                    DETAIL_COUNT as int,
                    visible_rows as int,
                ) as usize,
                ..*old(self)
            }),
    {
        self.detail_scroll = viewport_exec(self.detail_scroll, self.detail_selected, DETAIL_COUNT, visible_rows);
    }
}

/// The rows of a log of `total` lines shown in a view `visible` high,
/// scrolled `scroll` lines back from the newest: from `start` to `end`.
pub open spec fn log_window_for(total: int, visible: int, scroll: int) -> (int, int) {
    let max_scroll = if total > visible {
        total - visible
    } else {
        0
    };
    let sc = min_int(scroll, max_scroll);
    let start = if total > visible + sc {
        total - (visible + sc)
    } else {
        0
    };
    (start, min_int(start + visible, total))
}

pub fn log_window(total: usize, visible: usize, scroll: usize) -> (r: (usize, usize))
    ensures
        (r.0 as int, r.1 as int) == log_window_for(total as int, visible as int, scroll as int),
        r.0 <= r.1 <= total,
{
    let max_scroll = if total > visible {
        total - visible
    } else {
        0
    };
    let sc = if scroll < max_scroll {
        scroll
    } else {
        max_scroll
    };
    let start = if total > visible && total - visible > sc {
        total - visible - sc
    } else {
        0
    };
    let end = if total - start > visible {
        start + visible
    } else {
        total
    };
    (start, end)
}

/// The lines of a log tail: when the read started inside the file, the first
/// (cut) line is dropped; then at most the last `max_lines` lines are kept.
pub open spec fn tail_text(content: Seq<char>, cut_first: bool, max_lines: nat) -> Seq<Seq<char>> {
    let c = if cut_first {
        match crate::text::split_once(content, "\n"@) {
            Some((_, rest)) => rest,
            None => seq![],
        }
    } else {
        content
    };
    let ls = crate::text::lines(c);
    if ls.len() > max_lines {
        ls.skip(ls.len() - max_lines)
    } else {
        ls
    }
}

pub fn tail_lines(content: &str, cut_first: bool, max_lines: usize) -> (r: Vec<String>)
    ensures
        string_views(r@) == tail_text(content@, cut_first, max_lines as nat),
{
    let chars = crate::text::chars_of(content);
    let body = if cut_first {
        match crate::text::split_once_exec(&chars, &crate::text::chars_of("\n")) {
            Some((_, rest)) => rest,
            None => Vec::new(),
        }
    } else {
        chars
    };
    let ls = crate::text::lines_of(&body);
    let n = ls.len();
    let from = if n > max_lines {
        n - max_lines
    } else {
        0
    };
    let mut out: Vec<String> = Vec::new();
    let mut i: usize = from;
    while i < n
        invariant
            from <= i <= n,
            n == ls@.len(),
            string_views(out@) == crate::text::views(ls@).subrange(from as int, i as int),
        decreases n - i,
    {
        let ghost before = string_views(out@);
        out.push(crate::text::string_of(&ls[i]));
        assert(string_views(out@) =~= before.push(ls@[i as int]@));
        assert(crate::text::views(ls@).subrange(from as int, i + 1) =~= crate::text::views(ls@).subrange(
            from as int,
            i as int,
        ).push(ls@[i as int]@));
        i = i + 1;
    }
    assert(crate::text::views(ls@).subrange(from as int, n as int) =~= crate::text::views(ls@).skip(from as int));
    out
}

} // verus!
