//! Unified-log queries: which label and process a service's log lines are
//! found by, the predicate handed to `log show`, and how its compact output
//! is trimmed to what the log view shows.
use vstd::prelude::*;
use vstd::string::*;
use crate::model::{opt_view, LaunchConfigView, Service};
use crate::paths::{file_name_of, path_file_name};
use crate::text::{chars_of, concat2, has_prefix, has_prefix_exec, lines, lines_of, owned, string_of, views};

verus! {

/// The most log lines a fetch keeps: the newest ones.
pub const MAX_LINES: usize = 500;

/// How far back a unified-log fetch looks.
#[derive(Clone, Copy, Debug, PartialEq, Eq, Structural)]
pub enum LogWindow {
    FiveMin,
    FifteenMin,
    OneHour,
}

/// The text of a window, as shown and as passed to `log show --last`.
pub open spec fn window_text(w: LogWindow) -> Seq<char> {
    match w {
        LogWindow::FiveMin => "5m"@,
        LogWindow::FifteenMin => "15m"@,
        LogWindow::OneHour => "1h"@,
    }
}

/// The window after `w` in the cycle 5m, 15m, 1h.
pub open spec fn window_after(w: LogWindow) -> LogWindow {
    match w {
        LogWindow::FiveMin => LogWindow::FifteenMin,
        LogWindow::FifteenMin => LogWindow::OneHour,
        LogWindow::OneHour => LogWindow::FiveMin,
    }
}

impl LogWindow {
    pub fn label(self) -> (r: &'static str)
        ensures
            r@ == window_text(self),
    {
        match self {
            LogWindow::FiveMin => "5m",
            LogWindow::FifteenMin => "15m",
            LogWindow::OneHour => "1h",
        }
    }

    /// The argument of `log show --last`.
    pub fn arg(self) -> (r: &'static str)
        ensures
            r@ == window_text(self),
    {
        match self {
            LogWindow::FiveMin => "5m",
            LogWindow::FifteenMin => "15m",
            LogWindow::OneHour => "1h",
        }
    }

    pub fn next(self) -> (r: Self)
        ensures
            r == window_after(self),
    {
        match self {
            LogWindow::FiveMin => LogWindow::FifteenMin,
            LogWindow::FifteenMin => LogWindow::OneHour,
            LogWindow::OneHour => LogWindow::FiveMin,
        }
    }
}

/// What a unified-log fetch searches for: the job label in launchd's
/// lifecycle messages and, when known, the process name.
#[derive(Clone, Debug)]
pub struct UnifiedLogQuery {
    pub label: String,
    pub executable: Option<String>,
    pub window: LogWindow,
}

/// What a unified-log fetch brought back for a service.
#[derive(Clone, Debug)]
pub struct UnifiedLogResult {
    pub service_id: String,
    pub query: UnifiedLogQuery,
    pub elapsed_ms: u128,
    pub lines: Vec<String>,
    pub error: Option<String>,
}

/// Characters that may appear in a predicate value: ASCII letters and digits,
/// `.`, `_`, `-` and `+`.
pub open spec fn safe_char(c: char) -> bool {
    ('a' <= c && c <= 'z') || ('A' <= c && c <= 'Z') || ('0' <= c && c <= '9') || c == '.' || c == '_'
        || c == '-' || c == '+'
}

/// Whether a value can go into a `log` predicate unquoted-safe: it is not
/// empty and holds only safe characters.
pub open spec fn predicate_safe(s: Seq<char>) -> bool {
    s.len() > 0 && forall|i: int| 0 <= i < s.len() ==> safe_char(#[trigger] s[i])
}

fn is_safe_char(c: char) -> (r: bool)
    ensures
        r == safe_char(c),
{
    ('a' <= c && c <= 'z') || ('A' <= c && c <= 'Z') || ('0' <= c && c <= '9') || c == '.' || c == '_'
        || c == '-' || c == '+'
}

/// The value itself when it is safe to splice into a predicate, else `None`.
pub fn sanitize(value: &str) -> (r: Option<String>)
    ensures
        predicate_safe(value@) ==> (r matches Some(s) && s@ == value@),
        !predicate_safe(value@) ==> r is None,
{
    let chars = chars_of(value);
    if chars.len() == 0 {
        return None;
    }
    let mut i: usize = 0;
    while i < chars.len()
        invariant
            i <= chars@.len(),
            chars@ == value@,
            forall|k: int| 0 <= k < i ==> safe_char(#[trigger] chars@[k]),
        decreases chars.len() - i,
    {
        if !is_safe_char(chars[i]) {
            return None;
        }
        i = i + 1;
    }
    Some(owned(value))
}

/// The command path of a configuration: `Program`, else the first argument.
pub open spec fn command_path(c: LaunchConfigView) -> Option<Seq<char>> {
    match c.program {
        Some(p) => Some(p),
        None => if c.arguments.len() > 0 {
            Some(c.arguments[0])
        } else {
            None
        },
    }
}

/// The process name a service runs as: the file name of its command path.
pub open spec fn executable_of(c: LaunchConfigView) -> Option<Seq<char>> {
    match command_path(c) {
        Some(p) => path_file_name(p),
        None => None,
    }
}

/// The process name of a service, from `Program` or else the first argument.
pub fn derive_executable(service: &Service) -> (r: Option<String>)
    ensures
        opt_view(r) == executable_of(service.config@),
{
    let path = match &service.config.program {
        Some(p) => p.as_str(),
        None => if service.config.arguments.len() > 0 {
            service.config.arguments[0].as_str()
        } else {
            return None;
        },
    };
    file_name_of(path)
}

/// The query for a service's log lines: its label, which must be safe to use,
/// and its process name when that is safe too.
pub open spec fn query_for(label: Seq<char>, c: LaunchConfigView) -> Option<(Seq<char>, Option<Seq<char>>)> {
    if !predicate_safe(label) {
        None
    } else {
        Some(
            (
                label,
                match executable_of(c) {
                    Some(e) => if predicate_safe(e) {
                        Some(e)
                    } else {
                        None
                    },
                    None => None,
                },
            ),
        )
    }
}

/// The log query for a service, or `None` when its label cannot be used
/// safely in a predicate.
pub fn build_query(service: &Service, window: LogWindow) -> (r: Option<UnifiedLogQuery>)
    ensures
        match query_for(service.label@, service.config@) {
            None => r is None,
            Some((label, exe)) => r matches Some(q) && q.label@ == label && opt_view(q.executable) == exe
                && q.window == window,
        },
{
    let label = match sanitize(service.label.as_str()) {
        Some(l) => l,
        None => {
            return None;
        },
    };
    let executable = match derive_executable(service) {
        Some(name) => sanitize(name.as_str()),
        None => None,
    };
    Some(UnifiedLogQuery { label, executable, window })
}

/// The `log show` predicate of a query: launchd's lifecycle messages about the
/// label, or else lines of the process.
pub open spec fn predicate_text(label: Seq<char>, exe: Option<Seq<char>>) -> Seq<char> {
    let lifecycle = "(processImagePath ENDSWITH \"/launchd\" AND eventMessage CONTAINS \""@ + label
        + "\")"@;
    match exe {
        Some(e) => lifecycle + " OR process == \""@ + e + "\""@,
        None => lifecycle,
    }
}

pub fn build_predicate(query: &UnifiedLogQuery) -> (r: String)
    ensures
        r@ == predicate_text(query.label@, opt_view(query.executable)),
{
    let mut lifecycle = owned("(processImagePath ENDSWITH \"/launchd\" AND eventMessage CONTAINS \"");
    lifecycle.append(query.label.as_str());
    lifecycle.append("\")");
    match &query.executable {
        Some(exec) => {
            lifecycle.append(" OR process == \"");
            lifecycle.append(exec.as_str());
            lifecycle.append("\"");
            lifecycle
        },
        None => lifecycle,
    }
}

/// The arguments of the `log show` call for a query.
pub open spec fn log_show_args(label: Seq<char>, exe: Option<Seq<char>>, window: LogWindow) -> Seq<
    Seq<char>,
> {
    seq![
        "show"@,
        "--last"@,
        window_text(window),
        "--style"@,
        "compact"@,
        "--predicate"@,
        predicate_text(label, exe),
    ]
}

/// The arguments to pass to `/usr/bin/log` for a query.
pub fn log_args(query: &UnifiedLogQuery) -> (r: Vec<String>)
    ensures
        crate::text::string_views(r@) == log_show_args(query.label@, opt_view(query.executable), query.window),
{
    let mut v: Vec<String> = Vec::new();
    v.push(owned("show"));
    v.push(owned("--last"));
    v.push(owned(query.window.arg()));
    v.push(owned("--style"));
    v.push(owned("compact"));
    v.push(owned("--predicate"));
    v.push(build_predicate(query));
    assert(crate::text::string_views(v@) =~= log_show_args(
        query.label@,
        opt_view(query.executable),
        query.window,
    ));
    v
}

/// Whether a line of compact `log show` output is a log line: not empty and
/// not the column header.
pub open spec fn log_line(l: Seq<char>) -> bool {
    l.len() > 0 && !has_prefix(l, "Timestamp"@)
}

/// The log lines among `ls`, in order.
pub open spec fn log_lines(ls: Seq<Seq<char>>) -> Seq<Seq<char>>
    decreases ls.len(),
{
    if ls.len() == 0 {
        seq![]
    } else if log_line(ls.last()) {
        log_lines(ls.drop_last()).push(ls.last())
    } else {
        log_lines(ls.drop_last())
    }
}

/// The last `MAX_LINES` of the log lines of `raw`.
pub open spec fn compact_lines(raw: Seq<char>) -> Seq<Seq<char>> {
    let all = log_lines(lines(raw));
    if all.len() > MAX_LINES {
        all.skip(all.len() - MAX_LINES)
    } else {
        all
    }
}

/// The log lines of compact `log show` output, without the header, keeping
/// the newest `MAX_LINES`.
pub fn parse_compact(raw: &str) -> (r: Vec<String>)
    ensures
        crate::text::string_views(r@) == compact_lines(raw@),
        r@.len() <= MAX_LINES,
{
    let text = chars_of(raw);
    let ls = lines_of(&text);
    let header = chars_of("Timestamp");
    let mut kept: Vec<String> = Vec::new();
    let mut i: usize = 0;
    while i < ls.len()
        invariant
            i <= ls@.len(),
            views(ls@) == lines(raw@),
            text@ == raw@,
            header@ == "Timestamp"@,
            crate::text::string_views(kept@) == log_lines(views(ls@).take(i as int)),
        decreases ls.len() - i,
    {
        proof {
            assert(views(ls@).take(i + 1).drop_last() =~= views(ls@).take(i as int));
            assert(views(ls@).take(i + 1).last() == ls@[i as int]@);
        }
        let l = &ls[i];
        if l.len() > 0 && !has_prefix_exec(l, &header) {
            let ghost before = crate::text::string_views(kept@);
            kept.push(string_of(l));
            assert(crate::text::string_views(kept@) =~= before.push(ls@[i as int]@));
        }
        i = i + 1;
    }
    assert(views(ls@).take(ls@.len() as int) =~= views(ls@));
    let n = kept.len();
    if n > MAX_LINES {
        let mut out: Vec<String> = Vec::new();
        let start = n - MAX_LINES;
        let mut j: usize = start;
        while j < n
            invariant
                start == n - MAX_LINES,
                n == kept@.len(),
                start <= j <= n,
                crate::text::string_views(out@) == crate::text::string_views(kept@).subrange(
                    start as int,
                    j as int,
                ),
            decreases n - j,
        {
            let ghost before = crate::text::string_views(out@);
            out.push(kept[j].clone());
            assert(crate::text::string_views(out@) =~= before.push(kept@[j as int]@));
            assert(crate::text::string_views(kept@).subrange(start as int, j + 1) =~= crate::text::string_views(
                kept@,
            ).subrange(start as int, j as int).push(kept@[j as int]@));
            j = j + 1;
        }
        assert(crate::text::string_views(kept@).subrange(start as int, n as int) =~= crate::text::string_views(
            kept@,
        ).skip(start as int));
        out
    } else {
        kept
    }
}

} // verus!
