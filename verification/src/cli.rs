//! The command line: which mode the arguments ask for, and the rows that
//! `launchdeck list` prints.
use vstd::prelude::*;
use vstd::string::*;
use crate::app::apple_service;
use crate::model::{schedule_text, scope_label, source_text, status_text, Service};
use crate::text::{decimal, decimal_string, owned, str_eq, string_views};

verus! {

/// Whether some argument is `a` or `b`.
pub open spec fn has_flag(args: Seq<Seq<char>>, a: Seq<char>, b: Seq<char>) -> bool {
    exists|i: int| 0 <= i < args.len() && (args[i] == a || args[i] == b)
}

fn any_flag(args: &Vec<String>, a: &str, b: &str) -> (r: bool)
    ensures
        r == has_flag(string_views(args@), a@, b@),
{
    let mut i: usize = 0;
    while i < args.len()
        invariant
            i <= args@.len(),
            forall|k: int| 0 <= k < i ==> !(args@[k]@ == a@ || args@[k]@ == b@),
        decreases args.len() - i,
    {
        if str_eq(args[i].as_str(), a) || str_eq(args[i].as_str(), b) {
            assert(string_views(args@)[i as int] == args@[i as int]@);
            return true;
        }
        i = i + 1;
    }
    proof {
        assert forall|k: int| 0 <= k < args@.len() implies !(string_views(args@)[k] == a@ || string_views(
            args@,
        )[k] == b@) by {
            assert(string_views(args@)[k] == args@[k]@);
        }
    }
    false
}

/// Whether the arguments ask for the usage summary.
pub fn wants_help(args: &Vec<String>) -> (r: bool)
    ensures
        r == has_flag(string_views(args@), "--help"@, "-h"@),
{
    any_flag(args, "--help", "-h")
}

/// Whether `launchdeck list` should include Apple's services.
pub fn shows_all(args: &Vec<String>) -> (r: bool)
    ensures
        r == has_flag(string_views(args@), "--all"@, "-a"@),
{
    any_flag(args, "--all", "-a")
}

/// Whether the arguments ask for the printed inventory: `--list` anywhere, or
/// `list` first.
pub fn is_list_command(args: &Vec<String>) -> (r: bool)
    ensures
        r == (has_flag(string_views(args@), "--list"@, "--list"@) || (args@.len() > 0 && args@[0]@
            == "list"@)),
{
    if any_flag(args, "--list", "--list") {
        return true;
    }
    args.len() > 0 && str_eq(args[0].as_str(), "list")
}

/// The `LOAD` column: whether the job runs at load.
pub open spec fn run_at_load_text(value: Option<bool>) -> Seq<char> {
    match value {
        Some(true) => "yes"@,
        Some(false) => "no"@,
        None => "-"@,
    }
}

pub fn run_at_load_label(value: Option<bool>) -> (r: &'static str)
    ensures
        r@ == run_at_load_text(value),
{
    match value {
        Some(true) => "yes",
        Some(false) => "no",
        None => "-",
    }
}

/// `s` padded with spaces to `width` characters, as `{:<width}` prints it.
pub open spec fn pad(s: Seq<char>, width: nat) -> Seq<char> {
    if s.len() >= width {
        s
    } else {
        s + Seq::new((width - s.len()) as nat, |i: int| ' ')
    }
}

fn pad_into(out: &mut String, s: &str, width: usize)
    ensures
        final(out)@ == old(out)@ + pad(s@, width as nat),
{
    out.append(s);
    let n = crate::text::chars_of(s).len();
    let ghost start = old(out)@ + s@;
    let mut k: usize = n;
    while k < width
        invariant
            n == s@.len(),
            n <= k <= width || (n > width && k == n),
            out@ == start + Seq::new((k - n) as nat, |i: int| ' '),
        decreases width - k,
    {
        crate::text::push_char(out, ' ');
        assert(Seq::new((k + 1 - n) as nat, |i: int| ' ') =~= Seq::new((k - n) as nat, |i: int| ' ').push(' '));
        k = k + 1;
    }
    proof {
        if n >= width {
            assert(Seq::new((k - n) as nat, |i: int| ' ') =~= Seq::<char>::empty());
            assert(out@ =~= old(out)@ + s@);
        } else {
            assert(out@ =~= old(out)@ + (s@ + Seq::new((width - n) as nat, |i: int| ' ')));
        }
    }
}

/// The header line of `launchdeck list`.
pub open spec fn list_header_text() -> Seq<char> {
    pad("STATUS"@, 10) + " "@ + pad("SOURCE"@, 7) + " "@ + pad("SCOPE"@, 13) + " "@ + pad("PID"@, 8) + " "@
        + pad("LOAD"@, 6) + " "@ + pad("SCHEDULE"@, 24) + " NAME"@
}

/// The line of `launchdeck list` for a service.
pub open spec fn list_row_text(s: Service) -> Seq<char> {
    pad(status_text(s.status), 10) + " "@ + pad(source_text(s.source), 7) + " "@ + pad(
        scope_label(s.scope),
        13,
    ) + " "@ + pad(
        match s.pid {
            Some(p) => decimal(p as nat),
            None => "-"@,
        },
        8,
    ) + " "@ + pad(run_at_load_text(s.config.run_at_load), 6) + " "@ + pad(schedule_text(s.config@), 24) + " "@
        + s.display_name@
}

pub fn list_header() -> (r: String)
    ensures
        r@ == list_header_text(),
{
    let mut out = String::new();
    pad_into(&mut out, "STATUS", 10);
    out.append(" ");
    pad_into(&mut out, "SOURCE", 7);
    out.append(" ");
    pad_into(&mut out, "SCOPE", 13);
    out.append(" ");
    pad_into(&mut out, "PID", 8);
    out.append(" ");
    pad_into(&mut out, "LOAD", 6);
    out.append(" ");
    pad_into(&mut out, "SCHEDULE", 24);
    out.append(" NAME");
    out
}

pub fn list_row(service: &Service) -> (r: String)
    ensures
        r@ == list_row_text(*service),
{
    let mut out = String::new();
    let status = service.status.to_text();
    pad_into(&mut out, status.as_str(), 10);
    out.append(" ");
    let source = service.source.to_text();
    pad_into(&mut out, source.as_str(), 7);
    out.append(" ");
    pad_into(&mut out, service.scope.label(), 13);
    out.append(" ");
    let pid = match service.pid {
        Some(p) => decimal_string(p as u64),
        None => owned("-"),
    };
    pad_into(&mut out, pid.as_str(), 8);
    out.append(" ");
    pad_into(&mut out, run_at_load_label(service.config.run_at_load), 6);
    out.append(" ");
    let schedule = service.config.schedule_summary();
    pad_into(&mut out, schedule.as_str(), 24);
    out.append(" ");
    out.append(service.display_name.as_str());
    out
}

/// The services `launchdeck list` prints, in inventory order: all of them,
/// or all but Apple's.
pub open spec fn list_rows(services: Seq<Service>, show_apple: bool) -> Seq<Seq<char>>
    decreases services.len(),
{
    if services.len() == 0 {
        seq![]
    } else {
        let prev = list_rows(services.drop_last(), show_apple);
        let s = services.last();
        if !show_apple && apple_service(s) {
            prev
        } else {
            prev.push(list_row_text(s))
        }
    }
}

/// The lines `launchdeck list` prints for these services, header first.
pub fn list_lines(services: &Vec<Service>, show_apple: bool) -> (r: Vec<String>)
    ensures
        string_views(r@) == seq![list_header_text()] + list_rows(services@, show_apple),
{
    let mut out: Vec<String> = Vec::new();
    out.push(list_header());
    let mut i: usize = 0;
    while i < services.len()
        invariant
            i <= services@.len(),
            string_views(out@) == seq![list_header_text()] + list_rows(services@.take(i as int), show_apple),
        decreases services.len() - i,
    {
        proof {
            assert(services@.take(i + 1).drop_last() =~= services@.take(i as int));
            assert(services@.take(i + 1).last() == services@[i as int]);
        }
        if show_apple || !crate::app::is_apple_service(&services[i]) {
            let ghost before = string_views(out@);
            out.push(list_row(&services[i]));
            assert(string_views(out@) =~= before.push(list_row_text(services@[i as int])));
        }
        i = i + 1;
    }
    assert(services@.take(services@.len() as int) =~= services@);
    out
}

} // verus!
