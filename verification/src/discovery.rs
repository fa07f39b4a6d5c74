//! Service discovery logic: parsing `launchctl` output, deriving statuses,
//! classifying provenance and health, and merging launchd jobs with Homebrew
//! services. Running the commands and reading files is left to the caller,
//! which hands over their results.
use vstd::prelude::*;
use vstd::string::*;
use crate::table::{ids_ascending, lemma_rows_map_at, rows, rows_map, ServiceTable};
use crate::model::{
    opt_copy, opt_view, CalendarSchedule, Inventory, Confidence, ElevationNeeds, LaunchConfig,
    LaunchConfigView, Origin, OriginView, Provenance, SafetyLevel, Service, ServiceScope,
    ServiceSource, ServiceStatus, ServiceView, empty_config, gui_domain, scope_domain,
};
use crate::paths::{
    extension_of, path_extension, file_stem_of, home_dir, join_path, join_relative, parent_of, path_file_stem, path_has_base,
    path_parent, path_starts_with,
};
use crate::text::{
    lex_lt, chars_of, concat2, concat3, decimal, contains_exec, contains_text, has_suffix, owned, slice_of, string_views, has_prefix, has_prefix_exec, join, lines, lines_of, parse_i32_chars,
    parse_i32_text, parse_u32_chars, parse_u32_text, seq_eq, split_once, split_once_exec,
    str_eq, string_of, trim, trim_char, trim_char_exec, trim_chars, views, words, words_of,
};

verus! {

/// What `launchctl print` reports for one loaded job.
#[derive(Clone, Copy, Debug, PartialEq, Eq, Structural)]
pub struct RuntimeState {
    pub pid: Option<u32>,
    pub exit_code: Option<i32>,
    pub loaded: bool,
}

/// Whether a configuration asks launchd to start the job on a schedule.
pub open spec fn scheduled(c: LaunchConfigView) -> bool {
    c.start_interval is Some || c.start_calendar_intervals.len() > 0
}

/// The status of a loaded job: running with a PID, failed after a non-zero exit,
/// scheduled when it will wake up later, stopped otherwise.
pub open spec fn runtime_status(state: RuntimeState, c: LaunchConfigView) -> ServiceStatus {
    if state.pid is Some {
        ServiceStatus::Running
    } else if state.exit_code matches Some(code) && code != 0 {
        ServiceStatus::Failed
    } else if scheduled(c) {
        ServiceStatus::Scheduled
    } else {
        ServiceStatus::Stopped
    }
}

pub fn has_schedule(config: &LaunchConfig) -> (r: bool)
    ensures
        r == scheduled(config@),
{
    config.start_interval.is_some() || config.start_calendar_intervals.len() > 0
}

pub fn status_from_state(state: &RuntimeState, config: &LaunchConfig) -> (r: ServiceStatus)
    ensures
        r == runtime_status(*state, config@),
{
    if state.pid.is_some() {
        ServiceStatus::Running
    } else if match state.exit_code {
        Some(code) => code != 0,
        None => false,
    } {
        ServiceStatus::Failed
    } else if has_schedule(config) {
        ServiceStatus::Scheduled
    } else {
        ServiceStatus::Stopped
    }
}

/// The status that `brew services` reports, in the service model.
pub open spec fn brew_status(status: Seq<char>, exit_code: Option<i32>) -> ServiceStatus {
    if status == "started"@ {
        ServiceStatus::Running
    } else if status == "stopped"@ {
        ServiceStatus::Stopped
    } else if status == "error"@ {
        ServiceStatus::Failed
    } else if status == "none"@ {
        ServiceStatus::Unloaded
    } else if exit_code matches Some(code) && code != 0 {
        ServiceStatus::Failed
    } else {
        ServiceStatus::Unknown
    }
}

pub fn status_from_brew(status: &str, exit_code: Option<i32>) -> (r: ServiceStatus)
    ensures
        r == brew_status(status@, exit_code),
{
    if str_eq(status, "started") {
        ServiceStatus::Running
    } else if str_eq(status, "stopped") {
        ServiceStatus::Stopped
    } else if str_eq(status, "error") {
        ServiceStatus::Failed
    } else if str_eq(status, "none") {
        ServiceStatus::Unloaded
    } else if match exit_code {
        Some(code) => code != 0,
        None => false,
    } {
        ServiceStatus::Failed
    } else {
        ServiceStatus::Unknown
    }
}

// ---------------------------------------------------------------------------
// Sets of ids
// ---------------------------------------------------------------------------

/// A set of service ids.
#[derive(Clone, Debug)]
pub struct TextSet {
    items: Vec<String>,
}

impl View for TextSet {
    type V = Set<Seq<char>>;

    closed spec fn view(&self) -> Set<Seq<char>> {
        Set::new(|k: Seq<char>| exists|i: int| 0 <= i < self.items@.len() && self.items@[i]@ == k)
    }
}

impl TextSet {
    pub fn new() -> (r: Self)
        ensures
            r@ == Set::<Seq<char>>::empty(),
    {
        let r = TextSet { items: Vec::new() };
        assert(r@ =~= Set::<Seq<char>>::empty());
        r
    }

    pub fn insert(&mut self, item: String)
        ensures
            final(self)@ == old(self)@.insert(item@),
    {
        let ghost before = self.items@;
        self.items.push(item);
        assert forall|k: Seq<char>| #[trigger] old(self)@.insert(item@).contains(k) implies final(self)@.contains(k) by {
            if k == item@ {
                assert(self.items@[before.len() as int]@ == k);
            } else {
                let i = choose|i: int| 0 <= i < before.len() && before[i]@ == k;
                assert(self.items@[i]@ == k);
            }
        }
        assert forall|k: Seq<char>| #[trigger] final(self)@.contains(k) implies old(self)@.insert(item@).contains(k) by {
            let i = choose|i: int| 0 <= i < self.items@.len() && self.items@[i]@ == k;
            if i < before.len() {
                assert(before[i]@ == k);
            }
        }
        assert(final(self)@ =~= old(self)@.insert(item@));
    }

    /// The members, each once per insertion.
    pub fn to_vec(&self) -> (r: Vec<String>)
        ensures
            forall|k: Seq<char>| self@.contains(k) <==> exists|i: int| 0 <= i < r@.len() && #[trigger] r@[i]@ == k,
    {
        let r = self.items.clone();
        assert forall|k: Seq<char>| self@.contains(k) <==> exists|i: int| 0 <= i < r@.len() && #[trigger] r@[i]@ == k by {
            if self@.contains(k) {
                let i = choose|i: int| 0 <= i < self.items@.len() && self.items@[i]@ == k;
                assert(r@[i]@ == k);
            }
            if exists|i: int| 0 <= i < r@.len() && #[trigger] r@[i]@ == k {
                let i = choose|i: int| 0 <= i < r@.len() && #[trigger] r@[i]@ == k;
                assert(self.items@[i]@ == k);
            }
        }
        r
    }

    pub fn contains(&self, item: &str) -> (r: bool)
        ensures
            r == self@.contains(item@),
    {
        let mut i: usize = 0;
        while i < self.items.len()
            invariant
                i <= self.items.len(),
                forall|k: int| 0 <= k < i ==> self.items@[k]@ != item@,
            decreases self.items.len() - i,
        {
            if str_eq(self.items[i].as_str(), item) {
                return true;
            }
            i = i + 1;
        }
        false
    }
}

// ---------------------------------------------------------------------------
// launchctl print-disabled
// ---------------------------------------------------------------------------

/// The id that one line of `launchctl print-disabled <domain>` marks disabled:
/// `"<label>" => disabled` (or `=> true` on older macOS) gives `<domain>:<label>`.
pub open spec fn disabled_id(domain: Seq<char>, line: Seq<char>) -> Option<Seq<char>> {
    match split_once(trim(line), "=>"@) {
        None => None,
        Some((label, state)) => if trim(state) == "true"@ || trim(state) == "disabled"@ {
            Some(domain + ":"@ + trim_char(trim(label), '"'))
        } else {
            None
        },
    }
}

/// The ids that these lines mark disabled, added to `set`.
pub open spec fn disabled_fold(domain: Seq<char>, ls: Seq<Seq<char>>, set: Set<Seq<char>>) -> Set<
    Seq<char>,
>
    decreases ls.len(),
{
    if ls.len() == 0 {
        set
    } else {
        disabled_fold(
            domain,
            ls.drop_first(),
            match disabled_id(domain, ls[0]) {
                Some(id) => set.insert(id),
                None => set,
            },
        )
    }
}

fn disabled_id_exec(domain: &str, line: &Vec<char>) -> (r: Option<String>)
    ensures
        match disabled_id(domain@, line@) {
            Some(id) => r matches Some(s) && s@ == id,
            None => r is None,
        },
{
    let t = trim_chars(line);
    let arrow = chars_of("=>");
    match split_once_exec(&t, &arrow) {
        None => None,
        Some((label, state)) => {
            let st = trim_chars(&state);
            let yes = chars_of("true");
            let off = chars_of("disabled");
            if seq_eq(&st, &yes) || seq_eq(&st, &off) {
                let l = trim_chars(&label);
                let l = trim_char_exec(l, '"');
                let l = string_of(&l);
                Some(concat3(domain, ":", l.as_str()))
            } else {
                None
            }
        },
    }
}

/// Adds to `disabled` the ids that `launchctl print-disabled <domain>` output
/// marks disabled. macOS 12 and earlier print `=> true`/`=> false`, later
/// releases `=> disabled`/`=> enabled`.
pub fn parse_disabled(domain: &str, text: &str, disabled: &mut TextSet)
    ensures
        final(disabled)@ == disabled_fold(domain@, lines(text@), old(disabled)@),
{
    let chars = chars_of(text);
    let ls = lines_of(&chars);
    let ghost all = views(ls@);
    let mut i: usize = 0;
    assert(all.skip(0) =~= all);
    while i < ls.len()
        invariant
            i <= ls.len(),
            all == views(ls@),
            all == lines(text@),
            disabled_fold(domain@, all.skip(i as int), disabled@) == disabled_fold(
                domain@,
                all,
                old(disabled)@,
            ),
        decreases ls.len() - i,
    {
        assert(all.skip(i as int)[0] == ls@[i as int]@);
        assert(all.skip(i as int).drop_first() =~= all.skip(i + 1));
        match disabled_id_exec(domain, &ls[i]) {
            Some(id) => disabled.insert(id),
            None => {},
        }
        i = i + 1;
    }
    assert(all.skip(i as int) =~= seq![]);
}

// ---------------------------------------------------------------------------
// launchctl print
// ---------------------------------------------------------------------------

/// The jobs found while reading `launchctl print <domain>`, keyed by
/// `<domain>:<label>`; a later line about the same job replaces an earlier one.
#[derive(Clone, Debug)]
pub struct RuntimeTable {
    entries: Vec<(String, RuntimeState)>,
}

/// The keys of a list of entries are pairwise distinct.
pub open spec fn keys_unique(s: Seq<(String, RuntimeState)>) -> bool {
    forall|i: int, j: int| 0 <= i < s.len() && 0 <= j < s.len() && i != j ==> s[i].0@ != s[j].0@
}

/// The entry list read as a map.
pub open spec fn entries_map(s: Seq<(String, RuntimeState)>) -> Map<Seq<char>, RuntimeState> {
    Map::new(
        |k: Seq<char>| exists|i: int| 0 <= i < s.len() && s[i].0@ == k,
        |k: Seq<char>| s[choose|i: int| 0 <= i < s.len() && s[i].0@ == k].1,
    )
}

impl View for RuntimeTable {
    type V = Map<Seq<char>, RuntimeState>;

    closed spec fn view(&self) -> Map<Seq<char>, RuntimeState> {
        entries_map(self.entries@)
    }
}

impl RuntimeTable {
    /// The table's internal consistency: each key occurs once.
    pub closed spec fn wf(&self) -> bool {
        keys_unique(self.entries@)
    }

    pub fn new() -> (r: Self)
        ensures
            r.wf(),
            r@ == Map::<Seq<char>, RuntimeState>::empty(),
    {
        let r = RuntimeTable { entries: Vec::new() };
        assert(r@ =~= Map::<Seq<char>, RuntimeState>::empty());
        r
    }

    /// The keys in the order they were first seen.
    pub closed spec fn keys(&self) -> Seq<Seq<char>> {
        self.entries@.map_values(|e: (String, RuntimeState)| e.0@)
    }

    /// Each key is listed once, and the listed keys are the map's keys.
    pub proof fn lemma_keys(&self)
        requires
            self.wf(),
        ensures
            self.keys().no_duplicates(),
            forall|k: Seq<char>| #[trigger] self@.contains_key(k) <==> self.keys().contains(k),
    {
        let s = self.entries@;
        let keys = self.keys();
        assert forall|k: Seq<char>| #[trigger] self@.contains_key(k) <==> keys.contains(k) by {
            if self@.contains_key(k) {
                let i = choose|i: int| 0 <= i < s.len() && s[i].0@ == k;
                assert(keys[i] == k);
            }
            if keys.contains(k) {
                let i = choose|i: int| 0 <= i < keys.len() && keys[i] == k;
                assert(s[i].0@ == k);
            }
        }
    }

    /// The number of jobs.
    pub fn len(&self) -> (r: usize)
        requires
            self.wf(),
        ensures
            r == self@.len(),
            r == self.keys().len(),
    {
        proof {
            self.lemma_len();
        }
        self.entries.len()
    }

    proof fn lemma_len(&self)
        requires
            self.wf(),
        ensures
            self@.len() == self.entries@.len(),
            self@.dom().finite(),
        decreases self.entries@.len(),
    {
        let s = self.entries@;
        let keys = s.map_values(|e: (String, RuntimeState)| e.0@);
        assert(keys.no_duplicates()) by {
            assert forall|i: int, j: int| 0 <= i < keys.len() && 0 <= j < keys.len() && i != j implies keys[i] != keys[j] by {}
        }
        assert(self@.dom() =~= keys.to_set()) by {
            assert forall|k: Seq<char>| #[trigger] self@.dom().contains(k) implies keys.to_set().contains(k) by {
                let i = choose|i: int| 0 <= i < s.len() && s[i].0@ == k;
                assert(keys[i] == k);
            }
            assert forall|k: Seq<char>| #[trigger] keys.to_set().contains(k) implies self@.dom().contains(k) by {
                let i = choose|i: int| 0 <= i < keys.len() && keys[i] == k;
                assert(s[i].0@ == k);
            }
        }
        keys.unique_seq_to_set();
    }

    /// The key and state of the `i`-th job.
    pub fn entry(&self, i: usize) -> (r: (&String, RuntimeState))
        requires
            self.wf(),
            i < self.keys().len(),
        ensures
            r.0@ == self.keys()[i as int],
            self@.contains_key(r.0@),
            self@[r.0@] == r.1,
    {
        proof {
            self.lemma_len();
        }
        let e = &self.entries[i];
        proof {
            let s = self.entries@;
            let k = s[i as int].0@;
            assert(self@.dom().contains(k));
            let j = choose|j: int| 0 <= j < s.len() && s[j].0@ == k;
            assert(j == i);
        }
        (&e.0, e.1)
    }

    /// Records `state` for `id`, replacing what was known of it.
    pub fn insert(&mut self, id: String, state: RuntimeState)
        requires
            old(self).wf(),
        ensures
            final(self).wf(),
            final(self)@ == old(self)@.insert(id@, state),
    {
        let ghost before = self.entries@;
        let mut i: usize = 0;
        while i < self.entries.len()
            invariant
                i <= self.entries.len(),
                self.entries@ == before,
                old(self).entries@ == before,
                keys_unique(before),
                forall|k: int| 0 <= k < i ==> before[k].0@ != id@,
            decreases self.entries.len() - i,
        {
            if str_eq(self.entries[i].0.as_str(), id.as_str()) {
                let ghost idv = id@;
                let ghost st = state;
                assert(before[i as int].0@ == idv);
                self.entries.set(i, (id, state));
                proof {
                    let s = self.entries@;
                    assert(s.len() == before.len());
                    assert(s[i as int].0@ == idv);
                    assert forall|j: int| 0 <= j < s.len() && j != i implies s[j] == before[j] by {}
                    assert(keys_unique(s));
                    assert forall|k: Seq<char>| #[trigger] self@.dom().contains(k) == old(self)@.insert(idv, state).dom().contains(k) by {
                        if k == idv {
                            assert(s[i as int].0@ == k);
                            assert(before[i as int].0@ == k);
                        } else if self@.dom().contains(k) {
                            let j = choose|j: int| 0 <= j < s.len() && s[j].0@ == k;
                            assert(before[j].0@ == k);
                        } else if old(self)@.dom().contains(k) {
                            assert(old(self).entries@ == before);
                            let j = choose|j: int| 0 <= j < before.len() && before[j].0@ == k;
                            assert(0 <= j < before.len() && before[j].0@ == k);
                            assert(j != i);
                            assert(s[j] == before[j]);
                            assert(s[j].0@ == k);
                        }
                    }
                    assert forall|k: Seq<char>| #[trigger] self@.dom().contains(k) implies self@[k] == old(self)@.insert(idv, state)[k] by {
                        let j = choose|j: int| 0 <= j < s.len() && s[j].0@ == k;
                        if k == idv {
                            assert(j == i);
                        } else {
                            let j2 = choose|j2: int| 0 <= j2 < before.len() && before[j2].0@ == k;
                            assert(j == j2);
                        }
                    }
                    assert(self@ =~= old(self)@.insert(idv, state));
                }
                return;
            }
            i = i + 1;
        }
        self.entries.push((id, state));
        proof {
            let s = self.entries@;
            let n = before.len() as int;
            assert(keys_unique(s));
            assert forall|k: Seq<char>| #[trigger] self@.dom().contains(k) == old(self)@.insert(id@, state).dom().contains(k) by {
                if k == id@ {
                    assert(s[n].0@ == k);
                } else if self@.dom().contains(k) {
                    let j = choose|j: int| 0 <= j < s.len() && s[j].0@ == k;
                    assert(before[j].0@ == k);
                } else if old(self)@.dom().contains(k) {
                    let j = choose|j: int| 0 <= j < before.len() && before[j].0@ == k;
                    assert(s[j].0@ == k);
                }
            }
            assert forall|k: Seq<char>| #[trigger] self@.dom().contains(k) implies self@[k] == old(self)@.insert(id@, state)[k] by {
                let j = choose|j: int| 0 <= j < s.len() && s[j].0@ == k;
                if k == id@ {
                    assert(j == n);
                } else {
                    let j2 = choose|j2: int| 0 <= j2 < before.len() && before[j2].0@ == k;
                    assert(j == j2);
                }
            }
            assert(self@ =~= old(self)@.insert(id@, state));
        }
    }
}

/// How one line of `launchctl print <domain>` changes the reading state and
/// which job it reports. Jobs are listed inside `services = { ... }` as
/// `<pid> <last exit> <label>`; XPC bundles and app-scoped jobs are skipped.
pub open spec fn launchctl_step(domain: Seq<char>, line: Seq<char>, in_services: bool) -> (
    bool,
    Option<(Seq<char>, RuntimeState)>,
) {
    let t = trim(line);
    if t == "services = {"@ {
        (true, None)
    } else if in_services && t == "}"@ {
        (false, None)
    } else if !in_services || t.len() == 0 {
        (in_services, None)
    } else {
        let parts = words(t);
        if parts.len() < 3 {
            (true, None)
        } else {
            let label = join(parts.skip(2), " "@);
            if has_prefix(label, "com.apple.xpc."@) || has_prefix(label, "application."@)
                || has_prefix(label, "UIKitApplication:"@) {
                (true, None)
            } else {
                (
                    true,
                    Some(
                        (
                            domain + ":"@ + label,
                            RuntimeState {
                                pid: match parse_u32_text(parts[0]) {
                                    Some(p) => if p > 0 {
                                        Some(p)
                                    } else {
                                        None
                                    },
                                    None => None,
                                },
                                exit_code: parse_i32_text(parts[1]),
                                loaded: true,
                            },
                        ),
                    ),
                )
            }
        }
    }
}

/// The jobs these lines report, recorded in `m`.
pub open spec fn launchctl_fold(
    domain: Seq<char>,
    ls: Seq<Seq<char>>,
    in_services: bool,
    m: Map<Seq<char>, RuntimeState>,
) -> Map<Seq<char>, RuntimeState>
    decreases ls.len(),
{
    if ls.len() == 0 {
        m
    } else {
        let (next, found) = launchctl_step(domain, ls[0], in_services);
        launchctl_fold(
            domain,
            ls.drop_first(),
            next,
            match found {
                Some((k, v)) => m.insert(k, v),
                None => m,
            },
        )
    }
}

fn join_words_from(parts: &Vec<Vec<char>>, from: usize) -> (r: Vec<char>)
    requires
        from <= parts.len(),
    ensures
        r@ == join(views(parts@).skip(from as int), " "@),
{
    let ghost all = views(parts@).skip(from as int);
    let mut r: Vec<char> = Vec::new();
    let mut i: usize = from;
    proof {
        reveal_strlit(" ");
        assert(all.take(0) =~= seq![]);
        assert(r@ =~= join(all.take(0), " "@));
    }
    while i < parts.len()
        invariant
            from <= i <= parts.len(),
            all == views(parts@).skip(from as int),
            r@ == join(all.take(i - from), " "@),
        decreases parts.len() - i,
    {
        let ghost before = r@;
        if i > from {
            r.push(' ');
        }
        let mut k: usize = 0;
        let ghost mid = r@;
        while k < parts[i].len()
            invariant
                i < parts.len(),
                k <= parts@[i as int]@.len(),
                r@ == mid + parts@[i as int]@.take(k as int),
            decreases parts@[i as int]@.len() - k,
        {
            r.push(parts[i][k]);
            k = k + 1;
            assert(r@ =~= mid + parts@[i as int]@.take(k as int));
        }
        assert(parts@[i as int]@.take(k as int) =~= parts@[i as int]@);
        let n = i - from;
        assert(all.take(n + 1).drop_last() =~= all.take(n as int));
        assert(all.take(n + 1).last() == parts@[i as int]@);
        if i > from {
            proof {
                reveal_strlit(" ");
            }
            assert(" "@ =~= seq![' ']);
            assert(mid =~= before + " "@);
        } else {
            assert(before =~= seq![]);
            assert(r@ =~= all.take(1)[0]);
        }
        i = i + 1;
    }
    assert(all.take(i - from) =~= all);
    r
}

/// Whether a job label belongs to XPC bundles or app-scoped jobs, which the
/// inventory skips.
fn skipped_label(label: &Vec<char>) -> (r: bool)
    ensures
        r == (has_prefix(label@, "com.apple.xpc."@) || has_prefix(label@, "application."@)
            || has_prefix(label@, "UIKitApplication:"@)),
{
    has_prefix_exec(label, &chars_of("com.apple.xpc.")) || has_prefix_exec(
        label,
        &chars_of("application."),
    ) || has_prefix_exec(label, &chars_of("UIKitApplication:"))
}

/// Records in `runtime` the jobs that `launchctl print <domain>` output lists.
pub fn parse_launchctl_print(domain: &str, text: &str, runtime: &mut RuntimeTable)
    requires
        old(runtime).wf(),
    ensures
        final(runtime).wf(),
        final(runtime)@ == launchctl_fold(domain@, lines(text@), false, old(runtime)@),
{
    let chars = chars_of(text);
    let ls = lines_of(&chars);
    let ghost all = views(ls@);
    let services_open = chars_of("services = {");
    let close = chars_of("}");
    let mut in_services = false;
    let mut i: usize = 0;
    assert(all.skip(0) =~= all);
    while i < ls.len()
        invariant
            i <= ls.len(),
            all == views(ls@),
            all == lines(text@),
            services_open@ == "services = {"@,
            close@ == "}"@,
            runtime.wf(),
            launchctl_fold(domain@, all.skip(i as int), in_services, runtime@) == launchctl_fold(
                domain@,
                all,
                false,
                old(runtime)@,
            ),
        decreases ls.len() - i,
    {
        let ghost rest = all.skip(i as int);
        assert(rest[0] == ls@[i as int]@);
        assert(rest.drop_first() =~= all.skip(i + 1));
        let ghost step = launchctl_step(domain@, ls@[i as int]@, in_services);
        let t = trim_chars(&ls[i]);
        if seq_eq(&t, &services_open) {
            in_services = true;
        } else if in_services && seq_eq(&t, &close) {
            in_services = false;
        } else if !in_services || t.len() == 0 {
        } else {
            let parts = words_of(&t);
            if parts.len() >= 3 {
                let label = join_words_from(&parts, 2);
                if !skipped_label(&label) {
                    let pid = match parse_u32_chars(&parts[0]) {
                        Some(p) => if p > 0 {
                            Some(p)
                        } else {
                            None
                        },
                        None => None,
                    };
                    let exit_code = parse_i32_chars(&parts[1]);
                    let label_text = string_of(&label);
                    let id = concat3(domain, ":", label_text.as_str());
                    let state = RuntimeState { pid, exit_code, loaded: true };
                    assert(step.1 == Some((id@, state)));
                    runtime.insert(id, state);
                }
            }
        }
        i = i + 1;
    }
    assert(all.skip(i as int) =~= seq![]);
}


// ---------------------------------------------------------------------------
// Provenance
// ---------------------------------------------------------------------------

/// The command a provenance guess looks at: `Program`, else the first argument.
pub open spec fn origin_command(c: LaunchConfigView) -> Seq<char> {
    match c.program {
        Some(p) => p,
        None => if c.arguments.len() > 0 {
            c.arguments[0]
        } else {
            seq![]
        },
    }
}

/// A plist path as text, empty when there is none.
pub open spec fn path_text(p: Option<Seq<char>>) -> Seq<char> {
    match p {
        Some(p) => p,
        None => seq![],
    }
}

/// Whether a command lives inside an app bundle or a vendor support directory.
pub open spec fn vendor_command(command: Seq<char>) -> bool {
    contains_text(command, ".app/Contents/"@) || contains_text(
        command,
        "/Library/Application Support/"@,
    ) || contains_text(command, "/Library/PrivilegedHelperTools/"@)
}

/// A guess with one piece of evidence.
pub open spec fn guess(kind: Provenance, confidence: Confidence, evidence: Seq<char>) -> OriginView {
    OriginView { kind, confidence, evidence: seq![evidence] }
}

/// Who installed a job, from signals already in memory, given the user's home
/// directory. The order is the design: a nix-darwin daemon lives in
/// `/Library/LaunchDaemons` like any vendor helper, so a `/nix/store` command
/// wins over the directory it sits in.
pub open spec fn origin_of(v: ServiceView, home: Option<Seq<char>>) -> OriginView {
    let plist = path_text(v.plist_path);
    let command = origin_command(v.config);
    if v.brew_formula is Some {
        guess(
            Provenance::Homebrew,
            Confidence::High,
            "brew services knows formula `"@ + v.brew_formula->0 + "`"@,
        )
    } else if has_prefix(v.label, "homebrew.mxcl."@) {
        guess(Provenance::Homebrew, Confidence::High, "label uses the homebrew.mxcl. prefix"@)
    } else if contains_text(plist, "/Cellar/"@) || contains_text(command, "/Cellar/"@) {
        guess(Provenance::Homebrew, Confidence::Medium, "path points into the Homebrew Cellar"@)
    } else if contains_text(command, "/nix/store/"@) {
        guess(Provenance::Nix, Confidence::High, "command resolves into /nix/store"@)
    } else if contains_text(command, "/mise"@) || contains_text(v.label, "mise"@) {
        guess(Provenance::Mise, Confidence::Medium, "command or label references mise"@)
    } else if has_prefix(plist, "/System/Library"@) {
        guess(Provenance::System, Confidence::High, "plist lives under /System/Library"@)
    } else if has_prefix(v.label, "com.apple."@) {
        guess(Provenance::System, Confidence::High, "label uses the com.apple. prefix"@)
    } else if v.plist_path is None {
        guess(Provenance::RuntimeOnly, Confidence::High, "loaded in launchd with no plist on disk"@)
    } else if vendor_command(command) {
        guess(Provenance::VendorApp, Confidence::Medium, "command lives inside an app bundle"@)
    } else if home is Some && has_prefix(plist, join_path(home->0, "Library/LaunchAgents"@)) {
        guess(Provenance::UserPlist, Confidence::High, "plist lives in ~/Library/LaunchAgents"@)
    } else if has_prefix(plist, "/Library/Launch"@) {
        guess(Provenance::VendorApp, Confidence::Guess, "machine-wide plist, no installer signature"@)
    } else {
        OriginView { kind: Provenance::Unknown, confidence: Confidence::Guess, evidence: seq![] }
    }
}

/// Whether a command lives inside an app bundle or a vendor support directory.
pub fn looks_like_vendor_command(command: &Vec<char>) -> (r: bool)
    ensures
        r == vendor_command(command@),
{
    contains_exec(command, &chars_of(".app/Contents/")) || contains_exec(
        command,
        &chars_of("/Library/Application Support/"),
    ) || contains_exec(command, &chars_of("/Library/PrivilegedHelperTools/"))
}

fn origin(kind: Provenance, confidence: Confidence, evidence: String) -> (r: Origin)
    ensures
        r@ == guess(kind, confidence, evidence@),
{
    let r = Origin { kind, confidence, evidence: vec![evidence] };
    assert(r@.evidence =~= seq![evidence@]);
    r
}

/// Who installed the job, given the user's home directory.
pub fn classify_origin_with(service: &Service, home: Option<&str>) -> (r: Origin)
    ensures
        r@ == origin_of(
            service@,
            match home {
                Some(h) => Some(h@),
                None => None,
            },
        ),
{
    let plist = match &service.plist_path {
        Some(p) => chars_of(p.as_str()),
        None => Vec::new(),
    };
    assert(plist@ == path_text(service@.plist_path));
    let command = match &service.config.program {
        Some(p) => chars_of(p.as_str()),
        None => if service.config.arguments.len() > 0 {
            chars_of(service.config.arguments[0].as_str())
        } else {
            Vec::new()
        },
    };
    assert(command@ == origin_command(service@.config));
    let label = chars_of(service.label.as_str());
    if let Some(formula) = &service.brew_formula {
        let evidence = concat3("brew services knows formula `", formula.as_str(), "`");
        return origin(Provenance::Homebrew, Confidence::High, evidence);
    }
    if has_prefix_exec(&label, &chars_of("homebrew.mxcl.")) {
        return origin(
            Provenance::Homebrew,
            Confidence::High,
            owned("label uses the homebrew.mxcl. prefix"),
        );
    }
    let cellar = chars_of("/Cellar/");
    if contains_exec(&plist, &cellar) || contains_exec(&command, &cellar) {
        return origin(
            Provenance::Homebrew,
            Confidence::Medium,
            owned("path points into the Homebrew Cellar"),
        );
    }
    if contains_exec(&command, &chars_of("/nix/store/")) {
        return origin(Provenance::Nix, Confidence::High, owned("command resolves into /nix/store"));
    }
    if contains_exec(&command, &chars_of("/mise")) || contains_exec(&label, &chars_of("mise")) {
        return origin(
            Provenance::Mise,
            Confidence::Medium,
            owned("command or label references mise"),
        );
    }
    if has_prefix_exec(&plist, &chars_of("/System/Library")) {
        return origin(
            Provenance::System,
            Confidence::High,
            owned("plist lives under /System/Library"),
        );
    }
    if has_prefix_exec(&label, &chars_of("com.apple.")) {
        return origin(
            Provenance::System,
            Confidence::High,
            owned("label uses the com.apple. prefix"),
        );
    }
    if service.plist_path.is_none() {
        return origin(
            Provenance::RuntimeOnly,
            Confidence::High,
            owned("loaded in launchd with no plist on disk"),
        );
    }
    if looks_like_vendor_command(&command) {
        return origin(
            Provenance::VendorApp,
            Confidence::Medium,
            owned("command lives inside an app bundle"),
        );
    }
    if let Some(h) = home {
        let agents = join_relative(h, "Library/LaunchAgents");
        if has_prefix_exec(&plist, &chars_of(agents.as_str())) {
            return origin(
                Provenance::UserPlist,
                Confidence::High,
                owned("plist lives in ~/Library/LaunchAgents"),
            );
        }
    }
    if has_prefix_exec(&plist, &chars_of("/Library/Launch")) {
        return origin(
            Provenance::VendorApp,
            Confidence::Guess,
            owned("machine-wide plist, no installer signature"),
        );
    }
    let r = Origin::unknown();
    assert(r@.evidence =~= seq![]);
    r
}

/// Who installed the job. The home directory comes from the environment, so the
/// result is the classification for whatever home directory was found.
pub fn classify_origin(service: &Service) -> (r: Origin)
    ensures
        exists|home: Option<Seq<char>>| r@ == origin_of(service@, home),
{
    let home = home_dir();
    match home {
        Some(h) => classify_origin_with(service, Some(h.as_str())),
        None => classify_origin_with(service, None),
    }
}

// ---------------------------------------------------------------------------
// Health
// ---------------------------------------------------------------------------

/// `h` with `w` appended unless it is already there.
pub open spec fn push_unique(h: Seq<Seq<char>>, w: Seq<char>) -> Seq<Seq<char>> {
    if h.contains(w) {
        h
    } else {
        h.push(w)
    }
}

/// The executable a health check looks for: the first argument, else `Program`.
pub open spec fn probed_program(c: LaunchConfigView) -> Option<Seq<char>> {
    if c.arguments.len() > 0 {
        Some(c.arguments[0])
    } else {
        c.program
    }
}

/// The health warnings of a service once discovery is done, given whether its
/// plist and its executable exist on disk.
pub open spec fn finished_health(v: ServiceView, plist_exists: bool, program_exists: bool) -> Seq<
    Seq<char>,
> {
    match v.plist_path {
        None => push_unique(v.health, "no source plist discovered for loaded service"@),
        Some(path) => {
            let h1 = if v.config.program is None && v.config.arguments.len() == 0 {
                push_unique(v.health, "no Program or ProgramArguments in parsed plist"@)
            } else {
                v.health
            };
            let h2 = if !plist_exists {
                push_unique(h1, "plist path does not exist: "@ + path)
            } else {
                h1
            };
            match probed_program(v.config) {
                Some(p) => if has_prefix(p, "/"@) && !program_exists {
                    push_unique(h2, "executable does not exist: "@ + p)
                } else {
                    h2
                },
                None => h2,
            }
        },
    }
}

/// The executable whose existence the health check needs to know.
pub fn health_probe(config: &LaunchConfig) -> (r: Option<String>)
    ensures
        opt_view(r) == probed_program(config@),
{
    if config.arguments.len() > 0 {
        Some(config.arguments[0].clone())
    } else {
        opt_copy(&config.program)
    }
}

/// Appends a health warning unless the service already has it.
pub fn push_unique_health(service: &mut Service, warning: String)
    ensures
        final(service)@ == (ServiceView { health: push_unique(old(service)@.health, warning@), ..old(service)@ }),
{
    let mut i: usize = 0;
    while i < service.health.len()
        invariant
            i <= service.health.len(),
            forall|k: int| 0 <= k < i ==> service.health@[k]@ != warning@,
        decreases service.health.len() - i,
    {
        if str_eq(service.health[i].as_str(), warning.as_str()) {
            assert(string_views(service.health@)[i as int] == warning@);
            return;
        }
        i = i + 1;
    }
    assert(!string_views(service.health@).contains(warning@)) by {
        if string_views(service.health@).contains(warning@) {
            let k = choose|k: int| 0 <= k < service.health@.len() && string_views(service.health@)[k] == warning@;
            assert(service.health@[k]@ == warning@);
        }
    }
    let ghost before = service.health@;
    service.health.push(warning);
    assert(string_views(service.health@) =~= string_views(before).push(warning@));
}

/// Adds the health warnings of a finished service: no plist for a loaded job, no
/// program in a parsed plist, a plist or an absolute executable path that does
/// not exist on disk. `plist_exists` and `program_exists` are what the file
/// system said of the plist path and of `health_probe`'s executable.
pub fn finish_health(service: &mut Service, plist_exists: bool, program_exists: bool)
    ensures
        final(service)@ == (ServiceView {
            health: finished_health(old(service)@, plist_exists, program_exists),
            ..old(service)@
        }),
{
    let path = match &service.plist_path {
        None => {
            push_unique_health(service, owned("no source plist discovered for loaded service"));
            return;
        },
        Some(p) => p.clone(),
    };
    if service.config.program.is_none() && service.config.arguments.len() == 0 {
        push_unique_health(service, owned("no Program or ProgramArguments in parsed plist"));
    }
    if !plist_exists {
        push_unique_health(service, concat2("plist path does not exist: ", path.as_str()));
    }
    match health_probe(&service.config) {
        Some(program) => {
            let p = chars_of(program.as_str());
            if has_prefix_exec(&p, &chars_of("/")) && !program_exists {
                push_unique_health(service, concat2("executable does not exist: ", program.as_str()));
            }
        },
        None => {},
    }
}

// ---------------------------------------------------------------------------
// Privileges and safety
// ---------------------------------------------------------------------------

/// The owner and permission bits of a file, as `stat` reports them.
#[derive(Clone, Copy, Debug, PartialEq, Eq, Structural)]
pub struct FileOwnership {
    pub owner_uid: u32,
    pub mode: u32,
}

/// What the file system said about a plist and its directory: the plist's
/// ownership, and whether it has a parent directory and that directory's
/// ownership (`None` where `stat` failed).
#[derive(Clone, Copy, Debug, PartialEq, Eq, Structural)]
pub struct PathAccess {
    pub meta: Option<FileOwnership>,
    pub parent_meta: Option<Option<FileOwnership>>,
}

/// Whether `uid` can write a file with this ownership. Supplementary groups are
/// not resolved, so a group-writable root-owned file reads as "needs root": the
/// check errs toward asking for elevation, never toward skipping it.
pub open spec fn writable(meta: Option<FileOwnership>, uid: u32) -> bool {
    uid == 0 || match meta {
        None => false,
        Some(m) => if m.owner_uid == uid {
            m.mode & 0o200 != 0
        } else {
            m.mode & 0o002 != 0
        },
    }
}

pub fn is_writable(meta: Option<FileOwnership>, uid: u32) -> (r: bool)
    ensures
        r == writable(meta, uid),
{
    if uid == 0 {
        return true;
    }
    match meta {
        None => false,
        Some(m) => if m.owner_uid == uid {
            m.mode & 0o200 != 0
        } else {
            m.mode & 0o002 != 0
        },
    }
}

/// Which axes of a service need root: launchctl in the system domain (unless
/// already root), and writing or removing a plist the user cannot write.
pub open spec fn elevation_needs(domain: Seq<char>, plist: Option<PathAccess>, uid: u32) -> ElevationNeeds {
    ElevationNeeds {
        runtime: domain == "system"@ && uid != 0,
        plist_write: !(plist matches Some(a) && writable(a.meta, uid)),
        plist_remove: !(plist matches Some(a) && a.parent_meta matches Some(m) && writable(m, uid)),
    }
}

pub fn elevation_for(domain: &str, plist: Option<&PathAccess>, uid: u32) -> (r: ElevationNeeds)
    ensures
        r == elevation_needs(
            domain@,
            match plist {
                Some(a) => Some(*a),
                None => None,
            },
            uid,
        ),
{
    let runtime = str_eq(domain, "system") && uid != 0;
    let plist_write = match plist {
        Some(a) => !is_writable(a.meta, uid),
        None => true,
    };
    let plist_remove = match plist {
        Some(a) => match a.parent_meta {
            Some(m) => !is_writable(m, uid),
            None => true,
        },
        None => true,
    };
    ElevationNeeds { runtime, plist_write, plist_remove }
}

/// The safety level of a plist directory: read-only under `/System/Library`,
/// otherwise by scope.
pub open spec fn scope_safety(scope: ServiceScope, dir: Seq<char>) -> SafetyLevel {
    if path_has_base(dir, "/System/Library"@) {
        SafetyLevel::ReadonlySystem
    } else {
        match scope {
            ServiceScope::UserAgent => SafetyLevel::UserWritable,
            ServiceScope::GlobalAgent | ServiceScope::SystemDaemon => SafetyLevel::AdminRequired,
        }
    }
}

pub fn safety_for_scope(scope: ServiceScope, dir: &str) -> (r: SafetyLevel)
    ensures
        r == scope_safety(scope, dir@),
{
    if path_starts_with(dir, "/System/Library") {
        SafetyLevel::ReadonlySystem
    } else {
        match scope {
            ServiceScope::UserAgent => SafetyLevel::UserWritable,
            ServiceScope::GlobalAgent | ServiceScope::SystemDaemon => SafetyLevel::AdminRequired,
        }
    }
}


// ---------------------------------------------------------------------------
// Plists
// ---------------------------------------------------------------------------

/// A property-list value, as much of it as discovery and creation read and
/// write. Data, dates, reals and UIDs are `Other`.
#[derive(Debug)]
pub enum PlistValue {
    Boolean(bool),
    Integer(i128),
    String(String),
    Array(Vec<PlistValue>),
    Dictionary(Vec<(String, PlistValue)>),
    Other,
}

/// The value stored under `key` in a dictionary's entries (the first one).
pub open spec fn dict_get(entries: Seq<(String, PlistValue)>, key: Seq<char>) -> Option<PlistValue>
    decreases entries.len(),
{
    if entries.len() == 0 {
        None
    } else if entries[0].0@ == key {
        Some(entries[0].1)
    } else {
        dict_get(entries.drop_first(), key)
    }
}

/// A string value's text.
pub open spec fn value_string(v: Option<PlistValue>) -> Option<Seq<char>> {
    match v {
        Some(PlistValue::String(s)) => Some(s@),
        _ => None,
    }
}

/// A boolean value.
pub open spec fn value_bool(v: Option<PlistValue>) -> Option<bool> {
    match v {
        Some(PlistValue::Boolean(b)) => Some(b),
        _ => None,
    }
}

/// An integer value that fits in a `u64`.
pub open spec fn value_unsigned(v: Option<PlistValue>) -> Option<u64> {
    match v {
        Some(PlistValue::Integer(i)) => if 0 <= i <= u64::MAX {
            Some(i as u64)
        } else {
            None
        },
        _ => None,
    }
}

/// The string items of a list of values, in order; other items are skipped.
pub open spec fn strings_in(items: Seq<PlistValue>) -> Seq<Seq<char>>
    decreases items.len(),
{
    if items.len() == 0 {
        seq![]
    } else {
        (match items[0] {
            PlistValue::String(s) => seq![s@],
            _ => seq![],
        }) + strings_in(items.drop_first())
    }
}

/// The string items of an array value.
pub open spec fn value_strings(v: Option<PlistValue>) -> Seq<Seq<char>> {
    match v {
        Some(PlistValue::Array(items)) => strings_in(items@),
        _ => seq![],
    }
}

/// How a `KeepAlive` value is summarised.
pub open spec fn keep_alive_text(v: PlistValue) -> Seq<char> {
    match v {
        PlistValue::Boolean(b) => if b {
            "true"@
        } else {
            "false"@
        },
        PlistValue::Dictionary(_) => "conditional"@,
        PlistValue::Array(_) => "array"@,
        _ => "configured"@,
    }
}

/// A `StartCalendarInterval` dictionary as a schedule, or `None` when it sets
/// none of the five components.
pub open spec fn calendar_from(d: Seq<(String, PlistValue)>) -> Option<CalendarSchedule> {
    let c = CalendarSchedule {
        minute: value_unsigned(dict_get(d, "Minute"@)),
        hour: value_unsigned(dict_get(d, "Hour"@)),
        day: value_unsigned(dict_get(d, "Day"@)),
        weekday: value_unsigned(dict_get(d, "Weekday"@)),
        month: value_unsigned(dict_get(d, "Month"@)),
    };
    if c.minute is None && c.hour is None && c.day is None && c.weekday is None && c.month is None {
        None
    } else {
        Some(c)
    }
}

/// The schedules of the dictionary items of an array, in order.
pub open spec fn calendars_in(items: Seq<PlistValue>) -> Seq<CalendarSchedule>
    decreases items.len(),
{
    if items.len() == 0 {
        seq![]
    } else {
        (match items[0] {
            PlistValue::Dictionary(d) => match calendar_from(d@) {
                Some(c) => seq![c],
                None => seq![],
            },
            _ => seq![],
        }) + calendars_in(items.drop_first())
    }
}

/// The schedules of a `StartCalendarInterval` value: one dictionary or an array
/// of them.
pub open spec fn calendars_of(v: Option<PlistValue>) -> Seq<CalendarSchedule> {
    match v {
        Some(PlistValue::Dictionary(d)) => match calendar_from(d@) {
            Some(c) => seq![c],
            None => seq![],
        },
        Some(PlistValue::Array(items)) => calendars_in(items@),
        _ => seq![],
    }
}

/// The launch configuration a plist dictionary describes.
pub open spec fn plist_config(d: Seq<(String, PlistValue)>) -> LaunchConfigView {
    LaunchConfigView {
        program: value_string(dict_get(d, "Program"@)),
        arguments: value_strings(dict_get(d, "ProgramArguments"@)),
        working_directory: value_string(dict_get(d, "WorkingDirectory"@)),
        stdout_path: value_string(dict_get(d, "StandardOutPath"@)),
        stderr_path: value_string(dict_get(d, "StandardErrorPath"@)),
        run_at_load: value_bool(dict_get(d, "RunAtLoad"@)),
        keep_alive: match dict_get(d, "KeepAlive"@) {
            Some(v) => Some(keep_alive_text(v)),
            None => None,
        },
        start_interval: value_unsigned(dict_get(d, "StartInterval"@)),
        start_calendar_intervals: calendars_of(dict_get(d, "StartCalendarInterval"@)),
    }
}

/// The value under `key` in a dictionary's entries.
pub fn dict_lookup<'a>(entries: &'a Vec<(String, PlistValue)>, key: &str) -> (r: Option<&'a PlistValue>)
    ensures
        match dict_get(entries@, key@) {
            Some(v) => r == Some(&v),
            None => r is None,
        },
{
    let mut i: usize = 0;
    assert(entries@.skip(0) =~= entries@);
    while i < entries.len()
        invariant
            i <= entries.len(),
            dict_get(entries@, key@) == dict_get(entries@.skip(i as int), key@),
        decreases entries.len() - i,
    {
        assert(entries@.skip(i as int)[0] == entries@[i as int]);
        assert(entries@.skip(i as int).drop_first() =~= entries@.skip(i + 1));
        if str_eq(entries[i].0.as_str(), key) {
            return Some(&entries[i].1);
        }
        i = i + 1;
    }
    None
}

fn string_value(v: Option<&PlistValue>) -> (r: Option<String>)
    ensures
        opt_view(r) == value_string(match v {
            Some(x) => Some(*x),
            None => None,
        }),
{
    match v {
        Some(PlistValue::String(s)) => Some(s.clone()),
        _ => None,
    }
}

fn bool_value(v: Option<&PlistValue>) -> (r: Option<bool>)
    ensures
        r == value_bool(match v {
            Some(x) => Some(*x),
            None => None,
        }),
{
    match v {
        Some(PlistValue::Boolean(b)) => Some(*b),
        _ => None,
    }
}

fn unsigned_value(v: Option<&PlistValue>) -> (r: Option<u64>)
    ensures
        r == value_unsigned(match v {
            Some(x) => Some(*x),
            None => None,
        }),
{
    match v {
        Some(PlistValue::Integer(i)) => if 0 <= *i && *i <= 0xffff_ffff_ffff_ffff {
            Some(*i as u64)
        } else {
            None
        },
        _ => None,
    }
}

fn strings_value(v: Option<&PlistValue>) -> (r: Vec<String>)
    ensures
        string_views(r@) == value_strings(match v {
            Some(x) => Some(*x),
            None => None,
        }),
{
    let mut out: Vec<String> = Vec::new();
    match v {
        Some(PlistValue::Array(items)) => {
            let mut i: usize = 0;
            assert(items@.skip(0) =~= items@);
            assert(string_views(out@) =~= seq![]);
            while i < items.len()
                invariant
                    i <= items.len(),
                    string_views(out@) + strings_in(items@.skip(i as int)) == strings_in(items@),
                decreases items.len() - i,
            {
                let ghost before = string_views(out@);
                assert(items@.skip(i as int)[0] == items@[i as int]);
                assert(items@.skip(i as int).drop_first() =~= items@.skip(i + 1));
                match &items[i] {
                    PlistValue::String(s) => {
                        out.push(s.clone());
                        assert(string_views(out@) =~= before + seq![s@]);
                    },
                    _ => {
                        assert(before + seq![] =~= before);
                    },
                }
                i = i + 1;
            }
            assert(items@.skip(i as int) =~= seq![]);
            assert(string_views(out@) + seq![] =~= string_views(out@));
        },
        _ => {},
    }
    out
}

fn keep_alive_value(v: &PlistValue) -> (r: String)
    ensures
        r@ == keep_alive_text(*v),
{
    match v {
        PlistValue::Boolean(b) => if *b {
            owned("true")
        } else {
            owned("false")
        },
        PlistValue::Dictionary(_) => owned("conditional"),
        PlistValue::Array(_) => owned("array"),
        _ => owned("configured"),
    }
}

fn calendar_from_dict(d: &Vec<(String, PlistValue)>) -> (r: Option<CalendarSchedule>)
    ensures
        r == calendar_from(d@),
{
    let c = CalendarSchedule {
        minute: unsigned_value(dict_lookup(d, "Minute")),
        hour: unsigned_value(dict_lookup(d, "Hour")),
        day: unsigned_value(dict_lookup(d, "Day")),
        weekday: unsigned_value(dict_lookup(d, "Weekday")),
        month: unsigned_value(dict_lookup(d, "Month")),
    };
    if c.minute.is_none() && c.hour.is_none() && c.day.is_none() && c.weekday.is_none()
        && c.month.is_none() {
        None
    } else {
        Some(c)
    }
}

fn calendars_value(v: Option<&PlistValue>) -> (r: Vec<CalendarSchedule>)
    ensures
        r@ == calendars_of(match v {
            Some(x) => Some(*x),
            None => None,
        }),
{
    let mut out: Vec<CalendarSchedule> = Vec::new();
    match v {
        Some(PlistValue::Dictionary(d)) => {
            match calendar_from_dict(d) {
                Some(c) => out.push(c),
                None => {},
            }
            assert(out@ =~= calendars_of(Some(*v.unwrap())));
        },
        Some(PlistValue::Array(items)) => {
            let mut i: usize = 0;
            assert(items@.skip(0) =~= items@);
            assert(out@ =~= seq![]);
            while i < items.len()
                invariant
                    i <= items.len(),
                    out@ + calendars_in(items@.skip(i as int)) == calendars_in(items@),
                decreases items.len() - i,
            {
                let ghost before = out@;
                assert(items@.skip(i as int)[0] == items@[i as int]);
                assert(items@.skip(i as int).drop_first() =~= items@.skip(i + 1));
                match &items[i] {
                    PlistValue::Dictionary(d) => {
                        match calendar_from_dict(d) {
                            Some(c) => {
                                out.push(c);
                                assert(out@ =~= before + seq![c]);
                            },
                            None => {
                                assert(before + seq![] =~= before);
                            },
                        }
                    },
                    _ => {
                        assert(before + seq![] =~= before);
                    },
                }
                i = i + 1;
            }
            assert(items@.skip(i as int) =~= seq![]);
            assert(out@ + seq![] =~= out@);
        },
        _ => {},
    }
    out
}

/// The launch configuration a plist dictionary describes.
pub fn config_from_dict(d: &Vec<(String, PlistValue)>) -> (r: LaunchConfig)
    ensures
        r@ == plist_config(d@),
{
    let arguments = strings_value(dict_lookup(d, "ProgramArguments"));
    let keep_alive = match dict_lookup(d, "KeepAlive") {
        Some(v) => Some(keep_alive_value(v)),
        None => None,
    };
    LaunchConfig {
        program: string_value(dict_lookup(d, "Program")),
        arguments,
        working_directory: string_value(dict_lookup(d, "WorkingDirectory")),
        stdout_path: string_value(dict_lookup(d, "StandardOutPath")),
        stderr_path: string_value(dict_lookup(d, "StandardErrorPath")),
        run_at_load: bool_value(dict_lookup(d, "RunAtLoad")),
        keep_alive,
        start_interval: unsigned_value(dict_lookup(d, "StartInterval")),
        start_calendar_intervals: calendars_value(dict_lookup(d, "StartCalendarInterval")),
    }
}

/// A plist file as the file system gave it: its path, its parsed content
/// (`None` when it could not be read or parsed) and its ownership.
#[derive(Debug)]
pub struct PlistFile {
    pub path: String,
    pub value: Option<PlistValue>,
    pub access: PathAccess,
}

/// `label` without the `homebrew.mxcl.` prefix.
pub open spec fn short_name(label: Seq<char>) -> Seq<char> {
    if has_prefix(label, "homebrew.mxcl."@) {
        label.skip("homebrew.mxcl."@.len() as int)
    } else {
        label
    }
}

/// The job label of a plist: its `Label`, else the file stem, else `unknown`.
pub open spec fn plist_label(d: Seq<(String, PlistValue)>, path: Seq<char>) -> Seq<char> {
    match value_string(dict_get(d, "Label"@)) {
        Some(l) => l,
        None => match path_file_stem(path) {
            Some(s) => s,
            None => "unknown"@,
        },
    }
}

/// The service a parsed plist describes, or the error message when the file
/// could not be parsed or is not a dictionary.
pub open spec fn plist_service(
    path: Seq<char>,
    value: Option<PlistValue>,
    access: PathAccess,
    scope: ServiceScope,
    uid: u32,
) -> Result<ServiceView, Seq<char>> {
    match value {
        None => Err("parse "@ + path),
        Some(PlistValue::Dictionary(d)) => {
            let label = plist_label(d@, path);
            let domain = scope_domain(scope, uid);
            Ok(
                ServiceView {
                    id: domain + ":"@ + label,
                    label,
                    display_name: short_name(label),
                    source: ServiceSource::Launchd,
                    scope,
                    domain,
                    plist_path: Some(path),
                    config: plist_config(d@),
                    pid: None,
                    exit_code: None,
                    status: ServiceStatus::Unloaded,
                    enabled: None,
                    loaded: Some(false),
                    brew_formula: None,
                    brew_status: None,
                    safety_level: scope_safety(
                        scope,
                        match path_parent(path) {
                            Some(p) => p,
                            None => "/System/Library"@,
                        },
                    ),
                    elevation: elevation_needs(domain, Some(access), uid),
                    origin: OriginView {
                        kind: Provenance::Unknown,
                        confidence: Confidence::Guess,
                        evidence: seq![],
                    },
                    health: seq![],
                },
            )
        },
        Some(_) => Err(path + " is not a plist dictionary"@),
    }
}

/// `label` without the `homebrew.mxcl.` prefix.
pub fn strip_brew_prefix(label: &str) -> (r: String)
    ensures
        r@ == short_name(label@),
{
    let l = chars_of(label);
    let prefix = chars_of("homebrew.mxcl.");
    if has_prefix_exec(&l, &prefix) {
        let rest = slice_of(&l, prefix.len(), l.len());
        assert(rest@ =~= l@.skip(prefix@.len() as int));
        string_of(&rest)
    } else {
        owned(label)
    }
}

/// The service described by a plist file, or why it could not be read.
pub fn service_from_plist(file: &PlistFile, scope: ServiceScope, uid: u32) -> (r: Result<Service, String>)
    ensures
        match plist_service(file.path@, file.value, file.access, scope, uid) {
            Ok(v) => r matches Ok(s) && s@ == v,
            Err(m) => r matches Err(e) && e@ == m,
        },
{
    let d = match &file.value {
        None => {
            return Err(concat2("parse ", file.path.as_str()));
        },
        Some(PlistValue::Dictionary(d)) => d,
        Some(_) => {
            return Err(concat2(file.path.as_str(), " is not a plist dictionary"));
        },
    };
    let label = match string_value(dict_lookup(d, "Label")) {
        Some(l) => l,
        None => match file_stem_of(file.path.as_str()) {
            Some(s) => s,
            None => owned("unknown"),
        },
    };
    let config = config_from_dict(d);
    let domain = scope.domain(uid);
    let parent = match parent_of(file.path.as_str()) {
        Some(p) => p,
        None => owned("/System/Library"),
    };
    let safety_level = safety_for_scope(scope, parent.as_str());
    let display_name = strip_brew_prefix(label.as_str());
    let elevation = elevation_for(domain.as_str(), Some(&file.access), uid);
    let id = concat3(domain.as_str(), ":", label.as_str());
    let origin = Origin::unknown();
    let s = Service {
        id,
        label,
        display_name,
        source: ServiceSource::Launchd,
        scope,
        domain,
        plist_path: Some(file.path.clone()),
        config,
        pid: None,
        exit_code: None,
        status: ServiceStatus::Unloaded,
        enabled: None,
        loaded: Some(false),
        brew_formula: None,
        brew_status: None,
        safety_level,
        elevation,
        origin,
        health: Vec::new(),
    };
    assert(s@.health =~= seq![]);
    assert(s@.origin.evidence =~= seq![]);
    Ok(s)
}


// ---------------------------------------------------------------------------
// Merging what was discovered
// ---------------------------------------------------------------------------

/// A service row updated with what `launchctl print` reported for it.
pub open spec fn with_runtime(v: ServiceView, st: RuntimeState) -> ServiceView {
    ServiceView {
        pid: st.pid,
        exit_code: st.exit_code,
        loaded: Some(st.loaded),
        status: runtime_status(st, v.config),
        ..v
    }
}

/// The row for a job that launchd has loaded but no plist describes; `None`
/// when the id has no `domain:label` form.
pub open spec fn runtime_only(id: Seq<char>, st: RuntimeState, uid: u32) -> Option<ServiceView> {
    match split_once(id, ":"@) {
        None => None,
        Some((domain, label)) => Some(
            ServiceView {
                id,
                label,
                display_name: short_name(label),
                source: ServiceSource::Launchd,
                scope: if domain == "system"@ {
                    ServiceScope::SystemDaemon
                } else {
                    ServiceScope::UserAgent
                },
                domain,
                plist_path: None,
                config: empty_config(),
                pid: st.pid,
                exit_code: st.exit_code,
                status: runtime_status(st, empty_config()),
                enabled: None,
                loaded: Some(true),
                brew_formula: None,
                brew_status: None,
                safety_level: SafetyLevel::ProtectedVendor,
                elevation: elevation_needs(domain, None, uid),
                origin: OriginView {
                    kind: Provenance::Unknown,
                    confidence: Confidence::Guess,
                    evidence: seq![],
                },
                health: seq![],
            },
        ),
    }
}

/// The table after the runtime state of the jobs in `done` was applied: known
/// services get their state, unknown jobs become runtime-only rows.
pub open spec fn runtime_merge(
    m: Map<Seq<char>, ServiceView>,
    rt: Map<Seq<char>, RuntimeState>,
    done: Set<Seq<char>>,
    uid: u32,
) -> Map<Seq<char>, ServiceView> {
    Map::new(
        |k: Seq<char>|
            m.contains_key(k) || (done.contains(k) && rt.contains_key(k) && runtime_only(
                k,
                rt[k],
                uid,
            ) is Some),
        |k: Seq<char>|
            if m.contains_key(k) {
                if done.contains(k) && rt.contains_key(k) {
                    with_runtime(m[k], rt[k])
                } else {
                    m[k]
                }
            } else {
                runtime_only(k, rt[k], uid)->0
            },
    )
}

fn runtime_only_service(id: &str, state: RuntimeState, uid: u32) -> (r: Option<Service>)
    ensures
        match runtime_only(id@, state, uid) {
            Some(v) => r matches Some(s) && s@ == v,
            None => r is None,
        },
{
    let chars = chars_of(id);
    let colon = chars_of(":");
    let (domain, label) = match split_once_exec(&chars, &colon) {
        None => {
            return None;
        },
        Some(parts) => parts,
    };
    let domain = string_of(&domain);
    let label = string_of(&label);
    let is_system = str_eq(domain.as_str(), "system");
    let scope = if is_system {
        ServiceScope::SystemDaemon
    } else {
        ServiceScope::UserAgent
    };
    let config = LaunchConfig::empty();
    let status = status_from_state(&state, &config);
    let elevation = elevation_for(domain.as_str(), None, uid);
    let display_name = strip_brew_prefix(label.as_str());
    let s = Service {
        id: owned(id),
        label,
        display_name,
        source: ServiceSource::Launchd,
        scope,
        domain,
        plist_path: None,
        config,
        pid: state.pid,
        exit_code: state.exit_code,
        status,
        enabled: None,
        loaded: Some(true),
        brew_formula: None,
        brew_status: None,
        safety_level: SafetyLevel::ProtectedVendor,
        elevation,
        origin: Origin::unknown(),
        health: Vec::new(),
    };
    assert(s@.health =~= seq![]);
    assert(s@.origin.evidence =~= seq![]);
    Some(s)
}

/// Applies the runtime state of every loaded job: known services take its PID,
/// exit code and derived status; jobs without a known plist become protected
/// runtime-only rows.
pub fn apply_runtime(services: &mut ServiceTable, runtime: &RuntimeTable, uid: u32)
    requires
        old(services).wf(),
        runtime.wf(),
    ensures
        final(services).wf(),
        final(services)@ == runtime_merge(old(services)@, runtime@, runtime@.dom(), uid),
{
    let ghost m0 = services@;
    let ghost rt = runtime@;
    let ghost keys = runtime.keys();
    proof {
        runtime.lemma_keys();
        assert(runtime_merge(m0, rt, keys.take(0).to_set(), uid) =~= m0);
    }
    let n = runtime.len();
    let mut i: usize = 0;
    while i < n
        invariant
            n == keys.len(),
            i <= n,
            services.wf(),
            runtime.wf(),
            rt == runtime@,
            keys == runtime.keys(),
            keys.no_duplicates(),
            forall|k: Seq<char>| #[trigger] rt.contains_key(k) <==> keys.contains(k),
            services@ == runtime_merge(m0, rt, keys.take(i as int).to_set(), uid),
        decreases n - i,
    {
        let (id, state) = runtime.entry(i);
        let ghost k = id@;
        let ghost done = keys.take(i as int).to_set();
        let ghost done2 = keys.take(i + 1).to_set();
        proof {
            assert(keys.take(i + 1) =~= keys.take(i as int).push(k));
            keys.take(i as int).lemma_push_to_set_commute(k);
            assert(done2 =~= done.insert(k));
            assert(!done.contains(k)) by {
                if done.contains(k) {
                    let j = choose|j: int| 0 <= j < i && keys.take(i as int)[j] == k;
                    assert(keys[j] == keys[i as int]);
                }
            }
        }
        proof {
            services.lemma_keys_are_ids();
        }
        match services.remove(id.as_str()) {
            Some(mut s) => {
                proof {
                    assert(m0.contains_key(k));
                    assert(s@.id == k);
                    assert(s@ == m0[k]);
                }
                s.pid = state.pid;
                s.exit_code = state.exit_code;
                s.loaded = Some(state.loaded);
                s.status = status_from_state(&state, &s.config);
                let ghost v = s@;
                services.insert(s);
                proof {
                    assert(v == with_runtime(m0[k], rt[k]));
                    assert(services@ =~= runtime_merge(m0, rt, done2, uid));
                }
            },
            None => {
                proof {
                    assert(!m0.contains_key(k));
                }
                let ghost cur = runtime_merge(m0, rt, done, uid);
                assert(!cur.contains_key(k));
                assert(services@ =~= cur);
                match runtime_only_service(id.as_str(), state, uid) {
                    Some(s) => {
                        proof {
                            assert(s@.id == k);
                        }
                        services.insert(s);
                        assert(services@ =~= runtime_merge(m0, rt, done2, uid));
                    },
                    None => {
                        assert(services@ =~= runtime_merge(m0, rt, done2, uid));
                    },
                }
            },
        }
        i = i + 1;
    }
    proof {
        assert(keys.take(n as int) =~= keys);
        assert(keys.to_set() =~= rt.dom());
    }
}


/// A service row marked enabled, or disabled when `disabled` names it.
pub open spec fn with_disabled(v: ServiceView, disabled: Set<Seq<char>>) -> ServiceView {
    if disabled.contains(v.id) {
        ServiceView { enabled: Some(false), status: ServiceStatus::Disabled, ..v }
    } else {
        ServiceView { enabled: Some(true), ..v }
    }
}

/// The table with every row marked enabled or disabled.
pub open spec fn disabled_merge(
    m: Map<Seq<char>, ServiceView>,
    disabled: Set<Seq<char>>,
) -> Map<Seq<char>, ServiceView> {
    Map::new(|k: Seq<char>| m.contains_key(k), |k: Seq<char>| with_disabled(m[k], disabled))
}

/// Marks every service enabled, except those whose id `launchctl print-disabled`
/// listed, which become disabled.
pub fn apply_disabled(services: &mut ServiceTable, disabled: &TextSet)
    requires
        old(services).wf(),
    ensures
        final(services).wf(),
        final(services)@ == disabled_merge(old(services)@, disabled@),
{
    let ghost m0 = services@;
    let mut table = ServiceTable::new();
    std::mem::swap(services, &mut table);
    proof {
        table.lemma_ordered();
    }
    let mut rows_vec = table.into_ordered();
    let ghost before = rows(rows_vec@);
    let n = rows_vec.len();
    let mut i: usize = 0;
    while i < n
        invariant
            n == rows_vec@.len(),
            n == before.len(),
            i <= n,
            ids_ascending(before),
            rows_map(before) == m0,
            forall|j: int| 0 <= j < i ==> #[trigger] rows(rows_vec@)[j] == with_disabled(before[j], disabled@),
            forall|j: int| i <= j < n ==> #[trigger] rows(rows_vec@)[j] == before[j],
        decreases n - i,
    {
        let ghost prev = rows_vec@;
        let off = disabled.contains(rows_vec[i].id.as_str());
        if off {
            rows_vec[i].enabled = Some(false);
            rows_vec[i].status = ServiceStatus::Disabled;
        } else {
            rows_vec[i].enabled = Some(true);
        }
        proof {
            let r = rows_vec@[i as int];
            let p = prev[i as int];
            assert(r@.health == p@.health);
            assert forall|j: int| 0 <= j < n && j != i implies #[trigger] rows(rows_vec@)[j] == rows(prev)[j] by {
                assert(rows_vec@[j] == prev[j]);
            }
            assert(rows(prev)[i as int] == p@);
            assert(rows(rows_vec@)[i as int] == r@);
            assert(r@ == with_disabled(p@, disabled@));
            assert(rows(rows_vec@)[i as int] == with_disabled(before[i as int], disabled@));
        }
        i = i + 1;
    }
    let ghost after = rows(rows_vec@);
    proof {
        assert forall|a: int, b: int| 0 <= a < b < after.len() implies lex_lt(after[a].id, after[b].id) by {
            assert(after[a].id == before[a].id);
            assert(after[b].id == before[b].id);
        }
        let target = disabled_merge(m0, disabled@);
        assert forall|k: Seq<char>| #[trigger] rows_map(after).dom().contains(k) == target.dom().contains(k) by {
            if rows_map(after).dom().contains(k) {
                let j = choose|j: int| 0 <= j < after.len() && after[j].id == k;
                assert(before[j].id == k);
                lemma_rows_map_at(before, j);
            }
            if target.dom().contains(k) {
                let j = choose|j: int| 0 <= j < before.len() && before[j].id == k;
                assert(after[j].id == k);
            }
        }
        assert forall|k: Seq<char>| #[trigger] rows_map(after).dom().contains(k) implies rows_map(after)[k] == target[k] by {
            let j = choose|j: int| 0 <= j < after.len() && after[j].id == k;
            lemma_rows_map_at(after, j);
            lemma_rows_map_at(before, j);
        }
        assert(rows_map(after) =~= target);
    }
    *services = ServiceTable::from_ordered(rows_vec);
}


// ---------------------------------------------------------------------------
// Plist directories
// ---------------------------------------------------------------------------

/// Whether a directory entry is a plist file, by its extension.
pub open spec fn is_plist_path(path: Seq<char>) -> bool {
    path_extension(path) == Some("plist"@)
}

/// Whether a directory entry is a plist file, by its extension.
pub fn is_plist_file(path: &str) -> (r: bool)
    ensures
        r == is_plist_path(path@),
{
    match extension_of(path) {
        Some(e) => str_eq(e.as_str(), "plist"),
        None => false,
    }
}

/// The file stem of `path`, or `unknown`.
pub open spec fn stem_or_unknown(path: Seq<char>) -> Seq<char> {
    match path_file_stem(path) {
        Some(s) => s,
        None => "unknown"@,
    }
}

/// The row that stands for a plist in `dir` that could not be parsed: it keeps
/// the file in view, with the parse error as its health warning.
pub open spec fn unreadable_row(
    dir: Seq<char>,
    path: Seq<char>,
    access: PathAccess,
    scope: ServiceScope,
    uid: u32,
    err: Seq<char>,
) -> ServiceView {
    ServiceView {
        id: "unreadable:"@ + path,
        label: stem_or_unknown(path),
        display_name: stem_or_unknown(path),
        source: ServiceSource::Launchd,
        scope,
        domain: scope_domain(scope, uid),
        plist_path: Some(path),
        config: empty_config(),
        pid: None,
        exit_code: None,
        status: ServiceStatus::Unknown,
        enabled: None,
        loaded: Some(false),
        brew_formula: None,
        brew_status: None,
        safety_level: scope_safety(scope, dir),
        elevation: elevation_needs(scope_domain(scope, uid), Some(access), uid),
        origin: OriginView { kind: Provenance::Unknown, confidence: Confidence::Guess, evidence: seq![] },
        health: seq!["plist parse failed: "@ + err],
    }
}

/// The row a plist file in `dir` contributes.
pub open spec fn plist_row(dir: Seq<char>, f: PlistFile, scope: ServiceScope, uid: u32) -> ServiceView {
    match plist_service(f.path@, f.value, f.access, scope, uid) {
        Ok(v) => v,
        Err(e) => unreadable_row(dir, f.path@, f.access, scope, uid, e),
    }
}

/// The table after the files of `dir` were added in order; entries that are not
/// plists are passed over, and a later row replaces an earlier one with its id.
pub open spec fn plist_dir_fold(
    m: Map<Seq<char>, ServiceView>,
    dir: Seq<char>,
    scope: ServiceScope,
    uid: u32,
    files: Seq<PlistFile>,
) -> Map<Seq<char>, ServiceView>
    decreases files.len(),
{
    if files.len() == 0 {
        m
    } else {
        let prev = plist_dir_fold(m, dir, scope, uid, files.drop_last());
        let f = files.last();
        if is_plist_path(f.path@) {
            let v = plist_row(dir, f, scope, uid);
            prev.insert(v.id, v)
        } else {
            prev
        }
    }
}

fn unreadable_service(dir: &str, file: &PlistFile, scope: ServiceScope, uid: u32, err: String) -> (r: Service)
    ensures
        r@ == unreadable_row(dir@, file.path@, file.access, scope, uid, err@),
{
    let id = concat2("unreadable:", file.path.as_str());
    let stem = match file_stem_of(file.path.as_str()) {
        Some(s) => s,
        None => owned("unknown"),
    };
    let display_name = stem.clone();
    let domain = scope.domain(uid);
    let elevation = elevation_for(domain.as_str(), Some(&file.access), uid);
    let warning = concat2("plist parse failed: ", err.as_str());
    let mut health = Vec::new();
    health.push(warning);
    let s = Service {
        id,
        label: stem,
        display_name,
        source: ServiceSource::Launchd,
        scope,
        domain,
        plist_path: Some(file.path.clone()),
        config: LaunchConfig::empty(),
        pid: None,
        exit_code: None,
        status: ServiceStatus::Unknown,
        enabled: None,
        loaded: Some(false),
        brew_formula: None,
        brew_status: None,
        safety_level: safety_for_scope(scope, dir),
        elevation,
        origin: Origin::unknown(),
        health,
    };
    assert(s@.health =~= seq!["plist parse failed: "@ + err@]);
    assert(s@.origin.evidence =~= seq![]);
    s
}

/// Adds the services of one plist directory, given its entries as read from
/// disk: each `.plist` file becomes a row, and one that cannot be parsed
/// becomes an `unreadable:` row that carries the parse error.
pub fn read_plist_dir(
    dir: &str,
    scope: ServiceScope,
    uid: u32,
    files: &Vec<PlistFile>,
    services: &mut ServiceTable,
)
    requires
        old(services).wf(),
    ensures
        final(services).wf(),
        final(services)@ == plist_dir_fold(old(services)@, dir@, scope, uid, files@),
{
    let ghost m0 = services@;
    let mut i: usize = 0;
    while i < files.len()
        invariant
            i <= files@.len(),
            services.wf(),
            services@ == plist_dir_fold(m0, dir@, scope, uid, files@.take(i as int)),
        decreases files.len() - i,
    {
        let f = &files[i];
        proof {
            assert(files@.take(i + 1).drop_last() =~= files@.take(i as int));
            assert(files@.take(i + 1).last() == files@[i as int]);
        }
        if is_plist_file(f.path.as_str()) {
            match service_from_plist(f, scope, uid) {
                Ok(s) => services.insert(s),
                Err(e) => {
                    let s = unreadable_service(dir, f, scope, uid, e);
                    services.insert(s);
                },
            }
        }
        i = i + 1;
    }
    assert(files@.take(files@.len() as int) =~= files@);
}


// ---------------------------------------------------------------------------
// Homebrew services
// ---------------------------------------------------------------------------

/// One entry of `brew services list --json`, with the plist file it names
/// as read from disk (`None` when brew names no file).
#[derive(Debug)]
pub struct BrewService {
    pub name: String,
    pub status: String,
    pub user: Option<String>,
    pub plist: Option<PlistFile>,
    pub exit_code: Option<i32>,
}

/// The job label of a brew service: the `Label` of its plist when that plist
/// parses, else `homebrew.mxcl.<name>`.
pub open spec fn brew_label(b: BrewService) -> Seq<char> {
    match b.plist {
        Some(f) => match plist_service(f.path@, f.value, f.access, ServiceScope::UserAgent, 0) {
            Ok(v) => v.label,
            Err(_) => "homebrew.mxcl."@ + b.name@,
        },
        None => "homebrew.mxcl."@ + b.name@,
    }
}

/// The launchd domain brew runs a service in: `system` for root, else the
/// user's GUI domain.
pub open spec fn brew_domain(b: BrewService, uid: u32) -> Seq<char> {
    if opt_view(b.user) == Some("root"@) {
        "system"@
    } else {
        "gui/"@ + decimal(uid as nat)
    }
}

/// The path of the plist a brew service names.
pub open spec fn brew_file(b: BrewService) -> Option<Seq<char>> {
    match b.plist {
        Some(f) => Some(f.path@),
        None => None,
    }
}

/// The ownership of the plist a brew service names.
pub open spec fn brew_access(b: BrewService) -> Option<PathAccess> {
    match b.plist {
        Some(f) => Some(f.access),
        None => None,
    }
}

/// The configuration a brew service's plist gives, else an empty one; with
/// neither program nor arguments, the command is `brew services start <name>`.
pub open spec fn brew_config(b: BrewService, uid: u32) -> LaunchConfigView {
    let c = match b.plist {
        Some(f) => match plist_service(f.path@, f.value, f.access, ServiceScope::UserAgent, uid) {
            Ok(v) => v.config,
            Err(_) => empty_config(),
        },
        None => empty_config(),
    };
    if c.program is None && c.arguments.len() == 0 {
        LaunchConfigView { program: Some("brew services start "@ + b.name@), ..c }
    } else {
        c
    }
}

/// A known launchd row that brew also manages.
pub open spec fn with_brew(v: ServiceView, b: BrewService, uid: u32) -> ServiceView {
    let v1 = ServiceView {
        source: ServiceSource::Both,
        display_name: b.name@,
        brew_formula: Some(b.name@),
        brew_status: Some(b.status@),
        exit_code: match v.exit_code {
            Some(c) => Some(c),
            None => b.exit_code,
        },
        ..v
    };
    let v2 = if v.plist_path is None {
        ServiceView {
            plist_path: brew_file(b),
            elevation: elevation_needs(v.domain, brew_access(b), uid),
            ..v1
        }
    } else {
        v1
    };
    if v.status == ServiceStatus::Unloaded {
        ServiceView { status: brew_status(b.status@, b.exit_code), ..v2 }
    } else {
        v2
    }
}

/// The row of a brew service that launchd does not know.
pub open spec fn brew_row(b: BrewService, uid: u32) -> ServiceView {
    let domain = brew_domain(b, uid);
    ServiceView {
        id: domain + ":"@ + brew_label(b),
        label: brew_label(b),
        display_name: b.name@,
        source: ServiceSource::Homebrew,
        scope: if domain == "system"@ {
            ServiceScope::SystemDaemon
        } else {
            ServiceScope::UserAgent
        },
        domain,
        plist_path: brew_file(b),
        config: brew_config(b, uid),
        pid: None,
        exit_code: b.exit_code,
        status: brew_status(b.status@, b.exit_code),
        enabled: None,
        loaded: None,
        brew_formula: Some(b.name@),
        brew_status: Some(b.status@),
        safety_level: SafetyLevel::UserWritable,
        elevation: elevation_needs(domain, brew_access(b), uid),
        origin: OriginView { kind: Provenance::Unknown, confidence: Confidence::Guess, evidence: seq![] },
        health: seq![],
    }
}

/// The table after one brew service was merged in: a row with its id takes the
/// brew details, otherwise the service gets a Homebrew row of its own.
pub open spec fn brew_step(m: Map<Seq<char>, ServiceView>, b: BrewService, uid: u32) -> Map<
    Seq<char>,
    ServiceView,
> {
    let id = brew_domain(b, uid) + ":"@ + brew_label(b);
    if m.contains_key(id) {
        m.insert(id, with_brew(m[id], b, uid))
    } else {
        m.insert(id, brew_row(b, uid))
    }
}

/// The table after the brew services were merged in, in order.
pub open spec fn brew_fold(m: Map<Seq<char>, ServiceView>, bs: Seq<BrewService>, uid: u32) -> Map<
    Seq<char>,
    ServiceView,
>
    decreases bs.len(),
{
    if bs.len() == 0 {
        m
    } else {
        brew_step(brew_fold(m, bs.drop_last(), uid), bs.last(), uid)
    }
}

/// The job label of a brew service.
pub fn label_for_brew(brew: &BrewService) -> (r: String)
    ensures
        r@ == brew_label(*brew),
{
    match &brew.plist {
        Some(f) => match service_from_plist(f, ServiceScope::UserAgent, 0) {
            Ok(s) => s.label,
            Err(_) => concat2("homebrew.mxcl.", brew.name.as_str()),
        },
        None => concat2("homebrew.mxcl.", brew.name.as_str()),
    }
}

fn brew_config_of(brew: &BrewService, uid: u32) -> (r: LaunchConfig)
    ensures
        r@ == brew_config(*brew, uid),
{
    let mut c = match &brew.plist {
        Some(f) => match service_from_plist(f, ServiceScope::UserAgent, uid) {
            Ok(s) => s.config,
            Err(_) => LaunchConfig::empty(),
        },
        None => LaunchConfig::empty(),
    };
    if c.program.is_none() && c.arguments.len() == 0 {
        c.program = Some(concat2("brew services start ", brew.name.as_str()));
    }
    c
}

fn brew_access_of(brew: &BrewService) -> (r: Option<&PathAccess>)
    ensures
        match r {
            Some(a) => brew_access(*brew) == Some(*a),
            None => brew_access(*brew) is None,
        },
{
    match &brew.plist {
        Some(f) => Some(&f.access),
        None => None,
    }
}

fn brew_file_of(brew: &BrewService) -> (r: Option<String>)
    ensures
        opt_view(r) == brew_file(*brew),
{
    match &brew.plist {
        Some(f) => Some(f.path.clone()),
        None => None,
    }
}

/// Merges the services `brew services list --json` reported: a launchd row
/// with the same id becomes a row of both, taking the formula, brew status, an
/// exit code it lacked, the plist path it lacked, and a status where launchd
/// left it unloaded; any other brew service becomes a Homebrew row.
pub fn apply_brew_services(uid: u32, services: &mut ServiceTable, brew_services: &Vec<BrewService>)
    requires
        old(services).wf(),
    ensures
        final(services).wf(),
        final(services)@ == brew_fold(old(services)@, brew_services@, uid),
{
    let ghost m0 = services@;
    let mut i: usize = 0;
    while i < brew_services.len()
        invariant
            i <= brew_services@.len(),
            services.wf(),
            services@ == brew_fold(m0, brew_services@.take(i as int), uid),
        decreases brew_services.len() - i,
    {
        let brew = &brew_services[i];
        proof {
            assert(brew_services@.take(i + 1).drop_last() =~= brew_services@.take(i as int));
            assert(brew_services@.take(i + 1).last() == brew_services@[i as int]);
        }
        let label = label_for_brew(brew);
        let is_root = match &brew.user {
            Some(u) => str_eq(u.as_str(), "root"),
            None => false,
        };
        let domain = if is_root {
            owned("system")
        } else {
            gui_domain(uid)
        };
        let id = concat3(domain.as_str(), ":", label.as_str());
        let ghost k = id@;
        proof {
            services.lemma_keys_are_ids();
        }
        match services.remove(id.as_str()) {
            Some(mut s) => {
                let ghost v0 = s@;
                s.source = ServiceSource::Both;
                s.display_name = brew.name.clone();
                s.brew_formula = Some(brew.name.clone());
                s.brew_status = Some(brew.status.clone());
                s.exit_code = match s.exit_code {
                    Some(c) => Some(c),
                    None => brew.exit_code,
                };
                if s.plist_path.is_none() {
                    s.plist_path = brew_file_of(brew);
                    s.elevation = elevation_for(s.domain.as_str(), brew_access_of(brew), uid);
                }
                if s.status == ServiceStatus::Unloaded {
                    s.status = status_from_brew(brew.status.as_str(), brew.exit_code);
                }
                proof {
                    assert(s@ == with_brew(v0, *brew, uid));
                    assert(s@.id == k);
                }
                services.insert(s);
            },
            None => {
                let config = brew_config_of(brew, uid);
                let elevation = elevation_for(domain.as_str(), brew_access_of(brew), uid);
                let scope = if str_eq(domain.as_str(), "system") {
                    ServiceScope::SystemDaemon
                } else {
                    ServiceScope::UserAgent
                };
                let s = Service {
                    id,
                    label,
                    display_name: brew.name.clone(),
                    source: ServiceSource::Homebrew,
                    scope,
                    domain,
                    plist_path: brew_file_of(brew),
                    config,
                    pid: None,
                    exit_code: brew.exit_code,
                    status: status_from_brew(brew.status.as_str(), brew.exit_code),
                    enabled: None,
                    loaded: None,
                    brew_formula: Some(brew.name.clone()),
                    brew_status: Some(brew.status.clone()),
                    safety_level: SafetyLevel::UserWritable,
                    elevation,
                    origin: Origin::unknown(),
                    health: Vec::new(),
                };
                proof {
                    assert(s@.health =~= seq![]);
                    assert(s@.origin.evidence =~= seq![]);
                    assert(s@ == brew_row(*brew, uid));
                }
                services.insert(s);
            },
        }
        proof {
            let prev = brew_fold(m0, brew_services@.take(i as int), uid);
            assert(services@ =~= brew_step(prev, brew_services@[i as int], uid));
        }
        i = i + 1;
    }
    assert(brew_services@.take(brew_services@.len() as int) =~= brew_services@);
}


// ---------------------------------------------------------------------------
// Finishing
// ---------------------------------------------------------------------------

/// Whether the plist of a row is among the paths found on disk.
pub open spec fn plist_found(v: ServiceView, existing: Set<Seq<char>>) -> bool {
    match v.plist_path {
        Some(p) => existing.contains(p),
        None => false,
    }
}

/// Whether the executable a row's health check probes is among the paths found
/// on disk.
pub open spec fn program_found(v: ServiceView, existing: Set<Seq<char>>) -> bool {
    match probed_program(v.config) {
        Some(p) => existing.contains(p),
        None => false,
    }
}

/// A row with its provenance classified and its health warnings added.
pub open spec fn finished_row(v: ServiceView, home: Option<Seq<char>>, existing: Set<Seq<char>>) -> ServiceView {
    ServiceView {
        origin: origin_of(v, home),
        health: finished_health(v, plist_found(v, existing), program_found(v, existing)),
        ..v
    }
}

/// The table with every row finished.
pub open spec fn finished_table(
    m: Map<Seq<char>, ServiceView>,
    home: Option<Seq<char>>,
    existing: Set<Seq<char>>,
) -> Map<Seq<char>, ServiceView> {
    Map::new(|k: Seq<char>| m.contains_key(k), |k: Seq<char>| finished_row(m[k], home, existing))
}

/// Classifies the provenance of every service and adds its health warnings.
/// `existing` holds the paths that exist on disk among the plist paths and the
/// probed executables (see `health_probe`).
pub fn finish_services(services: &mut ServiceTable, home: Option<&str>, existing: &TextSet)
    requires
        old(services).wf(),
    ensures
        final(services).wf(),
        final(services)@ == finished_table(
            old(services)@,
            match home {
                Some(h) => Some(h@),
                None => None,
            },
            existing@,
        ),
{
    let ghost home_view = match home {
        Some(h) => Some(h@),
        None => None,
    };
    let ghost m0 = services@;
    let mut table = ServiceTable::new();
    std::mem::swap(services, &mut table);
    proof {
        table.lemma_ordered();
    }
    let mut rows_vec = table.into_ordered();
    let ghost before = rows(rows_vec@);
    let n = rows_vec.len();
    let mut i: usize = 0;
    while i < n
        invariant
            n == rows_vec@.len(),
            n == before.len(),
            i <= n,
            ids_ascending(before),
            rows_map(before) == m0,
            home_view == match home {
                Some(h) => Some(h@),
                None => None::<Seq<char>>,
            },
            forall|j: int| 0 <= j < i ==> #[trigger] rows(rows_vec@)[j] == finished_row(before[j], home_view, existing@),
            forall|j: int| i <= j < n ==> #[trigger] rows(rows_vec@)[j] == before[j],
        decreases n - i,
    {
        let ghost prev = rows_vec@;
        let origin = classify_origin_with(&rows_vec[i], home);
        let plist_exists = match &rows_vec[i].plist_path {
            Some(p) => existing.contains(p.as_str()),
            None => false,
        };
        let program_exists = match health_probe(&rows_vec[i].config) {
            Some(p) => existing.contains(p.as_str()),
            None => false,
        };
        finish_health(&mut rows_vec[i], plist_exists, program_exists);
        rows_vec[i].origin = origin;
        proof {
            let r = rows_vec@[i as int];
            let p = prev[i as int];
            assert forall|j: int| 0 <= j < n && j != i implies #[trigger] rows(rows_vec@)[j] == rows(prev)[j] by {
                assert(rows_vec@[j] == prev[j]);
            }
            assert(rows(prev)[i as int] == p@);
            assert(rows(rows_vec@)[i as int] == r@);
            assert(r@ == finished_row(p@, home_view, existing@));
        }
        i = i + 1;
    }
    let ghost after = rows(rows_vec@);
    proof {
        assert forall|a: int, b: int| 0 <= a < b < after.len() implies lex_lt(after[a].id, after[b].id) by {
            assert(after[a].id == before[a].id);
            assert(after[b].id == before[b].id);
        }
        let target = finished_table(m0, home_view, existing@);
        assert forall|k: Seq<char>| #[trigger] rows_map(after).dom().contains(k) == target.dom().contains(k) by {
            if rows_map(after).dom().contains(k) {
                let j = choose|j: int| 0 <= j < after.len() && after[j].id == k;
                assert(before[j].id == k);
                lemma_rows_map_at(before, j);
            }
            if target.dom().contains(k) {
                let j = choose|j: int| 0 <= j < before.len() && before[j].id == k;
                assert(after[j].id == k);
            }
        }
        assert forall|k: Seq<char>| #[trigger] rows_map(after).dom().contains(k) implies rows_map(after)[k] == target[k] by {
            let j = choose|j: int| 0 <= j < after.len() && after[j].id == k;
            lemma_rows_map_at(after, j);
            lemma_rows_map_at(before, j);
        }
        assert(rows_map(after) =~= target);
    }
    *services = ServiceTable::from_ordered(rows_vec);
}


// ---------------------------------------------------------------------------
// The whole pass
// ---------------------------------------------------------------------------

/// The plist directories to scan, in order: the user's agents (when the home
/// directory is known), then the global agents and daemons, then Apple's.
pub open spec fn plist_dirs(home: Option<Seq<char>>) -> Seq<(Seq<char>, ServiceScope)> {
    let fixed = seq![
        ("/Library/LaunchAgents"@, ServiceScope::GlobalAgent),
        ("/Library/LaunchDaemons"@, ServiceScope::SystemDaemon),
        ("/System/Library/LaunchAgents"@, ServiceScope::GlobalAgent),
        ("/System/Library/LaunchDaemons"@, ServiceScope::SystemDaemon),
    ];
    match home {
        Some(h) => seq![(join_path(h, "Library/LaunchAgents"@), ServiceScope::UserAgent)] + fixed,
        None => fixed,
    }
}

/// The directories that hold launchd plists, each with the scope of its jobs.
pub fn service_dirs(home: Option<&str>) -> (r: Vec<(String, ServiceScope)>)
    ensures
        r@.len() == plist_dirs(
            match home {
                Some(h) => Some(h@),
                None => None,
            },
        ).len(),
        forall|i: int|
            0 <= i < r@.len() ==> (#[trigger] r@[i]).0@ == plist_dirs(
                match home {
                    Some(h) => Some(h@),
                    None => None,
                },
            )[i].0 && r@[i].1 == plist_dirs(
                match home {
                    Some(h) => Some(h@),
                    None => None,
                },
            )[i].1,
{
    let mut dirs: Vec<(String, ServiceScope)> = Vec::new();
    match home {
        Some(h) => dirs.push((join_relative(h, "Library/LaunchAgents"), ServiceScope::UserAgent)),
        None => {},
    }
    dirs.push((owned("/Library/LaunchAgents"), ServiceScope::GlobalAgent));
    dirs.push((owned("/Library/LaunchDaemons"), ServiceScope::SystemDaemon));
    dirs.push((owned("/System/Library/LaunchAgents"), ServiceScope::GlobalAgent));
    dirs.push((owned("/System/Library/LaunchDaemons"), ServiceScope::SystemDaemon));
    dirs
}

/// The launchd domains whose jobs are listed: the user's GUI and user domains,
/// then the system domain.
pub fn runtime_domains(uid: u32) -> (r: Vec<String>)
    ensures
        r@.len() == 3,
        r@[0]@ == "gui/"@ + decimal(uid as nat),
        r@[1]@ == "user/"@ + decimal(uid as nat),
        r@[2]@ == "system"@,
{
    let digits = crate::text::decimal_string(uid as u64);
    let mut v: Vec<String> = Vec::new();
    v.push(gui_domain(uid));
    v.push(concat2("user/", digits.as_str()));
    v.push(owned("system"));
    v
}

/// How long a `brew services` snapshot stays fresh, in milliseconds.
pub const BREW_TTL_MS: u64 = 30000;

/// Whether a cached `brew services` snapshot is reused: only when the caller
/// did not ask for fresh brew state, a snapshot exists, and it is younger
/// than the TTL. `snapshot_age_ms` is the snapshot's age in whole milliseconds.
pub fn reuse_brew_snapshot(force: bool, snapshot_age_ms: Option<u64>) -> (r: bool)
    ensures
        r == (!force && (snapshot_age_ms matches Some(age) && age < BREW_TTL_MS)),
{
    if force {
        return false;
    }
    match snapshot_age_ms {
        Some(age) => age < BREW_TTL_MS,
        None => false,
    }
}

/// The files found in one plist directory.
#[derive(Debug)]
pub struct PlistDirListing {
    pub dir: String,
    pub scope: ServiceScope,
    pub files: Vec<PlistFile>,
}

/// The table after the plist directories were scanned in order.
pub open spec fn dirs_fold(m: Map<Seq<char>, ServiceView>, uid: u32, ls: Seq<PlistDirListing>) -> Map<
    Seq<char>,
    ServiceView,
>
    decreases ls.len(),
{
    if ls.len() == 0 {
        m
    } else {
        let l = ls.last();
        plist_dir_fold(dirs_fold(m, uid, ls.drop_last()), l.dir@, l.scope, uid, l.files@)
    }
}

/// The inventory's table: plists first, then launchd's runtime state, then the
/// disabled marks, then Homebrew (when `brew services` answered), and last the
/// provenance and health of every row.
pub open spec fn discovered(
    uid: u32,
    ls: Seq<PlistDirListing>,
    rt: Map<Seq<char>, RuntimeState>,
    disabled: Set<Seq<char>>,
    brew: Option<Seq<BrewService>>,
    home: Option<Seq<char>>,
    existing: Set<Seq<char>>,
) -> Map<Seq<char>, ServiceView> {
    finished_table(merged(uid, ls, rt, disabled, brew), home, existing)
}

/// The table before provenance and health: plists, then launchd's runtime
/// state, then the disabled marks, then Homebrew when `brew services`
/// answered.
pub open spec fn merged(
    uid: u32,
    ls: Seq<PlistDirListing>,
    rt: Map<Seq<char>, RuntimeState>,
    disabled: Set<Seq<char>>,
    brew: Option<Seq<BrewService>>,
) -> Map<Seq<char>, ServiceView> {
    let plists = dirs_fold(Map::empty(), uid, ls);
    let loaded = disabled_merge(runtime_merge(plists, rt, rt.dom(), uid), disabled);
    match brew {
        Some(bs) => brew_fold(loaded, bs, uid),
        None => loaded,
    }
}

/// Merges what was read into one table: the plist directories in order, the
/// runtime and disabled state launchctl printed, and the brew services
/// (`None` when `brew services` failed).
pub fn merge_discovered(
    uid: u32,
    listings: &Vec<PlistDirListing>,
    runtime: &RuntimeTable,
    disabled: &TextSet,
    brew: Option<&Vec<BrewService>>,
) -> (r: ServiceTable)
    requires
        runtime.wf(),
    ensures
        r.wf(),
        r@ == merged(
            uid,
            listings@,
            runtime@,
            disabled@,
            match brew {
                Some(b) => Some(b@),
                None => None,
            },
        ),
{
    let mut services = ServiceTable::new();
    let mut i: usize = 0;
    while i < listings.len()
        invariant
            i <= listings@.len(),
            services.wf(),
            services@ == dirs_fold(Map::empty(), uid, listings@.take(i as int)),
        decreases listings.len() - i,
    {
        proof {
            assert(listings@.take(i + 1).drop_last() =~= listings@.take(i as int));
            assert(listings@.take(i + 1).last() == listings@[i as int]);
        }
        let l = &listings[i];
        read_plist_dir(l.dir.as_str(), l.scope, uid, &l.files, &mut services);
        i = i + 1;
    }
    assert(listings@.take(listings@.len() as int) =~= listings@);
    apply_runtime(&mut services, runtime, uid);
    apply_disabled(&mut services, disabled);
    match brew {
        Some(b) => apply_brew_services(uid, &mut services, b),
        None => {},
    }
    services
}

/// The paths whose existence the health checks ask about: each plist path and
/// each probed executable.
pub open spec fn probe_paths(rows: Seq<ServiceView>) -> Seq<Seq<char>>
    decreases rows.len(),
{
    if rows.len() == 0 {
        seq![]
    } else {
        let v = rows.last();
        probe_paths(rows.drop_last()) + (match v.plist_path {
            Some(p) => seq![p],
            None => seq![],
        }) + (match probed_program(v.config) {
            Some(p) => seq![p],
            None => seq![],
        })
    }
}

/// The paths to look up on disk before finishing the table.
pub fn health_probes(services: &ServiceTable) -> (r: Vec<String>)
    requires
        services.wf(),
    ensures
        string_views(r@) == probe_paths(services.ordered()),
{
    let list = services.ordered_rows();
    let mut out: Vec<String> = Vec::new();
    let mut i: usize = 0;
    while i < list.len()
        invariant
            i <= list@.len(),
            rows(list@) == services.ordered(),
            string_views(out@) == probe_paths(rows(list@).take(i as int)),
        decreases list.len() - i,
    {
        proof {
            assert(rows(list@).take(i + 1).drop_last() =~= rows(list@).take(i as int));
            assert(rows(list@).take(i + 1).last() == list@[i as int]@);
        }
        let ghost before = string_views(out@);
        let ghost v = list@[i as int]@;
        match &list[i].plist_path {
            Some(p) => out.push(p.clone()),
            None => {},
        }
        let ghost mid = string_views(out@);
        assert(mid =~= before + (match v.plist_path {
            Some(p) => seq![p],
            None => seq![],
        }));
        match health_probe(&list[i].config) {
            Some(p) => out.push(p),
            None => {},
        }
        assert(string_views(out@) =~= mid + (match probed_program(v.config) {
            Some(p) => seq![p],
            None => seq![],
        }));
        i = i + 1;
    }
    assert(rows(list@).take(list@.len() as int) =~= rows(list@));
    out
}

/// Finishes the inventory: classifies provenance with the home directory,
/// adds health warnings given the paths that exist (see `health_probes`), and
/// lists the services in ascending id order with the warnings met on the way.
pub fn finish_inventory(services: ServiceTable, home: Option<&str>, existing: &TextSet, warnings: Vec<String>) -> (r: Inventory)
    requires
        services.wf(),
    ensures
        ids_ascending(rows(r.services@)),
        rows_map(rows(r.services@)) == finished_table(
            services@,
            match home {
                Some(h) => Some(h@),
                None => None,
            },
            existing@,
        ),
        r.warnings@ == warnings@,
{
    let mut services = services;
    finish_services(&mut services, home, existing);
    proof {
        services.lemma_ordered();
    }
    let rows_vec = services.into_ordered();
    Inventory { services: rows_vec, warnings }
}

/// Builds the inventory from what was read: the plist directories, the
/// runtime and disabled state launchctl printed, the brew services (`None`
/// when `brew services` failed), the home directory, the paths that exist on
/// disk, and the warnings met while reading. Services come out in ascending id
/// order.
pub fn assemble_inventory(
    uid: u32,
    listings: &Vec<PlistDirListing>,
    runtime: &RuntimeTable,
    disabled: &TextSet,
    brew: Option<&Vec<BrewService>>,
    home: Option<&str>,
    existing: &TextSet,
    warnings: Vec<String>,
) -> (r: Inventory)
    requires
        runtime.wf(),
    ensures
        ids_ascending(rows(r.services@)),
        rows_map(rows(r.services@)) == discovered(
            uid,
            listings@,
            runtime@,
            disabled@,
            match brew {
                Some(b) => Some(b@),
                None => None,
            },
            match home {
                Some(h) => Some(h@),
                None => None,
            },
            existing@,
        ),
        r.warnings@ == warnings@,
{
    let services = merge_discovered(uid, listings, runtime, disabled, brew);
    finish_inventory(services, home, existing, warnings)
}

} // verus!
