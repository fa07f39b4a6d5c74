//! The form that creates a user agent: its fields and how typing edits them,
//! the checks on what was typed, the plist it becomes and the launchctl steps
//! that follow.
use vstd::prelude::*;
use vstd::string::*;
use crate::discovery::{PlistValue, TextSet};
use crate::paths::{home_dir, join_path, join_relative, parent_of, path_parent};
use crate::text::{
    concat2, concat3, has_prefix, has_prefix_exec, join, join_strings, owned, parse_u64_chars, parse_u64_text, pop_char, push_char, split_once, split_once_exec, string_of,
    str_eq, string_views, trim, trim_str,
};

verus! {

/// The fields of the create form, in display order.
#[derive(Clone, Copy, Debug, PartialEq, Eq, Structural)]
pub enum CreateField {
    Label,
    Command,
    Arguments,
    WorkingDirectory,
    Environment,
    StartInterval,
    Stdout,
    Stderr,
    RunAtLoad,
    KeepAlive,
    BootstrapNow,
    StartNow,
}

/// How many fields the form has.
pub const FIELD_COUNT: usize = 12;

/// The field shown at position `i`.
pub open spec fn field_at(i: int) -> CreateField {
    if i == 0 {
        CreateField::Label
    } else if i == 1 {
        CreateField::Command
    } else if i == 2 {
        CreateField::Arguments
    } else if i == 3 {
        CreateField::WorkingDirectory
    } else if i == 4 {
        CreateField::Environment
    } else if i == 5 {
        CreateField::StartInterval
    } else if i == 6 {
        CreateField::Stdout
    } else if i == 7 {
        CreateField::Stderr
    } else if i == 8 {
        CreateField::RunAtLoad
    } else if i == 9 {
        CreateField::KeepAlive
    } else if i == 10 {
        CreateField::BootstrapNow
    } else {
        CreateField::StartNow
    }
}

/// The caption of a field.
pub open spec fn field_caption(f: CreateField) -> Seq<char> {
    match f {
        CreateField::Label => "Label"@,
        CreateField::Command => "Command"@,
        CreateField::Arguments => "Arguments"@,
        CreateField::WorkingDirectory => "Working directory"@,
        CreateField::Environment => "Environment"@,
        CreateField::StartInterval => "Start interval"@,
        CreateField::Stdout => "Stdout path"@,
        CreateField::Stderr => "Stderr path"@,
        CreateField::RunAtLoad => "Run at load"@,
        CreateField::KeepAlive => "Keep alive"@,
        CreateField::BootstrapNow => "Bootstrap now"@,
        CreateField::StartNow => "Start now"@,
    }
}

/// Whether a field holds text (the others are switches).
pub open spec fn is_text_field(f: CreateField) -> bool {
    !(f is RunAtLoad || f is KeepAlive || f is BootstrapNow || f is StartNow)
}

impl CreateField {
    pub fn label(self) -> (r: &'static str)
        ensures
            r@ == field_caption(self),
    {
        match self {
            CreateField::Label => "Label",
            CreateField::Command => "Command",
            CreateField::Arguments => "Arguments",
            CreateField::WorkingDirectory => "Working directory",
            CreateField::Environment => "Environment",
            CreateField::StartInterval => "Start interval",
            CreateField::Stdout => "Stdout path",
            CreateField::Stderr => "Stderr path",
            CreateField::RunAtLoad => "Run at load",
            CreateField::KeepAlive => "Keep alive",
            CreateField::BootstrapNow => "Bootstrap now",
            CreateField::StartNow => "Start now",
        }
    }

    /// Whether the field is a switch rather than text.
    pub fn is_switch(self) -> (r: bool)
        ensures
            r == !is_text_field(self),
    {
        !self.editable()
    }

    fn editable(self) -> (r: bool)
        ensures
            r == is_text_field(self),
    {
        !(match self {
            CreateField::RunAtLoad | CreateField::KeepAlive | CreateField::BootstrapNow
            | CreateField::StartNow => true,
            _ => false,
        })
    }
}

fn field_at_index(i: usize) -> (r: CreateField)
    requires
        i < FIELD_COUNT,
    ensures
        r == field_at(i as int),
{
    if i == 0 {
        CreateField::Label
    } else if i == 1 {
        CreateField::Command
    } else if i == 2 {
        CreateField::Arguments
    } else if i == 3 {
        CreateField::WorkingDirectory
    } else if i == 4 {
        CreateField::Environment
    } else if i == 5 {
        CreateField::StartInterval
    } else if i == 6 {
        CreateField::Stdout
    } else if i == 7 {
        CreateField::Stderr
    } else if i == 8 {
        CreateField::RunAtLoad
    } else if i == 9 {
        CreateField::KeepAlive
    } else if i == 10 {
        CreateField::BootstrapNow
    } else {
        CreateField::StartNow
    }
}

/// What was typed into the create form, and which field has the cursor.
#[derive(Clone, Debug)]
pub struct CreateServiceForm {
    pub label: String,
    pub command: String,
    pub arguments: String,
    pub working_directory: String,
    pub environment: String,
    pub start_interval: String,
    pub stdout_path: String,
    pub stderr_path: String,
    pub run_at_load: bool,
    pub keep_alive: bool,
    pub bootstrap_now: bool,
    pub start_now: bool,
    pub selected: usize,
}

/// The mathematical content of the form.
pub struct FormView {
    pub label: Seq<char>,
    pub command: Seq<char>,
    pub arguments: Seq<char>,
    pub working_directory: Seq<char>,
    pub environment: Seq<char>,
    pub start_interval: Seq<char>,
    pub stdout_path: Seq<char>,
    pub stderr_path: Seq<char>,
    pub run_at_load: bool,
    pub keep_alive: bool,
    pub bootstrap_now: bool,
    pub start_now: bool,
    pub selected: int,
}

impl View for CreateServiceForm {
    type V = FormView;

    open spec fn view(&self) -> FormView {
        FormView {
            label: self.label@,
            command: self.command@,
            arguments: self.arguments@,
            working_directory: self.working_directory@,
            environment: self.environment@,
            start_interval: self.start_interval@,
            stdout_path: self.stdout_path@,
            stderr_path: self.stderr_path@,
            run_at_load: self.run_at_load,
            keep_alive: self.keep_alive,
            bootstrap_now: self.bootstrap_now,
            start_now: self.start_now,
            selected: self.selected as int,
        }
    }
}

/// The text of a text field.
pub open spec fn text_of(v: FormView, f: CreateField) -> Seq<char> {
    match f {
        CreateField::Label => v.label,
        CreateField::Command => v.command,
        CreateField::Arguments => v.arguments,
        CreateField::WorkingDirectory => v.working_directory,
        CreateField::Environment => v.environment,
        CreateField::StartInterval => v.start_interval,
        CreateField::Stdout => v.stdout_path,
        CreateField::Stderr => v.stderr_path,
        _ => seq![],
    }
}

/// The form with the text of field `f` replaced by `t`.
pub open spec fn with_text(v: FormView, f: CreateField, t: Seq<char>) -> FormView {
    match f {
        CreateField::Label => FormView { label: t, ..v },
        CreateField::Command => FormView { command: t, ..v },
        CreateField::Arguments => FormView { arguments: t, ..v },
        CreateField::WorkingDirectory => FormView { working_directory: t, ..v },
        CreateField::Environment => FormView { environment: t, ..v },
        CreateField::StartInterval => FormView { start_interval: t, ..v },
        CreateField::Stdout => FormView { stdout_path: t, ..v },
        CreateField::Stderr => FormView { stderr_path: t, ..v },
        _ => v,
    }
}

/// The form after `c` was typed: appended to the selected field when that
/// field holds text.
pub open spec fn typed(v: FormView, c: char) -> FormView {
    let f = field_at(v.selected);
    if is_text_field(f) {
        with_text(v, f, text_of(v, f).push(c))
    } else {
        v
    }
}

/// The form after a backspace: the selected text field loses its last
/// character, if it has one.
pub open spec fn erased(v: FormView) -> FormView {
    let f = field_at(v.selected);
    if is_text_field(f) && text_of(v, f).len() > 0 {
        with_text(v, f, text_of(v, f).drop_last())
    } else {
        v
    }
}

/// The form after the selected switch was flipped. Starting now needs a
/// bootstrap, so turning start-now on turns bootstrap-now on, and turning
/// bootstrap-now off turns start-now off.
pub open spec fn toggled(v: FormView) -> FormView {
    match field_at(v.selected) {
        CreateField::RunAtLoad => FormView { run_at_load: !v.run_at_load, ..v },
        CreateField::KeepAlive => FormView { keep_alive: !v.keep_alive, ..v },
        CreateField::BootstrapNow => FormView {
            bootstrap_now: !v.bootstrap_now,
            start_now: if v.bootstrap_now {
                false
            } else {
                v.start_now
            },
            ..v
        },
        CreateField::StartNow => FormView {
            start_now: !v.start_now,
            bootstrap_now: if !v.start_now {
                true
            } else {
                v.bootstrap_now
            },
            ..v
        },
        _ => v,
    }
}

/// The form with the cursor on the next field, wrapping around.
pub open spec fn next_field(v: FormView) -> FormView {
    FormView { selected: (v.selected + 1) % (FIELD_COUNT as int), ..v }
}

/// The form with the cursor on the previous field, wrapping around.
pub open spec fn previous_field(v: FormView) -> FormView {
    FormView {
        selected: if v.selected == 0 {
            FIELD_COUNT - 1
        } else {
            v.selected - 1
        },
        ..v
    }
}

/// A required text: `(required)` while empty.
pub open spec fn required_mark(t: Seq<char>) -> Seq<char> {
    if t.len() == 0 {
        "(required)"@
    } else {
        t
    }
}

/// An optional text: `-` while empty.
pub open spec fn empty_mark(t: Seq<char>) -> Seq<char> {
    if t.len() == 0 {
        "-"@
    } else {
        t
    }
}

/// A switch: `yes` or `no`.
pub open spec fn bool_mark(b: bool) -> Seq<char> {
    if b {
        "yes"@
    } else {
        "no"@
    }
}

/// What the form shows for a field.
pub open spec fn shown_value(v: FormView, f: CreateField) -> Seq<char> {
    match f {
        CreateField::Label => required_mark(v.label),
        CreateField::Command => required_mark(v.command),
        CreateField::RunAtLoad => bool_mark(v.run_at_load),
        CreateField::KeepAlive => bool_mark(v.keep_alive),
        CreateField::BootstrapNow => bool_mark(v.bootstrap_now),
        CreateField::StartNow => bool_mark(v.start_now),
        _ => empty_mark(text_of(v, f)),
    }
}

fn required_marker(value: &str) -> (r: String)
    ensures
        r@ == required_mark(value@),
{
    if value.is_empty() {
        owned("(required)")
    } else {
        owned(value)
    }
}

fn empty_marker(value: &str) -> (r: String)
    ensures
        r@ == empty_mark(value@),
{
    if value.is_empty() {
        owned("-")
    } else {
        owned(value)
    }
}

fn bool_marker(value: bool) -> (r: String)
    ensures
        r@ == bool_mark(value),
{
    if value {
        owned("yes")
    } else {
        owned("no")
    }
}

/// The plist a new user agent is written to: `<label>.plist` under
/// `~/Library/LaunchAgents`, with the label trimmed.
pub open spec fn agent_path(home: Seq<char>, label: Seq<char>) -> Seq<char> {
    join_path(join_path(home, "Library/LaunchAgents"@), trim(label) + ".plist"@)
}

impl CreateServiceForm {
    /// The view of a new, empty form.
    pub open spec fn new_view() -> FormView {
        FormView {
            label: seq![],
            command: seq![],
            arguments: seq![],
            working_directory: seq![],
            environment: seq![],
            start_interval: seq![],
            stdout_path: seq![],
            stderr_path: seq![],
            run_at_load: false,
            keep_alive: false,
            bootstrap_now: false,
            start_now: false,
            selected: 0,
        }
    }

    pub fn new() -> (r: Self)
        ensures
            r@ == (FormView {
                label: seq![],
                command: seq![],
                arguments: seq![],
                working_directory: seq![],
                environment: seq![],
                start_interval: seq![],
                stdout_path: seq![],
                stderr_path: seq![],
                run_at_load: false,
                keep_alive: false,
                bootstrap_now: false,
                start_now: false,
                selected: 0,
            }),
    {
        let r = CreateServiceForm {
            label: String::new(),
            command: String::new(),
            arguments: String::new(),
            working_directory: String::new(),
            environment: String::new(),
            start_interval: String::new(),
            stdout_path: String::new(),
            stderr_path: String::new(),
            run_at_load: false,
            keep_alive: false,
            bootstrap_now: false,
            start_now: false,
            selected: 0,
        };
        assert(r@.label =~= seq![]);
        r
    }

    /// The fields in display order.
    pub fn fields() -> (r: Vec<CreateField>)
        ensures
            r@.len() == FIELD_COUNT,
            forall|i: int| 0 <= i < FIELD_COUNT ==> #[trigger] r@[i] == field_at(i),
    {
        let mut v: Vec<CreateField> = Vec::new();
        let mut i: usize = 0;
        while i < FIELD_COUNT
            invariant
                i <= FIELD_COUNT,
                v@.len() == i,
                forall|k: int| 0 <= k < i ==> #[trigger] v@[k] == field_at(k),
            decreases FIELD_COUNT - i,
        {
            v.push(field_at_index(i));
            i = i + 1;
        }
        v
    }

    pub fn current_field(&self) -> (r: CreateField)
        requires
            self.selected < FIELD_COUNT,
        ensures
            r == field_at(self.selected as int),
    {
        field_at_index(self.selected)
    }

    /// What the form shows for a field: the text, `(required)` or `-` while
    /// empty, and `yes` or `no` for switches.
    pub fn value_for(&self, field: CreateField) -> (r: String)
        ensures
            r@ == shown_value(self@, field),
    {
        match field {
            CreateField::Label => required_marker(self.label.as_str()),
            CreateField::Command => required_marker(self.command.as_str()),
            CreateField::Arguments => empty_marker(self.arguments.as_str()),
            CreateField::WorkingDirectory => empty_marker(self.working_directory.as_str()),
            CreateField::Environment => empty_marker(self.environment.as_str()),
            CreateField::StartInterval => empty_marker(self.start_interval.as_str()),
            CreateField::Stdout => empty_marker(self.stdout_path.as_str()),
            CreateField::Stderr => empty_marker(self.stderr_path.as_str()),
            CreateField::RunAtLoad => bool_marker(self.run_at_load),
            CreateField::KeepAlive => bool_marker(self.keep_alive),
            CreateField::BootstrapNow => bool_marker(self.bootstrap_now),
            CreateField::StartNow => bool_marker(self.start_now),
        }
    }

    /// Moves the cursor to the next field, wrapping around.
    pub fn next(&mut self)
        requires
            old(self).selected < usize::MAX,
        ensures
            final(self)@ == next_field(old(self)@),
    {
        self.selected = (self.selected + 1) % FIELD_COUNT;
    }

    /// Moves the cursor to the previous field, wrapping around.
    pub fn previous(&mut self)
        ensures
            final(self)@ == previous_field(old(self)@),
    {
        self.selected = if self.selected == 0 {
            FIELD_COUNT - 1
        } else {
            self.selected - 1
        };
    }

    /// Types a character into the selected field, if it holds text.
    pub fn insert(&mut self, value: char)
        requires
            old(self).selected < FIELD_COUNT,
        ensures
            final(self)@ == typed(old(self)@, value),
    {
        let f = self.current_field();
        if !f.editable() {
            return;
        }
        match f {
            CreateField::Label => push_char(&mut self.label, value),
            CreateField::Command => push_char(&mut self.command, value),
            CreateField::Arguments => push_char(&mut self.arguments, value),
            CreateField::WorkingDirectory => push_char(&mut self.working_directory, value),
            CreateField::Environment => push_char(&mut self.environment, value),
            CreateField::StartInterval => push_char(&mut self.start_interval, value),
            CreateField::Stdout => push_char(&mut self.stdout_path, value),
            CreateField::Stderr => push_char(&mut self.stderr_path, value),
            _ => {},
        }
    }

    /// Erases the last character of the selected field, if it holds text.
    pub fn backspace(&mut self)
        requires
            old(self).selected < FIELD_COUNT,
        ensures
            final(self)@ == erased(old(self)@),
    {
        let f = self.current_field();
        if !f.editable() {
            return;
        }
        match f {
            CreateField::Label => {
                pop_char(&mut self.label);
            },
            CreateField::Command => {
                pop_char(&mut self.command);
            },
            CreateField::Arguments => {
                pop_char(&mut self.arguments);
            },
            CreateField::WorkingDirectory => {
                pop_char(&mut self.working_directory);
            },
            CreateField::Environment => {
                pop_char(&mut self.environment);
            },
            CreateField::StartInterval => {
                pop_char(&mut self.start_interval);
            },
            CreateField::Stdout => {
                pop_char(&mut self.stdout_path);
            },
            CreateField::Stderr => {
                pop_char(&mut self.stderr_path);
            },
            _ => {},
        }
    }

    /// Flips the selected switch.
    pub fn toggle(&mut self)
        requires
            old(self).selected < FIELD_COUNT,
        ensures
            final(self)@ == toggled(old(self)@),
    {
        match self.current_field() {
            CreateField::RunAtLoad => self.run_at_load = !self.run_at_load,
            CreateField::KeepAlive => self.keep_alive = !self.keep_alive,
            CreateField::BootstrapNow => {
                self.bootstrap_now = !self.bootstrap_now;
                if !self.bootstrap_now {
                    self.start_now = false;
                }
            },
            CreateField::StartNow => {
                self.start_now = !self.start_now;
                if self.start_now {
                    self.bootstrap_now = true;
                }
            },
            _ => {},
        }
    }

    /// Where the plist goes for a given home directory.
    pub fn target_path_in(&self, home: &str) -> (r: String)
        ensures
            r@ == agent_path(home@, self.label@),
    {
        let dir = join_relative(home, "Library/LaunchAgents");
        let mut name = string_of(&trim_str(self.label.as_str()));
        name.append(".plist");
        join_relative(dir.as_str(), name.as_str())
    }

    /// Where the plist goes, under the user's home directory; fails when the
    /// home directory cannot be found.
    pub fn target_path(&self) -> (r: Result<String, String>)
        ensures
            r matches Ok(p) ==> exists|home: Seq<char>| p@ == agent_path(home, self.label@),
            r matches Err(e) ==> e@ == "home directory not found"@,
    {
        match home_dir() {
            Some(h) => Ok(self.target_path_in(h.as_str())),
            None => Err(owned("home directory not found")),
        }
    }
}


// ---------------------------------------------------------------------------
// Shell-style words
// ---------------------------------------------------------------------------

#[verifier::external_type_specification]
#[verifier::external_body]
pub struct ExShellParseError(shell_words::ParseError);

/// What `shell_words::split` returns for this text: its words, or `None`
/// when it reports a missing closing quote.
pub uninterp spec fn shell_split(raw: Seq<char>) -> Option<Seq<Seq<char>>>;

/// `shell_words::split`: splits text into words the way a POSIX shell does,
/// with quote removal and no expansions; it fails only on an unmatched quote.
/// Its result is named `shell_split`.
#[verifier::external_body]
fn split_shell_words(raw: &str) -> (r: Result<Vec<String>, shell_words::ParseError>)
    ensures
        match r {
            Ok(words) => shell_split(raw@) == Some(string_views(words@)),
            Err(_) => shell_split(raw@) is None,
        },
{
    shell_words::split(raw)
}

/// The extra arguments typed after the command, split into words.
pub open spec fn argument_tail(raw: Seq<char>) -> Result<Seq<Seq<char>>, Seq<char>> {
    if trim(raw).len() == 0 {
        Ok(seq![])
    } else {
        match shell_split(raw) {
            Some(words) => Ok(words),
            None => Err("arguments must use valid shell-style quoting"@),
        }
    }
}

/// Splits the arguments field into words; blank means no arguments.
pub fn parse_argument_tail(raw_arguments: &str) -> (r: Result<Vec<String>, String>)
    ensures
        match argument_tail(raw_arguments@) {
            Ok(words) => r matches Ok(v) && string_views(v@) == words,
            Err(m) => r matches Err(e) && e@ == m,
        },
{
    if trim_str(raw_arguments).len() == 0 {
        let v: Vec<String> = Vec::new();
        assert(string_views(v@) =~= seq![]);
        return Ok(v);
    }
    match split_shell_words(raw_arguments) {
        Ok(words) => Ok(words),
        Err(_) => Err(owned("arguments must use valid shell-style quoting")),
    }
}

/// The program arguments of the agent: the trimmed command, then the extra
/// arguments.
pub open spec fn agent_arguments(v: FormView) -> Result<Seq<Seq<char>>, Seq<char>> {
    match argument_tail(v.arguments) {
        Ok(tail) => Ok(seq![trim(v.command)] + tail),
        Err(m) => Err(m),
    }
}

pub fn program_argument_strings(form: &CreateServiceForm) -> (r: Result<Vec<String>, String>)
    ensures
        match agent_arguments(form@) {
            Ok(args) => r matches Ok(v) && string_views(v@) == args,
            Err(m) => r matches Err(e) && e@ == m,
        },
{
    let tail = match parse_argument_tail(form.arguments.as_str()) {
        Ok(t) => t,
        Err(e) => {
            return Err(e);
        },
    };
    let mut args: Vec<String> = Vec::new();
    args.push(string_of(&trim_str(form.command.as_str())));
    let mut i: usize = 0;
    while i < tail.len()
        invariant
            i <= tail@.len(),
            string_views(args@) == seq![trim(form.command@)] + string_views(tail@).take(i as int),
        decreases tail.len() - i,
    {
        let ghost before = string_views(args@);
        args.push(tail[i].clone());
        assert(string_views(args@) =~= before.push(tail@[i as int]@));
        assert(string_views(tail@).take(i + 1) =~= string_views(tail@).take(i as int).push(
            tail@[i as int]@,
        ));
        i = i + 1;
    }
    assert(string_views(tail@).take(tail@.len() as int) =~= string_views(tail@));
    Ok(args)
}

// ---------------------------------------------------------------------------
// Environment
// ---------------------------------------------------------------------------

/// Characters allowed in an environment variable name.
pub open spec fn name_char(c: char) -> bool {
    ('a' <= c && c <= 'z') || ('A' <= c && c <= 'Z') || ('0' <= c && c <= '9') || c == '_'
}

/// One `KEY=value` word as a pair, or why it is not one.
pub open spec fn env_assignment(w: Seq<char>) -> Result<(Seq<char>, Seq<char>), Seq<char>> {
    match split_once(w, "="@) {
        None => Err("environment entry must be KEY=value: "@ + w),
        Some((k, v)) => if k.len() == 0 {
            Err("environment variable name cannot be empty"@)
        } else if !(forall|i: int| 0 <= i < k.len() ==> name_char(#[trigger] k[i])) {
            Err("environment variable name may only contain letters, numbers, and '_': "@ + k)
        } else {
            Ok((k, v))
        },
    }
}

/// The pairs of a list of `KEY=value` words, or the first problem.
pub open spec fn env_assignments(ws: Seq<Seq<char>>) -> Result<Seq<(Seq<char>, Seq<char>)>, Seq<char>>
    decreases ws.len(),
{
    if ws.len() == 0 {
        Ok(seq![])
    } else {
        match env_assignments(ws.drop_last()) {
            Err(m) => Err(m),
            Ok(prev) => match env_assignment(ws.last()) {
                Err(m) => Err(m),
                Ok(kv) => Ok(prev.push(kv)),
            },
        }
    }
}

/// The environment typed into the form; blank means none.
pub open spec fn environment_of(raw: Seq<char>) -> Result<Seq<(Seq<char>, Seq<char>)>, Seq<char>> {
    if trim(raw).len() == 0 {
        Ok(seq![])
    } else {
        match shell_split(raw) {
            None => Err("environment must use valid shell-style quoting"@),
            Some(ws) => env_assignments(ws),
        }
    }
}

/// The views of a list of string pairs.
pub open spec fn pair_views(v: Seq<(String, String)>) -> Seq<(Seq<char>, Seq<char>)> {
    v.map_values(|p: (String, String)| (p.0@, p.1@))
}

fn is_name_char(c: char) -> (r: bool)
    ensures
        r == name_char(c),
{
    ('a' <= c && c <= 'z') || ('A' <= c && c <= 'Z') || ('0' <= c && c <= '9') || c == '_'
}

fn env_pair(word: &str) -> (r: Result<(String, String), String>)
    ensures
        match env_assignment(word@) {
            Ok(kv) => r matches Ok(p) && p.0@ == kv.0 && p.1@ == kv.1,
            Err(m) => r matches Err(e) && e@ == m,
        },
{
    let chars = crate::text::chars_of(word);
    let eq = crate::text::chars_of("=");
    let (key, value) = match split_once_exec(&chars, &eq) {
        None => {
            return Err(concat2("environment entry must be KEY=value: ", word));
        },
        Some(parts) => parts,
    };
    if key.len() == 0 {
        return Err(owned("environment variable name cannot be empty"));
    }
    let mut i: usize = 0;
    while i < key.len()
        invariant
            i <= key@.len(),
            key@.len() > 0,
            split_once(word@, "="@) == Some((key@, value@)),
            forall|k: int| 0 <= k < i ==> name_char(#[trigger] key@[k]),
        decreases key.len() - i,
    {
        if !is_name_char(key[i]) {
            assert(!name_char(key@[i as int]));
            let k = string_of(&key);
            let r = concat2(
                "environment variable name may only contain letters, numbers, and '_': ",
                k.as_str(),
            );
            return Err(r);
        }
        i = i + 1;
    }
    Ok((string_of(&key), string_of(&value)))
}

/// The pairs of `KEY=value` words, in order, or the first word that is not
/// one.
pub fn environment_from_words(words: &Vec<String>) -> (r: Result<Vec<(String, String)>, String>)
    ensures
        match env_assignments(string_views(words@)) {
            Ok(pairs) => r matches Ok(v) && pair_views(v@) == pairs,
            Err(m) => r matches Err(e) && e@ == m,
        },
{
    let mut parsed: Vec<(String, String)> = Vec::new();
    let mut i: usize = 0;
    assert(string_views(words@).take(0) =~= seq![]);
    assert(pair_views(parsed@) =~= seq![]);
    while i < words.len()
        invariant
            i <= words@.len(),
            env_assignments(string_views(words@).take(i as int)) == Ok::<
                Seq<(Seq<char>, Seq<char>)>,
                Seq<char>,
            >(pair_views(parsed@)),
        decreases words.len() - i,
    {
        proof {
            assert(string_views(words@).take(i + 1).drop_last() =~= string_views(words@).take(i as int));
            assert(string_views(words@).take(i + 1).last() == words@[i as int]@);
        }
        match env_pair(words[i].as_str()) {
            Err(e) => {
                proof {
                    let t = string_views(words@).take(i + 1);
                    assert(env_assignments(t) == Err::<Seq<(Seq<char>, Seq<char>)>, Seq<char>>(e@));
                    lemma_env_error_sticks(string_views(words@), i as int + 1);
                }
                return Err(e);
            },
            Ok(p) => {
                let ghost before = pair_views(parsed@);
                parsed.push(p);
                assert(pair_views(parsed@) =~= before.push((p.0@, p.1@)));
            },
        }
        i = i + 1;
    }
    assert(string_views(words@).take(words@.len() as int) =~= string_views(words@));
    Ok(parsed)
}

/// Once a prefix of the words fails, the whole list fails the same way.
proof fn lemma_env_error_sticks(ws: Seq<Seq<char>>, n: int)
    requires
        0 <= n <= ws.len(),
        env_assignments(ws.take(n)) is Err,
    ensures
        env_assignments(ws) == env_assignments(ws.take(n)),
    decreases ws.len() - n,
{
    if n < ws.len() {
        assert(ws.take(n + 1).drop_last() =~= ws.take(n));
        lemma_env_error_sticks(ws, n + 1);
    } else {
        assert(ws.take(n) =~= ws);
    }
}

/// Parses the environment field: shell-style words, each `KEY=value`.
pub fn parse_environment(raw_environment: &str) -> (r: Result<Vec<(String, String)>, String>)
    ensures
        match environment_of(raw_environment@) {
            Ok(pairs) => r matches Ok(v) && pair_views(v@) == pairs,
            Err(m) => r matches Err(e) && e@ == m,
        },
{
    if trim_str(raw_environment).len() == 0 {
        let v: Vec<(String, String)> = Vec::new();
        assert(pair_views(v@) =~= seq![]);
        return Ok(v);
    }
    match split_shell_words(raw_environment) {
        Err(_) => Err(owned("environment must use valid shell-style quoting")),
        Ok(words) => environment_from_words(&words),
    }
}

// ---------------------------------------------------------------------------
// Start interval
// ---------------------------------------------------------------------------

/// The start interval typed into the form: blank means none; otherwise a
/// positive number of seconds.
pub open spec fn start_interval_of(raw: Seq<char>) -> Result<Option<u64>, Seq<char>> {
    let t = trim(raw);
    if t.len() == 0 {
        Ok(None)
    } else {
        match parse_u64_text(t) {
            None => Err("start interval must be a positive integer: "@ + t),
            Some(n) => if n == 0 {
                Err("start interval must be greater than 0"@)
            } else {
                Ok(Some(n))
            },
        }
    }
}

pub fn parse_start_interval(raw_interval: &str) -> (r: Result<Option<u64>, String>)
    ensures
        match start_interval_of(raw_interval@) {
            Ok(n) => r == Ok::<Option<u64>, String>(n),
            Err(m) => r matches Err(e) && e@ == m,
        },
{
    let t = trim_str(raw_interval);
    if t.len() == 0 {
        return Ok(None);
    }
    match parse_u64_chars(&t) {
        None => {
            let text = string_of(&t);
            Err(concat2("start interval must be a positive integer: ", text.as_str()))
        },
        Some(n) => if n == 0 {
            Err(owned("start interval must be greater than 0"))
        } else {
            Ok(Some(n))
        },
    }
}


// ---------------------------------------------------------------------------
// Validation
// ---------------------------------------------------------------------------

/// Characters allowed in a job label.
pub open spec fn label_char(c: char) -> bool {
    ('a' <= c && c <= 'z') || ('A' <= c && c <= 'Z') || ('0' <= c && c <= '9') || c == '.' || c == '-'
        || c == '_'
}

fn is_label_char(c: char) -> (r: bool)
    ensures
        r == label_char(c),
{
    ('a' <= c && c <= 'z') || ('A' <= c && c <= 'Z') || ('0' <= c && c <= '9') || c == '.' || c == '-'
        || c == '_'
}

/// The directory whose existence decides whether an optional path field is
/// acceptable: the path itself for a directory field, else its parent. `None`
/// when the field is blank or the path has no parent.
pub open spec fn dir_probe(raw: Seq<char>, is_dir: bool) -> Option<Seq<char>> {
    let p = trim(raw);
    if p.len() == 0 {
        None
    } else if is_dir {
        Some(p)
    } else {
        path_parent(p)
    }
}

/// A list of zero or one path.
pub open spec fn opt_list(o: Option<Seq<char>>) -> Seq<Seq<char>> {
    match o {
        Some(p) => seq![p],
        None => seq![],
    }
}

/// The paths validation asks the file system about: those whose existence
/// matters (the command), and those that must be directories.
pub open spec fn probes(v: FormView) -> (Seq<Seq<char>>, Seq<Seq<char>>) {
    (
        seq![trim(v.command)],
        opt_list(dir_probe(v.working_directory, true)) + opt_list(dir_probe(v.stdout_path, false))
            + opt_list(dir_probe(v.stderr_path, false)),
    )
}

/// What is wrong with an optional path field, given the paths that are
/// directories: a directory field must name one, a file field's parent must
/// be one.
pub open spec fn path_problem(what: Seq<char>, raw: Seq<char>, is_dir: bool, dirs: Set<Seq<char>>) -> Option<
    Seq<char>,
> {
    let p = trim(raw);
    if p.len() == 0 {
        None
    } else if is_dir {
        if dirs.contains(p) {
            None
        } else {
            Some(what + " does not exist: "@ + p)
        }
    } else {
        match path_parent(p) {
            None => Some(what + " has no parent directory: "@ + p),
            Some(d) => if dirs.contains(d) {
                None
            } else {
                Some(what + " parent does not exist: "@ + d)
            },
        }
    }
}

/// The first problem with the form, in the order the checks run, given the
/// paths that exist and the paths that are directories; `None` when the form
/// can be written.
pub open spec fn form_problem(v: FormView, existing: Set<Seq<char>>, dirs: Set<Seq<char>>) -> Option<
    Seq<char>,
> {
    let label = trim(v.label);
    let command = trim(v.command);
    if label.len() == 0 {
        Some("label is required"@)
    } else if !(forall|i: int| 0 <= i < label.len() ==> label_char(#[trigger] label[i])) {
        Some("label may only contain letters, numbers, '.', '-' and '_'"@)
    } else if command.len() == 0 {
        Some("command is required"@)
    } else if !has_prefix(command, "/"@) {
        Some("command must be an absolute path"@)
    } else if !existing.contains(command) {
        Some("command does not exist: "@ + command)
    } else if path_problem("working directory"@, v.working_directory, true, dirs) is Some {
        path_problem("working directory"@, v.working_directory, true, dirs)
    } else if path_problem("stdout path"@, v.stdout_path, false, dirs) is Some {
        path_problem("stdout path"@, v.stdout_path, false, dirs)
    } else if path_problem("stderr path"@, v.stderr_path, false, dirs) is Some {
        path_problem("stderr path"@, v.stderr_path, false, dirs)
    } else if argument_tail(v.arguments) is Err {
        Some(argument_tail(v.arguments)->Err_0)
    } else if environment_of(v.environment) is Err {
        Some(environment_of(v.environment)->Err_0)
    } else if start_interval_of(v.start_interval) is Err {
        Some(start_interval_of(v.start_interval)->Err_0)
    } else if v.start_now && !v.bootstrap_now {
        Some("start now requires bootstrap now"@)
    } else {
        None
    }
}

fn push_dir_probe(out: &mut Vec<String>, raw: &str, is_dir: bool)
    ensures
        string_views(final(out)@) == string_views(old(out)@) + opt_list(dir_probe(raw@, is_dir)),
{
    let p = trim_str(raw);
    let ghost before = string_views(out@);
    if p.len() == 0 {
        assert(string_views(out@) =~= before + seq![]);
        return;
    }
    let text = string_of(&p);
    if is_dir {
        out.push(text);
        assert(string_views(out@) =~= before + seq![p@]);
    } else {
        match parent_of(text.as_str()) {
            Some(d) => {
                let ghost dv = d@;
                out.push(d);
                assert(string_views(out@) =~= before + seq![dv]);
            },
            None => {
                assert(string_views(out@) =~= before + seq![]);
            },
        }
    }
}

/// The paths to look up before validating: first those that must exist,
/// then those that must be directories.
pub fn validation_probes(form: &CreateServiceForm) -> (r: (Vec<String>, Vec<String>))
    ensures
        string_views(r.0@) == probes(form@).0,
        string_views(r.1@) == probes(form@).1,
{
    let mut existing: Vec<String> = Vec::new();
    existing.push(string_of(&trim_str(form.command.as_str())));
    assert(string_views(existing@) =~= seq![trim(form.command@)]);
    let mut dirs: Vec<String> = Vec::new();
    assert(string_views(dirs@) =~= seq![]);
    push_dir_probe(&mut dirs, form.working_directory.as_str(), true);
    push_dir_probe(&mut dirs, form.stdout_path.as_str(), false);
    push_dir_probe(&mut dirs, form.stderr_path.as_str(), false);
    assert(seq![] + opt_list(dir_probe(form.working_directory@, true)) =~= opt_list(
        dir_probe(form.working_directory@, true),
    ));
    (existing, dirs)
}

fn validate_parent(what: &str, raw_path: &str, path_is_directory: bool, dirs: &TextSet) -> (r: Result<(), String>)
    ensures
        match path_problem(what@, raw_path@, path_is_directory, dirs@) {
            None => r is Ok,
            Some(m) => r matches Err(e) && e@ == m,
        },
{
    let p = trim_str(raw_path);
    if p.len() == 0 {
        return Ok(());
    }
    let path = string_of(&p);
    if path_is_directory {
        if !dirs.contains(path.as_str()) {
            return Err(concat3(what, " does not exist: ", path.as_str()));
        }
        return Ok(());
    }
    match parent_of(path.as_str()) {
        None => Err(concat3(what, " has no parent directory: ", path.as_str())),
        Some(parent) => if dirs.contains(parent.as_str()) {
            Ok(())
        } else {
            Err(concat3(what, " parent does not exist: ", parent.as_str()))
        },
    }
}

/// Checks the form before anything is written: a label of letters, digits,
/// `.`, `-` and `_`; an absolute command that exists; existing directories for
/// the optional paths; well-formed arguments, environment and interval; and
/// bootstrap-now whenever start-now is set. `existing` holds the paths of
/// `validation_probes` that exist, `dirs` those that are directories.
pub fn validate(form: &CreateServiceForm, existing: &TextSet, dirs: &TextSet) -> (r: Result<(), String>)
    ensures
        match form_problem(form@, existing@, dirs@) {
            None => r is Ok,
            Some(m) => r matches Err(e) && e@ == m,
        },
{
    let label = trim_str(form.label.as_str());
    if label.len() == 0 {
        return Err(owned("label is required"));
    }
    let mut i: usize = 0;
    while i < label.len()
        invariant
            i <= label@.len(),
            label@ == trim(form.label@),
            label@.len() > 0,
            forall|k: int| 0 <= k < i ==> label_char(#[trigger] label@[k]),
        decreases label.len() - i,
    {
        if !is_label_char(label[i]) {
            assert(!label_char(label@[i as int]));
            return Err(owned("label may only contain letters, numbers, '.', '-' and '_'"));
        }
        i = i + 1;
    }
    let command = trim_str(form.command.as_str());
    if command.len() == 0 {
        return Err(owned("command is required"));
    }
    if !has_prefix_exec(&command, &crate::text::chars_of("/")) {
        return Err(owned("command must be an absolute path"));
    }
    let command_text = string_of(&command);
    if !existing.contains(command_text.as_str()) {
        return Err(concat2("command does not exist: ", command_text.as_str()));
    }
    match validate_parent("working directory", form.working_directory.as_str(), true, dirs) {
        Err(e) => {
            return Err(e);
        },
        Ok(()) => {},
    }
    match validate_parent("stdout path", form.stdout_path.as_str(), false, dirs) {
        Err(e) => {
            return Err(e);
        },
        Ok(()) => {},
    }
    match validate_parent("stderr path", form.stderr_path.as_str(), false, dirs) {
        Err(e) => {
            return Err(e);
        },
        Ok(()) => {},
    }
    match parse_argument_tail(form.arguments.as_str()) {
        Err(e) => {
            return Err(e);
        },
        Ok(_) => {},
    }
    match parse_environment(form.environment.as_str()) {
        Err(e) => {
            return Err(e);
        },
        Ok(_) => {},
    }
    match parse_start_interval(form.start_interval.as_str()) {
        Err(e) => {
            return Err(e);
        },
        Ok(_) => {},
    }
    if form.start_now && !form.bootstrap_now {
        return Err(owned("start now requires bootstrap now"));
    }
    Ok(())
}


// ---------------------------------------------------------------------------
// The plist
// ---------------------------------------------------------------------------

/// Whether no two entries share a key.
pub open spec fn keys_unique(t: Seq<(Seq<char>, Seq<char>)>) -> bool {
    forall|i: int, j: int| 0 <= i < j < t.len() ==> t[i].0 != t[j].0
}

/// `t` with `kv` set the way a plist dictionary inserts: an entry with its key
/// takes the new value where it stands, otherwise the pair goes last.
pub open spec fn env_upsert(t: Seq<(Seq<char>, Seq<char>)>, kv: (Seq<char>, Seq<char>)) -> Seq<
    (Seq<char>, Seq<char>),
> {
    if exists|i: int| 0 <= i < t.len() && t[i].0 == kv.0 {
        t.update(choose|i: int| 0 <= i < t.len() && t[i].0 == kv.0, kv)
    } else {
        t.push(kv)
    }
}

/// The `EnvironmentVariables` dictionary of a list of pairs.
pub open spec fn env_table(pairs: Seq<(Seq<char>, Seq<char>)>) -> Seq<(Seq<char>, Seq<char>)>
    decreases pairs.len(),
{
    if pairs.len() == 0 {
        seq![]
    } else {
        env_upsert(env_table(pairs.drop_last()), pairs.last())
    }
}

proof fn lemma_upsert_unique(t: Seq<(Seq<char>, Seq<char>)>, kv: (Seq<char>, Seq<char>))
    requires
        keys_unique(t),
    ensures
        keys_unique(env_upsert(t, kv)),
{
}

/// Whether a plist value is this string.
pub open spec fn string_is(x: PlistValue, s: Seq<char>) -> bool {
    x matches PlistValue::String(v) && v@ == s
}

/// Whether plist values are these strings, in order.
pub open spec fn strings_are(items: Seq<PlistValue>, ss: Seq<Seq<char>>) -> bool {
    items.len() == ss.len() && forall|i: int| 0 <= i < items.len() ==> string_is(#[trigger] items[i], ss[i])
}

/// Whether dictionary entries are these string pairs, in order.
pub open spec fn string_entries(e: Seq<(String, PlistValue)>, t: Seq<(Seq<char>, Seq<char>)>) -> bool {
    e.len() == t.len() && forall|i: int|
        0 <= i < e.len() ==> (#[trigger] e[i]).0@ == t[i].0 && string_is(e[i].1, t[i].1)
}

/// The keys an agent plist can hold.
#[derive(Clone, Copy, Debug, PartialEq, Eq, Structural)]
pub enum AgentKey {
    Label,
    ProgramArguments,
    RunAtLoad,
    KeepAlive,
    WorkingDirectory,
    StandardOutPath,
    StandardErrorPath,
    EnvironmentVariables,
    StartInterval,
}

/// The name of a key as written in the plist.
pub open spec fn key_name(k: AgentKey) -> Seq<char> {
    match k {
        AgentKey::Label => "Label"@,
        AgentKey::ProgramArguments => "ProgramArguments"@,
        AgentKey::RunAtLoad => "RunAtLoad"@,
        AgentKey::KeepAlive => "KeepAlive"@,
        AgentKey::WorkingDirectory => "WorkingDirectory"@,
        AgentKey::StandardOutPath => "StandardOutPath"@,
        AgentKey::StandardErrorPath => "StandardErrorPath"@,
        AgentKey::EnvironmentVariables => "EnvironmentVariables"@,
        AgentKey::StartInterval => "StartInterval"@,
    }
}

/// `[key]` when the trimmed text is not blank.
pub open spec fn key_if_text(key: AgentKey, raw: Seq<char>) -> Seq<AgentKey> {
    if trim(raw).len() > 0 {
        seq![key]
    } else {
        seq![]
    }
}

/// The keys of the agent plist, in the order they are written.
pub open spec fn agent_keys(v: FormView, env: Seq<(Seq<char>, Seq<char>)>, interval: Option<u64>) -> Seq<
    AgentKey,
> {
    seq![AgentKey::Label, AgentKey::ProgramArguments, AgentKey::RunAtLoad, AgentKey::KeepAlive]
        + key_if_text(AgentKey::WorkingDirectory, v.working_directory) + key_if_text(
        AgentKey::StandardOutPath,
        v.stdout_path,
    ) + key_if_text(AgentKey::StandardErrorPath, v.stderr_path) + (if env.len() > 0 {
        seq![AgentKey::EnvironmentVariables]
    } else {
        seq![]
    }) + (if interval is Some {
        seq![AgentKey::StartInterval]
    } else {
        seq![]
    })
}

/// The value the agent plist holds under `key`.
pub open spec fn agent_value(
    v: FormView,
    args: Seq<Seq<char>>,
    env: Seq<(Seq<char>, Seq<char>)>,
    interval: Option<u64>,
    key: AgentKey,
    x: PlistValue,
) -> bool {
    match key {
        AgentKey::Label => string_is(x, trim(v.label)),
        AgentKey::ProgramArguments => x matches PlistValue::Array(a) && strings_are(a@, args),
        AgentKey::RunAtLoad => x == PlistValue::Boolean(v.run_at_load),
        AgentKey::KeepAlive => x == PlistValue::Boolean(v.keep_alive),
        AgentKey::WorkingDirectory => string_is(x, trim(v.working_directory)),
        AgentKey::StandardOutPath => string_is(x, trim(v.stdout_path)),
        AgentKey::StandardErrorPath => string_is(x, trim(v.stderr_path)),
        AgentKey::EnvironmentVariables => x matches PlistValue::Dictionary(e) && string_entries(e@, env_table(env)),
        AgentKey::StartInterval => interval matches Some(n) && x == PlistValue::Integer(n as i128),
    }
}

/// Entries whose keys are `ks` and whose values are those of the agent plist.
pub open spec fn entries_ok(
    d: Seq<(String, PlistValue)>,
    ks: Seq<AgentKey>,
    v: FormView,
    args: Seq<Seq<char>>,
    env: Seq<(Seq<char>, Seq<char>)>,
    interval: Option<u64>,
) -> bool {
    d.len() == ks.len() && forall|i: int|
        0 <= i < d.len() ==> (#[trigger] d[i]).0@ == key_name(ks[i]) && agent_value(v, args, env, interval, ks[i], d[i].1)
}

proof fn lemma_entries_push(
    d: Seq<(String, PlistValue)>,
    ks: Seq<AgentKey>,
    e: (String, PlistValue),
    k: AgentKey,
    v: FormView,
    args: Seq<Seq<char>>,
    env: Seq<(Seq<char>, Seq<char>)>,
    interval: Option<u64>,
)
    requires
        entries_ok(d, ks, v, args, env, interval),
        e.0@ == key_name(k),
        agent_value(v, args, env, interval, k, e.1),
    ensures
        entries_ok(d.push(e), ks.push(k), v, args, env, interval),
{
    assert forall|i: int| 0 <= i < d.len() + 1 implies (#[trigger] d.push(e)[i]).0@ == key_name(ks.push(k)[i])
        && agent_value(v, args, env, interval, ks.push(k)[i], d.push(e)[i].1) by {
        if i < d.len() {
            assert(d.push(e)[i] == d[i]);
        }
    }
}

/// Whether `d` is the dictionary of the agent plist.
pub open spec fn agent_dict(
    d: Seq<(String, PlistValue)>,
    v: FormView,
    args: Seq<Seq<char>>,
    env: Seq<(Seq<char>, Seq<char>)>,
    interval: Option<u64>,
) -> bool {
    entries_ok(d, agent_keys(v, env, interval), v, args, env, interval)
}

fn string_values(items: &Vec<String>) -> (r: Vec<PlistValue>)
    ensures
        strings_are(r@, string_views(items@)),
{
    let mut out: Vec<PlistValue> = Vec::new();
    let mut i: usize = 0;
    while i < items.len()
        invariant
            i <= items@.len(),
            out@.len() == i,
            forall|k: int| 0 <= k < i ==> string_is(#[trigger] out@[k], items@[k]@),
        decreases items.len() - i,
    {
        out.push(PlistValue::String(items[i].clone()));
        i = i + 1;
    }
    out
}

fn find_key(entries: &Vec<(String, PlistValue)>, key: &str) -> (r: Option<usize>)
    ensures
        match r {
            Some(j) => j < entries@.len() && entries@[j as int].0@ == key@,
            None => forall|k: int| 0 <= k < entries@.len() ==> (#[trigger] entries@[k]).0@ != key@,
        },
{
    let mut j: usize = 0;
    while j < entries.len()
        invariant
            j <= entries@.len(),
            forall|k: int| 0 <= k < j ==> (#[trigger] entries@[k]).0@ != key@,
        decreases entries.len() - j,
    {
        if str_eq(entries[j].0.as_str(), key) {
            return Some(j);
        }
        j = j + 1;
    }
    None
}

fn env_entries(pairs: &Vec<(String, String)>) -> (r: Vec<(String, PlistValue)>)
    ensures
        string_entries(r@, env_table(pair_views(pairs@))),
{
    let mut out: Vec<(String, PlistValue)> = Vec::new();
    let ghost mut t: Seq<(Seq<char>, Seq<char>)> = seq![];
    let mut i: usize = 0;
    while i < pairs.len()
        invariant
            i <= pairs@.len(),
            t == env_table(pair_views(pairs@).take(i as int)),
            keys_unique(t),
            string_entries(out@, t),
        decreases pairs.len() - i,
    {
        proof {
            assert(pair_views(pairs@).take(i + 1).drop_last() =~= pair_views(pairs@).take(i as int));
            assert(pair_views(pairs@).take(i + 1).last() == (pairs@[i as int].0@, pairs@[i as int].1@));
        }
        let key = &pairs[i].0;
        let value = &pairs[i].1;
        let ghost kv = (key@, value@);
        proof {
            lemma_upsert_unique(t, kv);
        }
        match find_key(&out, key.as_str()) {
            Some(j) => {
                proof {
                    assert(t[j as int].0 == kv.0);
                    let c = choose|c: int| 0 <= c < t.len() && t[c].0 == kv.0;
                    assert(c == j);
                }
                out.set(j, (key.clone(), PlistValue::String(value.clone())));
                proof {
                    t = t.update(j as int, kv);
                }
            },
            None => {
                proof {
                    assert forall|c: int| 0 <= c < t.len() implies t[c].0 != kv.0 by {
                        assert(out@[c].0@ == t[c].0);
                    }
                }
                out.push((key.clone(), PlistValue::String(value.clone())));
                proof {
                    t = t.push(kv);
                }
            },
        }
        i = i + 1;
    }
    assert(pair_views(pairs@).take(pairs@.len() as int) =~= pair_views(pairs@));
    out
}

/// The agent plist the form describes, or the first problem with its
/// arguments, environment or interval.
pub fn user_agent_plist(form: &CreateServiceForm) -> (r: Result<PlistValue, String>)
    ensures
        match (agent_arguments(form@), environment_of(form@.environment), start_interval_of(form@.start_interval)) {
            (Err(m), _, _) => r matches Err(e) && e@ == m,
            (Ok(_), Err(m), _) => r matches Err(e) && e@ == m,
            (Ok(_), Ok(_), Err(m)) => r matches Err(e) && e@ == m,
            (Ok(args), Ok(env), Ok(interval)) => r matches Ok(PlistValue::Dictionary(d)) && agent_dict(
                d@,
                form@,
                args,
                env,
                interval,
            ),
        },
{
    let args = match program_argument_strings(form) {
        Ok(a) => a,
        Err(e) => {
            return Err(e);
        },
    };
    let env = match parse_environment(form.environment.as_str()) {
        Ok(e) => e,
        Err(e) => {
            return Err(e);
        },
    };
    let interval = match parse_start_interval(form.start_interval.as_str()) {
        Ok(i) => i,
        Err(e) => {
            return Err(e);
        },
    };
    let ghost v = form@;
    let ghost argv = string_views(args@);
    let ghost envv = pair_views(env@);
    let ghost keys = agent_keys(v, envv, interval);
    let mut d: Vec<(String, PlistValue)> = Vec::new();
    let ghost mut ks: Seq<AgentKey> = seq![];
    proof {
        assert(entries_ok(d@, ks, v, argv, envv, interval));
    }
    let e = (owned("Label"), PlistValue::String(string_of(&trim_str(form.label.as_str()))));
    proof { lemma_entries_push(d@, ks, e, AgentKey::Label, v, argv, envv, interval); ks = ks.push(AgentKey::Label); }
    d.push(e);
    let e = (owned("ProgramArguments"), PlistValue::Array(string_values(&args)));
    proof { lemma_entries_push(d@, ks, e, AgentKey::ProgramArguments, v, argv, envv, interval); ks = ks.push(AgentKey::ProgramArguments); }
    d.push(e);
    let e = (owned("RunAtLoad"), PlistValue::Boolean(form.run_at_load));
    proof { lemma_entries_push(d@, ks, e, AgentKey::RunAtLoad, v, argv, envv, interval); ks = ks.push(AgentKey::RunAtLoad); }
    d.push(e);
    let e = (owned("KeepAlive"), PlistValue::Boolean(form.keep_alive));
    proof { lemma_entries_push(d@, ks, e, AgentKey::KeepAlive, v, argv, envv, interval); ks = ks.push(AgentKey::KeepAlive); }
    d.push(e);
    let wd = trim_str(form.working_directory.as_str());
    if wd.len() > 0 {
        let e = (owned("WorkingDirectory"), PlistValue::String(string_of(&wd)));
        proof { lemma_entries_push(d@, ks, e, AgentKey::WorkingDirectory, v, argv, envv, interval); ks = ks.push(AgentKey::WorkingDirectory); }
        d.push(e);
    }
    let out = trim_str(form.stdout_path.as_str());
    if out.len() > 0 {
        let e = (owned("StandardOutPath"), PlistValue::String(string_of(&out)));
        proof { lemma_entries_push(d@, ks, e, AgentKey::StandardOutPath, v, argv, envv, interval); ks = ks.push(AgentKey::StandardOutPath); }
        d.push(e);
    }
    let err = trim_str(form.stderr_path.as_str());
    if err.len() > 0 {
        let e = (owned("StandardErrorPath"), PlistValue::String(string_of(&err)));
        proof { lemma_entries_push(d@, ks, e, AgentKey::StandardErrorPath, v, argv, envv, interval); ks = ks.push(AgentKey::StandardErrorPath); }
        d.push(e);
    }
    if env.len() > 0 {
        let e = (owned("EnvironmentVariables"), PlistValue::Dictionary(env_entries(&env)));
        proof { lemma_entries_push(d@, ks, e, AgentKey::EnvironmentVariables, v, argv, envv, interval); ks = ks.push(AgentKey::EnvironmentVariables); }
        d.push(e);
    }
    match interval {
        Some(n) => {
            let e = (owned("StartInterval"), PlistValue::Integer(n as i128));
            proof { lemma_entries_push(d@, ks, e, AgentKey::StartInterval, v, argv, envv, interval); ks = ks.push(AgentKey::StartInterval); }
            d.push(e);
        },
        None => {},
    }
    proof {
        assert(ks =~= keys);
    }
    Ok(PlistValue::Dictionary(d))
}


// ---------------------------------------------------------------------------
// After writing
// ---------------------------------------------------------------------------

/// The plist that was written and the reports of the launchctl steps run.
#[derive(Clone, Debug)]
pub struct CreateOutcome {
    pub path: String,
    pub steps: Vec<String>,
}

/// The status line after a create: the path, then the step reports.
pub open spec fn outcome_message(path: Seq<char>, steps: Seq<Seq<char>>) -> Seq<char> {
    if steps.len() == 0 {
        "created "@ + path
    } else {
        "created "@ + path + "; "@ + join(steps, "; "@)
    }
}

impl CreateOutcome {
    pub fn status_message(&self) -> (r: String)
        ensures
            r@ == outcome_message(self.path@, string_views(self.steps@)),
    {
        let mut m = concat2("created ", self.path.as_str());
        if self.steps.len() == 0 {
            m
        } else {
            m.append("; ");
            let steps = join_strings(&self.steps, "; ");
            m.append(steps.as_str());
            m
        }
    }
}

/// The views of a list of argument lists.
pub open spec fn arg_lists(v: Seq<Vec<String>>) -> Seq<Seq<Seq<char>>> {
    v.map_values(|a: Vec<String>| string_views(a@))
}

/// The launchctl calls that follow a create: bootstrap the plist into the GUI
/// domain when asked, then kickstart the job when asked.
pub open spec fn launch_commands(v: FormView, gui_domain: Seq<char>, path: Seq<char>) -> Seq<Seq<Seq<char>>> {
    (if v.bootstrap_now {
        seq![seq!["bootstrap"@, gui_domain, path]]
    } else {
        seq![]
    }) + (if v.start_now {
        seq![seq!["kickstart"@, gui_domain + "/"@ + trim(v.label)]]
    } else {
        seq![]
    })
}

/// The launchctl arguments of the steps that follow writing the plist.
pub fn launch_steps(form: &CreateServiceForm, gui_domain: &str, path: &str) -> (r: Vec<Vec<String>>)
    ensures
        arg_lists(r@) == launch_commands(form@, gui_domain@, path@),
{
    let mut steps: Vec<Vec<String>> = Vec::new();
    if form.bootstrap_now {
        let mut a: Vec<String> = Vec::new();
        a.push(owned("bootstrap"));
        a.push(owned(gui_domain));
        a.push(owned(path));
        assert(string_views(a@) =~= seq!["bootstrap"@, gui_domain@, path@]);
        steps.push(a);
    }
    if form.start_now {
        let mut a: Vec<String> = Vec::new();
        a.push(owned("kickstart"));
        let label = string_of(&trim_str(form.label.as_str()));
        a.push(concat3(gui_domain, "/", label.as_str()));
        assert(string_views(a@) =~= seq!["kickstart"@, gui_domain@ + "/"@ + trim(form.label@)]);
        steps.push(a);
    }
    assert(arg_lists(steps@) =~= launch_commands(form@, gui_domain@, path@));
    steps
}

/// How a launchctl step went.
#[derive(Clone, Debug)]
pub enum StepOutcome {
    Succeeded,
    Failed { stdout: String, stderr: String },
    NotRun { error: String },
}

/// The report of one launchctl step: the command, then `ok`, or `failed`
/// with stderr (stdout when stderr is blank) or the reason it did not run.
pub open spec fn step_text(args: Seq<Seq<char>>, outcome: StepOutcome) -> Seq<char> {
    let command = "launchctl "@ + join(args, " "@);
    match outcome {
        StepOutcome::Succeeded => command + ": ok"@,
        StepOutcome::Failed { stdout, stderr } => command + ": failed "@ + (if trim(stderr@).len() == 0 {
            trim(stdout@)
        } else {
            trim(stderr@)
        }),
        StepOutcome::NotRun { error } => command + ": failed "@ + error@,
    }
}

pub fn step_report(args: &Vec<String>, outcome: &StepOutcome) -> (r: String)
    ensures
        r@ == step_text(string_views(args@), *outcome),
{
    let joined = join_strings(args, " ");
    let mut m = concat2("launchctl ", joined.as_str());
    match outcome {
        StepOutcome::Succeeded => {
            m.append(": ok");
        },
        StepOutcome::Failed { stdout, stderr } => {
            m.append(": failed ");
            let e = trim_str(stderr.as_str());
            let msg = if e.len() == 0 {
                string_of(&trim_str(stdout.as_str()))
            } else {
                string_of(&e)
            };
            m.append(msg.as_str());
        },
        StepOutcome::NotRun { error } => {
            m.append(": failed ");
            m.append(error.as_str());
        },
    }
    m
}

} // verus!
