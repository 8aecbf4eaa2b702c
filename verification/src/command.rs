//! Host actions as data.
//!
//! The modules that change the host (firewall rules, bridges, daemons) decide
//! *what* to do as a list of steps; the application runs the steps in order.
use crate::sysctl::SysctlMode;
use vstd::prelude::*;

verus! {

/// What happens when a step fails.
#[derive(Debug, Clone, Copy, PartialEq, Eq, Structural)]
pub enum OnFailure {
    /// Stop and report the failure as the error of the whole operation.
    Abort,
    /// Go on with the next step.
    Ignore,
    /// Stop without an error: what was done so far stands.
    Stop,
}

/// One thing to do on the host.
#[derive(Debug, Clone)]
pub enum Action {
    /// Run `program` with `args`; it fails when the program cannot be started
    /// or exits unsuccessfully.
    Run { program: String, args: Vec<String> },
    /// Like `Run`, with `input` written to the program's standard input.
    Feed { program: String, args: Vec<String>, input: String },
    /// Run `program` with `args` and write its standard output to `path`,
    /// creating the parent directory when it is missing.
    Save { program: String, args: Vec<String>, path: String },
    /// Replace the file at `path` with `content`.
    Write { path: String, content: String },
    /// Remove the file at `path`.
    Remove { path: String },
    /// Replace the file at `path` with the bytes `content`.
    WriteBytes { path: String, content: Vec<u8> },
    /// Copy the file at `from` to `to`.
    Copy { from: String, to: String },
    /// Set `key` to `value` in `/etc/sysctl.conf`: read the file (as empty
    /// text when it cannot be read) and carry out `sysctl::edit`.
    Sysctl { key: String, value: String, mode: SysctlMode },
}

/// An action and what a failure of it means.
#[derive(Debug, Clone)]
pub struct Step {
    pub action: Action,
    pub on_failure: OnFailure,
}

/// The mathematical model of an action.
pub enum ActionView {
    Run { program: Seq<char>, args: Seq<Seq<char>> },
    Feed { program: Seq<char>, args: Seq<Seq<char>>, input: Seq<char> },
    Save { program: Seq<char>, args: Seq<Seq<char>>, path: Seq<char> },
    Write { path: Seq<char>, content: Seq<char> },
    Remove { path: Seq<char> },
    WriteBytes { path: Seq<char>, content: Seq<u8> },
    Copy { from: Seq<char>, to: Seq<char> },
    Sysctl { key: Seq<char>, value: Seq<char>, mode: SysctlMode },
}

/// The mathematical model of a step.
pub struct StepView {
    pub action: ActionView,
    pub on_failure: OnFailure,
}

pub open spec fn string_views(v: Seq<String>) -> Seq<Seq<char>> {
    v.map_values(|s: String| s@)
}

impl View for Action {
    type V = ActionView;

    open spec fn view(&self) -> ActionView {
        match self {
            Action::Run { program, args } => ActionView::Run {
                program: program@,
                args: string_views(args@),
            },
            Action::Feed { program, args, input } => ActionView::Feed {
                program: program@,
                args: string_views(args@),
                input: input@,
            },
            Action::Save { program, args, path } => ActionView::Save {
                program: program@,
                args: string_views(args@),
                path: path@,
            },
            Action::Write { path, content } => ActionView::Write {
                path: path@,
                content: content@,
            },
            Action::Remove { path } => ActionView::Remove { path: path@ },
            Action::WriteBytes { path, content } => ActionView::WriteBytes { path: path@, content: content@ },
            Action::Copy { from, to } => ActionView::Copy { from: from@, to: to@ },
            Action::Sysctl { key, value, mode } => ActionView::Sysctl {
                key: key@,
                value: value@,
                mode: *mode,
            },
        }
    }
}

impl View for Step {
    type V = StepView;

    open spec fn view(&self) -> StepView {
        StepView { action: self.action@, on_failure: self.on_failure }
    }
}

pub open spec fn step_views(v: Seq<Step>) -> Seq<StepView> {
    v.map_values(|s: Step| s@)
}

/// The step that runs `program` with `args`.
pub open spec fn run(program: Seq<char>, args: Seq<Seq<char>>, f: OnFailure) -> StepView {
    StepView { action: ActionView::Run { program, args }, on_failure: f }
}

/// The step that writes `content` to `path`.
pub open spec fn file_write(path: Seq<char>, content: Seq<char>, f: OnFailure) -> StepView {
    StepView { action: ActionView::Write { path, content }, on_failure: f }
}

/// The step that sets `key` to `value` in `/etc/sysctl.conf`.
pub open spec fn sysctl(key: Seq<char>, value: Seq<char>, mode: SysctlMode, f: OnFailure) -> StepView {
    StepView { action: ActionView::Sysctl { key, value, mode }, on_failure: f }
}

// ── Builders ─────────────────────────────────────────────────────────────────

/// Owned copies of `parts`, in order.
pub fn strings(parts: &[&str]) -> (r: Vec<String>)
    ensures
        string_views(r@) == parts@.map_values(|p: &str| p@),
{
    let mut r: Vec<String> = Vec::new();
    let mut i: usize = 0;
    while i < parts.len()
        invariant
            i <= parts.len(),
            string_views(r@) =~= parts@.take(i as int).map_values(|p: &str| p@),
        decreases parts.len() - i,
    {
        let s = parts[i].to_owned();
        let ghost before = r@;
        r.push(s);
        proof {
            assert(r@ =~= before.push(s));
            assert(string_views(r@) =~= string_views(before).push(s@));
            assert(parts@.take(i + 1) =~= parts@.take(i as int).push(parts@[i as int]));
        }
        i += 1;
    }
    assert(parts@.take(parts.len() as int) =~= parts@);
    r
}

/// A step that runs `program` with `args`.
pub fn run_step(program: &str, args: &[&str], f: OnFailure) -> (r: Step)
    ensures
        r@ == run(program@, args@.map_values(|p: &str| p@), f),
{
    Step { action: Action::Run { program: program.to_owned(), args: strings(args) }, on_failure: f }
}

/// A step that runs `program` with the owned `args`.
pub fn run_args(program: &str, args: Vec<String>, f: OnFailure) -> (r: Step)
    ensures
        r@ == run(program@, string_views(args@), f),
{
    Step { action: Action::Run { program: program.to_owned(), args }, on_failure: f }
}

/// A step that writes `content` to `path`.
pub fn write_step(path: &str, content: &str, f: OnFailure) -> (r: Step)
    ensures
        r@ == file_write(path@, content@, f),
{
    Step { action: Action::Write { path: path.to_owned(), content: content.to_owned() }, on_failure: f }
}

/// A step that sets `key` to `value` in `/etc/sysctl.conf`.
pub fn sysctl_step(key: &str, value: &str, mode: SysctlMode, f: OnFailure) -> (r: Step)
    ensures
        r@ == sysctl(key@, value@, mode, f),
{
    Step {
        action: Action::Sysctl { key: key.to_owned(), value: value.to_owned(), mode },
        on_failure: f,
    }
}

/// The package managers that installs are run with.
#[derive(Debug, Clone, Copy, PartialEq, Eq, Structural)]
pub enum Installer {
    Apt,
    Dnf,
    Pacman,
}

/// A step to run, and the error message that its failure is reported with.
#[derive(Debug, Clone)]
pub struct InstallPlan {
    pub step: Step,
    pub failure: String,
}

// ── Running a plan ───────────────────────────────────────────────────────────

/// How a step failed, as the runner saw it; each carries the text of the
/// error (for `Exit`, the exit status as shown, e.g. `exit status: 1`).
#[derive(Debug, Clone)]
pub enum StepFailure {
    /// The program could not be started.
    Spawn(String),
    /// Writing the step's input to the program failed.
    Input(String),
    /// Waiting for the program failed.
    Wait(String),
    /// The program exited unsuccessfully.
    Exit(String),
    /// A file could not be read, written, copied or removed.
    File(String),
}

/// The text a failure carries.
pub open spec fn failure_text(f: StepFailure) -> Seq<char> {
    match f {
        StepFailure::Spawn(e) => e@,
        StepFailure::Input(e) => e@,
        StepFailure::Wait(e) => e@,
        StepFailure::Exit(e) => e@,
        StepFailure::File(e) => e@,
    }
}

/// Steps that only touch files.
pub open spec fn is_file_action(a: ActionView) -> bool {
    a is Write || a is Remove || a is WriteBytes || a is Copy || a is Sysctl
}

/// A failure that is a file error (reported as an I/O error).
pub open spec fn is_io_failure(a: ActionView, f: StepFailure) -> bool {
    is_file_action(a) || f is File
}

/// The words of a command: the program, then each argument after a space.
pub open spec fn command_line(program: Seq<char>, args: Seq<Seq<char>>) -> Seq<char>
    decreases args.len(),
{
    if args.len() == 0 {
        program
    } else {
        command_line(program, args.drop_last()) + " "@ + args.last()
    }
}

/// What Rust's `{:?}` writes for a list of texts.
pub uninterp spec fn debug_list_text(items: Seq<Seq<char>>) -> Seq<char>;

/// `format!("{:?}", items)`: the list in Rust's debug form.
#[verifier::external_body]
fn debug_list(items: &Vec<String>) -> (r: String)
    ensures
        r@ == debug_list_text(items@.map_values(|s: String| s@)),
{
    format!("{:?}", items)
}

/// How the failure of a command step is reported: a program that could not
/// be started (or fed, or waited for) by what failed; a program that exited
/// unsuccessfully by its status, with its arguments in debug form followed
/// by `exited` when `shows_args`; the dump of a `Save` step as `<command>: <error>` or
/// `<command> failed`. For a file step, the failure's text.
pub open spec fn command_failure_text(a: ActionView, f: StepFailure, shows_args: bool, exited: Seq<char>) -> Seq<char> {
    match a {
        ActionView::Run { program, args } => match f {
            StepFailure::Exit(s) => if shows_args {
                program + " "@ + debug_list_text(args) + exited + s@
            } else {
                program + " exited with "@ + s@
            },
            _ => program + " spawn: "@ + failure_text(f),
        },
        ActionView::Feed { program, .. } => match f {
            StepFailure::Input(e) => program + " stdin write: "@ + e@,
            StepFailure::Wait(e) => program + " wait: "@ + e@,
            StepFailure::Exit(s) => program + " exited with "@ + s@,
            _ => program + " spawn: "@ + failure_text(f),
        },
        ActionView::Save { program, args, .. } => match f {
            StepFailure::Exit(_) => command_line(program, args) + " failed"@,
            _ => command_line(program, args) + ": "@ + failure_text(f),
        },
        _ => failure_text(f),
    }
}

fn failure_string(f: &StepFailure) -> (r: String)
    ensures
        r@ == failure_text(*f),
{
    match f {
        StepFailure::Spawn(e) => e.clone(),
        StepFailure::Input(e) => e.clone(),
        StepFailure::Wait(e) => e.clone(),
        StepFailure::Exit(e) => e.clone(),
        StepFailure::File(e) => e.clone(),
    }
}

fn cat2(a: &str, b: &str) -> (r: String)
    ensures
        r@ == a@ + b@,
{
    let mut v = crate::text::lit(a);
    crate::text::push_str(&mut v, b);
    crate::text::string_of(&v)
}

fn cat3(a: &str, b: &str, c: &str) -> (r: String)
    ensures
        r@ == a@ + b@ + c@,
{
    let mut v = crate::text::lit(a);
    crate::text::push_str(&mut v, b);
    crate::text::push_str(&mut v, c);
    crate::text::string_of(&v)
}

fn cat5(a: &str, b: &str, c: &str, d: &str, e: &str) -> (r: String)
    ensures
        r@ == a@ + b@ + c@ + d@ + e@,
{
    let mut v = crate::text::lit(a);
    crate::text::push_str(&mut v, b);
    crate::text::push_str(&mut v, c);
    crate::text::push_str(&mut v, d);
    crate::text::push_str(&mut v, e);
    crate::text::string_of(&v)
}

/// The command of a program and its arguments, space-separated.
pub fn command_line_of(program: &str, args: &Vec<String>) -> (r: String)
    ensures
        r@ == command_line(program@, string_views(args@)),
{
    let mut b = crate::text::lit(program);
    let ghost av = string_views(args@);
    let mut i: usize = 0;
    while i < args.len()
        invariant
            i <= args.len(),
            av == string_views(args@),
            b@ == command_line(program@, av.take(i as int)),
        decreases args.len() - i,
    {
        assert(av.take(i + 1).drop_last() =~= av.take(i as int));
        crate::text::push_str(&mut b, " ");
        crate::text::push_str(&mut b, args[i].as_str());
        i += 1;
    }
    assert(av.take(args.len() as int) =~= av);
    crate::text::string_of(&b)
}

/// The report of a failed step (see `command_failure_text`).
pub fn command_failure(action: &Action, failure: &StepFailure, shows_args: bool, exited: &str) -> (r: String)
    ensures
        r@ == command_failure_text(action@, *failure, shows_args, exited@),
{
    let t = failure_string(failure);
    match action {
        Action::Run { program, args } => match failure {
            StepFailure::Exit(s) => if shows_args {
                let d = debug_list(args);
                cat5(program.as_str(), " ", d.as_str(), exited, s.as_str())
            } else {
                cat3(program.as_str(), " exited with ", s.as_str())
            },
            _ => cat3(program.as_str(), " spawn: ", t.as_str()),
        },
        Action::Feed { program, .. } => match failure {
            StepFailure::Input(e) => cat3(program.as_str(), " stdin write: ", e.as_str()),
            StepFailure::Wait(e) => cat3(program.as_str(), " wait: ", e.as_str()),
            StepFailure::Exit(s) => cat3(program.as_str(), " exited with ", s.as_str()),
            _ => cat3(program.as_str(), " spawn: ", t.as_str()),
        },
        Action::Save { program, args, .. } => {
            let c = command_line_of(program.as_str(), args);
            match failure {
                StepFailure::Exit(_) => cat2(c.as_str(), " failed"),
                _ => cat3(c.as_str(), ": ", t.as_str()),
            }
        },
        _ => t,
    }
}

/// Whether a failure of `action` is a file error.
pub fn io_failure(action: &Action, failure: &StepFailure) -> (r: bool)
    ensures
        r == is_io_failure(action@, *failure),
{
    match failure {
        StepFailure::File(_) => true,
        _ => match action {
            Action::Write { .. } | Action::Remove { .. } | Action::WriteBytes { .. } | Action::Copy { .. }
            | Action::Sysctl { .. } => true,
            _ => false,
        },
    }
}

/// Whether `action` runs the program `name`.
pub fn runs_program(action: &Action, name: &str) -> (r: bool)
    ensures
        r == (action@ matches ActionView::Run { program, .. } && program == name@),
{
    match action {
        Action::Run { program, .. } => crate::text::str_eq(program.as_str(), name),
        _ => false,
    }
}

/// What follows a step: the next one, the end of the plan, or its failure.
#[derive(Debug, Clone, Copy, PartialEq, Eq, Structural)]
pub enum Progress {
    /// Run the step at this index.
    Next(usize),
    /// The plan is over and succeeded (what ran so far stands).
    Done,
    /// The plan failed at this step; no later step runs.
    Failed,
}

/// What follows step `i` of `steps`, given whether it succeeded: on success
/// or an ignored failure the next step (or the end); a `Stop` failure ends
/// the plan without an error; an `Abort` failure ends it with one.
pub fn progress(steps: &Vec<Step>, i: usize, ok: bool) -> (r: Progress)
    requires
        i < steps.len(),
    ensures
        (ok || steps@[i as int].on_failure == OnFailure::Ignore) ==> r == (if i + 1 < steps.len() {
            Progress::Next((i + 1) as usize)
        } else {
            Progress::Done
        }),
        !ok && steps@[i as int].on_failure == OnFailure::Stop ==> r == Progress::Done,
        !ok && steps@[i as int].on_failure == OnFailure::Abort ==> r == Progress::Failed,
{
    if !ok {
        match steps[i].on_failure {
            OnFailure::Abort => return Progress::Failed,
            OnFailure::Stop => return Progress::Done,
            OnFailure::Ignore => {},
        }
    }
    if i + 1 < steps.len() {
        Progress::Next(i + 1)
    } else {
        Progress::Done
    }
}

} // verus!
