//! What modules hand to the driver and get back from it: probes and their
//! replies, command output, plans, reports and errors.

use vstd::prelude::*;
use crate::command::{lit, quote, Command, PieceView};
use crate::text::{trim, trimmed};

verus! {

/// What a shell command printed and whether it exited successfully.
#[derive(Debug)]
pub struct ExecOutput {
    pub success: bool,
    pub stdout: String,
    pub stderr: String,
}

/// A query about the node that a decision needs answered first.
#[derive(Debug)]
pub enum Probe {
    /// Nothing needs to be asked.
    Nothing,
    /// Run this command and hand back its output.
    Shell(Command),
    /// Ask whether this file exists.
    FileExists(String),
}

pub enum ProbeView {
    Nothing,
    Shell(Seq<PieceView>),
    FileExists(Seq<char>),
}

impl View for Probe {
    type V = ProbeView;

    open spec fn view(&self) -> ProbeView {
        match self {
            Probe::Nothing => ProbeView::Nothing,
            Probe::Shell(c) => ProbeView::Shell(c@),
            Probe::FileExists(p) => ProbeView::FileExists(p@),
        }
    }
}

/// The answer to a [`Probe`].
#[derive(Debug)]
pub enum Reply {
    /// No probe was run.
    NotRun,
    /// The probe command ran and produced this output.
    Output(ExecOutput),
    /// Whether the asked file exists.
    Exists(bool),
    /// The driver could not carry out the probe.
    Failed,
}

/// Whether a reply says yes: the command succeeded, or the file exists.
pub open spec fn reply_yes(r: &Reply) -> bool {
    match r {
        Reply::Output(o) => o.success,
        Reply::Exists(b) => *b,
        _ => false,
    }
}

/// Whether a reply carries a successful command output whose trimmed
/// standard output is `expected`.
pub open spec fn reply_prints(r: &Reply, expected: Seq<char>) -> bool {
    match r {
        Reply::Output(o) => o.success && trimmed(o.stdout@) == expected,
        _ => false,
    }
}

pub fn reply_is_yes(r: &Reply) -> (b: bool)
    ensures
        b == reply_yes(r),
{
    match r {
        Reply::Output(o) => o.success,
        Reply::Exists(b) => *b,
        _ => false,
    }
}

pub fn reply_is_failed(r: &Reply) -> (b: bool)
    ensures
        b == (r is Failed),
{
    match r {
        Reply::Failed => true,
        _ => false,
    }
}

pub fn reply_prints_text(r: &Reply, expected: &str) -> (b: bool)
    ensures
        b == reply_prints(r, expected@),
{
    match r {
        Reply::Output(o) => o.success && crate::text::same_text(trim(o.stdout.as_str()), expected),
        _ => false,
    }
}

/// A probe `<head><quoted value> 2>/dev/null`.
pub open spec fn silent_probe(head: Seq<char>, value: Seq<char>) -> ProbeView {
    ProbeView::Shell(seq![lit(head), quote(value), lit(" 2>/dev/null"@)])
}

pub fn silent_probe_exec(head: &str, value: &str) -> (p: Probe)
    ensures
        p@ == silent_probe(head@, value@),
{
    let mut c = Command::new();
    c.lit(head);
    c.quote(value);
    c.lit(" 2>/dev/null");
    assert(c@ =~= seq![lit(head@), quote(value@), lit(" 2>/dev/null"@)]);
    Probe::Shell(c)
}

/// The check of a probing action: refused when the probe failed, otherwise
/// the given answer.
pub open spec fn checked(r: &Reply, answer: bool) -> Result<bool, ErrorView> {
    if r is Failed {
        Err(ErrorView::ProbeFailed)
    } else {
        Ok(answer)
    }
}

pub fn checked_exec(r: &Reply, answer: bool) -> (b: Result<bool, ModuleError>)
    ensures
        rview(b) == checked(r, answer),
{
    if reply_is_failed(r) {
        Err(ModuleError::ProbeFailed)
    } else {
        Ok(answer)
    }
}

/// A module's plan for a task: whether applying it would change the node.
#[derive(Debug)]
pub struct Plan {
    pub module: String,
    pub action: String,
    pub changed: bool,
    pub description: String,
}

pub struct PlanView {
    pub module: Seq<char>,
    pub action: Seq<char>,
    pub changed: bool,
    pub description: Seq<char>,
}

impl View for Plan {
    type V = PlanView;

    open spec fn view(&self) -> PlanView {
        PlanView {
            module: self.module@,
            action: self.action@,
            changed: self.changed,
            description: self.description@,
        }
    }
}

pub fn make_plan(module: &str, action: &str, changed: bool, description: String) -> (p: Plan)
    ensures
        p@ == (PlanView { module: module@, action: action@, changed, description: description@ }),
{
    Plan { module: module.to_owned(), action: action.to_owned(), changed, description }
}

/// The plan for a probing action: refused when the probe failed, otherwise
/// the first plan when the probe says yes and the second when it says no.
pub open spec fn probed(r: &Reply, yes: bool, when_yes: PlanView, when_no: PlanView) -> Result<
    PlanView,
    ErrorView,
> {
    if r is Failed {
        Err(ErrorView::ProbeFailed)
    } else if yes {
        Ok(when_yes)
    } else {
        Ok(when_no)
    }
}

pub fn probed_exec(r: &Reply, yes: bool, when_yes: Plan, when_no: Plan) -> (p: Result<
    Plan,
    ModuleError,
>)
    ensures
        rview(p) == probed(r, yes, when_yes@, when_no@),
{
    if reply_is_failed(r) {
        Err(ModuleError::ProbeFailed)
    } else if yes {
        Ok(when_yes)
    } else {
        Ok(when_no)
    }
}

/// What applying a task did.
#[derive(Debug)]
pub struct Report {
    pub module: String,
    pub action: String,
    pub success: bool,
    pub changed: bool,
    pub message: String,
}

pub struct ReportView {
    pub module: Seq<char>,
    pub action: Seq<char>,
    pub success: bool,
    pub changed: bool,
    pub message: Seq<char>,
}

impl View for Report {
    type V = ReportView;

    open spec fn view(&self) -> ReportView {
        ReportView {
            module: self.module@,
            action: self.action@,
            success: self.success,
            changed: self.changed,
            message: self.message@,
        }
    }
}

pub fn make_report(module: &str, action: &str, success: bool, changed: bool, message: String) -> (r:
    Report)
    ensures
        r@ == (ReportView {
            module: module@,
            action: action@,
            success,
            changed,
            message: message@,
        }),
{
    Report { module: module.to_owned(), action: action.to_owned(), success, changed, message }
}

/// `"<module> <action> — ok"`.
pub open spec fn ok_message(module: Seq<char>, action: Seq<char>) -> Seq<char> {
    module + " "@ + action + " — ok"@
}

/// `"<module> <action> — failed: <trimmed stderr>"`.
pub open spec fn failed_message(module: Seq<char>, action: Seq<char>, stderr: Seq<char>) -> Seq<
    char,
> {
    module + " "@ + action + " — failed: "@ + trimmed(stderr)
}

/// The usual message: ok on success, the trimmed error output otherwise.
pub open spec fn usual_message(module: Seq<char>, action: Seq<char>, out: &ExecOutput) -> Seq<char> {
    if out.success {
        ok_message(module, action)
    } else {
        failed_message(module, action, out.stderr@)
    }
}

pub fn ok_text(module: &str, action: &str) -> (s: String)
    ensures
        s@ == ok_message(module@, action@),
{
    let mut s = module.to_owned();
    s.append(" ");
    s.append(action);
    s.append(" — ok");
    s
}

pub fn failed_text(module: &str, action: &str, stderr: &str) -> (s: String)
    ensures
        s@ == failed_message(module@, action@, stderr@),
{
    let mut s = module.to_owned();
    s.append(" ");
    s.append(action);
    s.append(" — failed: ");
    s.append(trim(stderr));
    s
}

pub fn usual_text(module: &str, action: &str, out: &ExecOutput) -> (s: String)
    ensures
        s@ == usual_message(module@, action@, out),
{
    if out.success {
        ok_text(module, action)
    } else {
        failed_text(module, action, out.stderr.as_str())
    }
}

/// Why a module refuses a task.
#[derive(Debug)]
pub enum ModuleError {
    /// The module has no action of this name.
    UnknownAction { module: String, action: String },
    /// The task is refused with this message.
    Bail(String),
    /// A parameter that the action requires is missing; the driver reports
    /// the error that the parameter lookup gave for this key.
    ParamMissing(String),
    /// The driver could not carry out a probe whose failure the module
    /// passes on; the driver reports the error it met.
    ProbeFailed,
}

pub enum ErrorView {
    UnknownAction { module: Seq<char>, action: Seq<char> },
    Bail(Seq<char>),
    ParamMissing(Seq<char>),
    ProbeFailed,
}

impl View for ModuleError {
    type V = ErrorView;

    open spec fn view(&self) -> ErrorView {
        match self {
            ModuleError::UnknownAction { module, action } => ErrorView::UnknownAction {
                module: module@,
                action: action@,
            },
            ModuleError::Bail(m) => ErrorView::Bail(m@),
            ModuleError::ParamMissing(k) => ErrorView::ParamMissing(k@),
            ModuleError::ProbeFailed => ErrorView::ProbeFailed,
        }
    }
}

/// The message of a refusal that the module words itself.
pub open spec fn error_message(e: ErrorView) -> Option<Seq<char>> {
    match e {
        ErrorView::UnknownAction { module, action } => Some(
            "unknown "@ + module + " action: "@ + action,
        ),
        ErrorView::Bail(m) => Some(m),
        _ => None,
    }
}

impl ModuleError {
    /// The message of the refusal, where the module words it: for a missing
    /// parameter or a failed probe the driver reports the error it met.
    pub fn message(&self) -> (m: Option<String>)
        ensures
            match m {
                Some(s) => error_message(self@) == Some(s@),
                None => error_message(self@) is None,
            },
    {
        match self {
            ModuleError::UnknownAction { module, action } => {
                let mut s = "unknown ".to_owned();
                s.append(module.as_str());
                s.append(" action: ");
                s.append(action.as_str());
                Some(s)
            },
            ModuleError::Bail(m) => Some(m.clone()),
            _ => None,
        }
    }
}

/// A result taken by the views of its two sides.
pub open spec fn rview<T: View>(r: Result<T, ModuleError>) -> Result<T::V, ErrorView> {
    match r {
        Ok(t) => Ok(t@),
        Err(e) => Err(e@),
    }
}

/// The refusal of an action that the module does not have.
pub open spec fn unknown_action(module: Seq<char>, action: Seq<char>) -> ErrorView {
    ErrorView::UnknownAction { module, action }
}

pub fn unknown_action_error(module: &str, action: &str) -> (e: ModuleError)
    ensures
        e@ == unknown_action(module@, action@),
{
    ModuleError::UnknownAction { module: module.to_owned(), action: action.to_owned() }
}

/// `"<module>.<action> requires <what>"`.
pub open spec fn requires_error(module: Seq<char>, action: Seq<char>, what: Seq<char>) -> ErrorView {
    ErrorView::Bail(module + "."@ + action + " requires "@ + what)
}

pub fn requires_failure(module: &str, action: &str, what: &str) -> (e: ModuleError)
    ensures
        e@ == requires_error(module@, action@, what@),
{
    let mut s = module.to_owned();
    s.append(".");
    s.append(action);
    s.append(" requires ");
    s.append(what);
    ModuleError::Bail(s)
}

} // verus!
