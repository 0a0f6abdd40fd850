//! Kernel parameters through sysctl: set (persisted under /etc/sysctl.d/),
//! get, apply, load (every config file), persist (the file alone).

use vstd::prelude::*;
use crate::command::{lit, Command, PieceView};
use crate::task::{
    checked, checked_exec, make_plan, make_report, reply_is_failed, rview, unknown_action,
    unknown_action_error, usual_message, usual_text, ErrorView, ExecOutput, ModuleError, Plan,
    PlanView, Probe, ProbeView, Reply, Report, ReportView,
};
use crate::text::{concat2, concat3, concat4, replace_char, replaced, same_text, trim, trimmed};

verus! {

/// The sysctl module.
#[derive(Debug)]
pub struct SysctlModule;

/// The parameters of a sysctl task, as the driver read them.
#[derive(Debug)]
pub struct SysctlTask {
    pub action: String,
    pub key: String,
    pub value: String,
    /// The `persist` parameter as given (`"true"` persists).
    pub persist: String,
    pub src: String,
}

impl SysctlTask {
    /// A task of the given action with every parameter at its default: what
    /// the driver starts from before it reads the parameters the task sets.
    pub fn defaults(action: &str) -> (t: SysctlTask)
        ensures
            t.action@ == action@,
            t.key@ == ""@,
            t.value@ == ""@,
            t.persist@ == "true"@,
            t.src@ == ""@,
    {
        SysctlTask {
            action: action.to_owned(),
            key: "".to_owned(),
            value: "".to_owned(),
            persist: "true".to_owned(),
            src: "".to_owned(),
        }
    }
}

/// A file that the driver writes, with its permission bits.
#[derive(Debug)]
pub struct FileWrite {
    pub path: String,
    pub content: String,
    pub mode: u32,
}

pub struct FileWriteView {
    pub path: Seq<char>,
    pub content: Seq<char>,
    pub mode: u32,
}

impl View for FileWrite {
    type V = FileWriteView;

    open spec fn view(&self) -> FileWriteView {
        FileWriteView { path: self.path@, content: self.content@, mode: self.mode }
    }
}

/// The actions of the module, in the order it lists them.
pub open spec fn sysctl_actions() -> Seq<Seq<char>> {
    seq!["set"@, "get"@, "apply"@, "load"@, "persist"@]
}

/// The probe that reads the current value of the key.
pub open spec fn value_probe(t: &SysctlTask) -> ProbeView {
    ProbeView::Shell(seq![lit("sysctl -n "@), lit(t.key@), lit(" 2>/dev/null"@)])
}

/// The current value that a reply shows: the trimmed output of a
/// successful read.
pub open spec fn current_value(r: &Reply) -> Option<Seq<char>> {
    match r {
        Reply::Output(o) => if o.success {
            Some(trimmed(o.stdout@))
        } else {
            None
        },
        _ => None,
    }
}

pub open spec fn plan_probe_spec(t: &SysctlTask) -> Result<ProbeView, ErrorView> {
    let a = t.action@;
    if a == "set"@ {
        Ok(value_probe(t))
    } else if a == "get"@ || a == "apply"@ || a == "load"@ || a == "persist"@ {
        Ok(ProbeView::Nothing)
    } else {
        Err(unknown_action("sysctl"@, a))
    }
}

pub open spec fn plan_of(t: &SysctlTask, changed: bool, description: Seq<char>) -> PlanView {
    PlanView { module: "sysctl"@, action: t.action@, changed, description }
}

pub open spec fn plan_spec(t: &SysctlTask, r: &Reply) -> Result<PlanView, ErrorView> {
    let a = t.action@;
    if a == "set"@ {
        if r is Failed {
            Err(ErrorView::ProbeFailed)
        } else {
            match current_value(r) {
                Some(v) => if v == t.value@ {
                    Ok(plan_of(t, false, t.key@ + " = "@ + t.value@ + " (already set)"@))
                } else {
                    Ok(plan_of(t, true, t.key@ + ": "@ + v + " -> "@ + t.value@))
                },
                None => Ok(plan_of(t, true, "set "@ + t.key@ + " = "@ + t.value@)),
            }
        }
    } else if a == "get"@ {
        Ok(plan_of(t, false, "read sysctl "@ + t.key@))
    } else if a == "apply"@ {
        Ok(plan_of(t, true, "apply sysctl config from "@ + t.src@))
    } else if a == "load"@ {
        Ok(plan_of(t, true, "load sysctl settings from every config file"@))
    } else if a == "persist"@ {
        Ok(plan_of(t, true, "persist "@ + t.key@ + " = "@ + t.value@ + " in "@ + persist_path(t)))
    } else {
        Err(unknown_action("sysctl"@, a))
    }
}

pub open spec fn apply_command_spec(t: &SysctlTask) -> Result<Seq<PieceView>, ErrorView> {
    let a = t.action@;
    if a == "set"@ {
        Ok(seq![lit("sysctl -w "@), lit(t.key@), lit("="@), lit(t.value@)])
    } else if a == "get"@ {
        Ok(seq![lit("sysctl -n "@), lit(t.key@)])
    } else if a == "apply"@ {
        Ok(seq![lit("sysctl -p "@), lit(t.src@)])
    } else if a == "load"@ {
        Ok(seq![lit("sysctl --system"@)])
    } else if a == "persist"@ {
        Ok(seq![lit("mkdir -p /etc/sysctl.d"@)])
    } else {
        Err(unknown_action("sysctl"@, a))
    }
}

/// The file that persists a key: dots in the key become dashes in its name.
pub open spec fn persist_path(t: &SysctlTask) -> Seq<char> {
    "/etc/sysctl.d/99-sutra-"@ + replaced(t.key@, '.', "-"@) + ".conf"@
}

/// After a successful `set` with `persist` given as `"true"`, the key and
/// value are written to their file; nothing is written otherwise.
pub open spec fn followup_spec(t: &SysctlTask, out: &ExecOutput) -> Option<FileWriteView> {
    if out.success && ((t.action@ == "set"@ && t.persist@ == "true"@) || t.action@ == "persist"@) {
        Some(
            FileWriteView {
                path: persist_path(t),
                content: t.key@ + "="@ + t.value@ + "\n"@,
                mode: 0o644,
            },
        )
    } else {
        None
    }
}

pub open spec fn report_spec(t: &SysctlTask, out: &ExecOutput) -> ReportView {
    let a = t.action@;
    let (changed, message) = if a == "set"@ {
        if out.success {
            (true, "set "@ + t.key@ + " = "@ + t.value@)
        } else {
            (false, "sysctl set failed: "@ + trimmed(out.stderr@))
        }
    } else if a == "get"@ {
        (false, trimmed(out.stdout@))
    } else if a == "apply"@ {
        (
            out.success,
            if out.success {
                "applied sysctl config from "@ + t.src@
            } else {
                "failed: "@ + trimmed(out.stderr@)
            },
        )
    } else {
        (out.success, usual_message("sysctl"@, a, out))
    };
    ReportView { module: "sysctl"@, action: a, success: out.success, changed, message }
}

pub open spec fn check_probe_spec(t: &SysctlTask) -> ProbeView {
    if t.action@ == "set"@ {
        value_probe(t)
    } else {
        ProbeView::Nothing
    }
}

pub open spec fn check_spec(t: &SysctlTask, r: &Reply) -> Result<bool, ErrorView> {
    if t.action@ == "set"@ {
        checked(r, current_value(r) == Some(t.value@))
    } else {
        Ok(false)
    }
}

fn value_probe_exec(t: &SysctlTask) -> (p: Probe)
    ensures
        p@ == value_probe(t),
{
    let mut c = Command::new();
    c.lit("sysctl -n ");
    c.lit(t.key.as_str());
    c.lit(" 2>/dev/null");
    assert(c@ =~= seq![lit("sysctl -n "@), lit(t.key@), lit(" 2>/dev/null"@)]);
    Probe::Shell(c)
}

fn current_value_exec(r: &Reply) -> (v: Option<&str>)
    ensures
        match v {
            Some(s) => current_value(r) == Some(s@),
            None => current_value(r) is None,
        },
{
    match r {
        Reply::Output(o) => if o.success {
            Some(trim(o.stdout.as_str()))
        } else {
            None
        },
        _ => None,
    }
}

impl SysctlModule {
    pub fn name(&self) -> (r: &'static str)
        ensures
            r@ == "sysctl"@,
    {
        "sysctl"
    }

    pub fn actions(&self) -> (r: &'static [&'static str])
        ensures
            r@.map_values(|s: &str| s@) == sysctl_actions(),
    {
        let r: &'static [&'static str] = &["set", "get", "apply", "load", "persist"];
        assert(r@.map_values(|s: &str| s@) =~= sysctl_actions());
        r
    }

    /// What the plan of a task needs to know about the node first.
    pub fn plan_probe(&self, t: &SysctlTask) -> (r: Result<Probe, ModuleError>)
        ensures
            rview(r) == plan_probe_spec(t),
    {
        let a = t.action.as_str();
        if same_text(a, "set") {
            Ok(value_probe_exec(t))
        } else if same_text(a, "get") || same_text(a, "apply") || same_text(a, "load") || same_text(a, "persist") {
            Ok(Probe::Nothing)
        } else {
            Err(unknown_action_error("sysctl", a))
        }
    }

    /// The plan of a task, given the reply to its probe.
    pub fn plan(&self, t: &SysctlTask, r: &Reply) -> (p: Result<Plan, ModuleError>)
        ensures
            rview(p) == plan_spec(t, r),
    {
        let a = t.action.as_str();
        let key = t.key.as_str();
        let value = t.value.as_str();
        if same_text(a, "set") {
            if reply_is_failed(r) {
                return Err(ModuleError::ProbeFailed);
            }
            match current_value_exec(r) {
                Some(v) => if same_text(v, value) {
                    let d = concat4(key, " = ", value, " (already set)");
                    Ok(make_plan("sysctl", a, false, d))
                } else {
                    let mut d = concat4(key, ": ", v, " -> ");
                    d.append(value);
                    Ok(make_plan("sysctl", a, true, d))
                },
                None => Ok(make_plan("sysctl", a, true, concat4("set ", key, " = ", value))),
            }
        } else if same_text(a, "get") {
            Ok(make_plan("sysctl", a, false, concat2("read sysctl ", key)))
        } else if same_text(a, "apply") {
            Ok(make_plan("sysctl", a, true, concat2("apply sysctl config from ", t.src.as_str())))
        } else if same_text(a, "load") {
            Ok(make_plan("sysctl", a, true, "load sysctl settings from every config file".to_owned()))
        } else if same_text(a, "persist") {
            let file = replace_char(key, '.', "-");
            let mut d = concat4("persist ", key, " = ", value);
            d.append(" in ");
            d.append("/etc/sysctl.d/99-sutra-");
            d.append(file.as_str());
            d.append(".conf");
            assert(d@ =~= "persist "@ + t.key@ + " = "@ + t.value@ + " in "@ + persist_path(t));
            Ok(make_plan("sysctl", a, true, d))
        } else {
            Err(unknown_action_error("sysctl", a))
        }
    }

    /// The command that applies a task.
    pub fn apply_command(&self, t: &SysctlTask) -> (r: Result<Command, ModuleError>)
        ensures
            rview(r) == apply_command_spec(t),
    {
        let a = t.action.as_str();
        let mut c = Command::new();
        if same_text(a, "set") {
            c.lit("sysctl -w ");
            c.lit(t.key.as_str());
            c.lit("=");
            c.lit(t.value.as_str());
            assert(c@ =~= seq![lit("sysctl -w "@), lit(t.key@), lit("="@), lit(t.value@)]);
        } else if same_text(a, "get") {
            c.lit("sysctl -n ");
            c.lit(t.key.as_str());
            assert(c@ =~= seq![lit("sysctl -n "@), lit(t.key@)]);
        } else if same_text(a, "apply") {
            c.lit("sysctl -p ");
            c.lit(t.src.as_str());
            assert(c@ =~= seq![lit("sysctl -p "@), lit(t.src@)]);
        } else if same_text(a, "load") {
            c.lit("sysctl --system");
            assert(c@ =~= seq![lit("sysctl --system"@)]);
        } else if same_text(a, "persist") {
            c.lit("mkdir -p /etc/sysctl.d");
            assert(c@ =~= seq![lit("mkdir -p /etc/sysctl.d"@)]);
        } else {
            return Err(unknown_action_error("sysctl", a));
        }
        Ok(c)
    }

    /// The file to write after the command, if any.
    pub fn apply_followup(&self, t: &SysctlTask, out: &ExecOutput) -> (w: Option<FileWrite>)
        ensures
            match w {
                Some(f) => followup_spec(t, out) == Some(f@),
                None => followup_spec(t, out) is None,
            },
    {
        let a = t.action.as_str();
        if out.success && ((same_text(a, "set") && same_text(t.persist.as_str(), "true")) || same_text(a, "persist")) {
            let file = replace_char(t.key.as_str(), '.', "-");
            let path = concat3("/etc/sysctl.d/99-sutra-", file.as_str(), ".conf");
            let content = concat4(t.key.as_str(), "=", t.value.as_str(), "\n");
            Some(FileWrite { path, content, mode: 0o644 })
        } else {
            None
        }
    }

    /// What applying a task did, given the output of its command.
    pub fn apply_report(&self, t: &SysctlTask, out: &ExecOutput) -> (r: Report)
        ensures
            r@ == report_spec(t, out),
    {
        let a = t.action.as_str();
        if same_text(a, "set") {
            if out.success {
                make_report("sysctl", a, true, true, concat4("set ", t.key.as_str(), " = ", t.value.as_str()))
            } else {
                make_report("sysctl", a, false, false, concat2("sysctl set failed: ", trim(out.stderr.as_str())))
            }
        } else if same_text(a, "get") {
            make_report("sysctl", a, out.success, false, trim(out.stdout.as_str()).to_owned())
        } else if same_text(a, "apply") {
            let message = if out.success {
                concat2("applied sysctl config from ", t.src.as_str())
            } else {
                concat2("failed: ", trim(out.stderr.as_str()))
            };
            make_report("sysctl", a, out.success, out.success, message)
        } else {
            make_report("sysctl", a, out.success, out.success, usual_text("sysctl", a, out))
        }
    }

    /// What checking a task needs to know about the node.
    pub fn check_probe(&self, t: &SysctlTask) -> (p: Probe)
        ensures
            p@ == check_probe_spec(t),
    {
        if same_text(t.action.as_str(), "set") {
            value_probe_exec(t)
        } else {
            Probe::Nothing
        }
    }

    /// Whether the node already is as the task asks, given the probe's reply.
    pub fn check(&self, t: &SysctlTask, r: &Reply) -> (b: Result<bool, ModuleError>)
        ensures
            rview(b) == check_spec(t, r),
    {
        if same_text(t.action.as_str(), "set") {
            let found = match current_value_exec(r) {
                Some(v) => same_text(v, t.value.as_str()),
                None => false,
            };
            checked_exec(r, found)
        } else {
            Ok(false)
        }
    }
}


/// The actions that the module lists are exactly the actions that its plan,
/// its probes and its commands accept; any other action is refused as unknown.
pub proof fn sysctl_accepts_listed_actions(t: &SysctlTask, r: &Reply)
    ensures
        sysctl_actions().contains(t.action@) ==> plan_probe_spec(t) != Err::<ProbeView, ErrorView>(
            unknown_action("sysctl"@, t.action@),
        ) && plan_spec(t, r) != Err::<PlanView, ErrorView>(unknown_action("sysctl"@, t.action@))
            && apply_command_spec(t) != Err::<Seq<PieceView>, ErrorView>(unknown_action("sysctl"@, t.action@)),
        !sysctl_actions().contains(t.action@) ==> plan_probe_spec(t) == Err::<ProbeView, ErrorView>(
            unknown_action("sysctl"@, t.action@),
        ) && plan_spec(t, r) == Err::<PlanView, ErrorView>(unknown_action("sysctl"@, t.action@))
            && apply_command_spec(t) == Err::<Seq<PieceView>, ErrorView>(unknown_action("sysctl"@, t.action@)),
{
    let s = sysctl_actions();
    assert(s[0] == "set"@ && s[1] == "get"@ && s[2] == "apply"@ && s[3] == "load"@ && s[4] == "persist"@);
    if s.contains(t.action@) {
        let i = choose|i: int| 0 <= i < s.len() && s[i] == t.action@;
        assert(t.action@ == s[i]);
    }
}

/// Planning and checking a task ask the node the same question, and when it
/// is answered, checking finds the node as the task asks exactly when the
/// plan would change nothing.
pub proof fn sysctl_check_agrees_with_plan(t: &SysctlTask, r: &Reply)
    requires
        sysctl_actions().contains(t.action@),
        !(r is Failed),
        t.action@ != "get"@,
    ensures
        plan_probe_spec(t) == Ok::<ProbeView, ErrorView>(check_probe_spec(t)),
        plan_spec(t, r) is Ok,
        check_spec(t, r) == Ok::<bool, ErrorView>(!plan_spec(t, r)->Ok_0.changed),
{
    reveal_strlit("set");
    assert("set"@ =~= seq!['s', 'e', 't']);
    reveal_strlit("get");
    assert("get"@ =~= seq!['g', 'e', 't']);
    reveal_strlit("apply");
    assert("apply"@ =~= seq!['a', 'p', 'p', 'l', 'y']);
    reveal_strlit("load");
    assert("load"@ =~= seq!['l', 'o', 'a', 'd']);
    reveal_strlit("persist");
    assert("persist"@ =~= seq!['p', 'e', 'r', 's', 'i', 's', 't']);
    sysctl_accepts_listed_actions(t, r);
}

/// A report marks a change only when the command succeeded, and its success
/// is that of the command.
pub proof fn sysctl_report_change_needs_success(t: &SysctlTask, out: &ExecOutput)
    ensures
        report_spec(t, out).success == out.success,
        report_spec(t, out).changed ==> report_spec(t, out).success,
{
}

/// Applying a config file loads the file the task names: the command is
/// `sysctl -p` followed by the task's source file.
pub proof fn sysctl_apply_loads_the_named_file(t: &SysctlTask)
    requires
        t.action@ == "apply"@,
    ensures
        apply_command_spec(t) == Ok::<Seq<PieceView>, ErrorView>(seq![lit("sysctl -p "@), lit(t.src@)]),
{
    reveal_strlit("apply");
    reveal_strlit("set");
    reveal_strlit("get");
    assert("apply"@.len() == 5);
}

/// What each action runs: `set` writes the task's key with its value and
/// `get` reads the key, as the task spells them; load reads every config
/// file.
pub proof fn sysctl_commands_carry_their_parameters(t: &SysctlTask)
    ensures
        t.action@ == "set"@ ==> apply_command_spec(t) == Ok::<Seq<PieceView>, ErrorView>(
            seq![lit("sysctl -w "@), lit(t.key@), lit("="@), lit(t.value@)],
        ),
        t.action@ == "get"@ ==> apply_command_spec(t) == Ok::<Seq<PieceView>, ErrorView>(
            seq![lit("sysctl -n "@), lit(t.key@)],
        ),
        t.action@ == "load"@ ==> apply_command_spec(t) == Ok::<Seq<PieceView>, ErrorView>(
            seq![lit("sysctl --system"@)],
        ),
        t.action@ == "persist"@ ==> apply_command_spec(t) == Ok::<Seq<PieceView>, ErrorView>(
            seq![lit("mkdir -p /etc/sysctl.d"@)],
        ),
{
    reveal_strlit("set");
    assert("set"@ =~= seq!['s', 'e', 't']);
    reveal_strlit("get");
    assert("get"@ =~= seq!['g', 'e', 't']);
    reveal_strlit("apply");
    assert("apply"@ =~= seq!['a', 'p', 'p', 'l', 'y']);
    reveal_strlit("load");
    assert("load"@ =~= seq!['l', 'o', 'a', 'd']);
    reveal_strlit("persist");
    assert("persist"@ =~= seq!['p', 'e', 'r', 's', 'i', 's', 't']);
}

/// A setting is persisted exactly after a successful `set` whose `persist`
/// parameter is `"true"`, or a successful `persist`: the file under
/// /etc/sysctl.d named after the key, with dots made dashes, gets the line
/// `key=value`, readable by all; nothing is written otherwise.
pub proof fn sysctl_persists_exactly_when_asked(t: &SysctlTask, out: &ExecOutput)
    ensures
        (followup_spec(t, out) is Some) <==> out.success && ((t.action@ == "set"@ && t.persist@ == "true"@)
            || t.action@ == "persist"@),
        followup_spec(t, out) is Some ==> followup_spec(t, out)->Some_0.path == "/etc/sysctl.d/99-sutra-"@
            + replaced(t.key@, '.', "-"@) + ".conf"@ && followup_spec(t, out)->Some_0.content == t.key@ + "="@
            + t.value@ + "\n"@ && followup_spec(t, out)->Some_0.mode == 0o644,
{
}

/// What a plan asks the kernel and when it plans a change: a key is set
/// only when `sysctl -n` does not already print its value; get changes
/// nothing; apply, load and persist always change.
pub proof fn sysctl_plans_follow_the_kernel(t: &SysctlTask, r: &Reply)
    ensures
        t.action@ == "set"@ ==> plan_probe_spec(t) == Ok::<ProbeView, ErrorView>(ProbeView::Shell(seq![lit("sysctl -n "@), lit(t.key@), lit(" 2>/dev/null"@)])),
        t.action@ == "set"@ && !(r is Failed) ==> plan_spec(t, r) is Ok && plan_spec(t, r)->Ok_0.changed == (!(r matches Reply::Output(o) && o.success && trimmed(o.stdout@) == t.value@)),
        t.action@ == "get"@ ==> plan_probe_spec(t) == Ok::<ProbeView, ErrorView>(ProbeView::Nothing),
        t.action@ == "get"@ && !(r is Failed) ==> plan_spec(t, r) is Ok && plan_spec(t, r)->Ok_0.changed == (false),
        t.action@ == "apply"@ ==> plan_probe_spec(t) == Ok::<ProbeView, ErrorView>(ProbeView::Nothing),
        t.action@ == "apply"@ && !(r is Failed) ==> plan_spec(t, r) is Ok && plan_spec(t, r)->Ok_0.changed == (true),
        t.action@ == "load"@ ==> plan_probe_spec(t) == Ok::<ProbeView, ErrorView>(ProbeView::Nothing),
        t.action@ == "load"@ && !(r is Failed) ==> plan_spec(t, r) is Ok && plan_spec(t, r)->Ok_0.changed == (true),
        t.action@ == "persist"@ ==> plan_probe_spec(t) == Ok::<ProbeView, ErrorView>(ProbeView::Nothing),
        t.action@ == "persist"@ && !(r is Failed) ==> plan_spec(t, r) is Ok && plan_spec(t, r)->Ok_0.changed == (true),
{
    reveal_strlit("set");
    assert("set"@ =~= seq!['s', 'e', 't']);
    reveal_strlit("get");
    assert("get"@ =~= seq!['g', 'e', 't']);
    reveal_strlit("apply");
    assert("apply"@ =~= seq!['a', 'p', 'p', 'l', 'y']);
    reveal_strlit("load");
    assert("load"@ =~= seq!['l', 'o', 'a', 'd']);
    reveal_strlit("persist");
    assert("persist"@ =~= seq!['p', 'e', 'r', 's', 'i', 's', 't']);
}

/// What a report says: a set reports the key and value it set, or
/// `sysctl set failed:` with the trimmed error, and a change exactly when it
/// succeeded; a get reports the value read and never a change; an apply
/// names the file it loaded; the other actions say `ok` or `failed:`.
pub proof fn sysctl_reports_what_the_command_did(t: &SysctlTask, out: &ExecOutput)
    ensures
        report_spec(t, out).module == "sysctl"@,
        report_spec(t, out).action == t.action@,
        t.action@ == "set"@ ==> report_spec(t, out).success == out.success && report_spec(t, out).changed
            == out.success && report_spec(t, out).message == (if out.success {
            "set "@ + t.key@ + " = "@ + t.value@
        } else {
            "sysctl set failed: "@ + trimmed(out.stderr@)
        }),
        t.action@ == "get"@ ==> report_spec(t, out).success == out.success && !report_spec(t, out).changed
            && report_spec(t, out).message == trimmed(out.stdout@),
        t.action@ == "apply"@ ==> report_spec(t, out).success == out.success && report_spec(t, out).changed
            == out.success && report_spec(t, out).message == (if out.success {
            "applied sysctl config from "@ + t.src@
        } else {
            "failed: "@ + trimmed(out.stderr@)
        }),
        t.action@ == "load"@ || t.action@ == "persist"@ ==> report_spec(t, out).success == out.success
            && report_spec(t, out).changed == out.success && report_spec(t, out).message == (if out.success {
            "sysctl"@ + " "@ + t.action@ + " — ok"@
        } else {
            "sysctl"@ + " "@ + t.action@ + " — failed: "@ + trimmed(out.stderr@)
        }),
{
    reveal_strlit("set");
    reveal_strlit("get");
    reveal_strlit("apply");
    reveal_strlit("load");
    reveal_strlit("persist");
    assert("set"@ =~= seq!['s', 'e', 't']);
    assert("get"@ =~= seq!['g', 'e', 't']);
    assert("apply"@ =~= seq!['a', 'p', 'p', 'l', 'y']);
    assert("load"@ =~= seq!['l', 'o', 'a', 'd']);
    assert("persist"@ =~= seq!['p', 'e', 'r', 's', 'i', 's', 't']);
}

} // verus!
