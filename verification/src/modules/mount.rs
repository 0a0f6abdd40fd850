//! Filesystem mounts and fstab entries: mounted, unmounted, fstab, and the
//! listing of what is mounted.

use vstd::prelude::*;
use crate::command::{Command, PieceView, lit, quote, same_literals};
use crate::task::{
    checked, checked_exec, make_plan, make_report, probed, probed_exec, reply_is_yes, reply_yes,
    rview, unknown_action, unknown_action_error, usual_message, usual_text, ErrorView, ExecOutput,
    ModuleError, Plan, PlanView, Probe, ProbeView, Reply, Report, ReportView,
};
use crate::text::{concat2, concat3, concat4, same_text, trim, trimmed};

verus! {

/// The mount module.
#[derive(Debug)]
pub struct MountModule;

/// The parameters of a mount task, as the driver read them.
#[derive(Debug)]
pub struct MountTask {
    pub action: String,
    /// The mountpoint (`path`).
    pub path: String,
    pub src: String,
    pub fstype: String,
    pub opts: String,
    pub dump: String,
    pub pass: String,
}

impl MountTask {
    /// A task of the given action with every parameter at its default: what
    /// the driver starts from before it reads the parameters the task sets.
    pub fn defaults(action: &str) -> (t: MountTask)
        ensures
            t.action@ == action@,
            t.path@ == ""@,
            t.src@ == ""@,
            t.fstype@ == "auto"@,
            t.opts@ == "defaults"@,
            t.dump@ == "0"@,
            t.pass@ == "0"@,
    {
        MountTask {
            action: action.to_owned(),
            path: "".to_owned(),
            src: "".to_owned(),
            fstype: "auto".to_owned(),
            opts: "defaults".to_owned(),
            dump: "0".to_owned(),
            pass: "0".to_owned(),
        }
    }
}

/// The actions of the module, in the order it lists them.
pub open spec fn mount_actions() -> Seq<Seq<char>> {
    seq!["mounted"@, "unmounted"@, "fstab"@, "mount"@, "unmount"@, "list"@]
}

/// The probe that tells whether something is mounted on the mountpoint.
pub open spec fn mounted_probe(t: &MountTask) -> ProbeView {
    ProbeView::Shell(seq![lit("mountpoint -q "@), quote(t.path@)])
}

/// The probe that tells whether fstab has an entry for the mountpoint.
pub open spec fn fstab_probe(t: &MountTask) -> ProbeView {
    ProbeView::Shell(seq![lit("grep -qsE '\\s"@), quote(t.path@), lit("\\s' /etc/fstab"@)])
}

/// The action that `a` names: the module also takes `mount` for `mounted`, `unmount` for `unmounted`.
pub open spec fn canonical(a: Seq<char>) -> Seq<char> {
    if a == "mount"@ {
        "mounted"@
    } else if a == "unmount"@ {
        "unmounted"@
    } else {
        a
    }
}

fn canonical_exec(a: &str) -> (c: &str)
    ensures
        c@ == canonical(a@),
{
    if same_text(a, "mount") {
        "mounted"
    } else if same_text(a, "unmount") {
        "unmounted"
    } else {
        a
    }
}

pub open spec fn plan_probe_spec(t: &MountTask) -> Result<ProbeView, ErrorView> {
    let a = canonical(t.action@);
    if a == "mounted"@ || a == "unmounted"@ {
        Ok(mounted_probe(t))
    } else if a == "fstab"@ {
        Ok(fstab_probe(t))
    } else if a == "list"@ {
        Ok(ProbeView::Nothing)
    } else {
        Err(unknown_action("mount"@, a))
    }
}

pub open spec fn plan_of(t: &MountTask, changed: bool, description: Seq<char>) -> PlanView {
    PlanView { module: "mount"@, action: t.action@, changed, description }
}

pub open spec fn plan_spec(t: &MountTask, r: &Reply) -> Result<PlanView, ErrorView> {
    let a = canonical(t.action@);
    let path = t.path@;
    if a == "mounted"@ {
        probed(
            r,
            reply_yes(r),
            plan_of(t, false, path + " already mounted"@),
            plan_of(t, true, "mount "@ + t.src@ + " on "@ + path),
        )
    } else if a == "unmounted"@ {
        probed(
            r,
            reply_yes(r),
            plan_of(t, true, "unmount "@ + path),
            plan_of(t, false, path + " already unmounted"@),
        )
    } else if a == "fstab"@ {
        probed(
            r,
            reply_yes(r),
            plan_of(t, false, "fstab entry for "@ + path + " already present"@),
            plan_of(t, true, "add fstab entry for "@ + path),
        )
    } else if a == "list"@ {
        Ok(plan_of(t, false, "list mounts"@))
    } else {
        Err(unknown_action("mount"@, a))
    }
}

/// The fstab line of the task.
pub open spec fn fstab_line(t: &MountTask) -> Seq<char> {
    t.src@ + " "@ + t.path@ + " "@ + t.fstype@ + " "@ + t.opts@ + " "@ + t.dump@ + " "@ + t.pass@
}

pub open spec fn apply_command_spec(t: &MountTask) -> Result<Seq<PieceView>, ErrorView> {
    let a = canonical(t.action@);
    if a == "mounted"@ {
        Ok(
            seq![
                lit("mkdir -p "@),
                quote(t.path@),
                lit(" && mount -t "@),
                quote(t.fstype@),
                lit(" -o "@),
                quote(t.opts@),
                lit(" "@),
                quote(t.src@),
                lit(" "@),
                quote(t.path@),
            ],
        )
    } else if a == "unmounted"@ {
        Ok(seq![lit("umount "@), quote(t.path@)])
    } else if a == "fstab"@ {
        Ok(seq![lit("echo "@), quote(fstab_line(t)), lit(" >> /etc/fstab"@)])
    } else if a == "list"@ {
        Ok(seq![lit("findmnt -l"@)])
    } else {
        Err(unknown_action("mount"@, a))
    }
}

pub open spec fn report_message(t: &MountTask, out: &ExecOutput) -> Seq<char> {
    let a = canonical(t.action@);
    let err = trimmed(out.stderr@);
    if a == "mounted"@ {
        if out.success {
            "mounted "@ + t.src@ + " on "@ + t.path@
        } else {
            "mount failed: "@ + err
        }
    } else if a == "unmounted"@ {
        if out.success {
            "unmounted "@ + t.path@
        } else {
            "umount failed: "@ + err
        }
    } else if a == "fstab"@ {
        if out.success {
            "added fstab entry for "@ + t.path@
        } else {
            "fstab update failed: "@ + err
        }
    } else {
        usual_message("mount"@, t.action@, out)
    }
}

pub open spec fn report_spec(t: &MountTask, out: &ExecOutput) -> ReportView {
    ReportView {
        module: "mount"@,
        action: t.action@,
        success: out.success,
        changed: out.success && t.action@ != "list"@,
        message: report_message(t, out),
    }
}

pub open spec fn check_probe_spec(t: &MountTask) -> ProbeView {
    let a = canonical(t.action@);
    if a == "mounted"@ || a == "unmounted"@ {
        mounted_probe(t)
    } else if a == "fstab"@ {
        fstab_probe(t)
    } else {
        ProbeView::Nothing
    }
}

pub open spec fn check_spec(t: &MountTask, r: &Reply) -> Result<bool, ErrorView> {
    let a = canonical(t.action@);
    if a == "mounted"@ {
        checked(r, reply_yes(r))
    } else if a == "unmounted"@ {
        checked(r, !reply_yes(r))
    } else if a == "fstab"@ {
        checked(r, reply_yes(r))
    } else {
        Ok(false)
    }
}

fn mounted_probe_exec(t: &MountTask) -> (p: Probe)
    ensures
        p@ == mounted_probe(t),
{
    let mut c = Command::new();
    c.lit("mountpoint -q ");
    c.quote(t.path.as_str());
    assert(c@ =~= seq![lit("mountpoint -q "@), quote(t.path@)]);
    Probe::Shell(c)
}

fn fstab_probe_exec(t: &MountTask) -> (p: Probe)
    ensures
        p@ == fstab_probe(t),
{
    let mut c = Command::new();
    c.lit("grep -qsE '\\s");
    c.quote(t.path.as_str());
    c.lit("\\s' /etc/fstab");
    assert(c@ =~= seq![lit("grep -qsE '\\s"@), quote(t.path@), lit("\\s' /etc/fstab"@)]);
    Probe::Shell(c)
}

impl MountModule {
    pub fn name(&self) -> (r: &'static str)
        ensures
            r@ == "mount"@,
    {
        "mount"
    }

    pub fn actions(&self) -> (r: &'static [&'static str])
        ensures
            r@.map_values(|s: &str| s@) == mount_actions(),
    {
        let r: &'static [&'static str] = &["mounted", "unmounted", "fstab", "mount", "unmount", "list"];
        assert(r@.map_values(|s: &str| s@) =~= mount_actions());
        r
    }

    /// What the plan of a task needs to know about the node first.
    pub fn plan_probe(&self, t: &MountTask) -> (r: Result<Probe, ModuleError>)
        ensures
            rview(r) == plan_probe_spec(t),
    {
        let a = canonical_exec(t.action.as_str());
        if same_text(a, "mounted") || same_text(a, "unmounted") {
            Ok(mounted_probe_exec(t))
        } else if same_text(a, "fstab") {
            Ok(fstab_probe_exec(t))
        } else if same_text(a, "list") {
            Ok(Probe::Nothing)
        } else {
            Err(unknown_action_error("mount", a))
        }
    }

    /// The plan of a task, given the reply to its probe.
    pub fn plan(&self, t: &MountTask, r: &Reply) -> (p: Result<Plan, ModuleError>)
        ensures
            rview(p) == plan_spec(t, r),
    {
        let a = canonical_exec(t.action.as_str());
        let path = t.path.as_str();
        if same_text(a, "mounted") {
            probed_exec(
                r,
                reply_is_yes(r),
                make_plan("mount", t.action.as_str(), false, concat2(path, " already mounted")),
                make_plan("mount", t.action.as_str(), true, concat4("mount ", t.src.as_str(), " on ", path)),
            )
        } else if same_text(a, "unmounted") {
            probed_exec(
                r,
                reply_is_yes(r),
                make_plan("mount", t.action.as_str(), true, concat2("unmount ", path)),
                make_plan("mount", t.action.as_str(), false, concat2(path, " already unmounted")),
            )
        } else if same_text(a, "fstab") {
            probed_exec(
                r,
                reply_is_yes(r),
                make_plan("mount", t.action.as_str(), false, concat3("fstab entry for ", path, " already present")),
                make_plan("mount", t.action.as_str(), true, concat2("add fstab entry for ", path)),
            )
        } else if same_text(a, "list") {
            Ok(make_plan("mount", t.action.as_str(), false, "list mounts".to_owned()))
        } else {
            Err(unknown_action_error("mount", a))
        }
    }

    /// The command that applies a task.
    pub fn apply_command(&self, t: &MountTask) -> (r: Result<Command, ModuleError>)
        ensures
            rview(r) == apply_command_spec(t),
    {
        let a = canonical_exec(t.action.as_str());
        let mut c = Command::new();
        if same_text(a, "mounted") {
            c.lit("mkdir -p ");
            c.quote(t.path.as_str());
            c.lit(" && mount -t ");
            c.quote(t.fstype.as_str());
            c.lit(" -o ");
            c.quote(t.opts.as_str());
            c.lit(" ");
            c.quote(t.src.as_str());
            c.lit(" ");
            c.quote(t.path.as_str());
            assert(c@ =~= seq![
                lit("mkdir -p "@),
                quote(t.path@),
                lit(" && mount -t "@),
                quote(t.fstype@),
                lit(" -o "@),
                quote(t.opts@),
                lit(" "@),
                quote(t.src@),
                lit(" "@),
                quote(t.path@),
            ]);
        } else if same_text(a, "unmounted") {
            c.lit("umount ");
            c.quote(t.path.as_str());
            assert(c@ =~= seq![lit("umount "@), quote(t.path@)]);
        } else if same_text(a, "fstab") {
            let mut line = concat4(t.src.as_str(), " ", t.path.as_str(), " ");
            line.append(t.fstype.as_str());
            line.append(" ");
            line.append(t.opts.as_str());
            line.append(" ");
            line.append(t.dump.as_str());
            line.append(" ");
            line.append(t.pass.as_str());
            c.lit("echo ");
            c.quote(line.as_str());
            c.lit(" >> /etc/fstab");
            assert(c@ =~= seq![lit("echo "@), quote(fstab_line(t)), lit(" >> /etc/fstab"@)]);
        } else if same_text(a, "list") {
            c.lit("findmnt -l");
            assert(c@ =~= seq![lit("findmnt -l"@)]);
        } else {
            return Err(unknown_action_error("mount", a));
        }
        Ok(c)
    }

    /// What applying a task did, given the output of its command.
    pub fn apply_report(&self, t: &MountTask, out: &ExecOutput) -> (r: Report)
        ensures
            r@ == report_spec(t, out),
    {
        let a = canonical_exec(t.action.as_str());
        let err = trim(out.stderr.as_str());
        let message = if same_text(a, "mounted") {
            if out.success {
                concat4("mounted ", t.src.as_str(), " on ", t.path.as_str())
            } else {
                concat2("mount failed: ", err)
            }
        } else if same_text(a, "unmounted") {
            if out.success {
                concat2("unmounted ", t.path.as_str())
            } else {
                concat2("umount failed: ", err)
            }
        } else if same_text(a, "fstab") {
            if out.success {
                concat2("added fstab entry for ", t.path.as_str())
            } else {
                concat2("fstab update failed: ", err)
            }
        } else {
            usual_text("mount", t.action.as_str(), out)
        };
        make_report("mount", t.action.as_str(), out.success, out.success && !same_text(t.action.as_str(), "list"), message)
    }

    /// What checking a task needs to know about the node.
    pub fn check_probe(&self, t: &MountTask) -> (p: Probe)
        ensures
            p@ == check_probe_spec(t),
    {
        let a = canonical_exec(t.action.as_str());
        if same_text(a, "mounted") || same_text(a, "unmounted") {
            mounted_probe_exec(t)
        } else if same_text(a, "fstab") {
            fstab_probe_exec(t)
        } else {
            Probe::Nothing
        }
    }

    /// Whether the node already is as the task asks, given the probe's reply.
    pub fn check(&self, t: &MountTask, r: &Reply) -> (b: Result<bool, ModuleError>)
        ensures
            rview(b) == check_spec(t, r),
    {
        let a = canonical_exec(t.action.as_str());
        if same_text(a, "mounted") {
            checked_exec(r, reply_is_yes(r))
        } else if same_text(a, "unmounted") {
            checked_exec(r, !reply_is_yes(r))
        } else if same_text(a, "fstab") {
            checked_exec(r, reply_is_yes(r))
        } else {
            Ok(false)
        }
    }
}


/// The actions that the module lists are exactly the actions that its plan,
/// its probes and its commands accept; any other action is refused as unknown.
pub proof fn mount_accepts_listed_actions(t: &MountTask, r: &Reply)
    ensures
        mount_actions().contains(t.action@) ==> plan_probe_spec(t) != Err::<ProbeView, ErrorView>(
            unknown_action("mount"@, t.action@),
        ) && plan_spec(t, r) != Err::<PlanView, ErrorView>(unknown_action("mount"@, t.action@))
            && apply_command_spec(t) != Err::<Seq<PieceView>, ErrorView>(unknown_action("mount"@, t.action@)),
        !mount_actions().contains(t.action@) ==> plan_probe_spec(t) == Err::<ProbeView, ErrorView>(
            unknown_action("mount"@, t.action@),
        ) && plan_spec(t, r) == Err::<PlanView, ErrorView>(unknown_action("mount"@, t.action@))
            && apply_command_spec(t) == Err::<Seq<PieceView>, ErrorView>(unknown_action("mount"@, t.action@)),
{
    let s = mount_actions();
    assert(s[0] == "mounted"@ && s[1] == "unmounted"@ && s[2] == "fstab"@ && s[3] == "mount"@
        && s[4] == "unmount"@ && s[5] == "list"@);
    if s.contains(t.action@) {
        let i = choose|i: int| 0 <= i < s.len() && s[i] == t.action@;
        assert(t.action@ == s[i]);
    }
}

/// Planning and checking a task ask the node the same question, and when it
/// is answered, checking finds the node as the task asks exactly when the
/// plan would change nothing.
pub proof fn mount_check_agrees_with_plan(t: &MountTask, r: &Reply)
    requires
        mount_actions().contains(t.action@),
        t.action@ != "list"@,
        !(r is Failed),
    ensures
        plan_probe_spec(t) == Ok::<ProbeView, ErrorView>(check_probe_spec(t)),
        plan_spec(t, r) is Ok,
        check_spec(t, r) == Ok::<bool, ErrorView>(!plan_spec(t, r)->Ok_0.changed),
{
    reveal_strlit("mounted");
    assert("mounted"@ =~= seq!['m', 'o', 'u', 'n', 't', 'e', 'd']);
    reveal_strlit("unmounted");
    assert("unmounted"@ =~= seq!['u', 'n', 'm', 'o', 'u', 'n', 't', 'e', 'd']);
    reveal_strlit("fstab");
    assert("fstab"@ =~= seq!['f', 's', 't', 'a', 'b']);
    reveal_strlit("mount");
    assert("mount"@ =~= seq!['m', 'o', 'u', 'n', 't']);
    reveal_strlit("unmount");
    assert("unmount"@ =~= seq!['u', 'n', 'm', 'o', 'u', 'n', 't']);
    reveal_strlit("list");
    assert("list"@ =~= seq!['l', 'i', 's', 't']);
    mount_accepts_listed_actions(t, r);
}

/// A report marks a change only when the command succeeded, and its success
/// is that of the command.
pub proof fn mount_report_change_needs_success(t: &MountTask, out: &ExecOutput)
    ensures
        report_spec(t, out).success == out.success,
        report_spec(t, out).changed ==> report_spec(t, out).success,
{
}

/// Whether two tasks differ at most in the values of their parameters:
/// same action, same switches, and the same parameters left empty.
pub open spec fn same_shape(t1: &MountTask, t2: &MountTask) -> bool {
    &&& t1.action@ == t2.action@
}

/// Parameter values reach the shell only as values to quote: the literal
/// text of a task's command depends on its action, never on what they hold.
pub proof fn mount_values_only_quoted(t1: &MountTask, t2: &MountTask)
    requires
        same_shape(t1, t2),
    ensures
        apply_command_spec(t1) is Ok <==> apply_command_spec(t2) is Ok,
        apply_command_spec(t1) is Ok ==> same_literals(
            apply_command_spec(t1)->Ok_0,
            apply_command_spec(t2)->Ok_0,
        ),
{

}

/// What each action runs: mounting creates the mountpoint and mounts the
/// task's source there with its filesystem type and options; unmounting
/// names the mountpoint; an fstab entry is the line of source, mountpoint,
/// type, options, dump and pass, appended to /etc/fstab.
pub proof fn mount_commands_carry_their_parameters(t: &MountTask)
    ensures
        t.action@ == "mounted"@ ==> apply_command_spec(t) == Ok::<Seq<PieceView>, ErrorView>(
            seq![lit("mkdir -p "@), quote(t.path@), lit(" && mount -t "@), quote(t.fstype@), lit(" -o "@), quote(t.opts@),
                lit(" "@), quote(t.src@), lit(" "@), quote(t.path@)],
        ),
        t.action@ == "mount"@ ==> apply_command_spec(t) == Ok::<Seq<PieceView>, ErrorView>(
            seq![lit("mkdir -p "@), quote(t.path@), lit(" && mount -t "@), quote(t.fstype@), lit(" -o "@), quote(t.opts@),
                lit(" "@), quote(t.src@), lit(" "@), quote(t.path@)],
        ),
        t.action@ == "unmounted"@ ==> apply_command_spec(t) == Ok::<Seq<PieceView>, ErrorView>(
            seq![lit("umount "@), quote(t.path@)],
        ),
        t.action@ == "unmount"@ ==> apply_command_spec(t) == Ok::<Seq<PieceView>, ErrorView>(
            seq![lit("umount "@), quote(t.path@)],
        ),
        t.action@ == "fstab"@ ==> apply_command_spec(t) == Ok::<Seq<PieceView>, ErrorView>(
            seq![lit("echo "@), quote(t.src@ + " "@ + t.path@ + " "@ + t.fstype@ + " "@ + t.opts@ + " "@ + t.dump@ + " "@ + t.pass@),
                lit(" >> /etc/fstab"@)],
        ),
        t.action@ == "list"@ ==> apply_command_spec(t) == Ok::<Seq<PieceView>, ErrorView>(
            seq![lit("findmnt -l"@)],
        ),
{
    reveal_strlit("mounted");
    assert("mounted"@ =~= seq!['m', 'o', 'u', 'n', 't', 'e', 'd']);
    reveal_strlit("unmounted");
    assert("unmounted"@ =~= seq!['u', 'n', 'm', 'o', 'u', 'n', 't', 'e', 'd']);
    reveal_strlit("fstab");
    assert("fstab"@ =~= seq!['f', 's', 't', 'a', 'b']);
    reveal_strlit("mount");
    assert("mount"@ =~= seq!['m', 'o', 'u', 'n', 't']);
    reveal_strlit("unmount");
    assert("unmount"@ =~= seq!['u', 'n', 'm', 'o', 'u', 'n', 't']);
    reveal_strlit("list");
    assert("list"@ =~= seq!['l', 'i', 's', 't']);
}

/// What a plan asks the node and when it plans a change: mount only when
/// `mountpoint -q` fails for the task's path, unmount only when it
/// succeeds, add the fstab entry only when fstab has no line for the path;
/// listing changes nothing.
pub proof fn mount_plans_follow_the_node(t: &MountTask, r: &Reply)
    ensures
        t.action@ == "mounted"@ ==> plan_probe_spec(t) == Ok::<ProbeView, ErrorView>(ProbeView::Shell(seq![lit("mountpoint -q "@), quote(t.path@)])),
        t.action@ == "mounted"@ && !(r is Failed) ==> plan_spec(t, r) is Ok && plan_spec(t, r)->Ok_0.changed == (!(match r { Reply::Output(o) => o.success, Reply::Exists(b) => *b, _ => false })),
        t.action@ == "mount"@ ==> plan_probe_spec(t) == Ok::<ProbeView, ErrorView>(ProbeView::Shell(seq![lit("mountpoint -q "@), quote(t.path@)])),
        t.action@ == "mount"@ && !(r is Failed) ==> plan_spec(t, r) is Ok && plan_spec(t, r)->Ok_0.changed == (!(match r { Reply::Output(o) => o.success, Reply::Exists(b) => *b, _ => false })),
        t.action@ == "unmounted"@ ==> plan_probe_spec(t) == Ok::<ProbeView, ErrorView>(ProbeView::Shell(seq![lit("mountpoint -q "@), quote(t.path@)])),
        t.action@ == "unmounted"@ && !(r is Failed) ==> plan_spec(t, r) is Ok && plan_spec(t, r)->Ok_0.changed == ((match r { Reply::Output(o) => o.success, Reply::Exists(b) => *b, _ => false })),
        t.action@ == "unmount"@ ==> plan_probe_spec(t) == Ok::<ProbeView, ErrorView>(ProbeView::Shell(seq![lit("mountpoint -q "@), quote(t.path@)])),
        t.action@ == "unmount"@ && !(r is Failed) ==> plan_spec(t, r) is Ok && plan_spec(t, r)->Ok_0.changed == ((match r { Reply::Output(o) => o.success, Reply::Exists(b) => *b, _ => false })),
        t.action@ == "fstab"@ ==> plan_probe_spec(t) == Ok::<ProbeView, ErrorView>(ProbeView::Shell(seq![lit("grep -qsE '\\s"@), quote(t.path@), lit("\\s' /etc/fstab"@)])),
        t.action@ == "fstab"@ && !(r is Failed) ==> plan_spec(t, r) is Ok && plan_spec(t, r)->Ok_0.changed == (!(match r { Reply::Output(o) => o.success, Reply::Exists(b) => *b, _ => false })),
        t.action@ == "list"@ ==> plan_probe_spec(t) == Ok::<ProbeView, ErrorView>(ProbeView::Nothing),
        t.action@ == "list"@ && !(r is Failed) ==> plan_spec(t, r) is Ok && plan_spec(t, r)->Ok_0.changed == (false),
{
    reveal_strlit("mounted");
    assert("mounted"@ =~= seq!['m', 'o', 'u', 'n', 't', 'e', 'd']);
    reveal_strlit("unmounted");
    assert("unmounted"@ =~= seq!['u', 'n', 'm', 'o', 'u', 'n', 't', 'e', 'd']);
    reveal_strlit("fstab");
    assert("fstab"@ =~= seq!['f', 's', 't', 'a', 'b']);
    reveal_strlit("mount");
    assert("mount"@ =~= seq!['m', 'o', 'u', 'n', 't']);
    reveal_strlit("unmount");
    assert("unmount"@ =~= seq!['u', 'n', 'm', 'o', 'u', 'n', 't']);
    reveal_strlit("list");
    assert("list"@ =~= seq!['l', 'i', 's', 't']);
}

/// What a report says: it succeeds exactly when the command did and marks
/// a change exactly when a change succeeded; it names what was mounted,
/// unmounted or added to fstab, or the trimmed error of a failure.
pub proof fn mount_reports_what_the_command_did(t: &MountTask, out: &ExecOutput)
    ensures
        report_spec(t, out) == (ReportView {
            module: "mount"@,
            action: t.action@,
            success: out.success,
            changed: out.success && t.action@ != "list"@,
            message: (if t.action@ == "mounted"@ || t.action@ == "mount"@ {
                if out.success {
                    "mounted "@ + t.src@ + " on "@ + t.path@
                } else {
                    "mount failed: "@ + trimmed(out.stderr@)
                }
            } else if t.action@ == "unmounted"@ || t.action@ == "unmount"@ {
                if out.success {
                    "unmounted "@ + t.path@
                } else {
                    "umount failed: "@ + trimmed(out.stderr@)
                }
            } else if t.action@ == "fstab"@ {
                if out.success {
                    "added fstab entry for "@ + t.path@
                } else {
                    "fstab update failed: "@ + trimmed(out.stderr@)
                }
            } else if out.success {
                "mount"@ + " "@ + t.action@ + " — ok"@
            } else {
                "mount"@ + " "@ + t.action@ + " — failed: "@ + trimmed(out.stderr@)
            }),
        }),
{
    reveal_strlit("mounted");
    assert("mounted"@ =~= seq!['m', 'o', 'u', 'n', 't', 'e', 'd']);
    reveal_strlit("unmounted");
    assert("unmounted"@ =~= seq!['u', 'n', 'm', 'o', 'u', 'n', 't', 'e', 'd']);
    reveal_strlit("fstab");
    assert("fstab"@ =~= seq!['f', 's', 't', 'a', 'b']);
    reveal_strlit("mount");
    assert("mount"@ =~= seq!['m', 'o', 'u', 'n', 't']);
    reveal_strlit("unmount");
    assert("unmount"@ =~= seq!['u', 'n', 'm', 'o', 'u', 'n', 't']);
    reveal_strlit("list");
    assert("list"@ =~= seq!['l', 'i', 's', 't']);
}

} // verus!
