//! AGNOS edge nodes: provision, update, reboot, drain, label, decommission,
//! heartbeat.

use vstd::prelude::*;
use crate::command::{Command, PieceView, lit, quote, same_literals};
use crate::task::{
    checked, checked_exec, make_plan, make_report, probed, probed_exec, reply_is_yes, reply_yes,
    rview, silent_probe, silent_probe_exec, unknown_action, unknown_action_error, usual_message,
    usual_text, ErrorView, ExecOutput, ModuleError, Plan, PlanView, Probe, ProbeView, Reply, Report,
    ReportView,
};
use crate::text::{concat2, concat3, concat4, same_text, trim, trimmed};

verus! {

/// The edge module.
#[derive(Debug)]
pub struct EdgeModule;

/// The parameters of an edge task, as the driver read them.
#[derive(Debug)]
pub struct EdgeTask {
    pub action: String,
    pub profile: String,
    pub channel: String,
    pub key: String,
    pub value: String,
    pub remove: bool,
}

impl EdgeTask {
    /// A task of the given action with every parameter at its default: what
    /// the driver starts from before it reads the parameters the task sets.
    pub fn defaults(action: &str) -> (t: EdgeTask)
        ensures
            t.action@ == action@,
            t.profile@ == "default"@,
            t.channel@ == "stable"@,
            t.key@ == ""@,
            t.value@ == ""@,
            t.remove == false,
    {
        EdgeTask {
            action: action.to_owned(),
            profile: "default".to_owned(),
            channel: "stable".to_owned(),
            key: "".to_owned(),
            value: "".to_owned(),
            remove: false,
        }
    }
}

/// The actions of the module, in the order it lists them.
pub open spec fn edge_actions() -> Seq<Seq<char>> {
    seq!["provision"@, "update"@, "reboot"@, "drain"@, "label"@, "decommission"@, "heartbeat"@]
}

/// The probe that tells whether the node is provisioned: its edge
/// configuration file exists.
pub open spec fn provisioned_probe() -> ProbeView {
    ProbeView::FileExists("/etc/agnos/edge.conf"@)
}

/// The probe that reads the label.
pub open spec fn label_probe(t: &EdgeTask) -> ProbeView {
    silent_probe("agnos-edge label get "@, t.key@)
}

/// Whether a reply shows the label set: the read succeeded and printed
/// something besides whitespace.
pub open spec fn has_label(r: &Reply) -> bool {
    match r {
        Reply::Output(o) => o.success && trimmed(o.stdout@).len() > 0,
        _ => false,
    }
}

pub open spec fn plan_probe_spec(t: &EdgeTask) -> Result<ProbeView, ErrorView> {
    let a = t.action@;
    if a == "provision"@ {
        Ok(provisioned_probe())
    } else if a == "update"@ || a == "reboot"@ || a == "drain"@ || a == "decommission"@ || a
        == "heartbeat"@ {
        Ok(ProbeView::Nothing)
    } else if a == "label"@ {
        if t.remove {
            Ok(label_probe(t))
        } else {
            Ok(ProbeView::Nothing)
        }
    } else {
        Err(unknown_action("edge"@, a))
    }
}

pub open spec fn plan_of(t: &EdgeTask, changed: bool, description: Seq<char>) -> PlanView {
    PlanView { module: "edge"@, action: t.action@, changed, description }
}

pub open spec fn plan_spec(t: &EdgeTask, r: &Reply) -> Result<PlanView, ErrorView> {
    let a = t.action@;
    if a == "provision"@ {
        probed(
            r,
            reply_yes(r),
            plan_of(t, false, "node already provisioned (profile: "@ + t.profile@ + ")"@),
            plan_of(t, true, "provision edge node with profile: "@ + t.profile@),
        )
    } else if a == "update"@ {
        Ok(plan_of(t, true, "trigger OTA update (channel: "@ + t.channel@ + ")"@))
    } else if a == "reboot"@ {
        Ok(plan_of(t, true, "schedule controlled reboot"@))
    } else if a == "drain"@ {
        Ok(plan_of(t, true, "drain workloads from node"@))
    } else if a == "label"@ {
        if t.remove {
            probed(
                r,
                has_label(r),
                plan_of(t, true, "remove label: "@ + t.key@),
                plan_of(t, false, "label "@ + t.key@ + " already absent"@),
            )
        } else {
            Ok(plan_of(t, true, "set label: "@ + t.key@ + "="@ + t.value@))
        }
    } else if a == "decommission"@ {
        Ok(plan_of(t, true, "decommission edge node"@))
    } else if a == "heartbeat"@ {
        Ok(plan_of(t, true, "send edge heartbeat"@))
    } else {
        Err(unknown_action("edge"@, a))
    }
}

pub open spec fn apply_command_spec(t: &EdgeTask) -> Result<Seq<PieceView>, ErrorView> {
    let a = t.action@;
    if a == "provision"@ {
        Ok(seq![lit("agnos-edge provision --profile "@), quote(t.profile@)])
    } else if a == "update"@ {
        Ok(seq![lit("agnos-edge update --channel "@), quote(t.channel@)])
    } else if a == "reboot"@ {
        Ok(seq![lit("agnos-edge reboot --graceful"@)])
    } else if a == "drain"@ {
        Ok(seq![lit("agnos-edge drain"@)])
    } else if a == "label"@ {
        if t.remove {
            Ok(seq![lit("agnos-edge label remove "@), quote(t.key@)])
        } else {
            Ok(seq![lit("agnos-edge label set "@), quote(t.key@), lit("="@), quote(t.value@)])
        }
    } else if a == "decommission"@ {
        Ok(seq![lit("agnos-edge decommission"@)])
    } else if a == "heartbeat"@ {
        Ok(seq![lit("agnos-edge heartbeat"@)])
    } else {
        Err(unknown_action("edge"@, a))
    }
}

pub open spec fn report_spec(t: &EdgeTask, out: &ExecOutput) -> ReportView {
    ReportView {
        module: "edge"@,
        action: t.action@,
        success: out.success,
        changed: out.success,
        message: usual_message("edge"@, t.action@, out),
    }
}

pub open spec fn check_probe_spec(t: &EdgeTask) -> ProbeView {
    let a = t.action@;
    if a == "provision"@ {
        provisioned_probe()
    } else if a == "label"@ {
        label_probe(t)
    } else {
        ProbeView::Nothing
    }
}

pub open spec fn check_spec(t: &EdgeTask, r: &Reply) -> Result<bool, ErrorView> {
    let a = t.action@;
    if a == "provision"@ {
        checked(r, reply_yes(r))
    } else if a == "label"@ {
        checked(r, if t.remove { !has_label(r) } else { has_label(r) })
    } else {
        Ok(false)
    }
}

fn provisioned_probe_exec() -> (p: Probe)
    ensures
        p@ == provisioned_probe(),
{
    Probe::FileExists("/etc/agnos/edge.conf".to_owned())
}

fn has_label_exec(r: &Reply) -> (b: bool)
    ensures
        b == has_label(r),
{
    match r {
        Reply::Output(o) => o.success && !trim(o.stdout.as_str()).is_empty(),
        _ => false,
    }
}

impl EdgeModule {
    pub fn name(&self) -> (r: &'static str)
        ensures
            r@ == "edge"@,
    {
        "edge"
    }

    pub fn actions(&self) -> (r: &'static [&'static str])
        ensures
            r@.map_values(|s: &str| s@) == edge_actions(),
    {
        let r: &'static [&'static str] = &["provision", "update", "reboot", "drain", "label", "decommission", "heartbeat"];
        assert(r@.map_values(|s: &str| s@) =~= edge_actions());
        r
    }

    /// What the plan of a task needs to know about the node first.
    pub fn plan_probe(&self, t: &EdgeTask) -> (r: Result<Probe, ModuleError>)
        ensures
            rview(r) == plan_probe_spec(t),
    {
        let a = t.action.as_str();
        if same_text(a, "provision") {
            Ok(provisioned_probe_exec())
        } else if same_text(a, "update") || same_text(a, "reboot") || same_text(a, "drain")
            || same_text(a, "decommission") || same_text(a, "heartbeat") {
            Ok(Probe::Nothing)
        } else if same_text(a, "label") {
            if t.remove {
                Ok(silent_probe_exec("agnos-edge label get ", t.key.as_str()))
            } else {
                Ok(Probe::Nothing)
            }
        } else {
            Err(unknown_action_error("edge", a))
        }
    }

    /// The plan of a task, given the reply to its probe.
    pub fn plan(&self, t: &EdgeTask, r: &Reply) -> (p: Result<Plan, ModuleError>)
        ensures
            rview(p) == plan_spec(t, r),
    {
        let a = t.action.as_str();
        if same_text(a, "provision") {
            let profile = t.profile.as_str();
            probed_exec(
                r,
                reply_is_yes(r),
                make_plan("edge", a, false, concat3("node already provisioned (profile: ", profile, ")")),
                make_plan("edge", a, true, concat2("provision edge node with profile: ", profile)),
            )
        } else if same_text(a, "update") {
            Ok(make_plan("edge", a, true, concat3("trigger OTA update (channel: ", t.channel.as_str(), ")")))
        } else if same_text(a, "reboot") {
            Ok(make_plan("edge", a, true, "schedule controlled reboot".to_owned()))
        } else if same_text(a, "drain") {
            Ok(make_plan("edge", a, true, "drain workloads from node".to_owned()))
        } else if same_text(a, "label") {
            let key = t.key.as_str();
            if t.remove {
                probed_exec(
                    r,
                    has_label_exec(r),
                    make_plan("edge", a, true, concat2("remove label: ", key)),
                    make_plan("edge", a, false, concat3("label ", key, " already absent")),
                )
            } else {
                Ok(make_plan("edge", a, true, concat4("set label: ", key, "=", t.value.as_str())))
            }
        } else if same_text(a, "decommission") {
            Ok(make_plan("edge", a, true, "decommission edge node".to_owned()))
        } else if same_text(a, "heartbeat") {
            Ok(make_plan("edge", a, true, "send edge heartbeat".to_owned()))
        } else {
            Err(unknown_action_error("edge", a))
        }
    }

    /// The command that applies a task.
    pub fn apply_command(&self, t: &EdgeTask) -> (r: Result<Command, ModuleError>)
        ensures
            rview(r) == apply_command_spec(t),
    {
        let a = t.action.as_str();
        let mut c = Command::new();
        if same_text(a, "provision") {
            c.lit("agnos-edge provision --profile ");
            c.quote(t.profile.as_str());
            assert(c@ =~= seq![lit("agnos-edge provision --profile "@), quote(t.profile@)]);
        } else if same_text(a, "update") {
            c.lit("agnos-edge update --channel ");
            c.quote(t.channel.as_str());
            assert(c@ =~= seq![lit("agnos-edge update --channel "@), quote(t.channel@)]);
        } else if same_text(a, "reboot") {
            c.lit("agnos-edge reboot --graceful");
            assert(c@ =~= seq![lit("agnos-edge reboot --graceful"@)]);
        } else if same_text(a, "drain") {
            c.lit("agnos-edge drain");
            assert(c@ =~= seq![lit("agnos-edge drain"@)]);
        } else if same_text(a, "label") {
            if t.remove {
                c.lit("agnos-edge label remove ");
                c.quote(t.key.as_str());
                assert(c@ =~= seq![lit("agnos-edge label remove "@), quote(t.key@)]);
            } else {
                c.lit("agnos-edge label set ");
                c.quote(t.key.as_str());
                c.lit("=");
                c.quote(t.value.as_str());
                assert(c@ =~= seq![
                    lit("agnos-edge label set "@),
                    quote(t.key@),
                    lit("="@),
                    quote(t.value@),
                ]);
            }
        } else if same_text(a, "decommission") {
            c.lit("agnos-edge decommission");
            assert(c@ =~= seq![lit("agnos-edge decommission"@)]);
        } else if same_text(a, "heartbeat") {
            c.lit("agnos-edge heartbeat");
            assert(c@ =~= seq![lit("agnos-edge heartbeat"@)]);
        } else {
            return Err(unknown_action_error("edge", a));
        }
        Ok(c)
    }

    /// What applying a task did, given the output of its command.
    pub fn apply_report(&self, t: &EdgeTask, out: &ExecOutput) -> (r: Report)
        ensures
            r@ == report_spec(t, out),
    {
        let a = t.action.as_str();
        make_report("edge", a, out.success, out.success, usual_text("edge", a, out))
    }

    /// What checking a task needs to know about the node.
    pub fn check_probe(&self, t: &EdgeTask) -> (p: Probe)
        ensures
            p@ == check_probe_spec(t),
    {
        let a = t.action.as_str();
        if same_text(a, "provision") {
            provisioned_probe_exec()
        } else if same_text(a, "label") {
            silent_probe_exec("agnos-edge label get ", t.key.as_str())
        } else {
            Probe::Nothing
        }
    }

    /// Whether the node already is as the task asks, given the probe's reply.
    pub fn check(&self, t: &EdgeTask, r: &Reply) -> (b: Result<bool, ModuleError>)
        ensures
            rview(b) == check_spec(t, r),
    {
        let a = t.action.as_str();
        if same_text(a, "provision") {
            checked_exec(r, reply_is_yes(r))
        } else if same_text(a, "label") {
            let has = has_label_exec(r);
            checked_exec(r, if t.remove { !has } else { has })
        } else {
            Ok(false)
        }
    }
}


/// The actions that the module lists are exactly the actions that its plan,
/// its probes and its commands accept; any other action is refused as unknown.
pub proof fn edge_accepts_listed_actions(t: &EdgeTask, r: &Reply)
    ensures
        edge_actions().contains(t.action@) ==> plan_probe_spec(t) != Err::<ProbeView, ErrorView>(
            unknown_action("edge"@, t.action@),
        ) && plan_spec(t, r) != Err::<PlanView, ErrorView>(unknown_action("edge"@, t.action@))
            && apply_command_spec(t) != Err::<Seq<PieceView>, ErrorView>(unknown_action("edge"@, t.action@)),
        !edge_actions().contains(t.action@) ==> plan_probe_spec(t) == Err::<ProbeView, ErrorView>(
            unknown_action("edge"@, t.action@),
        ) && plan_spec(t, r) == Err::<PlanView, ErrorView>(unknown_action("edge"@, t.action@))
            && apply_command_spec(t) == Err::<Seq<PieceView>, ErrorView>(unknown_action("edge"@, t.action@)),
{
    let s = edge_actions();
    assert(s[0] == "provision"@ && s[1] == "update"@ && s[2] == "reboot"@ && s[3] == "drain"@ && s[4] == "label"@
        && s[5] == "decommission"@ && s[6] == "heartbeat"@);
    if s.contains(t.action@) {
        let i = choose|i: int| 0 <= i < s.len() && s[i] == t.action@;
        assert(t.action@ == s[i]);
    }
}

/// Planning and checking a task ask the node the same question, and when it
/// is answered, checking finds the node as the task asks exactly when the
/// plan would change nothing.
pub proof fn edge_check_agrees_with_plan(t: &EdgeTask, r: &Reply)
    requires
        edge_actions().contains(t.action@),
        !(r is Failed),
        t.action@ == "label"@ ==> t.remove,
    ensures
        plan_probe_spec(t) == Ok::<ProbeView, ErrorView>(check_probe_spec(t)),
        plan_spec(t, r) is Ok,
        check_spec(t, r) == Ok::<bool, ErrorView>(!plan_spec(t, r)->Ok_0.changed),
{
    reveal_strlit("provision");
    assert("provision"@ =~= seq!['p', 'r', 'o', 'v', 'i', 's', 'i', 'o', 'n']);
    reveal_strlit("update");
    assert("update"@ =~= seq!['u', 'p', 'd', 'a', 't', 'e']);
    reveal_strlit("reboot");
    assert("reboot"@ =~= seq!['r', 'e', 'b', 'o', 'o', 't']);
    reveal_strlit("drain");
    assert("drain"@ =~= seq!['d', 'r', 'a', 'i', 'n']);
    reveal_strlit("label");
    assert("label"@ =~= seq!['l', 'a', 'b', 'e', 'l']);
    reveal_strlit("decommission");
    assert("decommission"@ =~= seq!['d', 'e', 'c', 'o', 'm', 'm', 'i', 's', 's', 'i', 'o', 'n']);
    reveal_strlit("heartbeat");
    assert("heartbeat"@ =~= seq!['h', 'e', 'a', 'r', 't', 'b', 'e', 'a', 't']);
    edge_accepts_listed_actions(t, r);
}

/// A report marks a change only when the command succeeded, and its success
/// is that of the command.
pub proof fn edge_report_change_needs_success(t: &EdgeTask, out: &ExecOutput)
    ensures
        report_spec(t, out).success == out.success,
        report_spec(t, out).changed ==> report_spec(t, out).success,
{
}

/// Whether two tasks differ at most in the values of their parameters:
/// same action, same switches, and the same parameters left empty.
pub open spec fn same_shape(t1: &EdgeTask, t2: &EdgeTask) -> bool {
    &&& t1.action@ == t2.action@
    &&& t1.remove == t2.remove
}

/// Parameter values reach the shell only as values to quote: the literal
/// text of a task's command depends on its action and its switch, never on what they hold.
pub proof fn edge_values_only_quoted(t1: &EdgeTask, t2: &EdgeTask)
    requires
        same_shape(t1, t2),
    ensures
        apply_command_spec(t1) is Ok <==> apply_command_spec(t2) is Ok,
        apply_command_spec(t1) is Ok ==> same_literals(
            apply_command_spec(t1)->Ok_0,
            apply_command_spec(t2)->Ok_0,
        ),
{

}

/// What each action runs: provisioning uses the task's profile, updates
/// follow its channel, and a label is set to its value, or removed exactly
/// when the task asks for removal.
pub proof fn edge_commands_carry_their_parameters(t: &EdgeTask)
    ensures
        t.action@ == "provision"@ ==> apply_command_spec(t) == Ok::<Seq<PieceView>, ErrorView>(
            seq![lit("agnos-edge provision --profile "@), quote(t.profile@)],
        ),
        t.action@ == "update"@ ==> apply_command_spec(t) == Ok::<Seq<PieceView>, ErrorView>(
            seq![lit("agnos-edge update --channel "@), quote(t.channel@)],
        ),
        t.action@ == "reboot"@ ==> apply_command_spec(t) == Ok::<Seq<PieceView>, ErrorView>(
            seq![lit("agnos-edge reboot --graceful"@)],
        ),
        t.action@ == "drain"@ ==> apply_command_spec(t) == Ok::<Seq<PieceView>, ErrorView>(
            seq![lit("agnos-edge drain"@)],
        ),
        t.action@ == "label"@ ==> apply_command_spec(t) == Ok::<Seq<PieceView>, ErrorView>(
            if t.remove { seq![lit("agnos-edge label remove "@), quote(t.key@)] } else { seq![lit("agnos-edge label set "@), quote(t.key@), lit("="@), quote(t.value@)] },
        ),
        t.action@ == "decommission"@ ==> apply_command_spec(t) == Ok::<Seq<PieceView>, ErrorView>(
            seq![lit("agnos-edge decommission"@)],
        ),
        t.action@ == "heartbeat"@ ==> apply_command_spec(t) == Ok::<Seq<PieceView>, ErrorView>(
            seq![lit("agnos-edge heartbeat"@)],
        ),
{
    reveal_strlit("provision");
    assert("provision"@ =~= seq!['p', 'r', 'o', 'v', 'i', 's', 'i', 'o', 'n']);
    reveal_strlit("update");
    assert("update"@ =~= seq!['u', 'p', 'd', 'a', 't', 'e']);
    reveal_strlit("reboot");
    assert("reboot"@ =~= seq!['r', 'e', 'b', 'o', 'o', 't']);
    reveal_strlit("drain");
    assert("drain"@ =~= seq!['d', 'r', 'a', 'i', 'n']);
    reveal_strlit("label");
    assert("label"@ =~= seq!['l', 'a', 'b', 'e', 'l']);
    reveal_strlit("decommission");
    assert("decommission"@ =~= seq!['d', 'e', 'c', 'o', 'm', 'm', 'i', 's', 's', 'i', 'o', 'n']);
    reveal_strlit("heartbeat");
    assert("heartbeat"@ =~= seq!['h', 'e', 'a', 'r', 't', 'b', 'e', 'a', 't']);
}

/// What a plan asks the node and when it plans a change: a node is
/// provisioned only when /etc/agnos/edge.conf does not exist, and a label
/// removed only when reading it prints something; setting a label and the
/// other actions always change.
pub proof fn edge_plans_follow_the_node(t: &EdgeTask, r: &Reply)
    ensures
        t.action@ == "provision"@ ==> plan_probe_spec(t) == Ok::<ProbeView, ErrorView>(ProbeView::FileExists("/etc/agnos/edge.conf"@)),
        t.action@ == "provision"@ && !(r is Failed) ==> plan_spec(t, r) is Ok && plan_spec(t, r)->Ok_0.changed == (!(match r { Reply::Output(o) => o.success, Reply::Exists(b) => *b, _ => false })),
        t.action@ == "label"@ && t.remove ==> plan_probe_spec(t) == Ok::<ProbeView, ErrorView>(ProbeView::Shell(seq![lit("agnos-edge label get "@), quote(t.key@), lit(" 2>/dev/null"@)])),
        t.action@ == "label"@ && t.remove && !(r is Failed) ==> plan_spec(t, r) is Ok && plan_spec(t, r)->Ok_0.changed == ((r matches Reply::Output(o) && o.success && trimmed(o.stdout@).len() > 0)),
        t.action@ == "label"@ && !t.remove ==> plan_probe_spec(t) == Ok::<ProbeView, ErrorView>(ProbeView::Nothing),
        t.action@ == "label"@ && !t.remove && !(r is Failed) ==> plan_spec(t, r) is Ok && plan_spec(t, r)->Ok_0.changed == (true),
        t.action@ == "update"@ ==> plan_probe_spec(t) == Ok::<ProbeView, ErrorView>(ProbeView::Nothing),
        t.action@ == "update"@ && !(r is Failed) ==> plan_spec(t, r) is Ok && plan_spec(t, r)->Ok_0.changed == (true),
        t.action@ == "reboot"@ ==> plan_probe_spec(t) == Ok::<ProbeView, ErrorView>(ProbeView::Nothing),
        t.action@ == "reboot"@ && !(r is Failed) ==> plan_spec(t, r) is Ok && plan_spec(t, r)->Ok_0.changed == (true),
        t.action@ == "drain"@ ==> plan_probe_spec(t) == Ok::<ProbeView, ErrorView>(ProbeView::Nothing),
        t.action@ == "drain"@ && !(r is Failed) ==> plan_spec(t, r) is Ok && plan_spec(t, r)->Ok_0.changed == (true),
        t.action@ == "decommission"@ ==> plan_probe_spec(t) == Ok::<ProbeView, ErrorView>(ProbeView::Nothing),
        t.action@ == "decommission"@ && !(r is Failed) ==> plan_spec(t, r) is Ok && plan_spec(t, r)->Ok_0.changed == (true),
        t.action@ == "heartbeat"@ ==> plan_probe_spec(t) == Ok::<ProbeView, ErrorView>(ProbeView::Nothing),
        t.action@ == "heartbeat"@ && !(r is Failed) ==> plan_spec(t, r) is Ok && plan_spec(t, r)->Ok_0.changed == (true),
{
    reveal_strlit("provision");
    assert("provision"@ =~= seq!['p', 'r', 'o', 'v', 'i', 's', 'i', 'o', 'n']);
    reveal_strlit("update");
    assert("update"@ =~= seq!['u', 'p', 'd', 'a', 't', 'e']);
    reveal_strlit("reboot");
    assert("reboot"@ =~= seq!['r', 'e', 'b', 'o', 'o', 't']);
    reveal_strlit("drain");
    assert("drain"@ =~= seq!['d', 'r', 'a', 'i', 'n']);
    reveal_strlit("label");
    assert("label"@ =~= seq!['l', 'a', 'b', 'e', 'l']);
    reveal_strlit("decommission");
    assert("decommission"@ =~= seq!['d', 'e', 'c', 'o', 'm', 'm', 'i', 's', 's', 'i', 'o', 'n']);
    reveal_strlit("heartbeat");
    assert("heartbeat"@ =~= seq!['h', 'e', 'a', 'r', 't', 'b', 'e', 'a', 't']);
}

/// What a report says: it is the edge module's, for the task's action; it
/// succeeds exactly when the command did, marks a change exactly when a
/// changing action succeeded, and says `ok`, or `failed:` with the command's
/// error output trimmed.
pub proof fn edge_reports_what_the_command_did(t: &EdgeTask, out: &ExecOutput)
    ensures
        report_spec(t, out) == (ReportView {
            module: "edge"@,
            action: t.action@,
            success: out.success,
            changed: out.success,
            message: if out.success {
                "edge"@ + " "@ + t.action@ + " — ok"@
            } else {
                "edge"@ + " "@ + t.action@ + " — failed: "@ + trimmed(out.stderr@)
            },
        }),
{
}

} // verus!
