//! AGNOS security policy through aegis: apply_policy, check_compliance,
//! harden, audit; enable and disable of the daemon, status, scan, quarantine.

use vstd::prelude::*;
use crate::command::{Command, PieceView, lit, quote, same_literals};
use crate::task::{
    checked, checked_exec, make_plan, make_report, ok_message, ok_text, probed, probed_exec,
    rview, unknown_action, unknown_action_error, ErrorView, ExecOutput, ModuleError, Plan, PlanView,
    Probe, ProbeView, Reply, Report, ReportView,
};
use crate::text::{concat2, concat3, same_text, trim, trimmed};

verus! {

/// The aegis module.
#[derive(Debug)]
pub struct AegisModule;

/// The parameters of an aegis task, as the driver read them.
#[derive(Debug)]
pub struct AegisTask {
    pub action: String,
    pub policy: String,
    pub profile: String,
    pub level: String,
    /// The path that `quarantine` isolates.
    pub target: String,
}

impl AegisTask {
    /// A task of the given action with every parameter at its default: what
    /// the driver starts from before it reads the parameters the task sets.
    pub fn defaults(action: &str) -> (t: AegisTask)
        ensures
            t.action@ == action@,
            t.policy@ == "default"@,
            t.profile@ == "standard"@,
            t.level@ == "standard"@,
            t.target@ == ""@,
    {
        AegisTask {
            action: action.to_owned(),
            policy: "default".to_owned(),
            profile: "standard".to_owned(),
            level: "standard".to_owned(),
            target: "".to_owned(),
        }
    }
}

/// The actions of the module, in the order it lists them.
pub open spec fn aegis_actions() -> Seq<Seq<char>> {
    seq![
        "apply_policy"@,
        "check_compliance"@,
        "harden"@,
        "audit"@,
        "enable"@,
        "disable"@,
        "status"@,
        "scan"@,
        "quarantine"@,
    ]
}

/// The probe that reads the active policy.
pub open spec fn policy_probe() -> ProbeView {
    ProbeView::Shell(seq![lit("aegis policy current 2>/dev/null"@)])
}

/// The probe that reads the applied hardening level.
pub open spec fn level_probe() -> ProbeView {
    ProbeView::Shell(seq![lit("aegis harden --status 2>/dev/null"@)])
}

/// What a reading probe shows: its trimmed output, when it succeeded and
/// printed something besides whitespace.
pub open spec fn shown(r: &Reply) -> Option<Seq<char>> {
    match r {
        Reply::Output(o) => if o.success && trimmed(o.stdout@).len() > 0 {
            Some(trimmed(o.stdout@))
        } else {
            None
        },
        _ => None,
    }
}

pub open spec fn plan_probe_spec(t: &AegisTask) -> Result<ProbeView, ErrorView> {
    let a = t.action@;
    if a == "apply_policy"@ {
        Ok(policy_probe())
    } else if a == "check_compliance"@ {
        Ok(ProbeView::Nothing)
    } else if a == "harden"@ {
        Ok(level_probe())
    } else if a == "audit"@ {
        Ok(ProbeView::Nothing)
    } else if a == "enable"@ || a == "disable"@ || a == "status"@ || a == "scan"@ || a == "quarantine"@ {
        Ok(ProbeView::Nothing)
    } else {
        Err(unknown_action("aegis"@, a))
    }
}

pub open spec fn plan_of(t: &AegisTask, changed: bool, description: Seq<char>) -> PlanView {
    PlanView { module: "aegis"@, action: t.action@, changed, description }
}

pub open spec fn plan_spec(t: &AegisTask, r: &Reply) -> Result<PlanView, ErrorView> {
    let a = t.action@;
    if a == "apply_policy"@ {
        probed(
            r,
            shown(r) == Some(t.policy@),
            plan_of(t, false, "policy '"@ + t.policy@ + "' already active"@),
            plan_of(t, true, "apply aegis policy: "@ + t.policy@),
        )
    } else if a == "check_compliance"@ {
        Ok(plan_of(t, false, "check compliance against profile: "@ + t.profile@))
    } else if a == "harden"@ {
        probed(
            r,
            shown(r) == Some(t.level@),
            plan_of(t, false, "hardening level '"@ + t.level@ + "' already applied"@),
            plan_of(t, true, "apply hardening level: "@ + t.level@),
        )
    } else if a == "audit"@ {
        Ok(plan_of(t, false, "run aegis security audit"@))
    } else if a == "enable"@ {
        Ok(plan_of(t, true, "enable and start the aegis daemon"@))
    } else if a == "disable"@ {
        Ok(plan_of(t, true, "stop and disable the aegis daemon"@))
    } else if a == "status"@ {
        Ok(plan_of(t, false, "show aegis status"@))
    } else if a == "scan"@ {
        Ok(plan_of(t, false, "run aegis scan"@))
    } else if a == "quarantine"@ {
        Ok(plan_of(t, true, "quarantine "@ + t.target@))
    } else {
        Err(unknown_action("aegis"@, a))
    }
}

pub open spec fn apply_command_spec(t: &AegisTask) -> Result<Seq<PieceView>, ErrorView> {
    let a = t.action@;
    if a == "apply_policy"@ {
        Ok(seq![lit("aegis policy apply "@), quote(t.policy@)])
    } else if a == "check_compliance"@ {
        Ok(seq![lit("aegis compliance check --profile "@), quote(t.profile@)])
    } else if a == "harden"@ {
        Ok(seq![lit("aegis harden --level "@), quote(t.level@)])
    } else if a == "audit"@ {
        Ok(seq![lit("aegis audit"@)])
    } else if a == "enable"@ {
        Ok(seq![lit("systemctl enable --now aegis"@)])
    } else if a == "disable"@ {
        Ok(seq![lit("systemctl disable --now aegis"@)])
    } else if a == "status"@ {
        Ok(seq![lit("aegis status"@)])
    } else if a == "scan"@ {
        Ok(seq![lit("aegis scan"@)])
    } else if a == "quarantine"@ {
        Ok(seq![lit("aegis quarantine "@), quote(t.target@)])
    } else {
        Err(unknown_action("aegis"@, a))
    }
}

/// On success the trimmed output, or the ok message when there is none;
/// `aegis <action> failed: <trimmed error output>` on failure.
pub open spec fn report_message(t: &AegisTask, out: &ExecOutput) -> Seq<char> {
    if out.success {
        if trimmed(out.stdout@).len() == 0 {
            ok_message("aegis"@, t.action@)
        } else {
            trimmed(out.stdout@)
        }
    } else {
        "aegis "@ + t.action@ + " failed: "@ + trimmed(out.stderr@)
    }
}

pub open spec fn report_spec(t: &AegisTask, out: &ExecOutput) -> ReportView {
    let a = t.action@;
    ReportView {
        module: "aegis"@,
        action: a,
        success: out.success,
        changed: out.success && a != "check_compliance"@ && a != "audit"@ && a != "status"@ && a
            != "scan"@,
        message: report_message(t, out),
    }
}

pub open spec fn check_probe_spec(t: &AegisTask) -> ProbeView {
    let a = t.action@;
    if a == "apply_policy"@ {
        policy_probe()
    } else if a == "harden"@ {
        level_probe()
    } else {
        ProbeView::Nothing
    }
}

pub open spec fn check_spec(t: &AegisTask, r: &Reply) -> Result<bool, ErrorView> {
    let a = t.action@;
    if a == "apply_policy"@ {
        checked(r, shown(r) == Some(t.policy@))
    } else if a == "harden"@ {
        checked(r, shown(r) == Some(t.level@))
    } else {
        Ok(false)
    }
}

fn fixed_probe(text: &str) -> (p: Probe)
    ensures
        p@ == ProbeView::Shell(seq![lit(text@)]),
{
    let mut c = Command::new();
    c.lit(text);
    Probe::Shell(c)
}

fn shows(r: &Reply, expected: &str) -> (b: bool)
    ensures
        b == (shown(r) == Some(expected@)),
{
    match r {
        Reply::Output(o) => {
            let v = trim(o.stdout.as_str());
            o.success && !v.is_empty() && same_text(v, expected)
        },
        _ => false,
    }
}

impl AegisModule {
    pub fn name(&self) -> (r: &'static str)
        ensures
            r@ == "aegis"@,
    {
        "aegis"
    }

    pub fn actions(&self) -> (r: &'static [&'static str])
        ensures
            r@.map_values(|s: &str| s@) == aegis_actions(),
    {
        let r: &'static [&'static str] = &[
            "apply_policy",
            "check_compliance",
            "harden",
            "audit",
            "enable",
            "disable",
            "status",
            "scan",
            "quarantine",
        ];
        assert(r@.map_values(|s: &str| s@) =~= aegis_actions());
        r
    }

    /// What the plan of a task needs to know about the node first.
    pub fn plan_probe(&self, t: &AegisTask) -> (r: Result<Probe, ModuleError>)
        ensures
            rview(r) == plan_probe_spec(t),
    {
        let a = t.action.as_str();
        if same_text(a, "apply_policy") {
            Ok(fixed_probe("aegis policy current 2>/dev/null"))
        } else if same_text(a, "check_compliance") {
            Ok(Probe::Nothing)
        } else if same_text(a, "harden") {
            Ok(fixed_probe("aegis harden --status 2>/dev/null"))
        } else if same_text(a, "audit") {
            Ok(Probe::Nothing)
        } else if same_text(a, "enable") || same_text(a, "disable") || same_text(a, "status")
            || same_text(a, "scan") || same_text(a, "quarantine") {
            Ok(Probe::Nothing)
        } else {
            Err(unknown_action_error("aegis", a))
        }
    }

    /// The plan of a task, given the reply to its probe.
    pub fn plan(&self, t: &AegisTask, r: &Reply) -> (p: Result<Plan, ModuleError>)
        ensures
            rview(p) == plan_spec(t, r),
    {
        let a = t.action.as_str();
        if same_text(a, "apply_policy") {
            let policy = t.policy.as_str();
            probed_exec(
                r,
                shows(r, policy),
                make_plan("aegis", a, false, concat3("policy '", policy, "' already active")),
                make_plan("aegis", a, true, concat2("apply aegis policy: ", policy)),
            )
        } else if same_text(a, "check_compliance") {
            Ok(make_plan("aegis", a, false, concat2("check compliance against profile: ", t.profile.as_str())))
        } else if same_text(a, "harden") {
            let level = t.level.as_str();
            probed_exec(
                r,
                shows(r, level),
                make_plan("aegis", a, false, concat3("hardening level '", level, "' already applied")),
                make_plan("aegis", a, true, concat2("apply hardening level: ", level)),
            )
        } else if same_text(a, "audit") {
            Ok(make_plan("aegis", a, false, "run aegis security audit".to_owned()))
        } else if same_text(a, "enable") {
            Ok(make_plan("aegis", a, true, "enable and start the aegis daemon".to_owned()))
        } else if same_text(a, "disable") {
            Ok(make_plan("aegis", a, true, "stop and disable the aegis daemon".to_owned()))
        } else if same_text(a, "status") {
            Ok(make_plan("aegis", a, false, "show aegis status".to_owned()))
        } else if same_text(a, "scan") {
            Ok(make_plan("aegis", a, false, "run aegis scan".to_owned()))
        } else if same_text(a, "quarantine") {
            Ok(make_plan("aegis", a, true, concat2("quarantine ", t.target.as_str())))
        } else {
            Err(unknown_action_error("aegis", a))
        }
    }

    /// The command that applies a task.
    pub fn apply_command(&self, t: &AegisTask) -> (r: Result<Command, ModuleError>)
        ensures
            rview(r) == apply_command_spec(t),
    {
        let a = t.action.as_str();
        let mut c = Command::new();
        if same_text(a, "apply_policy") {
            c.lit("aegis policy apply ");
            c.quote(t.policy.as_str());
            assert(c@ =~= seq![lit("aegis policy apply "@), quote(t.policy@)]);
        } else if same_text(a, "check_compliance") {
            c.lit("aegis compliance check --profile ");
            c.quote(t.profile.as_str());
            assert(c@ =~= seq![lit("aegis compliance check --profile "@), quote(t.profile@)]);
        } else if same_text(a, "harden") {
            c.lit("aegis harden --level ");
            c.quote(t.level.as_str());
            assert(c@ =~= seq![lit("aegis harden --level "@), quote(t.level@)]);
        } else if same_text(a, "audit") {
            c.lit("aegis audit");
            assert(c@ =~= seq![lit("aegis audit"@)]);
        } else if same_text(a, "enable") {
            c.lit("systemctl enable --now aegis");
            assert(c@ =~= seq![lit("systemctl enable --now aegis"@)]);
        } else if same_text(a, "disable") {
            c.lit("systemctl disable --now aegis");
            assert(c@ =~= seq![lit("systemctl disable --now aegis"@)]);
        } else if same_text(a, "status") {
            c.lit("aegis status");
            assert(c@ =~= seq![lit("aegis status"@)]);
        } else if same_text(a, "scan") {
            c.lit("aegis scan");
            assert(c@ =~= seq![lit("aegis scan"@)]);
        } else if same_text(a, "quarantine") {
            c.lit("aegis quarantine ");
            c.quote(t.target.as_str());
            assert(c@ =~= seq![lit("aegis quarantine "@), quote(t.target@)]);
        } else {
            return Err(unknown_action_error("aegis", a));
        }
        Ok(c)
    }

    /// What applying a task did, given the output of its command.
    pub fn apply_report(&self, t: &AegisTask, out: &ExecOutput) -> (r: Report)
        ensures
            r@ == report_spec(t, out),
    {
        let a = t.action.as_str();
        let changed = out.success && !same_text(a, "check_compliance") && !same_text(a, "audit")
            && !same_text(a, "status") && !same_text(a, "scan");
        let message = if out.success {
            let o = trim(out.stdout.as_str());
            if o.is_empty() {
                ok_text("aegis", a)
            } else {
                o.to_owned()
            }
        } else {
            let mut m = concat3("aegis ", a, " failed: ");
            m.append(trim(out.stderr.as_str()));
            m
        };
        make_report("aegis", a, out.success, changed, message)
    }

    /// What checking a task needs to know about the node.
    pub fn check_probe(&self, t: &AegisTask) -> (p: Probe)
        ensures
            p@ == check_probe_spec(t),
    {
        let a = t.action.as_str();
        if same_text(a, "apply_policy") {
            fixed_probe("aegis policy current 2>/dev/null")
        } else if same_text(a, "harden") {
            fixed_probe("aegis harden --status 2>/dev/null")
        } else {
            Probe::Nothing
        }
    }

    /// Whether the node already is as the task asks, given the probe's reply.
    pub fn check(&self, t: &AegisTask, r: &Reply) -> (b: Result<bool, ModuleError>)
        ensures
            rview(b) == check_spec(t, r),
    {
        let a = t.action.as_str();
        if same_text(a, "apply_policy") {
            checked_exec(r, shows(r, t.policy.as_str()))
        } else if same_text(a, "harden") {
            checked_exec(r, shows(r, t.level.as_str()))
        } else {
            Ok(false)
        }
    }
}


/// The actions that the module lists are exactly the actions that its plan,
/// its probes and its commands accept; any other action is refused as unknown.
pub proof fn aegis_accepts_listed_actions(t: &AegisTask, r: &Reply)
    ensures
        aegis_actions().contains(t.action@) ==> plan_probe_spec(t) != Err::<ProbeView, ErrorView>(
            unknown_action("aegis"@, t.action@),
        ) && plan_spec(t, r) != Err::<PlanView, ErrorView>(unknown_action("aegis"@, t.action@))
            && apply_command_spec(t) != Err::<Seq<PieceView>, ErrorView>(unknown_action("aegis"@, t.action@)),
        !aegis_actions().contains(t.action@) ==> plan_probe_spec(t) == Err::<ProbeView, ErrorView>(
            unknown_action("aegis"@, t.action@),
        ) && plan_spec(t, r) == Err::<PlanView, ErrorView>(unknown_action("aegis"@, t.action@))
            && apply_command_spec(t) == Err::<Seq<PieceView>, ErrorView>(unknown_action("aegis"@, t.action@)),
{
    let s = aegis_actions();
    assert(s[0] == "apply_policy"@ && s[1] == "check_compliance"@ && s[2] == "harden"@ && s[3] == "audit"@
        && s[4] == "enable"@ && s[5] == "disable"@ && s[6] == "status"@ && s[7] == "scan"@ && s[8] == "quarantine"@);
    if s.contains(t.action@) {
        let i = choose|i: int| 0 <= i < s.len() && s[i] == t.action@;
        assert(t.action@ == s[i]);
    }
}

/// Planning and checking a task ask the node the same question, and when it
/// is answered, checking finds the node as the task asks exactly when the
/// plan would change nothing.
pub proof fn aegis_check_agrees_with_plan(t: &AegisTask, r: &Reply)
    requires
        aegis_actions().contains(t.action@),
        !(r is Failed),
        t.action@ != "check_compliance"@,
        t.action@ != "audit"@,
        t.action@ != "status"@,
        t.action@ != "scan"@,
    ensures
        plan_probe_spec(t) == Ok::<ProbeView, ErrorView>(check_probe_spec(t)),
        plan_spec(t, r) is Ok,
        check_spec(t, r) == Ok::<bool, ErrorView>(!plan_spec(t, r)->Ok_0.changed),
{
    reveal_strlit("apply_policy");
    assert("apply_policy"@ =~= seq!['a', 'p', 'p', 'l', 'y', '_', 'p', 'o', 'l', 'i', 'c', 'y']);
    reveal_strlit("check_compliance");
    assert("check_compliance"@ =~= seq!['c', 'h', 'e', 'c', 'k', '_', 'c', 'o', 'm', 'p', 'l', 'i', 'a', 'n', 'c', 'e']);
    reveal_strlit("harden");
    assert("harden"@ =~= seq!['h', 'a', 'r', 'd', 'e', 'n']);
    reveal_strlit("audit");
    assert("audit"@ =~= seq!['a', 'u', 'd', 'i', 't']);
    reveal_strlit("enable");
    assert("enable"@ =~= seq!['e', 'n', 'a', 'b', 'l', 'e']);
    reveal_strlit("disable");
    assert("disable"@ =~= seq!['d', 'i', 's', 'a', 'b', 'l', 'e']);
    reveal_strlit("status");
    assert("status"@ =~= seq!['s', 't', 'a', 't', 'u', 's']);
    reveal_strlit("scan");
    assert("scan"@ =~= seq!['s', 'c', 'a', 'n']);
    reveal_strlit("quarantine");
    assert("quarantine"@ =~= seq!['q', 'u', 'a', 'r', 'a', 'n', 't', 'i', 'n', 'e']);
    aegis_accepts_listed_actions(t, r);
}

/// A report marks a change only when the command succeeded, and its success
/// is that of the command.
pub proof fn aegis_report_change_needs_success(t: &AegisTask, out: &ExecOutput)
    ensures
        report_spec(t, out).success == out.success,
        report_spec(t, out).changed ==> report_spec(t, out).success,
{
}

/// Whether two tasks differ at most in the values of their parameters:
/// same action, same switches, and the same parameters left empty.
pub open spec fn same_shape(t1: &AegisTask, t2: &AegisTask) -> bool {
    &&& t1.action@ == t2.action@
}

/// Parameter values reach the shell only as values to quote: the literal
/// text of a task's command depends on its action, never on what they hold.
pub proof fn aegis_values_only_quoted(t1: &AegisTask, t2: &AegisTask)
    requires
        same_shape(t1, t2),
    ensures
        apply_command_spec(t1) is Ok <==> apply_command_spec(t2) is Ok,
        apply_command_spec(t1) is Ok ==> same_literals(
            apply_command_spec(t1)->Ok_0,
            apply_command_spec(t2)->Ok_0,
        ),
{

}

/// What each action runs: the task's policy, compliance profile, hardening
/// level and quarantine target reach the aegis command, quoted.
pub proof fn aegis_commands_carry_their_parameters(t: &AegisTask)
    ensures
        t.action@ == "apply_policy"@ ==> apply_command_spec(t) == Ok::<Seq<PieceView>, ErrorView>(
            seq![lit("aegis policy apply "@), quote(t.policy@)],
        ),
        t.action@ == "check_compliance"@ ==> apply_command_spec(t) == Ok::<Seq<PieceView>, ErrorView>(
            seq![lit("aegis compliance check --profile "@), quote(t.profile@)],
        ),
        t.action@ == "harden"@ ==> apply_command_spec(t) == Ok::<Seq<PieceView>, ErrorView>(
            seq![lit("aegis harden --level "@), quote(t.level@)],
        ),
        t.action@ == "audit"@ ==> apply_command_spec(t) == Ok::<Seq<PieceView>, ErrorView>(
            seq![lit("aegis audit"@)],
        ),
        t.action@ == "enable"@ ==> apply_command_spec(t) == Ok::<Seq<PieceView>, ErrorView>(
            seq![lit("systemctl enable --now aegis"@)],
        ),
        t.action@ == "disable"@ ==> apply_command_spec(t) == Ok::<Seq<PieceView>, ErrorView>(
            seq![lit("systemctl disable --now aegis"@)],
        ),
        t.action@ == "status"@ ==> apply_command_spec(t) == Ok::<Seq<PieceView>, ErrorView>(
            seq![lit("aegis status"@)],
        ),
        t.action@ == "scan"@ ==> apply_command_spec(t) == Ok::<Seq<PieceView>, ErrorView>(
            seq![lit("aegis scan"@)],
        ),
        t.action@ == "quarantine"@ ==> apply_command_spec(t) == Ok::<Seq<PieceView>, ErrorView>(
            seq![lit("aegis quarantine "@), quote(t.target@)],
        ),
{
    reveal_strlit("apply_policy");
    assert("apply_policy"@ =~= seq!['a', 'p', 'p', 'l', 'y', '_', 'p', 'o', 'l', 'i', 'c', 'y']);
    reveal_strlit("check_compliance");
    assert("check_compliance"@ =~= seq!['c', 'h', 'e', 'c', 'k', '_', 'c', 'o', 'm', 'p', 'l', 'i', 'a', 'n', 'c', 'e']);
    reveal_strlit("harden");
    assert("harden"@ =~= seq!['h', 'a', 'r', 'd', 'e', 'n']);
    reveal_strlit("audit");
    assert("audit"@ =~= seq!['a', 'u', 'd', 'i', 't']);
    reveal_strlit("enable");
    assert("enable"@ =~= seq!['e', 'n', 'a', 'b', 'l', 'e']);
    reveal_strlit("disable");
    assert("disable"@ =~= seq!['d', 'i', 's', 'a', 'b', 'l', 'e']);
    reveal_strlit("status");
    assert("status"@ =~= seq!['s', 't', 'a', 't', 'u', 's']);
    reveal_strlit("scan");
    assert("scan"@ =~= seq!['s', 'c', 'a', 'n']);
    reveal_strlit("quarantine");
    assert("quarantine"@ =~= seq!['q', 'u', 'a', 'r', 'a', 'n', 't', 'i', 'n', 'e']);
}

/// What a plan asks the node and when it plans a change: a policy or a
/// hardening level is applied only when aegis does not already report it as
/// current; checks, audits, status and scans change nothing.
pub proof fn aegis_plans_follow_the_node(t: &AegisTask, r: &Reply)
    ensures
        t.action@ == "apply_policy"@ ==> plan_probe_spec(t) == Ok::<ProbeView, ErrorView>(ProbeView::Shell(seq![lit("aegis policy current 2>/dev/null"@)])),
        t.action@ == "apply_policy"@ && !(r is Failed) ==> plan_spec(t, r) is Ok && plan_spec(t, r)->Ok_0.changed == (!(r matches Reply::Output(o) && o.success && trimmed(o.stdout@).len() > 0 && trimmed(o.stdout@) == t.policy@)),
        t.action@ == "harden"@ ==> plan_probe_spec(t) == Ok::<ProbeView, ErrorView>(ProbeView::Shell(seq![lit("aegis harden --status 2>/dev/null"@)])),
        t.action@ == "harden"@ && !(r is Failed) ==> plan_spec(t, r) is Ok && plan_spec(t, r)->Ok_0.changed == (!(r matches Reply::Output(o) && o.success && trimmed(o.stdout@).len() > 0 && trimmed(o.stdout@) == t.level@)),
        t.action@ == "check_compliance"@ ==> plan_probe_spec(t) == Ok::<ProbeView, ErrorView>(ProbeView::Nothing),
        t.action@ == "check_compliance"@ && !(r is Failed) ==> plan_spec(t, r) is Ok && plan_spec(t, r)->Ok_0.changed == (false),
        t.action@ == "audit"@ ==> plan_probe_spec(t) == Ok::<ProbeView, ErrorView>(ProbeView::Nothing),
        t.action@ == "audit"@ && !(r is Failed) ==> plan_spec(t, r) is Ok && plan_spec(t, r)->Ok_0.changed == (false),
        t.action@ == "enable"@ ==> plan_probe_spec(t) == Ok::<ProbeView, ErrorView>(ProbeView::Nothing),
        t.action@ == "enable"@ && !(r is Failed) ==> plan_spec(t, r) is Ok && plan_spec(t, r)->Ok_0.changed == (true),
        t.action@ == "disable"@ ==> plan_probe_spec(t) == Ok::<ProbeView, ErrorView>(ProbeView::Nothing),
        t.action@ == "disable"@ && !(r is Failed) ==> plan_spec(t, r) is Ok && plan_spec(t, r)->Ok_0.changed == (true),
        t.action@ == "status"@ ==> plan_probe_spec(t) == Ok::<ProbeView, ErrorView>(ProbeView::Nothing),
        t.action@ == "status"@ && !(r is Failed) ==> plan_spec(t, r) is Ok && plan_spec(t, r)->Ok_0.changed == (false),
        t.action@ == "scan"@ ==> plan_probe_spec(t) == Ok::<ProbeView, ErrorView>(ProbeView::Nothing),
        t.action@ == "scan"@ && !(r is Failed) ==> plan_spec(t, r) is Ok && plan_spec(t, r)->Ok_0.changed == (false),
        t.action@ == "quarantine"@ ==> plan_probe_spec(t) == Ok::<ProbeView, ErrorView>(ProbeView::Nothing),
        t.action@ == "quarantine"@ && !(r is Failed) ==> plan_spec(t, r) is Ok && plan_spec(t, r)->Ok_0.changed == (true),
{
    reveal_strlit("apply_policy");
    assert("apply_policy"@ =~= seq!['a', 'p', 'p', 'l', 'y', '_', 'p', 'o', 'l', 'i', 'c', 'y']);
    reveal_strlit("check_compliance");
    assert("check_compliance"@ =~= seq!['c', 'h', 'e', 'c', 'k', '_', 'c', 'o', 'm', 'p', 'l', 'i', 'a', 'n', 'c', 'e']);
    reveal_strlit("harden");
    assert("harden"@ =~= seq!['h', 'a', 'r', 'd', 'e', 'n']);
    reveal_strlit("audit");
    assert("audit"@ =~= seq!['a', 'u', 'd', 'i', 't']);
    reveal_strlit("enable");
    assert("enable"@ =~= seq!['e', 'n', 'a', 'b', 'l', 'e']);
    reveal_strlit("disable");
    assert("disable"@ =~= seq!['d', 'i', 's', 'a', 'b', 'l', 'e']);
    reveal_strlit("status");
    assert("status"@ =~= seq!['s', 't', 'a', 't', 'u', 's']);
    reveal_strlit("scan");
    assert("scan"@ =~= seq!['s', 'c', 'a', 'n']);
    reveal_strlit("quarantine");
    assert("quarantine"@ =~= seq!['q', 'u', 'a', 'r', 'a', 'n', 't', 'i', 'n', 'e']);
}

/// What a report says: it succeeds exactly when the command did; it marks
/// a change exactly when an action other than a check, audit, status or scan
/// succeeded; it shows aegis's trimmed output, `ok` when there is none, or
/// `failed:` with the trimmed error.
pub proof fn aegis_reports_what_the_command_did(t: &AegisTask, out: &ExecOutput)
    ensures
        report_spec(t, out) == (ReportView {
            module: "aegis"@,
            action: t.action@,
            success: out.success,
            changed: out.success && t.action@ != "check_compliance"@ && t.action@ != "audit"@ && t.action@
                != "status"@ && t.action@ != "scan"@,
            message: if !out.success {
                "aegis "@ + t.action@ + " failed: "@ + trimmed(out.stderr@)
            } else if trimmed(out.stdout@).len() == 0 {
                "aegis"@ + " "@ + t.action@ + " — ok"@
            } else {
                trimmed(out.stdout@)
            },
        }),
{
}

} // verus!
