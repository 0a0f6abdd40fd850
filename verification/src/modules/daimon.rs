//! AGNOS daimon fleet membership: report, register, deregister, heartbeat;
//! status, restart and config of the agent.

use vstd::prelude::*;
use crate::command::{Command, PieceView, lemma_same_literals_concat, lit, quote, same_literals};
use crate::task::{
    checked, checked_exec, make_plan, make_report, reply_is_yes, reply_yes, rview, unknown_action,
    unknown_action_error, usual_message, usual_text, ErrorView, ExecOutput, ModuleError, Plan,
    PlanView, Probe, ProbeView, Reply, Report, ReportView,
};
use crate::text::{concat2, concat3, replace_char, replaced, same_text, trimmed};

verus! {

/// The daimon module.
#[derive(Debug)]
pub struct DaimonModule;

/// The parameters of a daimon task, as the driver read them.
#[derive(Debug)]
pub struct DaimonTask {
    pub action: String,
    /// The fleet controller's base URL.
    pub endpoint: String,
    pub status: String,
    /// The JSON document that `config` sends to the controller.
    pub config: String,
}

impl DaimonTask {
    /// A task of the given action with every parameter at its default: what
    /// the driver starts from before it reads the parameters the task sets.
    pub fn defaults(action: &str) -> (t: DaimonTask)
        ensures
            t.action@ == action@,
            t.endpoint@ == "http://localhost:8090"@,
            t.status@ == ""@,
            t.config@ == ""@,
    {
        DaimonTask {
            action: action.to_owned(),
            endpoint: "http://localhost:8090".to_owned(),
            status: "".to_owned(),
            config: "".to_owned(),
        }
    }
}

/// The actions of the module, in the order it lists them.
pub open spec fn daimon_actions() -> Seq<Seq<char>> {
    seq!["report"@, "register"@, "deregister"@, "heartbeat"@, "status"@, "restart"@, "config"@]
}

/// `<head><quoted endpoint><tail>`.
pub open spec fn call(t: &DaimonTask, head: Seq<char>, tail: Seq<char>) -> Seq<PieceView> {
    seq![lit(head), quote(t.endpoint@), lit(tail)]
}

/// The probe that tells whether the controller knows this node.
pub open spec fn registered_probe(t: &DaimonTask) -> ProbeView {
    ProbeView::Shell(call(t, "curl -sf "@, "/v1/agents/self 2>/dev/null"@))
}

pub open spec fn plan_probe_spec(t: &DaimonTask) -> Result<ProbeView, ErrorView> {
    let a = t.action@;
    if a == "report"@ {
        Ok(ProbeView::Nothing)
    } else if a == "register"@ || a == "deregister"@ {
        Ok(registered_probe(t))
    } else if a == "heartbeat"@ || a == "status"@ || a == "restart"@ || a == "config"@ {
        Ok(ProbeView::Nothing)
    } else {
        Err(unknown_action("daimon"@, a))
    }
}

pub open spec fn plan_of(t: &DaimonTask, changed: bool, description: Seq<char>) -> PlanView {
    PlanView { module: "daimon"@, action: t.action@, changed, description }
}

/// The plan; a probe that fails counts as an unregistered node.
pub open spec fn plan_spec(t: &DaimonTask, r: &Reply) -> Result<PlanView, ErrorView> {
    let a = t.action@;
    if a == "report"@ {
        Ok(plan_of(t, true, "report to daimon: "@ + t.status@))
    } else if a == "register"@ {
        if reply_yes(r) {
            Ok(plan_of(t, false, "node already registered with daimon"@))
        } else {
            Ok(plan_of(t, true, "register node with daimon fleet"@))
        }
    } else if a == "deregister"@ {
        if reply_yes(r) {
            Ok(plan_of(t, true, "deregister node from daimon fleet"@))
        } else {
            Ok(plan_of(t, false, "node not registered with daimon"@))
        }
    } else if a == "heartbeat"@ {
        Ok(plan_of(t, true, "send heartbeat to daimon"@))
    } else if a == "status"@ {
        Ok(plan_of(t, false, "show agent status from daimon"@))
    } else if a == "restart"@ {
        Ok(plan_of(t, true, "restart the daimon agent"@))
    } else if a == "config"@ {
        Ok(plan_of(t, true, "send agent config to daimon"@))
    } else {
        Err(unknown_action("daimon"@, a))
    }
}

/// The status as a JSON string: in double quotes, with inner double quotes
/// escaped.
pub open spec fn status_json(t: &DaimonTask) -> Seq<char> {
    "\""@ + replaced(t.status@, '"', "\\\""@) + "\""@
}

/// The command that sends the agent's config to the controller.
pub open spec fn config_command(t: &DaimonTask) -> Seq<PieceView> {
    call(t, "curl -sf -X PUT "@, "/v1/agents/self/config -H 'Content-Type: application/json' -d "@)
        + seq![quote(t.config@)]
}

pub open spec fn apply_command_spec(t: &DaimonTask) -> Result<Seq<PieceView>, ErrorView> {
    let a = t.action@;
    if a == "report"@ {
        Ok(
            call(
                t,
                "curl -sf -X POST "@,
                "/v1/reports -H 'Content-Type: application/json' -d '{\"status\":"@,
            ) + seq![quote(status_json(t)), lit("}'"@)],
        )
    } else if a == "register"@ {
        Ok(call(t, "curl -sf -X POST "@, "/v1/agents/register"@))
    } else if a == "deregister"@ {
        Ok(call(t, "curl -sf -X DELETE "@, "/v1/agents/self"@))
    } else if a == "heartbeat"@ {
        Ok(call(t, "curl -sf -X POST "@, "/v1/agents/heartbeat"@))
    } else if a == "status"@ {
        Ok(call(t, "curl -sf "@, "/v1/agents/self"@))
    } else if a == "restart"@ {
        Ok(seq![lit("systemctl restart daimon"@)])
    } else if a == "config"@ {
        Ok(config_command(t))
    } else {
        Err(unknown_action("daimon"@, a))
    }
}

pub open spec fn report_spec(t: &DaimonTask, out: &ExecOutput) -> ReportView {
    ReportView {
        module: "daimon"@,
        action: t.action@,
        success: out.success,
        changed: out.success && t.action@ != "status"@,
        message: usual_message("daimon"@, t.action@, out),
    }
}

pub open spec fn check_probe_spec(t: &DaimonTask) -> ProbeView {
    let a = t.action@;
    if a == "register"@ || a == "deregister"@ {
        registered_probe(t)
    } else {
        ProbeView::Nothing
    }
}

pub open spec fn check_spec(t: &DaimonTask, r: &Reply) -> Result<bool, ErrorView> {
    let a = t.action@;
    if a == "register"@ {
        checked(r, reply_yes(r))
    } else if a == "deregister"@ {
        checked(r, !reply_yes(r))
    } else {
        Ok(false)
    }
}

fn call_exec(t: &DaimonTask, head: &str, tail: &str) -> (c: Command)
    ensures
        c@ == call(t, head@, tail@),
{
    let mut c = Command::new();
    c.lit(head);
    c.quote(t.endpoint.as_str());
    c.lit(tail);
    assert(c@ =~= call(t, head@, tail@));
    c
}

impl DaimonModule {
    pub fn name(&self) -> (r: &'static str)
        ensures
            r@ == "daimon"@,
    {
        "daimon"
    }

    pub fn actions(&self) -> (r: &'static [&'static str])
        ensures
            r@.map_values(|s: &str| s@) == daimon_actions(),
    {
        let r: &'static [&'static str] = &["report", "register", "deregister", "heartbeat", "status", "restart", "config"];
        assert(r@.map_values(|s: &str| s@) =~= daimon_actions());
        r
    }

    /// What the plan of a task needs to know about the fleet first.
    pub fn plan_probe(&self, t: &DaimonTask) -> (r: Result<Probe, ModuleError>)
        ensures
            rview(r) == plan_probe_spec(t),
    {
        let a = t.action.as_str();
        if same_text(a, "report") {
            Ok(Probe::Nothing)
        } else if same_text(a, "register") || same_text(a, "deregister") {
            Ok(Probe::Shell(call_exec(t, "curl -sf ", "/v1/agents/self 2>/dev/null")))
        } else if same_text(a, "heartbeat") || same_text(a, "status") || same_text(a, "restart")
            || same_text(a, "config") {
            Ok(Probe::Nothing)
        } else {
            Err(unknown_action_error("daimon", a))
        }
    }

    /// The plan of a task, given the reply to its probe.
    pub fn plan(&self, t: &DaimonTask, r: &Reply) -> (p: Result<Plan, ModuleError>)
        ensures
            rview(p) == plan_spec(t, r),
    {
        let a = t.action.as_str();
        if same_text(a, "report") {
            Ok(make_plan("daimon", a, true, concat2("report to daimon: ", t.status.as_str())))
        } else if same_text(a, "register") {
            if reply_is_yes(r) {
                Ok(make_plan("daimon", a, false, "node already registered with daimon".to_owned()))
            } else {
                Ok(make_plan("daimon", a, true, "register node with daimon fleet".to_owned()))
            }
        } else if same_text(a, "deregister") {
            if reply_is_yes(r) {
                Ok(make_plan("daimon", a, true, "deregister node from daimon fleet".to_owned()))
            } else {
                Ok(make_plan("daimon", a, false, "node not registered with daimon".to_owned()))
            }
        } else if same_text(a, "heartbeat") {
            Ok(make_plan("daimon", a, true, "send heartbeat to daimon".to_owned()))
        } else if same_text(a, "status") {
            Ok(make_plan("daimon", a, false, "show agent status from daimon".to_owned()))
        } else if same_text(a, "restart") {
            Ok(make_plan("daimon", a, true, "restart the daimon agent".to_owned()))
        } else if same_text(a, "config") {
            Ok(make_plan("daimon", a, true, "send agent config to daimon".to_owned()))
        } else {
            Err(unknown_action_error("daimon", a))
        }
    }

    /// The command that applies a task.
    pub fn apply_command(&self, t: &DaimonTask) -> (r: Result<Command, ModuleError>)
        ensures
            rview(r) == apply_command_spec(t),
    {
        let a = t.action.as_str();
        if same_text(a, "report") {
            let mut c = call_exec(
                t,
                "curl -sf -X POST ",
                "/v1/reports -H 'Content-Type: application/json' -d '{\"status\":",
            );
            let inner = replace_char(t.status.as_str(), '"', "\\\"");
            let json = concat3("\"", inner.as_str(), "\"");
            c.quote(json.as_str());
            c.lit("}'");
            assert(c@ =~= call(
                t,
                "curl -sf -X POST "@,
                "/v1/reports -H 'Content-Type: application/json' -d '{\"status\":"@,
            ) + seq![quote(status_json(t)), lit("}'"@)]);
            Ok(c)
        } else if same_text(a, "register") {
            Ok(call_exec(t, "curl -sf -X POST ", "/v1/agents/register"))
        } else if same_text(a, "deregister") {
            Ok(call_exec(t, "curl -sf -X DELETE ", "/v1/agents/self"))
        } else if same_text(a, "heartbeat") {
            Ok(call_exec(t, "curl -sf -X POST ", "/v1/agents/heartbeat"))
        } else if same_text(a, "status") {
            Ok(call_exec(t, "curl -sf ", "/v1/agents/self"))
        } else if same_text(a, "restart") {
            let mut c = Command::new();
            c.lit("systemctl restart daimon");
            assert(c@ =~= seq![lit("systemctl restart daimon"@)]);
            Ok(c)
        } else if same_text(a, "config") {
            let mut c = call_exec(t, "curl -sf -X PUT ", "/v1/agents/self/config -H 'Content-Type: application/json' -d ");
            c.quote(t.config.as_str());
            assert(c@ =~= config_command(t));
            Ok(c)
        } else {
            Err(unknown_action_error("daimon", a))
        }
    }

    /// What applying a task did, given the output of its command.
    pub fn apply_report(&self, t: &DaimonTask, out: &ExecOutput) -> (r: Report)
        ensures
            r@ == report_spec(t, out),
    {
        let a = t.action.as_str();
        make_report("daimon", a, out.success, out.success && !same_text(a, "status"), usual_text("daimon", a, out))
    }

    /// What checking a task needs to know about the fleet.
    pub fn check_probe(&self, t: &DaimonTask) -> (p: Probe)
        ensures
            p@ == check_probe_spec(t),
    {
        let a = t.action.as_str();
        if same_text(a, "register") || same_text(a, "deregister") {
            Probe::Shell(call_exec(t, "curl -sf ", "/v1/agents/self 2>/dev/null"))
        } else {
            Probe::Nothing
        }
    }

    /// Whether the fleet already is as the task asks, given the probe's reply.
    pub fn check(&self, t: &DaimonTask, r: &Reply) -> (b: Result<bool, ModuleError>)
        ensures
            rview(b) == check_spec(t, r),
    {
        let a = t.action.as_str();
        if same_text(a, "register") {
            checked_exec(r, reply_is_yes(r))
        } else if same_text(a, "deregister") {
            checked_exec(r, !reply_is_yes(r))
        } else {
            Ok(false)
        }
    }
}


/// The actions that the module lists are exactly the actions that its plan,
/// its probes and its commands accept; any other action is refused as unknown.
pub proof fn daimon_accepts_listed_actions(t: &DaimonTask, r: &Reply)
    ensures
        daimon_actions().contains(t.action@) ==> plan_probe_spec(t) != Err::<ProbeView, ErrorView>(
            unknown_action("daimon"@, t.action@),
        ) && plan_spec(t, r) != Err::<PlanView, ErrorView>(unknown_action("daimon"@, t.action@))
            && apply_command_spec(t) != Err::<Seq<PieceView>, ErrorView>(unknown_action("daimon"@, t.action@)),
        !daimon_actions().contains(t.action@) ==> plan_probe_spec(t) == Err::<ProbeView, ErrorView>(
            unknown_action("daimon"@, t.action@),
        ) && plan_spec(t, r) == Err::<PlanView, ErrorView>(unknown_action("daimon"@, t.action@))
            && apply_command_spec(t) == Err::<Seq<PieceView>, ErrorView>(unknown_action("daimon"@, t.action@)),
{
    let s = daimon_actions();
    assert(s[0] == "report"@ && s[1] == "register"@ && s[2] == "deregister"@ && s[3] == "heartbeat"@
        && s[4] == "status"@ && s[5] == "restart"@ && s[6] == "config"@);
    if s.contains(t.action@) {
        let i = choose|i: int| 0 <= i < s.len() && s[i] == t.action@;
        assert(t.action@ == s[i]);
    }
}

/// Planning and checking a task ask the node the same question, and when it
/// is answered, checking finds the node as the task asks exactly when the
/// plan would change nothing.
pub proof fn daimon_check_agrees_with_plan(t: &DaimonTask, r: &Reply)
    requires
        daimon_actions().contains(t.action@),
        t.action@ != "status"@,
        !(r is Failed),
    ensures
        plan_probe_spec(t) == Ok::<ProbeView, ErrorView>(check_probe_spec(t)),
        plan_spec(t, r) is Ok,
        check_spec(t, r) == Ok::<bool, ErrorView>(!plan_spec(t, r)->Ok_0.changed),
{
    reveal_strlit("report");
    assert("report"@ =~= seq!['r', 'e', 'p', 'o', 'r', 't']);
    reveal_strlit("register");
    assert("register"@ =~= seq!['r', 'e', 'g', 'i', 's', 't', 'e', 'r']);
    reveal_strlit("deregister");
    assert("deregister"@ =~= seq!['d', 'e', 'r', 'e', 'g', 'i', 's', 't', 'e', 'r']);
    reveal_strlit("heartbeat");
    assert("heartbeat"@ =~= seq!['h', 'e', 'a', 'r', 't', 'b', 'e', 'a', 't']);
    reveal_strlit("status");
    assert("status"@ =~= seq!['s', 't', 'a', 't', 'u', 's']);
    reveal_strlit("restart");
    assert("restart"@ =~= seq!['r', 'e', 's', 't', 'a', 'r', 't']);
    reveal_strlit("config");
    assert("config"@ =~= seq!['c', 'o', 'n', 'f', 'i', 'g']);
    daimon_accepts_listed_actions(t, r);
}

/// A report marks a change only when the command succeeded, and its success
/// is that of the command.
pub proof fn daimon_report_change_needs_success(t: &DaimonTask, out: &ExecOutput)
    ensures
        report_spec(t, out).success == out.success,
        report_spec(t, out).changed ==> report_spec(t, out).success,
{
}

/// Whether two tasks differ at most in the values of their parameters:
/// same action, same switches, and the same parameters left empty.
pub open spec fn same_shape(t1: &DaimonTask, t2: &DaimonTask) -> bool {
    &&& t1.action@ == t2.action@
}

/// Parameter values reach the shell only as values to quote: the literal
/// text of a task's command depends on its action, never on what they hold.
pub proof fn daimon_values_only_quoted(t1: &DaimonTask, t2: &DaimonTask)
    requires
        same_shape(t1, t2),
    ensures
        apply_command_spec(t1) is Ok <==> apply_command_spec(t2) is Ok,
        apply_command_spec(t1) is Ok ==> same_literals(
            apply_command_spec(t1)->Ok_0,
            apply_command_spec(t2)->Ok_0,
        ),
{
    if t1.action@ == "report"@ {
        assert(same_literals(call(t1, "curl -sf -X POST "@, "/v1/reports -H 'Content-Type: application/json' -d '{\"status\":"@), call(t2, "curl -sf -X POST "@, "/v1/reports -H 'Content-Type: application/json' -d '{\"status\":"@)));
        assert(same_literals(seq![quote(status_json(t1)), lit("}'"@)], seq![quote(status_json(t2)), lit("}'"@)]));
        lemma_same_literals_concat(call(t1, "curl -sf -X POST "@, "/v1/reports -H 'Content-Type: application/json' -d '{\"status\":"@), call(t2, "curl -sf -X POST "@, "/v1/reports -H 'Content-Type: application/json' -d '{\"status\":"@), seq![quote(status_json(t1)), lit("}'"@)], seq![quote(status_json(t2)), lit("}'"@)]);
    } else if t1.action@ == "config"@ {
        let head = "curl -sf -X PUT "@;
        let tail = "/v1/agents/self/config -H 'Content-Type: application/json' -d "@;
        assert(same_literals(call(t1, head, tail), call(t2, head, tail)));
        assert(same_literals(seq![quote(t1.config@)], seq![quote(t2.config@)]));
        lemma_same_literals_concat(call(t1, head, tail), call(t2, head, tail), seq![quote(t1.config@)], seq![quote(t2.config@)]);
    }
}

/// What each action runs: every call goes to the task's controller
/// endpoint; a report carries the task's status as a JSON string with its
/// quotes escaped, and config carries the task's document.
pub proof fn daimon_commands_carry_their_parameters(t: &DaimonTask)
    ensures
        t.action@ == "report"@ ==> apply_command_spec(t) == Ok::<Seq<PieceView>, ErrorView>(
            seq![lit("curl -sf -X POST "@), quote(t.endpoint@), lit("/v1/reports -H 'Content-Type: application/json' -d '{\"status\":"@)] + seq![quote("\""@ + replaced(t.status@, '"', "\\\""@) + "\""@), lit("}'"@)],
        ),
        t.action@ == "register"@ ==> apply_command_spec(t) == Ok::<Seq<PieceView>, ErrorView>(
            seq![lit("curl -sf -X POST "@), quote(t.endpoint@), lit("/v1/agents/register"@)],
        ),
        t.action@ == "deregister"@ ==> apply_command_spec(t) == Ok::<Seq<PieceView>, ErrorView>(
            seq![lit("curl -sf -X DELETE "@), quote(t.endpoint@), lit("/v1/agents/self"@)],
        ),
        t.action@ == "heartbeat"@ ==> apply_command_spec(t) == Ok::<Seq<PieceView>, ErrorView>(
            seq![lit("curl -sf -X POST "@), quote(t.endpoint@), lit("/v1/agents/heartbeat"@)],
        ),
        t.action@ == "status"@ ==> apply_command_spec(t) == Ok::<Seq<PieceView>, ErrorView>(
            seq![lit("curl -sf "@), quote(t.endpoint@), lit("/v1/agents/self"@)],
        ),
        t.action@ == "restart"@ ==> apply_command_spec(t) == Ok::<Seq<PieceView>, ErrorView>(
            seq![lit("systemctl restart daimon"@)],
        ),
        t.action@ == "config"@ ==> apply_command_spec(t) == Ok::<Seq<PieceView>, ErrorView>(
            seq![lit("curl -sf -X PUT "@), quote(t.endpoint@), lit("/v1/agents/self/config -H 'Content-Type: application/json' -d "@)] + seq![quote(t.config@)],
        ),
{
    reveal_strlit("report");
    assert("report"@ =~= seq!['r', 'e', 'p', 'o', 'r', 't']);
    reveal_strlit("register");
    assert("register"@ =~= seq!['r', 'e', 'g', 'i', 's', 't', 'e', 'r']);
    reveal_strlit("deregister");
    assert("deregister"@ =~= seq!['d', 'e', 'r', 'e', 'g', 'i', 's', 't', 'e', 'r']);
    reveal_strlit("heartbeat");
    assert("heartbeat"@ =~= seq!['h', 'e', 'a', 'r', 't', 'b', 'e', 'a', 't']);
    reveal_strlit("status");
    assert("status"@ =~= seq!['s', 't', 'a', 't', 'u', 's']);
    reveal_strlit("restart");
    assert("restart"@ =~= seq!['r', 'e', 's', 't', 'a', 'r', 't']);
    reveal_strlit("config");
    assert("config"@ =~= seq!['c', 'o', 'n', 'f', 'i', 'g']);
}

/// What a plan asks the controller and when it plans a change: a node is
/// registered only when the controller does not answer for it, and
/// deregistered only when it does; status changes nothing.
pub proof fn daimon_plans_follow_the_controller(t: &DaimonTask, r: &Reply)
    ensures
        t.action@ == "register"@ ==> plan_probe_spec(t) == Ok::<ProbeView, ErrorView>(ProbeView::Shell(seq![lit("curl -sf "@), quote(t.endpoint@), lit("/v1/agents/self 2>/dev/null"@)])),
        t.action@ == "register"@ && !(r is Failed) ==> plan_spec(t, r) is Ok && plan_spec(t, r)->Ok_0.changed == (!(match r { Reply::Output(o) => o.success, Reply::Exists(b) => *b, _ => false })),
        t.action@ == "deregister"@ ==> plan_probe_spec(t) == Ok::<ProbeView, ErrorView>(ProbeView::Shell(seq![lit("curl -sf "@), quote(t.endpoint@), lit("/v1/agents/self 2>/dev/null"@)])),
        t.action@ == "deregister"@ && !(r is Failed) ==> plan_spec(t, r) is Ok && plan_spec(t, r)->Ok_0.changed == ((match r { Reply::Output(o) => o.success, Reply::Exists(b) => *b, _ => false })),
        t.action@ == "report"@ ==> plan_probe_spec(t) == Ok::<ProbeView, ErrorView>(ProbeView::Nothing),
        t.action@ == "report"@ && !(r is Failed) ==> plan_spec(t, r) is Ok && plan_spec(t, r)->Ok_0.changed == (true),
        t.action@ == "heartbeat"@ ==> plan_probe_spec(t) == Ok::<ProbeView, ErrorView>(ProbeView::Nothing),
        t.action@ == "heartbeat"@ && !(r is Failed) ==> plan_spec(t, r) is Ok && plan_spec(t, r)->Ok_0.changed == (true),
        t.action@ == "status"@ ==> plan_probe_spec(t) == Ok::<ProbeView, ErrorView>(ProbeView::Nothing),
        t.action@ == "status"@ && !(r is Failed) ==> plan_spec(t, r) is Ok && plan_spec(t, r)->Ok_0.changed == (false),
        t.action@ == "restart"@ ==> plan_probe_spec(t) == Ok::<ProbeView, ErrorView>(ProbeView::Nothing),
        t.action@ == "restart"@ && !(r is Failed) ==> plan_spec(t, r) is Ok && plan_spec(t, r)->Ok_0.changed == (true),
        t.action@ == "config"@ ==> plan_probe_spec(t) == Ok::<ProbeView, ErrorView>(ProbeView::Nothing),
        t.action@ == "config"@ && !(r is Failed) ==> plan_spec(t, r) is Ok && plan_spec(t, r)->Ok_0.changed == (true),
{
    reveal_strlit("report");
    assert("report"@ =~= seq!['r', 'e', 'p', 'o', 'r', 't']);
    reveal_strlit("register");
    assert("register"@ =~= seq!['r', 'e', 'g', 'i', 's', 't', 'e', 'r']);
    reveal_strlit("deregister");
    assert("deregister"@ =~= seq!['d', 'e', 'r', 'e', 'g', 'i', 's', 't', 'e', 'r']);
    reveal_strlit("heartbeat");
    assert("heartbeat"@ =~= seq!['h', 'e', 'a', 'r', 't', 'b', 'e', 'a', 't']);
    reveal_strlit("status");
    assert("status"@ =~= seq!['s', 't', 'a', 't', 'u', 's']);
    reveal_strlit("restart");
    assert("restart"@ =~= seq!['r', 'e', 's', 't', 'a', 'r', 't']);
    reveal_strlit("config");
    assert("config"@ =~= seq!['c', 'o', 'n', 'f', 'i', 'g']);
}

/// What a report says: it is the daimon module's, for the task's action; it
/// succeeds exactly when the command did, marks a change exactly when a
/// changing action succeeded, and says `ok`, or `failed:` with the command's
/// error output trimmed.
pub proof fn daimon_reports_what_the_command_did(t: &DaimonTask, out: &ExecOutput)
    ensures
        report_spec(t, out) == (ReportView {
            module: "daimon"@,
            action: t.action@,
            success: out.success,
            changed: out.success && t.action@ != "status"@,
            message: if out.success {
                "daimon"@ + " "@ + t.action@ + " — ok"@
            } else {
                "daimon"@ + " "@ + t.action@ + " — failed: "@ + trimmed(out.stderr@)
            },
        }),
{
}

} // verus!
