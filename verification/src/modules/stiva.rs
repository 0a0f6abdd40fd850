//! AGNOS containers through stiva: pull, run, stop, rm, compose_up,
//! compose_down.

use vstd::prelude::*;
use crate::command::{
    lemma_same_literals_concat, lit, provided, quote, same_literals, Command, PieceView,
};
use crate::task::{make_plan, make_report, reply_is_failed, reply_is_yes, reply_yes, rview, unknown_action, unknown_action_error, usual_message, usual_text, ErrorView, ExecOutput, ModuleError, Plan, PlanView, Probe, ProbeView, Reply, Report, ReportView};
use crate::modules::docker::docker_actions;
use crate::text::{concat2, concat3, concat4, same_text, trimmed};

verus! {

/// The stiva module.
#[derive(Debug)]
pub struct StivaModule;

/// The parameters of a stiva task, as the driver read them.
#[derive(Debug)]
pub struct StivaTask {
    pub action: String,
    pub image: String,
    pub container_name: String,
    pub ports: String,
    pub env: String,
    pub restart: String,
    pub force: bool,
    pub file: String,
    pub volumes: bool,
}

impl StivaTask {
    /// A task of the given action with every parameter at its default: what
    /// the driver starts from before it reads the parameters the task sets.
    pub fn defaults(action: &str) -> (t: StivaTask)
        ensures
            t.action@ == action@,
            t.image@ == ""@,
            t.container_name@ == ""@,
            t.ports@ == ""@,
            t.env@ == ""@,
            t.restart@ == ""@,
            t.force == false,
            t.file@ == "stiva-compose.toml"@,
            t.volumes == false,
    {
        StivaTask {
            action: action.to_owned(),
            image: "".to_owned(),
            container_name: "".to_owned(),
            ports: "".to_owned(),
            env: "".to_owned(),
            restart: "".to_owned(),
            force: false,
            file: "stiva-compose.toml".to_owned(),
            volumes: false,
        }
    }
}

/// The actions of the module, in the order it lists them.
pub open spec fn stiva_actions() -> Seq<Seq<char>> {
    seq!["pull"@, "run"@, "stop"@, "rm"@, "compose_up"@, "compose_down"@]
}

/// The probe that tells whether the container runs.
pub open spec fn running_probe(name: Seq<char>) -> ProbeView {
    ProbeView::Shell(seq![lit("stiva ps --format json 2>/dev/null | grep -q "@), quote(name)])
}

/// The probe that tells whether the image is present.
pub open spec fn image_probe(image: Seq<char>) -> ProbeView {
    ProbeView::Shell(seq![lit("stiva images --format json 2>/dev/null | grep -q "@), quote(image)])
}

pub open spec fn plan_probe_spec(t: &StivaTask) -> Result<ProbeView, ErrorView> {
    let a = t.action@;
    if a == "pull"@ {
        Ok(image_probe(t.image@))
    } else if a == "run"@ {
        if t.container_name@.len() > 0 {
            Ok(running_probe(t.container_name@))
        } else {
            Ok(ProbeView::Nothing)
        }
    } else if a == "stop"@ {
        Ok(running_probe(t.container_name@))
    } else if a == "rm"@ || a == "compose_up"@ || a == "compose_down"@ {
        Ok(ProbeView::Nothing)
    } else {
        Err(unknown_action("stiva"@, a))
    }
}

pub open spec fn plan_of(t: &StivaTask, changed: bool, description: Seq<char>) -> PlanView {
    PlanView { module: "stiva"@, action: t.action@, changed, description }
}

pub open spec fn plan_spec(t: &StivaTask, r: &Reply) -> Result<PlanView, ErrorView> {
    let a = t.action@;
    let name = t.container_name@;
    if a == "pull"@ {
        if r is Failed {
            Err(ErrorView::ProbeFailed)
        } else if reply_yes(r) {
            Ok(plan_of(t, false, "image "@ + t.image@ + " already pulled"@))
        } else {
            Ok(plan_of(t, true, "pull image "@ + t.image@))
        }
    } else if a == "run"@ {
        if name.len() > 0 {
            if r is Failed {
                Err(ErrorView::ProbeFailed)
            } else if reply_yes(r) {
                Ok(plan_of(t, false, "container "@ + name + " already running"@))
            } else {
                Ok(plan_of(t, true, "run container "@ + name + " from "@ + t.image@))
            }
        } else {
            Ok(plan_of(t, true, "run container from "@ + t.image@))
        }
    } else if a == "stop"@ {
        if r is Failed {
            Err(ErrorView::ProbeFailed)
        } else if reply_yes(r) {
            Ok(plan_of(t, true, "stop container "@ + name))
        } else {
            Ok(plan_of(t, false, "container "@ + name + " already stopped"@))
        }
    } else if a == "rm"@ {
        Ok(plan_of(t, true, "remove container "@ + name))
    } else if a == "compose_up"@ {
        Ok(plan_of(t, true, "compose up from "@ + t.file@))
    } else if a == "compose_down"@ {
        Ok(plan_of(t, true, "compose down from "@ + t.file@))
    } else {
        Err(unknown_action("stiva"@, a))
    }
}

/// `stiva run` with the flags whose parameters are set, then the image.
pub open spec fn run_command(t: &StivaTask) -> Seq<PieceView> {
    seq![lit("stiva run"@)] + provided(
        t.container_name@.len() > 0,
        seq![lit(" --name "@), quote(t.container_name@)],
    ) + provided(t.ports@.len() > 0, seq![lit(" -p "@), quote(t.ports@)]) + provided(
        t.env@.len() > 0,
        seq![lit(" -e "@), quote(t.env@)],
    ) + provided(t.restart@.len() > 0, seq![lit(" --restart "@), quote(t.restart@)]) + seq![
        lit(" "@),
        quote(t.image@),
    ]
}

pub open spec fn apply_command_spec(t: &StivaTask) -> Result<Seq<PieceView>, ErrorView> {
    let a = t.action@;
    let name = t.container_name@;
    if a == "pull"@ {
        Ok(seq![lit("stiva pull "@), quote(t.image@)])
    } else if a == "run"@ {
        Ok(run_command(t))
    } else if a == "stop"@ {
        Ok(seq![lit("stiva stop "@), quote(name)])
    } else if a == "rm"@ {
        Ok(seq![lit(if t.force { "stiva rm -f "@ } else { "stiva rm "@ }), quote(name)])
    } else if a == "compose_up"@ {
        Ok(seq![lit("stiva compose up -f "@), quote(t.file@)])
    } else if a == "compose_down"@ {
        Ok(
            seq![lit("stiva compose down -f "@), quote(t.file@)] + provided(
                t.volumes,
                seq![lit(" --volumes"@)],
            ),
        )
    } else {
        Err(unknown_action("stiva"@, a))
    }
}

pub open spec fn report_spec(t: &StivaTask, out: &ExecOutput) -> ReportView {
    ReportView {
        module: "stiva"@,
        action: t.action@,
        success: out.success,
        changed: out.success,
        message: usual_message("stiva"@, t.action@, out),
    }
}

pub open spec fn check_probe_spec(t: &StivaTask) -> ProbeView {
    let a = t.action@;
    if a == "pull"@ {
        image_probe(t.image@)
    } else if (a == "run"@ && t.container_name@.len() > 0) || a == "stop"@ {
        running_probe(t.container_name@)
    } else {
        ProbeView::Nothing
    }
}

pub open spec fn check_spec(t: &StivaTask, r: &Reply) -> Result<bool, ErrorView> {
    let a = t.action@;
    if a == "pull"@ {
        if r is Failed {
            Err(ErrorView::ProbeFailed)
        } else {
            Ok(reply_yes(r))
        }
    } else if a == "run"@ {
        if t.container_name@.len() == 0 {
            Ok(false)
        } else if r is Failed {
            Err(ErrorView::ProbeFailed)
        } else {
            Ok(reply_yes(r))
        }
    } else if a == "stop"@ {
        if r is Failed {
            Err(ErrorView::ProbeFailed)
        } else {
            Ok(!reply_yes(r))
        }
    } else {
        Ok(false)
    }
}

fn running_probe_exec(name: &str) -> (p: Probe)
    ensures
        p@ == running_probe(name@),
{
    let mut c = Command::new();
    c.lit("stiva ps --format json 2>/dev/null | grep -q ");
    c.quote(name);
    assert(c@ =~= seq![lit("stiva ps --format json 2>/dev/null | grep -q "@), quote(name@)]);
    Probe::Shell(c)
}

fn image_probe_exec(image: &str) -> (p: Probe)
    ensures
        p@ == image_probe(image@),
{
    let mut c = Command::new();
    c.lit("stiva images --format json 2>/dev/null | grep -q ");
    c.quote(image);
    assert(c@ =~= seq![lit("stiva images --format json 2>/dev/null | grep -q "@), quote(image@)]);
    Probe::Shell(c)
}

impl StivaModule {
    pub fn name(&self) -> (r: &'static str)
        ensures
            r@ == "stiva"@,
    {
        "stiva"
    }

    pub fn actions(&self) -> (r: &'static [&'static str])
        ensures
            r@.map_values(|s: &str| s@) == stiva_actions(),
    {
        let r: &'static [&'static str] = &["pull", "run", "stop", "rm", "compose_up", "compose_down"];
        assert(r@.map_values(|s: &str| s@) =~= stiva_actions());
        r
    }

    /// What the plan of a task needs to know about the node first.
    pub fn plan_probe(&self, t: &StivaTask) -> (r: Result<Probe, ModuleError>)
        ensures
            rview(r) == plan_probe_spec(t),
    {
        let a = t.action.as_str();
        if same_text(a, "pull") {
            Ok(image_probe_exec(t.image.as_str()))
        } else if same_text(a, "run") {
            if !t.container_name.as_str().is_empty() {
                Ok(running_probe_exec(t.container_name.as_str()))
            } else {
                Ok(Probe::Nothing)
            }
        } else if same_text(a, "stop") {
            Ok(running_probe_exec(t.container_name.as_str()))
        } else if same_text(a, "rm") || same_text(a, "compose_up") || same_text(a, "compose_down") {
            Ok(Probe::Nothing)
        } else {
            Err(unknown_action_error("stiva", a))
        }
    }

    /// The plan of a task, given the reply to its probe.
    pub fn plan(&self, t: &StivaTask, r: &Reply) -> (p: Result<Plan, ModuleError>)
        ensures
            rview(p) == plan_spec(t, r),
    {
        let a = t.action.as_str();
        let name = t.container_name.as_str();
        let image = t.image.as_str();
        if same_text(a, "pull") {
            if reply_is_failed(r) {
                Err(ModuleError::ProbeFailed)
            } else if reply_is_yes(r) {
                Ok(make_plan("stiva", a, false, concat3("image ", image, " already pulled")))
            } else {
                Ok(make_plan("stiva", a, true, concat2("pull image ", image)))
            }
        } else if same_text(a, "run") {
            if !name.is_empty() {
                if reply_is_failed(r) {
                    Err(ModuleError::ProbeFailed)
                } else if reply_is_yes(r) {
                    Ok(make_plan("stiva", a, false, concat3("container ", name, " already running")))
                } else {
                    let d = concat4("run container ", name, " from ", image);
                    Ok(make_plan("stiva", a, true, d))
                }
            } else {
                Ok(make_plan("stiva", a, true, concat2("run container from ", image)))
            }
        } else if same_text(a, "stop") {
            if reply_is_failed(r) {
                Err(ModuleError::ProbeFailed)
            } else if reply_is_yes(r) {
                Ok(make_plan("stiva", a, true, concat2("stop container ", name)))
            } else {
                Ok(make_plan("stiva", a, false, concat3("container ", name, " already stopped")))
            }
        } else if same_text(a, "rm") {
            Ok(make_plan("stiva", a, true, concat2("remove container ", name)))
        } else if same_text(a, "compose_up") {
            Ok(make_plan("stiva", a, true, concat2("compose up from ", t.file.as_str())))
        } else if same_text(a, "compose_down") {
            Ok(make_plan("stiva", a, true, concat2("compose down from ", t.file.as_str())))
        } else {
            Err(unknown_action_error("stiva", a))
        }
    }

    /// The command that applies a task.
    pub fn apply_command(&self, t: &StivaTask) -> (r: Result<Command, ModuleError>)
        ensures
            rview(r) == apply_command_spec(t),
    {
        let a = t.action.as_str();
        let name = t.container_name.as_str();
        let mut c = Command::new();
        if same_text(a, "pull") {
            c.lit("stiva pull ");
            c.quote(t.image.as_str());
            assert(c@ =~= seq![lit("stiva pull "@), quote(t.image@)]);
        } else if same_text(a, "run") {
            c.lit("stiva run");
            if !name.is_empty() {
                c.lit(" --name ");
                c.quote(name);
            }
            if !t.ports.as_str().is_empty() {
                c.lit(" -p ");
                c.quote(t.ports.as_str());
            }
            if !t.env.as_str().is_empty() {
                c.lit(" -e ");
                c.quote(t.env.as_str());
            }
            if !t.restart.as_str().is_empty() {
                c.lit(" --restart ");
                c.quote(t.restart.as_str());
            }
            c.lit(" ");
            c.quote(t.image.as_str());
            assert(c@ =~= run_command(t));
        } else if same_text(a, "stop") {
            c.lit("stiva stop ");
            c.quote(name);
            assert(c@ =~= seq![lit("stiva stop "@), quote(name@)]);
        } else if same_text(a, "rm") {
            c.lit(if t.force { "stiva rm -f " } else { "stiva rm " });
            c.quote(name);
            assert(c@ =~= seq![lit(if t.force { "stiva rm -f "@ } else { "stiva rm "@ }), quote(name@)]);
        } else if same_text(a, "compose_up") {
            c.lit("stiva compose up -f ");
            c.quote(t.file.as_str());
            assert(c@ =~= seq![lit("stiva compose up -f "@), quote(t.file@)]);
        } else if same_text(a, "compose_down") {
            c.lit("stiva compose down -f ");
            c.quote(t.file.as_str());
            if t.volumes {
                c.lit(" --volumes");
            }
            assert(c@ =~= seq![lit("stiva compose down -f "@), quote(t.file@)] + provided(
                t.volumes,
                seq![lit(" --volumes"@)],
            ));
        } else {
            return Err(unknown_action_error("stiva", a));
        }
        Ok(c)
    }

    /// What applying a task did, given the output of its command.
    pub fn apply_report(&self, t: &StivaTask, out: &ExecOutput) -> (r: Report)
        ensures
            r@ == report_spec(t, out),
    {
        let a = t.action.as_str();
        make_report("stiva", a, out.success, out.success, usual_text("stiva", a, out))
    }

    /// What checking a task needs to know about the node.
    pub fn check_probe(&self, t: &StivaTask) -> (p: Probe)
        ensures
            p@ == check_probe_spec(t),
    {
        let a = t.action.as_str();
        if same_text(a, "pull") {
            image_probe_exec(t.image.as_str())
        } else if (same_text(a, "run") && !t.container_name.as_str().is_empty()) || same_text(a, "stop") {
            running_probe_exec(t.container_name.as_str())
        } else {
            Probe::Nothing
        }
    }

    /// Whether the node already is as the task asks, given the probe's reply.
    pub fn check(&self, t: &StivaTask, r: &Reply) -> (b: Result<bool, ModuleError>)
        ensures
            match b {
                Ok(v) => check_spec(t, r) == Ok::<bool, ErrorView>(v),
                Err(e) => check_spec(t, r) == Err::<bool, ErrorView>(e@),
            },
    {
        let a = t.action.as_str();
        if same_text(a, "pull") {
            if reply_is_failed(r) {
                Err(ModuleError::ProbeFailed)
            } else {
                Ok(reply_is_yes(r))
            }
        } else if same_text(a, "run") {
            if t.container_name.as_str().is_empty() {
                Ok(false)
            } else if reply_is_failed(r) {
                Err(ModuleError::ProbeFailed)
            } else {
                Ok(reply_is_yes(r))
            }
        } else if same_text(a, "stop") {
            if reply_is_failed(r) {
                Err(ModuleError::ProbeFailed)
            } else {
                Ok(!reply_is_yes(r))
            }
        } else {
            Ok(false)
        }
    }
}



/// The actions that the module lists are exactly the actions that its plan,
/// its probes and its commands accept; any other action is refused as unknown.
pub proof fn stiva_accepts_listed_actions(t: &StivaTask, r: &Reply)
    ensures
        stiva_actions().contains(t.action@) ==> plan_probe_spec(t) != Err::<ProbeView, ErrorView>(
            unknown_action("stiva"@, t.action@),
        ) && plan_spec(t, r) != Err::<PlanView, ErrorView>(unknown_action("stiva"@, t.action@))
            && apply_command_spec(t) != Err::<Seq<PieceView>, ErrorView>(unknown_action("stiva"@, t.action@)),
        !stiva_actions().contains(t.action@) ==> plan_probe_spec(t) == Err::<ProbeView, ErrorView>(
            unknown_action("stiva"@, t.action@),
        ) && plan_spec(t, r) == Err::<PlanView, ErrorView>(unknown_action("stiva"@, t.action@))
            && apply_command_spec(t) == Err::<Seq<PieceView>, ErrorView>(unknown_action("stiva"@, t.action@)),
{
    let s = stiva_actions();
    assert(s[0] == "pull"@ && s[1] == "run"@ && s[2] == "stop"@ && s[3] == "rm"@ && s[4] == "compose_up"@ && s[5] == "compose_down"@);
    if s.contains(t.action@) {
        let i = choose|i: int| 0 <= i < s.len() && s[i] == t.action@;
        assert(t.action@ == s[i]);
    }
}

/// Planning and checking a task ask the node the same question, and when it
/// is answered, checking finds the node as the task asks exactly when the
/// plan would change nothing.
pub proof fn stiva_check_agrees_with_plan(t: &StivaTask, r: &Reply)
    requires
        stiva_actions().contains(t.action@),
        !(r is Failed),
    ensures
        plan_probe_spec(t) == Ok::<ProbeView, ErrorView>(check_probe_spec(t)),
        plan_spec(t, r) is Ok,
        check_spec(t, r) == Ok::<bool, ErrorView>(!plan_spec(t, r)->Ok_0.changed),
{
    reveal_strlit("pull");
    assert("pull"@ =~= seq!['p', 'u', 'l', 'l']);
    reveal_strlit("run");
    assert("run"@ =~= seq!['r', 'u', 'n']);
    reveal_strlit("stop");
    assert("stop"@ =~= seq!['s', 't', 'o', 'p']);
    reveal_strlit("rm");
    assert("rm"@ =~= seq!['r', 'm']);
    reveal_strlit("compose_up");
    assert("compose_up"@ =~= seq!['c', 'o', 'm', 'p', 'o', 's', 'e', '_', 'u', 'p']);
    reveal_strlit("compose_down");
    assert("compose_down"@ =~= seq!['c', 'o', 'm', 'p', 'o', 's', 'e', '_', 'd', 'o', 'w', 'n']);
    stiva_accepts_listed_actions(t, r);
}

/// A report marks a change only when the command succeeded, and its success
/// is that of the command.
pub proof fn stiva_report_change_needs_success(t: &StivaTask, out: &ExecOutput)
    ensures
        report_spec(t, out).success == out.success,
        report_spec(t, out).changed ==> report_spec(t, out).success,
{
}

/// Whether two tasks differ at most in the values of their parameters:
/// same action, same switches, and the same parameters left empty.
pub open spec fn same_shape(t1: &StivaTask, t2: &StivaTask) -> bool {
    &&& t1.action@ == t2.action@
    &&& t1.force == t2.force
    &&& t1.volumes == t2.volumes
    &&& (t1.container_name@.len() == 0) == (t2.container_name@.len() == 0)
    &&& (t1.ports@.len() == 0) == (t2.ports@.len() == 0)
    &&& (t1.env@.len() == 0) == (t2.env@.len() == 0)
    &&& (t1.restart@.len() == 0) == (t2.restart@.len() == 0)
}

/// Parameter values reach the shell only as values to quote: the literal
/// text of a task's command depends on its action, its switches and which
/// parameters are set, never on what they hold.
pub proof fn stiva_values_only_quoted(t1: &StivaTask, t2: &StivaTask)
    requires
        same_shape(t1, t2),
    ensures
        apply_command_spec(t1) is Ok <==> apply_command_spec(t2) is Ok,
        apply_command_spec(t1) is Ok ==> same_literals(
            apply_command_spec(t1)->Ok_0,
            apply_command_spec(t2)->Ok_0,
        ),
{
    if t1.action@ == "run"@ {
        assert(same_literals(seq![lit("stiva run"@)], seq![lit("stiva run"@)]));
        assert(same_literals(provided(t1.container_name@.len() > 0, seq![lit(" --name "@), quote(t1.container_name@)]), provided(t2.container_name@.len() > 0, seq![lit(" --name "@), quote(t2.container_name@)])));
        assert(same_literals(provided(t1.ports@.len() > 0, seq![lit(" -p "@), quote(t1.ports@)]), provided(t2.ports@.len() > 0, seq![lit(" -p "@), quote(t2.ports@)])));
        assert(same_literals(provided(t1.env@.len() > 0, seq![lit(" -e "@), quote(t1.env@)]), provided(t2.env@.len() > 0, seq![lit(" -e "@), quote(t2.env@)])));
        assert(same_literals(provided(t1.restart@.len() > 0, seq![lit(" --restart "@), quote(t1.restart@)]), provided(t2.restart@.len() > 0, seq![lit(" --restart "@), quote(t2.restart@)])));
        assert(same_literals(seq![lit(" "@), quote(t1.image@)], seq![lit(" "@), quote(t2.image@)]));
        lemma_same_literals_concat(seq![lit("stiva run"@)], seq![lit("stiva run"@)], provided(t1.container_name@.len() > 0, seq![lit(" --name "@), quote(t1.container_name@)]), provided(t2.container_name@.len() > 0, seq![lit(" --name "@), quote(t2.container_name@)]));
        lemma_same_literals_concat(seq![lit("stiva run"@)] + provided(t1.container_name@.len() > 0, seq![lit(" --name "@), quote(t1.container_name@)]), seq![lit("stiva run"@)] + provided(t2.container_name@.len() > 0, seq![lit(" --name "@), quote(t2.container_name@)]), provided(t1.ports@.len() > 0, seq![lit(" -p "@), quote(t1.ports@)]), provided(t2.ports@.len() > 0, seq![lit(" -p "@), quote(t2.ports@)]));
        lemma_same_literals_concat(seq![lit("stiva run"@)] + provided(t1.container_name@.len() > 0, seq![lit(" --name "@), quote(t1.container_name@)]) + provided(t1.ports@.len() > 0, seq![lit(" -p "@), quote(t1.ports@)]), seq![lit("stiva run"@)] + provided(t2.container_name@.len() > 0, seq![lit(" --name "@), quote(t2.container_name@)]) + provided(t2.ports@.len() > 0, seq![lit(" -p "@), quote(t2.ports@)]), provided(t1.env@.len() > 0, seq![lit(" -e "@), quote(t1.env@)]), provided(t2.env@.len() > 0, seq![lit(" -e "@), quote(t2.env@)]));
        lemma_same_literals_concat(seq![lit("stiva run"@)] + provided(t1.container_name@.len() > 0, seq![lit(" --name "@), quote(t1.container_name@)]) + provided(t1.ports@.len() > 0, seq![lit(" -p "@), quote(t1.ports@)]) + provided(t1.env@.len() > 0, seq![lit(" -e "@), quote(t1.env@)]), seq![lit("stiva run"@)] + provided(t2.container_name@.len() > 0, seq![lit(" --name "@), quote(t2.container_name@)]) + provided(t2.ports@.len() > 0, seq![lit(" -p "@), quote(t2.ports@)]) + provided(t2.env@.len() > 0, seq![lit(" -e "@), quote(t2.env@)]), provided(t1.restart@.len() > 0, seq![lit(" --restart "@), quote(t1.restart@)]), provided(t2.restart@.len() > 0, seq![lit(" --restart "@), quote(t2.restart@)]));
        lemma_same_literals_concat(seq![lit("stiva run"@)] + provided(t1.container_name@.len() > 0, seq![lit(" --name "@), quote(t1.container_name@)]) + provided(t1.ports@.len() > 0, seq![lit(" -p "@), quote(t1.ports@)]) + provided(t1.env@.len() > 0, seq![lit(" -e "@), quote(t1.env@)]) + provided(t1.restart@.len() > 0, seq![lit(" --restart "@), quote(t1.restart@)]), seq![lit("stiva run"@)] + provided(t2.container_name@.len() > 0, seq![lit(" --name "@), quote(t2.container_name@)]) + provided(t2.ports@.len() > 0, seq![lit(" -p "@), quote(t2.ports@)]) + provided(t2.env@.len() > 0, seq![lit(" -e "@), quote(t2.env@)]) + provided(t2.restart@.len() > 0, seq![lit(" --restart "@), quote(t2.restart@)]), seq![lit(" "@), quote(t1.image@)], seq![lit(" "@), quote(t2.image@)]);
    } else if t1.action@ == "compose_down"@ {
        assert(same_literals(seq![lit("stiva compose down -f "@), quote(t1.file@)], seq![lit("stiva compose down -f "@), quote(t2.file@)]));
        assert(same_literals(provided(t1.volumes, seq![lit(" --volumes"@)]), provided(t2.volumes, seq![lit(" --volumes"@)])));
        lemma_same_literals_concat(seq![lit("stiva compose down -f "@), quote(t1.file@)], seq![lit("stiva compose down -f "@), quote(t2.file@)], provided(t1.volumes, seq![lit(" --volumes"@)]), provided(t2.volumes, seq![lit(" --volumes"@)]));
    }
}

/// Every action of the module is an action of the Docker module, run through
/// stiva instead of Docker: the module lists the Docker module's container
/// and compose actions, in the same order.
pub proof fn stiva_offers_docker_actions()
    ensures
        stiva_actions() == docker_actions().subrange(0, 6),
        forall|i: int| 0 <= i < stiva_actions().len() ==> docker_actions().contains(#[trigger] stiva_actions()[i]),
{
    assert(stiva_actions() =~= docker_actions().subrange(0, 6));
    assert forall|i: int| 0 <= i < stiva_actions().len() implies docker_actions().contains(#[trigger] stiva_actions()[i]) by {
        assert(docker_actions()[i] == stiva_actions()[i]);
    }
}

/// What each action runs: the image, container and compose file reach the
/// command, quoted; `run` carries each optional flag exactly when its
/// parameter is set; `rm` forces exactly when asked and `compose_down`
/// removes volumes exactly when asked.
pub proof fn stiva_commands_carry_their_parameters(t: &StivaTask)
    ensures
        t.action@ == "pull"@ ==> apply_command_spec(t) == Ok::<Seq<PieceView>, ErrorView>(
            seq![lit("stiva pull "@), quote(t.image@)],
        ),
        t.action@ == "run"@ ==> apply_command_spec(t) == Ok::<Seq<PieceView>, ErrorView>(
            seq![lit("stiva run"@)]
                + (if t.container_name@.len() > 0 { seq![lit(" --name "@), quote(t.container_name@)] } else { seq![] })
                + (if t.ports@.len() > 0 { seq![lit(" -p "@), quote(t.ports@)] } else { seq![] })
                + (if t.env@.len() > 0 { seq![lit(" -e "@), quote(t.env@)] } else { seq![] })
                + (if t.restart@.len() > 0 { seq![lit(" --restart "@), quote(t.restart@)] } else { seq![] })
                + seq![lit(" "@), quote(t.image@)],
        ),
        t.action@ == "stop"@ ==> apply_command_spec(t) == Ok::<Seq<PieceView>, ErrorView>(
            seq![lit("stiva stop "@), quote(t.container_name@)],
        ),
        t.action@ == "rm"@ ==> apply_command_spec(t) == Ok::<Seq<PieceView>, ErrorView>(
            seq![lit(if t.force { "stiva rm -f "@ } else { "stiva rm "@ }), quote(t.container_name@)],
        ),
        t.action@ == "compose_up"@ ==> apply_command_spec(t) == Ok::<Seq<PieceView>, ErrorView>(
            seq![lit("stiva compose up -f "@), quote(t.file@)],
        ),
        t.action@ == "compose_down"@ ==> apply_command_spec(t) == Ok::<Seq<PieceView>, ErrorView>(
            seq![lit("stiva compose down -f "@), quote(t.file@)] + (if t.volumes { seq![lit(" --volumes"@)] } else { seq![] }),
        ),
{
    reveal_strlit("pull");
    assert("pull"@ =~= seq!['p', 'u', 'l', 'l']);
    reveal_strlit("run");
    assert("run"@ =~= seq!['r', 'u', 'n']);
    reveal_strlit("stop");
    assert("stop"@ =~= seq!['s', 't', 'o', 'p']);
    reveal_strlit("rm");
    assert("rm"@ =~= seq!['r', 'm']);
    reveal_strlit("compose_up");
    assert("compose_up"@ =~= seq!['c', 'o', 'm', 'p', 'o', 's', 'e', '_', 'u', 'p']);
    reveal_strlit("compose_down");
    assert("compose_down"@ =~= seq!['c', 'o', 'm', 'p', 'o', 's', 'e', '_', 'd', 'o', 'w', 'n']);
}

/// What a plan asks the node and when it plans a change: pull only when
/// the image is not listed, run a named container only when it is not
/// listed as running, stop only when it is; the other actions always change.
pub proof fn stiva_plans_follow_the_node(t: &StivaTask, r: &Reply)
    ensures
        t.action@ == "pull"@ ==> plan_probe_spec(t) == Ok::<ProbeView, ErrorView>(ProbeView::Shell(seq![lit("stiva images --format json 2>/dev/null | grep -q "@), quote(t.image@)])),
        t.action@ == "pull"@ && !(r is Failed) ==> plan_spec(t, r) is Ok && plan_spec(t, r)->Ok_0.changed == (!(match r { Reply::Output(o) => o.success, Reply::Exists(b) => *b, _ => false })),
        t.action@ == "run"@ && t.container_name@.len() > 0 ==> plan_probe_spec(t) == Ok::<ProbeView, ErrorView>(ProbeView::Shell(seq![lit("stiva ps --format json 2>/dev/null | grep -q "@), quote(t.container_name@)])),
        t.action@ == "run"@ && t.container_name@.len() > 0 && !(r is Failed) ==> plan_spec(t, r) is Ok && plan_spec(t, r)->Ok_0.changed == (!(match r { Reply::Output(o) => o.success, Reply::Exists(b) => *b, _ => false })),
        t.action@ == "run"@ && t.container_name@.len() == 0 ==> plan_probe_spec(t) == Ok::<ProbeView, ErrorView>(ProbeView::Nothing),
        t.action@ == "run"@ && t.container_name@.len() == 0 && !(r is Failed) ==> plan_spec(t, r) is Ok && plan_spec(t, r)->Ok_0.changed == (true),
        t.action@ == "stop"@ ==> plan_probe_spec(t) == Ok::<ProbeView, ErrorView>(ProbeView::Shell(seq![lit("stiva ps --format json 2>/dev/null | grep -q "@), quote(t.container_name@)])),
        t.action@ == "stop"@ && !(r is Failed) ==> plan_spec(t, r) is Ok && plan_spec(t, r)->Ok_0.changed == ((match r { Reply::Output(o) => o.success, Reply::Exists(b) => *b, _ => false })),
        t.action@ == "rm"@ ==> plan_probe_spec(t) == Ok::<ProbeView, ErrorView>(ProbeView::Nothing),
        t.action@ == "rm"@ && !(r is Failed) ==> plan_spec(t, r) is Ok && plan_spec(t, r)->Ok_0.changed == (true),
        t.action@ == "compose_up"@ ==> plan_probe_spec(t) == Ok::<ProbeView, ErrorView>(ProbeView::Nothing),
        t.action@ == "compose_up"@ && !(r is Failed) ==> plan_spec(t, r) is Ok && plan_spec(t, r)->Ok_0.changed == (true),
        t.action@ == "compose_down"@ ==> plan_probe_spec(t) == Ok::<ProbeView, ErrorView>(ProbeView::Nothing),
        t.action@ == "compose_down"@ && !(r is Failed) ==> plan_spec(t, r) is Ok && plan_spec(t, r)->Ok_0.changed == (true),
{
    reveal_strlit("pull");
    assert("pull"@ =~= seq!['p', 'u', 'l', 'l']);
    reveal_strlit("run");
    assert("run"@ =~= seq!['r', 'u', 'n']);
    reveal_strlit("stop");
    assert("stop"@ =~= seq!['s', 't', 'o', 'p']);
    reveal_strlit("rm");
    assert("rm"@ =~= seq!['r', 'm']);
    reveal_strlit("compose_up");
    assert("compose_up"@ =~= seq!['c', 'o', 'm', 'p', 'o', 's', 'e', '_', 'u', 'p']);
    reveal_strlit("compose_down");
    assert("compose_down"@ =~= seq!['c', 'o', 'm', 'p', 'o', 's', 'e', '_', 'd', 'o', 'w', 'n']);
}

/// What a report says: it is the stiva module's, for the task's action; it
/// succeeds exactly when the command did, marks a change exactly when a
/// changing action succeeded, and says `ok`, or `failed:` with the command's
/// error output trimmed.
pub proof fn stiva_reports_what_the_command_did(t: &StivaTask, out: &ExecOutput)
    ensures
        report_spec(t, out) == (ReportView {
            module: "stiva"@,
            action: t.action@,
            success: out.success,
            changed: out.success,
            message: if out.success {
                "stiva"@ + " "@ + t.action@ + " — ok"@
            } else {
                "stiva"@ + " "@ + t.action@ + " — failed: "@ + trimmed(out.stderr@)
            },
        }),
{
}

} // verus!
