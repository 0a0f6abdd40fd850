//! Docker/OCI containers: pull, run, stop, rm, compose_up, compose_down, build, ps.

use vstd::prelude::*;
use crate::command::{lemma_same_literals_concat, lit, provided, quote, same_literals, Command, PieceView};
use crate::task::{
    make_plan, make_report, reply_is_failed, reply_is_yes, reply_prints, reply_prints_text,
    reply_yes, rview, unknown_action, unknown_action_error, usual_message, usual_text, ErrorView,
    ExecOutput, ModuleError, Plan, PlanView, Probe, ProbeView, Reply, Report, ReportView,
};
use crate::text::{concat2, concat3, concat4, same_text, trimmed};

verus! {

/// The Docker module.
#[derive(Debug)]
pub struct DockerModule;

/// The parameters of a Docker task, as the driver read them.
#[derive(Debug)]
pub struct DockerTask {
    pub action: String,
    pub image: String,
    pub container_name: String,
    pub ports: String,
    pub detach: bool,
    pub restart: String,
    pub env: String,
    pub force: bool,
    pub file: String,
    pub volumes: bool,
    /// The directory that `build` sends as build context.
    pub context: String,
}

impl DockerTask {
    /// A task of the given action with every parameter at its default: what
    /// the driver starts from before it reads the parameters the task sets.
    pub fn defaults(action: &str) -> (t: DockerTask)
        ensures
            t.action@ == action@,
            t.image@ == ""@,
            t.container_name@ == ""@,
            t.ports@ == ""@,
            t.detach == true,
            t.restart@ == ""@,
            t.env@ == ""@,
            t.force == false,
            t.file@ == "docker-compose.yml"@,
            t.volumes == false,
            t.context@ == "."@,
    {
        DockerTask {
            action: action.to_owned(),
            image: "".to_owned(),
            container_name: "".to_owned(),
            ports: "".to_owned(),
            detach: true,
            restart: "".to_owned(),
            env: "".to_owned(),
            force: false,
            file: "docker-compose.yml".to_owned(),
            volumes: false,
            context: ".".to_owned(),
        }
    }
}

/// The actions of the module, in the order it lists them.
pub open spec fn docker_actions() -> Seq<Seq<char>> {
    seq!["pull"@, "run"@, "stop"@, "rm"@, "compose_up"@, "compose_down"@, "build"@, "ps"@]
}

/// The probe that tells whether the container runs.
pub open spec fn running_probe(name: Seq<char>) -> ProbeView {
    ProbeView::Shell(
        seq![lit("docker inspect -f '{{.State.Running}}' "@), quote(name), lit(" 2>/dev/null"@)],
    )
}

/// The probe that tells whether the image is present.
pub open spec fn image_probe(image: Seq<char>) -> ProbeView {
    ProbeView::Shell(seq![lit("docker image inspect "@), quote(image), lit(" 2>/dev/null"@)])
}

pub open spec fn plan_probe_spec(t: &DockerTask) -> Result<ProbeView, ErrorView> {
    let a = t.action@;
    if a == "pull"@ {
        Ok(image_probe(t.image@))
    } else if a == "run"@ {
        if t.container_name@.len() > 0 {
            Ok(running_probe(t.container_name@))
        } else {
            Ok(ProbeView::Nothing)
        }
    } else if a == "stop"@ {
        Ok(running_probe(t.container_name@))
    } else if a == "rm"@ || a == "compose_up"@ || a == "compose_down"@ || a == "build"@ || a == "ps"@ {
        Ok(ProbeView::Nothing)
    } else {
        Err(unknown_action("docker"@, a))
    }
}

pub open spec fn plan_of(t: &DockerTask, changed: bool, description: Seq<char>) -> PlanView {
    PlanView { module: "docker"@, action: t.action@, changed, description }
}

pub open spec fn plan_spec(t: &DockerTask, r: &Reply) -> Result<PlanView, ErrorView> {
    let a = t.action@;
    let name = t.container_name@;
    if a == "pull"@ {
        if r is Failed {
            Err(ErrorView::ProbeFailed)
        } else if reply_yes(r) {
            Ok(plan_of(t, false, "image "@ + t.image@ + " already pulled"@))
        } else {
            Ok(plan_of(t, true, "pull image "@ + t.image@))
        }
    } else if a == "run"@ {
        if name.len() > 0 {
            if r is Failed {
                Err(ErrorView::ProbeFailed)
            } else if reply_prints(r, "true"@) {
                Ok(plan_of(t, false, "container "@ + name + " already running"@))
            } else {
                Ok(plan_of(t, true, "run container "@ + name + " from "@ + t.image@))
            }
        } else {
            Ok(plan_of(t, true, "run container from "@ + t.image@))
        }
    } else if a == "stop"@ {
        if r is Failed {
            Err(ErrorView::ProbeFailed)
        } else if reply_prints(r, "true"@) {
            Ok(plan_of(t, true, "stop container "@ + name))
        } else {
            Ok(plan_of(t, false, "container "@ + name + " already stopped"@))
        }
    } else if a == "rm"@ {
        Ok(plan_of(t, true, "remove container "@ + name))
    } else if a == "compose_up"@ {
        Ok(plan_of(t, true, "compose up from "@ + t.file@))
    } else if a == "compose_down"@ {
        Ok(plan_of(t, true, "compose down from "@ + t.file@))
    } else if a == "build"@ {
        Ok(plan_of(t, true, "build image "@ + t.image@ + " from "@ + t.context@))
    } else if a == "ps"@ {
        Ok(plan_of(t, false, "list containers"@))
    } else {
        Err(unknown_action("docker"@, a))
    }
}

/// `docker run` with the flags whose parameters are set, then the image.
pub open spec fn run_command(t: &DockerTask) -> Seq<PieceView> {
    seq![lit("docker run"@)] + provided(t.detach, seq![lit(" -d"@)]) + provided(
        t.container_name@.len() > 0,
        seq![lit(" --name "@), quote(t.container_name@)],
    ) + provided(t.ports@.len() > 0, seq![lit(" -p "@), quote(t.ports@)]) + provided(
        t.restart@.len() > 0,
        seq![lit(" --restart "@), quote(t.restart@)],
    ) + provided(t.env@.len() > 0, seq![lit(" -e "@), quote(t.env@)]) + seq![
        lit(" "@),
        quote(t.image@),
    ]
}

pub open spec fn apply_command_spec(t: &DockerTask) -> Result<Seq<PieceView>, ErrorView> {
    let a = t.action@;
    let name = t.container_name@;
    if a == "pull"@ {
        Ok(seq![lit("docker pull "@), quote(t.image@)])
    } else if a == "run"@ {
        Ok(run_command(t))
    } else if a == "stop"@ {
        Ok(seq![lit("docker stop "@), quote(name)])
    } else if a == "rm"@ {
        Ok(seq![lit(if t.force { "docker rm -f "@ } else { "docker rm "@ }), quote(name)])
    } else if a == "compose_up"@ {
        Ok(
            seq![
                lit("docker compose -f "@),
                quote(t.file@),
                lit(if t.detach { " up -d"@ } else { " up"@ }),
            ],
        )
    } else if a == "compose_down"@ {
        Ok(
            seq![
                lit("docker compose -f "@),
                quote(t.file@),
                lit(if t.volumes { " down -v"@ } else { " down"@ }),
            ],
        )
    } else if a == "build"@ {
        Ok(seq![lit("docker build -t "@), quote(t.image@), lit(" "@), quote(t.context@)])
    } else if a == "ps"@ {
        Ok(seq![lit("docker ps -a"@)])
    } else {
        Err(unknown_action("docker"@, a))
    }
}

pub open spec fn report_spec(t: &DockerTask, out: &ExecOutput) -> ReportView {
    ReportView {
        module: "docker"@,
        action: t.action@,
        success: out.success,
        changed: out.success && t.action@ != "ps"@,
        message: usual_message("docker"@, t.action@, out),
    }
}

pub open spec fn check_probe_spec(t: &DockerTask) -> ProbeView {
    let a = t.action@;
    if a == "pull"@ {
        image_probe(t.image@)
    } else if (a == "run"@ && t.container_name@.len() > 0) || a == "stop"@ {
        running_probe(t.container_name@)
    } else {
        ProbeView::Nothing
    }
}

pub open spec fn check_spec(t: &DockerTask, r: &Reply) -> Result<bool, ErrorView> {
    let a = t.action@;
    if a == "pull"@ {
        if r is Failed {
            Err(ErrorView::ProbeFailed)
        } else {
            Ok(reply_yes(r))
        }
    } else if a == "run"@ {
        if t.container_name@.len() == 0 {
            Ok(false)
        } else if r is Failed {
            Err(ErrorView::ProbeFailed)
        } else {
            Ok(reply_prints(r, "true"@))
        }
    } else if a == "stop"@ {
        if r is Failed {
            Err(ErrorView::ProbeFailed)
        } else {
            Ok(!reply_prints(r, "true"@))
        }
    } else {
        Ok(false)
    }
}

fn running_probe_exec(name: &str) -> (p: Probe)
    ensures
        p@ == running_probe(name@),
{
    let mut c = Command::new();
    c.lit("docker inspect -f '{{.State.Running}}' ");
    c.quote(name);
    c.lit(" 2>/dev/null");
    assert(c@ =~= seq![
        lit("docker inspect -f '{{.State.Running}}' "@),
        quote(name@),
        lit(" 2>/dev/null"@),
    ]);
    Probe::Shell(c)
}

fn image_probe_exec(image: &str) -> (p: Probe)
    ensures
        p@ == image_probe(image@),
{
    let mut c = Command::new();
    c.lit("docker image inspect ");
    c.quote(image);
    c.lit(" 2>/dev/null");
    assert(c@ =~= seq![lit("docker image inspect "@), quote(image@), lit(" 2>/dev/null"@)]);
    Probe::Shell(c)
}

impl DockerModule {
    pub fn name(&self) -> (r: &'static str)
        ensures
            r@ == "docker"@,
    {
        "docker"
    }

    pub fn actions(&self) -> (r: &'static [&'static str])
        ensures
            r@.map_values(|s: &str| s@) == docker_actions(),
    {
        let r: &'static [&'static str] = &["pull", "run", "stop", "rm", "compose_up", "compose_down", "build", "ps"];
        assert(r@.map_values(|s: &str| s@) =~= docker_actions());
        r
    }

    /// What the plan of a task needs to know about the node first.
    pub fn plan_probe(&self, t: &DockerTask) -> (r: Result<Probe, ModuleError>)
        ensures
            rview(r) == plan_probe_spec(t),
    {
        let a = t.action.as_str();
        if same_text(a, "pull") {
            Ok(image_probe_exec(t.image.as_str()))
        } else if same_text(a, "run") {
            if !t.container_name.as_str().is_empty() {
                Ok(running_probe_exec(t.container_name.as_str()))
            } else {
                Ok(Probe::Nothing)
            }
        } else if same_text(a, "stop") {
            Ok(running_probe_exec(t.container_name.as_str()))
        } else if same_text(a, "rm") || same_text(a, "compose_up") || same_text(a, "compose_down")
            || same_text(a, "build") || same_text(a, "ps") {
            Ok(Probe::Nothing)
        } else {
            Err(unknown_action_error("docker", a))
        }
    }

    /// The plan of a task, given the reply to its probe.
    pub fn plan(&self, t: &DockerTask, r: &Reply) -> (p: Result<Plan, ModuleError>)
        ensures
            rview(p) == plan_spec(t, r),
    {
        let a = t.action.as_str();
        let name = t.container_name.as_str();
        let image = t.image.as_str();
        if same_text(a, "pull") {
            if reply_is_failed(r) {
                Err(ModuleError::ProbeFailed)
            } else if reply_is_yes(r) {
                Ok(make_plan("docker", a, false, concat3("image ", image, " already pulled")))
            } else {
                Ok(make_plan("docker", a, true, concat2("pull image ", image)))
            }
        } else if same_text(a, "run") {
            if !name.is_empty() {
                if reply_is_failed(r) {
                    Err(ModuleError::ProbeFailed)
                } else if reply_prints_text(r, "true") {
                    Ok(make_plan("docker", a, false, concat3("container ", name, " already running")))
                } else {
                    let d = concat4("run container ", name, " from ", image);
                    Ok(make_plan("docker", a, true, d))
                }
            } else {
                Ok(make_plan("docker", a, true, concat2("run container from ", image)))
            }
        } else if same_text(a, "stop") {
            if reply_is_failed(r) {
                Err(ModuleError::ProbeFailed)
            } else if reply_prints_text(r, "true") {
                Ok(make_plan("docker", a, true, concat2("stop container ", name)))
            } else {
                Ok(make_plan("docker", a, false, concat3("container ", name, " already stopped")))
            }
        } else if same_text(a, "rm") {
            Ok(make_plan("docker", a, true, concat2("remove container ", name)))
        } else if same_text(a, "compose_up") {
            Ok(make_plan("docker", a, true, concat2("compose up from ", t.file.as_str())))
        } else if same_text(a, "compose_down") {
            Ok(make_plan("docker", a, true, concat2("compose down from ", t.file.as_str())))
        } else if same_text(a, "build") {
            let d = concat4("build image ", image, " from ", t.context.as_str());
            Ok(make_plan("docker", a, true, d))
        } else if same_text(a, "ps") {
            Ok(make_plan("docker", a, false, "list containers".to_owned()))
        } else {
            Err(unknown_action_error("docker", a))
        }
    }

    /// The command that applies a task.
    pub fn apply_command(&self, t: &DockerTask) -> (r: Result<Command, ModuleError>)
        ensures
            rview(r) == apply_command_spec(t),
    {
        let a = t.action.as_str();
        let name = t.container_name.as_str();
        let mut c = Command::new();
        if same_text(a, "pull") {
            c.lit("docker pull ");
            c.quote(t.image.as_str());
            assert(c@ =~= seq![lit("docker pull "@), quote(t.image@)]);
        } else if same_text(a, "run") {
            c.lit("docker run");
            if t.detach {
                c.lit(" -d");
            }
            if !name.is_empty() {
                c.lit(" --name ");
                c.quote(name);
            }
            if !t.ports.as_str().is_empty() {
                c.lit(" -p ");
                c.quote(t.ports.as_str());
            }
            if !t.restart.as_str().is_empty() {
                c.lit(" --restart ");
                c.quote(t.restart.as_str());
            }
            if !t.env.as_str().is_empty() {
                c.lit(" -e ");
                c.quote(t.env.as_str());
            }
            c.lit(" ");
            c.quote(t.image.as_str());
            assert(c@ =~= run_command(t));
        } else if same_text(a, "stop") {
            c.lit("docker stop ");
            c.quote(name);
            assert(c@ =~= seq![lit("docker stop "@), quote(name@)]);
        } else if same_text(a, "rm") {
            c.lit(if t.force { "docker rm -f " } else { "docker rm " });
            c.quote(name);
            assert(c@ =~= seq![lit(if t.force { "docker rm -f "@ } else { "docker rm "@ }), quote(name@)]);
        } else if same_text(a, "compose_up") {
            c.lit("docker compose -f ");
            c.quote(t.file.as_str());
            c.lit(if t.detach { " up -d" } else { " up" });
            assert(c@ =~= seq![
                lit("docker compose -f "@),
                quote(t.file@),
                lit(if t.detach { " up -d"@ } else { " up"@ }),
            ]);
        } else if same_text(a, "compose_down") {
            c.lit("docker compose -f ");
            c.quote(t.file.as_str());
            c.lit(if t.volumes { " down -v" } else { " down" });
            assert(c@ =~= seq![
                lit("docker compose -f "@),
                quote(t.file@),
                lit(if t.volumes { " down -v"@ } else { " down"@ }),
            ]);
        } else if same_text(a, "build") {
            c.lit("docker build -t ");
            c.quote(t.image.as_str());
            c.lit(" ");
            c.quote(t.context.as_str());
            assert(c@ =~= seq![lit("docker build -t "@), quote(t.image@), lit(" "@), quote(t.context@)]);
        } else if same_text(a, "ps") {
            c.lit("docker ps -a");
            assert(c@ =~= seq![lit("docker ps -a"@)]);
        } else {
            return Err(unknown_action_error("docker", a));
        }
        Ok(c)
    }

    /// What applying a task did, given the output of its command.
    pub fn apply_report(&self, t: &DockerTask, out: &ExecOutput) -> (r: Report)
        ensures
            r@ == report_spec(t, out),
    {
        let a = t.action.as_str();
        make_report("docker", a, out.success, out.success && !same_text(a, "ps"), usual_text("docker", a, out))
    }

    /// What checking a task needs to know about the node.
    pub fn check_probe(&self, t: &DockerTask) -> (p: Probe)
        ensures
            p@ == check_probe_spec(t),
    {
        let a = t.action.as_str();
        if same_text(a, "pull") {
            image_probe_exec(t.image.as_str())
        } else if (same_text(a, "run") && !t.container_name.as_str().is_empty()) || same_text(a, "stop") {
            running_probe_exec(t.container_name.as_str())
        } else {
            Probe::Nothing
        }
    }

    /// Whether the node already is as the task asks, given the probe's reply.
    pub fn check(&self, t: &DockerTask, r: &Reply) -> (b: Result<bool, ModuleError>)
        ensures
            match b {
                Ok(v) => check_spec(t, r) == Ok::<bool, ErrorView>(v),
                Err(e) => check_spec(t, r) == Err::<bool, ErrorView>(e@),
            },
    {
        let a = t.action.as_str();
        if same_text(a, "pull") {
            if reply_is_failed(r) {
                Err(ModuleError::ProbeFailed)
            } else {
                Ok(reply_is_yes(r))
            }
        } else if same_text(a, "run") {
            if t.container_name.as_str().is_empty() {
                Ok(false)
            } else if reply_is_failed(r) {
                Err(ModuleError::ProbeFailed)
            } else {
                Ok(reply_prints_text(r, "true"))
            }
        } else if same_text(a, "stop") {
            if reply_is_failed(r) {
                Err(ModuleError::ProbeFailed)
            } else {
                Ok(!reply_prints_text(r, "true"))
            }
        } else {
            Ok(false)
        }
    }
}

/// The actions that the module lists are exactly the actions that its plan,
/// its probes and its commands accept; any other action is refused as unknown.
pub proof fn docker_accepts_listed_actions(t: &DockerTask, r: &Reply)
    ensures
        docker_actions().contains(t.action@) ==> plan_probe_spec(t) != Err::<ProbeView, ErrorView>(
            unknown_action("docker"@, t.action@),
        ) && plan_spec(t, r) != Err::<PlanView, ErrorView>(unknown_action("docker"@, t.action@))
            && apply_command_spec(t) != Err::<Seq<PieceView>, ErrorView>(unknown_action("docker"@, t.action@)),
        !docker_actions().contains(t.action@) ==> plan_probe_spec(t) == Err::<ProbeView, ErrorView>(
            unknown_action("docker"@, t.action@),
        ) && plan_spec(t, r) == Err::<PlanView, ErrorView>(unknown_action("docker"@, t.action@))
            && apply_command_spec(t) == Err::<Seq<PieceView>, ErrorView>(unknown_action("docker"@, t.action@)),
{
    let s = docker_actions();
    assert(s[0] == "pull"@ && s[1] == "run"@ && s[2] == "stop"@ && s[3] == "rm"@ && s[4] == "compose_up"@ && s[5] == "compose_down"@ && s[6] == "build"@ && s[7] == "ps"@);
    if s.contains(t.action@) {
        let i = choose|i: int| 0 <= i < s.len() && s[i] == t.action@;
        assert(t.action@ == s[i]);
    }
}

/// Planning and checking a task ask the node the same question, and when it
/// is answered, checking finds the node as the task asks exactly when the
/// plan would change nothing.
pub proof fn docker_check_agrees_with_plan(t: &DockerTask, r: &Reply)
    requires
        docker_actions().contains(t.action@),
        t.action@ != "ps"@,
        !(r is Failed),
    ensures
        plan_probe_spec(t) == Ok::<ProbeView, ErrorView>(check_probe_spec(t)),
        plan_spec(t, r) is Ok,
        check_spec(t, r) == Ok::<bool, ErrorView>(!plan_spec(t, r)->Ok_0.changed),
{
    reveal_strlit("pull");
    assert("pull"@ =~= seq!['p', 'u', 'l', 'l']);
    reveal_strlit("run");
    assert("run"@ =~= seq!['r', 'u', 'n']);
    reveal_strlit("stop");
    assert("stop"@ =~= seq!['s', 't', 'o', 'p']);
    reveal_strlit("rm");
    assert("rm"@ =~= seq!['r', 'm']);
    reveal_strlit("compose_up");
    assert("compose_up"@ =~= seq!['c', 'o', 'm', 'p', 'o', 's', 'e', '_', 'u', 'p']);
    reveal_strlit("compose_down");
    assert("compose_down"@ =~= seq!['c', 'o', 'm', 'p', 'o', 's', 'e', '_', 'd', 'o', 'w', 'n']);
    reveal_strlit("build");
    assert("build"@ =~= seq!['b', 'u', 'i', 'l', 'd']);
    reveal_strlit("ps");
    assert("ps"@ =~= seq!['p', 's']);
    docker_accepts_listed_actions(t, r);
}

/// A report marks a change only when the command succeeded, and its success
/// is that of the command.
pub proof fn docker_report_change_needs_success(t: &DockerTask, out: &ExecOutput)
    ensures
        report_spec(t, out).success == out.success,
        report_spec(t, out).changed ==> report_spec(t, out).success,
{
}

/// Whether two tasks differ at most in the values of their parameters:
/// same action, same switches, and the same parameters left empty.
pub open spec fn same_shape(t1: &DockerTask, t2: &DockerTask) -> bool {
    &&& t1.action@ == t2.action@
    &&& t1.detach == t2.detach
    &&& t1.force == t2.force
    &&& t1.volumes == t2.volumes
    &&& (t1.container_name@.len() == 0) == (t2.container_name@.len() == 0)
    &&& (t1.ports@.len() == 0) == (t2.ports@.len() == 0)
    &&& (t1.restart@.len() == 0) == (t2.restart@.len() == 0)
    &&& (t1.env@.len() == 0) == (t2.env@.len() == 0)
}

/// Parameter values reach the shell only as values to quote: the literal
/// text of a task's command depends on its action, its switches and which
/// parameters are set, never on what they hold.
pub proof fn docker_values_only_quoted(t1: &DockerTask, t2: &DockerTask)
    requires
        same_shape(t1, t2),
    ensures
        apply_command_spec(t1) is Ok <==> apply_command_spec(t2) is Ok,
        apply_command_spec(t1) is Ok ==> same_literals(
            apply_command_spec(t1)->Ok_0,
            apply_command_spec(t2)->Ok_0,
        ),
{
    if t1.action@ == "run"@ {
        let p1 = seq![lit("docker run"@)] + provided(t1.detach, seq![lit(" -d"@)]);
        let p2 = seq![lit("docker run"@)] + provided(t2.detach, seq![lit(" -d"@)]);
        assert(same_literals(p1, p2));
        let n1 = provided(t1.container_name@.len() > 0, seq![lit(" --name "@), quote(t1.container_name@)]);
        let n2 = provided(t2.container_name@.len() > 0, seq![lit(" --name "@), quote(t2.container_name@)]);
        assert(same_literals(n1, n2));
        lemma_same_literals_concat(p1, p2, n1, n2);
        let o1 = provided(t1.ports@.len() > 0, seq![lit(" -p "@), quote(t1.ports@)]);
        let o2 = provided(t2.ports@.len() > 0, seq![lit(" -p "@), quote(t2.ports@)]);
        assert(same_literals(o1, o2));
        lemma_same_literals_concat(p1 + n1, p2 + n2, o1, o2);
        let r1 = provided(t1.restart@.len() > 0, seq![lit(" --restart "@), quote(t1.restart@)]);
        let r2 = provided(t2.restart@.len() > 0, seq![lit(" --restart "@), quote(t2.restart@)]);
        assert(same_literals(r1, r2));
        lemma_same_literals_concat(p1 + n1 + o1, p2 + n2 + o2, r1, r2);
        let e1 = provided(t1.env@.len() > 0, seq![lit(" -e "@), quote(t1.env@)]);
        let e2 = provided(t2.env@.len() > 0, seq![lit(" -e "@), quote(t2.env@)]);
        assert(same_literals(e1, e2));
        lemma_same_literals_concat(p1 + n1 + o1 + r1, p2 + n2 + o2 + r2, e1, e2);
        let i1 = seq![lit(" "@), quote(t1.image@)];
        let i2 = seq![lit(" "@), quote(t2.image@)];
        assert(same_literals(i1, i2));
        lemma_same_literals_concat(p1 + n1 + o1 + r1 + e1, p2 + n2 + o2 + r2 + e2, i1, i2);
    }
}

/// The detach switch reaches `compose_up`: the stack is brought up with
/// `-d`, in the background, exactly when the task asks to detach, and in
/// the foreground otherwise; the compose file is the task's, quoted.
pub proof fn docker_compose_up_follows_detach(t: &DockerTask)
    requires
        t.action@ == "compose_up"@,
    ensures
        apply_command_spec(t) is Ok,
        apply_command_spec(t)->Ok_0.len() == 3,
        apply_command_spec(t)->Ok_0[0] == lit("docker compose -f "@),
        apply_command_spec(t)->Ok_0[1] == quote(t.file@),
        t.detach <==> apply_command_spec(t)->Ok_0[2] == lit(" up -d"@),
        !t.detach <==> apply_command_spec(t)->Ok_0[2] == lit(" up"@),
{
    reveal_strlit(" up -d");
    reveal_strlit(" up");
    assert(" up -d"@.len() != " up"@.len());
    reveal_strlit("compose_up");
    reveal_strlit("pull");
    reveal_strlit("run");
    reveal_strlit("stop");
    reveal_strlit("rm");
    assert("compose_up"@.len() == 10);
}

/// What each action runs: the image, container and compose file of the task
/// reach the command, quoted; `run` carries `-d` exactly when the task
/// detaches and each optional flag exactly when its parameter is set; `rm`
/// forces exactly when asked, and `compose_down` drops volumes exactly when
/// asked.
pub proof fn docker_commands_carry_their_parameters(t: &DockerTask)
    ensures
        t.action@ == "pull"@ ==> apply_command_spec(t) == Ok::<Seq<PieceView>, ErrorView>(
            seq![lit("docker pull "@), quote(t.image@)],
        ),
        t.action@ == "run"@ ==> apply_command_spec(t) == Ok::<Seq<PieceView>, ErrorView>(
            seq![lit("docker run"@)] + (if t.detach { seq![lit(" -d"@)] } else { seq![] })
                + (if t.container_name@.len() > 0 { seq![lit(" --name "@), quote(t.container_name@)] } else { seq![] })
                + (if t.ports@.len() > 0 { seq![lit(" -p "@), quote(t.ports@)] } else { seq![] })
                + (if t.restart@.len() > 0 { seq![lit(" --restart "@), quote(t.restart@)] } else { seq![] })
                + (if t.env@.len() > 0 { seq![lit(" -e "@), quote(t.env@)] } else { seq![] })
                + seq![lit(" "@), quote(t.image@)],
        ),
        t.action@ == "stop"@ ==> apply_command_spec(t) == Ok::<Seq<PieceView>, ErrorView>(
            seq![lit("docker stop "@), quote(t.container_name@)],
        ),
        t.action@ == "rm"@ ==> apply_command_spec(t) == Ok::<Seq<PieceView>, ErrorView>(
            seq![lit(if t.force { "docker rm -f "@ } else { "docker rm "@ }), quote(t.container_name@)],
        ),
        t.action@ == "compose_up"@ ==> apply_command_spec(t) == Ok::<Seq<PieceView>, ErrorView>(
            seq![lit("docker compose -f "@), quote(t.file@), lit(if t.detach { " up -d"@ } else { " up"@ })],
        ),
        t.action@ == "compose_down"@ ==> apply_command_spec(t) == Ok::<Seq<PieceView>, ErrorView>(
            seq![lit("docker compose -f "@), quote(t.file@), lit(if t.volumes { " down -v"@ } else { " down"@ })],
        ),
        t.action@ == "build"@ ==> apply_command_spec(t) == Ok::<Seq<PieceView>, ErrorView>(
            seq![lit("docker build -t "@), quote(t.image@), lit(" "@), quote(t.context@)],
        ),
        t.action@ == "ps"@ ==> apply_command_spec(t) == Ok::<Seq<PieceView>, ErrorView>(
            seq![lit("docker ps -a"@)],
        ),
{
    reveal_strlit("pull");
    assert("pull"@ =~= seq!['p', 'u', 'l', 'l']);
    reveal_strlit("run");
    assert("run"@ =~= seq!['r', 'u', 'n']);
    reveal_strlit("stop");
    assert("stop"@ =~= seq!['s', 't', 'o', 'p']);
    reveal_strlit("rm");
    assert("rm"@ =~= seq!['r', 'm']);
    reveal_strlit("compose_up");
    assert("compose_up"@ =~= seq!['c', 'o', 'm', 'p', 'o', 's', 'e', '_', 'u', 'p']);
    reveal_strlit("compose_down");
    assert("compose_down"@ =~= seq!['c', 'o', 'm', 'p', 'o', 's', 'e', '_', 'd', 'o', 'w', 'n']);
    reveal_strlit("build");
    assert("build"@ =~= seq!['b', 'u', 'i', 'l', 'd']);
    reveal_strlit("ps");
    assert("ps"@ =~= seq!['p', 's']);
}

/// What a plan asks the node and when it plans a change: an image is
/// pulled only when `docker image inspect` fails for it; a named container
/// is run only when `docker inspect` does not print `true` for its running
/// state, and stopped only when it does; the other actions always change.
pub proof fn docker_plans_follow_the_node(t: &DockerTask, r: &Reply)
    ensures
        t.action@ == "pull"@ ==> plan_probe_spec(t) == Ok::<ProbeView, ErrorView>(ProbeView::Shell(seq![lit("docker image inspect "@), quote(t.image@), lit(" 2>/dev/null"@)])),
        t.action@ == "pull"@ && !(r is Failed) ==> plan_spec(t, r) is Ok && plan_spec(t, r)->Ok_0.changed == (!(match r { Reply::Output(o) => o.success, Reply::Exists(b) => *b, _ => false })),
        t.action@ == "run"@ && t.container_name@.len() > 0 ==> plan_probe_spec(t) == Ok::<ProbeView, ErrorView>(ProbeView::Shell(seq![lit("docker inspect -f '{{.State.Running}}' "@), quote(t.container_name@), lit(" 2>/dev/null"@)])),
        t.action@ == "run"@ && t.container_name@.len() > 0 && !(r is Failed) ==> plan_spec(t, r) is Ok && plan_spec(t, r)->Ok_0.changed == (!(r matches Reply::Output(o) && o.success && trimmed(o.stdout@) == "true"@)),
        t.action@ == "run"@ && t.container_name@.len() == 0 ==> plan_probe_spec(t) == Ok::<ProbeView, ErrorView>(ProbeView::Nothing),
        t.action@ == "run"@ && t.container_name@.len() == 0 && !(r is Failed) ==> plan_spec(t, r) is Ok && plan_spec(t, r)->Ok_0.changed == (true),
        t.action@ == "stop"@ ==> plan_probe_spec(t) == Ok::<ProbeView, ErrorView>(ProbeView::Shell(seq![lit("docker inspect -f '{{.State.Running}}' "@), quote(t.container_name@), lit(" 2>/dev/null"@)])),
        t.action@ == "stop"@ && !(r is Failed) ==> plan_spec(t, r) is Ok && plan_spec(t, r)->Ok_0.changed == ((r matches Reply::Output(o) && o.success && trimmed(o.stdout@) == "true"@)),
        t.action@ == "rm"@ ==> plan_probe_spec(t) == Ok::<ProbeView, ErrorView>(ProbeView::Nothing),
        t.action@ == "rm"@ && !(r is Failed) ==> plan_spec(t, r) is Ok && plan_spec(t, r)->Ok_0.changed == (true),
        t.action@ == "compose_up"@ ==> plan_probe_spec(t) == Ok::<ProbeView, ErrorView>(ProbeView::Nothing),
        t.action@ == "compose_up"@ && !(r is Failed) ==> plan_spec(t, r) is Ok && plan_spec(t, r)->Ok_0.changed == (true),
        t.action@ == "compose_down"@ ==> plan_probe_spec(t) == Ok::<ProbeView, ErrorView>(ProbeView::Nothing),
        t.action@ == "compose_down"@ && !(r is Failed) ==> plan_spec(t, r) is Ok && plan_spec(t, r)->Ok_0.changed == (true),
        t.action@ == "build"@ ==> plan_probe_spec(t) == Ok::<ProbeView, ErrorView>(ProbeView::Nothing),
        t.action@ == "build"@ && !(r is Failed) ==> plan_spec(t, r) is Ok && plan_spec(t, r)->Ok_0.changed == (true),
        t.action@ == "ps"@ ==> plan_probe_spec(t) == Ok::<ProbeView, ErrorView>(ProbeView::Nothing),
        t.action@ == "ps"@ && !(r is Failed) ==> plan_spec(t, r) is Ok && plan_spec(t, r)->Ok_0.changed == (false),
{
    reveal_strlit("pull");
    assert("pull"@ =~= seq!['p', 'u', 'l', 'l']);
    reveal_strlit("run");
    assert("run"@ =~= seq!['r', 'u', 'n']);
    reveal_strlit("stop");
    assert("stop"@ =~= seq!['s', 't', 'o', 'p']);
    reveal_strlit("rm");
    assert("rm"@ =~= seq!['r', 'm']);
    reveal_strlit("compose_up");
    assert("compose_up"@ =~= seq!['c', 'o', 'm', 'p', 'o', 's', 'e', '_', 'u', 'p']);
    reveal_strlit("compose_down");
    assert("compose_down"@ =~= seq!['c', 'o', 'm', 'p', 'o', 's', 'e', '_', 'd', 'o', 'w', 'n']);
    reveal_strlit("build");
    assert("build"@ =~= seq!['b', 'u', 'i', 'l', 'd']);
    reveal_strlit("ps");
    assert("ps"@ =~= seq!['p', 's']);
}

/// What a report says: it is the docker module's, for the task's action; it
/// succeeds exactly when the command did, marks a change exactly when a
/// changing action succeeded, and says `ok`, or `failed:` with the command's
/// error output trimmed.
pub proof fn docker_reports_what_the_command_did(t: &DockerTask, out: &ExecOutput)
    ensures
        report_spec(t, out) == (ReportView {
            module: "docker"@,
            action: t.action@,
            success: out.success,
            changed: out.success && t.action@ != "ps"@,
            message: if out.success {
                "docker"@ + " "@ + t.action@ + " — ok"@
            } else {
                "docker"@ + " "@ + t.action@ + " — failed: "@ + trimmed(out.stderr@)
            },
        }),
{
}

} // verus!
