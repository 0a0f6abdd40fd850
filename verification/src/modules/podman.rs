//! Rootless Podman containers and pods: pull, run, stop, rm, pod_create,
//! pod_start, pod_stop, pod_rm, generate_systemd.

use vstd::prelude::*;
use crate::command::{
    lemma_same_literals_concat, lit, provided, quote, same_literals, Command, PieceView,
};
use crate::task::{checked, checked_exec, probed, probed_exec, silent_probe, silent_probe_exec, failed_message, failed_text, make_plan, make_report, ok_message, ok_text, reply_is_yes, reply_prints, reply_prints_text, reply_yes, rview, unknown_action, unknown_action_error, ErrorView, ExecOutput, ModuleError, Plan, PlanView, Probe, ProbeView, Reply, Report, ReportView};
use crate::text::{concat2, concat3, concat4, same_text, trimmed};

verus! {

/// The Podman module.
#[derive(Debug)]
pub struct PodmanModule;

/// The parameters of a Podman task, as the driver read them.
#[derive(Debug)]
pub struct PodmanTask {
    pub action: String,
    pub image: String,
    pub container_name: String,
    pub ports: String,
    pub detach: bool,
    pub restart: String,
    pub pod: String,
    pub force: bool,
    pub pod_name: String,
    /// The `new` parameter of `generate_systemd`.
    pub new_unit: bool,
    /// The directory that `build` sends as build context.
    pub context: String,
}

impl PodmanTask {
    /// A task of the given action with every parameter at its default: what
    /// the driver starts from before it reads the parameters the task sets.
    pub fn defaults(action: &str) -> (t: PodmanTask)
        ensures
            t.action@ == action@,
            t.image@ == ""@,
            t.container_name@ == ""@,
            t.ports@ == ""@,
            t.detach == true,
            t.restart@ == ""@,
            t.pod@ == ""@,
            t.force == false,
            t.pod_name@ == ""@,
            t.new_unit == true,
            t.context@ == "."@,
    {
        PodmanTask {
            action: action.to_owned(),
            image: "".to_owned(),
            container_name: "".to_owned(),
            ports: "".to_owned(),
            detach: true,
            restart: "".to_owned(),
            pod: "".to_owned(),
            force: false,
            pod_name: "".to_owned(),
            new_unit: true,
            context: ".".to_owned(),
        }
    }
}

/// The actions of the module, in the order it lists them.
pub open spec fn podman_actions() -> Seq<Seq<char>> {
    seq![
        "pull"@,
        "run"@,
        "stop"@,
        "rm"@,
        "pod_create"@,
        "pod_start"@,
        "pod_stop"@,
        "pod_rm"@,
        "generate_systemd"@,
        "build"@,
        "ps"@,
    ]
}

pub open spec fn running_probe(name: Seq<char>) -> ProbeView {
    silent_probe("podman inspect -f '{{.State.Running}}' "@, name)
}

pub open spec fn container_probe(name: Seq<char>) -> ProbeView {
    silent_probe("podman container exists "@, name)
}

pub open spec fn pod_probe(name: Seq<char>) -> ProbeView {
    silent_probe("podman pod exists "@, name)
}

pub open spec fn image_probe(image: Seq<char>) -> ProbeView {
    silent_probe("podman image exists "@, image)
}

pub open spec fn plan_probe_spec(t: &PodmanTask) -> Result<ProbeView, ErrorView> {
    let a = t.action@;
    if a == "pull"@ {
        Ok(image_probe(t.image@))
    } else if a == "run"@ {
        if t.container_name@.len() > 0 {
            Ok(running_probe(t.container_name@))
        } else {
            Ok(ProbeView::Nothing)
        }
    } else if a == "stop"@ {
        Ok(running_probe(t.container_name@))
    } else if a == "rm"@ {
        Ok(container_probe(t.container_name@))
    } else if a == "pod_create"@ {
        Ok(pod_probe(t.pod_name@))
    } else if a == "pod_start"@ || a == "pod_stop"@ {
        Ok(ProbeView::Nothing)
    } else if a == "pod_rm"@ {
        Ok(pod_probe(t.pod_name@))
    } else if a == "generate_systemd"@ || a == "build"@ || a == "ps"@ {
        Ok(ProbeView::Nothing)
    } else {
        Err(unknown_action("podman"@, a))
    }
}

pub open spec fn plan_of(t: &PodmanTask, changed: bool, description: Seq<char>) -> PlanView {
    PlanView { module: "podman"@, action: t.action@, changed, description }
}

pub open spec fn plan_spec(t: &PodmanTask, r: &Reply) -> Result<PlanView, ErrorView> {
    let a = t.action@;
    let name = t.container_name@;
    let pod = t.pod_name@;
    if a == "pull"@ {
        probed(
            r,
            reply_yes(r),
            plan_of(t, false, "image "@ + t.image@ + " already present"@),
            plan_of(t, true, "pull image "@ + t.image@),
        )
    } else if a == "run"@ {
        if name.len() > 0 {
            probed(
                r,
                reply_prints(r, "true"@),
                plan_of(t, false, "container "@ + name + " already running"@),
                plan_of(t, true, "run container "@ + name + " from "@ + t.image@),
            )
        } else {
            Ok(plan_of(t, true, "run container from "@ + t.image@))
        }
    } else if a == "stop"@ {
        probed(
            r,
            reply_prints(r, "true"@),
            plan_of(t, true, "stop container "@ + name),
            plan_of(t, false, "container "@ + name + " already stopped"@),
        )
    } else if a == "rm"@ {
        probed(
            r,
            reply_yes(r),
            plan_of(t, true, "remove container "@ + name),
            plan_of(t, false, "container "@ + name + " does not exist"@),
        )
    } else if a == "pod_create"@ {
        probed(
            r,
            reply_yes(r),
            plan_of(t, false, "pod "@ + pod + " already exists"@),
            plan_of(t, true, "create pod "@ + pod),
        )
    } else if a == "pod_start"@ {
        Ok(plan_of(t, true, "start pod "@ + pod))
    } else if a == "pod_stop"@ {
        Ok(plan_of(t, true, "stop pod "@ + pod))
    } else if a == "pod_rm"@ {
        probed(
            r,
            reply_yes(r),
            plan_of(t, true, "remove pod "@ + pod),
            plan_of(t, false, "pod "@ + pod + " does not exist"@),
        )
    } else if a == "generate_systemd"@ {
        Ok(plan_of(t, true, "generate systemd unit for "@ + name))
    } else if a == "build"@ {
        Ok(plan_of(t, true, "build image "@ + t.image@ + " from "@ + t.context@))
    } else if a == "ps"@ {
        Ok(plan_of(t, false, "list containers"@))
    } else {
        Err(unknown_action("podman"@, a))
    }
}

/// `podman run` with the flags whose parameters are set, then the image.
pub open spec fn run_command(t: &PodmanTask) -> Seq<PieceView> {
    seq![lit("podman run"@)] + provided(t.detach, seq![lit(" -d"@)]) + provided(
        t.container_name@.len() > 0,
        seq![lit(" --name "@), quote(t.container_name@)],
    ) + provided(t.ports@.len() > 0, seq![lit(" -p "@), quote(t.ports@)]) + provided(
        t.restart@.len() > 0,
        seq![lit(" --restart "@), quote(t.restart@)],
    ) + provided(t.pod@.len() > 0, seq![lit(" --pod "@), quote(t.pod@)]) + seq![
        lit(" "@),
        quote(t.image@),
    ]
}

pub open spec fn apply_command_spec(t: &PodmanTask) -> Result<Seq<PieceView>, ErrorView> {
    let a = t.action@;
    let name = t.container_name@;
    let pod = t.pod_name@;
    if a == "pull"@ {
        Ok(seq![lit("podman pull "@), quote(t.image@)])
    } else if a == "run"@ {
        Ok(run_command(t))
    } else if a == "stop"@ {
        Ok(seq![lit("podman stop "@), quote(name)])
    } else if a == "rm"@ {
        Ok(seq![lit(if t.force { "podman rm -f "@ } else { "podman rm "@ }), quote(name)])
    } else if a == "pod_create"@ {
        Ok(
            seq![lit("podman pod create --name "@), quote(pod)] + provided(
                t.ports@.len() > 0,
                seq![lit(" -p "@), quote(t.ports@)],
            ),
        )
    } else if a == "pod_start"@ {
        Ok(seq![lit("podman pod start "@), quote(pod)])
    } else if a == "pod_stop"@ {
        Ok(seq![lit("podman pod stop "@), quote(pod)])
    } else if a == "pod_rm"@ {
        Ok(seq![lit(if t.force { "podman pod rm -f "@ } else { "podman pod rm "@ }), quote(pod)])
    } else if a == "generate_systemd"@ {
        Ok(
            seq![
                lit(
                    if t.new_unit {
                        "podman generate systemd --new --name "@
                    } else {
                        "podman generate systemd --name "@
                    },
                ),
                quote(name),
            ],
        )
    } else if a == "build"@ {
        Ok(seq![lit("podman build -t "@), quote(t.image@), lit(" "@), quote(t.context@)])
    } else if a == "ps"@ {
        Ok(seq![lit("podman ps -a"@)])
    } else {
        Err(unknown_action("podman"@, a))
    }
}

/// On success the unit file for `generate_systemd`, the ok message for the
/// other actions; the trimmed error output on failure.
pub open spec fn report_message(t: &PodmanTask, out: &ExecOutput) -> Seq<char> {
    if out.success {
        if t.action@ == "generate_systemd"@ || t.action@ == "ps"@ {
            out.stdout@
        } else {
            ok_message("podman"@, t.action@)
        }
    } else {
        failed_message("podman"@, t.action@, out.stderr@)
    }
}

pub open spec fn report_spec(t: &PodmanTask, out: &ExecOutput) -> ReportView {
    ReportView {
        module: "podman"@,
        action: t.action@,
        success: out.success,
        changed: out.success && t.action@ != "ps"@,
        message: report_message(t, out),
    }
}

pub open spec fn check_probe_spec(t: &PodmanTask) -> ProbeView {
    let a = t.action@;
    if a == "pull"@ {
        image_probe(t.image@)
    } else if a == "run"@ {
        if t.container_name@.len() > 0 {
            running_probe(t.container_name@)
        } else {
            ProbeView::Nothing
        }
    } else if a == "stop"@ {
        running_probe(t.container_name@)
    } else if a == "rm"@ {
        container_probe(t.container_name@)
    } else if a == "pod_create"@ || a == "pod_rm"@ {
        pod_probe(t.pod_name@)
    } else {
        ProbeView::Nothing
    }
}

pub open spec fn check_spec(t: &PodmanTask, r: &Reply) -> Result<bool, ErrorView> {
    let a = t.action@;
    if a == "pull"@ {
        checked(r, reply_yes(r))
    } else if a == "run"@ {
        if t.container_name@.len() == 0 {
            Ok(false)
        } else {
            checked(r, reply_prints(r, "true"@))
        }
    } else if a == "stop"@ {
        checked(r, !reply_prints(r, "true"@))
    } else if a == "rm"@ {
        checked(r, !reply_yes(r))
    } else if a == "pod_create"@ {
        checked(r, reply_yes(r))
    } else if a == "pod_rm"@ {
        checked(r, !reply_yes(r))
    } else {
        Ok(false)
    }
}

impl PodmanModule {
    pub fn name(&self) -> (r: &'static str)
        ensures
            r@ == "podman"@,
    {
        "podman"
    }

    pub fn actions(&self) -> (r: &'static [&'static str])
        ensures
            r@.map_values(|s: &str| s@) == podman_actions(),
    {
        let r: &'static [&'static str] = &[
            "pull",
            "run",
            "stop",
            "rm",
            "pod_create",
            "pod_start",
            "pod_stop",
            "pod_rm",
            "generate_systemd",
            "build",
            "ps",
        ];
        assert(r@.map_values(|s: &str| s@) =~= podman_actions());
        r
    }

    /// What the plan of a task needs to know about the node first.
    pub fn plan_probe(&self, t: &PodmanTask) -> (r: Result<Probe, ModuleError>)
        ensures
            rview(r) == plan_probe_spec(t),
    {
        let a = t.action.as_str();
        let name = t.container_name.as_str();
        let pod = t.pod_name.as_str();
        if same_text(a, "pull") {
            Ok(silent_probe_exec("podman image exists ", t.image.as_str()))
        } else if same_text(a, "run") {
            if !name.is_empty() {
                Ok(silent_probe_exec("podman inspect -f '{{.State.Running}}' ", name))
            } else {
                Ok(Probe::Nothing)
            }
        } else if same_text(a, "stop") {
            Ok(silent_probe_exec("podman inspect -f '{{.State.Running}}' ", name))
        } else if same_text(a, "rm") {
            Ok(silent_probe_exec("podman container exists ", name))
        } else if same_text(a, "pod_create") {
            Ok(silent_probe_exec("podman pod exists ", pod))
        } else if same_text(a, "pod_start") || same_text(a, "pod_stop") {
            Ok(Probe::Nothing)
        } else if same_text(a, "pod_rm") {
            Ok(silent_probe_exec("podman pod exists ", pod))
        } else if same_text(a, "generate_systemd") || same_text(a, "build") || same_text(a, "ps") {
            Ok(Probe::Nothing)
        } else {
            Err(unknown_action_error("podman", a))
        }
    }

    /// The plan of a task, given the reply to its probe.
    pub fn plan(&self, t: &PodmanTask, r: &Reply) -> (p: Result<Plan, ModuleError>)
        ensures
            rview(p) == plan_spec(t, r),
    {
        let a = t.action.as_str();
        let name = t.container_name.as_str();
        let pod = t.pod_name.as_str();
        let image = t.image.as_str();
        if same_text(a, "pull") {
            probed_exec(
                r,
                reply_is_yes(r),
                make_plan("podman", a, false, concat3("image ", image, " already present")),
                make_plan("podman", a, true, concat2("pull image ", image)),
            )
        } else if same_text(a, "run") {
            if !name.is_empty() {
                probed_exec(
                    r,
                    reply_prints_text(r, "true"),
                    make_plan("podman", a, false, concat3("container ", name, " already running")),
                    make_plan("podman", a, true, concat4("run container ", name, " from ", image)),
                )
            } else {
                Ok(make_plan("podman", a, true, concat2("run container from ", image)))
            }
        } else if same_text(a, "stop") {
            probed_exec(
                r,
                reply_prints_text(r, "true"),
                make_plan("podman", a, true, concat2("stop container ", name)),
                make_plan("podman", a, false, concat3("container ", name, " already stopped")),
            )
        } else if same_text(a, "rm") {
            probed_exec(
                r,
                reply_is_yes(r),
                make_plan("podman", a, true, concat2("remove container ", name)),
                make_plan("podman", a, false, concat3("container ", name, " does not exist")),
            )
        } else if same_text(a, "pod_create") {
            probed_exec(
                r,
                reply_is_yes(r),
                make_plan("podman", a, false, concat3("pod ", pod, " already exists")),
                make_plan("podman", a, true, concat2("create pod ", pod)),
            )
        } else if same_text(a, "pod_start") {
            Ok(make_plan("podman", a, true, concat2("start pod ", pod)))
        } else if same_text(a, "pod_stop") {
            Ok(make_plan("podman", a, true, concat2("stop pod ", pod)))
        } else if same_text(a, "pod_rm") {
            probed_exec(
                r,
                reply_is_yes(r),
                make_plan("podman", a, true, concat2("remove pod ", pod)),
                make_plan("podman", a, false, concat3("pod ", pod, " does not exist")),
            )
        } else if same_text(a, "generate_systemd") {
            Ok(make_plan("podman", a, true, concat2("generate systemd unit for ", name)))
        } else if same_text(a, "build") {
            let d = concat4("build image ", t.image.as_str(), " from ", t.context.as_str());
            Ok(make_plan("podman", a, true, d))
        } else if same_text(a, "ps") {
            Ok(make_plan("podman", a, false, "list containers".to_owned()))
        } else {
            Err(unknown_action_error("podman", a))
        }
    }

    /// The command that applies a task.
    pub fn apply_command(&self, t: &PodmanTask) -> (r: Result<Command, ModuleError>)
        ensures
            rview(r) == apply_command_spec(t),
    {
        let a = t.action.as_str();
        let name = t.container_name.as_str();
        let pod = t.pod_name.as_str();
        let mut c = Command::new();
        if same_text(a, "pull") {
            c.lit("podman pull ");
            c.quote(t.image.as_str());
            assert(c@ =~= seq![lit("podman pull "@), quote(t.image@)]);
        } else if same_text(a, "run") {
            c.lit("podman run");
            if t.detach {
                c.lit(" -d");
            }
            if !name.is_empty() {
                c.lit(" --name ");
                c.quote(name);
            }
            if !t.ports.as_str().is_empty() {
                c.lit(" -p ");
                c.quote(t.ports.as_str());
            }
            if !t.restart.as_str().is_empty() {
                c.lit(" --restart ");
                c.quote(t.restart.as_str());
            }
            if !t.pod.as_str().is_empty() {
                c.lit(" --pod ");
                c.quote(t.pod.as_str());
            }
            c.lit(" ");
            c.quote(t.image.as_str());
            assert(c@ =~= run_command(t));
        } else if same_text(a, "stop") {
            c.lit("podman stop ");
            c.quote(name);
            assert(c@ =~= seq![lit("podman stop "@), quote(name@)]);
        } else if same_text(a, "rm") {
            c.lit(if t.force { "podman rm -f " } else { "podman rm " });
            c.quote(name);
            assert(c@ =~= seq![lit(if t.force { "podman rm -f "@ } else { "podman rm "@ }), quote(name@)]);
        } else if same_text(a, "pod_create") {
            c.lit("podman pod create --name ");
            c.quote(pod);
            if !t.ports.as_str().is_empty() {
                c.lit(" -p ");
                c.quote(t.ports.as_str());
            }
            assert(c@ =~= seq![lit("podman pod create --name "@), quote(pod@)] + provided(
                t.ports@.len() > 0,
                seq![lit(" -p "@), quote(t.ports@)],
            ));
        } else if same_text(a, "pod_start") {
            c.lit("podman pod start ");
            c.quote(pod);
            assert(c@ =~= seq![lit("podman pod start "@), quote(pod@)]);
        } else if same_text(a, "pod_stop") {
            c.lit("podman pod stop ");
            c.quote(pod);
            assert(c@ =~= seq![lit("podman pod stop "@), quote(pod@)]);
        } else if same_text(a, "pod_rm") {
            c.lit(if t.force { "podman pod rm -f " } else { "podman pod rm " });
            c.quote(pod);
            assert(c@ =~= seq![
                lit(if t.force { "podman pod rm -f "@ } else { "podman pod rm "@ }),
                quote(pod@),
            ]);
        } else if same_text(a, "generate_systemd") {
            c.lit(
                if t.new_unit {
                    "podman generate systemd --new --name "
                } else {
                    "podman generate systemd --name "
                },
            );
            c.quote(name);
            assert(c@ =~= seq![
                lit(
                    if t.new_unit {
                        "podman generate systemd --new --name "@
                    } else {
                        "podman generate systemd --name "@
                    },
                ),
                quote(name@),
            ]);
        } else if same_text(a, "build") {
            c.lit("podman build -t ");
            c.quote(t.image.as_str());
            c.lit(" ");
            c.quote(t.context.as_str());
            assert(c@ =~= seq![lit("podman build -t "@), quote(t.image@), lit(" "@), quote(t.context@)]);
        } else if same_text(a, "ps") {
            c.lit("podman ps -a");
            assert(c@ =~= seq![lit("podman ps -a"@)]);
        } else {
            return Err(unknown_action_error("podman", a));
        }
        Ok(c)
    }

    /// What applying a task did, given the output of its command.
    pub fn apply_report(&self, t: &PodmanTask, out: &ExecOutput) -> (r: Report)
        ensures
            r@ == report_spec(t, out),
    {
        let a = t.action.as_str();
        let message = if out.success {
            if same_text(a, "generate_systemd") || same_text(a, "ps") {
                out.stdout.clone()
            } else {
                ok_text("podman", a)
            }
        } else {
            failed_text("podman", a, out.stderr.as_str())
        };
        make_report("podman", a, out.success, out.success && !same_text(a, "ps"), message)
    }

    /// What checking a task needs to know about the node.
    pub fn check_probe(&self, t: &PodmanTask) -> (p: Probe)
        ensures
            p@ == check_probe_spec(t),
    {
        let a = t.action.as_str();
        let name = t.container_name.as_str();
        if same_text(a, "pull") {
            silent_probe_exec("podman image exists ", t.image.as_str())
        } else if same_text(a, "run") {
            if !name.is_empty() {
                silent_probe_exec("podman inspect -f '{{.State.Running}}' ", name)
            } else {
                Probe::Nothing
            }
        } else if same_text(a, "stop") {
            silent_probe_exec("podman inspect -f '{{.State.Running}}' ", name)
        } else if same_text(a, "rm") {
            silent_probe_exec("podman container exists ", name)
        } else if same_text(a, "pod_create") || same_text(a, "pod_rm") {
            silent_probe_exec("podman pod exists ", t.pod_name.as_str())
        } else {
            Probe::Nothing
        }
    }

    /// Whether the node already is as the task asks, given the probe's reply.
    pub fn check(&self, t: &PodmanTask, r: &Reply) -> (b: Result<bool, ModuleError>)
        ensures
            rview(b) == check_spec(t, r),
    {
        let a = t.action.as_str();
        if same_text(a, "pull") {
            checked_exec(r, reply_is_yes(r))
        } else if same_text(a, "run") {
            if t.container_name.as_str().is_empty() {
                Ok(false)
            } else {
                checked_exec(r, reply_prints_text(r, "true"))
            }
        } else if same_text(a, "stop") {
            checked_exec(r, !reply_prints_text(r, "true"))
        } else if same_text(a, "rm") {
            checked_exec(r, !reply_is_yes(r))
        } else if same_text(a, "pod_create") {
            checked_exec(r, reply_is_yes(r))
        } else if same_text(a, "pod_rm") {
            checked_exec(r, !reply_is_yes(r))
        } else {
            Ok(false)
        }
    }
}


/// The actions that the module lists are exactly the actions that its plan,
/// its probes and its commands accept; any other action is refused as unknown.
pub proof fn podman_accepts_listed_actions(t: &PodmanTask, r: &Reply)
    ensures
        podman_actions().contains(t.action@) ==> plan_probe_spec(t) != Err::<ProbeView, ErrorView>(
            unknown_action("podman"@, t.action@),
        ) && plan_spec(t, r) != Err::<PlanView, ErrorView>(unknown_action("podman"@, t.action@))
            && apply_command_spec(t) != Err::<Seq<PieceView>, ErrorView>(unknown_action("podman"@, t.action@)),
        !podman_actions().contains(t.action@) ==> plan_probe_spec(t) == Err::<ProbeView, ErrorView>(
            unknown_action("podman"@, t.action@),
        ) && plan_spec(t, r) == Err::<PlanView, ErrorView>(unknown_action("podman"@, t.action@))
            && apply_command_spec(t) == Err::<Seq<PieceView>, ErrorView>(unknown_action("podman"@, t.action@)),
{
    let s = podman_actions();
    assert(s[0] == "pull"@ && s[1] == "run"@ && s[2] == "stop"@ && s[3] == "rm"@ && s[4] == "pod_create"@ && s[5] == "pod_start"@ && s[6] == "pod_stop"@ && s[7] == "pod_rm"@ && s[8] == "generate_systemd"@ && s[9] == "build"@ && s[10] == "ps"@);
    if s.contains(t.action@) {
        let i = choose|i: int| 0 <= i < s.len() && s[i] == t.action@;
        assert(t.action@ == s[i]);
    }
}

/// Planning and checking a task ask the node the same question, and when it
/// is answered, checking finds the node as the task asks exactly when the
/// plan would change nothing.
pub proof fn podman_check_agrees_with_plan(t: &PodmanTask, r: &Reply)
    requires
        podman_actions().contains(t.action@),
        t.action@ != "ps"@,
        !(r is Failed),
    ensures
        plan_probe_spec(t) == Ok::<ProbeView, ErrorView>(check_probe_spec(t)),
        plan_spec(t, r) is Ok,
        check_spec(t, r) == Ok::<bool, ErrorView>(!plan_spec(t, r)->Ok_0.changed),
{
    reveal_strlit("pull");
    assert("pull"@ =~= seq!['p', 'u', 'l', 'l']);
    reveal_strlit("run");
    assert("run"@ =~= seq!['r', 'u', 'n']);
    reveal_strlit("stop");
    assert("stop"@ =~= seq!['s', 't', 'o', 'p']);
    reveal_strlit("rm");
    assert("rm"@ =~= seq!['r', 'm']);
    reveal_strlit("pod_create");
    assert("pod_create"@ =~= seq!['p', 'o', 'd', '_', 'c', 'r', 'e', 'a', 't', 'e']);
    reveal_strlit("pod_start");
    assert("pod_start"@ =~= seq!['p', 'o', 'd', '_', 's', 't', 'a', 'r', 't']);
    reveal_strlit("pod_stop");
    assert("pod_stop"@ =~= seq!['p', 'o', 'd', '_', 's', 't', 'o', 'p']);
    reveal_strlit("pod_rm");
    assert("pod_rm"@ =~= seq!['p', 'o', 'd', '_', 'r', 'm']);
    reveal_strlit("generate_systemd");
    assert("generate_systemd"@ =~= seq!['g', 'e', 'n', 'e', 'r', 'a', 't', 'e', '_', 's', 'y', 's', 't', 'e', 'm', 'd']);
    reveal_strlit("build");
    assert("build"@ =~= seq!['b', 'u', 'i', 'l', 'd']);
    reveal_strlit("ps");
    assert("ps"@ =~= seq!['p', 's']);
    podman_accepts_listed_actions(t, r);
}

/// A report marks a change only when the command succeeded, and its success
/// is that of the command.
pub proof fn podman_report_change_needs_success(t: &PodmanTask, out: &ExecOutput)
    ensures
        report_spec(t, out).success == out.success,
        report_spec(t, out).changed ==> report_spec(t, out).success,
{
}

/// Whether two tasks differ at most in the values of their parameters:
/// same action, same switches, and the same parameters left empty.
pub open spec fn same_shape(t1: &PodmanTask, t2: &PodmanTask) -> bool {
    &&& t1.action@ == t2.action@
    &&& t1.detach == t2.detach
    &&& t1.force == t2.force
    &&& t1.new_unit == t2.new_unit
    &&& (t1.container_name@.len() == 0) == (t2.container_name@.len() == 0)
    &&& (t1.ports@.len() == 0) == (t2.ports@.len() == 0)
    &&& (t1.restart@.len() == 0) == (t2.restart@.len() == 0)
    &&& (t1.pod@.len() == 0) == (t2.pod@.len() == 0)
}

/// Parameter values reach the shell only as values to quote: the literal
/// text of a task's command depends on its action, its switches and which
/// parameters are set, never on what they hold.
pub proof fn podman_values_only_quoted(t1: &PodmanTask, t2: &PodmanTask)
    requires
        same_shape(t1, t2),
    ensures
        apply_command_spec(t1) is Ok <==> apply_command_spec(t2) is Ok,
        apply_command_spec(t1) is Ok ==> same_literals(
            apply_command_spec(t1)->Ok_0,
            apply_command_spec(t2)->Ok_0,
        ),
{
    if t1.action@ == "run"@ {
        assert(same_literals(seq![lit("podman run"@)] + provided(t1.detach, seq![lit(" -d"@)]), seq![lit("podman run"@)] + provided(t2.detach, seq![lit(" -d"@)])));
        assert(same_literals(provided(t1.container_name@.len() > 0, seq![lit(" --name "@), quote(t1.container_name@)]), provided(t2.container_name@.len() > 0, seq![lit(" --name "@), quote(t2.container_name@)])));
        assert(same_literals(provided(t1.ports@.len() > 0, seq![lit(" -p "@), quote(t1.ports@)]), provided(t2.ports@.len() > 0, seq![lit(" -p "@), quote(t2.ports@)])));
        assert(same_literals(provided(t1.restart@.len() > 0, seq![lit(" --restart "@), quote(t1.restart@)]), provided(t2.restart@.len() > 0, seq![lit(" --restart "@), quote(t2.restart@)])));
        assert(same_literals(provided(t1.pod@.len() > 0, seq![lit(" --pod "@), quote(t1.pod@)]), provided(t2.pod@.len() > 0, seq![lit(" --pod "@), quote(t2.pod@)])));
        assert(same_literals(seq![lit(" "@), quote(t1.image@)], seq![lit(" "@), quote(t2.image@)]));
        lemma_same_literals_concat(seq![lit("podman run"@)] + provided(t1.detach, seq![lit(" -d"@)]), seq![lit("podman run"@)] + provided(t2.detach, seq![lit(" -d"@)]), provided(t1.container_name@.len() > 0, seq![lit(" --name "@), quote(t1.container_name@)]), provided(t2.container_name@.len() > 0, seq![lit(" --name "@), quote(t2.container_name@)]));
        lemma_same_literals_concat(seq![lit("podman run"@)] + provided(t1.detach, seq![lit(" -d"@)]) + provided(t1.container_name@.len() > 0, seq![lit(" --name "@), quote(t1.container_name@)]), seq![lit("podman run"@)] + provided(t2.detach, seq![lit(" -d"@)]) + provided(t2.container_name@.len() > 0, seq![lit(" --name "@), quote(t2.container_name@)]), provided(t1.ports@.len() > 0, seq![lit(" -p "@), quote(t1.ports@)]), provided(t2.ports@.len() > 0, seq![lit(" -p "@), quote(t2.ports@)]));
        lemma_same_literals_concat(seq![lit("podman run"@)] + provided(t1.detach, seq![lit(" -d"@)]) + provided(t1.container_name@.len() > 0, seq![lit(" --name "@), quote(t1.container_name@)]) + provided(t1.ports@.len() > 0, seq![lit(" -p "@), quote(t1.ports@)]), seq![lit("podman run"@)] + provided(t2.detach, seq![lit(" -d"@)]) + provided(t2.container_name@.len() > 0, seq![lit(" --name "@), quote(t2.container_name@)]) + provided(t2.ports@.len() > 0, seq![lit(" -p "@), quote(t2.ports@)]), provided(t1.restart@.len() > 0, seq![lit(" --restart "@), quote(t1.restart@)]), provided(t2.restart@.len() > 0, seq![lit(" --restart "@), quote(t2.restart@)]));
        lemma_same_literals_concat(seq![lit("podman run"@)] + provided(t1.detach, seq![lit(" -d"@)]) + provided(t1.container_name@.len() > 0, seq![lit(" --name "@), quote(t1.container_name@)]) + provided(t1.ports@.len() > 0, seq![lit(" -p "@), quote(t1.ports@)]) + provided(t1.restart@.len() > 0, seq![lit(" --restart "@), quote(t1.restart@)]), seq![lit("podman run"@)] + provided(t2.detach, seq![lit(" -d"@)]) + provided(t2.container_name@.len() > 0, seq![lit(" --name "@), quote(t2.container_name@)]) + provided(t2.ports@.len() > 0, seq![lit(" -p "@), quote(t2.ports@)]) + provided(t2.restart@.len() > 0, seq![lit(" --restart "@), quote(t2.restart@)]), provided(t1.pod@.len() > 0, seq![lit(" --pod "@), quote(t1.pod@)]), provided(t2.pod@.len() > 0, seq![lit(" --pod "@), quote(t2.pod@)]));
        lemma_same_literals_concat(seq![lit("podman run"@)] + provided(t1.detach, seq![lit(" -d"@)]) + provided(t1.container_name@.len() > 0, seq![lit(" --name "@), quote(t1.container_name@)]) + provided(t1.ports@.len() > 0, seq![lit(" -p "@), quote(t1.ports@)]) + provided(t1.restart@.len() > 0, seq![lit(" --restart "@), quote(t1.restart@)]) + provided(t1.pod@.len() > 0, seq![lit(" --pod "@), quote(t1.pod@)]), seq![lit("podman run"@)] + provided(t2.detach, seq![lit(" -d"@)]) + provided(t2.container_name@.len() > 0, seq![lit(" --name "@), quote(t2.container_name@)]) + provided(t2.ports@.len() > 0, seq![lit(" -p "@), quote(t2.ports@)]) + provided(t2.restart@.len() > 0, seq![lit(" --restart "@), quote(t2.restart@)]) + provided(t2.pod@.len() > 0, seq![lit(" --pod "@), quote(t2.pod@)]), seq![lit(" "@), quote(t1.image@)], seq![lit(" "@), quote(t2.image@)]);
    } else if t1.action@ == "pod_create"@ {
        assert(same_literals(seq![lit("podman pod create --name "@), quote(t1.pod_name@)], seq![lit("podman pod create --name "@), quote(t2.pod_name@)]));
        assert(same_literals(provided(t1.ports@.len() > 0, seq![lit(" -p "@), quote(t1.ports@)]), provided(t2.ports@.len() > 0, seq![lit(" -p "@), quote(t2.ports@)])));
        lemma_same_literals_concat(seq![lit("podman pod create --name "@), quote(t1.pod_name@)], seq![lit("podman pod create --name "@), quote(t2.pod_name@)], provided(t1.ports@.len() > 0, seq![lit(" -p "@), quote(t1.ports@)]), provided(t2.ports@.len() > 0, seq![lit(" -p "@), quote(t2.ports@)]));
    }
}

/// What each action runs: container, pod and image names reach the command,
/// quoted; `run` carries `-d` exactly when the task detaches and each
/// optional flag exactly when its parameter is set; `rm` and `pod_rm` force
/// exactly when asked; the systemd unit is generated with `--new` exactly
/// when asked.
pub proof fn podman_commands_carry_their_parameters(t: &PodmanTask)
    ensures
        t.action@ == "pull"@ ==> apply_command_spec(t) == Ok::<Seq<PieceView>, ErrorView>(
            seq![lit("podman pull "@), quote(t.image@)],
        ),
        t.action@ == "run"@ ==> apply_command_spec(t) == Ok::<Seq<PieceView>, ErrorView>(
            seq![lit("podman run"@)] + (if t.detach { seq![lit(" -d"@)] } else { seq![] })
                + (if t.container_name@.len() > 0 { seq![lit(" --name "@), quote(t.container_name@)] } else { seq![] })
                + (if t.ports@.len() > 0 { seq![lit(" -p "@), quote(t.ports@)] } else { seq![] })
                + (if t.restart@.len() > 0 { seq![lit(" --restart "@), quote(t.restart@)] } else { seq![] })
                + (if t.pod@.len() > 0 { seq![lit(" --pod "@), quote(t.pod@)] } else { seq![] })
                + seq![lit(" "@), quote(t.image@)],
        ),
        t.action@ == "stop"@ ==> apply_command_spec(t) == Ok::<Seq<PieceView>, ErrorView>(
            seq![lit("podman stop "@), quote(t.container_name@)],
        ),
        t.action@ == "rm"@ ==> apply_command_spec(t) == Ok::<Seq<PieceView>, ErrorView>(
            seq![lit(if t.force { "podman rm -f "@ } else { "podman rm "@ }), quote(t.container_name@)],
        ),
        t.action@ == "pod_create"@ ==> apply_command_spec(t) == Ok::<Seq<PieceView>, ErrorView>(
            seq![lit("podman pod create --name "@), quote(t.pod_name@)] + (if t.ports@.len() > 0 { seq![lit(" -p "@), quote(t.ports@)] } else { seq![] }),
        ),
        t.action@ == "pod_start"@ ==> apply_command_spec(t) == Ok::<Seq<PieceView>, ErrorView>(
            seq![lit("podman pod start "@), quote(t.pod_name@)],
        ),
        t.action@ == "pod_stop"@ ==> apply_command_spec(t) == Ok::<Seq<PieceView>, ErrorView>(
            seq![lit("podman pod stop "@), quote(t.pod_name@)],
        ),
        t.action@ == "pod_rm"@ ==> apply_command_spec(t) == Ok::<Seq<PieceView>, ErrorView>(
            seq![lit(if t.force { "podman pod rm -f "@ } else { "podman pod rm "@ }), quote(t.pod_name@)],
        ),
        t.action@ == "generate_systemd"@ ==> apply_command_spec(t) == Ok::<Seq<PieceView>, ErrorView>(
            seq![lit(if t.new_unit { "podman generate systemd --new --name "@ } else { "podman generate systemd --name "@ }), quote(t.container_name@)],
        ),
        t.action@ == "build"@ ==> apply_command_spec(t) == Ok::<Seq<PieceView>, ErrorView>(
            seq![lit("podman build -t "@), quote(t.image@), lit(" "@), quote(t.context@)],
        ),
        t.action@ == "ps"@ ==> apply_command_spec(t) == Ok::<Seq<PieceView>, ErrorView>(
            seq![lit("podman ps -a"@)],
        ),
{
    reveal_strlit("pull");
    assert("pull"@ =~= seq!['p', 'u', 'l', 'l']);
    reveal_strlit("run");
    assert("run"@ =~= seq!['r', 'u', 'n']);
    reveal_strlit("stop");
    assert("stop"@ =~= seq!['s', 't', 'o', 'p']);
    reveal_strlit("rm");
    assert("rm"@ =~= seq!['r', 'm']);
    reveal_strlit("pod_create");
    assert("pod_create"@ =~= seq!['p', 'o', 'd', '_', 'c', 'r', 'e', 'a', 't', 'e']);
    reveal_strlit("pod_start");
    assert("pod_start"@ =~= seq!['p', 'o', 'd', '_', 's', 't', 'a', 'r', 't']);
    reveal_strlit("pod_stop");
    assert("pod_stop"@ =~= seq!['p', 'o', 'd', '_', 's', 't', 'o', 'p']);
    reveal_strlit("pod_rm");
    assert("pod_rm"@ =~= seq!['p', 'o', 'd', '_', 'r', 'm']);
    reveal_strlit("generate_systemd");
    assert("generate_systemd"@ =~= seq!['g', 'e', 'n', 'e', 'r', 'a', 't', 'e', '_', 's', 'y', 's', 't', 'e', 'm', 'd']);
    reveal_strlit("build");
    assert("build"@ =~= seq!['b', 'u', 'i', 'l', 'd']);
    reveal_strlit("ps");
    assert("ps"@ =~= seq!['p', 's']);
}

/// What a plan asks the node and when it plans a change: pull only when
/// the image does not exist, run a named container only when it does not
/// print `true` as running, stop only when it does, remove a container or a
/// pod only when it exists, and create a pod only when it does not.
pub proof fn podman_plans_follow_the_node(t: &PodmanTask, r: &Reply)
    ensures
        t.action@ == "pull"@ ==> plan_probe_spec(t) == Ok::<ProbeView, ErrorView>(ProbeView::Shell(seq![lit("podman image exists "@), quote(t.image@), lit(" 2>/dev/null"@)])),
        t.action@ == "pull"@ && !(r is Failed) ==> plan_spec(t, r) is Ok && plan_spec(t, r)->Ok_0.changed == (!(match r { Reply::Output(o) => o.success, Reply::Exists(b) => *b, _ => false })),
        t.action@ == "run"@ && t.container_name@.len() > 0 ==> plan_probe_spec(t) == Ok::<ProbeView, ErrorView>(ProbeView::Shell(seq![lit("podman inspect -f '{{.State.Running}}' "@), quote(t.container_name@), lit(" 2>/dev/null"@)])),
        t.action@ == "run"@ && t.container_name@.len() > 0 && !(r is Failed) ==> plan_spec(t, r) is Ok && plan_spec(t, r)->Ok_0.changed == (!(r matches Reply::Output(o) && o.success && trimmed(o.stdout@) == "true"@)),
        t.action@ == "run"@ && t.container_name@.len() == 0 ==> plan_probe_spec(t) == Ok::<ProbeView, ErrorView>(ProbeView::Nothing),
        t.action@ == "run"@ && t.container_name@.len() == 0 && !(r is Failed) ==> plan_spec(t, r) is Ok && plan_spec(t, r)->Ok_0.changed == (true),
        t.action@ == "stop"@ ==> plan_probe_spec(t) == Ok::<ProbeView, ErrorView>(ProbeView::Shell(seq![lit("podman inspect -f '{{.State.Running}}' "@), quote(t.container_name@), lit(" 2>/dev/null"@)])),
        t.action@ == "stop"@ && !(r is Failed) ==> plan_spec(t, r) is Ok && plan_spec(t, r)->Ok_0.changed == ((r matches Reply::Output(o) && o.success && trimmed(o.stdout@) == "true"@)),
        t.action@ == "rm"@ ==> plan_probe_spec(t) == Ok::<ProbeView, ErrorView>(ProbeView::Shell(seq![lit("podman container exists "@), quote(t.container_name@), lit(" 2>/dev/null"@)])),
        t.action@ == "rm"@ && !(r is Failed) ==> plan_spec(t, r) is Ok && plan_spec(t, r)->Ok_0.changed == ((match r { Reply::Output(o) => o.success, Reply::Exists(b) => *b, _ => false })),
        t.action@ == "pod_create"@ ==> plan_probe_spec(t) == Ok::<ProbeView, ErrorView>(ProbeView::Shell(seq![lit("podman pod exists "@), quote(t.pod_name@), lit(" 2>/dev/null"@)])),
        t.action@ == "pod_create"@ && !(r is Failed) ==> plan_spec(t, r) is Ok && plan_spec(t, r)->Ok_0.changed == (!(match r { Reply::Output(o) => o.success, Reply::Exists(b) => *b, _ => false })),
        t.action@ == "pod_start"@ ==> plan_probe_spec(t) == Ok::<ProbeView, ErrorView>(ProbeView::Nothing),
        t.action@ == "pod_start"@ && !(r is Failed) ==> plan_spec(t, r) is Ok && plan_spec(t, r)->Ok_0.changed == (true),
        t.action@ == "pod_stop"@ ==> plan_probe_spec(t) == Ok::<ProbeView, ErrorView>(ProbeView::Nothing),
        t.action@ == "pod_stop"@ && !(r is Failed) ==> plan_spec(t, r) is Ok && plan_spec(t, r)->Ok_0.changed == (true),
        t.action@ == "pod_rm"@ ==> plan_probe_spec(t) == Ok::<ProbeView, ErrorView>(ProbeView::Shell(seq![lit("podman pod exists "@), quote(t.pod_name@), lit(" 2>/dev/null"@)])),
        t.action@ == "pod_rm"@ && !(r is Failed) ==> plan_spec(t, r) is Ok && plan_spec(t, r)->Ok_0.changed == ((match r { Reply::Output(o) => o.success, Reply::Exists(b) => *b, _ => false })),
        t.action@ == "generate_systemd"@ ==> plan_probe_spec(t) == Ok::<ProbeView, ErrorView>(ProbeView::Nothing),
        t.action@ == "generate_systemd"@ && !(r is Failed) ==> plan_spec(t, r) is Ok && plan_spec(t, r)->Ok_0.changed == (true),
        t.action@ == "build"@ ==> plan_probe_spec(t) == Ok::<ProbeView, ErrorView>(ProbeView::Nothing),
        t.action@ == "build"@ && !(r is Failed) ==> plan_spec(t, r) is Ok && plan_spec(t, r)->Ok_0.changed == (true),
        t.action@ == "ps"@ ==> plan_probe_spec(t) == Ok::<ProbeView, ErrorView>(ProbeView::Nothing),
        t.action@ == "ps"@ && !(r is Failed) ==> plan_spec(t, r) is Ok && plan_spec(t, r)->Ok_0.changed == (false),
{
    reveal_strlit("pull");
    assert("pull"@ =~= seq!['p', 'u', 'l', 'l']);
    reveal_strlit("run");
    assert("run"@ =~= seq!['r', 'u', 'n']);
    reveal_strlit("stop");
    assert("stop"@ =~= seq!['s', 't', 'o', 'p']);
    reveal_strlit("rm");
    assert("rm"@ =~= seq!['r', 'm']);
    reveal_strlit("pod_create");
    assert("pod_create"@ =~= seq!['p', 'o', 'd', '_', 'c', 'r', 'e', 'a', 't', 'e']);
    reveal_strlit("pod_start");
    assert("pod_start"@ =~= seq!['p', 'o', 'd', '_', 's', 't', 'a', 'r', 't']);
    reveal_strlit("pod_stop");
    assert("pod_stop"@ =~= seq!['p', 'o', 'd', '_', 's', 't', 'o', 'p']);
    reveal_strlit("pod_rm");
    assert("pod_rm"@ =~= seq!['p', 'o', 'd', '_', 'r', 'm']);
    reveal_strlit("generate_systemd");
    assert("generate_systemd"@ =~= seq!['g', 'e', 'n', 'e', 'r', 'a', 't', 'e', '_', 's', 'y', 's', 't', 'e', 'm', 'd']);
    reveal_strlit("build");
    assert("build"@ =~= seq!['b', 'u', 'i', 'l', 'd']);
    reveal_strlit("ps");
    assert("ps"@ =~= seq!['p', 's']);
}

/// What a report says: it succeeds exactly when the command did and marks
/// a change exactly when an action other than ps succeeded; the unit file of
/// generate_systemd and the listing of ps are handed back whole, the other
/// actions say `ok`, and a failure says `failed:` with the trimmed error.
pub proof fn podman_reports_what_the_command_did(t: &PodmanTask, out: &ExecOutput)
    ensures
        report_spec(t, out) == (ReportView {
            module: "podman"@,
            action: t.action@,
            success: out.success,
            changed: out.success && t.action@ != "ps"@,
            message: if !out.success {
                "podman"@ + " "@ + t.action@ + " — failed: "@ + trimmed(out.stderr@)
            } else if t.action@ == "generate_systemd"@ || t.action@ == "ps"@ {
                out.stdout@
            } else {
                "podman"@ + " "@ + t.action@ + " — ok"@
            },
        }),
{
}

} // verus!
