//! Kubernetes resources through kubectl: apply, delete, rollout, scale, wait,
//! exec, get.

use vstd::prelude::*;
use crate::command::{
    lemma_same_literals_concat, lit, provided, quote, same_literals, Command, PieceView,
};
use crate::task::{checked, checked_exec, failed_message, failed_text, make_plan, make_report, ok_message, ok_text, reply_is_yes, reply_yes, requires_error, requires_failure, rview, unknown_action, unknown_action_error, ErrorView, ExecOutput, ModuleError, Plan, PlanView, Probe, ProbeView, Reply, Report, ReportView};
use crate::text::{concat2, concat4, decimal, decimal_string, same_text, trim, trimmed};

verus! {

/// The Kubernetes module.
#[derive(Debug)]
pub struct K8sModule;

/// The parameters of a Kubernetes task, as the driver read them.
#[derive(Debug)]
pub struct K8sTask {
    pub action: String,
    pub context: String,
    pub namespace: String,
    pub kubeconfig: String,
    pub manifest: String,
    /// `kind` where it has no default (`delete`, `wait`).
    pub kind: String,
    /// `kind` where it defaults to `deployment` (`rollout`, `scale`).
    pub workload_kind: String,
    pub resource_name: String,
    pub sub_action: String,
    pub replicas: i64,
    pub condition: String,
    pub timeout: i64,
    pub pod: String,
    pub container: String,
    pub cmd: String,
}

impl K8sTask {
    /// A task of the given action with every parameter at its default: what
    /// the driver starts from before it reads the parameters the task sets.
    pub fn defaults(action: &str) -> (t: K8sTask)
        ensures
            t.action@ == action@,
            t.context@ == ""@,
            t.namespace@ == ""@,
            t.kubeconfig@ == ""@,
            t.manifest@ == ""@,
            t.kind@ == ""@,
            t.workload_kind@ == "deployment"@,
            t.resource_name@ == ""@,
            t.sub_action@ == "status"@,
            t.replicas == 1,
            t.condition@ == "Ready"@,
            t.timeout == 300,
            t.pod@ == ""@,
            t.container@ == ""@,
            t.cmd@ == ""@,
    {
        K8sTask {
            action: action.to_owned(),
            context: "".to_owned(),
            namespace: "".to_owned(),
            kubeconfig: "".to_owned(),
            manifest: "".to_owned(),
            kind: "".to_owned(),
            workload_kind: "deployment".to_owned(),
            resource_name: "".to_owned(),
            sub_action: "status".to_owned(),
            replicas: 1,
            condition: "Ready".to_owned(),
            timeout: 300,
            pod: "".to_owned(),
            container: "".to_owned(),
            cmd: "".to_owned(),
        }
    }
}

/// The actions of the module, in the order it lists them.
pub open spec fn k8s_actions() -> Seq<Seq<char>> {
    seq!["apply"@, "delete"@, "rollout"@, "scale"@, "wait"@, "exec"@, "get"@]
}

/// `kubectl` with the context, namespace and kubeconfig that are set.
pub open spec fn kubectl_base(t: &K8sTask) -> Seq<PieceView> {
    seq![lit("kubectl"@)] + provided(
        t.context@.len() > 0,
        seq![lit(" --context "@), quote(t.context@)],
    ) + provided(t.namespace@.len() > 0, seq![lit(" -n "@), quote(t.namespace@)]) + provided(
        t.kubeconfig@.len() > 0,
        seq![lit(" --kubeconfig "@), quote(t.kubeconfig@)],
    )
}

/// The probe that tells whether the resource `kind`/`resource_name` exists.
pub open spec fn exists_probe(t: &K8sTask) -> ProbeView {
    ProbeView::Shell(
        kubectl_base(t) + seq![
            lit(" get "@),
            quote(t.kind@),
            lit(" "@),
            quote(t.resource_name@),
            lit(" -o name 2>/dev/null"@),
        ],
    )
}

pub open spec fn plan_probe_spec(t: &K8sTask) -> Result<ProbeView, ErrorView> {
    let a = t.action@;
    if a == "delete"@ {
        Ok(exists_probe(t))
    } else if a == "apply"@ || a == "rollout"@ || a == "scale"@ || a == "wait"@ || a == "exec"@
        || a == "get"@ {
        Ok(ProbeView::Nothing)
    } else {
        Err(unknown_action("k8s"@, a))
    }
}

pub open spec fn plan_of(t: &K8sTask, changed: bool, description: Seq<char>) -> PlanView {
    PlanView { module: "k8s"@, action: t.action@, changed, description }
}

pub open spec fn plan_spec(t: &K8sTask, r: &Reply) -> Result<PlanView, ErrorView> {
    let a = t.action@;
    let name = t.resource_name@;
    if a == "apply"@ {
        Ok(plan_of(t, true, "apply manifest "@ + t.manifest@))
    } else if a == "delete"@ {
        // a failed probe counts as an absent resource
        if reply_yes(r) {
            Ok(plan_of(t, true, "delete "@ + t.kind@ + " "@ + name))
        } else {
            Ok(plan_of(t, false, t.kind@ + " "@ + name + " does not exist"@))
        }
    } else if a == "rollout"@ {
        Ok(
            plan_of(
                t,
                t.sub_action@ != "status"@,
                "rollout "@ + t.sub_action@ + " "@ + t.workload_kind@ + "/"@ + name,
            ),
        )
    } else if a == "scale"@ {
        Ok(
            plan_of(
                t,
                true,
                "scale "@ + t.workload_kind@ + "/"@ + name + " to "@ + decimal(t.replicas as int)
                    + " replicas"@,
            ),
        )
    } else if a == "wait"@ {
        Ok(
            plan_of(
                t,
                false,
                "wait for "@ + t.condition@ + " "@ + t.kind@ + "/"@ + name + " to be "@
                    + t.condition@,
            ),
        )
    } else if a == "exec"@ {
        Ok(plan_of(t, true, "exec in pod "@ + t.pod@ + ": "@ + t.cmd@))
    } else if a == "get"@ {
        Ok(plan_of(t, false, "get "@ + t.kind@ + " "@ + name))
    } else {
        Err(unknown_action("k8s"@, a))
    }
}

pub open spec fn apply_command_spec(t: &K8sTask) -> Result<Seq<PieceView>, ErrorView> {
    let a = t.action@;
    let base = kubectl_base(t);
    let name = t.resource_name@;
    if a == "apply"@ {
        if t.manifest@.len() == 0 {
            Err(requires_error("k8s"@, "apply"@, "'manifest' parameter"@))
        } else {
            Ok(base + seq![lit(" apply -f "@), quote(t.manifest@)])
        }
    } else if a == "delete"@ {
        Ok(
            base + seq![
                lit(" delete "@),
                quote(t.kind@),
                lit(" "@),
                quote(name),
                lit(" --ignore-not-found"@),
            ],
        )
    } else if a == "rollout"@ {
        Ok(
            base + seq![
                lit(" rollout "@),
                quote(t.sub_action@),
                lit(" "@),
                quote(t.workload_kind@),
                lit("/"@),
                quote(name),
            ],
        )
    } else if a == "scale"@ {
        Ok(
            base + seq![
                lit(" scale "@),
                quote(t.workload_kind@),
                lit("/"@),
                quote(name),
                lit(" --replicas="@),
                lit(decimal(t.replicas as int)),
            ],
        )
    } else if a == "wait"@ {
        Ok(
            base + seq![
                lit(" wait "@),
                quote(t.kind@),
                lit("/"@),
                quote(name),
                lit(" --for=condition="@),
                quote(t.condition@),
                lit(" --timeout="@),
                lit(decimal(t.timeout as int)),
                lit("s"@),
            ],
        )
    } else if a == "exec"@ {
        // the command itself goes to the shell as the user wrote it
        Ok(
            base + seq![lit(" exec "@), quote(t.pod@)] + provided(
                t.container@.len() > 0,
                seq![lit(" -c "@), quote(t.container@)],
            ) + seq![lit(" -- "@), lit(t.cmd@)],
        )
    } else if a == "get"@ {
        Ok(get_command(t))
    } else {
        Err(unknown_action("k8s"@, a))
    }
}

/// `kubectl get` of the kind, narrowed to the named resource when one is named.
pub open spec fn get_command(t: &K8sTask) -> Seq<PieceView> {
    kubectl_base(t) + seq![lit(" get "@), quote(t.kind@)] + provided(
        t.resource_name@.len() > 0,
        seq![lit(" "@), quote(t.resource_name@)],
    )
}

/// Whether a successful command of the task changed the cluster: all but
/// `wait`, `get` and a rollout `status` do.
pub open spec fn mutates(t: &K8sTask) -> bool {
    t.action@ != "wait"@ && t.action@ != "get"@ && !(t.action@ == "rollout"@ && t.sub_action@
        == "status"@)
}

/// On success the trimmed output, or the ok message when there is none; the
/// trimmed error output on failure.
pub open spec fn report_message(t: &K8sTask, out: &ExecOutput) -> Seq<char> {
    if out.success {
        if trimmed(out.stdout@).len() == 0 {
            ok_message("k8s"@, t.action@)
        } else {
            trimmed(out.stdout@)
        }
    } else {
        failed_message("k8s"@, t.action@, out.stderr@)
    }
}

pub open spec fn report_spec(t: &K8sTask, out: &ExecOutput) -> ReportView {
    ReportView {
        module: "k8s"@,
        action: t.action@,
        success: out.success,
        changed: out.success && mutates(t),
        message: report_message(t, out),
    }
}

pub open spec fn check_probe_spec(t: &K8sTask) -> ProbeView {
    if t.action@ == "delete"@ {
        exists_probe(t)
    } else {
        ProbeView::Nothing
    }
}

pub open spec fn check_spec(t: &K8sTask, r: &Reply) -> Result<bool, ErrorView> {
    if t.action@ == "delete"@ {
        checked(r, !reply_yes(r))
    } else {
        Ok(false)
    }
}

fn base_exec(t: &K8sTask) -> (c: Command)
    ensures
        c@ == kubectl_base(t),
{
    let mut c = Command::new();
    c.lit("kubectl");
    if !t.context.as_str().is_empty() {
        c.lit(" --context ");
        c.quote(t.context.as_str());
    }
    if !t.namespace.as_str().is_empty() {
        c.lit(" -n ");
        c.quote(t.namespace.as_str());
    }
    if !t.kubeconfig.as_str().is_empty() {
        c.lit(" --kubeconfig ");
        c.quote(t.kubeconfig.as_str());
    }
    assert(c@ =~= kubectl_base(t));
    c
}

fn get_command_exec(t: &K8sTask) -> (c: Command)
    ensures
        c@ == get_command(t),
{
    let mut c = base_exec(t);
    c.lit(" get ");
    c.quote(t.kind.as_str());
    if !t.resource_name.as_str().is_empty() {
        c.lit(" ");
        c.quote(t.resource_name.as_str());
    }
    assert(c@ =~= get_command(t));
    c
}

fn exists_probe_exec(t: &K8sTask) -> (p: Probe)
    ensures
        p@ == exists_probe(t),
{
    let mut c = base_exec(t);
    c.lit(" get ");
    c.quote(t.kind.as_str());
    c.lit(" ");
    c.quote(t.resource_name.as_str());
    c.lit(" -o name 2>/dev/null");
    assert(c@ =~= kubectl_base(t) + seq![
        lit(" get "@),
        quote(t.kind@),
        lit(" "@),
        quote(t.resource_name@),
        lit(" -o name 2>/dev/null"@),
    ]);
    Probe::Shell(c)
}

impl K8sModule {
    pub fn name(&self) -> (r: &'static str)
        ensures
            r@ == "k8s"@,
    {
        "k8s"
    }

    pub fn actions(&self) -> (r: &'static [&'static str])
        ensures
            r@.map_values(|s: &str| s@) == k8s_actions(),
    {
        let r: &'static [&'static str] = &["apply", "delete", "rollout", "scale", "wait", "exec", "get"];
        assert(r@.map_values(|s: &str| s@) =~= k8s_actions());
        r
    }

    /// What the plan of a task needs to know about the cluster first.
    pub fn plan_probe(&self, t: &K8sTask) -> (r: Result<Probe, ModuleError>)
        ensures
            rview(r) == plan_probe_spec(t),
    {
        let a = t.action.as_str();
        if same_text(a, "delete") {
            Ok(exists_probe_exec(t))
        } else if same_text(a, "apply") || same_text(a, "rollout") || same_text(a, "scale")
            || same_text(a, "wait") || same_text(a, "exec") || same_text(a, "get") {
            Ok(Probe::Nothing)
        } else {
            Err(unknown_action_error("k8s", a))
        }
    }

    /// The plan of a task, given the reply to its probe.
    pub fn plan(&self, t: &K8sTask, r: &Reply) -> (p: Result<Plan, ModuleError>)
        ensures
            rview(p) == plan_spec(t, r),
    {
        let a = t.action.as_str();
        let name = t.resource_name.as_str();
        let kind = t.kind.as_str();
        let wkind = t.workload_kind.as_str();
        if same_text(a, "apply") {
            Ok(make_plan("k8s", a, true, concat2("apply manifest ", t.manifest.as_str())))
        } else if same_text(a, "delete") {
            if reply_is_yes(r) {
                Ok(make_plan("k8s", a, true, concat4("delete ", kind, " ", name)))
            } else {
                Ok(make_plan("k8s", a, false, concat4(kind, " ", name, " does not exist")))
            }
        } else if same_text(a, "rollout") {
            let sub = t.sub_action.as_str();
            let mut d = concat4("rollout ", sub, " ", wkind);
            d.append("/");
            d.append(name);
            Ok(make_plan("k8s", a, !same_text(sub, "status"), d))
        } else if same_text(a, "scale") {
            let mut d = concat4("scale ", wkind, "/", name);
            d.append(" to ");
            let n = decimal_string(t.replicas);
            d.append(n.as_str());
            d.append(" replicas");
            Ok(make_plan("k8s", a, true, d))
        } else if same_text(a, "wait") {
            let cond = t.condition.as_str();
            let mut d = concat4("wait for ", cond, " ", kind);
            d.append("/");
            d.append(name);
            d.append(" to be ");
            d.append(cond);
            Ok(make_plan("k8s", a, false, d))
        } else if same_text(a, "exec") {
            Ok(make_plan("k8s", a, true, concat4("exec in pod ", t.pod.as_str(), ": ", t.cmd.as_str())))
        } else if same_text(a, "get") {
            Ok(make_plan("k8s", a, false, concat4("get ", t.kind.as_str(), " ", t.resource_name.as_str())))
        } else {
            Err(unknown_action_error("k8s", a))
        }
    }

    /// The command that applies a task.
    pub fn apply_command(&self, t: &K8sTask) -> (r: Result<Command, ModuleError>)
        ensures
            rview(r) == apply_command_spec(t),
    {
        let a = t.action.as_str();
        let name = t.resource_name.as_str();
        let ghost base = kubectl_base(t);
        if same_text(a, "apply") {
            if t.manifest.as_str().is_empty() {
                return Err(requires_failure("k8s", "apply", "'manifest' parameter"));
            }
            let mut c = base_exec(t);
            c.lit(" apply -f ");
            c.quote(t.manifest.as_str());
            assert(c@ =~= base + seq![lit(" apply -f "@), quote(t.manifest@)]);
            Ok(c)
        } else if same_text(a, "delete") {
            let mut c = base_exec(t);
            c.lit(" delete ");
            c.quote(t.kind.as_str());
            c.lit(" ");
            c.quote(name);
            c.lit(" --ignore-not-found");
            assert(c@ =~= base + seq![
                lit(" delete "@),
                quote(t.kind@),
                lit(" "@),
                quote(name@),
                lit(" --ignore-not-found"@),
            ]);
            Ok(c)
        } else if same_text(a, "rollout") {
            let mut c = base_exec(t);
            c.lit(" rollout ");
            c.quote(t.sub_action.as_str());
            c.lit(" ");
            c.quote(t.workload_kind.as_str());
            c.lit("/");
            c.quote(name);
            assert(c@ =~= base + seq![
                lit(" rollout "@),
                quote(t.sub_action@),
                lit(" "@),
                quote(t.workload_kind@),
                lit("/"@),
                quote(name@),
            ]);
            Ok(c)
        } else if same_text(a, "scale") {
            let mut c = base_exec(t);
            c.lit(" scale ");
            c.quote(t.workload_kind.as_str());
            c.lit("/");
            c.quote(name);
            c.lit(" --replicas=");
            let n = decimal_string(t.replicas);
            c.lit(n.as_str());
            assert(c@ =~= base + seq![
                lit(" scale "@),
                quote(t.workload_kind@),
                lit("/"@),
                quote(name@),
                lit(" --replicas="@),
                lit(decimal(t.replicas as int)),
            ]);
            Ok(c)
        } else if same_text(a, "wait") {
            let mut c = base_exec(t);
            c.lit(" wait ");
            c.quote(t.kind.as_str());
            c.lit("/");
            c.quote(name);
            c.lit(" --for=condition=");
            c.quote(t.condition.as_str());
            c.lit(" --timeout=");
            let n = decimal_string(t.timeout);
            c.lit(n.as_str());
            c.lit("s");
            assert(c@ =~= base + seq![
                lit(" wait "@),
                quote(t.kind@),
                lit("/"@),
                quote(name@),
                lit(" --for=condition="@),
                quote(t.condition@),
                lit(" --timeout="@),
                lit(decimal(t.timeout as int)),
                lit("s"@),
            ]);
            Ok(c)
        } else if same_text(a, "exec") {
            let mut c = base_exec(t);
            c.lit(" exec ");
            c.quote(t.pod.as_str());
            if !t.container.as_str().is_empty() {
                c.lit(" -c ");
                c.quote(t.container.as_str());
            }
            c.lit(" -- ");
            c.lit(t.cmd.as_str());
            assert(c@ =~= base + seq![lit(" exec "@), quote(t.pod@)] + provided(
                t.container@.len() > 0,
                seq![lit(" -c "@), quote(t.container@)],
            ) + seq![lit(" -- "@), lit(t.cmd@)]);
            Ok(c)
        } else if same_text(a, "get") {
            Ok(get_command_exec(t))
        } else {
            Err(unknown_action_error("k8s", a))
        }
    }

    /// What applying a task did, given the output of its command.
    pub fn apply_report(&self, t: &K8sTask, out: &ExecOutput) -> (r: Report)
        ensures
            r@ == report_spec(t, out),
    {
        let a = t.action.as_str();
        let changed = out.success && !same_text(a, "wait") && !same_text(a, "get") && !(same_text(a, "rollout") && same_text(
            t.sub_action.as_str(),
            "status",
        ));
        let message = if out.success {
            let o = trim(out.stdout.as_str());
            if o.is_empty() {
                ok_text("k8s", a)
            } else {
                o.to_owned()
            }
        } else {
            failed_text("k8s", a, out.stderr.as_str())
        };
        make_report("k8s", a, out.success, changed, message)
    }

    /// What checking a task needs to know about the cluster.
    pub fn check_probe(&self, t: &K8sTask) -> (p: Probe)
        ensures
            p@ == check_probe_spec(t),
    {
        if same_text(t.action.as_str(), "delete") {
            exists_probe_exec(t)
        } else {
            Probe::Nothing
        }
    }

    /// Whether the cluster already is as the task asks, given the probe's reply.
    pub fn check(&self, t: &K8sTask, r: &Reply) -> (b: Result<bool, ModuleError>)
        ensures
            rview(b) == check_spec(t, r),
    {
        if same_text(t.action.as_str(), "delete") {
            checked_exec(r, !reply_is_yes(r))
        } else {
            Ok(false)
        }
    }
}


/// The actions that the module lists are exactly the actions that its plan,
/// its probes and its commands accept; any other action is refused as unknown.
pub proof fn k8s_accepts_listed_actions(t: &K8sTask, r: &Reply)
    ensures
        k8s_actions().contains(t.action@) ==> plan_probe_spec(t) != Err::<ProbeView, ErrorView>(
            unknown_action("k8s"@, t.action@),
        ) && plan_spec(t, r) != Err::<PlanView, ErrorView>(unknown_action("k8s"@, t.action@))
            && apply_command_spec(t) != Err::<Seq<PieceView>, ErrorView>(unknown_action("k8s"@, t.action@)),
        !k8s_actions().contains(t.action@) ==> plan_probe_spec(t) == Err::<ProbeView, ErrorView>(
            unknown_action("k8s"@, t.action@),
        ) && plan_spec(t, r) == Err::<PlanView, ErrorView>(unknown_action("k8s"@, t.action@))
            && apply_command_spec(t) == Err::<Seq<PieceView>, ErrorView>(unknown_action("k8s"@, t.action@)),
{
    let s = k8s_actions();
    assert(s[0] == "apply"@ && s[1] == "delete"@ && s[2] == "rollout"@ && s[3] == "scale"@ && s[4] == "wait"@ && s[5] == "exec"@ && s[6] == "get"@);
    if s.contains(t.action@) {
        let i = choose|i: int| 0 <= i < s.len() && s[i] == t.action@;
        assert(t.action@ == s[i]);
    }
}

/// Planning and checking a task ask the node the same question, and when it
/// is answered, checking finds the node as the task asks exactly when the
/// plan would change nothing.
pub proof fn k8s_check_agrees_with_plan(t: &K8sTask, r: &Reply)
    requires
        k8s_actions().contains(t.action@),
        !(r is Failed),
        mutates(t),
    ensures
        plan_probe_spec(t) == Ok::<ProbeView, ErrorView>(check_probe_spec(t)),
        plan_spec(t, r) is Ok,
        check_spec(t, r) == Ok::<bool, ErrorView>(!plan_spec(t, r)->Ok_0.changed),
{
    reveal_strlit("apply");
    assert("apply"@ =~= seq!['a', 'p', 'p', 'l', 'y']);
    reveal_strlit("delete");
    assert("delete"@ =~= seq!['d', 'e', 'l', 'e', 't', 'e']);
    reveal_strlit("rollout");
    assert("rollout"@ =~= seq!['r', 'o', 'l', 'l', 'o', 'u', 't']);
    reveal_strlit("scale");
    assert("scale"@ =~= seq!['s', 'c', 'a', 'l', 'e']);
    reveal_strlit("wait");
    assert("wait"@ =~= seq!['w', 'a', 'i', 't']);
    reveal_strlit("exec");
    assert("exec"@ =~= seq!['e', 'x', 'e', 'c']);
    reveal_strlit("get");
    assert("get"@ =~= seq!['g', 'e', 't']);
    k8s_accepts_listed_actions(t, r);
}

/// A report marks a change only when the command succeeded, and its success
/// is that of the command.
pub proof fn k8s_report_change_needs_success(t: &K8sTask, out: &ExecOutput)
    ensures
        report_spec(t, out).success == out.success,
        report_spec(t, out).changed ==> report_spec(t, out).success,
{
}

/// Whether two tasks differ at most in the values of their parameters:
/// same action, same switches, and the same parameters left empty.
pub open spec fn same_shape(t1: &K8sTask, t2: &K8sTask) -> bool {
    &&& t1.action@ == t2.action@
    &&& (t1.context@.len() == 0) == (t2.context@.len() == 0)
    &&& (t1.namespace@.len() == 0) == (t2.namespace@.len() == 0)
    &&& (t1.kubeconfig@.len() == 0) == (t2.kubeconfig@.len() == 0)
    &&& (t1.manifest@.len() == 0) == (t2.manifest@.len() == 0)
    &&& (t1.container@.len() == 0) == (t2.container@.len() == 0)
    &&& (t1.resource_name@.len() == 0) == (t2.resource_name@.len() == 0)
    &&& t1.replicas == t2.replicas
    &&& t1.timeout == t2.timeout
    &&& t1.cmd@ == t2.cmd@
}

/// Parameter values reach the shell only as values to quote: the literal
/// text of a task's command depends on its action, which parameters are set,
/// the replica count and timeout, and the command that `exec` runs as
/// written, never on what they hold.
pub proof fn k8s_values_only_quoted(t1: &K8sTask, t2: &K8sTask)
    requires
        same_shape(t1, t2),
    ensures
        apply_command_spec(t1) is Ok <==> apply_command_spec(t2) is Ok,
        apply_command_spec(t1) is Ok ==> same_literals(
            apply_command_spec(t1)->Ok_0,
            apply_command_spec(t2)->Ok_0,
        ),
{
    assert(same_literals(seq![lit("kubectl"@)], seq![lit("kubectl"@)]));
    assert(same_literals(provided(t1.context@.len() > 0, seq![lit(" --context "@), quote(t1.context@)]), provided(t2.context@.len() > 0, seq![lit(" --context "@), quote(t2.context@)])));
    assert(same_literals(provided(t1.namespace@.len() > 0, seq![lit(" -n "@), quote(t1.namespace@)]), provided(t2.namespace@.len() > 0, seq![lit(" -n "@), quote(t2.namespace@)])));
    assert(same_literals(provided(t1.kubeconfig@.len() > 0, seq![lit(" --kubeconfig "@), quote(t1.kubeconfig@)]), provided(t2.kubeconfig@.len() > 0, seq![lit(" --kubeconfig "@), quote(t2.kubeconfig@)])));
    lemma_same_literals_concat(seq![lit("kubectl"@)], seq![lit("kubectl"@)], provided(t1.context@.len() > 0, seq![lit(" --context "@), quote(t1.context@)]), provided(t2.context@.len() > 0, seq![lit(" --context "@), quote(t2.context@)]));
    lemma_same_literals_concat(seq![lit("kubectl"@)] + provided(t1.context@.len() > 0, seq![lit(" --context "@), quote(t1.context@)]), seq![lit("kubectl"@)] + provided(t2.context@.len() > 0, seq![lit(" --context "@), quote(t2.context@)]), provided(t1.namespace@.len() > 0, seq![lit(" -n "@), quote(t1.namespace@)]), provided(t2.namespace@.len() > 0, seq![lit(" -n "@), quote(t2.namespace@)]));
    lemma_same_literals_concat(seq![lit("kubectl"@)] + provided(t1.context@.len() > 0, seq![lit(" --context "@), quote(t1.context@)]) + provided(t1.namespace@.len() > 0, seq![lit(" -n "@), quote(t1.namespace@)]), seq![lit("kubectl"@)] + provided(t2.context@.len() > 0, seq![lit(" --context "@), quote(t2.context@)]) + provided(t2.namespace@.len() > 0, seq![lit(" -n "@), quote(t2.namespace@)]), provided(t1.kubeconfig@.len() > 0, seq![lit(" --kubeconfig "@), quote(t1.kubeconfig@)]), provided(t2.kubeconfig@.len() > 0, seq![lit(" --kubeconfig "@), quote(t2.kubeconfig@)]));
    assert(same_literals(kubectl_base(t1), kubectl_base(t2)));
    let a = t1.action@;
    if a == "apply"@ {
        assert(same_literals(kubectl_base(t1), kubectl_base(t2)));
        assert(same_literals(seq![lit(" apply -f "@), quote(t1.manifest@)], seq![lit(" apply -f "@), quote(t2.manifest@)]));
        lemma_same_literals_concat(kubectl_base(t1), kubectl_base(t2), seq![lit(" apply -f "@), quote(t1.manifest@)], seq![lit(" apply -f "@), quote(t2.manifest@)]);
    } else if a == "delete"@ {
        assert(same_literals(kubectl_base(t1), kubectl_base(t2)));
        assert(same_literals(seq![lit(" delete "@), quote(t1.kind@), lit(" "@), quote(t1.resource_name@), lit(" --ignore-not-found"@)], seq![lit(" delete "@), quote(t2.kind@), lit(" "@), quote(t2.resource_name@), lit(" --ignore-not-found"@)]));
        lemma_same_literals_concat(kubectl_base(t1), kubectl_base(t2), seq![lit(" delete "@), quote(t1.kind@), lit(" "@), quote(t1.resource_name@), lit(" --ignore-not-found"@)], seq![lit(" delete "@), quote(t2.kind@), lit(" "@), quote(t2.resource_name@), lit(" --ignore-not-found"@)]);
    } else if a == "rollout"@ {
        assert(same_literals(kubectl_base(t1), kubectl_base(t2)));
        assert(same_literals(seq![lit(" rollout "@), quote(t1.sub_action@), lit(" "@), quote(t1.workload_kind@), lit("/"@), quote(t1.resource_name@)], seq![lit(" rollout "@), quote(t2.sub_action@), lit(" "@), quote(t2.workload_kind@), lit("/"@), quote(t2.resource_name@)]));
        lemma_same_literals_concat(kubectl_base(t1), kubectl_base(t2), seq![lit(" rollout "@), quote(t1.sub_action@), lit(" "@), quote(t1.workload_kind@), lit("/"@), quote(t1.resource_name@)], seq![lit(" rollout "@), quote(t2.sub_action@), lit(" "@), quote(t2.workload_kind@), lit("/"@), quote(t2.resource_name@)]);
    } else if a == "scale"@ {
        assert(same_literals(kubectl_base(t1), kubectl_base(t2)));
        assert(same_literals(seq![lit(" scale "@), quote(t1.workload_kind@), lit("/"@), quote(t1.resource_name@), lit(" --replicas="@), lit(decimal(t1.replicas as int))], seq![lit(" scale "@), quote(t2.workload_kind@), lit("/"@), quote(t2.resource_name@), lit(" --replicas="@), lit(decimal(t2.replicas as int))]));
        lemma_same_literals_concat(kubectl_base(t1), kubectl_base(t2), seq![lit(" scale "@), quote(t1.workload_kind@), lit("/"@), quote(t1.resource_name@), lit(" --replicas="@), lit(decimal(t1.replicas as int))], seq![lit(" scale "@), quote(t2.workload_kind@), lit("/"@), quote(t2.resource_name@), lit(" --replicas="@), lit(decimal(t2.replicas as int))]);
    } else if a == "wait"@ {
        assert(same_literals(kubectl_base(t1), kubectl_base(t2)));
        assert(same_literals(seq![lit(" wait "@), quote(t1.kind@), lit("/"@), quote(t1.resource_name@), lit(" --for=condition="@), quote(t1.condition@), lit(" --timeout="@), lit(decimal(t1.timeout as int)), lit("s"@)], seq![lit(" wait "@), quote(t2.kind@), lit("/"@), quote(t2.resource_name@), lit(" --for=condition="@), quote(t2.condition@), lit(" --timeout="@), lit(decimal(t2.timeout as int)), lit("s"@)]));
        lemma_same_literals_concat(kubectl_base(t1), kubectl_base(t2), seq![lit(" wait "@), quote(t1.kind@), lit("/"@), quote(t1.resource_name@), lit(" --for=condition="@), quote(t1.condition@), lit(" --timeout="@), lit(decimal(t1.timeout as int)), lit("s"@)], seq![lit(" wait "@), quote(t2.kind@), lit("/"@), quote(t2.resource_name@), lit(" --for=condition="@), quote(t2.condition@), lit(" --timeout="@), lit(decimal(t2.timeout as int)), lit("s"@)]);
    } else if a == "exec"@ {
        assert(same_literals(kubectl_base(t1), kubectl_base(t2)));
        assert(same_literals(seq![lit(" exec "@), quote(t1.pod@)], seq![lit(" exec "@), quote(t2.pod@)]));
        assert(same_literals(provided(t1.container@.len() > 0, seq![lit(" -c "@), quote(t1.container@)]), provided(t2.container@.len() > 0, seq![lit(" -c "@), quote(t2.container@)])));
        assert(same_literals(seq![lit(" -- "@), lit(t1.cmd@)], seq![lit(" -- "@), lit(t2.cmd@)]));
        lemma_same_literals_concat(kubectl_base(t1), kubectl_base(t2), seq![lit(" exec "@), quote(t1.pod@)], seq![lit(" exec "@), quote(t2.pod@)]);
        lemma_same_literals_concat(kubectl_base(t1) + seq![lit(" exec "@), quote(t1.pod@)], kubectl_base(t2) + seq![lit(" exec "@), quote(t2.pod@)], provided(t1.container@.len() > 0, seq![lit(" -c "@), quote(t1.container@)]), provided(t2.container@.len() > 0, seq![lit(" -c "@), quote(t2.container@)]));
        lemma_same_literals_concat(kubectl_base(t1) + seq![lit(" exec "@), quote(t1.pod@)] + provided(t1.container@.len() > 0, seq![lit(" -c "@), quote(t1.container@)]), kubectl_base(t2) + seq![lit(" exec "@), quote(t2.pod@)] + provided(t2.container@.len() > 0, seq![lit(" -c "@), quote(t2.container@)]), seq![lit(" -- "@), lit(t1.cmd@)], seq![lit(" -- "@), lit(t2.cmd@)]);
    } else if a == "get"@ {
        let g1 = seq![lit(" get "@), quote(t1.kind@)];
        let g2 = seq![lit(" get "@), quote(t2.kind@)];
        assert(same_literals(g1, g2));
        lemma_same_literals_concat(kubectl_base(t1), kubectl_base(t2), g1, g2);
        let n1 = provided(t1.resource_name@.len() > 0, seq![lit(" "@), quote(t1.resource_name@)]);
        let n2 = provided(t2.resource_name@.len() > 0, seq![lit(" "@), quote(t2.resource_name@)]);
        assert(same_literals(n1, n2));
        lemma_same_literals_concat(kubectl_base(t1) + g1, kubectl_base(t2) + g2, n1, n2);
    }
}

/// What each action runs: every command starts with `kubectl` and the
/// context, namespace and kubeconfig that the task sets, each exactly when
/// set; resource kinds, names, pods and conditions reach it quoted, counts
/// as decimals, and the command of `exec` as the user wrote it.
pub proof fn k8s_commands_carry_their_parameters(t: &K8sTask)
    ensures
        t.action@ == "apply"@ ==> (t.manifest@.len() == 0 <==> apply_command_spec(t) is Err),
        t.action@ == "apply"@ && t.manifest@.len() > 0 ==> apply_command_spec(t) == Ok::<Seq<PieceView>, ErrorView>(
            (seq![lit("kubectl"@)] + (if t.context@.len() > 0 { seq![lit(" --context "@), quote(t.context@)] } else { seq![] })
                + (if t.namespace@.len() > 0 { seq![lit(" -n "@), quote(t.namespace@)] } else { seq![] })
                + (if t.kubeconfig@.len() > 0 { seq![lit(" --kubeconfig "@), quote(t.kubeconfig@)] } else { seq![] }))
                + seq![lit(" apply -f "@), quote(t.manifest@)],
        ),
        t.action@ == "delete"@ ==> apply_command_spec(t) == Ok::<Seq<PieceView>, ErrorView>(
            (seq![lit("kubectl"@)] + (if t.context@.len() > 0 { seq![lit(" --context "@), quote(t.context@)] } else { seq![] })
                + (if t.namespace@.len() > 0 { seq![lit(" -n "@), quote(t.namespace@)] } else { seq![] })
                + (if t.kubeconfig@.len() > 0 { seq![lit(" --kubeconfig "@), quote(t.kubeconfig@)] } else { seq![] })) + seq![lit(" delete "@), quote(t.kind@), lit(" "@), quote(t.resource_name@), lit(" --ignore-not-found"@)],
        ),
        t.action@ == "rollout"@ ==> apply_command_spec(t) == Ok::<Seq<PieceView>, ErrorView>(
            (seq![lit("kubectl"@)] + (if t.context@.len() > 0 { seq![lit(" --context "@), quote(t.context@)] } else { seq![] })
                + (if t.namespace@.len() > 0 { seq![lit(" -n "@), quote(t.namespace@)] } else { seq![] })
                + (if t.kubeconfig@.len() > 0 { seq![lit(" --kubeconfig "@), quote(t.kubeconfig@)] } else { seq![] })) + seq![lit(" rollout "@), quote(t.sub_action@), lit(" "@), quote(t.workload_kind@), lit("/"@), quote(t.resource_name@)],
        ),
        t.action@ == "scale"@ ==> apply_command_spec(t) == Ok::<Seq<PieceView>, ErrorView>(
            (seq![lit("kubectl"@)] + (if t.context@.len() > 0 { seq![lit(" --context "@), quote(t.context@)] } else { seq![] })
                + (if t.namespace@.len() > 0 { seq![lit(" -n "@), quote(t.namespace@)] } else { seq![] })
                + (if t.kubeconfig@.len() > 0 { seq![lit(" --kubeconfig "@), quote(t.kubeconfig@)] } else { seq![] })) + seq![lit(" scale "@), quote(t.workload_kind@), lit("/"@), quote(t.resource_name@), lit(" --replicas="@), lit(decimal(t.replicas as int))],
        ),
        t.action@ == "wait"@ ==> apply_command_spec(t) == Ok::<Seq<PieceView>, ErrorView>(
            (seq![lit("kubectl"@)] + (if t.context@.len() > 0 { seq![lit(" --context "@), quote(t.context@)] } else { seq![] })
                + (if t.namespace@.len() > 0 { seq![lit(" -n "@), quote(t.namespace@)] } else { seq![] })
                + (if t.kubeconfig@.len() > 0 { seq![lit(" --kubeconfig "@), quote(t.kubeconfig@)] } else { seq![] })) + seq![lit(" wait "@), quote(t.kind@), lit("/"@), quote(t.resource_name@), lit(" --for=condition="@),
                quote(t.condition@), lit(" --timeout="@), lit(decimal(t.timeout as int)), lit("s"@)],
        ),
        t.action@ == "exec"@ ==> apply_command_spec(t) == Ok::<Seq<PieceView>, ErrorView>(
            (seq![lit("kubectl"@)] + (if t.context@.len() > 0 { seq![lit(" --context "@), quote(t.context@)] } else { seq![] })
                + (if t.namespace@.len() > 0 { seq![lit(" -n "@), quote(t.namespace@)] } else { seq![] })
                + (if t.kubeconfig@.len() > 0 { seq![lit(" --kubeconfig "@), quote(t.kubeconfig@)] } else { seq![] })) + seq![lit(" exec "@), quote(t.pod@)]
                + (if t.container@.len() > 0 { seq![lit(" -c "@), quote(t.container@)] } else { seq![] })
                + seq![lit(" -- "@), lit(t.cmd@)],
        ),
        t.action@ == "get"@ ==> apply_command_spec(t) == Ok::<Seq<PieceView>, ErrorView>(
            (seq![lit("kubectl"@)] + (if t.context@.len() > 0 { seq![lit(" --context "@), quote(t.context@)] } else { seq![] })
                + (if t.namespace@.len() > 0 { seq![lit(" -n "@), quote(t.namespace@)] } else { seq![] })
                + (if t.kubeconfig@.len() > 0 { seq![lit(" --kubeconfig "@), quote(t.kubeconfig@)] } else { seq![] })) + seq![lit(" get "@), quote(t.kind@)] + (if t.resource_name@.len() > 0 { seq![lit(" "@), quote(t.resource_name@)] } else { seq![] }),
        ),
{
    reveal_strlit("apply");
    assert("apply"@ =~= seq!['a', 'p', 'p', 'l', 'y']);
    reveal_strlit("delete");
    assert("delete"@ =~= seq!['d', 'e', 'l', 'e', 't', 'e']);
    reveal_strlit("rollout");
    assert("rollout"@ =~= seq!['r', 'o', 'l', 'l', 'o', 'u', 't']);
    reveal_strlit("scale");
    assert("scale"@ =~= seq!['s', 'c', 'a', 'l', 'e']);
    reveal_strlit("wait");
    assert("wait"@ =~= seq!['w', 'a', 'i', 't']);
    reveal_strlit("exec");
    assert("exec"@ =~= seq!['e', 'x', 'e', 'c']);
    reveal_strlit("get");
    assert("get"@ =~= seq!['g', 'e', 't']);
}

/// What a plan asks the cluster and when it plans a change: a resource is
/// deleted only when `kubectl get` finds it (a failed lookup counts as
/// absent); a rollout changes unless it only reads the status; wait and get
/// change nothing; the other actions always change.
pub proof fn k8s_plans_follow_the_cluster(t: &K8sTask, r: &Reply)
    ensures
        t.action@ == "delete"@ ==> plan_probe_spec(t) == Ok::<ProbeView, ErrorView>(ProbeView::Shell((seq![lit("kubectl"@)] + (if t.context@.len() > 0 { seq![lit(" --context "@), quote(t.context@)] } else { seq![] })
            + (if t.namespace@.len() > 0 { seq![lit(" -n "@), quote(t.namespace@)] } else { seq![] })
            + (if t.kubeconfig@.len() > 0 { seq![lit(" --kubeconfig "@), quote(t.kubeconfig@)] } else { seq![] })) + seq![lit(" get "@), quote(t.kind@), lit(" "@), quote(t.resource_name@), lit(" -o name 2>/dev/null"@)])),
        t.action@ == "delete"@ && !(r is Failed) ==> plan_spec(t, r) is Ok && plan_spec(t, r)->Ok_0.changed == ((match r { Reply::Output(o) => o.success, Reply::Exists(b) => *b, _ => false })),
        t.action@ == "apply"@ ==> plan_probe_spec(t) == Ok::<ProbeView, ErrorView>(ProbeView::Nothing),
        t.action@ == "apply"@ && !(r is Failed) ==> plan_spec(t, r) is Ok && plan_spec(t, r)->Ok_0.changed == (true),
        t.action@ == "rollout"@ ==> plan_probe_spec(t) == Ok::<ProbeView, ErrorView>(ProbeView::Nothing),
        t.action@ == "rollout"@ && !(r is Failed) ==> plan_spec(t, r) is Ok && plan_spec(t, r)->Ok_0.changed == (t.sub_action@ != "status"@),
        t.action@ == "scale"@ ==> plan_probe_spec(t) == Ok::<ProbeView, ErrorView>(ProbeView::Nothing),
        t.action@ == "scale"@ && !(r is Failed) ==> plan_spec(t, r) is Ok && plan_spec(t, r)->Ok_0.changed == (true),
        t.action@ == "wait"@ ==> plan_probe_spec(t) == Ok::<ProbeView, ErrorView>(ProbeView::Nothing),
        t.action@ == "wait"@ && !(r is Failed) ==> plan_spec(t, r) is Ok && plan_spec(t, r)->Ok_0.changed == (false),
        t.action@ == "exec"@ ==> plan_probe_spec(t) == Ok::<ProbeView, ErrorView>(ProbeView::Nothing),
        t.action@ == "exec"@ && !(r is Failed) ==> plan_spec(t, r) is Ok && plan_spec(t, r)->Ok_0.changed == (true),
        t.action@ == "get"@ ==> plan_probe_spec(t) == Ok::<ProbeView, ErrorView>(ProbeView::Nothing),
        t.action@ == "get"@ && !(r is Failed) ==> plan_spec(t, r) is Ok && plan_spec(t, r)->Ok_0.changed == (false),
{
    reveal_strlit("apply");
    assert("apply"@ =~= seq!['a', 'p', 'p', 'l', 'y']);
    reveal_strlit("delete");
    assert("delete"@ =~= seq!['d', 'e', 'l', 'e', 't', 'e']);
    reveal_strlit("rollout");
    assert("rollout"@ =~= seq!['r', 'o', 'l', 'l', 'o', 'u', 't']);
    reveal_strlit("scale");
    assert("scale"@ =~= seq!['s', 'c', 'a', 'l', 'e']);
    reveal_strlit("wait");
    assert("wait"@ =~= seq!['w', 'a', 'i', 't']);
    reveal_strlit("exec");
    assert("exec"@ =~= seq!['e', 'x', 'e', 'c']);
    reveal_strlit("get");
    assert("get"@ =~= seq!['g', 'e', 't']);
}

/// What a report says: it succeeds exactly when the command did; it marks
/// a change exactly when a command that changes the cluster succeeded (all
/// but wait, get and a rollout status); it shows the command's trimmed
/// output, `ok` when there is none, or `failed:` with the trimmed error.
pub proof fn k8s_reports_what_the_command_did(t: &K8sTask, out: &ExecOutput)
    ensures
        report_spec(t, out) == (ReportView {
            module: "k8s"@,
            action: t.action@,
            success: out.success,
            changed: out.success && t.action@ != "wait"@ && t.action@ != "get"@ && !(t.action@ == "rollout"@
                && t.sub_action@ == "status"@),
            message: if !out.success {
                "k8s"@ + " "@ + t.action@ + " — failed: "@ + trimmed(out.stderr@)
            } else if trimmed(out.stdout@).len() == 0 {
                "k8s"@ + " "@ + t.action@ + " — ok"@
            } else {
                trimmed(out.stdout@)
            },
        }),
{
}

} // verus!
