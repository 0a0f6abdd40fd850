//! Cron jobs, marked in the crontab by `# sutra:<name>`: present, absent, and
//! the listing of a user's crontab.

use vstd::prelude::*;
use crate::command::{Command, PieceView, lemma_same_literals_concat, lit, quote, same_literals};
use crate::task::{
    checked, checked_exec, make_plan, make_report, probed, probed_exec, reply_is_yes, reply_yes,
    requires_error, requires_failure, rview, unknown_action, unknown_action_error, usual_message,
    usual_text, ErrorView, ExecOutput, ModuleError, Plan, PlanView, Probe, ProbeView, Reply, Report,
    ReportView,
};
use crate::text::{concat2, concat3, concat4, same_text, trim, trimmed};

verus! {

/// The cron module.
#[derive(Debug)]
pub struct CronModule;

/// The parameters of a cron task, as the driver read them.
#[derive(Debug)]
pub struct CronTask {
    pub action: String,
    /// The job's name (`name`).
    pub name: String,
    pub user: String,
    pub schedule: String,
    pub cmd: String,
}

impl CronTask {
    /// A task of the given action with every parameter at its default: what
    /// the driver starts from before it reads the parameters the task sets.
    pub fn defaults(action: &str) -> (t: CronTask)
        ensures
            t.action@ == action@,
            t.name@ == ""@,
            t.user@ == "root"@,
            t.schedule@ == ""@,
            t.cmd@ == ""@,
    {
        CronTask {
            action: action.to_owned(),
            name: "".to_owned(),
            user: "root".to_owned(),
            schedule: "".to_owned(),
            cmd: "".to_owned(),
        }
    }
}

/// The actions of the module, in the order it lists them.
pub open spec fn cron_actions() -> Seq<Seq<char>> {
    seq!["present"@, "absent"@, "add"@, "remove"@, "list"@, "enable"@, "disable"@]
}

/// The comment that marks the job's line.
pub open spec fn job_marker(t: &CronTask) -> Seq<char> {
    "# sutra:"@ + t.name@
}

/// The probe that tells whether the user's crontab holds the job.
pub open spec fn job_probe(t: &CronTask) -> ProbeView {
    ProbeView::Shell(
        seq![
            lit("crontab -l -u "@),
            quote(t.user@),
            lit(" 2>/dev/null | grep -qF "@),
            quote(job_marker(t)),
        ],
    )
}

/// The action that `a` names: the module also takes `add` for `present`, `enable` for `present`, `remove` for `absent`, `disable` for `absent`.
pub open spec fn canonical(a: Seq<char>) -> Seq<char> {
    if a == "add"@ {
        "present"@
    } else if a == "enable"@ {
        "present"@
    } else if a == "remove"@ {
        "absent"@
    } else if a == "disable"@ {
        "absent"@
    } else {
        a
    }
}

fn canonical_exec(a: &str) -> (c: &str)
    ensures
        c@ == canonical(a@),
{
    if same_text(a, "add") {
        "present"
    } else if same_text(a, "enable") {
        "present"
    } else if same_text(a, "remove") {
        "absent"
    } else if same_text(a, "disable") {
        "absent"
    } else {
        a
    }
}

pub open spec fn plan_probe_spec(t: &CronTask) -> Result<ProbeView, ErrorView> {
    let a = canonical(t.action@);
    if a == "present"@ || a == "absent"@ {
        Ok(job_probe(t))
    } else if a == "list"@ {
        Ok(ProbeView::Nothing)
    } else {
        Err(unknown_action("cron"@, a))
    }
}

pub open spec fn plan_of(t: &CronTask, changed: bool, description: Seq<char>) -> PlanView {
    PlanView { module: "cron"@, action: t.action@, changed, description }
}

pub open spec fn plan_spec(t: &CronTask, r: &Reply) -> Result<PlanView, ErrorView> {
    let a = canonical(t.action@);
    let name = t.name@;
    if a == "present"@ {
        probed(
            r,
            reply_yes(r),
            plan_of(t, false, "cron job '"@ + name + "' already present"@),
            plan_of(t, true, "add cron job '"@ + name + "' ("@ + t.schedule@ + ")"@),
        )
    } else if a == "absent"@ {
        probed(
            r,
            reply_yes(r),
            plan_of(t, true, "remove cron job '"@ + name + "'"@),
            plan_of(t, false, "cron job '"@ + name + "' already absent"@),
        )
    } else if a == "list"@ {
        Ok(plan_of(t, false, "list crontab of "@ + t.user@))
    } else {
        Err(unknown_action("cron"@, a))
    }
}

/// The crontab line of the job: schedule, command, marker.
pub open spec fn cron_line(t: &CronTask) -> Seq<char> {
    t.schedule@ + " "@ + t.cmd@ + " "@ + job_marker(t)
}

/// The user's crontab without the job's line, as a pipeline.
pub open spec fn without_job(t: &CronTask) -> Seq<PieceView> {
    seq![
        lit("crontab -l -u "@),
        quote(t.user@),
        lit(" 2>/dev/null | grep -vF "@),
        quote(job_marker(t)),
    ]
}

pub open spec fn apply_command_spec(t: &CronTask) -> Result<Seq<PieceView>, ErrorView> {
    let a = canonical(t.action@);
    if a == "present"@ {
        if t.schedule@.len() == 0 || t.cmd@.len() == 0 {
            Err(requires_error("cron"@, "present"@, "'schedule' and 'cmd' parameters"@))
        } else {
            Ok(
                seq![lit("("@)] + without_job(t) + seq![
                    lit("; echo "@),
                    quote(cron_line(t)),
                    lit(") | crontab -u "@),
                    quote(t.user@),
                    lit(" -"@),
                ],
            )
        }
    } else if a == "absent"@ {
        Ok(without_job(t) + seq![lit(" | crontab -u "@), quote(t.user@), lit(" -"@)])
    } else if a == "list"@ {
        Ok(seq![lit("crontab -l -u "@), quote(t.user@)])
    } else {
        Err(unknown_action("cron"@, a))
    }
}

pub open spec fn report_message(t: &CronTask, out: &ExecOutput) -> Seq<char> {
    let a = canonical(t.action@);
    if a == "present"@ {
        if out.success {
            "cron job '"@ + t.name@ + "' added"@
        } else {
            "failed to add cron job: "@ + trimmed(out.stderr@)
        }
    } else if a == "absent"@ {
        if out.success {
            "cron job '"@ + t.name@ + "' removed"@
        } else {
            "failed to remove cron job: "@ + trimmed(out.stderr@)
        }
    } else {
        usual_message("cron"@, t.action@, out)
    }
}

pub open spec fn report_spec(t: &CronTask, out: &ExecOutput) -> ReportView {
    ReportView {
        module: "cron"@,
        action: t.action@,
        success: out.success,
        changed: out.success && t.action@ != "list"@,
        message: report_message(t, out),
    }
}

pub open spec fn check_probe_spec(t: &CronTask) -> ProbeView {
    let a = canonical(t.action@);
    if a == "present"@ || a == "absent"@ {
        job_probe(t)
    } else {
        ProbeView::Nothing
    }
}

pub open spec fn check_spec(t: &CronTask, r: &Reply) -> Result<bool, ErrorView> {
    let a = canonical(t.action@);
    if a == "present"@ {
        checked(r, reply_yes(r))
    } else if a == "absent"@ {
        checked(r, !reply_yes(r))
    } else {
        Ok(false)
    }
}

fn marker_exec(t: &CronTask) -> (m: String)
    ensures
        m@ == job_marker(t),
{
    concat2("# sutra:", t.name.as_str())
}

fn job_probe_exec(t: &CronTask) -> (p: Probe)
    ensures
        p@ == job_probe(t),
{
    let marker = marker_exec(t);
    let mut c = Command::new();
    c.lit("crontab -l -u ");
    c.quote(t.user.as_str());
    c.lit(" 2>/dev/null | grep -qF ");
    c.quote(marker.as_str());
    assert(c@ =~= seq![
        lit("crontab -l -u "@),
        quote(t.user@),
        lit(" 2>/dev/null | grep -qF "@),
        quote(job_marker(t)),
    ]);
    Probe::Shell(c)
}

fn push_without_job(c: &mut Command, t: &CronTask)
    ensures
        final(c)@ == old(c)@ + without_job(t),
{
    let marker = marker_exec(t);
    c.lit("crontab -l -u ");
    c.quote(t.user.as_str());
    c.lit(" 2>/dev/null | grep -vF ");
    c.quote(marker.as_str());
    assert(c@ =~= old(c)@ + without_job(t));
}

impl CronModule {
    pub fn name(&self) -> (r: &'static str)
        ensures
            r@ == "cron"@,
    {
        "cron"
    }

    pub fn actions(&self) -> (r: &'static [&'static str])
        ensures
            r@.map_values(|s: &str| s@) == cron_actions(),
    {
        let r: &'static [&'static str] = &["present", "absent", "add", "remove", "list", "enable", "disable"];
        assert(r@.map_values(|s: &str| s@) =~= cron_actions());
        r
    }

    /// What the plan of a task needs to know about the node first.
    pub fn plan_probe(&self, t: &CronTask) -> (r: Result<Probe, ModuleError>)
        ensures
            rview(r) == plan_probe_spec(t),
    {
        let a = canonical_exec(t.action.as_str());
        if same_text(a, "present") || same_text(a, "absent") {
            Ok(job_probe_exec(t))
        } else if same_text(a, "list") {
            Ok(Probe::Nothing)
        } else {
            Err(unknown_action_error("cron", a))
        }
    }

    /// The plan of a task, given the reply to its probe.
    pub fn plan(&self, t: &CronTask, r: &Reply) -> (p: Result<Plan, ModuleError>)
        ensures
            rview(p) == plan_spec(t, r),
    {
        let a = canonical_exec(t.action.as_str());
        let name = t.name.as_str();
        if same_text(a, "present") {
            let mut add = concat4("add cron job '", name, "' (", t.schedule.as_str());
            add.append(")");
            probed_exec(
                r,
                reply_is_yes(r),
                make_plan("cron", t.action.as_str(), false, concat3("cron job '", name, "' already present")),
                make_plan("cron", t.action.as_str(), true, add),
            )
        } else if same_text(a, "absent") {
            probed_exec(
                r,
                reply_is_yes(r),
                make_plan("cron", t.action.as_str(), true, concat3("remove cron job '", name, "'")),
                make_plan("cron", t.action.as_str(), false, concat3("cron job '", name, "' already absent")),
            )
        } else if same_text(a, "list") {
            Ok(make_plan("cron", t.action.as_str(), false, concat2("list crontab of ", t.user.as_str())))
        } else {
            Err(unknown_action_error("cron", a))
        }
    }

    /// The command that applies a task.
    pub fn apply_command(&self, t: &CronTask) -> (r: Result<Command, ModuleError>)
        ensures
            rview(r) == apply_command_spec(t),
    {
        let a = canonical_exec(t.action.as_str());
        if same_text(a, "present") {
            if t.schedule.as_str().is_empty() || t.cmd.as_str().is_empty() {
                return Err(
                    requires_failure("cron", "present", "'schedule' and 'cmd' parameters"),
                );
            }
            let marker = marker_exec(t);
            let mut line = concat4(t.schedule.as_str(), " ", t.cmd.as_str(), " ");
            line.append(marker.as_str());
            let mut c = Command::new();
            c.lit("(");
            push_without_job(&mut c, t);
            c.lit("; echo ");
            c.quote(line.as_str());
            c.lit(") | crontab -u ");
            c.quote(t.user.as_str());
            c.lit(" -");
            assert(c@ =~= seq![lit("("@)] + without_job(t) + seq![
                lit("; echo "@),
                quote(cron_line(t)),
                lit(") | crontab -u "@),
                quote(t.user@),
                lit(" -"@),
            ]);
            Ok(c)
        } else if same_text(a, "absent") {
            let mut c = Command::new();
            push_without_job(&mut c, t);
            c.lit(" | crontab -u ");
            c.quote(t.user.as_str());
            c.lit(" -");
            assert(c@ =~= without_job(t) + seq![lit(" | crontab -u "@), quote(t.user@), lit(" -"@)]);
            Ok(c)
        } else if same_text(a, "list") {
            let mut c = Command::new();
            c.lit("crontab -l -u ");
            c.quote(t.user.as_str());
            assert(c@ =~= seq![lit("crontab -l -u "@), quote(t.user@)]);
            Ok(c)
        } else {
            Err(unknown_action_error("cron", a))
        }
    }

    /// What applying a task did, given the output of its command.
    pub fn apply_report(&self, t: &CronTask, out: &ExecOutput) -> (r: Report)
        ensures
            r@ == report_spec(t, out),
    {
        let a = canonical_exec(t.action.as_str());
        let name = t.name.as_str();
        let message = if same_text(a, "present") {
            if out.success {
                concat3("cron job '", name, "' added")
            } else {
                concat2("failed to add cron job: ", trim(out.stderr.as_str()))
            }
        } else if same_text(a, "absent") {
            if out.success {
                concat3("cron job '", name, "' removed")
            } else {
                concat2("failed to remove cron job: ", trim(out.stderr.as_str()))
            }
        } else {
            usual_text("cron", t.action.as_str(), out)
        };
        make_report("cron", t.action.as_str(), out.success, out.success && !same_text(t.action.as_str(), "list"), message)
    }

    /// What checking a task needs to know about the node.
    pub fn check_probe(&self, t: &CronTask) -> (p: Probe)
        ensures
            p@ == check_probe_spec(t),
    {
        let a = canonical_exec(t.action.as_str());
        if same_text(a, "present") || same_text(a, "absent") {
            job_probe_exec(t)
        } else {
            Probe::Nothing
        }
    }

    /// Whether the node already is as the task asks, given the probe's reply.
    pub fn check(&self, t: &CronTask, r: &Reply) -> (b: Result<bool, ModuleError>)
        ensures
            rview(b) == check_spec(t, r),
    {
        let a = canonical_exec(t.action.as_str());
        if same_text(a, "present") {
            checked_exec(r, reply_is_yes(r))
        } else if same_text(a, "absent") {
            checked_exec(r, !reply_is_yes(r))
        } else {
            Ok(false)
        }
    }
}


/// The actions that the module lists are exactly the actions that its plan,
/// its probes and its commands accept; any other action is refused as unknown.
pub proof fn cron_accepts_listed_actions(t: &CronTask, r: &Reply)
    ensures
        cron_actions().contains(t.action@) ==> plan_probe_spec(t) != Err::<ProbeView, ErrorView>(
            unknown_action("cron"@, t.action@),
        ) && plan_spec(t, r) != Err::<PlanView, ErrorView>(unknown_action("cron"@, t.action@))
            && apply_command_spec(t) != Err::<Seq<PieceView>, ErrorView>(unknown_action("cron"@, t.action@)),
        !cron_actions().contains(t.action@) ==> plan_probe_spec(t) == Err::<ProbeView, ErrorView>(
            unknown_action("cron"@, t.action@),
        ) && plan_spec(t, r) == Err::<PlanView, ErrorView>(unknown_action("cron"@, t.action@))
            && apply_command_spec(t) == Err::<Seq<PieceView>, ErrorView>(unknown_action("cron"@, t.action@)),
{
    let s = cron_actions();
    assert(s[0] == "present"@ && s[1] == "absent"@ && s[2] == "add"@ && s[3] == "remove"@
        && s[4] == "list"@ && s[5] == "enable"@ && s[6] == "disable"@);
    if s.contains(t.action@) {
        let i = choose|i: int| 0 <= i < s.len() && s[i] == t.action@;
        assert(t.action@ == s[i]);
    }
}

/// Planning and checking a task ask the node the same question, and when it
/// is answered, checking finds the node as the task asks exactly when the
/// plan would change nothing.
pub proof fn cron_check_agrees_with_plan(t: &CronTask, r: &Reply)
    requires
        cron_actions().contains(t.action@),
        t.action@ != "list"@,
        !(r is Failed),
    ensures
        plan_probe_spec(t) == Ok::<ProbeView, ErrorView>(check_probe_spec(t)),
        plan_spec(t, r) is Ok,
        check_spec(t, r) == Ok::<bool, ErrorView>(!plan_spec(t, r)->Ok_0.changed),
{
    reveal_strlit("present");
    assert("present"@ =~= seq!['p', 'r', 'e', 's', 'e', 'n', 't']);
    reveal_strlit("absent");
    assert("absent"@ =~= seq!['a', 'b', 's', 'e', 'n', 't']);
    reveal_strlit("add");
    assert("add"@ =~= seq!['a', 'd', 'd']);
    reveal_strlit("remove");
    assert("remove"@ =~= seq!['r', 'e', 'm', 'o', 'v', 'e']);
    reveal_strlit("list");
    assert("list"@ =~= seq!['l', 'i', 's', 't']);
    reveal_strlit("enable");
    assert("enable"@ =~= seq!['e', 'n', 'a', 'b', 'l', 'e']);
    reveal_strlit("disable");
    assert("disable"@ =~= seq!['d', 'i', 's', 'a', 'b', 'l', 'e']);
    cron_accepts_listed_actions(t, r);
}

/// A report marks a change only when the command succeeded, and its success
/// is that of the command.
pub proof fn cron_report_change_needs_success(t: &CronTask, out: &ExecOutput)
    ensures
        report_spec(t, out).success == out.success,
        report_spec(t, out).changed ==> report_spec(t, out).success,
{
}

/// Whether two tasks differ at most in the values of their parameters:
/// same action, same switches, and the same parameters left empty.
pub open spec fn same_shape(t1: &CronTask, t2: &CronTask) -> bool {
    &&& t1.action@ == t2.action@
    &&& (t1.schedule@.len() == 0) == (t2.schedule@.len() == 0)
    &&& (t1.cmd@.len() == 0) == (t2.cmd@.len() == 0)
}

/// Parameter values reach the shell only as values to quote: the literal
/// text of a task's command depends on its action, its switches and which
/// parameters are set, never on what they hold.
pub proof fn cron_values_only_quoted(t1: &CronTask, t2: &CronTask)
    requires
        same_shape(t1, t2),
    ensures
        apply_command_spec(t1) is Ok <==> apply_command_spec(t2) is Ok,
        apply_command_spec(t1) is Ok ==> same_literals(
            apply_command_spec(t1)->Ok_0,
            apply_command_spec(t2)->Ok_0,
        ),
{
    if canonical(t1.action@) == "present"@ && t1.schedule@.len() > 0 && t1.cmd@.len() > 0 {
        assert(same_literals(seq![lit("("@)], seq![lit("("@)]));
        assert(same_literals(without_job(t1), without_job(t2)));
        assert(same_literals(seq![lit("; echo "@), quote(cron_line(t1)), lit(") | crontab -u "@), quote(t1.user@), lit(" -"@)], seq![lit("; echo "@), quote(cron_line(t2)), lit(") | crontab -u "@), quote(t2.user@), lit(" -"@)]));
        lemma_same_literals_concat(seq![lit("("@)], seq![lit("("@)], without_job(t1), without_job(t2));
        lemma_same_literals_concat(seq![lit("("@)] + without_job(t1), seq![lit("("@)] + without_job(t2), seq![lit("; echo "@), quote(cron_line(t1)), lit(") | crontab -u "@), quote(t1.user@), lit(" -"@)], seq![lit("; echo "@), quote(cron_line(t2)), lit(") | crontab -u "@), quote(t2.user@), lit(" -"@)]);
    } else if canonical(t1.action@) == "absent"@ {
        assert(same_literals(without_job(t1), without_job(t2)));
        assert(same_literals(seq![lit(" | crontab -u "@), quote(t1.user@), lit(" -"@)], seq![lit(" | crontab -u "@), quote(t2.user@), lit(" -"@)]));
        lemma_same_literals_concat(without_job(t1), without_job(t2), seq![lit(" | crontab -u "@), quote(t1.user@), lit(" -"@)], seq![lit(" | crontab -u "@), quote(t2.user@), lit(" -"@)]);
    }
}

/// Removing a job rewrites the user's crontab as it was, less exactly the
/// lines that carry the job's marker (`grep -vF`, an inverted match of the
/// fixed string `# sutra:<name>`); adding one keeps the same filtered crontab
/// and appends the job's line after it.
pub proof fn cron_removal_keeps_other_jobs(t: &CronTask)
    ensures
        canonical(t.action@) == "absent"@ ==> apply_command_spec(t) == Ok::<Seq<PieceView>, ErrorView>(
            seq![
                lit("crontab -l -u "@),
                quote(t.user@),
                lit(" 2>/dev/null | grep -vF "@),
                quote("# sutra:"@ + t.name@),
                lit(" | crontab -u "@),
                quote(t.user@),
                lit(" -"@),
            ],
        ),
        canonical(t.action@) == "present"@ && t.schedule@.len() > 0 && t.cmd@.len() > 0
            ==> apply_command_spec(t) is Ok && apply_command_spec(t)->Ok_0.subrange(0, 5) == seq![
            lit("("@),
            lit("crontab -l -u "@),
            quote(t.user@),
            lit(" 2>/dev/null | grep -vF "@),
            quote("# sutra:"@ + t.name@),
        ] && apply_command_spec(t)->Ok_0.subrange(5, 10) == seq![
            lit("; echo "@),
            quote(t.schedule@ + " "@ + t.cmd@ + " "@ + "# sutra:"@ + t.name@),
            lit(") | crontab -u "@),
            quote(t.user@),
            lit(" -"@),
        ] && apply_command_spec(t)->Ok_0.len() == 10,
        canonical(t.action@) == "present"@ ==> (t.schedule@.len() == 0 || t.cmd@.len() == 0
            <==> apply_command_spec(t) is Err),
        t.action@ == "list"@ ==> apply_command_spec(t) == Ok::<Seq<PieceView>, ErrorView>(
            seq![lit("crontab -l -u "@), quote(t.user@)],
        ),
{
    reveal_strlit("absent");
    reveal_strlit("present");
    reveal_strlit("list");
    reveal_strlit("add");
    reveal_strlit("remove");
    reveal_strlit("enable");
    reveal_strlit("disable");
    assert("list"@ =~= seq!['l', 'i', 's', 't']);
    assert("add"@ =~= seq!['a', 'd', 'd']);
    assert("remove"@ =~= seq!['r', 'e', 'm', 'o', 'v', 'e']);
    assert("enable"@ =~= seq!['e', 'n', 'a', 'b', 'l', 'e']);
    assert("disable"@ =~= seq!['d', 'i', 's', 'a', 'b', 'l', 'e']);
    assert("absent"@ =~= seq!['a', 'b', 's', 'e', 'n', 't']);
    assert("present"@ =~= seq!['p', 'r', 'e', 's', 'e', 'n', 't']);
    assert("absent"@.len() != "present"@.len());
    if canonical(t.action@) == "present"@ && t.schedule@.len() > 0 && t.cmd@.len() > 0 {
        let c = apply_command_spec(t)->Ok_0;
        assert(c.subrange(0, 5) =~= seq![
            lit("("@),
            lit("crontab -l -u "@),
            quote(t.user@),
            lit(" 2>/dev/null | grep -vF "@),
            quote("# sutra:"@ + t.name@),
        ]);
        assert(t.schedule@ + " "@ + t.cmd@ + " "@ + "# sutra:"@ + t.name@ =~= cron_line(t));
        assert(c.subrange(5, 10) =~= seq![
            lit("; echo "@),
            quote(t.schedule@ + " "@ + t.cmd@ + " "@ + "# sutra:"@ + t.name@),
            lit(") | crontab -u "@),
            quote(t.user@),
            lit(" -"@),
        ]);
    }
    if canonical(t.action@) == "absent"@ {
        assert(apply_command_spec(t)->Ok_0 =~= seq![
            lit("crontab -l -u "@),
            quote(t.user@),
            lit(" 2>/dev/null | grep -vF "@),
            quote("# sutra:"@ + t.name@),
            lit(" | crontab -u "@),
            quote(t.user@),
            lit(" -"@),
        ]);
    }
}

/// What a plan asks the node and when it plans a change: a job is added
/// only when the user's crontab has no line with its marker, and removed
/// only when it has one; listing changes nothing.
pub proof fn cron_plans_follow_the_crontab(t: &CronTask, r: &Reply)
    ensures
        t.action@ == "present"@ ==> plan_probe_spec(t) == Ok::<ProbeView, ErrorView>(ProbeView::Shell(seq![lit("crontab -l -u "@), quote(t.user@), lit(" 2>/dev/null | grep -qF "@), quote("# sutra:"@ + t.name@)])),
        t.action@ == "present"@ && !(r is Failed) ==> plan_spec(t, r) is Ok && plan_spec(t, r)->Ok_0.changed == (!(match r { Reply::Output(o) => o.success, Reply::Exists(b) => *b, _ => false })),
        t.action@ == "add"@ ==> plan_probe_spec(t) == Ok::<ProbeView, ErrorView>(ProbeView::Shell(seq![lit("crontab -l -u "@), quote(t.user@), lit(" 2>/dev/null | grep -qF "@), quote("# sutra:"@ + t.name@)])),
        t.action@ == "add"@ && !(r is Failed) ==> plan_spec(t, r) is Ok && plan_spec(t, r)->Ok_0.changed == (!(match r { Reply::Output(o) => o.success, Reply::Exists(b) => *b, _ => false })),
        t.action@ == "enable"@ ==> plan_probe_spec(t) == Ok::<ProbeView, ErrorView>(ProbeView::Shell(seq![lit("crontab -l -u "@), quote(t.user@), lit(" 2>/dev/null | grep -qF "@), quote("# sutra:"@ + t.name@)])),
        t.action@ == "enable"@ && !(r is Failed) ==> plan_spec(t, r) is Ok && plan_spec(t, r)->Ok_0.changed == (!(match r { Reply::Output(o) => o.success, Reply::Exists(b) => *b, _ => false })),
        t.action@ == "absent"@ ==> plan_probe_spec(t) == Ok::<ProbeView, ErrorView>(ProbeView::Shell(seq![lit("crontab -l -u "@), quote(t.user@), lit(" 2>/dev/null | grep -qF "@), quote("# sutra:"@ + t.name@)])),
        t.action@ == "absent"@ && !(r is Failed) ==> plan_spec(t, r) is Ok && plan_spec(t, r)->Ok_0.changed == ((match r { Reply::Output(o) => o.success, Reply::Exists(b) => *b, _ => false })),
        t.action@ == "remove"@ ==> plan_probe_spec(t) == Ok::<ProbeView, ErrorView>(ProbeView::Shell(seq![lit("crontab -l -u "@), quote(t.user@), lit(" 2>/dev/null | grep -qF "@), quote("# sutra:"@ + t.name@)])),
        t.action@ == "remove"@ && !(r is Failed) ==> plan_spec(t, r) is Ok && plan_spec(t, r)->Ok_0.changed == ((match r { Reply::Output(o) => o.success, Reply::Exists(b) => *b, _ => false })),
        t.action@ == "disable"@ ==> plan_probe_spec(t) == Ok::<ProbeView, ErrorView>(ProbeView::Shell(seq![lit("crontab -l -u "@), quote(t.user@), lit(" 2>/dev/null | grep -qF "@), quote("# sutra:"@ + t.name@)])),
        t.action@ == "disable"@ && !(r is Failed) ==> plan_spec(t, r) is Ok && plan_spec(t, r)->Ok_0.changed == ((match r { Reply::Output(o) => o.success, Reply::Exists(b) => *b, _ => false })),
        t.action@ == "list"@ ==> plan_probe_spec(t) == Ok::<ProbeView, ErrorView>(ProbeView::Nothing),
        t.action@ == "list"@ && !(r is Failed) ==> plan_spec(t, r) is Ok && plan_spec(t, r)->Ok_0.changed == (false),
{
    reveal_strlit("present");
    assert("present"@ =~= seq!['p', 'r', 'e', 's', 'e', 'n', 't']);
    reveal_strlit("absent");
    assert("absent"@ =~= seq!['a', 'b', 's', 'e', 'n', 't']);
    reveal_strlit("add");
    assert("add"@ =~= seq!['a', 'd', 'd']);
    reveal_strlit("remove");
    assert("remove"@ =~= seq!['r', 'e', 'm', 'o', 'v', 'e']);
    reveal_strlit("list");
    assert("list"@ =~= seq!['l', 'i', 's', 't']);
    reveal_strlit("enable");
    assert("enable"@ =~= seq!['e', 'n', 'a', 'b', 'l', 'e']);
    reveal_strlit("disable");
    assert("disable"@ =~= seq!['d', 'i', 's', 'a', 'b', 'l', 'e']);
}

/// What a report says: it succeeds exactly when the crontab update did and
/// marks a change exactly when a change succeeded; it names the job that was
/// added or removed, or the trimmed error of a failed update.
pub proof fn cron_reports_what_the_command_did(t: &CronTask, out: &ExecOutput)
    ensures
        report_spec(t, out) == (ReportView {
            module: "cron"@,
            action: t.action@,
            success: out.success,
            changed: out.success && t.action@ != "list"@,
            message: (if t.action@ == "present"@ || t.action@ == "add"@ || t.action@ == "enable"@ {
                if out.success {
                    "cron job '"@ + t.name@ + "' added"@
                } else {
                    "failed to add cron job: "@ + trimmed(out.stderr@)
                }
            } else if t.action@ == "absent"@ || t.action@ == "remove"@ || t.action@ == "disable"@ {
                if out.success {
                    "cron job '"@ + t.name@ + "' removed"@
                } else {
                    "failed to remove cron job: "@ + trimmed(out.stderr@)
                }
            } else if out.success {
                "cron"@ + " "@ + t.action@ + " — ok"@
            } else {
                "cron"@ + " "@ + t.action@ + " — failed: "@ + trimmed(out.stderr@)
            }),
        }),
{
    reveal_strlit("present");
    assert("present"@ =~= seq!['p', 'r', 'e', 's', 'e', 'n', 't']);
    reveal_strlit("absent");
    assert("absent"@ =~= seq!['a', 'b', 's', 'e', 'n', 't']);
    reveal_strlit("add");
    assert("add"@ =~= seq!['a', 'd', 'd']);
    reveal_strlit("remove");
    assert("remove"@ =~= seq!['r', 'e', 'm', 'o', 'v', 'e']);
    reveal_strlit("list");
    assert("list"@ =~= seq!['l', 'i', 's', 't']);
    reveal_strlit("enable");
    assert("enable"@ =~= seq!['e', 'n', 'a', 'b', 'l', 'e']);
    reveal_strlit("disable");
    assert("disable"@ =~= seq!['d', 'i', 's', 'a', 'b', 'l', 'e']);
}

} // verus!
