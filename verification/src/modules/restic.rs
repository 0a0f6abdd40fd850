//! Restic backups: init, backup, forget, check, snapshots, restore.

use vstd::prelude::*;
use crate::command::{
    lemma_same_literals_concat, lit, provided, quote, same_literals, Command, PieceView,
};
use crate::task::{
    checked, checked_exec, make_plan, make_report, probed, probed_exec, reply_is_yes, reply_yes,
    requires_error, requires_failure, rview, unknown_action, unknown_action_error, usual_message,
    usual_text, ErrorView, ExecOutput, ModuleError, Plan, PlanView, Probe, ProbeView, Reply, Report,
    ReportView,
};
use crate::text::{concat2, concat3, decimal, decimal_string, same_text, split_words, trimmed, words};

verus! {

/// The restic module.
#[derive(Debug)]
pub struct ResticModule;

/// The parameters of a restic task, as the driver read them.
#[derive(Debug)]
pub struct ResticTask {
    pub action: String,
    pub repo: String,
    pub password_file: String,
    /// Whitespace-separated paths to back up.
    pub paths: String,
    pub keep_daily: i64,
    pub keep_weekly: i64,
    pub keep_monthly: i64,
    /// Where `restore` puts the latest snapshot.
    pub target: String,
}

impl ResticTask {
    /// A task of the given action with every parameter at its default: what
    /// the driver starts from before it reads the parameters the task sets.
    pub fn defaults(action: &str) -> (t: ResticTask)
        ensures
            t.action@ == action@,
            t.repo@ == ""@,
            t.password_file@ == ""@,
            t.paths@ == ""@,
            t.keep_daily == 7,
            t.keep_weekly == 4,
            t.keep_monthly == 12,
            t.target@ == ""@,
    {
        ResticTask {
            action: action.to_owned(),
            repo: "".to_owned(),
            password_file: "".to_owned(),
            paths: "".to_owned(),
            keep_daily: 7,
            keep_weekly: 4,
            keep_monthly: 12,
            target: "".to_owned(),
        }
    }
}

/// The actions of the module, in the order it lists them.
pub open spec fn restic_actions() -> Seq<Seq<char>> {
    seq!["init"@, "backup"@, "forget"@, "check"@, "snapshots"@, "restore"@]
}

/// The environment assignments that name the repository and password file,
/// where they are set, each followed by a space.
pub open spec fn env_prefix(t: &ResticTask) -> Seq<PieceView> {
    provided(
        t.repo@.len() > 0,
        seq![lit("RESTIC_REPOSITORY="@), quote(t.repo@), lit(" "@)],
    ) + provided(
        t.password_file@.len() > 0,
        seq![lit("RESTIC_PASSWORD_FILE="@), quote(t.password_file@), lit(" "@)],
    )
}

/// `<env>restic <rest>`.
pub open spec fn restic(t: &ResticTask, rest: Seq<char>) -> Seq<PieceView> {
    env_prefix(t) + seq![lit("restic "@ + rest)]
}

/// The probe that tells whether the repository is initialized.
pub open spec fn repo_probe(t: &ResticTask) -> ProbeView {
    ProbeView::Shell(restic(t, "snapshots --no-lock 2>/dev/null"@))
}

/// The refusal of a restore with no target.
pub open spec fn target_required() -> ErrorView {
    requires_error("restic"@, "restore"@, "'target' parameter"@)
}

/// `restic restore latest --target <target>`.
pub open spec fn restore_command(t: &ResticTask) -> Seq<PieceView> {
    restic(t, "restore latest --target"@) + seq![lit(" "@), quote(t.target@)]
}

pub open spec fn plan_probe_spec(t: &ResticTask) -> Result<ProbeView, ErrorView> {
    let a = t.action@;
    if a == "init"@ {
        Ok(repo_probe(t))
    } else if a == "backup"@ || a == "forget"@ || a == "check"@ || a == "snapshots"@ {
        Ok(ProbeView::Nothing)
    } else if a == "restore"@ {
        if t.target@.len() == 0 {
            Err(target_required())
        } else {
            Ok(ProbeView::Nothing)
        }
    } else {
        Err(unknown_action("restic"@, a))
    }
}

pub open spec fn plan_of(t: &ResticTask, changed: bool, description: Seq<char>) -> PlanView {
    PlanView { module: "restic"@, action: t.action@, changed, description }
}

pub open spec fn plan_spec(t: &ResticTask, r: &Reply) -> Result<PlanView, ErrorView> {
    let a = t.action@;
    if a == "init"@ {
        probed(
            r,
            reply_yes(r),
            plan_of(t, false, "repository '"@ + t.repo@ + "' already initialized"@),
            plan_of(t, true, "initialize repository '"@ + t.repo@ + "'"@),
        )
    } else if a == "backup"@ {
        Ok(plan_of(t, true, "backup paths: "@ + t.paths@))
    } else if a == "forget"@ {
        Ok(
            plan_of(
                t,
                true,
                "prune snapshots (daily:"@ + decimal(t.keep_daily as int) + ", weekly:"@ + decimal(
                    t.keep_weekly as int,
                ) + ", monthly:"@ + decimal(t.keep_monthly as int) + ")"@,
            ),
        )
    } else if a == "check"@ {
        Ok(plan_of(t, true, "verify repository integrity"@))
    } else if a == "snapshots"@ {
        Ok(plan_of(t, false, "list snapshots"@))
    } else if a == "restore"@ {
        if t.target@.len() == 0 {
            Err(target_required())
        } else {
            Ok(plan_of(t, true, "restore latest snapshot to "@ + t.target@))
        }
    } else {
        Err(unknown_action("restic"@, a))
    }
}

/// Each path, quoted, after a space.
pub open spec fn path_args(paths: Seq<Seq<char>>) -> Seq<PieceView>
    decreases paths.len(),
{
    if paths.len() == 0 {
        Seq::empty()
    } else {
        path_args(paths.drop_last()) + seq![lit(" "@), quote(paths.last())]
    }
}

pub open spec fn apply_command_spec(t: &ResticTask) -> Result<Seq<PieceView>, ErrorView> {
    let a = t.action@;
    if a == "init"@ {
        Ok(restic(t, "init"@))
    } else if a == "backup"@ {
        if t.paths@.len() == 0 {
            Err(requires_error("restic"@, "backup"@, "'paths' parameter"@))
        } else {
            Ok(restic(t, "backup"@) + path_args(words(t.paths@)))
        }
    } else if a == "forget"@ {
        Ok(
            restic(
                t,
                "forget --prune --keep-daily "@ + decimal(t.keep_daily as int) + " --keep-weekly "@
                    + decimal(t.keep_weekly as int) + " --keep-monthly "@ + decimal(
                    t.keep_monthly as int,
                ),
            ),
        )
    } else if a == "check"@ {
        Ok(restic(t, "check"@))
    } else if a == "snapshots"@ {
        Ok(restic(t, "snapshots"@))
    } else if a == "restore"@ {
        if t.target@.len() == 0 {
            Err(target_required())
        } else {
            Ok(restore_command(t))
        }
    } else {
        Err(unknown_action("restic"@, a))
    }
}

pub open spec fn report_spec(t: &ResticTask, out: &ExecOutput) -> ReportView {
    ReportView {
        module: "restic"@,
        action: t.action@,
        success: out.success,
        changed: out.success && t.action@ != "snapshots"@,
        message: usual_message("restic"@, t.action@, out),
    }
}

pub open spec fn check_probe_spec(t: &ResticTask) -> ProbeView {
    let a = t.action@;
    if a == "init"@ {
        repo_probe(t)
    } else if a == "check"@ {
        ProbeView::Shell(restic(t, "check"@))
    } else {
        ProbeView::Nothing
    }
}

pub open spec fn check_spec(t: &ResticTask, r: &Reply) -> Result<bool, ErrorView> {
    let a = t.action@;
    if a == "init"@ || a == "check"@ {
        checked(r, reply_yes(r))
    } else {
        Ok(false)
    }
}

fn restic_exec(t: &ResticTask, rest: &str) -> (c: Command)
    ensures
        c@ == restic(t, rest@),
{
    let mut c = Command::new();
    if !t.repo.as_str().is_empty() {
        c.lit("RESTIC_REPOSITORY=");
        c.quote(t.repo.as_str());
        c.lit(" ");
    }
    if !t.password_file.as_str().is_empty() {
        c.lit("RESTIC_PASSWORD_FILE=");
        c.quote(t.password_file.as_str());
        c.lit(" ");
    }
    assert(c@ =~= env_prefix(t));
    let tail = concat2("restic ", rest);
    c.lit(tail.as_str());
    c
}

impl ResticModule {
    pub fn name(&self) -> (r: &'static str)
        ensures
            r@ == "restic"@,
    {
        "restic"
    }

    pub fn actions(&self) -> (r: &'static [&'static str])
        ensures
            r@.map_values(|s: &str| s@) == restic_actions(),
    {
        let r: &'static [&'static str] = &["init", "backup", "forget", "check", "snapshots", "restore"];
        assert(r@.map_values(|s: &str| s@) =~= restic_actions());
        r
    }

    /// What the plan of a task needs to know about the repository first.
    pub fn plan_probe(&self, t: &ResticTask) -> (r: Result<Probe, ModuleError>)
        ensures
            rview(r) == plan_probe_spec(t),
    {
        let a = t.action.as_str();
        if same_text(a, "init") {
            Ok(Probe::Shell(restic_exec(t, "snapshots --no-lock 2>/dev/null")))
        } else if same_text(a, "backup") || same_text(a, "forget") || same_text(a, "check")
            || same_text(a, "snapshots") {
            Ok(Probe::Nothing)
        } else if same_text(a, "restore") {
            if t.target.as_str().is_empty() {
                Err(requires_failure("restic", "restore", "'target' parameter"))
            } else {
                Ok(Probe::Nothing)
            }
        } else {
            Err(unknown_action_error("restic", a))
        }
    }

    /// The plan of a task, given the reply to its probe.
    pub fn plan(&self, t: &ResticTask, r: &Reply) -> (p: Result<Plan, ModuleError>)
        ensures
            rview(p) == plan_spec(t, r),
    {
        let a = t.action.as_str();
        if same_text(a, "init") {
            let repo = t.repo.as_str();
            probed_exec(
                r,
                reply_is_yes(r),
                make_plan("restic", a, false, concat3("repository '", repo, "' already initialized")),
                make_plan("restic", a, true, concat3("initialize repository '", repo, "'")),
            )
        } else if same_text(a, "backup") {
            Ok(make_plan("restic", a, true, concat2("backup paths: ", t.paths.as_str())))
        } else if same_text(a, "forget") {
            let d = decimal_string(t.keep_daily);
            let w = decimal_string(t.keep_weekly);
            let m = decimal_string(t.keep_monthly);
            let mut s = concat3("prune snapshots (daily:", d.as_str(), ", weekly:");
            s.append(w.as_str());
            s.append(", monthly:");
            s.append(m.as_str());
            s.append(")");
            Ok(make_plan("restic", a, true, s))
        } else if same_text(a, "check") {
            Ok(make_plan("restic", a, true, "verify repository integrity".to_owned()))
        } else if same_text(a, "snapshots") {
            Ok(make_plan("restic", a, false, "list snapshots".to_owned()))
        } else if same_text(a, "restore") {
            if t.target.as_str().is_empty() {
                Err(requires_failure("restic", "restore", "'target' parameter"))
            } else {
                Ok(make_plan("restic", a, true, concat2("restore latest snapshot to ", t.target.as_str())))
            }
        } else {
            Err(unknown_action_error("restic", a))
        }
    }

    /// The command that applies a task.
    pub fn apply_command(&self, t: &ResticTask) -> (r: Result<Command, ModuleError>)
        ensures
            rview(r) == apply_command_spec(t),
    {
        let a = t.action.as_str();
        if same_text(a, "init") {
            Ok(restic_exec(t, "init"))
        } else if same_text(a, "backup") {
            if t.paths.as_str().is_empty() {
                return Err(requires_failure("restic", "backup", "'paths' parameter"));
            }
            let mut c = restic_exec(t, "backup");
            let ghost head = c@;
            let paths = split_words(t.paths.as_str());
            let ghost ws = paths@.map_values(|w: String| w@);
            let mut i: usize = 0;
            assert(ws.subrange(0, 0) =~= Seq::<Seq<char>>::empty());
            assert(head + path_args(Seq::<Seq<char>>::empty()) =~= head);
            while i < paths.len()
                invariant
                    i <= paths.len(),
                    ws == paths@.map_values(|w: String| w@),
                    c@ == head + path_args(ws.subrange(0, i as int)),
                decreases paths.len() - i,
            {
                c.lit(" ");
                c.quote(paths[i].as_str());
                proof {
                    let prev = ws.subrange(0, i as int);
                    let next = ws.subrange(0, i + 1);
                    assert(next.drop_last() =~= prev);
                    assert(next.last() == paths@[i as int]@);
                    assert(c@ =~= head + path_args(next));
                }
                i = i + 1;
            }
            assert(ws.subrange(0, paths.len() as int) =~= ws);
            Ok(c)
        } else if same_text(a, "forget") {
            let d = decimal_string(t.keep_daily);
            let w = decimal_string(t.keep_weekly);
            let m = decimal_string(t.keep_monthly);
            let mut s = concat2("forget --prune --keep-daily ", d.as_str());
            s.append(" --keep-weekly ");
            s.append(w.as_str());
            s.append(" --keep-monthly ");
            s.append(m.as_str());
            Ok(restic_exec(t, s.as_str()))
        } else if same_text(a, "check") {
            Ok(restic_exec(t, "check"))
        } else if same_text(a, "snapshots") {
            Ok(restic_exec(t, "snapshots"))
        } else if same_text(a, "restore") {
            if t.target.as_str().is_empty() {
                return Err(requires_failure("restic", "restore", "'target' parameter"));
            }
            let mut c = restic_exec(t, "restore latest --target");
            c.lit(" ");
            c.quote(t.target.as_str());
            assert(c@ =~= restore_command(t));
            Ok(c)
        } else {
            Err(unknown_action_error("restic", a))
        }
    }

    /// What applying a task did, given the output of its command.
    pub fn apply_report(&self, t: &ResticTask, out: &ExecOutput) -> (r: Report)
        ensures
            r@ == report_spec(t, out),
    {
        let a = t.action.as_str();
        let changed = out.success && !same_text(a, "snapshots");
        make_report("restic", a, out.success, changed, usual_text("restic", a, out))
    }

    /// What checking a task needs to know about the repository.
    pub fn check_probe(&self, t: &ResticTask) -> (p: Probe)
        ensures
            p@ == check_probe_spec(t),
    {
        let a = t.action.as_str();
        if same_text(a, "init") {
            Probe::Shell(restic_exec(t, "snapshots --no-lock 2>/dev/null"))
        } else if same_text(a, "check") {
            Probe::Shell(restic_exec(t, "check"))
        } else {
            Probe::Nothing
        }
    }

    /// Whether the repository already is as the task asks, given the probe's
    /// reply.
    pub fn check(&self, t: &ResticTask, r: &Reply) -> (b: Result<bool, ModuleError>)
        ensures
            rview(b) == check_spec(t, r),
    {
        let a = t.action.as_str();
        if same_text(a, "init") || same_text(a, "check") {
            checked_exec(r, reply_is_yes(r))
        } else {
            Ok(false)
        }
    }
}


/// The actions that the module lists are exactly the actions that its plan,
/// its probes and its commands accept; any other action is refused as unknown.
pub proof fn restic_accepts_listed_actions(t: &ResticTask, r: &Reply)
    ensures
        restic_actions().contains(t.action@) ==> plan_probe_spec(t) != Err::<ProbeView, ErrorView>(
            unknown_action("restic"@, t.action@),
        ) && plan_spec(t, r) != Err::<PlanView, ErrorView>(unknown_action("restic"@, t.action@))
            && apply_command_spec(t) != Err::<Seq<PieceView>, ErrorView>(unknown_action("restic"@, t.action@)),
        !restic_actions().contains(t.action@) ==> plan_probe_spec(t) == Err::<ProbeView, ErrorView>(
            unknown_action("restic"@, t.action@),
        ) && plan_spec(t, r) == Err::<PlanView, ErrorView>(unknown_action("restic"@, t.action@))
            && apply_command_spec(t) == Err::<Seq<PieceView>, ErrorView>(unknown_action("restic"@, t.action@)),
{
    let s = restic_actions();
    assert(s[0] == "init"@ && s[1] == "backup"@ && s[2] == "forget"@ && s[3] == "check"@ && s[4] == "snapshots"@ && s[5] == "restore"@);
    if s.contains(t.action@) {
        let i = choose|i: int| 0 <= i < s.len() && s[i] == t.action@;
        assert(t.action@ == s[i]);
    }
}

/// Planning and checking a task ask the node the same question, and when it
/// is answered, checking finds the node as the task asks exactly when the
/// plan would change nothing.
pub proof fn restic_check_agrees_with_plan(t: &ResticTask, r: &Reply)
    requires
        restic_actions().contains(t.action@),
        !(r is Failed),
        t.action@ != "check"@,
        t.action@ != "snapshots"@,
        t.action@ == "restore"@ ==> t.target@.len() > 0,
    ensures
        plan_probe_spec(t) == Ok::<ProbeView, ErrorView>(check_probe_spec(t)),
        plan_spec(t, r) is Ok,
        check_spec(t, r) == Ok::<bool, ErrorView>(!plan_spec(t, r)->Ok_0.changed),
{
    reveal_strlit("init");
    assert("init"@ =~= seq!['i', 'n', 'i', 't']);
    reveal_strlit("backup");
    assert("backup"@ =~= seq!['b', 'a', 'c', 'k', 'u', 'p']);
    reveal_strlit("forget");
    assert("forget"@ =~= seq!['f', 'o', 'r', 'g', 'e', 't']);
    reveal_strlit("check");
    assert("check"@ =~= seq!['c', 'h', 'e', 'c', 'k']);
    reveal_strlit("snapshots");
    assert("snapshots"@ =~= seq!['s', 'n', 'a', 'p', 's', 'h', 'o', 't', 's']);
    reveal_strlit("restore");
    assert("restore"@ =~= seq!['r', 'e', 's', 't', 'o', 'r', 'e']);
    restic_accepts_listed_actions(t, r);
}

/// A report marks a change only when the command succeeded, and its success
/// is that of the command.
pub proof fn restic_report_change_needs_success(t: &ResticTask, out: &ExecOutput)
    ensures
        report_spec(t, out).success == out.success,
        report_spec(t, out).changed ==> report_spec(t, out).success,
{
}

/// The arguments of a path list: a space and the quoted path, for each path
/// in order.
proof fn lemma_path_args_shape(p: Seq<Seq<char>>)
    ensures
        path_args(p).len() == 2 * p.len(),
        forall|i: int|
            0 <= i < p.len() ==> path_args(p)[2 * i] == lit(" "@) && path_args(p)[2 * i + 1] == quote(
                #[trigger] p[i],
            ),
    decreases p.len(),
{
    if p.len() > 0 {
        lemma_path_args_shape(p.drop_last());
        let q = p.drop_last();
        assert forall|i: int| 0 <= i < p.len() implies path_args(p)[2 * i] == lit(" "@) && path_args(p)[2 * i + 1]
            == quote(#[trigger] p[i]) by {
            if i < q.len() {
                assert(p[i] == q[i]);
            }
        }
    }
}

/// Path lists of the same length give arguments with the same literal text.
proof fn lemma_path_args_same_literals(p1: Seq<Seq<char>>, p2: Seq<Seq<char>>)
    requires
        p1.len() == p2.len(),
    ensures
        same_literals(path_args(p1), path_args(p2)),
    decreases p1.len(),
{
    if p1.len() > 0 {
        lemma_path_args_same_literals(p1.drop_last(), p2.drop_last());
        assert(same_literals(seq![lit(" "@), quote(p1.last())], seq![lit(" "@), quote(p2.last())]));
        lemma_same_literals_concat(
            path_args(p1.drop_last()),
            path_args(p2.drop_last()),
            seq![lit(" "@), quote(p1.last())],
            seq![lit(" "@), quote(p2.last())],
        );
    }
}

/// Whether two tasks differ at most in the values of their parameters:
/// same action, same switches, and the same parameters left empty.
pub open spec fn same_shape(t1: &ResticTask, t2: &ResticTask) -> bool {
    &&& t1.action@ == t2.action@
    &&& (t1.repo@.len() == 0) == (t2.repo@.len() == 0)
    &&& (t1.password_file@.len() == 0) == (t2.password_file@.len() == 0)
    &&& (t1.paths@.len() == 0) == (t2.paths@.len() == 0)
    &&& words(t1.paths@).len() == words(t2.paths@).len()
    &&& t1.keep_daily == t2.keep_daily
    &&& t1.keep_weekly == t2.keep_weekly
    &&& t1.keep_monthly == t2.keep_monthly
    &&& (t1.target@.len() == 0) == (t2.target@.len() == 0)
}

/// Parameter values reach the shell only as values to quote: the literal
/// text of a task's command depends on its action, which parameters are set,
/// how many paths it backs up and the retention counts, never on what they hold.
pub proof fn restic_values_only_quoted(t1: &ResticTask, t2: &ResticTask)
    requires
        same_shape(t1, t2),
    ensures
        apply_command_spec(t1) is Ok <==> apply_command_spec(t2) is Ok,
        apply_command_spec(t1) is Ok ==> same_literals(
            apply_command_spec(t1)->Ok_0,
            apply_command_spec(t2)->Ok_0,
        ),
{
    assert(same_literals(provided(t1.repo@.len() > 0, seq![lit("RESTIC_REPOSITORY="@), quote(t1.repo@), lit(" "@)]), provided(t2.repo@.len() > 0, seq![lit("RESTIC_REPOSITORY="@), quote(t2.repo@), lit(" "@)])));
    assert(same_literals(provided(t1.password_file@.len() > 0, seq![lit("RESTIC_PASSWORD_FILE="@), quote(t1.password_file@), lit(" "@)]), provided(t2.password_file@.len() > 0, seq![lit("RESTIC_PASSWORD_FILE="@), quote(t2.password_file@), lit(" "@)])));
    lemma_same_literals_concat(provided(t1.repo@.len() > 0, seq![lit("RESTIC_REPOSITORY="@), quote(t1.repo@), lit(" "@)]), provided(t2.repo@.len() > 0, seq![lit("RESTIC_REPOSITORY="@), quote(t2.repo@), lit(" "@)]), provided(t1.password_file@.len() > 0, seq![lit("RESTIC_PASSWORD_FILE="@), quote(t1.password_file@), lit(" "@)]), provided(t2.password_file@.len() > 0, seq![lit("RESTIC_PASSWORD_FILE="@), quote(t2.password_file@), lit(" "@)]));
    assert(same_literals(env_prefix(t1), env_prefix(t2)));
    let a = t1.action@;
    let rest = if a == "init"@ {
        "init"@
    } else if a == "backup"@ {
        "backup"@
    } else if a == "forget"@ {
        "forget --prune --keep-daily "@ + decimal(t1.keep_daily as int) + " --keep-weekly "@
            + decimal(t1.keep_weekly as int) + " --keep-monthly "@ + decimal(t1.keep_monthly as int)
    } else if a == "check"@ {
        "check"@
    } else if a == "restore"@ {
        "restore latest --target"@
    } else {
        "snapshots"@
    };
    assert(same_literals(env_prefix(t1), env_prefix(t2)));
    assert(same_literals(seq![lit("restic "@ + rest)], seq![lit("restic "@ + rest)]));
    lemma_same_literals_concat(env_prefix(t1), env_prefix(t2), seq![lit("restic "@ + rest)], seq![lit("restic "@ + rest)]);
    if a == "restore"@ {
        assert(same_literals(seq![lit(" "@), quote(t1.target@)], seq![lit(" "@), quote(t2.target@)]));
        lemma_same_literals_concat(
            restic(t1, rest),
            restic(t2, rest),
            seq![lit(" "@), quote(t1.target@)],
            seq![lit(" "@), quote(t2.target@)],
        );
    }
    if a == "backup"@ {
        lemma_path_args_same_literals(words(t1.paths@), words(t2.paths@));
        lemma_same_literals_concat(
            restic(t1, "backup"@),
            restic(t2, "backup"@),
            path_args(words(t1.paths@)),
            path_args(words(t2.paths@)),
        );
    }
}

/// Whether a command sets the repository and the password file the task
/// names, as environment assignments in front of the `restic` call: the
/// repository first when there is one, then the password file when there
/// is one, then `restic` itself.
pub open spec fn carries_env(t: &ResticTask, c: Seq<PieceView>) -> bool {
    let k: int = if t.repo@.len() > 0 { 3 } else { 0 };
    let j: int = if t.password_file@.len() > 0 { k + 3 } else { k };
    &&& t.repo@.len() > 0 ==> c.len() > 3 && c[0] == lit("RESTIC_REPOSITORY="@) && c[1] == quote(
        t.repo@,
    ) && c[2] == lit(" "@)
    &&& t.password_file@.len() > 0 ==> c.len() > k + 3 && c[k] == lit("RESTIC_PASSWORD_FILE="@)
        && c[k + 1] == quote(t.password_file@) && c[k + 2] == lit(" "@)
    &&& c.len() > j && c[j] is Lit && c[j]->Lit_0.len() >= 7 && c[j]->Lit_0.subrange(0, 7)
        == "restic "@
}

/// Every command and every probe of a task reaches restic with the task's
/// repository and password file set: with a password file given, restic can
/// open the repository whatever the action.
pub proof fn restic_commands_carry_repository_and_password(t: &ResticTask)
    ensures
        apply_command_spec(t) is Ok ==> carries_env(t, apply_command_spec(t)->Ok_0),
        plan_probe_spec(t) matches Ok(ProbeView::Shell(c)) ==> carries_env(t, c),
        check_probe_spec(t) matches ProbeView::Shell(c) ==> carries_env(t, c),
{
    reveal_strlit("restic ");
    assert forall|rest: Seq<char>, tail: Seq<PieceView>| #[trigger] carries_env(t, restic(t, rest) + tail) by {
        let c = restic(t, rest) + tail;
        let e = env_prefix(t);
        let k: int = if t.repo@.len() > 0 { 3 } else { 0 };
        let j: int = if t.password_file@.len() > 0 { k + 3 } else { k };
        assert(e.len() == j);
        assert(c[j] == lit("restic "@ + rest));
        assert(("restic "@ + rest).subrange(0, 7) =~= "restic "@);
        if t.repo@.len() > 0 {
            assert(c[0] == e[0] && c[1] == e[1] && c[2] == e[2]);
        }
        if t.password_file@.len() > 0 {
            assert(c[k] == e[k] && c[k + 1] == e[k + 1] && c[k + 2] == e[k + 2]);
        }
    }
    assert forall|rest: Seq<char>| #[trigger] carries_env(t, restic(t, rest)) by {
        assert(restic(t, rest) + Seq::<PieceView>::empty() =~= restic(t, rest));
        assert(carries_env(t, restic(t, rest) + Seq::<PieceView>::empty()));
    }
    let a = t.action@;
    if a == "backup"@ && t.paths@.len() > 0 {
        assert(carries_env(t, restic(t, "backup"@) + path_args(words(t.paths@))));
    }
    if a == "restore"@ && t.target@.len() > 0 {
        assert(carries_env(t, restore_command(t)));
    }
    if a == "forget"@ {
        let rest = "forget --prune --keep-daily "@ + decimal(t.keep_daily as int) + " --keep-weekly "@
            + decimal(t.keep_weekly as int) + " --keep-monthly "@ + decimal(t.keep_monthly as int);
        assert(carries_env(t, restic(t, rest)));
    }
}

/// What each action runs: restic with the task's repository and password
/// file in its environment; forget keeps the task's daily, weekly and
/// monthly counts; restore writes to the task's target, and backup takes each
/// whitespace-separated path of the task as one quoted argument, in order.
pub proof fn restic_commands_carry_their_parameters(t: &ResticTask)
    ensures
        t.action@ == "restore"@ ==> (t.target@.len() == 0 <==> apply_command_spec(t) is Err),
        t.action@ == "restore"@ && t.target@.len() > 0 ==> apply_command_spec(t) == Ok::<Seq<PieceView>, ErrorView>(
            ((if t.repo@.len() > 0 { seq![lit("RESTIC_REPOSITORY="@), quote(t.repo@), lit(" "@)] } else { seq![] })
                + (if t.password_file@.len() > 0 { seq![lit("RESTIC_PASSWORD_FILE="@), quote(t.password_file@), lit(" "@)] } else { seq![] })) + seq![lit("restic restore latest --target"@), lit(" "@), quote(t.target@)],
        ),
        t.action@ == "backup"@ ==> (t.paths@.len() == 0 <==> apply_command_spec(t) is Err),
        t.action@ == "init"@ ==> apply_command_spec(t) == Ok::<Seq<PieceView>, ErrorView>(
            ((if t.repo@.len() > 0 { seq![lit("RESTIC_REPOSITORY="@), quote(t.repo@), lit(" "@)] } else { seq![] })
                + (if t.password_file@.len() > 0 { seq![lit("RESTIC_PASSWORD_FILE="@), quote(t.password_file@), lit(" "@)] } else { seq![] })) + seq![lit("restic init"@)],
        ),
        t.action@ == "check"@ ==> apply_command_spec(t) == Ok::<Seq<PieceView>, ErrorView>(
            ((if t.repo@.len() > 0 { seq![lit("RESTIC_REPOSITORY="@), quote(t.repo@), lit(" "@)] } else { seq![] })
                + (if t.password_file@.len() > 0 { seq![lit("RESTIC_PASSWORD_FILE="@), quote(t.password_file@), lit(" "@)] } else { seq![] })) + seq![lit("restic check"@)],
        ),
        t.action@ == "snapshots"@ ==> apply_command_spec(t) == Ok::<Seq<PieceView>, ErrorView>(
            ((if t.repo@.len() > 0 { seq![lit("RESTIC_REPOSITORY="@), quote(t.repo@), lit(" "@)] } else { seq![] })
                + (if t.password_file@.len() > 0 { seq![lit("RESTIC_PASSWORD_FILE="@), quote(t.password_file@), lit(" "@)] } else { seq![] })) + seq![lit("restic snapshots"@)],
        ),
        t.action@ == "forget"@ ==> apply_command_spec(t) == Ok::<Seq<PieceView>, ErrorView>(
            ((if t.repo@.len() > 0 { seq![lit("RESTIC_REPOSITORY="@), quote(t.repo@), lit(" "@)] } else { seq![] })
                + (if t.password_file@.len() > 0 { seq![lit("RESTIC_PASSWORD_FILE="@), quote(t.password_file@), lit(" "@)] } else { seq![] })) + seq![lit("restic forget --prune --keep-daily "@ + decimal(t.keep_daily as int) + " --keep-weekly "@
                + decimal(t.keep_weekly as int) + " --keep-monthly "@ + decimal(t.keep_monthly as int))],
        ),
{
    reveal_strlit("init");
    assert("init"@ =~= seq!['i', 'n', 'i', 't']);
    reveal_strlit("backup");
    assert("backup"@ =~= seq!['b', 'a', 'c', 'k', 'u', 'p']);
    reveal_strlit("forget");
    assert("forget"@ =~= seq!['f', 'o', 'r', 'g', 'e', 't']);
    reveal_strlit("check");
    assert("check"@ =~= seq!['c', 'h', 'e', 'c', 'k']);
    reveal_strlit("snapshots");
    assert("snapshots"@ =~= seq!['s', 'n', 'a', 'p', 's', 'h', 'o', 't', 's']);
    reveal_strlit("restore");
    assert("restore"@ =~= seq!['r', 'e', 's', 't', 'o', 'r', 'e']);
    reveal_strlit("restic ");
    reveal_strlit("restic init");
    reveal_strlit("restic check");
    reveal_strlit("restic snapshots");
    reveal_strlit("restic forget --prune --keep-daily ");
    reveal_strlit("forget --prune --keep-daily ");
    reveal_strlit("restic restore latest --target");
    reveal_strlit("restore latest --target");
    reveal_strlit("restic backup");
    assert("restic "@ + "init"@ =~= "restic init"@);
    assert("restic "@ + "check"@ =~= "restic check"@);
    assert("restic "@ + "snapshots"@ =~= "restic snapshots"@);
    assert("restic "@ + "restore latest --target"@ =~= "restic restore latest --target"@);
    assert(env_prefix(t) =~= ((if t.repo@.len() > 0 { seq![lit("RESTIC_REPOSITORY="@), quote(t.repo@), lit(" "@)] } else { seq![] })
        + (if t.password_file@.len() > 0 { seq![lit("RESTIC_PASSWORD_FILE="@), quote(t.password_file@), lit(" "@)] } else { seq![] })));
    assert(restore_command(t) =~= ((if t.repo@.len() > 0 { seq![lit("RESTIC_REPOSITORY="@), quote(t.repo@), lit(" "@)] } else { seq![] })
        + (if t.password_file@.len() > 0 { seq![lit("RESTIC_PASSWORD_FILE="@), quote(t.password_file@), lit(" "@)] } else { seq![] })) + seq![lit("restic restore latest --target"@), lit(" "@), quote(t.target@)]);
    assert("restic "@ + "backup"@ =~= "restic backup"@);
    let rest = "forget --prune --keep-daily "@ + decimal(t.keep_daily as int) + " --keep-weekly "@
        + decimal(t.keep_weekly as int) + " --keep-monthly "@ + decimal(t.keep_monthly as int);
    assert("restic "@ + rest =~= "restic forget --prune --keep-daily "@ + decimal(t.keep_daily as int)
        + " --keep-weekly "@ + decimal(t.keep_weekly as int) + " --keep-monthly "@ + decimal(t.keep_monthly as int));
}

/// A backup takes each whitespace-separated path of the task as one quoted
/// argument, in the order given, after restic and the task's repository and
/// password file.
pub proof fn restic_backup_quotes_each_path(t: &ResticTask)
    requires
        t.action@ == "backup"@,
        t.paths@.len() > 0,
    ensures
        apply_command_spec(t) is Ok,
        apply_command_spec(t)->Ok_0.len() == ((if t.repo@.len() > 0 { seq![lit("RESTIC_REPOSITORY="@), quote(t.repo@), lit(" "@)] } else { seq![] })
            + (if t.password_file@.len() > 0 { seq![lit("RESTIC_PASSWORD_FILE="@), quote(t.password_file@), lit(" "@)] } else { seq![] })).len() + 1 + 2 * words(t.paths@).len(),
        apply_command_spec(t)->Ok_0.subrange(0, ((if t.repo@.len() > 0 { seq![lit("RESTIC_REPOSITORY="@), quote(t.repo@), lit(" "@)] } else { seq![] })
            + (if t.password_file@.len() > 0 { seq![lit("RESTIC_PASSWORD_FILE="@), quote(t.password_file@), lit(" "@)] } else { seq![] })).len() as int + 1) == ((if t.repo@.len() > 0 { seq![lit("RESTIC_REPOSITORY="@), quote(t.repo@), lit(" "@)] } else { seq![] })
            + (if t.password_file@.len() > 0 { seq![lit("RESTIC_PASSWORD_FILE="@), quote(t.password_file@), lit(" "@)] } else { seq![] })) + seq![lit("restic backup"@)],
        forall|i: int|
            0 <= i < words(t.paths@).len() ==> apply_command_spec(t)->Ok_0[((if t.repo@.len() > 0 { seq![lit("RESTIC_REPOSITORY="@), quote(t.repo@), lit(" "@)] } else { seq![] })
            + (if t.password_file@.len() > 0 { seq![lit("RESTIC_PASSWORD_FILE="@), quote(t.password_file@), lit(" "@)] } else { seq![] })).len() + 1 + 2 * i] == lit(" "@)
                && apply_command_spec(t)->Ok_0[((if t.repo@.len() > 0 { seq![lit("RESTIC_REPOSITORY="@), quote(t.repo@), lit(" "@)] } else { seq![] })
            + (if t.password_file@.len() > 0 { seq![lit("RESTIC_PASSWORD_FILE="@), quote(t.password_file@), lit(" "@)] } else { seq![] })).len() + 2 + 2 * i] == quote(#[trigger] words(t.paths@)[i]),
{
    reveal_strlit("restic ");
    reveal_strlit("backup");
    reveal_strlit("restic backup");
    assert("restic "@ + "backup"@ =~= "restic backup"@);
    reveal_strlit("init");
    assert("init"@ =~= seq!['i', 'n', 'i', 't']);
    assert("backup"@ =~= seq!['b', 'a', 'c', 'k', 'u', 'p']);
        lemma_path_args_shape(words(t.paths@));
        let e = env_prefix(t);
        assert(e =~= ((if t.repo@.len() > 0 { seq![lit("RESTIC_REPOSITORY="@), quote(t.repo@), lit(" "@)] } else { seq![] })
                + (if t.password_file@.len() > 0 { seq![lit("RESTIC_PASSWORD_FILE="@), quote(t.password_file@), lit(" "@)] } else { seq![] })));
        let c = restic(t, "backup"@) + path_args(words(t.paths@));
        assert(apply_command_spec(t)->Ok_0 == c);
        assert forall|i: int| 0 <= i < words(t.paths@).len() implies c[e.len() + 1 + 2 * i] == lit(" "@)
            && c[e.len() + 2 + 2 * i] == quote(#[trigger] words(t.paths@)[i]) by {
            assert(c[e.len() + 1 + 2 * i] == path_args(words(t.paths@))[2 * i]);
            assert(c[e.len() + 2 + 2 * i] == path_args(words(t.paths@))[2 * i + 1]);
        }
        assert(c.subrange(0, e.len() as int + 1) =~= restic(t, "backup"@));
        assert(restic(t, "backup"@) =~= e + seq![lit("restic backup"@)]);
}

/// What a plan asks about the repository and when it plans a change: a
/// repository is initialized only when listing its snapshots fails; listing
/// snapshots changes nothing; the other actions always change.
pub proof fn restic_plans_follow_the_repository(t: &ResticTask, r: &Reply)
    ensures
        t.action@ == "init"@ ==> plan_probe_spec(t) == Ok::<ProbeView, ErrorView>(ProbeView::Shell(((if t.repo@.len() > 0 { seq![lit("RESTIC_REPOSITORY="@), quote(t.repo@), lit(" "@)] } else { seq![] })
            + (if t.password_file@.len() > 0 { seq![lit("RESTIC_PASSWORD_FILE="@), quote(t.password_file@), lit(" "@)] } else { seq![] })) + seq![lit("restic snapshots --no-lock 2>/dev/null"@)])),
        t.action@ == "init"@ && !(r is Failed) ==> plan_spec(t, r) is Ok && plan_spec(t, r)->Ok_0.changed == (!(match r { Reply::Output(o) => o.success, Reply::Exists(b) => *b, _ => false })),
        t.action@ == "backup"@ ==> plan_probe_spec(t) == Ok::<ProbeView, ErrorView>(ProbeView::Nothing),
        t.action@ == "backup"@ && !(r is Failed) ==> plan_spec(t, r) is Ok && plan_spec(t, r)->Ok_0.changed == (true),
        t.action@ == "forget"@ ==> plan_probe_spec(t) == Ok::<ProbeView, ErrorView>(ProbeView::Nothing),
        t.action@ == "forget"@ && !(r is Failed) ==> plan_spec(t, r) is Ok && plan_spec(t, r)->Ok_0.changed == (true),
        t.action@ == "check"@ ==> plan_probe_spec(t) == Ok::<ProbeView, ErrorView>(ProbeView::Nothing),
        t.action@ == "check"@ && !(r is Failed) ==> plan_spec(t, r) is Ok && plan_spec(t, r)->Ok_0.changed == (true),
        t.action@ == "snapshots"@ ==> plan_probe_spec(t) == Ok::<ProbeView, ErrorView>(ProbeView::Nothing),
        t.action@ == "snapshots"@ && !(r is Failed) ==> plan_spec(t, r) is Ok && plan_spec(t, r)->Ok_0.changed == (false),
        t.action@ == "restore"@ && t.target@.len() > 0 ==> plan_probe_spec(t) == Ok::<ProbeView, ErrorView>(ProbeView::Nothing),
        t.action@ == "restore"@ && t.target@.len() > 0 && !(r is Failed) ==> plan_spec(t, r) is Ok && plan_spec(t, r)->Ok_0.changed == (true),
{
    reveal_strlit("init");
    assert("init"@ =~= seq!['i', 'n', 'i', 't']);
    reveal_strlit("backup");
    assert("backup"@ =~= seq!['b', 'a', 'c', 'k', 'u', 'p']);
    reveal_strlit("forget");
    assert("forget"@ =~= seq!['f', 'o', 'r', 'g', 'e', 't']);
    reveal_strlit("check");
    assert("check"@ =~= seq!['c', 'h', 'e', 'c', 'k']);
    reveal_strlit("snapshots");
    assert("snapshots"@ =~= seq!['s', 'n', 'a', 'p', 's', 'h', 'o', 't', 's']);
    reveal_strlit("restore");
    assert("restore"@ =~= seq!['r', 'e', 's', 't', 'o', 'r', 'e']);
    reveal_strlit("restic ");
    reveal_strlit("snapshots --no-lock 2>/dev/null");
    reveal_strlit("restic snapshots --no-lock 2>/dev/null");
    assert("restic "@ + "snapshots --no-lock 2>/dev/null"@ =~= "restic snapshots --no-lock 2>/dev/null"@);
    assert(env_prefix(t) =~= ((if t.repo@.len() > 0 { seq![lit("RESTIC_REPOSITORY="@), quote(t.repo@), lit(" "@)] } else { seq![] })
            + (if t.password_file@.len() > 0 { seq![lit("RESTIC_PASSWORD_FILE="@), quote(t.password_file@), lit(" "@)] } else { seq![] })));
}

/// What a report says: it is the restic module's, for the task's action; it
/// succeeds exactly when the command did, marks a change exactly when a
/// changing action succeeded, and says `ok`, or `failed:` with the command's
/// error output trimmed.
pub proof fn restic_reports_what_the_command_did(t: &ResticTask, out: &ExecOutput)
    ensures
        report_spec(t, out) == (ReportView {
            module: "restic"@,
            action: t.action@,
            success: out.success,
            changed: out.success && t.action@ != "snapshots"@,
            message: if out.success {
                "restic"@ + " "@ + t.action@ + " — ok"@
            } else {
                "restic"@ + " "@ + t.action@ + " — failed: "@ + trimmed(out.stderr@)
            },
        }),
{
}

} // verus!
