//! Raw nftables rules: apply_ruleset, add_rule, delete_rule, flush, list.

use vstd::prelude::*;
use crate::command::{lit, Command, PieceView};
use crate::task::{
    failed_message, failed_text, make_plan, make_report, ok_message, ok_text, requires_error,
    requires_failure, rview, unknown_action, unknown_action_error, ErrorView, ExecOutput,
    ModuleError, Plan, PlanView, Probe, ProbeView, Reply, Report, ReportView,
};
use crate::text::{concat2, concat4, same_text, trimmed};

verus! {

/// The nftables module.
#[derive(Debug)]
pub struct NftablesModule;

/// The parameters of an nftables task, as the driver read them.
#[derive(Debug)]
pub struct NftablesTask {
    pub action: String,
    pub src: String,
    /// `table` where it defaults to `filter` (`add_rule`, `delete_rule`).
    pub table: String,
    /// `table` where it has no default (`flush`: empty flushes everything).
    pub flush_table: String,
    pub chain: String,
    pub rule: String,
    pub handle: String,
}

impl NftablesTask {
    /// A task of the given action with every parameter at its default: what
    /// the driver starts from before it reads the parameters the task sets.
    pub fn defaults(action: &str) -> (t: NftablesTask)
        ensures
            t.action@ == action@,
            t.src@ == ""@,
            t.table@ == "filter"@,
            t.flush_table@ == ""@,
            t.chain@ == "input"@,
            t.rule@ == ""@,
            t.handle@ == ""@,
    {
        NftablesTask {
            action: action.to_owned(),
            src: "".to_owned(),
            table: "filter".to_owned(),
            flush_table: "".to_owned(),
            chain: "input".to_owned(),
            rule: "".to_owned(),
            handle: "".to_owned(),
        }
    }
}

/// The actions of the module, in the order it lists them.
pub open spec fn nftables_actions() -> Seq<Seq<char>> {
    seq!["apply_ruleset"@, "add_rule"@, "delete_rule"@, "flush"@, "list"@]
}

pub open spec fn known(a: Seq<char>) -> bool {
    a == "apply_ruleset"@ || a == "add_rule"@ || a == "delete_rule"@ || a == "flush"@ || a
        == "list"@
}

/// Planning never asks the node anything.
pub open spec fn plan_probe_spec(t: &NftablesTask) -> Result<ProbeView, ErrorView> {
    if known(t.action@) {
        Ok(ProbeView::Nothing)
    } else {
        Err(unknown_action("nftables"@, t.action@))
    }
}

pub open spec fn plan_of(t: &NftablesTask, description: Seq<char>) -> PlanView {
    PlanView {
        module: "nftables"@,
        action: t.action@,
        changed: t.action@ != "list"@,
        description,
    }
}

/// The plan: every action but `list` changes the ruleset.
pub open spec fn plan_spec(t: &NftablesTask, r: &Reply) -> Result<PlanView, ErrorView> {
    let a = t.action@;
    if a == "apply_ruleset"@ {
        Ok(plan_of(t, "apply nftables ruleset from "@ + t.src@))
    } else if a == "add_rule"@ {
        Ok(plan_of(t, "add rule to "@ + t.table@ + "/"@ + t.chain@ + ": "@ + t.rule@))
    } else if a == "delete_rule"@ {
        Ok(plan_of(t, "delete rule from "@ + t.table@ + "/"@ + t.chain@))
    } else if a == "flush"@ {
        if t.flush_table@.len() == 0 {
            Ok(plan_of(t, "flush all nftables rules"@))
        } else {
            Ok(plan_of(t, "flush nftables table "@ + t.flush_table@))
        }
    } else if a == "list"@ {
        Ok(plan_of(t, "list nftables ruleset"@))
    } else {
        Err(unknown_action("nftables"@, a))
    }
}

/// The `nft` command line, which takes the parameters as they stand.
pub open spec fn nft_line(t: &NftablesTask) -> Seq<char> {
    let a = t.action@;
    if a == "apply_ruleset"@ {
        "nft -f "@ + t.src@
    } else if a == "add_rule"@ {
        "nft add rule "@ + t.table@ + " "@ + t.chain@ + " "@ + t.rule@
    } else if a == "delete_rule"@ {
        "nft delete rule "@ + t.table@ + " "@ + t.chain@ + " handle "@ + t.handle@
    } else if a == "flush"@ {
        if t.flush_table@.len() == 0 {
            "nft flush ruleset"@
        } else {
            "nft flush table "@ + t.flush_table@
        }
    } else {
        "nft list ruleset"@
    }
}

pub open spec fn apply_command_spec(t: &NftablesTask) -> Result<Seq<PieceView>, ErrorView> {
    if !known(t.action@) {
        Err(unknown_action("nftables"@, t.action@))
    } else if t.action@ == "apply_ruleset"@ && t.src@.len() == 0 {
        Err(requires_error("nftables"@, "apply_ruleset"@, "'src' parameter"@))
    } else {
        Ok(seq![lit(nft_line(t))])
    }
}

/// On success the whole ruleset for `list`, the ok message otherwise; the
/// trimmed error output on failure.
pub open spec fn report_spec(t: &NftablesTask, out: &ExecOutput) -> ReportView {
    let a = t.action@;
    ReportView {
        module: "nftables"@,
        action: a,
        success: out.success,
        changed: out.success && a != "list"@,
        message: if out.success {
            if a == "list"@ {
                out.stdout@
            } else {
                ok_message("nftables"@, a)
            }
        } else {
            failed_message("nftables"@, a, out.stderr@)
        },
    }
}

/// Rules are not compared: checking never asks the node anything.
pub open spec fn check_probe_spec(t: &NftablesTask) -> ProbeView {
    ProbeView::Nothing
}

/// Rules are not compared: a task is never found already applied.
pub open spec fn check_spec(t: &NftablesTask, r: &Reply) -> Result<bool, ErrorView> {
    Ok(false)
}

fn is_known(a: &str) -> (b: bool)
    ensures
        b == known(a@),
{
    same_text(a, "apply_ruleset") || same_text(a, "add_rule") || same_text(a, "delete_rule")
        || same_text(a, "flush") || same_text(a, "list")
}

impl NftablesModule {
    pub fn name(&self) -> (r: &'static str)
        ensures
            r@ == "nftables"@,
    {
        "nftables"
    }

    pub fn actions(&self) -> (r: &'static [&'static str])
        ensures
            r@.map_values(|s: &str| s@) == nftables_actions(),
    {
        let r: &'static [&'static str] = &["apply_ruleset", "add_rule", "delete_rule", "flush", "list"];
        assert(r@.map_values(|s: &str| s@) =~= nftables_actions());
        r
    }

    /// What the plan of a task needs to know first: nothing.
    pub fn plan_probe(&self, t: &NftablesTask) -> (r: Result<Probe, ModuleError>)
        ensures
            rview(r) == plan_probe_spec(t),
    {
        if is_known(t.action.as_str()) {
            Ok(Probe::Nothing)
        } else {
            Err(unknown_action_error("nftables", t.action.as_str()))
        }
    }

    /// The plan of a task.
    pub fn plan(&self, t: &NftablesTask, r: &Reply) -> (p: Result<Plan, ModuleError>)
        ensures
            rview(p) == plan_spec(t, r),
    {
        let a = t.action.as_str();
        let changed = !same_text(a, "list");
        let d = if same_text(a, "apply_ruleset") {
            concat2("apply nftables ruleset from ", t.src.as_str())
        } else if same_text(a, "add_rule") {
            let mut d = concat4("add rule to ", t.table.as_str(), "/", t.chain.as_str());
            d.append(": ");
            d.append(t.rule.as_str());
            d
        } else if same_text(a, "delete_rule") {
            concat4("delete rule from ", t.table.as_str(), "/", t.chain.as_str())
        } else if same_text(a, "flush") {
            if t.flush_table.as_str().is_empty() {
                "flush all nftables rules".to_owned()
            } else {
                concat2("flush nftables table ", t.flush_table.as_str())
            }
        } else if same_text(a, "list") {
            "list nftables ruleset".to_owned()
        } else {
            return Err(unknown_action_error("nftables", a));
        };
        Ok(make_plan("nftables", a, changed, d))
    }

    /// The command that applies a task.
    pub fn apply_command(&self, t: &NftablesTask) -> (r: Result<Command, ModuleError>)
        ensures
            rview(r) == apply_command_spec(t),
    {
        let a = t.action.as_str();
        if !is_known(a) {
            return Err(unknown_action_error("nftables", a));
        }
        let line = if same_text(a, "apply_ruleset") {
            if t.src.as_str().is_empty() {
                return Err(requires_failure("nftables", "apply_ruleset", "'src' parameter"));
            }
            concat2("nft -f ", t.src.as_str())
        } else if same_text(a, "add_rule") {
            let mut l = concat4("nft add rule ", t.table.as_str(), " ", t.chain.as_str());
            l.append(" ");
            l.append(t.rule.as_str());
            l
        } else if same_text(a, "delete_rule") {
            let mut l = concat4("nft delete rule ", t.table.as_str(), " ", t.chain.as_str());
            l.append(" handle ");
            l.append(t.handle.as_str());
            l
        } else if same_text(a, "flush") {
            if t.flush_table.as_str().is_empty() {
                "nft flush ruleset".to_owned()
            } else {
                concat2("nft flush table ", t.flush_table.as_str())
            }
        } else {
            "nft list ruleset".to_owned()
        };
        let mut c = Command::new();
        c.lit(line.as_str());
        assert(c@ =~= seq![lit(nft_line(t))]);
        Ok(c)
    }

    /// What applying a task did, given the output of its command.
    pub fn apply_report(&self, t: &NftablesTask, out: &ExecOutput) -> (r: Report)
        ensures
            r@ == report_spec(t, out),
    {
        let a = t.action.as_str();
        let list = same_text(a, "list");
        let message = if out.success {
            if list {
                out.stdout.clone()
            } else {
                ok_text("nftables", a)
            }
        } else {
            failed_text("nftables", a, out.stderr.as_str())
        };
        make_report("nftables", a, out.success, out.success && !list, message)
    }

    /// What checking a task needs to know: nothing.
    pub fn check_probe(&self, t: &NftablesTask) -> (p: Probe)
        ensures
            p@ == check_probe_spec(t),
    {
        Probe::Nothing
    }

    /// Whether the ruleset already is as the task asks: never assumed, so
    /// every task is applied.
    pub fn check(&self, t: &NftablesTask, r: &Reply) -> (b: Result<bool, ModuleError>)
        ensures
            rview(b) == check_spec(t, r),
    {
        Ok(false)
    }
}


/// The actions that the module lists are exactly the actions that its plan,
/// its probes and its commands accept; any other action is refused as unknown.
pub proof fn nftables_accepts_listed_actions(t: &NftablesTask, r: &Reply)
    ensures
        nftables_actions().contains(t.action@) ==> plan_probe_spec(t) != Err::<ProbeView, ErrorView>(
            unknown_action("nftables"@, t.action@),
        ) && plan_spec(t, r) != Err::<PlanView, ErrorView>(unknown_action("nftables"@, t.action@))
            && apply_command_spec(t) != Err::<Seq<PieceView>, ErrorView>(unknown_action("nftables"@, t.action@)),
        !nftables_actions().contains(t.action@) ==> plan_probe_spec(t) == Err::<ProbeView, ErrorView>(
            unknown_action("nftables"@, t.action@),
        ) && plan_spec(t, r) == Err::<PlanView, ErrorView>(unknown_action("nftables"@, t.action@))
            && apply_command_spec(t) == Err::<Seq<PieceView>, ErrorView>(unknown_action("nftables"@, t.action@)),
{
    let s = nftables_actions();
    assert(s[0] == "apply_ruleset"@ && s[1] == "add_rule"@ && s[2] == "delete_rule"@ && s[3] == "flush"@ && s[4] == "list"@);
    if s.contains(t.action@) {
        let i = choose|i: int| 0 <= i < s.len() && s[i] == t.action@;
        assert(t.action@ == s[i]);
    }
}

/// Planning and checking a task ask the node the same question, and when it
/// is answered, checking finds the node as the task asks exactly when the
/// plan would change nothing.
pub proof fn nftables_check_agrees_with_plan(t: &NftablesTask, r: &Reply)
    requires
        nftables_actions().contains(t.action@),
        !(r is Failed),
        t.action@ != "list"@,
    ensures
        plan_probe_spec(t) == Ok::<ProbeView, ErrorView>(check_probe_spec(t)),
        plan_spec(t, r) is Ok,
        check_spec(t, r) == Ok::<bool, ErrorView>(!plan_spec(t, r)->Ok_0.changed),
{
    reveal_strlit("apply_ruleset");
    assert("apply_ruleset"@ =~= seq!['a', 'p', 'p', 'l', 'y', '_', 'r', 'u', 'l', 'e', 's', 'e', 't']);
    reveal_strlit("add_rule");
    assert("add_rule"@ =~= seq!['a', 'd', 'd', '_', 'r', 'u', 'l', 'e']);
    reveal_strlit("delete_rule");
    assert("delete_rule"@ =~= seq!['d', 'e', 'l', 'e', 't', 'e', '_', 'r', 'u', 'l', 'e']);
    reveal_strlit("flush");
    assert("flush"@ =~= seq!['f', 'l', 'u', 's', 'h']);
    reveal_strlit("list");
    assert("list"@ =~= seq!['l', 'i', 's', 't']);
    nftables_accepts_listed_actions(t, r);
}

/// A report marks a change only when the command succeeded, and its success
/// is that of the command.
pub proof fn nftables_report_change_needs_success(t: &NftablesTask, out: &ExecOutput)
    ensures
        report_spec(t, out).success == out.success,
        report_spec(t, out).changed ==> report_spec(t, out).success,
{
}

/// What each action runs: the ruleset file, table, chain, rule and handle
/// of the task reach the `nft` command line as written; `flush` flushes the
/// named table, or the whole ruleset when no table is named.
pub proof fn nftables_commands_carry_their_parameters(t: &NftablesTask)
    ensures
        t.action@ == "apply_ruleset"@ ==> (t.src@.len() == 0 <==> apply_command_spec(t) is Err),
        t.action@ == "apply_ruleset"@ && t.src@.len() > 0 ==> apply_command_spec(t) == Ok::<Seq<PieceView>, ErrorView>(
            seq![lit("nft -f "@ + t.src@)],
        ),
        t.action@ == "add_rule"@ ==> apply_command_spec(t) == Ok::<Seq<PieceView>, ErrorView>(
            seq![lit("nft add rule "@ + t.table@ + " "@ + t.chain@ + " "@ + t.rule@)],
        ),
        t.action@ == "delete_rule"@ ==> apply_command_spec(t) == Ok::<Seq<PieceView>, ErrorView>(
            seq![lit("nft delete rule "@ + t.table@ + " "@ + t.chain@ + " handle "@ + t.handle@)],
        ),
        t.action@ == "flush"@ ==> apply_command_spec(t) == Ok::<Seq<PieceView>, ErrorView>(
            seq![lit(if t.flush_table@.len() == 0 { "nft flush ruleset"@ } else { "nft flush table "@ + t.flush_table@ })],
        ),
        t.action@ == "list"@ ==> apply_command_spec(t) == Ok::<Seq<PieceView>, ErrorView>(
            seq![lit("nft list ruleset"@)],
        ),
{
    reveal_strlit("apply_ruleset");
    assert("apply_ruleset"@ =~= seq!['a', 'p', 'p', 'l', 'y', '_', 'r', 'u', 'l', 'e', 's', 'e', 't']);
    reveal_strlit("add_rule");
    assert("add_rule"@ =~= seq!['a', 'd', 'd', '_', 'r', 'u', 'l', 'e']);
    reveal_strlit("delete_rule");
    assert("delete_rule"@ =~= seq!['d', 'e', 'l', 'e', 't', 'e', '_', 'r', 'u', 'l', 'e']);
    reveal_strlit("flush");
    assert("flush"@ =~= seq!['f', 'l', 'u', 's', 'h']);
    reveal_strlit("list");
    assert("list"@ =~= seq!['l', 'i', 's', 't']);
}

/// A plan asks the node nothing, and changes the ruleset for every action
/// but list.
pub proof fn nftables_plans_change_but_list(t: &NftablesTask, r: &Reply)
    ensures
        t.action@ == "apply_ruleset"@ ==> plan_probe_spec(t) == Ok::<ProbeView, ErrorView>(ProbeView::Nothing),
        t.action@ == "apply_ruleset"@ && !(r is Failed) ==> plan_spec(t, r) is Ok && plan_spec(t, r)->Ok_0.changed == (true),
        t.action@ == "add_rule"@ ==> plan_probe_spec(t) == Ok::<ProbeView, ErrorView>(ProbeView::Nothing),
        t.action@ == "add_rule"@ && !(r is Failed) ==> plan_spec(t, r) is Ok && plan_spec(t, r)->Ok_0.changed == (true),
        t.action@ == "delete_rule"@ ==> plan_probe_spec(t) == Ok::<ProbeView, ErrorView>(ProbeView::Nothing),
        t.action@ == "delete_rule"@ && !(r is Failed) ==> plan_spec(t, r) is Ok && plan_spec(t, r)->Ok_0.changed == (true),
        t.action@ == "flush"@ ==> plan_probe_spec(t) == Ok::<ProbeView, ErrorView>(ProbeView::Nothing),
        t.action@ == "flush"@ && !(r is Failed) ==> plan_spec(t, r) is Ok && plan_spec(t, r)->Ok_0.changed == (true),
        t.action@ == "list"@ ==> plan_probe_spec(t) == Ok::<ProbeView, ErrorView>(ProbeView::Nothing),
        t.action@ == "list"@ && !(r is Failed) ==> plan_spec(t, r) is Ok && plan_spec(t, r)->Ok_0.changed == (false),
{
    reveal_strlit("apply_ruleset");
    assert("apply_ruleset"@ =~= seq!['a', 'p', 'p', 'l', 'y', '_', 'r', 'u', 'l', 'e', 's', 'e', 't']);
    reveal_strlit("add_rule");
    assert("add_rule"@ =~= seq!['a', 'd', 'd', '_', 'r', 'u', 'l', 'e']);
    reveal_strlit("delete_rule");
    assert("delete_rule"@ =~= seq!['d', 'e', 'l', 'e', 't', 'e', '_', 'r', 'u', 'l', 'e']);
    reveal_strlit("flush");
    assert("flush"@ =~= seq!['f', 'l', 'u', 's', 'h']);
    reveal_strlit("list");
    assert("list"@ =~= seq!['l', 'i', 's', 't']);
}

/// What a report says: it succeeds exactly when nft did and marks a change
/// exactly when an action other than list succeeded; list hands back the
/// ruleset, the other actions say `ok`, and a failure says `failed:` with
/// the trimmed error.
pub proof fn nftables_reports_what_the_command_did(t: &NftablesTask, out: &ExecOutput)
    ensures
        report_spec(t, out) == (ReportView {
            module: "nftables"@,
            action: t.action@,
            success: out.success,
            changed: out.success && t.action@ != "list"@,
            message: if !out.success {
                "nftables"@ + " "@ + t.action@ + " — failed: "@ + trimmed(out.stderr@)
            } else if t.action@ == "list"@ {
                out.stdout@
            } else {
                "nftables"@ + " "@ + t.action@ + " — ok"@
            },
        }),
{
}

} // verus!
