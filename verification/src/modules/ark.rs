//! AGNOS packages through ark: install, update, remove, sync, verify, list,
//! pin.

use vstd::prelude::*;
use crate::steps::{
    param_or, param_or_text, required, required_text, run_only, steps_result, DescribedPlan,
    DescribedPlanView, Step, StepView,
};
use crate::task::{unknown_action, unknown_action_error, ErrorView, ModuleError};
use crate::text::{concat2, concat4, same_text};

verus! {

/// The ark module.
#[derive(Debug)]
pub struct ArkModule;

/// The parameters of an ark task: `None` where the task lacks one.
#[derive(Debug)]
pub struct ArkTask {
    pub action: String,
    pub package: Option<String>,
    pub version: Option<String>,
}

/// The actions of the module, in the order it lists them.
pub open spec fn ark_actions() -> Seq<Seq<char>> {
    seq!["install"@, "update"@, "remove"@, "sync"@, "verify"@, "list"@, "pin"@]
}

/// The description of a task, or why it is refused.
pub open spec fn description(t: &ArkTask) -> Result<Seq<char>, ErrorView> {
    let a = t.action@;
    if a == "install"@ {
        match required(t.package, "package"@) {
            Ok(p) => Ok("Install package: "@ + p + " ("@ + param_or(t.version, "latest"@) + ")"@),
            Err(e) => Err(e),
        }
    } else if a == "update"@ {
        Ok("Update package: "@ + param_or(t.package, "all"@))
    } else if a == "remove"@ {
        match required(t.package, "package"@) {
            Ok(p) => Ok("Remove package: "@ + p),
            Err(e) => Err(e),
        }
    } else if a == "sync"@ {
        Ok("Sync package repository metadata"@)
    } else if a == "verify"@ {
        Ok("Verify package integrity: "@ + param_or(t.package, "all"@))
    } else if a == "list"@ {
        Ok("List installed packages"@)
    } else if a == "pin"@ {
        match required(t.package, "package"@) {
            Ok(p) => match required(t.version, "version"@) {
                Ok(v) => Ok("Pin "@ + p + " to version "@ + v),
                Err(e) => Err(e),
            },
            Err(e) => Err(e),
        }
    } else {
        Err(unknown_action("ark"@, a))
    }
}

/// Whether applying the action needs privileges: installing, updating,
/// removing and syncing do.
pub open spec fn privileged(a: Seq<char>) -> bool {
    a == "install"@ || a == "update"@ || a == "remove"@ || a == "sync"@
}

pub open spec fn plan_spec(t: &ArkTask) -> Result<DescribedPlanView, ErrorView> {
    match description(t) {
        Ok(d) => Ok(DescribedPlanView { description: d, needs_privilege: privileged(t.action@) }),
        Err(e) => Err(e),
    }
}

/// The ark command line that applies a task, or why it is refused.
pub open spec fn command_line(t: &ArkTask) -> Result<Seq<char>, ErrorView> {
    let a = t.action@;
    if a == "install"@ {
        match required(t.package, "package"@) {
            Ok(p) => {
                let v = param_or(t.version, "latest"@);
                if v == "latest"@ {
                    Ok("ark install "@ + p)
                } else {
                    Ok("ark install "@ + p + "="@ + v)
                }
            },
            Err(e) => Err(e),
        }
    } else if a == "update"@ {
        let p = param_or(t.package, "all"@);
        if p == "all"@ {
            Ok("ark update"@)
        } else {
            Ok("ark update "@ + p)
        }
    } else if a == "remove"@ {
        match required(t.package, "package"@) {
            Ok(p) => Ok("ark remove "@ + p),
            Err(e) => Err(e),
        }
    } else if a == "sync"@ {
        Ok("ark sync"@)
    } else if a == "verify"@ {
        let p = param_or(t.package, "all"@);
        if p == "all"@ {
            Ok("ark verify --all"@)
        } else {
            Ok("ark verify "@ + p)
        }
    } else if a == "list"@ {
        Ok("ark list --format json"@)
    } else if a == "pin"@ {
        match required(t.package, "package"@) {
            Ok(p) => match required(t.version, "version"@) {
                Ok(v) => Ok("ark pin "@ + p + "="@ + v),
                Err(e) => Err(e),
            },
            Err(e) => Err(e),
        }
    } else {
        Err(unknown_action("ark"@, a))
    }
}

/// Applying a task runs its one command line.
pub open spec fn apply_steps_spec(t: &ArkTask) -> Result<Seq<StepView>, ErrorView> {
    match command_line(t) {
        Ok(c) => Ok(seq![StepView::Run(c)]),
        Err(e) => Err(e),
    }
}

fn description_exec(t: &ArkTask) -> (r: Result<String, ModuleError>)
    ensures
        match r {
            Ok(s) => description(t) == Ok::<Seq<char>, ErrorView>(s@),
            Err(e) => description(t) == Err::<Seq<char>, ErrorView>(e@),
        },
{
    let a = t.action.as_str();
    if same_text(a, "install") {
        let p = required_text(&t.package, "package")?;
        let mut d = concat4("Install package: ", p, " (", param_or_text(&t.version, "latest"));
        d.append(")");
        Ok(d)
    } else if same_text(a, "update") {
        Ok(concat2("Update package: ", param_or_text(&t.package, "all")))
    } else if same_text(a, "remove") {
        let p = required_text(&t.package, "package")?;
        Ok(concat2("Remove package: ", p))
    } else if same_text(a, "sync") {
        Ok("Sync package repository metadata".to_owned())
    } else if same_text(a, "verify") {
        Ok(concat2("Verify package integrity: ", param_or_text(&t.package, "all")))
    } else if same_text(a, "list") {
        Ok("List installed packages".to_owned())
    } else if same_text(a, "pin") {
        let p = required_text(&t.package, "package")?;
        let v = required_text(&t.version, "version")?;
        Ok(concat4("Pin ", p, " to version ", v))
    } else {
        Err(unknown_action_error("ark", a))
    }
}

fn command_line_exec(t: &ArkTask) -> (r: Result<String, ModuleError>)
    ensures
        match r {
            Ok(s) => command_line(t) == Ok::<Seq<char>, ErrorView>(s@),
            Err(e) => command_line(t) == Err::<Seq<char>, ErrorView>(e@),
        },
{
    let a = t.action.as_str();
    if same_text(a, "install") {
        let p = required_text(&t.package, "package")?;
        let v = param_or_text(&t.version, "latest");
        if same_text(v, "latest") {
            Ok(concat2("ark install ", p))
        } else {
            Ok(concat4("ark install ", p, "=", v))
        }
    } else if same_text(a, "update") {
        let p = param_or_text(&t.package, "all");
        if same_text(p, "all") {
            Ok("ark update".to_owned())
        } else {
            Ok(concat2("ark update ", p))
        }
    } else if same_text(a, "remove") {
        let p = required_text(&t.package, "package")?;
        Ok(concat2("ark remove ", p))
    } else if same_text(a, "sync") {
        Ok("ark sync".to_owned())
    } else if same_text(a, "verify") {
        let p = param_or_text(&t.package, "all");
        if same_text(p, "all") {
            Ok("ark verify --all".to_owned())
        } else {
            Ok(concat2("ark verify ", p))
        }
    } else if same_text(a, "list") {
        Ok("ark list --format json".to_owned())
    } else if same_text(a, "pin") {
        let p = required_text(&t.package, "package")?;
        let v = required_text(&t.version, "version")?;
        Ok(concat4("ark pin ", p, "=", v))
    } else {
        Err(unknown_action_error("ark", a))
    }
}

fn is_privileged(a: &str) -> (b: bool)
    ensures
        b == privileged(a@),
{
    same_text(a, "install") || same_text(a, "update") || same_text(a, "remove") || same_text(a, "sync")
}

impl ArkModule {
    pub fn name(&self) -> (r: &'static str)
        ensures
            r@ == "ark"@,
    {
        "ark"
    }

    pub fn actions(&self) -> (r: &'static [&'static str])
        ensures
            r@.map_values(|s: &str| s@) == ark_actions(),
    {
        let r: &'static [&'static str] = &["install", "update", "remove", "sync", "verify", "list", "pin"];
        assert(r@.map_values(|s: &str| s@) =~= ark_actions());
        r
    }

    /// The plan of a task: its description and whether it needs privileges.
    pub fn plan(&self, t: &ArkTask) -> (p: Result<DescribedPlan, ModuleError>)
        ensures
            match p {
                Ok(x) => plan_spec(t) == Ok::<DescribedPlanView, ErrorView>(x@),
                Err(e) => plan_spec(t) == Err::<DescribedPlanView, ErrorView>(e@),
            },
    {
        let description = description_exec(t)?;
        Ok(DescribedPlan { description, needs_privilege: is_privileged(t.action.as_str()) })
    }

    /// The steps that apply a task.
    pub fn apply_steps(&self, t: &ArkTask) -> (r: Result<Vec<Step>, ModuleError>)
        ensures
            steps_result(r) == apply_steps_spec(t),
    {
        let line = command_line_exec(t)?;
        Ok(run_only(line))
    }
}


/// The actions that the module lists are exactly the actions that its plan
/// and its steps accept; any other action is refused as unknown.
pub proof fn ark_accepts_listed_actions(t: &ArkTask)
    ensures
        ark_actions().contains(t.action@) ==> plan_spec(t) != Err::<DescribedPlanView, ErrorView>(
            unknown_action("ark"@, t.action@),
        ) && apply_steps_spec(t) != Err::<Seq<StepView>, ErrorView>(unknown_action("ark"@, t.action@)),
        !ark_actions().contains(t.action@) ==> plan_spec(t) == Err::<DescribedPlanView, ErrorView>(
            unknown_action("ark"@, t.action@),
        ) && apply_steps_spec(t) == Err::<Seq<StepView>, ErrorView>(unknown_action("ark"@, t.action@)),
{
    let s = ark_actions();
    assert(s[0] == "install"@ && s[1] == "update"@ && s[2] == "remove"@ && s[3] == "sync"@ && s[4] == "verify"@ && s[5] == "list"@ && s[6] == "pin"@);
    if s.contains(t.action@) {
        let i = choose|i: int| 0 <= i < s.len() && s[i] == t.action@;
        assert(t.action@ == s[i]);
    }
}

/// Applying a task needs at least what planning it needs: whatever task the
/// steps accept, the plan accepts too.
pub proof fn ark_apply_needs_what_plan_needs(t: &ArkTask)
    ensures
        apply_steps_spec(t) is Ok ==> plan_spec(t) is Ok,
{
}

/// What each action runs: the task's package reaches ark, with its version
/// when one other than `latest` is given; update and verify act on every
/// package unless one other than `all` is named; install, remove and pin
/// refuse a task without a package, and pin one without a version.
pub proof fn ark_steps_carry_their_parameters(t: &ArkTask)
    ensures
        t.action@ == "install"@ ==> apply_steps_spec(t) == match t.package {
            None => Err::<Seq<StepView>, ErrorView>(ErrorView::ParamMissing("package"@)),
            Some(p) => match t.version {
                Some(v) if v@ != "latest"@ => Ok(seq![StepView::Run("ark install "@ + p@ + "="@ + v@)]),
                _ => Ok(seq![StepView::Run("ark install "@ + p@)]),
            },
        },
        t.action@ == "update"@ ==> apply_steps_spec(t) == Ok::<Seq<StepView>, ErrorView>(match t.package {
            Some(p) if p@ != "all"@ => seq![StepView::Run("ark update "@ + p@)],
            _ => seq![StepView::Run("ark update"@)],
        }),
        t.action@ == "remove"@ ==> apply_steps_spec(t) == match t.package {
            None => Err::<Seq<StepView>, ErrorView>(ErrorView::ParamMissing("package"@)),
            Some(p) => Ok(seq![StepView::Run("ark remove "@ + p@)]),
        },
        t.action@ == "sync"@ ==> apply_steps_spec(t) == Ok::<Seq<StepView>, ErrorView>(seq![StepView::Run("ark sync"@)]),
        t.action@ == "verify"@ ==> apply_steps_spec(t) == Ok::<Seq<StepView>, ErrorView>(match t.package {
            Some(p) if p@ != "all"@ => seq![StepView::Run("ark verify "@ + p@)],
            _ => seq![StepView::Run("ark verify --all"@)],
        }),
        t.action@ == "list"@ ==> apply_steps_spec(t) == Ok::<Seq<StepView>, ErrorView>(
            seq![StepView::Run("ark list --format json"@)],
        ),
        t.action@ == "pin"@ ==> apply_steps_spec(t) == match (t.package, t.version) {
            (None, _) => Err::<Seq<StepView>, ErrorView>(ErrorView::ParamMissing("package"@)),
            (Some(_), None) => Err::<Seq<StepView>, ErrorView>(ErrorView::ParamMissing("version"@)),
            (Some(p), Some(v)) => Ok(seq![StepView::Run("ark pin "@ + p@ + "="@ + v@)]),
        },
{
    reveal_strlit("install");
    reveal_strlit("update");
    reveal_strlit("remove");
    reveal_strlit("sync");
    reveal_strlit("verify");
    reveal_strlit("list");
    reveal_strlit("pin");
    assert("install"@ =~= seq!['i', 'n', 's', 't', 'a', 'l', 'l']);
    assert("update"@ =~= seq!['u', 'p', 'd', 'a', 't', 'e']);
    assert("remove"@ =~= seq!['r', 'e', 'm', 'o', 'v', 'e']);
    assert("sync"@ =~= seq!['s', 'y', 'n', 'c']);
    assert("verify"@ =~= seq!['v', 'e', 'r', 'i', 'f', 'y']);
    assert("list"@ =~= seq!['l', 'i', 's', 't']);
    assert("pin"@ =~= seq!['p', 'i', 'n']);
}

/// Which plans need privileges: installing, updating, removing packages and syncing the repository, and nothing else.
pub proof fn ark_privilege_follows_the_action(t: &ArkTask)
    ensures
        t.action@ == "install"@ && plan_spec(t) is Ok ==> plan_spec(t)->Ok_0.needs_privilege == true,
        t.action@ == "update"@ && plan_spec(t) is Ok ==> plan_spec(t)->Ok_0.needs_privilege == true,
        t.action@ == "remove"@ && plan_spec(t) is Ok ==> plan_spec(t)->Ok_0.needs_privilege == true,
        t.action@ == "sync"@ && plan_spec(t) is Ok ==> plan_spec(t)->Ok_0.needs_privilege == true,
        t.action@ == "verify"@ && plan_spec(t) is Ok ==> plan_spec(t)->Ok_0.needs_privilege == false,
        t.action@ == "list"@ && plan_spec(t) is Ok ==> plan_spec(t)->Ok_0.needs_privilege == false,
        t.action@ == "pin"@ && plan_spec(t) is Ok ==> plan_spec(t)->Ok_0.needs_privilege == false,
{
    reveal_strlit("install");
    assert("install"@ =~= seq!['i', 'n', 's', 't', 'a', 'l', 'l']);
    reveal_strlit("update");
    assert("update"@ =~= seq!['u', 'p', 'd', 'a', 't', 'e']);
    reveal_strlit("remove");
    assert("remove"@ =~= seq!['r', 'e', 'm', 'o', 'v', 'e']);
    reveal_strlit("sync");
    assert("sync"@ =~= seq!['s', 'y', 'n', 'c']);
    reveal_strlit("verify");
    assert("verify"@ =~= seq!['v', 'e', 'r', 'i', 'f', 'y']);
    reveal_strlit("list");
    assert("list"@ =~= seq!['l', 'i', 's', 't']);
    reveal_strlit("pin");
    assert("pin"@ =~= seq!['p', 'i', 'n']);
}

} // verus!
