//! Firewall policy through nein: apply_policy, allow_agent, deny_agent,
//! list_policies, container_network, status.

use vstd::prelude::*;
use crate::steps::{
    param_or, param_or_text, required, required_text, run_only, steps_result, DescribedPlan,
    DescribedPlanView, Step, StepView,
};
use crate::task::{unknown_action, unknown_action_error, ErrorView, ModuleError};
use crate::text::{concat2, concat3, concat4, same_text};

verus! {

/// The nein module.
#[derive(Debug)]
pub struct NeinModule;

/// The parameters of a nein task: `None` where the task lacks one.
#[derive(Debug)]
pub struct NeinTask {
    pub action: String,
    pub policy: Option<String>,
    pub agent_id: Option<String>,
    pub port: Option<String>,
    pub protocol: Option<String>,
    pub network: Option<String>,
    pub mode: Option<String>,
    pub subnet: Option<String>,
}

/// The actions of the module, in the order it lists them.
pub open spec fn nein_actions() -> Seq<Seq<char>> {
    seq![
        "apply_policy"@,
        "allow_agent"@,
        "deny_agent"@,
        "list_policies"@,
        "container_network"@,
        "status"@,
    ]
}

/// The description of a task, or why it is refused.
pub open spec fn description(t: &NeinTask) -> Result<Seq<char>, ErrorView> {
    let a = t.action@;
    if a == "apply_policy"@ {
        match required(t.policy, "policy"@) {
            Ok(p) => Ok("Apply nein firewall policy: "@ + p),
            Err(e) => Err(e),
        }
    } else if a == "allow_agent"@ {
        match required(t.agent_id, "agent_id"@) {
            Ok(id) => Ok(
                "Allow agent "@ + id + " network access on port "@ + param_or(t.port, "any"@),
            ),
            Err(e) => Err(e),
        }
    } else if a == "deny_agent"@ {
        match required(t.agent_id, "agent_id"@) {
            Ok(id) => Ok("Deny agent "@ + id + " network access"@),
            Err(e) => Err(e),
        }
    } else if a == "list_policies"@ {
        Ok("List active nein firewall policies"@)
    } else if a == "container_network"@ {
        match required(t.network, "network"@) {
            Ok(n) => Ok(
                "Configure container network '"@ + n + "' in "@ + param_or(t.mode, "bridge"@)
                    + " mode"@,
            ),
            Err(e) => Err(e),
        }
    } else if a == "status"@ {
        Ok("Show nein firewall status"@)
    } else {
        Err(unknown_action("nein"@, a))
    }
}

/// Every action but listing policies and showing the status needs
/// privileges.
pub open spec fn privileged(a: Seq<char>) -> bool {
    a != "list_policies"@ && a != "status"@
}

pub open spec fn plan_spec(t: &NeinTask) -> Result<DescribedPlanView, ErrorView> {
    match description(t) {
        Ok(d) => Ok(DescribedPlanView { description: d, needs_privilege: privileged(t.action@) }),
        Err(e) => Err(e),
    }
}

/// The nein command line that applies a task, or why it is refused.
pub open spec fn command_line(t: &NeinTask) -> Result<Seq<char>, ErrorView> {
    let a = t.action@;
    if a == "apply_policy"@ {
        match required(t.policy, "policy"@) {
            Ok(p) => Ok("nein apply "@ + p),
            Err(e) => Err(e),
        }
    } else if a == "allow_agent"@ {
        match required(t.agent_id, "agent_id"@) {
            Ok(id) => Ok(
                "nein allow --agent "@ + id + " --port "@ + param_or(t.port, "any"@) + " --protocol "@
                    + param_or(t.protocol, "tcp"@),
            ),
            Err(e) => Err(e),
        }
    } else if a == "deny_agent"@ {
        match required(t.agent_id, "agent_id"@) {
            Ok(id) => Ok("nein deny --agent "@ + id),
            Err(e) => Err(e),
        }
    } else if a == "list_policies"@ {
        Ok("nein list --format json"@)
    } else if a == "container_network"@ {
        match required(t.network, "network"@) {
            Ok(n) => Ok(
                "nein container-network --name "@ + n + " --mode "@ + param_or(t.mode, "bridge"@)
                    + " --subnet "@ + param_or(t.subnet, "172.20.0.0/16"@),
            ),
            Err(e) => Err(e),
        }
    } else if a == "status"@ {
        Ok("nein status --format json"@)
    } else {
        Err(unknown_action("nein"@, a))
    }
}

/// Applying a task runs its one command line.
pub open spec fn apply_steps_spec(t: &NeinTask) -> Result<Seq<StepView>, ErrorView> {
    match command_line(t) {
        Ok(c) => Ok(seq![StepView::Run(c)]),
        Err(e) => Err(e),
    }
}

fn description_exec(t: &NeinTask) -> (r: Result<String, ModuleError>)
    ensures
        match r {
            Ok(s) => description(t) == Ok::<Seq<char>, ErrorView>(s@),
            Err(e) => description(t) == Err::<Seq<char>, ErrorView>(e@),
        },
{
    let a = t.action.as_str();
    if same_text(a, "apply_policy") {
        let p = required_text(&t.policy, "policy")?;
        Ok(concat2("Apply nein firewall policy: ", p))
    } else if same_text(a, "allow_agent") {
        let id = required_text(&t.agent_id, "agent_id")?;
        Ok(concat4("Allow agent ", id, " network access on port ", param_or_text(&t.port, "any")))
    } else if same_text(a, "deny_agent") {
        let id = required_text(&t.agent_id, "agent_id")?;
        Ok(concat3("Deny agent ", id, " network access"))
    } else if same_text(a, "list_policies") {
        Ok("List active nein firewall policies".to_owned())
    } else if same_text(a, "container_network") {
        let n = required_text(&t.network, "network")?;
        let mut d = concat4("Configure container network '", n, "' in ", param_or_text(&t.mode, "bridge"));
        d.append(" mode");
        Ok(d)
    } else if same_text(a, "status") {
        Ok("Show nein firewall status".to_owned())
    } else {
        Err(unknown_action_error("nein", a))
    }
}

fn command_line_exec(t: &NeinTask) -> (r: Result<String, ModuleError>)
    ensures
        match r {
            Ok(s) => command_line(t) == Ok::<Seq<char>, ErrorView>(s@),
            Err(e) => command_line(t) == Err::<Seq<char>, ErrorView>(e@),
        },
{
    let a = t.action.as_str();
    if same_text(a, "apply_policy") {
        let p = required_text(&t.policy, "policy")?;
        Ok(concat2("nein apply ", p))
    } else if same_text(a, "allow_agent") {
        let id = required_text(&t.agent_id, "agent_id")?;
        let mut c = concat4("nein allow --agent ", id, " --port ", param_or_text(&t.port, "any"));
        c.append(" --protocol ");
        c.append(param_or_text(&t.protocol, "tcp"));
        Ok(c)
    } else if same_text(a, "deny_agent") {
        let id = required_text(&t.agent_id, "agent_id")?;
        Ok(concat2("nein deny --agent ", id))
    } else if same_text(a, "list_policies") {
        Ok("nein list --format json".to_owned())
    } else if same_text(a, "container_network") {
        let n = required_text(&t.network, "network")?;
        let mut c = concat4("nein container-network --name ", n, " --mode ", param_or_text(&t.mode, "bridge"));
        c.append(" --subnet ");
        c.append(param_or_text(&t.subnet, "172.20.0.0/16"));
        Ok(c)
    } else if same_text(a, "status") {
        Ok("nein status --format json".to_owned())
    } else {
        Err(unknown_action_error("nein", a))
    }
}

impl NeinModule {
    pub fn name(&self) -> (r: &'static str)
        ensures
            r@ == "nein"@,
    {
        "nein"
    }

    pub fn actions(&self) -> (r: &'static [&'static str])
        ensures
            r@.map_values(|s: &str| s@) == nein_actions(),
    {
        let r: &'static [&'static str] = &[
            "apply_policy",
            "allow_agent",
            "deny_agent",
            "list_policies",
            "container_network",
            "status",
        ];
        assert(r@.map_values(|s: &str| s@) =~= nein_actions());
        r
    }

    /// The plan of a task: its description and whether it needs privileges.
    pub fn plan(&self, t: &NeinTask) -> (p: Result<DescribedPlan, ModuleError>)
        ensures
            match p {
                Ok(x) => plan_spec(t) == Ok::<DescribedPlanView, ErrorView>(x@),
                Err(e) => plan_spec(t) == Err::<DescribedPlanView, ErrorView>(e@),
            },
    {
        let description = description_exec(t)?;
        let a = t.action.as_str();
        Ok(DescribedPlan {
            description,
            needs_privilege: !same_text(a, "list_policies") && !same_text(a, "status"),
        })
    }

    /// The steps that apply a task.
    pub fn apply_steps(&self, t: &NeinTask) -> (r: Result<Vec<Step>, ModuleError>)
        ensures
            steps_result(r) == apply_steps_spec(t),
    {
        let line = command_line_exec(t)?;
        Ok(run_only(line))
    }
}


/// The actions that the module lists are exactly the actions that its plan
/// and its steps accept; any other action is refused as unknown.
pub proof fn nein_accepts_listed_actions(t: &NeinTask)
    ensures
        nein_actions().contains(t.action@) ==> plan_spec(t) != Err::<DescribedPlanView, ErrorView>(
            unknown_action("nein"@, t.action@),
        ) && apply_steps_spec(t) != Err::<Seq<StepView>, ErrorView>(unknown_action("nein"@, t.action@)),
        !nein_actions().contains(t.action@) ==> plan_spec(t) == Err::<DescribedPlanView, ErrorView>(
            unknown_action("nein"@, t.action@),
        ) && apply_steps_spec(t) == Err::<Seq<StepView>, ErrorView>(unknown_action("nein"@, t.action@)),
{
    let s = nein_actions();
    assert(s[0] == "apply_policy"@ && s[1] == "allow_agent"@ && s[2] == "deny_agent"@ && s[3] == "list_policies"@ && s[4] == "container_network"@ && s[5] == "status"@);
    if s.contains(t.action@) {
        let i = choose|i: int| 0 <= i < s.len() && s[i] == t.action@;
        assert(t.action@ == s[i]);
    }
}

/// Applying a task needs at least what planning it needs: whatever task the
/// steps accept, the plan accepts too.
pub proof fn nein_apply_needs_what_plan_needs(t: &NeinTask)
    ensures
        apply_steps_spec(t) is Ok ==> plan_spec(t) is Ok,
{
}

/// What each action runs: the task's policy, agent, network and their
/// options reach nein, with port `any`, protocol `tcp`, mode `bridge` and
/// subnet 172.20.0.0/16 where the task gives none; a task without the
/// policy, agent or network that its action needs is refused.
pub proof fn nein_steps_carry_their_parameters(t: &NeinTask)
    ensures
        t.action@ == "apply_policy"@ ==> apply_steps_spec(t) == match t.policy {
            None => Err::<Seq<StepView>, ErrorView>(ErrorView::ParamMissing("policy"@)),
            Some(p) => Ok(seq![StepView::Run("nein apply "@ + p@)]),
        },
        t.action@ == "allow_agent"@ ==> apply_steps_spec(t) == match t.agent_id {
            None => Err::<Seq<StepView>, ErrorView>(ErrorView::ParamMissing("agent_id"@)),
            Some(i) => Ok(
                seq![
                    StepView::Run(
                        "nein allow --agent "@ + i@ + " --port "@ + (match t.port {
                            Some(p) => p@,
                            None => "any"@,
                        }) + " --protocol "@ + (match t.protocol {
                            Some(p) => p@,
                            None => "tcp"@,
                        }),
                    ),
                ],
            ),
        },
        t.action@ == "deny_agent"@ ==> apply_steps_spec(t) == match t.agent_id {
            None => Err::<Seq<StepView>, ErrorView>(ErrorView::ParamMissing("agent_id"@)),
            Some(i) => Ok(seq![StepView::Run("nein deny --agent "@ + i@)]),
        },
        t.action@ == "list_policies"@ ==> apply_steps_spec(t) == Ok::<Seq<StepView>, ErrorView>(
            seq![StepView::Run("nein list --format json"@)],
        ),
        t.action@ == "container_network"@ ==> apply_steps_spec(t) == match t.network {
            None => Err::<Seq<StepView>, ErrorView>(ErrorView::ParamMissing("network"@)),
            Some(n) => Ok(
                seq![
                    StepView::Run(
                        "nein container-network --name "@ + n@ + " --mode "@ + (match t.mode {
                            Some(m) => m@,
                            None => "bridge"@,
                        }) + " --subnet "@ + (match t.subnet {
                            Some(s) => s@,
                            None => "172.20.0.0/16"@,
                        }),
                    ),
                ],
            ),
        },
        t.action@ == "status"@ ==> apply_steps_spec(t) == Ok::<Seq<StepView>, ErrorView>(
            seq![StepView::Run("nein status --format json"@)],
        ),
{
    reveal_strlit("apply_policy");
    reveal_strlit("allow_agent");
    reveal_strlit("deny_agent");
    reveal_strlit("list_policies");
    reveal_strlit("container_network");
    reveal_strlit("status");
    assert("apply_policy"@ =~= seq!['a', 'p', 'p', 'l', 'y', '_', 'p', 'o', 'l', 'i', 'c', 'y']);
    assert("allow_agent"@ =~= seq!['a', 'l', 'l', 'o', 'w', '_', 'a', 'g', 'e', 'n', 't']);
    assert("deny_agent"@ =~= seq!['d', 'e', 'n', 'y', '_', 'a', 'g', 'e', 'n', 't']);
    assert("list_policies"@ =~= seq!['l', 'i', 's', 't', '_', 'p', 'o', 'l', 'i', 'c', 'i', 'e', 's']);
    assert("container_network"@ =~= seq!['c', 'o', 'n', 't', 'a', 'i', 'n', 'e', 'r', '_', 'n', 'e', 't', 'w', 'o', 'r', 'k']);
    assert("status"@ =~= seq!['s', 't', 'a', 't', 'u', 's']);
}

/// Which plans need privileges: every action that changes the firewall, and nothing else.
pub proof fn nein_privilege_follows_the_action(t: &NeinTask)
    ensures
        t.action@ == "apply_policy"@ && plan_spec(t) is Ok ==> plan_spec(t)->Ok_0.needs_privilege == true,
        t.action@ == "allow_agent"@ && plan_spec(t) is Ok ==> plan_spec(t)->Ok_0.needs_privilege == true,
        t.action@ == "deny_agent"@ && plan_spec(t) is Ok ==> plan_spec(t)->Ok_0.needs_privilege == true,
        t.action@ == "list_policies"@ && plan_spec(t) is Ok ==> plan_spec(t)->Ok_0.needs_privilege == false,
        t.action@ == "container_network"@ && plan_spec(t) is Ok ==> plan_spec(t)->Ok_0.needs_privilege == true,
        t.action@ == "status"@ && plan_spec(t) is Ok ==> plan_spec(t)->Ok_0.needs_privilege == false,
{
    reveal_strlit("apply_policy");
    assert("apply_policy"@ =~= seq!['a', 'p', 'p', 'l', 'y', '_', 'p', 'o', 'l', 'i', 'c', 'y']);
    reveal_strlit("allow_agent");
    assert("allow_agent"@ =~= seq!['a', 'l', 'l', 'o', 'w', '_', 'a', 'g', 'e', 'n', 't']);
    reveal_strlit("deny_agent");
    assert("deny_agent"@ =~= seq!['d', 'e', 'n', 'y', '_', 'a', 'g', 'e', 'n', 't']);
    reveal_strlit("list_policies");
    assert("list_policies"@ =~= seq!['l', 'i', 's', 't', '_', 'p', 'o', 'l', 'i', 'c', 'i', 'e', 's']);
    reveal_strlit("container_network");
    assert("container_network"@ =~= seq!['c', 'o', 'n', 't', 'a', 'i', 'n', 'e', 'r', '_', 'n', 'e', 't', 'w', 'o', 'r', 'k']);
    reveal_strlit("status");
    assert("status"@ =~= seq!['s', 't', 'a', 't', 'u', 's']);
}

} // verus!
