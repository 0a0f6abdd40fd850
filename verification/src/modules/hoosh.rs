//! The hoosh LLM gateway: pull_model, list_models, remove_model,
//! set_provider, token_budget, restart, status.

use vstd::prelude::*;
use crate::steps::{
    param_or, param_or_text, required, required_text, run_only, steps_result, steps_view,
    DescribedPlan, DescribedPlanView, Step, StepView,
};
use crate::task::{unknown_action, unknown_action_error, ErrorView, ModuleError};
use crate::text::{concat2, concat3, concat4, same_text};

verus! {

/// The hoosh module.
#[derive(Debug)]
pub struct HooshModule;

/// The parameters of a hoosh task: `None` where the task lacks one.
#[derive(Debug)]
pub struct HooshTask {
    pub action: String,
    pub api_url: Option<String>,
    pub model: Option<String>,
    pub provider: Option<String>,
    pub api_key: Option<String>,
    pub endpoint: Option<String>,
    pub pool: Option<String>,
    pub limit: Option<String>,
}

/// The actions of the module, in the order it lists them.
pub open spec fn hoosh_actions() -> Seq<Seq<char>> {
    seq![
        "pull_model"@,
        "list_models"@,
        "remove_model"@,
        "set_provider"@,
        "token_budget"@,
        "restart"@,
        "status"@,
    ]
}

/// The description of a task, or why it is refused.
pub open spec fn description(t: &HooshTask) -> Result<Seq<char>, ErrorView> {
    let a = t.action@;
    if a == "pull_model"@ {
        match required(t.model, "model"@) {
            Ok(m) => Ok("Pull model: "@ + m),
            Err(e) => Err(e),
        }
    } else if a == "list_models"@ {
        Ok("List locally stored models"@)
    } else if a == "remove_model"@ {
        match required(t.model, "model"@) {
            Ok(m) => Ok("Remove model: "@ + m),
            Err(e) => Err(e),
        }
    } else if a == "set_provider"@ {
        match required(t.provider, "provider"@) {
            Ok(p) => Ok("Configure LLM provider: "@ + p),
            Err(e) => Err(e),
        }
    } else if a == "token_budget"@ {
        match required(t.limit, "limit"@) {
            Ok(l) => Ok("Set token budget for '"@ + param_or(t.pool, "global"@) + "': "@ + l),
            Err(e) => Err(e),
        }
    } else if a == "restart"@ {
        Ok("Restart hoosh service"@)
    } else if a == "status"@ {
        Ok("Show hoosh status"@)
    } else {
        Err(unknown_action("hoosh"@, a))
    }
}

/// Restarting the service and configuring a provider need privileges.
pub open spec fn privileged(a: Seq<char>) -> bool {
    a == "restart"@ || a == "set_provider"@
}

pub open spec fn plan_spec(t: &HooshTask) -> Result<DescribedPlanView, ErrorView> {
    match description(t) {
        Ok(d) => Ok(DescribedPlanView { description: d, needs_privilege: privileged(t.action@) }),
        Err(e) => Err(e),
    }
}

/// The gateway's API base URL.
pub open spec fn api(t: &HooshTask) -> Seq<char> {
    param_or(t.api_url, "http://localhost:8088"@)
}

/// The provider's configuration file: its section, the API key, and the
/// endpoint line when an endpoint is given (an empty line otherwise).
pub open spec fn provider_config(provider: Seq<char>, key: Seq<char>, endpoint: Seq<char>) -> Seq<
    char,
> {
    "[providers."@ + provider + "]\napi_key = \""@ + key + "\"\n"@ + (if endpoint.len() == 0 {
        Seq::empty()
    } else {
        "endpoint = \""@ + endpoint + "\""@
    }) + "\n"@
}

pub open spec fn apply_steps_spec(t: &HooshTask) -> Result<Seq<StepView>, ErrorView> {
    let a = t.action@;
    let api = api(t);
    if a == "pull_model"@ {
        match required(t.model, "model"@) {
            Ok(m) => Ok(
                seq![
                    StepView::Run(
                        "curl -sf -X POST "@ + api
                            + "/v1/models/pull -H 'Content-Type: application/json' -d '{\"model\":\""@
                            + m + "\"}'"@,
                    ),
                ],
            ),
            Err(e) => Err(e),
        }
    } else if a == "list_models"@ {
        Ok(seq![StepView::Run("curl -sf "@ + api + "/v1/models/local"@)])
    } else if a == "remove_model"@ {
        match required(t.model, "model"@) {
            Ok(m) => Ok(seq![StepView::Run("curl -sf -X DELETE "@ + api + "/v1/models/"@ + m)]),
            Err(e) => Err(e),
        }
    } else if a == "set_provider"@ {
        match required(t.provider, "provider"@) {
            Ok(p) => match required(t.api_key, "api_key"@) {
                Ok(k) => Ok(
                    seq![
                        StepView::Write {
                            path: "/etc/agnos/hoosh/providers/"@ + p + ".toml"@,
                            content: provider_config(p, k, param_or(t.endpoint, Seq::empty())),
                        },
                    ],
                ),
                Err(e) => Err(e),
            },
            Err(e) => Err(e),
        }
    } else if a == "token_budget"@ {
        match required(t.limit, "limit"@) {
            Ok(l) => Ok(
                seq![
                    StepView::Run(
                        "curl -sf -X POST "@ + api
                            + "/v1/tokens/pools -H 'Content-Type: application/json' -d '{\"name\":\""@
                            + param_or(t.pool, "global"@) + "\",\"limit\":"@ + l + "}'"@,
                    ),
                ],
            ),
            Err(e) => Err(e),
        }
    } else if a == "restart"@ {
        Ok(seq![StepView::Run("systemctl restart hoosh"@)])
    } else if a == "status"@ {
        Ok(seq![StepView::Run("curl -sf "@ + api + "/v1/health"@)])
    } else {
        Err(unknown_action("hoosh"@, a))
    }
}

fn description_exec(t: &HooshTask) -> (r: Result<String, ModuleError>)
    ensures
        match r {
            Ok(s) => description(t) == Ok::<Seq<char>, ErrorView>(s@),
            Err(e) => description(t) == Err::<Seq<char>, ErrorView>(e@),
        },
{
    let a = t.action.as_str();
    if same_text(a, "pull_model") {
        let m = required_text(&t.model, "model")?;
        Ok(concat2("Pull model: ", m))
    } else if same_text(a, "list_models") {
        Ok("List locally stored models".to_owned())
    } else if same_text(a, "remove_model") {
        let m = required_text(&t.model, "model")?;
        Ok(concat2("Remove model: ", m))
    } else if same_text(a, "set_provider") {
        let p = required_text(&t.provider, "provider")?;
        Ok(concat2("Configure LLM provider: ", p))
    } else if same_text(a, "token_budget") {
        let l = required_text(&t.limit, "limit")?;
        Ok(concat4("Set token budget for '", param_or_text(&t.pool, "global"), "': ", l))
    } else if same_text(a, "restart") {
        Ok("Restart hoosh service".to_owned())
    } else if same_text(a, "status") {
        Ok("Show hoosh status".to_owned())
    } else {
        Err(unknown_action_error("hoosh", a))
    }
}

fn provider_config_exec(provider: &str, key: &str, endpoint: &str) -> (s: String)
    ensures
        s@ == provider_config(provider@, key@, endpoint@),
{
    let mut s = concat4("[providers.", provider, "]\napi_key = \"", key);
    s.append("\"\n");
    let ghost head = s@;
    if !endpoint.is_empty() {
        s.append("endpoint = \"");
        s.append(endpoint);
        s.append("\"");
        assert(s@ =~= head + ("endpoint = \""@ + endpoint@ + "\""@));
    } else {
        assert(s@ =~= head + Seq::<char>::empty());
    }
    s.append("\n");
    s
}

impl HooshModule {
    pub fn name(&self) -> (r: &'static str)
        ensures
            r@ == "hoosh"@,
    {
        "hoosh"
    }

    pub fn actions(&self) -> (r: &'static [&'static str])
        ensures
            r@.map_values(|s: &str| s@) == hoosh_actions(),
    {
        let r: &'static [&'static str] = &[
            "pull_model",
            "list_models",
            "remove_model",
            "set_provider",
            "token_budget",
            "restart",
            "status",
        ];
        assert(r@.map_values(|s: &str| s@) =~= hoosh_actions());
        r
    }

    /// The plan of a task: its description and whether it needs privileges.
    pub fn plan(&self, t: &HooshTask) -> (p: Result<DescribedPlan, ModuleError>)
        ensures
            match p {
                Ok(x) => plan_spec(t) == Ok::<DescribedPlanView, ErrorView>(x@),
                Err(e) => plan_spec(t) == Err::<DescribedPlanView, ErrorView>(e@),
            },
    {
        let description = description_exec(t)?;
        let a = t.action.as_str();
        Ok(DescribedPlan { description, needs_privilege: same_text(a, "restart") || same_text(a, "set_provider") })
    }

    /// The steps that apply a task.
    pub fn apply_steps(&self, t: &HooshTask) -> (r: Result<Vec<Step>, ModuleError>)
        ensures
            steps_result(r) == apply_steps_spec(t),
    {
        let a = t.action.as_str();
        let api = param_or_text(&t.api_url, "http://localhost:8088");
        if same_text(a, "pull_model") {
            let m = required_text(&t.model, "model")?;
            let mut c = concat3("curl -sf -X POST ", api, "/v1/models/pull -H 'Content-Type: application/json' -d '{\"model\":\"");
            c.append(m);
            c.append("\"}'");
            Ok(run_only(c))
        } else if same_text(a, "list_models") {
            Ok(run_only(concat3("curl -sf ", api, "/v1/models/local")))
        } else if same_text(a, "remove_model") {
            let m = required_text(&t.model, "model")?;
            Ok(run_only(concat4("curl -sf -X DELETE ", api, "/v1/models/", m)))
        } else if same_text(a, "set_provider") {
            let p = required_text(&t.provider, "provider")?;
            let k = required_text(&t.api_key, "api_key")?;
            let endpoint = param_or_text(&t.endpoint, "");
            proof {
                reveal_strlit("");
            }
            let path = concat3("/etc/agnos/hoosh/providers/", p, ".toml");
            let content = provider_config_exec(p, k, endpoint);
            let ghost pv = path@;
            let ghost cv = content@;
            let mut v = Vec::new();
            v.push(Step::Write { path, content });
            assert(steps_view(v@) =~= seq![StepView::Write { path: pv, content: cv }]);
            Ok(v)
        } else if same_text(a, "token_budget") {
            let l = required_text(&t.limit, "limit")?;
            let mut c = concat3("curl -sf -X POST ", api, "/v1/tokens/pools -H 'Content-Type: application/json' -d '{\"name\":\"");
            c.append(param_or_text(&t.pool, "global"));
            c.append("\",\"limit\":");
            c.append(l);
            c.append("}'");
            Ok(run_only(c))
        } else if same_text(a, "restart") {
            Ok(run_only("systemctl restart hoosh".to_owned()))
        } else if same_text(a, "status") {
            Ok(run_only(concat3("curl -sf ", api, "/v1/health")))
        } else {
            Err(unknown_action_error("hoosh", a))
        }
    }
}


/// The actions that the module lists are exactly the actions that its plan
/// and its steps accept; any other action is refused as unknown.
pub proof fn hoosh_accepts_listed_actions(t: &HooshTask)
    ensures
        hoosh_actions().contains(t.action@) ==> plan_spec(t) != Err::<DescribedPlanView, ErrorView>(
            unknown_action("hoosh"@, t.action@),
        ) && apply_steps_spec(t) != Err::<Seq<StepView>, ErrorView>(unknown_action("hoosh"@, t.action@)),
        !hoosh_actions().contains(t.action@) ==> plan_spec(t) == Err::<DescribedPlanView, ErrorView>(
            unknown_action("hoosh"@, t.action@),
        ) && apply_steps_spec(t) == Err::<Seq<StepView>, ErrorView>(unknown_action("hoosh"@, t.action@)),
{
    let s = hoosh_actions();
    assert(s[0] == "pull_model"@ && s[1] == "list_models"@ && s[2] == "remove_model"@ && s[3] == "set_provider"@ && s[4] == "token_budget"@ && s[5] == "restart"@ && s[6] == "status"@);
    if s.contains(t.action@) {
        let i = choose|i: int| 0 <= i < s.len() && s[i] == t.action@;
        assert(t.action@ == s[i]);
    }
}

/// Applying a task needs at least what planning it needs: whatever task the
/// steps accept, the plan accepts too.
pub proof fn hoosh_apply_needs_what_plan_needs(t: &HooshTask)
    ensures
        apply_steps_spec(t) is Ok ==> plan_spec(t) is Ok,
{
}

/// What each action runs: every call goes to the task's API URL
/// (http://localhost:8088 by default); models are pulled and removed by the
/// task's model, token budgets set for its pool (`global` by default) to its
/// limit, and a provider's file written under its name with its API key and
/// with its endpoint exactly when one is given.
pub proof fn hoosh_steps_carry_their_parameters(t: &HooshTask)
    ensures
        t.action@ == "pull_model"@ ==> apply_steps_spec(t) == match t.model {
            None => Err::<Seq<StepView>, ErrorView>(ErrorView::ParamMissing("model"@)),
            Some(m) => Ok(
                seq![
                    StepView::Run(
                        "curl -sf -X POST "@ + (match t.api_url {
                            Some(u) => u@,
                            None => "http://localhost:8088"@,
                        }) + "/v1/models/pull -H 'Content-Type: application/json' -d '{\"model\":\""@
                            + m@ + "\"}'"@,
                    ),
                ],
            ),
        },
        t.action@ == "list_models"@ ==> apply_steps_spec(t) == Ok::<Seq<StepView>, ErrorView>(
            seq![
                StepView::Run(
                    "curl -sf "@ + (match t.api_url {
                        Some(u) => u@,
                        None => "http://localhost:8088"@,
                    }) + "/v1/models/local"@,
                ),
            ],
        ),
        t.action@ == "remove_model"@ ==> apply_steps_spec(t) == match t.model {
            None => Err::<Seq<StepView>, ErrorView>(ErrorView::ParamMissing("model"@)),
            Some(m) => Ok(
                seq![
                    StepView::Run(
                        "curl -sf -X DELETE "@ + (match t.api_url {
                            Some(u) => u@,
                            None => "http://localhost:8088"@,
                        }) + "/v1/models/"@ + m@,
                    ),
                ],
            ),
        },
        t.action@ == "set_provider"@ ==> apply_steps_spec(t) == match (t.provider, t.api_key) {
            (None, _) => Err::<Seq<StepView>, ErrorView>(ErrorView::ParamMissing("provider"@)),
            (Some(_), None) => Err::<Seq<StepView>, ErrorView>(ErrorView::ParamMissing("api_key"@)),
            (Some(p), Some(k)) => Ok(
                seq![
                    StepView::Write {
                        path: "/etc/agnos/hoosh/providers/"@ + p@ + ".toml"@,
                        content: "[providers."@ + p@ + "]\napi_key = \""@ + k@ + "\"\n"@ + (match t.endpoint {
                            Some(e) if e@.len() > 0 => "endpoint = \""@ + e@ + "\""@,
                            _ => Seq::empty(),
                        }) + "\n"@,
                    },
                ],
            ),
        },
        t.action@ == "token_budget"@ ==> apply_steps_spec(t) == match t.limit {
            None => Err::<Seq<StepView>, ErrorView>(ErrorView::ParamMissing("limit"@)),
            Some(l) => Ok(
                seq![
                    StepView::Run(
                        "curl -sf -X POST "@ + (match t.api_url {
                            Some(u) => u@,
                            None => "http://localhost:8088"@,
                        })
                            + "/v1/tokens/pools -H 'Content-Type: application/json' -d '{\"name\":\""@
                            + (match t.pool {
                            Some(p) => p@,
                            None => "global"@,
                        }) + "\",\"limit\":"@ + l@ + "}'"@,
                    ),
                ],
            ),
        },
        t.action@ == "restart"@ ==> apply_steps_spec(t) == Ok::<Seq<StepView>, ErrorView>(
            seq![StepView::Run("systemctl restart hoosh"@)],
        ),
        t.action@ == "status"@ ==> apply_steps_spec(t) == Ok::<Seq<StepView>, ErrorView>(
            seq![
                StepView::Run(
                    "curl -sf "@ + (match t.api_url {
                        Some(u) => u@,
                        None => "http://localhost:8088"@,
                    }) + "/v1/health"@,
                ),
            ],
        ),
{
    reveal_strlit("pull_model");
    reveal_strlit("list_models");
    reveal_strlit("remove_model");
    reveal_strlit("set_provider");
    reveal_strlit("token_budget");
    reveal_strlit("restart");
    reveal_strlit("status");
    assert("pull_model"@ =~= seq!['p', 'u', 'l', 'l', '_', 'm', 'o', 'd', 'e', 'l']);
    assert("list_models"@ =~= seq!['l', 'i', 's', 't', '_', 'm', 'o', 'd', 'e', 'l', 's']);
    assert("remove_model"@ =~= seq!['r', 'e', 'm', 'o', 'v', 'e', '_', 'm', 'o', 'd', 'e', 'l']);
    assert("set_provider"@ =~= seq!['s', 'e', 't', '_', 'p', 'r', 'o', 'v', 'i', 'd', 'e', 'r']);
    assert("token_budget"@ =~= seq!['t', 'o', 'k', 'e', 'n', '_', 'b', 'u', 'd', 'g', 'e', 't']);
    assert("restart"@ =~= seq!['r', 'e', 's', 't', 'a', 'r', 't']);
    assert("status"@ =~= seq!['s', 't', 'a', 't', 'u', 's']);
}

/// Which plans need privileges: restarting the service and configuring a provider, and nothing else.
pub proof fn hoosh_privilege_follows_the_action(t: &HooshTask)
    ensures
        t.action@ == "pull_model"@ && plan_spec(t) is Ok ==> plan_spec(t)->Ok_0.needs_privilege == false,
        t.action@ == "list_models"@ && plan_spec(t) is Ok ==> plan_spec(t)->Ok_0.needs_privilege == false,
        t.action@ == "remove_model"@ && plan_spec(t) is Ok ==> plan_spec(t)->Ok_0.needs_privilege == false,
        t.action@ == "set_provider"@ && plan_spec(t) is Ok ==> plan_spec(t)->Ok_0.needs_privilege == true,
        t.action@ == "token_budget"@ && plan_spec(t) is Ok ==> plan_spec(t)->Ok_0.needs_privilege == false,
        t.action@ == "restart"@ && plan_spec(t) is Ok ==> plan_spec(t)->Ok_0.needs_privilege == true,
        t.action@ == "status"@ && plan_spec(t) is Ok ==> plan_spec(t)->Ok_0.needs_privilege == false,
{
    reveal_strlit("pull_model");
    assert("pull_model"@ =~= seq!['p', 'u', 'l', 'l', '_', 'm', 'o', 'd', 'e', 'l']);
    reveal_strlit("list_models");
    assert("list_models"@ =~= seq!['l', 'i', 's', 't', '_', 'm', 'o', 'd', 'e', 'l', 's']);
    reveal_strlit("remove_model");
    assert("remove_model"@ =~= seq!['r', 'e', 'm', 'o', 'v', 'e', '_', 'm', 'o', 'd', 'e', 'l']);
    reveal_strlit("set_provider");
    assert("set_provider"@ =~= seq!['s', 'e', 't', '_', 'p', 'r', 'o', 'v', 'i', 'd', 'e', 'r']);
    reveal_strlit("token_budget");
    assert("token_budget"@ =~= seq!['t', 'o', 'k', 'e', 'n', '_', 'b', 'u', 'd', 'g', 'e', 't']);
    reveal_strlit("restart");
    assert("restart"@ =~= seq!['r', 'e', 's', 't', 'a', 'r', 't']);
    reveal_strlit("status");
    assert("status"@ =~= seq!['s', 't', 'a', 't', 'u', 's']);
}

} // verus!
