//! Devices through yukti: list_devices, mount, unmount, udev_rule, format,
//! hotplug_policy.

use vstd::prelude::*;
use crate::steps::{
    param_or, param_or_text, required, required_text, run_only, steps_result, write_then_run,
    DescribedPlan, DescribedPlanView, Step, StepView,
};
use crate::task::{unknown_action, unknown_action_error, ErrorView, ModuleError};
use crate::text::{concat2, concat3, concat4, same_text};

verus! {

/// The yukti module.
#[derive(Debug)]
pub struct YuktiModule;

/// The parameters of a yukti task: `None` where the task lacks one.
#[derive(Debug)]
pub struct YuktiTask {
    pub action: String,
    pub device: Option<String>,
    pub mountpoint: Option<String>,
    pub filesystem: Option<String>,
    pub options: Option<String>,
    /// The rule's name (`name`).
    pub name: Option<String>,
    pub content: Option<String>,
    pub label: Option<String>,
    pub policy: Option<String>,
}

/// The actions of the module, in the order it lists them.
pub open spec fn yukti_actions() -> Seq<Seq<char>> {
    seq![
        "list_devices"@,
        "mount"@,
        "unmount"@,
        "udev_rule"@,
        "format"@,
        "hotplug_policy"@,
    ]
}

/// The description of a task, or why it is refused.
pub open spec fn description(t: &YuktiTask) -> Result<Seq<char>, ErrorView> {
    let a = t.action@;
    if a == "list_devices"@ {
        Ok("List all detected hardware devices"@)
    } else if a == "mount"@ {
        match required(t.device, "device"@) {
            Ok(d) => match required(t.mountpoint, "mountpoint"@) {
                Ok(m) => Ok("Mount "@ + d + " at "@ + m),
                Err(e) => Err(e),
            },
            Err(e) => Err(e),
        }
    } else if a == "unmount"@ {
        match required(t.mountpoint, "mountpoint"@) {
            Ok(m) => Ok("Unmount and eject "@ + m),
            Err(e) => Err(e),
        }
    } else if a == "udev_rule"@ {
        match required(t.name, "name"@) {
            Ok(n) => Ok("Install udev rule: "@ + n),
            Err(e) => Err(e),
        }
    } else if a == "format"@ {
        match required(t.device, "device"@) {
            Ok(d) => Ok("Format "@ + d + " as "@ + param_or(t.filesystem, "ext4"@)),
            Err(e) => Err(e),
        }
    } else if a == "hotplug_policy"@ {
        Ok("Set hotplug policy: "@ + param_or(t.policy, "manual"@))
    } else {
        Err(unknown_action("yukti"@, a))
    }
}

/// Every action but listing devices needs privileges.
pub open spec fn privileged(a: Seq<char>) -> bool {
    a != "list_devices"@
}

pub open spec fn plan_spec(t: &YuktiTask) -> Result<DescribedPlanView, ErrorView> {
    match description(t) {
        Ok(d) => Ok(DescribedPlanView { description: d, needs_privilege: privileged(t.action@) }),
        Err(e) => Err(e),
    }
}

/// The hotplug configuration: the policy, and automatic mounting exactly
/// for the `auto` policy.
pub open spec fn hotplug_config(policy: Seq<char>) -> Seq<char> {
    "[hotplug]\npolicy = \""@ + policy + "\"\nauto_mount = "@ + (if policy == "auto"@ {
        "true"@
    } else {
        "false"@
    }) + "\n"@
}

pub open spec fn apply_steps_spec(t: &YuktiTask) -> Result<Seq<StepView>, ErrorView> {
    let a = t.action@;
    if a == "list_devices"@ {
        Ok(seq![StepView::Run("yukti list --format json"@)])
    } else if a == "mount"@ {
        match required(t.device, "device"@) {
            Ok(d) => match required(t.mountpoint, "mountpoint"@) {
                Ok(m) => Ok(
                    seq![
                        StepView::Run(
                            "mount -t "@ + param_or(t.filesystem, "auto"@) + " -o "@ + param_or(
                                t.options,
                                "defaults"@,
                            ) + " "@ + d + " "@ + m,
                        ),
                    ],
                ),
                Err(e) => Err(e),
            },
            Err(e) => Err(e),
        }
    } else if a == "unmount"@ {
        match required(t.mountpoint, "mountpoint"@) {
            Ok(m) => Ok(seq![StepView::Run("umount "@ + m)]),
            Err(e) => Err(e),
        }
    } else if a == "udev_rule"@ {
        match required(t.name, "name"@) {
            Ok(n) => match required(t.content, "content"@) {
                Ok(c) => Ok(
                    seq![
                        StepView::Write { path: "/etc/udev/rules.d/99-"@ + n + ".rules"@, content: c },
                        StepView::Run("udevadm control --reload-rules && udevadm trigger"@),
                    ],
                ),
                Err(e) => Err(e),
            },
            Err(e) => Err(e),
        }
    } else if a == "format"@ {
        match required(t.device, "device"@) {
            Ok(d) => {
                let label = param_or(t.label, Seq::empty());
                Ok(
                    seq![
                        StepView::Run(
                            "mkfs."@ + param_or(t.filesystem, "ext4"@) + (if label.len() == 0 {
                                Seq::empty()
                            } else {
                                " -L "@ + label
                            }) + " "@ + d,
                        ),
                    ],
                )
            },
            Err(e) => Err(e),
        }
    } else if a == "hotplug_policy"@ {
        Ok(
            seq![
                StepView::Write {
                    path: "/etc/agnos/yukti/hotplug.toml"@,
                    content: hotplug_config(param_or(t.policy, "manual"@)),
                },
                StepView::Run("systemctl restart yukti-hotplug"@),
            ],
        )
    } else {
        Err(unknown_action("yukti"@, a))
    }
}

fn description_exec(t: &YuktiTask) -> (r: Result<String, ModuleError>)
    ensures
        match r {
            Ok(s) => description(t) == Ok::<Seq<char>, ErrorView>(s@),
            Err(e) => description(t) == Err::<Seq<char>, ErrorView>(e@),
        },
{
    let a = t.action.as_str();
    if same_text(a, "list_devices") {
        Ok("List all detected hardware devices".to_owned())
    } else if same_text(a, "mount") {
        let d = required_text(&t.device, "device")?;
        let m = required_text(&t.mountpoint, "mountpoint")?;
        Ok(concat4("Mount ", d, " at ", m))
    } else if same_text(a, "unmount") {
        let m = required_text(&t.mountpoint, "mountpoint")?;
        Ok(concat2("Unmount and eject ", m))
    } else if same_text(a, "udev_rule") {
        let n = required_text(&t.name, "name")?;
        Ok(concat2("Install udev rule: ", n))
    } else if same_text(a, "format") {
        let d = required_text(&t.device, "device")?;
        Ok(concat4("Format ", d, " as ", param_or_text(&t.filesystem, "ext4")))
    } else if same_text(a, "hotplug_policy") {
        Ok(concat2("Set hotplug policy: ", param_or_text(&t.policy, "manual")))
    } else {
        Err(unknown_action_error("yukti", a))
    }
}

fn hotplug_config_exec(policy: &str) -> (s: String)
    ensures
        s@ == hotplug_config(policy@),
{
    let mut s = concat3("[hotplug]\npolicy = \"", policy, "\"\nauto_mount = ");
    s.append(if same_text(policy, "auto") { "true" } else { "false" });
    s.append("\n");
    s
}

impl YuktiModule {
    pub fn name(&self) -> (r: &'static str)
        ensures
            r@ == "yukti"@,
    {
        "yukti"
    }

    pub fn actions(&self) -> (r: &'static [&'static str])
        ensures
            r@.map_values(|s: &str| s@) == yukti_actions(),
    {
        let r: &'static [&'static str] = &[
            "list_devices",
            "mount",
            "unmount",
            "udev_rule",
            "format",
            "hotplug_policy",
        ];
        assert(r@.map_values(|s: &str| s@) =~= yukti_actions());
        r
    }

    /// The plan of a task: its description and whether it needs privileges.
    pub fn plan(&self, t: &YuktiTask) -> (p: Result<DescribedPlan, ModuleError>)
        ensures
            match p {
                Ok(x) => plan_spec(t) == Ok::<DescribedPlanView, ErrorView>(x@),
                Err(e) => plan_spec(t) == Err::<DescribedPlanView, ErrorView>(e@),
            },
    {
        let description = description_exec(t)?;
        Ok(DescribedPlan { description, needs_privilege: !same_text(t.action.as_str(), "list_devices") })
    }

    /// The steps that apply a task.
    pub fn apply_steps(&self, t: &YuktiTask) -> (r: Result<Vec<Step>, ModuleError>)
        ensures
            steps_result(r) == apply_steps_spec(t),
    {
        let a = t.action.as_str();
        if same_text(a, "list_devices") {
            Ok(run_only("yukti list --format json".to_owned()))
        } else if same_text(a, "mount") {
            let d = required_text(&t.device, "device")?;
            let m = required_text(&t.mountpoint, "mountpoint")?;
            let mut c = concat4("mount -t ", param_or_text(&t.filesystem, "auto"), " -o ", param_or_text(&t.options, "defaults"));
            c.append(" ");
            c.append(d);
            c.append(" ");
            c.append(m);
            Ok(run_only(c))
        } else if same_text(a, "unmount") {
            let m = required_text(&t.mountpoint, "mountpoint")?;
            Ok(run_only(concat2("umount ", m)))
        } else if same_text(a, "udev_rule") {
            let n = required_text(&t.name, "name")?;
            let content = required_text(&t.content, "content")?;
            let path = concat3("/etc/udev/rules.d/99-", n, ".rules");
            Ok(write_then_run(path, content.to_owned(), "udevadm control --reload-rules && udevadm trigger".to_owned()))
        } else if same_text(a, "format") {
            let d = required_text(&t.device, "device")?;
            let label = param_or_text(&t.label, "");
            proof {
                reveal_strlit("");
            }
            let mut c = concat2("mkfs.", param_or_text(&t.filesystem, "ext4"));
            let ghost head = c@;
            if !label.is_empty() {
                c.append(" -L ");
                c.append(label);
                assert(c@ =~= head + (" -L "@ + label@));
            } else {
                assert(c@ =~= head + Seq::<char>::empty());
            }
            c.append(" ");
            c.append(d);
            Ok(run_only(c))
        } else if same_text(a, "hotplug_policy") {
            let config = hotplug_config_exec(param_or_text(&t.policy, "manual"));
            Ok(write_then_run("/etc/agnos/yukti/hotplug.toml".to_owned(), config, "systemctl restart yukti-hotplug".to_owned()))
        } else {
            Err(unknown_action_error("yukti", a))
        }
    }
}


/// The actions that the module lists are exactly the actions that its plan
/// and its steps accept; any other action is refused as unknown.
pub proof fn yukti_accepts_listed_actions(t: &YuktiTask)
    ensures
        yukti_actions().contains(t.action@) ==> plan_spec(t) != Err::<DescribedPlanView, ErrorView>(
            unknown_action("yukti"@, t.action@),
        ) && apply_steps_spec(t) != Err::<Seq<StepView>, ErrorView>(unknown_action("yukti"@, t.action@)),
        !yukti_actions().contains(t.action@) ==> plan_spec(t) == Err::<DescribedPlanView, ErrorView>(
            unknown_action("yukti"@, t.action@),
        ) && apply_steps_spec(t) == Err::<Seq<StepView>, ErrorView>(unknown_action("yukti"@, t.action@)),
{
    let s = yukti_actions();
    assert(s[0] == "list_devices"@ && s[1] == "mount"@ && s[2] == "unmount"@ && s[3] == "udev_rule"@ && s[4] == "format"@ && s[5] == "hotplug_policy"@);
    if s.contains(t.action@) {
        let i = choose|i: int| 0 <= i < s.len() && s[i] == t.action@;
        assert(t.action@ == s[i]);
    }
}

/// Applying a task needs at least what planning it needs: whatever task the
/// steps accept, the plan accepts too.
pub proof fn yukti_apply_needs_what_plan_needs(t: &YuktiTask)
    ensures
        apply_steps_spec(t) is Ok ==> plan_spec(t) is Ok,
{
}

/// What each action runs: a device is mounted on the task's mountpoint with
/// its filesystem (`auto`) and options (`defaults`), formatted with its
/// filesystem (`ext4`) and with its label exactly when one is given; a udev
/// rule is written under its name and the rules reloaded; the hotplug policy
/// (`manual` by default) is written and the hotplug service restarted, with
/// automatic mounting exactly under the `auto` policy.
pub proof fn yukti_steps_carry_their_parameters(t: &YuktiTask)
    ensures
        t.action@ == "list_devices"@ ==> apply_steps_spec(t) == Ok::<Seq<StepView>, ErrorView>(
            seq![StepView::Run("yukti list --format json"@)],
        ),
        t.action@ == "mount"@ ==> apply_steps_spec(t) == match (t.device, t.mountpoint) {
            (None, _) => Err::<Seq<StepView>, ErrorView>(ErrorView::ParamMissing("device"@)),
            (Some(_), None) => Err::<Seq<StepView>, ErrorView>(ErrorView::ParamMissing("mountpoint"@)),
            (Some(d), Some(m)) => Ok(
                seq![
                    StepView::Run(
                        "mount -t "@ + (match t.filesystem {
                            Some(f) => f@,
                            None => "auto"@,
                        }) + " -o "@ + (match t.options {
                            Some(o) => o@,
                            None => "defaults"@,
                        }) + " "@ + d@ + " "@ + m@,
                    ),
                ],
            ),
        },
        t.action@ == "unmount"@ ==> apply_steps_spec(t) == match t.mountpoint {
            None => Err::<Seq<StepView>, ErrorView>(ErrorView::ParamMissing("mountpoint"@)),
            Some(m) => Ok(seq![StepView::Run("umount "@ + m@)]),
        },
        t.action@ == "udev_rule"@ ==> apply_steps_spec(t) == match (t.name, t.content) {
            (None, _) => Err::<Seq<StepView>, ErrorView>(ErrorView::ParamMissing("name"@)),
            (Some(_), None) => Err::<Seq<StepView>, ErrorView>(ErrorView::ParamMissing("content"@)),
            (Some(n), Some(c)) => Ok(
                seq![
                    StepView::Write { path: "/etc/udev/rules.d/99-"@ + n@ + ".rules"@, content: c@ },
                    StepView::Run("udevadm control --reload-rules && udevadm trigger"@),
                ],
            ),
        },
        t.action@ == "format"@ ==> apply_steps_spec(t) == match t.device {
            None => Err::<Seq<StepView>, ErrorView>(ErrorView::ParamMissing("device"@)),
            Some(d) => Ok(
                seq![
                    StepView::Run(
                        "mkfs."@ + (match t.filesystem {
                            Some(f) => f@,
                            None => "ext4"@,
                        }) + (match t.label {
                            Some(l) if l@.len() > 0 => " -L "@ + l@,
                            _ => Seq::empty(),
                        }) + " "@ + d@,
                    ),
                ],
            ),
        },
        t.action@ == "hotplug_policy"@ ==> ({
            let policy = match t.policy {
                Some(p) => p@,
                None => "manual"@,
            };
            apply_steps_spec(t) == Ok::<Seq<StepView>, ErrorView>(
                seq![
                    StepView::Write {
                        path: "/etc/agnos/yukti/hotplug.toml"@,
                        content: "[hotplug]\npolicy = \""@ + policy + "\"\nauto_mount = "@ + (if policy == "auto"@ {
                            "true"@
                        } else {
                            "false"@
                        }) + "\n"@,
                    },
                    StepView::Run("systemctl restart yukti-hotplug"@),
                ],
            )
        }),
{
    reveal_strlit("list_devices");
    reveal_strlit("mount");
    reveal_strlit("unmount");
    reveal_strlit("udev_rule");
    reveal_strlit("format");
    reveal_strlit("hotplug_policy");
    assert("list_devices"@ =~= seq!['l', 'i', 's', 't', '_', 'd', 'e', 'v', 'i', 'c', 'e', 's']);
    assert("mount"@ =~= seq!['m', 'o', 'u', 'n', 't']);
    assert("unmount"@ =~= seq!['u', 'n', 'm', 'o', 'u', 'n', 't']);
    assert("udev_rule"@ =~= seq!['u', 'd', 'e', 'v', '_', 'r', 'u', 'l', 'e']);
    assert("format"@ =~= seq!['f', 'o', 'r', 'm', 'a', 't']);
    assert("hotplug_policy"@ =~= seq!['h', 'o', 't', 'p', 'l', 'u', 'g', '_', 'p', 'o', 'l', 'i', 'c', 'y']);
}

/// Which plans need privileges: every action but listing devices, and nothing else.
pub proof fn yukti_privilege_follows_the_action(t: &YuktiTask)
    ensures
        t.action@ == "list_devices"@ && plan_spec(t) is Ok ==> plan_spec(t)->Ok_0.needs_privilege == false,
        t.action@ == "mount"@ && plan_spec(t) is Ok ==> plan_spec(t)->Ok_0.needs_privilege == true,
        t.action@ == "unmount"@ && plan_spec(t) is Ok ==> plan_spec(t)->Ok_0.needs_privilege == true,
        t.action@ == "udev_rule"@ && plan_spec(t) is Ok ==> plan_spec(t)->Ok_0.needs_privilege == true,
        t.action@ == "format"@ && plan_spec(t) is Ok ==> plan_spec(t)->Ok_0.needs_privilege == true,
        t.action@ == "hotplug_policy"@ && plan_spec(t) is Ok ==> plan_spec(t)->Ok_0.needs_privilege == true,
{
    reveal_strlit("list_devices");
    assert("list_devices"@ =~= seq!['l', 'i', 's', 't', '_', 'd', 'e', 'v', 'i', 'c', 'e', 's']);
    reveal_strlit("mount");
    assert("mount"@ =~= seq!['m', 'o', 'u', 'n', 't']);
    reveal_strlit("unmount");
    assert("unmount"@ =~= seq!['u', 'n', 'm', 'o', 'u', 'n', 't']);
    reveal_strlit("udev_rule");
    assert("udev_rule"@ =~= seq!['u', 'd', 'e', 'v', '_', 'r', 'u', 'l', 'e']);
    reveal_strlit("format");
    assert("format"@ =~= seq!['f', 'o', 'r', 'm', 'a', 't']);
    reveal_strlit("hotplug_policy");
    assert("hotplug_policy"@ =~= seq!['h', 'o', 't', 'p', 'l', 'u', 'g', '_', 'p', 'o', 'l', 'i', 'c', 'y']);
}

} // verus!
