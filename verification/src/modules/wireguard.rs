//! WireGuard interfaces: up, down, sync_config (or setup, to
//! /etc/wireguard/<interface>.conf), add_peer, remove_peer, status.

use vstd::prelude::*;
use crate::command::{Command, PieceView, lit, quote, same_literals};
use crate::task::{
    checked, checked_exec, make_plan, make_report, probed, probed_exec, reply_is_yes, reply_prints,
    reply_prints_text, reply_yes, requires_error, requires_failure, rview, silent_probe,
    silent_probe_exec, unknown_action, unknown_action_error, usual_message, usual_text, ErrorView,
    ExecOutput, ModuleError, Plan, PlanView, Probe, ProbeView, Reply, Report, ReportView,
};
use crate::text::{concat3, same_text, trim, trimmed};

verus! {

/// The WireGuard module.
#[derive(Debug)]
pub struct WireguardModule;

/// The parameters of a WireGuard task, as the driver read them.
#[derive(Debug)]
pub struct WireguardTask {
    pub action: String,
    pub interface: String,
    pub config: String,
    /// The public key of the peer that `add_peer` and `remove_peer` name.
    pub peer: String,
    /// The addresses that `add_peer` routes to the peer.
    pub allowed_ips: String,
}

impl WireguardTask {
    /// A task of the given action with every parameter at its default: what
    /// the driver starts from before it reads the parameters the task sets.
    pub fn defaults(action: &str) -> (t: WireguardTask)
        ensures
            t.action@ == action@,
            t.interface@ == "wg0"@,
            t.config@ == ""@,
            t.peer@ == ""@,
            t.allowed_ips@ == ""@,
    {
        WireguardTask {
            action: action.to_owned(),
            interface: "wg0".to_owned(),
            config: "".to_owned(),
            peer: "".to_owned(),
            allowed_ips: "".to_owned(),
        }
    }
}

/// The actions of the module, in the order it lists them.
pub open spec fn wireguard_actions() -> Seq<Seq<char>> {
    seq!["up"@, "down"@, "sync_config"@, "setup"@, "add_peer"@, "remove_peer"@, "status"@]
}

/// The interface's configuration file.
pub open spec fn conf_path(t: &WireguardTask) -> Seq<char> {
    "/etc/wireguard/"@ + t.interface@ + ".conf"@
}

/// The probe that tells whether the interface exists.
pub open spec fn link_probe(t: &WireguardTask) -> ProbeView {
    silent_probe("ip link show "@, t.interface@)
}

/// The probe that reads the configuration file.
pub open spec fn conf_probe(t: &WireguardTask) -> ProbeView {
    silent_probe("cat "@, conf_path(t))
}

/// Whether the file that a reply shows holds the configuration, leading and
/// trailing whitespace aside.
pub open spec fn in_sync(t: &WireguardTask, r: &Reply) -> bool {
    reply_prints(r, trimmed(t.config@))
}

/// The refusal of a peer action that names no peer.
pub open spec fn peer_required(t: &WireguardTask) -> ErrorView {
    requires_error("wireguard"@, t.action@, "'peer' parameter"@)
}

/// `wg set <interface> peer <peer>`, the start of both peer commands.
pub open spec fn peer_command(t: &WireguardTask) -> Seq<PieceView> {
    seq![lit("wg set "@), quote(t.interface@), lit(" peer "@), quote(t.peer@)]
}

pub open spec fn config_required() -> ErrorView {
    requires_error("wireguard"@, "sync_config"@, "'config' parameter"@)
}

/// The action that `a` names: the module also takes `setup` for `sync_config`.
pub open spec fn canonical(a: Seq<char>) -> Seq<char> {
    if a == "setup"@ {
        "sync_config"@
    } else {
        a
    }
}

fn canonical_exec(a: &str) -> (c: &str)
    ensures
        c@ == canonical(a@),
{
    if same_text(a, "setup") {
        "sync_config"
    } else {
        a
    }
}

pub open spec fn plan_probe_spec(t: &WireguardTask) -> Result<ProbeView, ErrorView> {
    let a = canonical(t.action@);
    if a == "up"@ || a == "down"@ {
        Ok(link_probe(t))
    } else if a == "sync_config"@ {
        if t.config@.len() == 0 {
            Err(config_required())
        } else {
            Ok(conf_probe(t))
        }
    } else if a == "add_peer"@ || a == "remove_peer"@ {
        if t.peer@.len() == 0 {
            Err(peer_required(t))
        } else {
            Ok(ProbeView::Nothing)
        }
    } else if a == "status"@ {
        Ok(ProbeView::Nothing)
    } else {
        Err(unknown_action("wireguard"@, a))
    }
}

pub open spec fn plan_of(t: &WireguardTask, changed: bool, description: Seq<char>) -> PlanView {
    PlanView { module: "wireguard"@, action: t.action@, changed, description }
}

pub open spec fn plan_spec(t: &WireguardTask, r: &Reply) -> Result<PlanView, ErrorView> {
    let a = canonical(t.action@);
    let i = t.interface@;
    if a == "up"@ {
        probed(
            r,
            reply_yes(r),
            plan_of(t, false, "interface '"@ + i + "' already up"@),
            plan_of(t, true, "bring up interface '"@ + i + "'"@),
        )
    } else if a == "down"@ {
        probed(
            r,
            reply_yes(r),
            plan_of(t, true, "bring down interface '"@ + i + "'"@),
            plan_of(t, false, "interface '"@ + i + "' already down"@),
        )
    } else if a == "sync_config"@ {
        if t.config@.len() == 0 {
            Err(config_required())
        } else {
            probed(
                r,
                in_sync(t, r),
                plan_of(t, false, "config for '"@ + i + "' already in sync"@),
                plan_of(t, true, "sync config for '"@ + i + "'"@),
            )
        }
    } else if a == "add_peer"@ || a == "remove_peer"@ {
        if t.peer@.len() == 0 {
            Err(peer_required(t))
        } else if a == "add_peer"@ {
            Ok(plan_of(t, true, "add peer "@ + t.peer@ + " to '"@ + i + "'"@))
        } else {
            Ok(plan_of(t, true, "remove peer "@ + t.peer@ + " from '"@ + i + "'"@))
        }
    } else if a == "status"@ {
        Ok(plan_of(t, false, "show interface '"@ + i + "'"@))
    } else {
        Err(unknown_action("wireguard"@, a))
    }
}

pub open spec fn apply_command_spec(t: &WireguardTask) -> Result<Seq<PieceView>, ErrorView> {
    let a = canonical(t.action@);
    if a == "up"@ {
        Ok(seq![lit("wg-quick up "@), quote(t.interface@)])
    } else if a == "down"@ {
        Ok(seq![lit("wg-quick down "@), quote(t.interface@)])
    } else if a == "sync_config"@ {
        if t.config@.len() == 0 {
            Err(config_required())
        } else {
            Ok(
                seq![
                    lit("printf %s "@),
                    quote(t.config@),
                    lit(" > "@),
                    quote(conf_path(t)),
                    lit(" && chmod 600 "@),
                    quote(conf_path(t)),
                ],
            )
        }
    } else if a == "add_peer"@ || a == "remove_peer"@ {
        if t.peer@.len() == 0 {
            Err(peer_required(t))
        } else if a == "add_peer"@ {
            Ok(peer_command(t) + seq![lit(" allowed-ips "@), quote(t.allowed_ips@)])
        } else {
            Ok(peer_command(t) + seq![lit(" remove"@)])
        }
    } else if a == "status"@ {
        Ok(seq![lit("wg show "@), quote(t.interface@)])
    } else {
        Err(unknown_action("wireguard"@, a))
    }
}

pub open spec fn report_spec(t: &WireguardTask, out: &ExecOutput) -> ReportView {
    ReportView {
        module: "wireguard"@,
        action: t.action@,
        success: out.success,
        changed: out.success && t.action@ != "status"@,
        message: usual_message("wireguard"@, t.action@, out),
    }
}

pub open spec fn check_probe_spec(t: &WireguardTask) -> ProbeView {
    let a = canonical(t.action@);
    if a == "up"@ || a == "down"@ {
        link_probe(t)
    } else if a == "sync_config"@ {
        conf_probe(t)
    } else {
        ProbeView::Nothing
    }
}

pub open spec fn check_spec(t: &WireguardTask, r: &Reply) -> Result<bool, ErrorView> {
    let a = canonical(t.action@);
    if a == "up"@ {
        checked(r, reply_yes(r))
    } else if a == "down"@ {
        checked(r, !reply_yes(r))
    } else if a == "sync_config"@ {
        checked(r, in_sync(t, r))
    } else {
        Ok(false)
    }
}

fn conf_path_exec(t: &WireguardTask) -> (p: String)
    ensures
        p@ == conf_path(t),
{
    concat3("/etc/wireguard/", t.interface.as_str(), ".conf")
}

fn conf_probe_exec(t: &WireguardTask) -> (p: Probe)
    ensures
        p@ == conf_probe(t),
{
    let path = conf_path_exec(t);
    silent_probe_exec("cat ", path.as_str())
}

fn in_sync_exec(t: &WireguardTask, r: &Reply) -> (b: bool)
    ensures
        b == in_sync(t, r),
{
    reply_prints_text(r, trim(t.config.as_str()))
}

impl WireguardModule {
    pub fn name(&self) -> (r: &'static str)
        ensures
            r@ == "wireguard"@,
    {
        "wireguard"
    }

    pub fn actions(&self) -> (r: &'static [&'static str])
        ensures
            r@.map_values(|s: &str| s@) == wireguard_actions(),
    {
        let r: &'static [&'static str] = &["up", "down", "sync_config", "setup", "add_peer", "remove_peer", "status"];
        assert(r@.map_values(|s: &str| s@) =~= wireguard_actions());
        r
    }

    /// What the plan of a task needs to know about the node first.
    pub fn plan_probe(&self, t: &WireguardTask) -> (r: Result<Probe, ModuleError>)
        ensures
            rview(r) == plan_probe_spec(t),
    {
        let a = canonical_exec(t.action.as_str());
        if same_text(a, "up") || same_text(a, "down") {
            Ok(silent_probe_exec("ip link show ", t.interface.as_str()))
        } else if same_text(a, "sync_config") {
            if t.config.as_str().is_empty() {
                Err(requires_failure("wireguard", "sync_config", "'config' parameter"))
            } else {
                Ok(conf_probe_exec(t))
            }
        } else if same_text(a, "add_peer") || same_text(a, "remove_peer") {
            if t.peer.as_str().is_empty() {
                Err(requires_failure("wireguard", t.action.as_str(), "'peer' parameter"))
            } else {
                Ok(Probe::Nothing)
            }
        } else if same_text(a, "status") {
            Ok(Probe::Nothing)
        } else {
            Err(unknown_action_error("wireguard", a))
        }
    }

    /// The plan of a task, given the reply to its probe.
    pub fn plan(&self, t: &WireguardTask, r: &Reply) -> (p: Result<Plan, ModuleError>)
        ensures
            rview(p) == plan_spec(t, r),
    {
        let a = canonical_exec(t.action.as_str());
        let i = t.interface.as_str();
        if same_text(a, "up") {
            probed_exec(
                r,
                reply_is_yes(r),
                make_plan("wireguard", t.action.as_str(), false, concat3("interface '", i, "' already up")),
                make_plan("wireguard", t.action.as_str(), true, concat3("bring up interface '", i, "'")),
            )
        } else if same_text(a, "down") {
            probed_exec(
                r,
                reply_is_yes(r),
                make_plan("wireguard", t.action.as_str(), true, concat3("bring down interface '", i, "'")),
                make_plan("wireguard", t.action.as_str(), false, concat3("interface '", i, "' already down")),
            )
        } else if same_text(a, "sync_config") {
            if t.config.as_str().is_empty() {
                Err(requires_failure("wireguard", "sync_config", "'config' parameter"))
            } else {
                probed_exec(
                    r,
                    in_sync_exec(t, r),
                    make_plan("wireguard", t.action.as_str(), false, concat3("config for '", i, "' already in sync")),
                    make_plan("wireguard", t.action.as_str(), true, concat3("sync config for '", i, "'")),
                )
            }
        } else if same_text(a, "add_peer") || same_text(a, "remove_peer") {
            if t.peer.as_str().is_empty() {
                Err(requires_failure("wireguard", t.action.as_str(), "'peer' parameter"))
            } else if same_text(a, "add_peer") {
                let mut d = concat3("add peer ", t.peer.as_str(), " to '");
                d.append(i);
                d.append("'");
                Ok(make_plan("wireguard", t.action.as_str(), true, d))
            } else {
                let mut d = concat3("remove peer ", t.peer.as_str(), " from '");
                d.append(i);
                d.append("'");
                Ok(make_plan("wireguard", t.action.as_str(), true, d))
            }
        } else if same_text(a, "status") {
            Ok(make_plan("wireguard", t.action.as_str(), false, concat3("show interface '", i, "'")))
        } else {
            Err(unknown_action_error("wireguard", a))
        }
    }

    /// The command that applies a task.
    pub fn apply_command(&self, t: &WireguardTask) -> (r: Result<Command, ModuleError>)
        ensures
            rview(r) == apply_command_spec(t),
    {
        let a = canonical_exec(t.action.as_str());
        let mut c = Command::new();
        if same_text(a, "up") {
            c.lit("wg-quick up ");
            c.quote(t.interface.as_str());
            assert(c@ =~= seq![lit("wg-quick up "@), quote(t.interface@)]);
        } else if same_text(a, "down") {
            c.lit("wg-quick down ");
            c.quote(t.interface.as_str());
            assert(c@ =~= seq![lit("wg-quick down "@), quote(t.interface@)]);
        } else if same_text(a, "sync_config") {
            if t.config.as_str().is_empty() {
                return Err(requires_failure("wireguard", "sync_config", "'config' parameter"));
            }
            let path = conf_path_exec(t);
            c.lit("printf %s ");
            c.quote(t.config.as_str());
            c.lit(" > ");
            c.quote(path.as_str());
            c.lit(" && chmod 600 ");
            c.quote(path.as_str());
            assert(c@ =~= seq![
                lit("printf %s "@),
                quote(t.config@),
                lit(" > "@),
                quote(conf_path(t)),
                lit(" && chmod 600 "@),
                quote(conf_path(t)),
            ]);
        } else if same_text(a, "add_peer") || same_text(a, "remove_peer") {
            if t.peer.as_str().is_empty() {
                return Err(requires_failure("wireguard", t.action.as_str(), "'peer' parameter"));
            }
            c.lit("wg set ");
            c.quote(t.interface.as_str());
            c.lit(" peer ");
            c.quote(t.peer.as_str());
            if same_text(a, "add_peer") {
                c.lit(" allowed-ips ");
                c.quote(t.allowed_ips.as_str());
                assert(c@ =~= peer_command(t) + seq![lit(" allowed-ips "@), quote(t.allowed_ips@)]);
            } else {
                c.lit(" remove");
                assert(c@ =~= peer_command(t) + seq![lit(" remove"@)]);
            }
        } else if same_text(a, "status") {
            c.lit("wg show ");
            c.quote(t.interface.as_str());
            assert(c@ =~= seq![lit("wg show "@), quote(t.interface@)]);
        } else {
            return Err(unknown_action_error("wireguard", a));
        }
        Ok(c)
    }

    /// What applying a task did, given the output of its command.
    pub fn apply_report(&self, t: &WireguardTask, out: &ExecOutput) -> (r: Report)
        ensures
            r@ == report_spec(t, out),
    {
        let a = canonical_exec(t.action.as_str());
        make_report("wireguard", t.action.as_str(), out.success, out.success && !same_text(t.action.as_str(), "status"), usual_text("wireguard", t.action.as_str(), out))
    }

    /// What checking a task needs to know about the node.
    pub fn check_probe(&self, t: &WireguardTask) -> (p: Probe)
        ensures
            p@ == check_probe_spec(t),
    {
        let a = canonical_exec(t.action.as_str());
        if same_text(a, "up") || same_text(a, "down") {
            silent_probe_exec("ip link show ", t.interface.as_str())
        } else if same_text(a, "sync_config") {
            conf_probe_exec(t)
        } else {
            Probe::Nothing
        }
    }

    /// Whether the node already is as the task asks, given the probe's reply.
    pub fn check(&self, t: &WireguardTask, r: &Reply) -> (b: Result<bool, ModuleError>)
        ensures
            rview(b) == check_spec(t, r),
    {
        let a = canonical_exec(t.action.as_str());
        if same_text(a, "up") {
            checked_exec(r, reply_is_yes(r))
        } else if same_text(a, "down") {
            checked_exec(r, !reply_is_yes(r))
        } else if same_text(a, "sync_config") {
            checked_exec(r, in_sync_exec(t, r))
        } else {
            Ok(false)
        }
    }
}


/// The actions that the module lists are exactly the actions that its plan,
/// its probes and its commands accept; any other action is refused as unknown.
pub proof fn wireguard_accepts_listed_actions(t: &WireguardTask, r: &Reply)
    ensures
        wireguard_actions().contains(t.action@) ==> plan_probe_spec(t) != Err::<ProbeView, ErrorView>(
            unknown_action("wireguard"@, t.action@),
        ) && plan_spec(t, r) != Err::<PlanView, ErrorView>(unknown_action("wireguard"@, t.action@))
            && apply_command_spec(t) != Err::<Seq<PieceView>, ErrorView>(unknown_action("wireguard"@, t.action@)),
        !wireguard_actions().contains(t.action@) ==> plan_probe_spec(t) == Err::<ProbeView, ErrorView>(
            unknown_action("wireguard"@, t.action@),
        ) && plan_spec(t, r) == Err::<PlanView, ErrorView>(unknown_action("wireguard"@, t.action@))
            && apply_command_spec(t) == Err::<Seq<PieceView>, ErrorView>(unknown_action("wireguard"@, t.action@)),
{
    let s = wireguard_actions();
    assert(s[0] == "up"@ && s[1] == "down"@ && s[2] == "sync_config"@ && s[3] == "setup"@
        && s[4] == "add_peer"@ && s[5] == "remove_peer"@ && s[6] == "status"@);
    if s.contains(t.action@) {
        let i = choose|i: int| 0 <= i < s.len() && s[i] == t.action@;
        assert(t.action@ == s[i]);
    }
}

/// Planning and checking a task ask the node the same question, and when it
/// is answered, checking finds the node as the task asks exactly when the
/// plan would change nothing.
pub proof fn wireguard_check_agrees_with_plan(t: &WireguardTask, r: &Reply)
    requires
        wireguard_actions().contains(t.action@),
        !(r is Failed),
        canonical(t.action@) == "sync_config"@ ==> t.config@.len() > 0,
        t.action@ == "add_peer"@ || t.action@ == "remove_peer"@ ==> t.peer@.len() > 0,
        t.action@ != "status"@,
    ensures
        plan_probe_spec(t) == Ok::<ProbeView, ErrorView>(check_probe_spec(t)),
        plan_spec(t, r) is Ok,
        check_spec(t, r) == Ok::<bool, ErrorView>(!plan_spec(t, r)->Ok_0.changed),
{
    reveal_strlit("up");
    assert("up"@ =~= seq!['u', 'p']);
    reveal_strlit("down");
    assert("down"@ =~= seq!['d', 'o', 'w', 'n']);
    reveal_strlit("sync_config");
    assert("sync_config"@ =~= seq!['s', 'y', 'n', 'c', '_', 'c', 'o', 'n', 'f', 'i', 'g']);
    reveal_strlit("setup");
    assert("setup"@ =~= seq!['s', 'e', 't', 'u', 'p']);
    reveal_strlit("add_peer");
    assert("add_peer"@ =~= seq!['a', 'd', 'd', '_', 'p', 'e', 'e', 'r']);
    reveal_strlit("remove_peer");
    assert("remove_peer"@ =~= seq!['r', 'e', 'm', 'o', 'v', 'e', '_', 'p', 'e', 'e', 'r']);
    reveal_strlit("status");
    assert("status"@ =~= seq!['s', 't', 'a', 't', 'u', 's']);
    wireguard_accepts_listed_actions(t, r);
}

/// A report marks a change only when the command succeeded, and its success
/// is that of the command.
pub proof fn wireguard_report_change_needs_success(t: &WireguardTask, out: &ExecOutput)
    ensures
        report_spec(t, out).success == out.success,
        report_spec(t, out).changed ==> report_spec(t, out).success,
{
}

/// Whether two tasks differ at most in the values of their parameters:
/// same action, same switches, and the same parameters left empty.
pub open spec fn same_shape(t1: &WireguardTask, t2: &WireguardTask) -> bool {
    &&& t1.action@ == t2.action@
    &&& (t1.config@.len() == 0) == (t2.config@.len() == 0)
    &&& (t1.peer@.len() == 0) == (t2.peer@.len() == 0)
}

/// Parameter values reach the shell only as values to quote: the literal
/// text of a task's command depends on its action, its switches and which
/// parameters are set, never on what they hold.
pub proof fn wireguard_values_only_quoted(t1: &WireguardTask, t2: &WireguardTask)
    requires
        same_shape(t1, t2),
    ensures
        apply_command_spec(t1) is Ok <==> apply_command_spec(t2) is Ok,
        apply_command_spec(t1) is Ok ==> same_literals(
            apply_command_spec(t1)->Ok_0,
            apply_command_spec(t2)->Ok_0,
        ),
{

}

/// What each action runs: the interface of the task is brought up or down,
/// its config written to /etc/wireguard/<interface>.conf and made private,
/// and peers added with their allowed addresses or removed, by public key.
pub proof fn wireguard_commands_carry_their_parameters(t: &WireguardTask)
    ensures
        (t.action@ == "sync_config"@ || t.action@ == "setup"@) ==> (t.config@.len() == 0 <==> apply_command_spec(t) is Err),
        (t.action@ == "sync_config"@ || t.action@ == "setup"@) && t.config@.len() > 0 ==> apply_command_spec(t)
            == Ok::<Seq<PieceView>, ErrorView>(
            seq![lit("printf %s "@), quote(t.config@), lit(" > "@), quote("/etc/wireguard/"@ + t.interface@ + ".conf"@), lit(" && chmod 600 "@), quote("/etc/wireguard/"@ + t.interface@ + ".conf"@)],
        ),
        (t.action@ == "add_peer"@ || t.action@ == "remove_peer"@) ==> (t.peer@.len() == 0 <==> apply_command_spec(t) is Err),
        t.action@ == "add_peer"@ && t.peer@.len() > 0 ==> apply_command_spec(t) == Ok::<Seq<PieceView>, ErrorView>(
            seq![lit("wg set "@), quote(t.interface@), lit(" peer "@), quote(t.peer@), lit(" allowed-ips "@), quote(t.allowed_ips@)],
        ),
        t.action@ == "remove_peer"@ && t.peer@.len() > 0 ==> apply_command_spec(t) == Ok::<Seq<PieceView>, ErrorView>(
            seq![lit("wg set "@), quote(t.interface@), lit(" peer "@), quote(t.peer@), lit(" remove"@)],
        ),
        t.action@ == "up"@ ==> apply_command_spec(t) == Ok::<Seq<PieceView>, ErrorView>(
            seq![lit("wg-quick up "@), quote(t.interface@)],
        ),
        t.action@ == "down"@ ==> apply_command_spec(t) == Ok::<Seq<PieceView>, ErrorView>(
            seq![lit("wg-quick down "@), quote(t.interface@)],
        ),
        t.action@ == "status"@ ==> apply_command_spec(t) == Ok::<Seq<PieceView>, ErrorView>(
            seq![lit("wg show "@), quote(t.interface@)],
        ),
{
    reveal_strlit("up");
    assert("up"@ =~= seq!['u', 'p']);
    reveal_strlit("down");
    assert("down"@ =~= seq!['d', 'o', 'w', 'n']);
    reveal_strlit("sync_config");
    assert("sync_config"@ =~= seq!['s', 'y', 'n', 'c', '_', 'c', 'o', 'n', 'f', 'i', 'g']);
    reveal_strlit("setup");
    assert("setup"@ =~= seq!['s', 'e', 't', 'u', 'p']);
    reveal_strlit("add_peer");
    assert("add_peer"@ =~= seq!['a', 'd', 'd', '_', 'p', 'e', 'e', 'r']);
    reveal_strlit("remove_peer");
    assert("remove_peer"@ =~= seq!['r', 'e', 'm', 'o', 'v', 'e', '_', 'p', 'e', 'e', 'r']);
    reveal_strlit("status");
    assert("status"@ =~= seq!['s', 't', 'a', 't', 'u', 's']);
    assert(peer_command(t) + seq![lit(" allowed-ips "@), quote(t.allowed_ips@)] =~= seq![
        lit("wg set "@),
        quote(t.interface@),
        lit(" peer "@),
        quote(t.peer@),
        lit(" allowed-ips "@),
        quote(t.allowed_ips@),
    ]);
    assert(peer_command(t) + seq![lit(" remove"@)] =~= seq![
        lit("wg set "@),
        quote(t.interface@),
        lit(" peer "@),
        quote(t.peer@),
        lit(" remove"@),
    ]);
}

/// What a plan asks the node and when it plans a change: an interface is
/// brought up only when `ip link show` fails for it and down only when it
/// succeeds; the config is written only when the file does not already hold
/// it, surrounding whitespace aside; peer changes always change; status
/// changes nothing.
pub proof fn wireguard_plans_follow_the_node(t: &WireguardTask, r: &Reply)
    ensures
        t.action@ == "up"@ ==> plan_probe_spec(t) == Ok::<ProbeView, ErrorView>(ProbeView::Shell(seq![lit("ip link show "@), quote(t.interface@), lit(" 2>/dev/null"@)])),
        t.action@ == "up"@ && !(r is Failed) ==> plan_spec(t, r) is Ok && plan_spec(t, r)->Ok_0.changed == (!(match r { Reply::Output(o) => o.success, Reply::Exists(b) => *b, _ => false })),
        t.action@ == "down"@ ==> plan_probe_spec(t) == Ok::<ProbeView, ErrorView>(ProbeView::Shell(seq![lit("ip link show "@), quote(t.interface@), lit(" 2>/dev/null"@)])),
        t.action@ == "down"@ && !(r is Failed) ==> plan_spec(t, r) is Ok && plan_spec(t, r)->Ok_0.changed == ((match r { Reply::Output(o) => o.success, Reply::Exists(b) => *b, _ => false })),
        t.action@ == "sync_config"@ && t.config@.len() > 0 ==> plan_probe_spec(t) == Ok::<ProbeView, ErrorView>(ProbeView::Shell(seq![lit("cat "@), quote("/etc/wireguard/"@ + t.interface@ + ".conf"@), lit(" 2>/dev/null"@)])),
        t.action@ == "sync_config"@ && t.config@.len() > 0 && !(r is Failed) ==> plan_spec(t, r) is Ok && plan_spec(t, r)->Ok_0.changed == (!(r matches Reply::Output(o) && o.success && trimmed(o.stdout@) == trimmed(t.config@))),
        t.action@ == "setup"@ && t.config@.len() > 0 ==> plan_probe_spec(t) == Ok::<ProbeView, ErrorView>(ProbeView::Shell(seq![lit("cat "@), quote("/etc/wireguard/"@ + t.interface@ + ".conf"@), lit(" 2>/dev/null"@)])),
        t.action@ == "setup"@ && t.config@.len() > 0 && !(r is Failed) ==> plan_spec(t, r) is Ok && plan_spec(t, r)->Ok_0.changed == (!(r matches Reply::Output(o) && o.success && trimmed(o.stdout@) == trimmed(t.config@))),
        t.action@ == "add_peer"@ && t.peer@.len() > 0 ==> plan_probe_spec(t) == Ok::<ProbeView, ErrorView>(ProbeView::Nothing),
        t.action@ == "add_peer"@ && t.peer@.len() > 0 && !(r is Failed) ==> plan_spec(t, r) is Ok && plan_spec(t, r)->Ok_0.changed == (true),
        t.action@ == "remove_peer"@ && t.peer@.len() > 0 ==> plan_probe_spec(t) == Ok::<ProbeView, ErrorView>(ProbeView::Nothing),
        t.action@ == "remove_peer"@ && t.peer@.len() > 0 && !(r is Failed) ==> plan_spec(t, r) is Ok && plan_spec(t, r)->Ok_0.changed == (true),
        t.action@ == "status"@ ==> plan_probe_spec(t) == Ok::<ProbeView, ErrorView>(ProbeView::Nothing),
        t.action@ == "status"@ && !(r is Failed) ==> plan_spec(t, r) is Ok && plan_spec(t, r)->Ok_0.changed == (false),
{
    reveal_strlit("up");
    assert("up"@ =~= seq!['u', 'p']);
    reveal_strlit("down");
    assert("down"@ =~= seq!['d', 'o', 'w', 'n']);
    reveal_strlit("sync_config");
    assert("sync_config"@ =~= seq!['s', 'y', 'n', 'c', '_', 'c', 'o', 'n', 'f', 'i', 'g']);
    reveal_strlit("setup");
    assert("setup"@ =~= seq!['s', 'e', 't', 'u', 'p']);
    reveal_strlit("add_peer");
    assert("add_peer"@ =~= seq!['a', 'd', 'd', '_', 'p', 'e', 'e', 'r']);
    reveal_strlit("remove_peer");
    assert("remove_peer"@ =~= seq!['r', 'e', 'm', 'o', 'v', 'e', '_', 'p', 'e', 'e', 'r']);
    reveal_strlit("status");
    assert("status"@ =~= seq!['s', 't', 'a', 't', 'u', 's']);
}

/// What a report says: it is the wireguard module's, for the task's action; it
/// succeeds exactly when the command did, marks a change exactly when a
/// changing action succeeded, and says `ok`, or `failed:` with the command's
/// error output trimmed.
pub proof fn wireguard_reports_what_the_command_did(t: &WireguardTask, out: &ExecOutput)
    ensures
        report_spec(t, out) == (ReportView {
            module: "wireguard"@,
            action: t.action@,
            success: out.success,
            changed: out.success && t.action@ != "status"@,
            message: if out.success {
                "wireguard"@ + " "@ + t.action@ + " — ok"@
            } else {
                "wireguard"@ + " "@ + t.action@ + " — failed: "@ + trimmed(out.stderr@)
            },
        }),
{
}

} // verus!
