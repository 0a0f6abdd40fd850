//! Nginx: site_enable, site_disable, config_test, reload, restart, and
//! certificates for a site through certbot.

use vstd::prelude::*;
use crate::command::{Command, PieceView, lit, quote, same_literals};
use crate::task::{
    checked, checked_exec, make_plan, make_report, probed, probed_exec, reply_is_yes, reply_yes,
    requires_error, requires_failure, rview, unknown_action, unknown_action_error, usual_message,
    usual_text, ErrorView, ExecOutput, ModuleError, Plan, PlanView, Probe, ProbeView, Reply, Report,
    ReportView,
};
use crate::text::{concat3, same_text, trimmed};

verus! {

/// The nginx module.
#[derive(Debug)]
pub struct NginxModule;

/// The parameters of an nginx task, as the driver read them.
#[derive(Debug)]
pub struct NginxTask {
    pub action: String,
    pub site: String,
}

impl NginxTask {
    /// A task of the given action with every parameter at its default: what
    /// the driver starts from before it reads the parameters the task sets.
    pub fn defaults(action: &str) -> (t: NginxTask)
        ensures
            t.action@ == action@,
            t.site@ == ""@,
    {
        NginxTask {
            action: action.to_owned(),
            site: "".to_owned(),
        }
    }
}

/// The actions of the module, in the order it lists them.
pub open spec fn nginx_actions() -> Seq<Seq<char>> {
    seq![
        "site_enable"@,
        "site_disable"@,
        "config_test"@,
        "reload"@,
        "restart"@,
        "config"@,
        "enable_site"@,
        "disable_site"@,
        "certbot"@,
    ]
}

/// Whether the action names a site.
pub open spec fn site_action(a: Seq<char>) -> bool {
    a == "site_enable"@ || a == "site_disable"@
}

/// The probe that tells whether the site is enabled: its link exists.
pub open spec fn enabled_probe(t: &NginxTask) -> ProbeView {
    ProbeView::Shell(seq![lit("test -L /etc/nginx/sites-enabled/"@), quote(t.site@)])
}

pub open spec fn site_required(t: &NginxTask) -> ErrorView {
    requires_error("nginx"@, t.action@, "'site' parameter"@)
}

/// The action that `a` names: the module also takes `config` for `config_test`, `enable_site` for `site_enable`, `disable_site` for `site_disable`.
pub open spec fn canonical(a: Seq<char>) -> Seq<char> {
    if a == "config"@ {
        "config_test"@
    } else if a == "enable_site"@ {
        "site_enable"@
    } else if a == "disable_site"@ {
        "site_disable"@
    } else {
        a
    }
}

fn canonical_exec(a: &str) -> (c: &str)
    ensures
        c@ == canonical(a@),
{
    if same_text(a, "config") {
        "config_test"
    } else if same_text(a, "enable_site") {
        "site_enable"
    } else if same_text(a, "disable_site") {
        "site_disable"
    } else {
        a
    }
}

pub open spec fn plan_probe_spec(t: &NginxTask) -> Result<ProbeView, ErrorView> {
    let a = canonical(t.action@);
    if site_action(a) {
        if t.site@.len() == 0 {
            Err(site_required(t))
        } else {
            Ok(enabled_probe(t))
        }
    } else if a == "config_test"@ || a == "reload"@ || a == "restart"@ {
        Ok(ProbeView::Nothing)
    } else if a == "certbot"@ {
        if t.site@.len() == 0 {
            Err(site_required(t))
        } else {
            Ok(ProbeView::Nothing)
        }
    } else {
        Err(unknown_action("nginx"@, a))
    }
}

pub open spec fn plan_of(t: &NginxTask, changed: bool, description: Seq<char>) -> PlanView {
    PlanView { module: "nginx"@, action: t.action@, changed, description }
}

pub open spec fn plan_spec(t: &NginxTask, r: &Reply) -> Result<PlanView, ErrorView> {
    let a = canonical(t.action@);
    let site = t.site@;
    if a == "site_enable"@ {
        if site.len() == 0 {
            Err(site_required(t))
        } else {
            probed(
                r,
                reply_yes(r),
                plan_of(t, false, "site '"@ + site + "' already enabled"@),
                plan_of(t, true, "enable site '"@ + site + "'"@),
            )
        }
    } else if a == "site_disable"@ {
        if site.len() == 0 {
            Err(site_required(t))
        } else {
            probed(
                r,
                reply_yes(r),
                plan_of(t, true, "disable site '"@ + site + "'"@),
                plan_of(t, false, "site '"@ + site + "' already disabled"@),
            )
        }
    } else if a == "config_test"@ {
        Ok(plan_of(t, true, "test nginx configuration"@))
    } else if a == "reload"@ {
        Ok(plan_of(t, true, "reload nginx"@))
    } else if a == "restart"@ {
        Ok(plan_of(t, true, "restart nginx"@))
    } else if a == "certbot"@ {
        if t.site@.len() == 0 {
            Err(site_required(t))
        } else {
            Ok(plan_of(t, true, "obtain certificate for "@ + t.site@ + " through certbot"@))
        }
    } else {
        Err(unknown_action("nginx"@, a))
    }
}

pub open spec fn apply_command_spec(t: &NginxTask) -> Result<Seq<PieceView>, ErrorView> {
    let a = canonical(t.action@);
    let site = t.site@;
    if site_action(a) && site.len() == 0 {
        Err(site_required(t))
    } else if a == "site_enable"@ {
        Ok(
            seq![
                lit("ln -sf /etc/nginx/sites-available/"@),
                quote(site),
                lit(" /etc/nginx/sites-enabled/"@),
                quote(site),
                lit(" && nginx -s reload"@),
            ],
        )
    } else if a == "site_disable"@ {
        Ok(seq![lit("rm -f /etc/nginx/sites-enabled/"@), quote(site), lit(" && nginx -s reload"@)])
    } else if a == "config_test"@ {
        Ok(seq![lit("nginx -t"@)])
    } else if a == "reload"@ {
        Ok(seq![lit("nginx -s reload"@)])
    } else if a == "restart"@ {
        Ok(seq![lit("systemctl restart nginx"@)])
    } else if a == "certbot"@ {
        if site.len() == 0 {
            Err(site_required(t))
        } else {
            Ok(seq![lit("certbot --nginx --non-interactive -d "@), quote(site)])
        }
    } else {
        Err(unknown_action("nginx"@, a))
    }
}

pub open spec fn report_spec(t: &NginxTask, out: &ExecOutput) -> ReportView {
    ReportView {
        module: "nginx"@,
        action: t.action@,
        success: out.success,
        changed: out.success,
        message: usual_message("nginx"@, t.action@, out),
    }
}

pub open spec fn check_probe_spec(t: &NginxTask) -> ProbeView {
    if site_action(canonical(t.action@)) {
        enabled_probe(t)
    } else {
        ProbeView::Nothing
    }
}

pub open spec fn check_spec(t: &NginxTask, r: &Reply) -> Result<bool, ErrorView> {
    let a = canonical(t.action@);
    if a == "site_enable"@ {
        checked(r, reply_yes(r))
    } else if a == "site_disable"@ {
        checked(r, !reply_yes(r))
    } else {
        Ok(false)
    }
}

fn is_site_action(a: &str) -> (b: bool)
    ensures
        b == site_action(a@),
{
    same_text(a, "site_enable") || same_text(a, "site_disable")
}

fn enabled_probe_exec(t: &NginxTask) -> (p: Probe)
    ensures
        p@ == enabled_probe(t),
{
    let mut c = Command::new();
    c.lit("test -L /etc/nginx/sites-enabled/");
    c.quote(t.site.as_str());
    assert(c@ =~= seq![lit("test -L /etc/nginx/sites-enabled/"@), quote(t.site@)]);
    Probe::Shell(c)
}

fn fixed(text: &str) -> (c: Command)
    ensures
        c@ == seq![lit(text@)],
{
    let mut c = Command::new();
    c.lit(text);
    c
}

impl NginxModule {
    pub fn name(&self) -> (r: &'static str)
        ensures
            r@ == "nginx"@,
    {
        "nginx"
    }

    pub fn actions(&self) -> (r: &'static [&'static str])
        ensures
            r@.map_values(|s: &str| s@) == nginx_actions(),
    {
        let r: &'static [&'static str] = &[
            "site_enable",
            "site_disable",
            "config_test",
            "reload",
            "restart",
            "config",
            "enable_site",
            "disable_site",
            "certbot",
        ];
        assert(r@.map_values(|s: &str| s@) =~= nginx_actions());
        r
    }

    /// What the plan of a task needs to know about the node first.
    pub fn plan_probe(&self, t: &NginxTask) -> (r: Result<Probe, ModuleError>)
        ensures
            rview(r) == plan_probe_spec(t),
    {
        let a = canonical_exec(t.action.as_str());
        if is_site_action(a) {
            if t.site.as_str().is_empty() {
                Err(requires_failure("nginx", t.action.as_str(), "'site' parameter"))
            } else {
                Ok(enabled_probe_exec(t))
            }
        } else if same_text(a, "config_test") || same_text(a, "reload") || same_text(a, "restart") {
            Ok(Probe::Nothing)
        } else if same_text(a, "certbot") {
            if t.site.as_str().is_empty() {
                Err(requires_failure("nginx", t.action.as_str(), "'site' parameter"))
            } else {
                Ok(Probe::Nothing)
            }
        } else {
            Err(unknown_action_error("nginx", a))
        }
    }

    /// The plan of a task, given the reply to its probe.
    pub fn plan(&self, t: &NginxTask, r: &Reply) -> (p: Result<Plan, ModuleError>)
        ensures
            rview(p) == plan_spec(t, r),
    {
        let a = canonical_exec(t.action.as_str());
        let site = t.site.as_str();
        if same_text(a, "site_enable") {
            if site.is_empty() {
                Err(requires_failure("nginx", t.action.as_str(), "'site' parameter"))
            } else {
                probed_exec(
                    r,
                    reply_is_yes(r),
                    make_plan("nginx", t.action.as_str(), false, concat3("site '", site, "' already enabled")),
                    make_plan("nginx", t.action.as_str(), true, concat3("enable site '", site, "'")),
                )
            }
        } else if same_text(a, "site_disable") {
            if site.is_empty() {
                Err(requires_failure("nginx", t.action.as_str(), "'site' parameter"))
            } else {
                probed_exec(
                    r,
                    reply_is_yes(r),
                    make_plan("nginx", t.action.as_str(), true, concat3("disable site '", site, "'")),
                    make_plan("nginx", t.action.as_str(), false, concat3("site '", site, "' already disabled")),
                )
            }
        } else if same_text(a, "config_test") {
            Ok(make_plan("nginx", t.action.as_str(), true, "test nginx configuration".to_owned()))
        } else if same_text(a, "reload") {
            Ok(make_plan("nginx", t.action.as_str(), true, "reload nginx".to_owned()))
        } else if same_text(a, "restart") {
            Ok(make_plan("nginx", t.action.as_str(), true, "restart nginx".to_owned()))
        } else if same_text(a, "certbot") {
            if t.site.as_str().is_empty() {
                Err(requires_failure("nginx", t.action.as_str(), "'site' parameter"))
            } else {
                Ok(make_plan("nginx", t.action.as_str(), true, concat3("obtain certificate for ", t.site.as_str(), " through certbot")))
            }
        } else {
            Err(unknown_action_error("nginx", a))
        }
    }

    /// The command that applies a task.
    pub fn apply_command(&self, t: &NginxTask) -> (r: Result<Command, ModuleError>)
        ensures
            rview(r) == apply_command_spec(t),
    {
        let a = canonical_exec(t.action.as_str());
        let site = t.site.as_str();
        if is_site_action(a) && site.is_empty() {
            Err(requires_failure("nginx", t.action.as_str(), "'site' parameter"))
        } else if same_text(a, "site_enable") {
            let mut c = Command::new();
            c.lit("ln -sf /etc/nginx/sites-available/");
            c.quote(site);
            c.lit(" /etc/nginx/sites-enabled/");
            c.quote(site);
            c.lit(" && nginx -s reload");
            assert(c@ =~= seq![
                lit("ln -sf /etc/nginx/sites-available/"@),
                quote(site@),
                lit(" /etc/nginx/sites-enabled/"@),
                quote(site@),
                lit(" && nginx -s reload"@),
            ]);
            Ok(c)
        } else if same_text(a, "site_disable") {
            let mut c = Command::new();
            c.lit("rm -f /etc/nginx/sites-enabled/");
            c.quote(site);
            c.lit(" && nginx -s reload");
            assert(c@ =~= seq![
                lit("rm -f /etc/nginx/sites-enabled/"@),
                quote(site@),
                lit(" && nginx -s reload"@),
            ]);
            Ok(c)
        } else if same_text(a, "config_test") {
            Ok(fixed("nginx -t"))
        } else if same_text(a, "reload") {
            Ok(fixed("nginx -s reload"))
        } else if same_text(a, "restart") {
            Ok(fixed("systemctl restart nginx"))
        } else if same_text(a, "certbot") {
            if site.is_empty() {
                return Err(requires_failure("nginx", t.action.as_str(), "'site' parameter"));
            }
            let mut c = Command::new();
            c.lit("certbot --nginx --non-interactive -d ");
            c.quote(site);
            assert(c@ =~= seq![lit("certbot --nginx --non-interactive -d "@), quote(site@)]);
            Ok(c)
        } else {
            Err(unknown_action_error("nginx", a))
        }
    }

    /// What applying a task did, given the output of its command.
    pub fn apply_report(&self, t: &NginxTask, out: &ExecOutput) -> (r: Report)
        ensures
            r@ == report_spec(t, out),
    {
        let a = canonical_exec(t.action.as_str());
        make_report("nginx", t.action.as_str(), out.success, out.success, usual_text("nginx", t.action.as_str(), out))
    }

    /// What checking a task needs to know about the node.
    pub fn check_probe(&self, t: &NginxTask) -> (p: Probe)
        ensures
            p@ == check_probe_spec(t),
    {
        if is_site_action(canonical_exec(t.action.as_str())) {
            enabled_probe_exec(t)
        } else {
            Probe::Nothing
        }
    }

    /// Whether the node already is as the task asks, given the probe's reply.
    pub fn check(&self, t: &NginxTask, r: &Reply) -> (b: Result<bool, ModuleError>)
        ensures
            rview(b) == check_spec(t, r),
    {
        let a = canonical_exec(t.action.as_str());
        if same_text(a, "site_enable") {
            checked_exec(r, reply_is_yes(r))
        } else if same_text(a, "site_disable") {
            checked_exec(r, !reply_is_yes(r))
        } else {
            Ok(false)
        }
    }
}


/// The actions that the module lists are exactly the actions that its plan,
/// its probes and its commands accept; any other action is refused as unknown.
pub proof fn nginx_accepts_listed_actions(t: &NginxTask, r: &Reply)
    ensures
        nginx_actions().contains(t.action@) ==> plan_probe_spec(t) != Err::<ProbeView, ErrorView>(
            unknown_action("nginx"@, t.action@),
        ) && plan_spec(t, r) != Err::<PlanView, ErrorView>(unknown_action("nginx"@, t.action@))
            && apply_command_spec(t) != Err::<Seq<PieceView>, ErrorView>(unknown_action("nginx"@, t.action@)),
        !nginx_actions().contains(t.action@) ==> plan_probe_spec(t) == Err::<ProbeView, ErrorView>(
            unknown_action("nginx"@, t.action@),
        ) && plan_spec(t, r) == Err::<PlanView, ErrorView>(unknown_action("nginx"@, t.action@))
            && apply_command_spec(t) == Err::<Seq<PieceView>, ErrorView>(unknown_action("nginx"@, t.action@)),
{
    let s = nginx_actions();
    assert(s[0] == "site_enable"@ && s[1] == "site_disable"@ && s[2] == "config_test"@ && s[3] == "reload"@ && s[4] == "restart"@
        && s[5] == "config"@ && s[6] == "enable_site"@ && s[7] == "disable_site"@ && s[8] == "certbot"@);
    if s.contains(t.action@) {
        let i = choose|i: int| 0 <= i < s.len() && s[i] == t.action@;
        assert(t.action@ == s[i]);
    }
}

/// Planning and checking a task ask the node the same question, and when it
/// is answered, checking finds the node as the task asks exactly when the
/// plan would change nothing.
pub proof fn nginx_check_agrees_with_plan(t: &NginxTask, r: &Reply)
    requires
        nginx_actions().contains(t.action@),
        !(r is Failed),
        site_action(canonical(t.action@)) || t.action@ == "certbot"@ ==> t.site@.len() > 0,
    ensures
        plan_probe_spec(t) == Ok::<ProbeView, ErrorView>(check_probe_spec(t)),
        plan_spec(t, r) is Ok,
        check_spec(t, r) == Ok::<bool, ErrorView>(!plan_spec(t, r)->Ok_0.changed),
{
    reveal_strlit("site_enable");
    assert("site_enable"@ =~= seq!['s', 'i', 't', 'e', '_', 'e', 'n', 'a', 'b', 'l', 'e']);
    reveal_strlit("site_disable");
    assert("site_disable"@ =~= seq!['s', 'i', 't', 'e', '_', 'd', 'i', 's', 'a', 'b', 'l', 'e']);
    reveal_strlit("config_test");
    assert("config_test"@ =~= seq!['c', 'o', 'n', 'f', 'i', 'g', '_', 't', 'e', 's', 't']);
    reveal_strlit("reload");
    assert("reload"@ =~= seq!['r', 'e', 'l', 'o', 'a', 'd']);
    reveal_strlit("restart");
    assert("restart"@ =~= seq!['r', 'e', 's', 't', 'a', 'r', 't']);
    reveal_strlit("config");
    assert("config"@ =~= seq!['c', 'o', 'n', 'f', 'i', 'g']);
    reveal_strlit("enable_site");
    assert("enable_site"@ =~= seq!['e', 'n', 'a', 'b', 'l', 'e', '_', 's', 'i', 't', 'e']);
    reveal_strlit("disable_site");
    assert("disable_site"@ =~= seq!['d', 'i', 's', 'a', 'b', 'l', 'e', '_', 's', 'i', 't', 'e']);
    reveal_strlit("certbot");
    assert("certbot"@ =~= seq!['c', 'e', 'r', 't', 'b', 'o', 't']);
    nginx_accepts_listed_actions(t, r);
}

/// A report marks a change only when the command succeeded, and its success
/// is that of the command.
pub proof fn nginx_report_change_needs_success(t: &NginxTask, out: &ExecOutput)
    ensures
        report_spec(t, out).success == out.success,
        report_spec(t, out).changed ==> report_spec(t, out).success,
{
}

/// Whether two tasks differ at most in the values of their parameters:
/// same action, same switches, and the same parameters left empty.
pub open spec fn same_shape(t1: &NginxTask, t2: &NginxTask) -> bool {
    &&& t1.action@ == t2.action@
    &&& (t1.site@.len() == 0) == (t2.site@.len() == 0)
}

/// Parameter values reach the shell only as values to quote: the literal
/// text of a task's command depends on its action, its switches and which
/// parameters are set, never on what they hold.
pub proof fn nginx_values_only_quoted(t1: &NginxTask, t2: &NginxTask)
    requires
        same_shape(t1, t2),
    ensures
        apply_command_spec(t1) is Ok <==> apply_command_spec(t2) is Ok,
        apply_command_spec(t1) is Ok ==> same_literals(
            apply_command_spec(t1)->Ok_0,
            apply_command_spec(t2)->Ok_0,
        ),
{

}

/// What each action runs: enabling a site links it from sites-available
/// into sites-enabled and reloads, disabling removes that link and reloads,
/// both for the task's site; the rest act on the server as a whole.
pub proof fn nginx_commands_carry_their_parameters(t: &NginxTask)
    ensures
        (t.action@ == "site_enable"@ || t.action@ == "enable_site"@ || t.action@ == "site_disable"@ || t.action@
            == "disable_site"@ || t.action@ == "certbot"@) ==> (t.site@.len() == 0 <==> apply_command_spec(t) is Err),
        (t.action@ == "site_enable"@ || t.action@ == "enable_site"@) && t.site@.len() > 0 ==> apply_command_spec(t)
            == Ok::<Seq<PieceView>, ErrorView>(seq![lit("ln -sf /etc/nginx/sites-available/"@), quote(t.site@), lit(" /etc/nginx/sites-enabled/"@), quote(t.site@), lit(" && nginx -s reload"@)]),
        (t.action@ == "site_disable"@ || t.action@ == "disable_site"@) && t.site@.len() > 0 ==> apply_command_spec(t)
            == Ok::<Seq<PieceView>, ErrorView>(seq![lit("rm -f /etc/nginx/sites-enabled/"@), quote(t.site@), lit(" && nginx -s reload"@)]),
        t.action@ == "certbot"@ && t.site@.len() > 0 ==> apply_command_spec(t) == Ok::<Seq<PieceView>, ErrorView>(
            seq![lit("certbot --nginx --non-interactive -d "@), quote(t.site@)],
        ),
        t.action@ == "config_test"@ ==> apply_command_spec(t) == Ok::<Seq<PieceView>, ErrorView>(
            seq![lit("nginx -t"@)],
        ),
        t.action@ == "config"@ ==> apply_command_spec(t) == Ok::<Seq<PieceView>, ErrorView>(
            seq![lit("nginx -t"@)],
        ),
        t.action@ == "reload"@ ==> apply_command_spec(t) == Ok::<Seq<PieceView>, ErrorView>(
            seq![lit("nginx -s reload"@)],
        ),
        t.action@ == "restart"@ ==> apply_command_spec(t) == Ok::<Seq<PieceView>, ErrorView>(
            seq![lit("systemctl restart nginx"@)],
        ),
{
    reveal_strlit("site_enable");
    assert("site_enable"@ =~= seq!['s', 'i', 't', 'e', '_', 'e', 'n', 'a', 'b', 'l', 'e']);
    reveal_strlit("site_disable");
    assert("site_disable"@ =~= seq!['s', 'i', 't', 'e', '_', 'd', 'i', 's', 'a', 'b', 'l', 'e']);
    reveal_strlit("config_test");
    assert("config_test"@ =~= seq!['c', 'o', 'n', 'f', 'i', 'g', '_', 't', 'e', 's', 't']);
    reveal_strlit("reload");
    assert("reload"@ =~= seq!['r', 'e', 'l', 'o', 'a', 'd']);
    reveal_strlit("restart");
    assert("restart"@ =~= seq!['r', 'e', 's', 't', 'a', 'r', 't']);
    reveal_strlit("config");
    assert("config"@ =~= seq!['c', 'o', 'n', 'f', 'i', 'g']);
    reveal_strlit("enable_site");
    assert("enable_site"@ =~= seq!['e', 'n', 'a', 'b', 'l', 'e', '_', 's', 'i', 't', 'e']);
    reveal_strlit("disable_site");
    assert("disable_site"@ =~= seq!['d', 'i', 's', 'a', 'b', 'l', 'e', '_', 's', 'i', 't', 'e']);
    reveal_strlit("certbot");
    assert("certbot"@ =~= seq!['c', 'e', 'r', 't', 'b', 'o', 't']);
}

/// What a plan asks the node and when it plans a change: a site is enabled
/// only when its link in sites-enabled is missing, and disabled only when it
/// is there; the server-wide actions and certbot always change.
pub proof fn nginx_plans_follow_the_node(t: &NginxTask, r: &Reply)
    ensures
        t.action@ == "site_enable"@ && t.site@.len() > 0 ==> plan_probe_spec(t) == Ok::<ProbeView, ErrorView>(ProbeView::Shell(seq![lit("test -L /etc/nginx/sites-enabled/"@), quote(t.site@)])),
        t.action@ == "site_enable"@ && t.site@.len() > 0 && !(r is Failed) ==> plan_spec(t, r) is Ok && plan_spec(t, r)->Ok_0.changed == (!(match r { Reply::Output(o) => o.success, Reply::Exists(b) => *b, _ => false })),
        t.action@ == "enable_site"@ && t.site@.len() > 0 ==> plan_probe_spec(t) == Ok::<ProbeView, ErrorView>(ProbeView::Shell(seq![lit("test -L /etc/nginx/sites-enabled/"@), quote(t.site@)])),
        t.action@ == "enable_site"@ && t.site@.len() > 0 && !(r is Failed) ==> plan_spec(t, r) is Ok && plan_spec(t, r)->Ok_0.changed == (!(match r { Reply::Output(o) => o.success, Reply::Exists(b) => *b, _ => false })),
        t.action@ == "site_disable"@ && t.site@.len() > 0 ==> plan_probe_spec(t) == Ok::<ProbeView, ErrorView>(ProbeView::Shell(seq![lit("test -L /etc/nginx/sites-enabled/"@), quote(t.site@)])),
        t.action@ == "site_disable"@ && t.site@.len() > 0 && !(r is Failed) ==> plan_spec(t, r) is Ok && plan_spec(t, r)->Ok_0.changed == ((match r { Reply::Output(o) => o.success, Reply::Exists(b) => *b, _ => false })),
        t.action@ == "disable_site"@ && t.site@.len() > 0 ==> plan_probe_spec(t) == Ok::<ProbeView, ErrorView>(ProbeView::Shell(seq![lit("test -L /etc/nginx/sites-enabled/"@), quote(t.site@)])),
        t.action@ == "disable_site"@ && t.site@.len() > 0 && !(r is Failed) ==> plan_spec(t, r) is Ok && plan_spec(t, r)->Ok_0.changed == ((match r { Reply::Output(o) => o.success, Reply::Exists(b) => *b, _ => false })),
        t.action@ == "config_test"@ ==> plan_probe_spec(t) == Ok::<ProbeView, ErrorView>(ProbeView::Nothing),
        t.action@ == "config_test"@ && !(r is Failed) ==> plan_spec(t, r) is Ok && plan_spec(t, r)->Ok_0.changed == (true),
        t.action@ == "config"@ ==> plan_probe_spec(t) == Ok::<ProbeView, ErrorView>(ProbeView::Nothing),
        t.action@ == "config"@ && !(r is Failed) ==> plan_spec(t, r) is Ok && plan_spec(t, r)->Ok_0.changed == (true),
        t.action@ == "reload"@ ==> plan_probe_spec(t) == Ok::<ProbeView, ErrorView>(ProbeView::Nothing),
        t.action@ == "reload"@ && !(r is Failed) ==> plan_spec(t, r) is Ok && plan_spec(t, r)->Ok_0.changed == (true),
        t.action@ == "restart"@ ==> plan_probe_spec(t) == Ok::<ProbeView, ErrorView>(ProbeView::Nothing),
        t.action@ == "restart"@ && !(r is Failed) ==> plan_spec(t, r) is Ok && plan_spec(t, r)->Ok_0.changed == (true),
        t.action@ == "certbot"@ && t.site@.len() > 0 ==> plan_probe_spec(t) == Ok::<ProbeView, ErrorView>(ProbeView::Nothing),
        t.action@ == "certbot"@ && t.site@.len() > 0 && !(r is Failed) ==> plan_spec(t, r) is Ok && plan_spec(t, r)->Ok_0.changed == (true),
{
    reveal_strlit("site_enable");
    assert("site_enable"@ =~= seq!['s', 'i', 't', 'e', '_', 'e', 'n', 'a', 'b', 'l', 'e']);
    reveal_strlit("site_disable");
    assert("site_disable"@ =~= seq!['s', 'i', 't', 'e', '_', 'd', 'i', 's', 'a', 'b', 'l', 'e']);
    reveal_strlit("config_test");
    assert("config_test"@ =~= seq!['c', 'o', 'n', 'f', 'i', 'g', '_', 't', 'e', 's', 't']);
    reveal_strlit("reload");
    assert("reload"@ =~= seq!['r', 'e', 'l', 'o', 'a', 'd']);
    reveal_strlit("restart");
    assert("restart"@ =~= seq!['r', 'e', 's', 't', 'a', 'r', 't']);
    reveal_strlit("config");
    assert("config"@ =~= seq!['c', 'o', 'n', 'f', 'i', 'g']);
    reveal_strlit("enable_site");
    assert("enable_site"@ =~= seq!['e', 'n', 'a', 'b', 'l', 'e', '_', 's', 'i', 't', 'e']);
    reveal_strlit("disable_site");
    assert("disable_site"@ =~= seq!['d', 'i', 's', 'a', 'b', 'l', 'e', '_', 's', 'i', 't', 'e']);
    reveal_strlit("certbot");
    assert("certbot"@ =~= seq!['c', 'e', 'r', 't', 'b', 'o', 't']);
}

/// What a report says: it is the nginx module's, for the task's action; it
/// succeeds exactly when the command did, marks a change exactly when a
/// changing action succeeded, and says `ok`, or `failed:` with the command's
/// error output trimmed.
pub proof fn nginx_reports_what_the_command_did(t: &NginxTask, out: &ExecOutput)
    ensures
        report_spec(t, out) == (ReportView {
            module: "nginx"@,
            action: t.action@,
            success: out.success,
            changed: out.success,
            message: if out.success {
                "nginx"@ + " "@ + t.action@ + " — ok"@
            } else {
                "nginx"@ + " "@ + t.action@ + " — failed: "@ + trimmed(out.stderr@)
            },
        }),
{
}

} // verus!
