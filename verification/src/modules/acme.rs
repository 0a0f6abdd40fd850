//! ACME / Let's Encrypt certificates through certbot: obtain (or issue), renew,
//! revoke, status.

use vstd::prelude::*;
use crate::command::{Command, PieceView, lemma_same_literals_concat, lit, quote, same_literals};
use crate::task::{
    checked, checked_exec, make_plan, make_report, probed, probed_exec, reply_is_yes, reply_yes,
    requires_error, requires_failure, rview, unknown_action, unknown_action_error, usual_message,
    usual_text, ErrorView, ExecOutput, ModuleError, Plan, PlanView, Probe, ProbeView, Reply, Report,
    ReportView,
};
use crate::text::{concat3, same_text, trimmed};

verus! {

/// The ACME module.
#[derive(Debug)]
pub struct AcmeModule;

/// The parameters of an ACME task, as the driver read them.
#[derive(Debug)]
pub struct AcmeTask {
    pub action: String,
    pub domain: String,
    pub email: String,
    pub method: String,
    pub webroot: String,
}

impl AcmeTask {
    /// A task of the given action with every parameter at its default: what
    /// the driver starts from before it reads the parameters the task sets.
    pub fn defaults(action: &str) -> (t: AcmeTask)
        ensures
            t.action@ == action@,
            t.domain@ == ""@,
            t.email@ == ""@,
            t.method@ == "standalone"@,
            t.webroot@ == "/var/www/html"@,
    {
        AcmeTask {
            action: action.to_owned(),
            domain: "".to_owned(),
            email: "".to_owned(),
            method: "standalone".to_owned(),
            webroot: "/var/www/html".to_owned(),
        }
    }
}

/// The actions of the module, in the order it lists them.
pub open spec fn acme_actions() -> Seq<Seq<char>> {
    seq!["obtain"@, "renew"@, "revoke"@, "issue"@, "status"@]
}

/// Where certbot keeps the domain's certificate chain.
pub open spec fn cert_path(t: &AcmeTask) -> Seq<char> {
    "/etc/letsencrypt/live/"@ + t.domain@ + "/fullchain.pem"@
}

/// The probe that tells whether the certificate exists and stays valid for
/// at least 30 days.
pub open spec fn valid_probe(t: &AcmeTask) -> ProbeView {
    ProbeView::Shell(
        seq![
            lit("openssl x509 -checkend 2592000 -noout -in "@),
            quote(cert_path(t)),
            lit(" 2>/dev/null"@),
        ],
    )
}

/// The probe that tells whether the certificate exists.
pub open spec fn exists_probe(t: &AcmeTask) -> ProbeView {
    ProbeView::Shell(seq![lit("test -f "@), quote(cert_path(t))])
}

pub open spec fn domain_required(t: &AcmeTask) -> ErrorView {
    requires_error("acme"@, t.action@, "'domain' parameter"@)
}

/// The action that `a` names: the module also takes `issue` for `obtain`.
pub open spec fn canonical(a: Seq<char>) -> Seq<char> {
    if a == "issue"@ {
        "obtain"@
    } else {
        a
    }
}

fn canonical_exec(a: &str) -> (c: &str)
    ensures
        c@ == canonical(a@),
{
    if same_text(a, "issue") {
        "obtain"
    } else {
        a
    }
}

pub open spec fn plan_probe_spec(t: &AcmeTask) -> Result<ProbeView, ErrorView> {
    let a = canonical(t.action@);
    if a == "obtain"@ {
        if t.domain@.len() == 0 {
            Err(domain_required(t))
        } else {
            Ok(valid_probe(t))
        }
    } else if a == "renew"@ {
        Ok(ProbeView::Nothing)
    } else if a == "revoke"@ {
        if t.domain@.len() == 0 {
            Err(domain_required(t))
        } else {
            Ok(exists_probe(t))
        }
    } else if a == "status"@ {
        if t.domain@.len() == 0 {
            Err(domain_required(t))
        } else {
            Ok(ProbeView::Nothing)
        }
    } else {
        Err(unknown_action("acme"@, a))
    }
}

pub open spec fn plan_of(t: &AcmeTask, changed: bool, description: Seq<char>) -> PlanView {
    PlanView { module: "acme"@, action: t.action@, changed, description }
}

pub open spec fn plan_spec(t: &AcmeTask, r: &Reply) -> Result<PlanView, ErrorView> {
    let a = canonical(t.action@);
    let d = t.domain@;
    if a == "obtain"@ {
        if d.len() == 0 {
            Err(domain_required(t))
        } else {
            probed(
                r,
                reply_yes(r),
                plan_of(t, false, "certificate for '"@ + d + "' exists and is valid"@),
                plan_of(t, true, "obtain certificate for '"@ + d + "'"@),
            )
        }
    } else if a == "renew"@ {
        Ok(plan_of(t, true, "renew all eligible certificates"@))
    } else if a == "revoke"@ {
        if d.len() == 0 {
            Err(domain_required(t))
        } else {
            probed(
                r,
                reply_yes(r),
                plan_of(t, true, "revoke certificate for '"@ + d + "'"@),
                plan_of(t, false, "no certificate found for '"@ + d + "'"@),
            )
        }
    } else if a == "status"@ {
        if d.len() == 0 {
            Err(domain_required(t))
        } else {
            Ok(plan_of(t, false, "show certificate status for '"@ + d + "'"@))
        }
    } else {
        Err(unknown_action("acme"@, a))
    }
}

/// How certbot answers the challenge: `webroot`, `dns`, or standalone for
/// any other method.
pub open spec fn challenge(t: &AcmeTask) -> Seq<PieceView> {
    if t.method@ == "webroot"@ {
        seq![lit(" --webroot -w "@), quote(t.webroot@), lit(" -d "@), quote(t.domain@)]
    } else if t.method@ == "dns"@ {
        seq![lit(" --preferred-challenges dns -d "@), quote(t.domain@)]
    } else {
        seq![lit(" --standalone -d "@), quote(t.domain@)]
    }
}

pub open spec fn obtain_command(t: &AcmeTask) -> Seq<PieceView> {
    seq![lit("certbot certonly --non-interactive --agree-tos"@)] + (if t.email@.len() > 0 {
        seq![lit(" --email "@), quote(t.email@)]
    } else {
        seq![lit(" --register-unsafely-without-email"@)]
    }) + challenge(t)
}

pub open spec fn apply_command_spec(t: &AcmeTask) -> Result<Seq<PieceView>, ErrorView> {
    let a = canonical(t.action@);
    if a == "obtain"@ {
        if t.domain@.len() == 0 {
            Err(domain_required(t))
        } else {
            Ok(obtain_command(t))
        }
    } else if a == "renew"@ {
        Ok(seq![lit("certbot renew --non-interactive"@)])
    } else if a == "revoke"@ {
        if t.domain@.len() == 0 {
            Err(domain_required(t))
        } else {
            Ok(seq![lit("certbot revoke --non-interactive --cert-path "@), quote(cert_path(t))])
        }
    } else if a == "status"@ {
        if t.domain@.len() == 0 {
            Err(domain_required(t))
        } else {
            Ok(seq![lit("certbot certificates --cert-name "@), quote(t.domain@)])
        }
    } else {
        Err(unknown_action("acme"@, a))
    }
}

pub open spec fn report_spec(t: &AcmeTask, out: &ExecOutput) -> ReportView {
    ReportView {
        module: "acme"@,
        action: t.action@,
        success: out.success,
        changed: out.success && t.action@ != "status"@,
        message: usual_message("acme"@, t.action@, out),
    }
}

pub open spec fn check_probe_spec(t: &AcmeTask) -> ProbeView {
    let a = canonical(t.action@);
    if a == "obtain"@ {
        valid_probe(t)
    } else if a == "revoke"@ {
        exists_probe(t)
    } else {
        ProbeView::Nothing
    }
}

pub open spec fn check_spec(t: &AcmeTask, r: &Reply) -> Result<bool, ErrorView> {
    let a = canonical(t.action@);
    if a == "obtain"@ {
        checked(r, reply_yes(r))
    } else if a == "revoke"@ {
        checked(r, !reply_yes(r))
    } else {
        Ok(false)
    }
}

fn cert_path_exec(t: &AcmeTask) -> (p: String)
    ensures
        p@ == cert_path(t),
{
    concat3("/etc/letsencrypt/live/", t.domain.as_str(), "/fullchain.pem")
}

fn valid_probe_exec(t: &AcmeTask) -> (p: Probe)
    ensures
        p@ == valid_probe(t),
{
    let path = cert_path_exec(t);
    let mut c = Command::new();
    c.lit("openssl x509 -checkend 2592000 -noout -in ");
    c.quote(path.as_str());
    c.lit(" 2>/dev/null");
    assert(c@ =~= seq![
        lit("openssl x509 -checkend 2592000 -noout -in "@),
        quote(cert_path(t)),
        lit(" 2>/dev/null"@),
    ]);
    Probe::Shell(c)
}

fn exists_probe_exec(t: &AcmeTask) -> (p: Probe)
    ensures
        p@ == exists_probe(t),
{
    let path = cert_path_exec(t);
    let mut c = Command::new();
    c.lit("test -f ");
    c.quote(path.as_str());
    assert(c@ =~= seq![lit("test -f "@), quote(cert_path(t))]);
    Probe::Shell(c)
}

impl AcmeModule {
    pub fn name(&self) -> (r: &'static str)
        ensures
            r@ == "acme"@,
    {
        "acme"
    }

    pub fn actions(&self) -> (r: &'static [&'static str])
        ensures
            r@.map_values(|s: &str| s@) == acme_actions(),
    {
        let r: &'static [&'static str] = &["obtain", "renew", "revoke", "issue", "status"];
        assert(r@.map_values(|s: &str| s@) =~= acme_actions());
        r
    }

    /// What the plan of a task needs to know about the node first.
    pub fn plan_probe(&self, t: &AcmeTask) -> (r: Result<Probe, ModuleError>)
        ensures
            rview(r) == plan_probe_spec(t),
    {
        let a = canonical_exec(t.action.as_str());
        if same_text(a, "obtain") {
            if t.domain.as_str().is_empty() {
                Err(requires_failure("acme", t.action.as_str(), "'domain' parameter"))
            } else {
                Ok(valid_probe_exec(t))
            }
        } else if same_text(a, "renew") {
            Ok(Probe::Nothing)
        } else if same_text(a, "revoke") {
            if t.domain.as_str().is_empty() {
                Err(requires_failure("acme", t.action.as_str(), "'domain' parameter"))
            } else {
                Ok(exists_probe_exec(t))
            }
        } else if same_text(a, "status") {
            if t.domain.as_str().is_empty() {
                Err(requires_failure("acme", t.action.as_str(), "'domain' parameter"))
            } else {
                Ok(Probe::Nothing)
            }
        } else {
            Err(unknown_action_error("acme", a))
        }
    }

    /// The plan of a task, given the reply to its probe.
    pub fn plan(&self, t: &AcmeTask, r: &Reply) -> (p: Result<Plan, ModuleError>)
        ensures
            rview(p) == plan_spec(t, r),
    {
        let a = canonical_exec(t.action.as_str());
        let d = t.domain.as_str();
        if same_text(a, "obtain") {
            if d.is_empty() {
                Err(requires_failure("acme", t.action.as_str(), "'domain' parameter"))
            } else {
                probed_exec(
                    r,
                    reply_is_yes(r),
                    make_plan("acme", t.action.as_str(), false, concat3("certificate for '", d, "' exists and is valid")),
                    make_plan("acme", t.action.as_str(), true, concat3("obtain certificate for '", d, "'")),
                )
            }
        } else if same_text(a, "renew") {
            Ok(make_plan("acme", t.action.as_str(), true, "renew all eligible certificates".to_owned()))
        } else if same_text(a, "revoke") {
            if d.is_empty() {
                Err(requires_failure("acme", t.action.as_str(), "'domain' parameter"))
            } else {
                probed_exec(
                    r,
                    reply_is_yes(r),
                    make_plan("acme", t.action.as_str(), true, concat3("revoke certificate for '", d, "'")),
                    make_plan("acme", t.action.as_str(), false, concat3("no certificate found for '", d, "'")),
                )
            }
        } else if same_text(a, "status") {
            if d.is_empty() {
                Err(requires_failure("acme", t.action.as_str(), "'domain' parameter"))
            } else {
                Ok(make_plan("acme", t.action.as_str(), false, concat3("show certificate status for '", d, "'")))
            }
        } else {
            Err(unknown_action_error("acme", a))
        }
    }

    /// The command that applies a task.
    pub fn apply_command(&self, t: &AcmeTask) -> (r: Result<Command, ModuleError>)
        ensures
            rview(r) == apply_command_spec(t),
    {
        let a = canonical_exec(t.action.as_str());
        let d = t.domain.as_str();
        let mut c = Command::new();
        if same_text(a, "obtain") {
            if d.is_empty() {
                return Err(requires_failure("acme", t.action.as_str(), "'domain' parameter"));
            }
            c.lit("certbot certonly --non-interactive --agree-tos");
            let ghost head = c@;
            if !t.email.as_str().is_empty() {
                c.lit(" --email ");
                c.quote(t.email.as_str());
                assert(c@ =~= head + seq![lit(" --email "@), quote(t.email@)]);
            } else {
                c.lit(" --register-unsafely-without-email");
                assert(c@ =~= head + seq![lit(" --register-unsafely-without-email"@)]);
            }
            let ghost mid = c@;
            let m = t.method.as_str();
            if same_text(m, "webroot") {
                c.lit(" --webroot -w ");
                c.quote(t.webroot.as_str());
                c.lit(" -d ");
                c.quote(d);
            } else if same_text(m, "dns") {
                c.lit(" --preferred-challenges dns -d ");
                c.quote(d);
            } else {
                c.lit(" --standalone -d ");
                c.quote(d);
            }
            assert(c@ =~= mid + challenge(t));
            assert(c@ =~= obtain_command(t));
        } else if same_text(a, "renew") {
            c.lit("certbot renew --non-interactive");
            assert(c@ =~= seq![lit("certbot renew --non-interactive"@)]);
        } else if same_text(a, "revoke") {
            if d.is_empty() {
                return Err(requires_failure("acme", t.action.as_str(), "'domain' parameter"));
            }
            let path = cert_path_exec(t);
            c.lit("certbot revoke --non-interactive --cert-path ");
            c.quote(path.as_str());
            assert(c@ =~= seq![
                lit("certbot revoke --non-interactive --cert-path "@),
                quote(cert_path(t)),
            ]);
        } else if same_text(a, "status") {
            if d.is_empty() {
                return Err(requires_failure("acme", t.action.as_str(), "'domain' parameter"));
            }
            c.lit("certbot certificates --cert-name ");
            c.quote(d);
            assert(c@ =~= seq![lit("certbot certificates --cert-name "@), quote(t.domain@)]);
        } else {
            return Err(unknown_action_error("acme", a));
        }
        Ok(c)
    }

    /// What applying a task did, given the output of its command.
    pub fn apply_report(&self, t: &AcmeTask, out: &ExecOutput) -> (r: Report)
        ensures
            r@ == report_spec(t, out),
    {
        let a = canonical_exec(t.action.as_str());
        make_report("acme", t.action.as_str(), out.success, out.success && !same_text(t.action.as_str(), "status"), usual_text("acme", t.action.as_str(), out))
    }

    /// What checking a task needs to know about the node.
    pub fn check_probe(&self, t: &AcmeTask) -> (p: Probe)
        ensures
            p@ == check_probe_spec(t),
    {
        let a = canonical_exec(t.action.as_str());
        if same_text(a, "obtain") {
            valid_probe_exec(t)
        } else if same_text(a, "revoke") {
            exists_probe_exec(t)
        } else {
            Probe::Nothing
        }
    }

    /// Whether the node already is as the task asks, given the probe's reply.
    pub fn check(&self, t: &AcmeTask, r: &Reply) -> (b: Result<bool, ModuleError>)
        ensures
            rview(b) == check_spec(t, r),
    {
        let a = canonical_exec(t.action.as_str());
        if same_text(a, "obtain") {
            checked_exec(r, reply_is_yes(r))
        } else if same_text(a, "revoke") {
            checked_exec(r, !reply_is_yes(r))
        } else {
            Ok(false)
        }
    }
}


/// The actions that the module lists are exactly the actions that its plan,
/// its probes and its commands accept; any other action is refused as unknown.
pub proof fn acme_accepts_listed_actions(t: &AcmeTask, r: &Reply)
    ensures
        acme_actions().contains(t.action@) ==> plan_probe_spec(t) != Err::<ProbeView, ErrorView>(
            unknown_action("acme"@, t.action@),
        ) && plan_spec(t, r) != Err::<PlanView, ErrorView>(unknown_action("acme"@, t.action@))
            && apply_command_spec(t) != Err::<Seq<PieceView>, ErrorView>(unknown_action("acme"@, t.action@)),
        !acme_actions().contains(t.action@) ==> plan_probe_spec(t) == Err::<ProbeView, ErrorView>(
            unknown_action("acme"@, t.action@),
        ) && plan_spec(t, r) == Err::<PlanView, ErrorView>(unknown_action("acme"@, t.action@))
            && apply_command_spec(t) == Err::<Seq<PieceView>, ErrorView>(unknown_action("acme"@, t.action@)),
{
    let s = acme_actions();
    assert(s[0] == "obtain"@ && s[1] == "renew"@ && s[2] == "revoke"@ && s[3] == "issue"@
        && s[4] == "status"@);
    if s.contains(t.action@) {
        let i = choose|i: int| 0 <= i < s.len() && s[i] == t.action@;
        assert(t.action@ == s[i]);
    }
}

/// Planning and checking a task ask the node the same question, and when it
/// is answered, checking finds the node as the task asks exactly when the
/// plan would change nothing.
pub proof fn acme_check_agrees_with_plan(t: &AcmeTask, r: &Reply)
    requires
        acme_actions().contains(t.action@),
        t.action@ != "status"@,
        !(r is Failed),
        t.domain@.len() > 0,
    ensures
        plan_probe_spec(t) == Ok::<ProbeView, ErrorView>(check_probe_spec(t)),
        plan_spec(t, r) is Ok,
        check_spec(t, r) == Ok::<bool, ErrorView>(!plan_spec(t, r)->Ok_0.changed),
{
    reveal_strlit("obtain");
    assert("obtain"@ =~= seq!['o', 'b', 't', 'a', 'i', 'n']);
    reveal_strlit("renew");
    assert("renew"@ =~= seq!['r', 'e', 'n', 'e', 'w']);
    reveal_strlit("revoke");
    assert("revoke"@ =~= seq!['r', 'e', 'v', 'o', 'k', 'e']);
    reveal_strlit("issue");
    assert("issue"@ =~= seq!['i', 's', 's', 'u', 'e']);
    reveal_strlit("status");
    assert("status"@ =~= seq!['s', 't', 'a', 't', 'u', 's']);
    acme_accepts_listed_actions(t, r);
}

/// A report marks a change only when the command succeeded, and its success
/// is that of the command.
pub proof fn acme_report_change_needs_success(t: &AcmeTask, out: &ExecOutput)
    ensures
        report_spec(t, out).success == out.success,
        report_spec(t, out).changed ==> report_spec(t, out).success,
{
}

/// Whether two tasks differ at most in the values of their parameters:
/// same action, same switches, and the same parameters left empty.
pub open spec fn same_shape(t1: &AcmeTask, t2: &AcmeTask) -> bool {
    &&& t1.action@ == t2.action@
    &&& t1.method@ == t2.method@
    &&& (t1.email@.len() == 0) == (t2.email@.len() == 0)
    &&& (t1.domain@.len() == 0) == (t2.domain@.len() == 0)
}

/// Parameter values reach the shell only as values to quote: the literal
/// text of a task's command depends on its action, its switches (the method) and
/// which parameters are set, never on what they hold.
pub proof fn acme_values_only_quoted(t1: &AcmeTask, t2: &AcmeTask)
    requires
        same_shape(t1, t2),
    ensures
        apply_command_spec(t1) is Ok <==> apply_command_spec(t2) is Ok,
        apply_command_spec(t1) is Ok ==> same_literals(
            apply_command_spec(t1)->Ok_0,
            apply_command_spec(t2)->Ok_0,
        ),
{
    if canonical(t1.action@) == "obtain"@ && t1.domain@.len() > 0 {
        assert(same_literals(seq![lit("certbot certonly --non-interactive --agree-tos"@)], seq![lit("certbot certonly --non-interactive --agree-tos"@)]));
        assert(same_literals((if t1.email@.len() > 0 { seq![lit(" --email "@), quote(t1.email@)] } else { seq![lit(" --register-unsafely-without-email"@)] }), (if t2.email@.len() > 0 { seq![lit(" --email "@), quote(t2.email@)] } else { seq![lit(" --register-unsafely-without-email"@)] })));
        assert(same_literals(challenge(t1), challenge(t2)));
        lemma_same_literals_concat(seq![lit("certbot certonly --non-interactive --agree-tos"@)], seq![lit("certbot certonly --non-interactive --agree-tos"@)], (if t1.email@.len() > 0 { seq![lit(" --email "@), quote(t1.email@)] } else { seq![lit(" --register-unsafely-without-email"@)] }), (if t2.email@.len() > 0 { seq![lit(" --email "@), quote(t2.email@)] } else { seq![lit(" --register-unsafely-without-email"@)] }));
        lemma_same_literals_concat(seq![lit("certbot certonly --non-interactive --agree-tos"@)] + (if t1.email@.len() > 0 { seq![lit(" --email "@), quote(t1.email@)] } else { seq![lit(" --register-unsafely-without-email"@)] }), seq![lit("certbot certonly --non-interactive --agree-tos"@)] + (if t2.email@.len() > 0 { seq![lit(" --email "@), quote(t2.email@)] } else { seq![lit(" --register-unsafely-without-email"@)] }), challenge(t1), challenge(t2));
    }
}

/// What each action runs, for a task that names its domain: a certificate
/// is obtained (or issued) for the task's domain, registered with its email
/// when one is given, through the challenge that its method names
/// (standalone unless webroot or dns); revoking names the domain's
/// certificate file.
pub proof fn acme_commands_carry_their_parameters(t: &AcmeTask)
    ensures
        (t.action@ == "obtain"@ || t.action@ == "issue"@ || t.action@ == "revoke"@ || t.action@ == "status"@)
            ==> (t.domain@.len() == 0 <==> apply_command_spec(t) is Err),
        (t.action@ == "obtain"@ || t.action@ == "issue"@) && t.domain@.len() > 0 ==> apply_command_spec(t) == Ok::<Seq<PieceView>, ErrorView>(
            seq![lit("certbot certonly --non-interactive --agree-tos"@)]
                + (if t.email@.len() > 0 { seq![lit(" --email "@), quote(t.email@)] } else { seq![lit(" --register-unsafely-without-email"@)] })
                + (if t.method@ == "webroot"@ {
                    seq![lit(" --webroot -w "@), quote(t.webroot@), lit(" -d "@), quote(t.domain@)]
                } else if t.method@ == "dns"@ {
                    seq![lit(" --preferred-challenges dns -d "@), quote(t.domain@)]
                } else {
                    seq![lit(" --standalone -d "@), quote(t.domain@)]
                }),
        ),
        t.action@ == "revoke"@ && t.domain@.len() > 0 ==> apply_command_spec(t) == Ok::<Seq<PieceView>, ErrorView>(
            seq![lit("certbot revoke --non-interactive --cert-path "@), quote("/etc/letsencrypt/live/"@ + t.domain@ + "/fullchain.pem"@)],
        ),
        t.action@ == "status"@ && t.domain@.len() > 0 ==> apply_command_spec(t) == Ok::<Seq<PieceView>, ErrorView>(
            seq![lit("certbot certificates --cert-name "@), quote(t.domain@)],
        ),
        t.action@ == "renew"@ ==> apply_command_spec(t) == Ok::<Seq<PieceView>, ErrorView>(
            seq![lit("certbot renew --non-interactive"@)],
        ),
{
    reveal_strlit("obtain");
    assert("obtain"@ =~= seq!['o', 'b', 't', 'a', 'i', 'n']);
    reveal_strlit("renew");
    assert("renew"@ =~= seq!['r', 'e', 'n', 'e', 'w']);
    reveal_strlit("revoke");
    assert("revoke"@ =~= seq!['r', 'e', 'v', 'o', 'k', 'e']);
    reveal_strlit("issue");
    assert("issue"@ =~= seq!['i', 's', 's', 'u', 'e']);
    reveal_strlit("status");
    assert("status"@ =~= seq!['s', 't', 'a', 't', 'u', 's']);
}

/// What a plan asks the node and when it plans a change: a certificate is
/// obtained (or issued) only when openssl does not find the domain's
/// certificate valid for 30 more days, and revoked only when the file
/// exists; renew always changes; status changes nothing.
pub proof fn acme_plans_follow_the_certificates(t: &AcmeTask, r: &Reply)
    ensures
        t.action@ == "obtain"@ && t.domain@.len() > 0 ==> plan_probe_spec(t) == Ok::<ProbeView, ErrorView>(ProbeView::Shell(seq![lit("openssl x509 -checkend 2592000 -noout -in "@), quote("/etc/letsencrypt/live/"@ + t.domain@ + "/fullchain.pem"@), lit(" 2>/dev/null"@)])),
        t.action@ == "obtain"@ && t.domain@.len() > 0 && !(r is Failed) ==> plan_spec(t, r) is Ok && plan_spec(t, r)->Ok_0.changed == (!(match r { Reply::Output(o) => o.success, Reply::Exists(b) => *b, _ => false })),
        t.action@ == "issue"@ && t.domain@.len() > 0 ==> plan_probe_spec(t) == Ok::<ProbeView, ErrorView>(ProbeView::Shell(seq![lit("openssl x509 -checkend 2592000 -noout -in "@), quote("/etc/letsencrypt/live/"@ + t.domain@ + "/fullchain.pem"@), lit(" 2>/dev/null"@)])),
        t.action@ == "issue"@ && t.domain@.len() > 0 && !(r is Failed) ==> plan_spec(t, r) is Ok && plan_spec(t, r)->Ok_0.changed == (!(match r { Reply::Output(o) => o.success, Reply::Exists(b) => *b, _ => false })),
        t.action@ == "renew"@ ==> plan_probe_spec(t) == Ok::<ProbeView, ErrorView>(ProbeView::Nothing),
        t.action@ == "renew"@ && !(r is Failed) ==> plan_spec(t, r) is Ok && plan_spec(t, r)->Ok_0.changed == (true),
        t.action@ == "revoke"@ && t.domain@.len() > 0 ==> plan_probe_spec(t) == Ok::<ProbeView, ErrorView>(ProbeView::Shell(seq![lit("test -f "@), quote("/etc/letsencrypt/live/"@ + t.domain@ + "/fullchain.pem"@)])),
        t.action@ == "revoke"@ && t.domain@.len() > 0 && !(r is Failed) ==> plan_spec(t, r) is Ok && plan_spec(t, r)->Ok_0.changed == ((match r { Reply::Output(o) => o.success, Reply::Exists(b) => *b, _ => false })),
        t.action@ == "status"@ && t.domain@.len() > 0 ==> plan_probe_spec(t) == Ok::<ProbeView, ErrorView>(ProbeView::Nothing),
        t.action@ == "status"@ && t.domain@.len() > 0 && !(r is Failed) ==> plan_spec(t, r) is Ok && plan_spec(t, r)->Ok_0.changed == (false),
{
    reveal_strlit("obtain");
    assert("obtain"@ =~= seq!['o', 'b', 't', 'a', 'i', 'n']);
    reveal_strlit("renew");
    assert("renew"@ =~= seq!['r', 'e', 'n', 'e', 'w']);
    reveal_strlit("revoke");
    assert("revoke"@ =~= seq!['r', 'e', 'v', 'o', 'k', 'e']);
    reveal_strlit("issue");
    assert("issue"@ =~= seq!['i', 's', 's', 'u', 'e']);
    reveal_strlit("status");
    assert("status"@ =~= seq!['s', 't', 'a', 't', 'u', 's']);
}

/// What a report says: it is the acme module's, for the task's action; it
/// succeeds exactly when the command did, marks a change exactly when a
/// changing action succeeded, and says `ok`, or `failed:` with the command's
/// error output trimmed.
pub proof fn acme_reports_what_the_command_did(t: &AcmeTask, out: &ExecOutput)
    ensures
        report_spec(t, out) == (ReportView {
            module: "acme"@,
            action: t.action@,
            success: out.success,
            changed: out.success && t.action@ != "status"@,
            message: if out.success {
                "acme"@ + " "@ + t.action@ + " — ok"@
            } else {
                "acme"@ + " "@ + t.action@ + " — failed: "@ + trimmed(out.stderr@)
            },
        }),
{
}

} // verus!
