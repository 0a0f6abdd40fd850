//! Redis through redis-cli: set, get, del, flush, ping, config, backup, info.

use vstd::prelude::*;
use crate::command::{Command, PieceView, lemma_same_literals_concat, lit, provided, quote, same_literals};
use crate::task::{
    checked, checked_exec, failed_message, failed_text, make_plan, make_report, reply_is_failed,
    reply_prints, reply_prints_text, requires_error, requires_failure, rview, unknown_action,
    unknown_action_error, ErrorView, ExecOutput, ModuleError, Plan, PlanView, Probe, ProbeView,
    Reply, Report, ReportView,
};
use crate::text::{concat3, decimal, decimal_string, same_text, trim, trimmed};

verus! {

/// The Redis module.
#[derive(Debug)]
pub struct RedisModule;

/// The parameters of a Redis task, as the driver read them.
#[derive(Debug)]
pub struct RedisTask {
    pub action: String,
    pub host: String,
    pub port: i64,
    pub db: i64,
    pub password: String,
    pub key: String,
    pub value: String,
}

impl RedisTask {
    /// A task of the given action with every parameter at its default: what
    /// the driver starts from before it reads the parameters the task sets.
    pub fn defaults(action: &str) -> (t: RedisTask)
        ensures
            t.action@ == action@,
            t.host@ == "localhost"@,
            t.port == 6379,
            t.db == 0,
            t.password@ == ""@,
            t.key@ == ""@,
            t.value@ == ""@,
    {
        RedisTask {
            action: action.to_owned(),
            host: "localhost".to_owned(),
            port: 6379,
            db: 0,
            password: "".to_owned(),
            key: "".to_owned(),
            value: "".to_owned(),
        }
    }
}

/// The actions of the module, in the order it lists them.
pub open spec fn redis_actions() -> Seq<Seq<char>> {
    seq!["set"@, "get"@, "del"@, "flush"@, "ping"@, "config"@, "backup"@, "info"@]
}

/// `redis-cli` aimed at the task's server and database.
pub open spec fn cli_prefix(t: &RedisTask) -> Seq<PieceView> {
    seq![
        lit("redis-cli -h "@),
        quote(t.host@),
        lit(" -p "@),
        lit(decimal(t.port as int)),
        lit(" -n "@),
        lit(decimal(t.db as int)),
    ] + provided(t.password@.len() > 0, seq![lit(" -a "@), quote(t.password@)])
}

/// `redis-cli ... <verb> <quoted key>`.
pub open spec fn key_command(t: &RedisTask, verb: Seq<char>) -> Seq<PieceView> {
    cli_prefix(t) + seq![lit(verb), quote(t.key@)]
}

pub open spec fn value_probe(t: &RedisTask) -> ProbeView {
    ProbeView::Shell(key_command(t, " GET "@))
}

pub open spec fn exists_probe(t: &RedisTask) -> ProbeView {
    ProbeView::Shell(key_command(t, " EXISTS "@))
}

pub open spec fn ping_probe(t: &RedisTask) -> ProbeView {
    ProbeView::Shell(cli_prefix(t) + seq![lit(" PING"@)])
}

/// The value that a `GET` reply shows: the trimmed output of a successful
/// read, unless it is `(nil)`.
pub open spec fn stored_value(r: &Reply) -> Option<Seq<char>> {
    match r {
        Reply::Output(o) => if o.success && trimmed(o.stdout@) != "(nil)"@ {
            Some(trimmed(o.stdout@))
        } else {
            None
        },
        _ => None,
    }
}

pub open spec fn key_required(t: &RedisTask) -> ErrorView {
    requires_error("redis"@, t.action@, "'key' parameter"@)
}

pub open spec fn plan_probe_spec(t: &RedisTask) -> Result<ProbeView, ErrorView> {
    let a = t.action@;
    if a == "set"@ {
        if t.key@.len() == 0 {
            Err(key_required(t))
        } else {
            Ok(value_probe(t))
        }
    } else if a == "config"@ {
        if t.key@.len() == 0 {
            Err(key_required(t))
        } else {
            Ok(ProbeView::Nothing)
        }
    } else if a == "get"@ {
        Ok(ProbeView::Nothing)
    } else if a == "del"@ {
        if t.key@.len() == 0 {
            Err(key_required(t))
        } else {
            Ok(exists_probe(t))
        }
    } else if a == "flush"@ || a == "ping"@ || a == "backup"@ || a == "info"@ {
        Ok(ProbeView::Nothing)
    } else {
        Err(unknown_action("redis"@, a))
    }
}

pub open spec fn plan_of(t: &RedisTask, changed: bool, description: Seq<char>) -> PlanView {
    PlanView { module: "redis"@, action: t.action@, changed, description }
}

pub open spec fn plan_spec(t: &RedisTask, r: &Reply) -> Result<PlanView, ErrorView> {
    let a = t.action@;
    let key = t.key@;
    if a == "set"@ {
        if key.len() == 0 {
            Err(key_required(t))
        } else if r is Failed {
            Err(ErrorView::ProbeFailed)
        } else if stored_value(r) == Some(t.value@) {
            Ok(plan_of(t, false, "key '"@ + key + "' already has correct value"@))
        } else {
            Ok(plan_of(t, true, "set key '"@ + key + "'"@))
        }
    } else if a == "get"@ {
        Ok(plan_of(t, true, "get key '"@ + key + "'"@))
    } else if a == "del"@ {
        if key.len() == 0 {
            Err(key_required(t))
        } else if r is Failed {
            Err(ErrorView::ProbeFailed)
        } else if reply_prints(r, "1"@) {
            Ok(plan_of(t, true, "delete key '"@ + key + "'"@))
        } else {
            Ok(plan_of(t, false, "key '"@ + key + "' already absent"@))
        }
    } else if a == "flush"@ {
        Ok(plan_of(t, true, "flush database"@))
    } else if a == "ping"@ {
        Ok(plan_of(t, false, "ping redis"@))
    } else if a == "config"@ {
        if key.len() == 0 {
            Err(key_required(t))
        } else {
            Ok(plan_of(t, true, "set config '"@ + key + "'"@))
        }
    } else if a == "backup"@ {
        Ok(plan_of(t, true, "save a snapshot of the database"@))
    } else if a == "info"@ {
        Ok(plan_of(t, false, "read server info"@))
    } else {
        Err(unknown_action("redis"@, a))
    }
}

pub open spec fn apply_command_spec(t: &RedisTask) -> Result<Seq<PieceView>, ErrorView> {
    let a = t.action@;
    if a == "set"@ {
        if t.key@.len() == 0 {
            Err(key_required(t))
        } else {
            Ok(key_command(t, " SET "@) + seq![lit(" "@), quote(t.value@)])
        }
    } else if a == "get"@ {
        Ok(key_command(t, " GET "@))
    } else if a == "del"@ {
        if t.key@.len() == 0 {
            Err(key_required(t))
        } else {
            Ok(key_command(t, " DEL "@))
        }
    } else if a == "flush"@ {
        Ok(cli_prefix(t) + seq![lit(" FLUSHDB"@)])
    } else if a == "ping"@ {
        Ok(cli_prefix(t) + seq![lit(" PING"@)])
    } else if a == "config"@ {
        if t.key@.len() == 0 {
            Err(key_required(t))
        } else {
            Ok(key_command(t, " CONFIG SET "@) + seq![lit(" "@), quote(t.value@)])
        }
    } else if a == "backup"@ {
        Ok(cli_prefix(t) + seq![lit(" BGSAVE"@)])
    } else if a == "info"@ {
        Ok(cli_prefix(t) + seq![lit(" INFO"@)])
    } else {
        Err(unknown_action("redis"@, a))
    }
}

pub open spec fn report_spec(t: &RedisTask, out: &ExecOutput) -> ReportView {
    let a = t.action@;
    ReportView {
        module: "redis"@,
        action: a,
        success: out.success,
        changed: out.success && a != "get"@ && a != "ping"@ && a != "info"@,
        message: if out.success {
            "redis "@ + a + " — "@ + trimmed(out.stdout@)
        } else {
            failed_message("redis"@, a, out.stderr@)
        },
    }
}

pub open spec fn check_probe_spec(t: &RedisTask) -> ProbeView {
    let a = t.action@;
    if a == "set"@ {
        value_probe(t)
    } else if a == "del"@ {
        exists_probe(t)
    } else if a == "ping"@ {
        ping_probe(t)
    } else {
        ProbeView::Nothing
    }
}

pub open spec fn check_spec(t: &RedisTask, r: &Reply) -> Result<bool, ErrorView> {
    let a = t.action@;
    if a == "set"@ {
        checked(r, stored_value(r) == Some(t.value@))
    } else if a == "del"@ {
        checked(r, !reply_prints(r, "1"@))
    } else if a == "ping"@ {
        checked(r, reply_prints(r, "PONG"@))
    } else {
        Ok(false)
    }
}

fn prefix_exec(t: &RedisTask) -> (c: Command)
    ensures
        c@ == cli_prefix(t),
{
    let mut c = Command::new();
    c.lit("redis-cli -h ");
    c.quote(t.host.as_str());
    c.lit(" -p ");
    let port = decimal_string(t.port);
    c.lit(port.as_str());
    c.lit(" -n ");
    let db = decimal_string(t.db);
    c.lit(db.as_str());
    if !t.password.as_str().is_empty() {
        c.lit(" -a ");
        c.quote(t.password.as_str());
    }
    assert(c@ =~= cli_prefix(t));
    c
}

fn key_command_exec(t: &RedisTask, verb: &str) -> (c: Command)
    ensures
        c@ == key_command(t, verb@),
{
    let mut c = prefix_exec(t);
    c.lit(verb);
    c.quote(t.key.as_str());
    assert(c@ =~= key_command(t, verb@));
    c
}

fn verb_command_exec(t: &RedisTask, verb: &str) -> (c: Command)
    ensures
        c@ == cli_prefix(t) + seq![lit(verb@)],
{
    let mut c = prefix_exec(t);
    c.lit(verb);
    c
}

fn stored_value_exec(r: &Reply) -> (v: Option<&str>)
    ensures
        match v {
            Some(s) => stored_value(r) == Some(s@),
            None => stored_value(r) is None,
        },
{
    match r {
        Reply::Output(o) => {
            let val = trim(o.stdout.as_str());
            if o.success && !same_text(val, "(nil)") {
                Some(val)
            } else {
                None
            }
        },
        _ => None,
    }
}

fn holds_value(r: &Reply, value: &str) -> (b: bool)
    ensures
        b == (stored_value(r) == Some(value@)),
{
    match stored_value_exec(r) {
        Some(v) => same_text(v, value),
        None => false,
    }
}

impl RedisModule {
    pub fn name(&self) -> (r: &'static str)
        ensures
            r@ == "redis"@,
    {
        "redis"
    }

    pub fn actions(&self) -> (r: &'static [&'static str])
        ensures
            r@.map_values(|s: &str| s@) == redis_actions(),
    {
        let r: &'static [&'static str] = &["set", "get", "del", "flush", "ping", "config", "backup", "info"];
        assert(r@.map_values(|s: &str| s@) =~= redis_actions());
        r
    }

    /// What the plan of a task needs to know about the server first.
    pub fn plan_probe(&self, t: &RedisTask) -> (r: Result<Probe, ModuleError>)
        ensures
            rview(r) == plan_probe_spec(t),
    {
        let a = t.action.as_str();
        if same_text(a, "set") {
            if t.key.as_str().is_empty() {
                Err(requires_failure("redis", a, "'key' parameter"))
            } else {
                Ok(Probe::Shell(key_command_exec(t, " GET ")))
            }
        } else if same_text(a, "config") {
            if t.key.as_str().is_empty() {
                Err(requires_failure("redis", a, "'key' parameter"))
            } else {
                Ok(Probe::Nothing)
            }
        } else if same_text(a, "get") {
            Ok(Probe::Nothing)
        } else if same_text(a, "del") {
            if t.key.as_str().is_empty() {
                Err(requires_failure("redis", a, "'key' parameter"))
            } else {
                Ok(Probe::Shell(key_command_exec(t, " EXISTS ")))
            }
        } else if same_text(a, "flush") || same_text(a, "ping") || same_text(a, "backup")
            || same_text(a, "info") {
            Ok(Probe::Nothing)
        } else {
            Err(unknown_action_error("redis", a))
        }
    }

    /// The plan of a task, given the reply to its probe.
    pub fn plan(&self, t: &RedisTask, r: &Reply) -> (p: Result<Plan, ModuleError>)
        ensures
            rview(p) == plan_spec(t, r),
    {
        let a = t.action.as_str();
        let key = t.key.as_str();
        if same_text(a, "set") {
            if key.is_empty() {
                Err(requires_failure("redis", a, "'key' parameter"))
            } else if reply_is_failed(r) {
                Err(ModuleError::ProbeFailed)
            } else if holds_value(r, t.value.as_str()) {
                Ok(make_plan("redis", a, false, concat3("key '", key, "' already has correct value")))
            } else {
                Ok(make_plan("redis", a, true, concat3("set key '", key, "'")))
            }
        } else if same_text(a, "get") {
            Ok(make_plan("redis", a, true, concat3("get key '", key, "'")))
        } else if same_text(a, "del") {
            if key.is_empty() {
                Err(requires_failure("redis", a, "'key' parameter"))
            } else if reply_is_failed(r) {
                Err(ModuleError::ProbeFailed)
            } else if reply_prints_text(r, "1") {
                Ok(make_plan("redis", a, true, concat3("delete key '", key, "'")))
            } else {
                Ok(make_plan("redis", a, false, concat3("key '", key, "' already absent")))
            }
        } else if same_text(a, "flush") {
            Ok(make_plan("redis", a, true, "flush database".to_owned()))
        } else if same_text(a, "ping") {
            Ok(make_plan("redis", a, false, "ping redis".to_owned()))
        } else if same_text(a, "config") {
            if key.is_empty() {
                Err(requires_failure("redis", a, "'key' parameter"))
            } else {
                Ok(make_plan("redis", a, true, concat3("set config '", key, "'")))
            }
        } else if same_text(a, "backup") {
            Ok(make_plan("redis", a, true, "save a snapshot of the database".to_owned()))
        } else if same_text(a, "info") {
            Ok(make_plan("redis", a, false, "read server info".to_owned()))
        } else {
            Err(unknown_action_error("redis", a))
        }
    }

    /// The command that applies a task.
    pub fn apply_command(&self, t: &RedisTask) -> (r: Result<Command, ModuleError>)
        ensures
            rview(r) == apply_command_spec(t),
    {
        let a = t.action.as_str();
        if same_text(a, "set") {
            if t.key.as_str().is_empty() {
                return Err(requires_failure("redis", a, "'key' parameter"));
            }
            let mut c = key_command_exec(t, " SET ");
            c.lit(" ");
            c.quote(t.value.as_str());
            assert(c@ =~= key_command(t, " SET "@) + seq![lit(" "@), quote(t.value@)]);
            Ok(c)
        } else if same_text(a, "get") {
            Ok(key_command_exec(t, " GET "))
        } else if same_text(a, "del") {
            if t.key.as_str().is_empty() {
                return Err(requires_failure("redis", a, "'key' parameter"));
            }
            Ok(key_command_exec(t, " DEL "))
        } else if same_text(a, "flush") {
            Ok(verb_command_exec(t, " FLUSHDB"))
        } else if same_text(a, "ping") {
            Ok(verb_command_exec(t, " PING"))
        } else if same_text(a, "config") {
            if t.key.as_str().is_empty() {
                return Err(requires_failure("redis", a, "'key' parameter"));
            }
            let mut c = key_command_exec(t, " CONFIG SET ");
            c.lit(" ");
            c.quote(t.value.as_str());
            assert(c@ =~= key_command(t, " CONFIG SET "@) + seq![lit(" "@), quote(t.value@)]);
            Ok(c)
        } else if same_text(a, "backup") {
            Ok(verb_command_exec(t, " BGSAVE"))
        } else if same_text(a, "info") {
            Ok(verb_command_exec(t, " INFO"))
        } else {
            Err(unknown_action_error("redis", a))
        }
    }

    /// What applying a task did, given the output of its command.
    pub fn apply_report(&self, t: &RedisTask, out: &ExecOutput) -> (r: Report)
        ensures
            r@ == report_spec(t, out),
    {
        let a = t.action.as_str();
        let changed = out.success && !same_text(a, "get") && !same_text(a, "ping") && !same_text(a, "info");
        let message = if out.success {
            let mut m = concat3("redis ", a, " — ");
            m.append(trim(out.stdout.as_str()));
            m
        } else {
            failed_text("redis", a, out.stderr.as_str())
        };
        make_report("redis", a, out.success, changed, message)
    }

    /// What checking a task needs to know about the server.
    pub fn check_probe(&self, t: &RedisTask) -> (p: Probe)
        ensures
            p@ == check_probe_spec(t),
    {
        let a = t.action.as_str();
        if same_text(a, "set") {
            Probe::Shell(key_command_exec(t, " GET "))
        } else if same_text(a, "del") {
            Probe::Shell(key_command_exec(t, " EXISTS "))
        } else if same_text(a, "ping") {
            Probe::Shell(verb_command_exec(t, " PING"))
        } else {
            Probe::Nothing
        }
    }

    /// Whether the server already is as the task asks, given the probe's reply.
    pub fn check(&self, t: &RedisTask, r: &Reply) -> (b: Result<bool, ModuleError>)
        ensures
            rview(b) == check_spec(t, r),
    {
        let a = t.action.as_str();
        if same_text(a, "set") {
            checked_exec(r, holds_value(r, t.value.as_str()))
        } else if same_text(a, "del") {
            checked_exec(r, !reply_prints_text(r, "1"))
        } else if same_text(a, "ping") {
            checked_exec(r, reply_prints_text(r, "PONG"))
        } else {
            Ok(false)
        }
    }
}


/// The actions that the module lists are exactly the actions that its plan,
/// its probes and its commands accept; any other action is refused as unknown.
pub proof fn redis_accepts_listed_actions(t: &RedisTask, r: &Reply)
    ensures
        redis_actions().contains(t.action@) ==> plan_probe_spec(t) != Err::<ProbeView, ErrorView>(
            unknown_action("redis"@, t.action@),
        ) && plan_spec(t, r) != Err::<PlanView, ErrorView>(unknown_action("redis"@, t.action@))
            && apply_command_spec(t) != Err::<Seq<PieceView>, ErrorView>(unknown_action("redis"@, t.action@)),
        !redis_actions().contains(t.action@) ==> plan_probe_spec(t) == Err::<ProbeView, ErrorView>(
            unknown_action("redis"@, t.action@),
        ) && plan_spec(t, r) == Err::<PlanView, ErrorView>(unknown_action("redis"@, t.action@))
            && apply_command_spec(t) == Err::<Seq<PieceView>, ErrorView>(unknown_action("redis"@, t.action@)),
{
    let s = redis_actions();
    assert(s[0] == "set"@ && s[1] == "get"@ && s[2] == "del"@ && s[3] == "flush"@ && s[4] == "ping"@
        && s[5] == "config"@ && s[6] == "backup"@ && s[7] == "info"@);
    if s.contains(t.action@) {
        let i = choose|i: int| 0 <= i < s.len() && s[i] == t.action@;
        assert(t.action@ == s[i]);
    }
}

/// Planning and checking a task ask the node the same question, and when it
/// is answered, checking finds the node as the task asks exactly when the
/// plan would change nothing.
pub proof fn redis_check_agrees_with_plan(t: &RedisTask, r: &Reply)
    requires
        redis_actions().contains(t.action@),
        !(r is Failed),
        t.action@ != "ping"@,
        t.action@ != "info"@,
        t.key@.len() > 0,
    ensures
        plan_probe_spec(t) == Ok::<ProbeView, ErrorView>(check_probe_spec(t)),
        plan_spec(t, r) is Ok,
        check_spec(t, r) == Ok::<bool, ErrorView>(!plan_spec(t, r)->Ok_0.changed),
{
    reveal_strlit("set");
    assert("set"@ =~= seq!['s', 'e', 't']);
    reveal_strlit("get");
    assert("get"@ =~= seq!['g', 'e', 't']);
    reveal_strlit("del");
    assert("del"@ =~= seq!['d', 'e', 'l']);
    reveal_strlit("flush");
    assert("flush"@ =~= seq!['f', 'l', 'u', 's', 'h']);
    reveal_strlit("ping");
    assert("ping"@ =~= seq!['p', 'i', 'n', 'g']);
    reveal_strlit("config");
    assert("config"@ =~= seq!['c', 'o', 'n', 'f', 'i', 'g']);
    reveal_strlit("backup");
    assert("backup"@ =~= seq!['b', 'a', 'c', 'k', 'u', 'p']);
    reveal_strlit("info");
    assert("info"@ =~= seq!['i', 'n', 'f', 'o']);
    redis_accepts_listed_actions(t, r);
}

/// A report marks a change only when the command succeeded, and its success
/// is that of the command.
pub proof fn redis_report_change_needs_success(t: &RedisTask, out: &ExecOutput)
    ensures
        report_spec(t, out).success == out.success,
        report_spec(t, out).changed ==> report_spec(t, out).success,
{
}

/// Whether two tasks differ at most in the values of their parameters:
/// same action, same switches, and the same parameters left empty.
pub open spec fn same_shape(t1: &RedisTask, t2: &RedisTask) -> bool {
    &&& t1.action@ == t2.action@
    &&& t1.port == t2.port
    &&& t1.db == t2.db
    &&& (t1.password@.len() == 0) == (t2.password@.len() == 0)
    &&& (t1.key@.len() == 0) == (t2.key@.len() == 0)
}

/// Parameter values reach the shell only as values to quote: the literal
/// text of a task's command depends on its action, the port and database numbers
/// and which parameters are set, never on what they hold.
pub proof fn redis_values_only_quoted(t1: &RedisTask, t2: &RedisTask)
    requires
        same_shape(t1, t2),
    ensures
        apply_command_spec(t1) is Ok <==> apply_command_spec(t2) is Ok,
        apply_command_spec(t1) is Ok ==> same_literals(
            apply_command_spec(t1)->Ok_0,
            apply_command_spec(t2)->Ok_0,
        ),
{
    let p1 = seq![
        lit("redis-cli -h "@),
        quote(t1.host@),
        lit(" -p "@),
        lit(decimal(t1.port as int)),
        lit(" -n "@),
        lit(decimal(t1.db as int)),
    ];
    let p2 = seq![
        lit("redis-cli -h "@),
        quote(t2.host@),
        lit(" -p "@),
        lit(decimal(t2.port as int)),
        lit(" -n "@),
        lit(decimal(t2.db as int)),
    ];
    assert(same_literals(p1, p2));
    assert(same_literals(provided(t1.password@.len() > 0, seq![lit(" -a "@), quote(t1.password@)]), provided(t2.password@.len() > 0, seq![lit(" -a "@), quote(t2.password@)])));
    lemma_same_literals_concat(p1, p2, provided(t1.password@.len() > 0, seq![lit(" -a "@), quote(t1.password@)]), provided(t2.password@.len() > 0, seq![lit(" -a "@), quote(t2.password@)]));
    assert(same_literals(cli_prefix(t1), cli_prefix(t2)));
    let a = t1.action@;
    if a == "set"@ || a == "get"@ || a == "del"@ || a == "config"@ {
        let verb = if a == "set"@ {
            " SET "@
        } else if a == "get"@ {
            " GET "@
        } else if a == "del"@ {
            " DEL "@
        } else {
            " CONFIG SET "@
        };
        assert(same_literals(cli_prefix(t1), cli_prefix(t2)));
        assert(same_literals(seq![lit(verb), quote(t1.key@)], seq![lit(verb), quote(t2.key@)]));
        lemma_same_literals_concat(cli_prefix(t1), cli_prefix(t2), seq![lit(verb), quote(t1.key@)], seq![lit(verb), quote(t2.key@)]);
        if a == "set"@ || a == "config"@ {
            assert(same_literals(key_command(t1, verb), key_command(t2, verb)));
            assert(same_literals(seq![lit(" "@), quote(t1.value@)], seq![lit(" "@), quote(t2.value@)]));
            lemma_same_literals_concat(key_command(t1, verb), key_command(t2, verb), seq![lit(" "@), quote(t1.value@)], seq![lit(" "@), quote(t2.value@)]);
        }
    } else if a == "flush"@ || a == "ping"@ || a == "backup"@ || a == "info"@ {
        let verb = if a == "flush"@ {
            " FLUSHDB"@
        } else if a == "ping"@ {
            " PING"@
        } else if a == "backup"@ {
            " BGSAVE"@
        } else {
            " INFO"@
        };
        assert(same_literals(cli_prefix(t1), cli_prefix(t2)));
        assert(same_literals(seq![lit(verb)], seq![lit(verb)]));
        lemma_same_literals_concat(cli_prefix(t1), cli_prefix(t2), seq![lit(verb)], seq![lit(verb)]);
    }
}

/// What each action runs: redis-cli aimed at the task's host, port and
/// database, authenticated exactly when a password is given; keys and
/// values reach it quoted, and set and config need a key.
pub proof fn redis_commands_carry_their_parameters(t: &RedisTask)
    ensures
        (t.action@ == "set"@ || t.action@ == "del"@ || t.action@ == "config"@) ==> (t.key@.len() == 0
            <==> apply_command_spec(t) is Err),
        t.action@ == "set"@ && t.key@.len() > 0 ==> apply_command_spec(t) == Ok::<Seq<PieceView>, ErrorView>(
            (seq![lit("redis-cli -h "@), quote(t.host@), lit(" -p "@), lit(decimal(t.port as int)), lit(" -n "@), lit(decimal(t.db as int))]
                + (if t.password@.len() > 0 { seq![lit(" -a "@), quote(t.password@)] } else { seq![] })) + seq![lit(" SET "@), quote(t.key@), lit(" "@), quote(t.value@)],
        ),
        t.action@ == "del"@ && t.key@.len() > 0 ==> apply_command_spec(t) == Ok::<Seq<PieceView>, ErrorView>(
            (seq![lit("redis-cli -h "@), quote(t.host@), lit(" -p "@), lit(decimal(t.port as int)), lit(" -n "@), lit(decimal(t.db as int))]
                + (if t.password@.len() > 0 { seq![lit(" -a "@), quote(t.password@)] } else { seq![] })) + seq![lit(" DEL "@), quote(t.key@)],
        ),
        t.action@ == "config"@ && t.key@.len() > 0 ==> apply_command_spec(t) == Ok::<Seq<PieceView>, ErrorView>(
            (seq![lit("redis-cli -h "@), quote(t.host@), lit(" -p "@), lit(decimal(t.port as int)), lit(" -n "@), lit(decimal(t.db as int))]
                + (if t.password@.len() > 0 { seq![lit(" -a "@), quote(t.password@)] } else { seq![] })) + seq![lit(" CONFIG SET "@), quote(t.key@), lit(" "@), quote(t.value@)],
        ),
        t.action@ == "get"@ ==> apply_command_spec(t) == Ok::<Seq<PieceView>, ErrorView>(
            (seq![lit("redis-cli -h "@), quote(t.host@), lit(" -p "@), lit(decimal(t.port as int)), lit(" -n "@), lit(decimal(t.db as int))]
                + (if t.password@.len() > 0 { seq![lit(" -a "@), quote(t.password@)] } else { seq![] })) + seq![lit(" GET "@), quote(t.key@)],
        ),
        t.action@ == "flush"@ ==> apply_command_spec(t) == Ok::<Seq<PieceView>, ErrorView>(
            (seq![lit("redis-cli -h "@), quote(t.host@), lit(" -p "@), lit(decimal(t.port as int)), lit(" -n "@), lit(decimal(t.db as int))]
                + (if t.password@.len() > 0 { seq![lit(" -a "@), quote(t.password@)] } else { seq![] })) + seq![lit(" FLUSHDB"@)],
        ),
        t.action@ == "ping"@ ==> apply_command_spec(t) == Ok::<Seq<PieceView>, ErrorView>(
            (seq![lit("redis-cli -h "@), quote(t.host@), lit(" -p "@), lit(decimal(t.port as int)), lit(" -n "@), lit(decimal(t.db as int))]
                + (if t.password@.len() > 0 { seq![lit(" -a "@), quote(t.password@)] } else { seq![] })) + seq![lit(" PING"@)],
        ),
        t.action@ == "backup"@ ==> apply_command_spec(t) == Ok::<Seq<PieceView>, ErrorView>(
            (seq![lit("redis-cli -h "@), quote(t.host@), lit(" -p "@), lit(decimal(t.port as int)), lit(" -n "@), lit(decimal(t.db as int))]
                + (if t.password@.len() > 0 { seq![lit(" -a "@), quote(t.password@)] } else { seq![] })) + seq![lit(" BGSAVE"@)],
        ),
        t.action@ == "info"@ ==> apply_command_spec(t) == Ok::<Seq<PieceView>, ErrorView>(
            (seq![lit("redis-cli -h "@), quote(t.host@), lit(" -p "@), lit(decimal(t.port as int)), lit(" -n "@), lit(decimal(t.db as int))]
                + (if t.password@.len() > 0 { seq![lit(" -a "@), quote(t.password@)] } else { seq![] })) + seq![lit(" INFO"@)],
        ),
{
    reveal_strlit("set");
    assert("set"@ =~= seq!['s', 'e', 't']);
    reveal_strlit("get");
    assert("get"@ =~= seq!['g', 'e', 't']);
    reveal_strlit("del");
    assert("del"@ =~= seq!['d', 'e', 'l']);
    reveal_strlit("flush");
    assert("flush"@ =~= seq!['f', 'l', 'u', 's', 'h']);
    reveal_strlit("ping");
    assert("ping"@ =~= seq!['p', 'i', 'n', 'g']);
    reveal_strlit("config");
    assert("config"@ =~= seq!['c', 'o', 'n', 'f', 'i', 'g']);
    reveal_strlit("backup");
    assert("backup"@ =~= seq!['b', 'a', 'c', 'k', 'u', 'p']);
    reveal_strlit("info");
    assert("info"@ =~= seq!['i', 'n', 'f', 'o']);
    assert(key_command(t, " SET "@) + seq![lit(" "@), quote(t.value@)] =~= cli_prefix(t) + seq![
        lit(" SET "@),
        quote(t.key@),
        lit(" "@),
        quote(t.value@),
    ]);
    assert(key_command(t, " CONFIG SET "@) + seq![lit(" "@), quote(t.value@)] =~= cli_prefix(t) + seq![
        lit(" CONFIG SET "@),
        quote(t.key@),
        lit(" "@),
        quote(t.value@),
    ]);
}

/// What a plan asks the server and when it plans a change: a key is set
/// only when `GET` does not already show its value (`(nil)` shows none), and
/// deleted only when `EXISTS` prints 1; ping and info change nothing.
pub proof fn redis_plans_follow_the_server(t: &RedisTask, r: &Reply)
    ensures
        t.action@ == "set"@ && t.key@.len() > 0 ==> plan_probe_spec(t) == Ok::<ProbeView, ErrorView>(ProbeView::Shell((seq![lit("redis-cli -h "@), quote(t.host@), lit(" -p "@), lit(decimal(t.port as int)), lit(" -n "@), lit(decimal(t.db as int))]
            + (if t.password@.len() > 0 { seq![lit(" -a "@), quote(t.password@)] } else { seq![] })) + seq![lit(" GET "@), quote(t.key@)])),
        t.action@ == "set"@ && t.key@.len() > 0 && !(r is Failed) ==> plan_spec(t, r) is Ok && plan_spec(t, r)->Ok_0.changed == (!(r matches Reply::Output(o) && o.success && trimmed(o.stdout@) != "(nil)"@ && trimmed(o.stdout@) == t.value@)),
        t.action@ == "del"@ && t.key@.len() > 0 ==> plan_probe_spec(t) == Ok::<ProbeView, ErrorView>(ProbeView::Shell((seq![lit("redis-cli -h "@), quote(t.host@), lit(" -p "@), lit(decimal(t.port as int)), lit(" -n "@), lit(decimal(t.db as int))]
            + (if t.password@.len() > 0 { seq![lit(" -a "@), quote(t.password@)] } else { seq![] })) + seq![lit(" EXISTS "@), quote(t.key@)])),
        t.action@ == "del"@ && t.key@.len() > 0 && !(r is Failed) ==> plan_spec(t, r) is Ok && plan_spec(t, r)->Ok_0.changed == ((r matches Reply::Output(o) && o.success && trimmed(o.stdout@) == "1"@)),
        t.action@ == "get"@ ==> plan_probe_spec(t) == Ok::<ProbeView, ErrorView>(ProbeView::Nothing),
        t.action@ == "get"@ && !(r is Failed) ==> plan_spec(t, r) is Ok && plan_spec(t, r)->Ok_0.changed == (true),
        t.action@ == "flush"@ ==> plan_probe_spec(t) == Ok::<ProbeView, ErrorView>(ProbeView::Nothing),
        t.action@ == "flush"@ && !(r is Failed) ==> plan_spec(t, r) is Ok && plan_spec(t, r)->Ok_0.changed == (true),
        t.action@ == "ping"@ ==> plan_probe_spec(t) == Ok::<ProbeView, ErrorView>(ProbeView::Nothing),
        t.action@ == "ping"@ && !(r is Failed) ==> plan_spec(t, r) is Ok && plan_spec(t, r)->Ok_0.changed == (false),
        t.action@ == "config"@ && t.key@.len() > 0 ==> plan_probe_spec(t) == Ok::<ProbeView, ErrorView>(ProbeView::Nothing),
        t.action@ == "config"@ && t.key@.len() > 0 && !(r is Failed) ==> plan_spec(t, r) is Ok && plan_spec(t, r)->Ok_0.changed == (true),
        t.action@ == "backup"@ ==> plan_probe_spec(t) == Ok::<ProbeView, ErrorView>(ProbeView::Nothing),
        t.action@ == "backup"@ && !(r is Failed) ==> plan_spec(t, r) is Ok && plan_spec(t, r)->Ok_0.changed == (true),
        t.action@ == "info"@ ==> plan_probe_spec(t) == Ok::<ProbeView, ErrorView>(ProbeView::Nothing),
        t.action@ == "info"@ && !(r is Failed) ==> plan_spec(t, r) is Ok && plan_spec(t, r)->Ok_0.changed == (false),
{
    reveal_strlit("set");
    assert("set"@ =~= seq!['s', 'e', 't']);
    reveal_strlit("get");
    assert("get"@ =~= seq!['g', 'e', 't']);
    reveal_strlit("del");
    assert("del"@ =~= seq!['d', 'e', 'l']);
    reveal_strlit("flush");
    assert("flush"@ =~= seq!['f', 'l', 'u', 's', 'h']);
    reveal_strlit("ping");
    assert("ping"@ =~= seq!['p', 'i', 'n', 'g']);
    reveal_strlit("config");
    assert("config"@ =~= seq!['c', 'o', 'n', 'f', 'i', 'g']);
    reveal_strlit("backup");
    assert("backup"@ =~= seq!['b', 'a', 'c', 'k', 'u', 'p']);
    reveal_strlit("info");
    assert("info"@ =~= seq!['i', 'n', 'f', 'o']);
    assert(cli_prefix(t) + seq![lit(" GET "@), quote(t.key@)] =~= key_command(t, " GET "@));
    assert(cli_prefix(t) + seq![lit(" EXISTS "@), quote(t.key@)] =~= key_command(t, " EXISTS "@));
}

/// What a report says: it succeeds exactly when redis-cli did, marks a
/// change exactly when an action other than get, ping and info succeeded,
/// and shows redis's trimmed answer, or `failed:` with the trimmed error.
pub proof fn redis_reports_what_the_command_did(t: &RedisTask, out: &ExecOutput)
    ensures
        report_spec(t, out) == (ReportView {
            module: "redis"@,
            action: t.action@,
            success: out.success,
            changed: out.success && t.action@ != "get"@ && t.action@ != "ping"@ && t.action@ != "info"@,
            message: if out.success {
                "redis "@ + t.action@ + " — "@ + trimmed(out.stdout@)
            } else {
                "redis"@ + " "@ + t.action@ + " — failed: "@ + trimmed(out.stderr@)
            },
        }),
{
}

} // verus!
