//! PostgreSQL through psql: create_db, drop_db, create_user (or user),
//! drop_user, grant, query; and migrate, backup and restore of a database
//! from or to a file.

use vstd::prelude::*;
use vstd::utf8::{encode_utf8, is_char_boundary};
use crate::command::{Command, PieceView, lit, quote, same_literals};
use crate::task::{
    checked, checked_exec, failed_message, failed_text, make_plan, make_report, ok_message,
    ok_text, reply_prints, reply_prints_text, rview, unknown_action, unknown_action_error,
    ErrorView, ExecOutput, ModuleError, Plan, PlanView, Probe, ProbeView, Reply, Report, ReportView,
};
use crate::text::{
    byte_prefix, concat2, concat3, concat4, prefix_bytes, replace_char, replaced, same_text, trim, trimmed,
};

verus! {

/// The PostgreSQL module.
#[derive(Debug)]
pub struct PostgresModule;

/// The parameters of a PostgreSQL task, as the driver read them.
#[derive(Debug)]
pub struct PostgresTask {
    pub action: String,
    pub host: String,
    pub port: String,
    pub pg_user: String,
    pub database: String,
    pub username: String,
    pub privileges: String,
    pub sql: String,
    pub owner: String,
    pub password: String,
    pub superuser: bool,
    /// The file that `migrate` runs, `backup` writes and `restore` reads.
    pub file: String,
}

impl PostgresTask {
    /// A task of the given action with every parameter at its default: what
    /// the driver starts from before it reads the parameters the task sets.
    pub fn defaults(action: &str) -> (t: PostgresTask)
        ensures
            t.action@ == action@,
            t.host@ == "localhost"@,
            t.port@ == "5432"@,
            t.pg_user@ == "postgres"@,
            t.database@ == ""@,
            t.username@ == ""@,
            t.privileges@ == "ALL"@,
            t.sql@ == ""@,
            t.owner@ == ""@,
            t.password@ == ""@,
            t.superuser == false,
            t.file@ == ""@,
    {
        PostgresTask {
            action: action.to_owned(),
            host: "localhost".to_owned(),
            port: "5432".to_owned(),
            pg_user: "postgres".to_owned(),
            database: "".to_owned(),
            username: "".to_owned(),
            privileges: "ALL".to_owned(),
            sql: "".to_owned(),
            owner: "".to_owned(),
            password: "".to_owned(),
            superuser: false,
            file: "".to_owned(),
        }
    }
}

/// The actions of the module, in the order it lists them.
pub open spec fn postgres_actions() -> Seq<Seq<char>> {
    seq![
        "create_db"@,
        "drop_db"@,
        "create_user"@,
        "drop_user"@,
        "grant"@,
        "query"@,
        "migrate"@,
        "backup"@,
        "restore"@,
        "user"@,
    ]
}

/// `psql` run on the task's server with `sql` as its one command.
pub open spec fn psql(t: &PostgresTask, sql: Seq<char>) -> Seq<PieceView> {
    seq![
        lit("psql -h "@),
        quote(t.host@),
        lit(" -p "@),
        quote(t.port@),
        lit(" -U "@),
        quote(t.pg_user@),
        lit(" -tAc "@),
        quote(sql),
    ]
}

/// A PostgreSQL client tool aimed at the task's server and user.
pub open spec fn conn(t: &PostgresTask, tool: Seq<char>) -> Seq<PieceView> {
    seq![lit(tool + " -h "@), quote(t.host@), lit(" -p "@), quote(t.port@), lit(" -U "@), quote(t.pg_user@)]
}

/// The command of the actions that move a database from or to a file.
pub open spec fn file_command(t: &PostgresTask) -> Option<Seq<PieceView>> {
    let a = canonical(t.action@);
    if a == "migrate"@ {
        Some(conn(t, "psql"@) + seq![lit(" -d "@), quote(t.database@), lit(" -f "@), quote(t.file@)])
    } else if a == "backup"@ {
        Some(conn(t, "pg_dump"@) + seq![lit(" -Fc -f "@), quote(t.file@), lit(" "@), quote(t.database@)])
    } else if a == "restore"@ {
        Some(conn(t, "pg_restore"@) + seq![lit(" -d "@), quote(t.database@), lit(" "@), quote(t.file@)])
    } else {
        None
    }
}

/// `s` as an SQL string literal: in single quotes, with each quote doubled.
pub open spec fn sql_string(s: Seq<char>) -> Seq<char> {
    "'"@ + replaced(s, '\'', "''"@) + "'"@
}

/// `s` as an SQL identifier: in double quotes, with each double quote doubled.
pub open spec fn sql_ident(s: Seq<char>) -> Seq<char> {
    "\""@ + replaced(s, '"', "\"\""@) + "\""@
}

pub open spec fn db_probe(t: &PostgresTask) -> ProbeView {
    ProbeView::Shell(psql(t, "SELECT 1 FROM pg_database WHERE datname="@ + sql_string(t.database@)))
}

pub open spec fn user_probe(t: &PostgresTask) -> ProbeView {
    ProbeView::Shell(psql(t, "SELECT 1 FROM pg_roles WHERE rolname="@ + sql_string(t.username@)))
}

/// The action that `a` names: the module also takes `user` for `create_user`.
pub open spec fn canonical(a: Seq<char>) -> Seq<char> {
    if a == "user"@ {
        "create_user"@
    } else {
        a
    }
}

fn canonical_exec(a: &str) -> (c: &str)
    ensures
        c@ == canonical(a@),
{
    if same_text(a, "user") {
        "create_user"
    } else {
        a
    }
}

pub open spec fn plan_probe_spec(t: &PostgresTask) -> Result<ProbeView, ErrorView> {
    let a = canonical(t.action@);
    if a == "create_db"@ || a == "drop_db"@ {
        Ok(db_probe(t))
    } else if a == "create_user"@ || a == "drop_user"@ {
        Ok(user_probe(t))
    } else if a == "grant"@ || a == "query"@ || a == "migrate"@ || a == "backup"@ || a == "restore"@ {
        Ok(ProbeView::Nothing)
    } else {
        Err(unknown_action("postgres"@, a))
    }
}

pub open spec fn plan_of(t: &PostgresTask, changed: bool, description: Seq<char>) -> PlanView {
    PlanView { module: "postgres"@, action: t.action@, changed, description }
}

/// The at most 60 bytes of the query that its plan shows; slicing there
/// must not cut a character.
pub open spec fn query_fits(t: &PostgresTask) -> bool {
    encode_utf8(t.sql@).len() <= 60 || is_char_boundary(encode_utf8(t.sql@), 60)
}

/// The plan; a probe that fails counts as an absent database or user.
pub open spec fn plan_spec(t: &PostgresTask, r: &Reply) -> Result<PlanView, ErrorView> {
    let a = canonical(t.action@);
    let db = t.database@;
    let user = t.username@;
    let found = reply_prints(r, "1"@);
    if a == "create_db"@ {
        if found {
            Ok(plan_of(t, false, "database "@ + db + " already exists"@))
        } else {
            Ok(plan_of(t, true, "create database "@ + db))
        }
    } else if a == "drop_db"@ {
        if found {
            Ok(plan_of(t, true, "drop database "@ + db))
        } else {
            Ok(plan_of(t, false, "database "@ + db + " does not exist"@))
        }
    } else if a == "create_user"@ {
        if found {
            Ok(plan_of(t, false, "user "@ + user + " already exists"@))
        } else {
            Ok(plan_of(t, true, "create user "@ + user))
        }
    } else if a == "drop_user"@ {
        if found {
            Ok(plan_of(t, true, "drop user "@ + user))
        } else {
            Ok(plan_of(t, false, "user "@ + user + " does not exist"@))
        }
    } else if a == "grant"@ {
        Ok(plan_of(t, true, "grant "@ + t.privileges@ + " on "@ + db + " to "@ + user))
    } else if a == "query"@ {
        Ok(plan_of(t, false, "query: "@ + byte_prefix(t.sql@, 60)))
    } else if a == "migrate"@ {
        Ok(plan_of(t, true, "run "@ + t.file@ + " on database "@ + db))
    } else if a == "backup"@ {
        Ok(plan_of(t, true, "back up database "@ + db + " to "@ + t.file@))
    } else if a == "restore"@ {
        Ok(plan_of(t, true, "restore database "@ + db + " from "@ + t.file@))
    } else {
        Err(unknown_action("postgres"@, a))
    }
}

/// The SQL statement that applies the task.
pub open spec fn statement(t: &PostgresTask) -> Option<Seq<char>> {
    let a = canonical(t.action@);
    if a == "create_db"@ {
        if t.owner@.len() == 0 {
            Some("CREATE DATABASE "@ + sql_ident(t.database@))
        } else {
            Some("CREATE DATABASE "@ + sql_ident(t.database@) + " OWNER "@ + sql_ident(t.owner@))
        }
    } else if a == "drop_db"@ {
        Some("DROP DATABASE IF EXISTS "@ + sql_ident(t.database@))
    } else if a == "create_user"@ {
        Some(
            "CREATE ROLE "@ + sql_ident(t.username@) + " LOGIN"@ + (if t.password@.len() > 0 {
                " PASSWORD "@ + sql_string(t.password@)
            } else {
                Seq::empty()
            }) + (if t.superuser {
                " SUPERUSER"@
            } else {
                Seq::empty()
            }),
        )
    } else if a == "drop_user"@ {
        Some("DROP ROLE IF EXISTS "@ + sql_ident(t.username@))
    } else if a == "grant"@ {
        Some(
            "GRANT "@ + t.privileges@ + " ON DATABASE "@ + sql_ident(t.database@) + " TO "@
                + sql_ident(t.username@),
        )
    } else if a == "query"@ {
        Some(t.sql@)
    } else {
        None
    }
}

pub open spec fn apply_command_spec(t: &PostgresTask) -> Result<Seq<PieceView>, ErrorView> {
    match file_command(t) {
        Some(c) => Ok(c),
        None => match statement(t) {
            Some(sql) => Ok(psql(t, sql)),
            None => Err(unknown_action("postgres"@, t.action@)),
        },
    }
}

/// On success the trimmed output for `query`, the ok message otherwise; the
/// trimmed error output on failure.
pub open spec fn report_message(t: &PostgresTask, out: &ExecOutput) -> Seq<char> {
    if out.success {
        if t.action@ == "query"@ {
            trimmed(out.stdout@)
        } else {
            ok_message("postgres"@, t.action@)
        }
    } else {
        failed_message("postgres"@, t.action@, out.stderr@)
    }
}

pub open spec fn report_spec(t: &PostgresTask, out: &ExecOutput) -> ReportView {
    ReportView {
        module: "postgres"@,
        action: t.action@,
        success: out.success,
        changed: out.success && t.action@ != "query"@,
        message: report_message(t, out),
    }
}

pub open spec fn check_probe_spec(t: &PostgresTask) -> ProbeView {
    let a = canonical(t.action@);
    if a == "create_db"@ || a == "drop_db"@ {
        db_probe(t)
    } else if a == "create_user"@ || a == "drop_user"@ {
        user_probe(t)
    } else {
        ProbeView::Nothing
    }
}

pub open spec fn check_spec(t: &PostgresTask, r: &Reply) -> Result<bool, ErrorView> {
    let a = canonical(t.action@);
    let found = reply_prints(r, "1"@);
    if a == "create_db"@ || a == "create_user"@ {
        checked(r, found)
    } else if a == "drop_db"@ || a == "drop_user"@ {
        checked(r, !found)
    } else {
        Ok(false)
    }
}

fn psql_exec(t: &PostgresTask, sql: &str) -> (c: Command)
    ensures
        c@ == psql(t, sql@),
{
    let mut c = Command::new();
    c.lit("psql -h ");
    c.quote(t.host.as_str());
    c.lit(" -p ");
    c.quote(t.port.as_str());
    c.lit(" -U ");
    c.quote(t.pg_user.as_str());
    c.lit(" -tAc ");
    c.quote(sql);
    assert(c@ =~= psql(t, sql@));
    c
}

fn conn_exec(t: &PostgresTask, tool: &str) -> (c: Command)
    ensures
        c@ == conn(t, tool@),
{
    let mut c = Command::new();
    c.lit(concat2(tool, " -h ").as_str());
    c.quote(t.host.as_str());
    c.lit(" -p ");
    c.quote(t.port.as_str());
    c.lit(" -U ");
    c.quote(t.pg_user.as_str());
    assert(c@ =~= conn(t, tool@));
    c
}

fn file_command_exec(t: &PostgresTask) -> (r: Option<Command>)
    ensures
        match r {
            Some(c) => file_command(t) == Some(c@),
            None => file_command(t) is None,
        },
{
    let a = canonical_exec(t.action.as_str());
    if same_text(a, "migrate") {
        let mut c = conn_exec(t, "psql");
        c.lit(" -d ");
        c.quote(t.database.as_str());
        c.lit(" -f ");
        c.quote(t.file.as_str());
        assert(c@ =~= conn(t, "psql"@) + seq![lit(" -d "@), quote(t.database@), lit(" -f "@), quote(t.file@)]);
        Some(c)
    } else if same_text(a, "backup") {
        let mut c = conn_exec(t, "pg_dump");
        c.lit(" -Fc -f ");
        c.quote(t.file.as_str());
        c.lit(" ");
        c.quote(t.database.as_str());
        assert(c@ =~= conn(t, "pg_dump"@) + seq![lit(" -Fc -f "@), quote(t.file@), lit(" "@), quote(t.database@)]);
        Some(c)
    } else if same_text(a, "restore") {
        let mut c = conn_exec(t, "pg_restore");
        c.lit(" -d ");
        c.quote(t.database.as_str());
        c.lit(" ");
        c.quote(t.file.as_str());
        assert(c@ =~= conn(t, "pg_restore"@) + seq![lit(" -d "@), quote(t.database@), lit(" "@), quote(t.file@)]);
        Some(c)
    } else {
        None
    }
}

fn sql_string_exec(s: &str) -> (r: String)
    ensures
        r@ == sql_string(s@),
{
    let inner = replace_char(s, '\'', "''");
    concat3("'", inner.as_str(), "'")
}

fn sql_ident_exec(s: &str) -> (r: String)
    ensures
        r@ == sql_ident(s@),
{
    let inner = replace_char(s, '"', "\"\"");
    concat3("\"", inner.as_str(), "\"")
}

fn db_probe_exec(t: &PostgresTask) -> (p: Probe)
    ensures
        p@ == db_probe(t),
{
    let lit = sql_string_exec(t.database.as_str());
    let sql = concat2("SELECT 1 FROM pg_database WHERE datname=", lit.as_str());
    Probe::Shell(psql_exec(t, sql.as_str()))
}

fn user_probe_exec(t: &PostgresTask) -> (p: Probe)
    ensures
        p@ == user_probe(t),
{
    let lit = sql_string_exec(t.username.as_str());
    let sql = concat2("SELECT 1 FROM pg_roles WHERE rolname=", lit.as_str());
    Probe::Shell(psql_exec(t, sql.as_str()))
}

fn statement_exec(t: &PostgresTask) -> (s: Option<String>)
    ensures
        match s {
            Some(x) => statement(t) == Some(x@),
            None => statement(t) is None,
        },
{
    let a = canonical_exec(t.action.as_str());
    if same_text(a, "create_db") {
        let db = sql_ident_exec(t.database.as_str());
        let mut s = concat2("CREATE DATABASE ", db.as_str());
        if !t.owner.as_str().is_empty() {
            let owner = sql_ident_exec(t.owner.as_str());
            s.append(" OWNER ");
            s.append(owner.as_str());
        }
        Some(s)
    } else if same_text(a, "drop_db") {
        let db = sql_ident_exec(t.database.as_str());
        Some(concat2("DROP DATABASE IF EXISTS ", db.as_str()))
    } else if same_text(a, "create_user") {
        let user = sql_ident_exec(t.username.as_str());
        let mut s = concat2("CREATE ROLE ", user.as_str());
        s.append(" LOGIN");
        let ghost head = s@;
        if !t.password.as_str().is_empty() {
            let pw = sql_string_exec(t.password.as_str());
            s.append(" PASSWORD ");
            s.append(pw.as_str());
        } else {
            assert(s@ =~= head + Seq::<char>::empty());
        }
        let ghost mid = s@;
        if t.superuser {
            s.append(" SUPERUSER");
        } else {
            assert(s@ =~= mid + Seq::<char>::empty());
        }
        Some(s)
    } else if same_text(a, "drop_user") {
        let user = sql_ident_exec(t.username.as_str());
        Some(concat2("DROP ROLE IF EXISTS ", user.as_str()))
    } else if same_text(a, "grant") {
        let db = sql_ident_exec(t.database.as_str());
        let user = sql_ident_exec(t.username.as_str());
        let mut s = concat3("GRANT ", t.privileges.as_str(), " ON DATABASE ");
        s.append(db.as_str());
        s.append(" TO ");
        s.append(user.as_str());
        Some(s)
    } else if same_text(a, "query") {
        Some(t.sql.clone())
    } else {
        None
    }
}

impl PostgresModule {
    pub fn name(&self) -> (r: &'static str)
        ensures
            r@ == "postgres"@,
    {
        "postgres"
    }

    pub fn actions(&self) -> (r: &'static [&'static str])
        ensures
            r@.map_values(|s: &str| s@) == postgres_actions(),
    {
        let r: &'static [&'static str] = &[
            "create_db",
            "drop_db",
            "create_user",
            "drop_user",
            "grant",
            "query",
            "migrate",
            "backup",
            "restore",
            "user",
        ];
        assert(r@.map_values(|s: &str| s@) =~= postgres_actions());
        r
    }

    /// What the plan of a task needs to know about the server first.
    pub fn plan_probe(&self, t: &PostgresTask) -> (r: Result<Probe, ModuleError>)
        ensures
            rview(r) == plan_probe_spec(t),
    {
        let a = canonical_exec(t.action.as_str());
        if same_text(a, "create_db") || same_text(a, "drop_db") {
            Ok(db_probe_exec(t))
        } else if same_text(a, "create_user") || same_text(a, "drop_user") {
            Ok(user_probe_exec(t))
        } else if same_text(a, "grant") || same_text(a, "query") || same_text(a, "migrate")
            || same_text(a, "backup") || same_text(a, "restore") {
            Ok(Probe::Nothing)
        } else {
            Err(unknown_action_error("postgres", a))
        }
    }

    /// The plan of a task, given the reply to its probe.
    pub fn plan(&self, t: &PostgresTask, r: &Reply) -> (p: Result<Plan, ModuleError>)
        requires
            t.action@ == "query"@ ==> query_fits(t),
        ensures
            rview(p) == plan_spec(t, r),
    {
        let a = canonical_exec(t.action.as_str());
        let db = t.database.as_str();
        let user = t.username.as_str();
        let found = reply_prints_text(r, "1");
        if same_text(a, "create_db") {
            if found {
                Ok(make_plan("postgres", t.action.as_str(), false, concat3("database ", db, " already exists")))
            } else {
                Ok(make_plan("postgres", t.action.as_str(), true, concat2("create database ", db)))
            }
        } else if same_text(a, "drop_db") {
            if found {
                Ok(make_plan("postgres", t.action.as_str(), true, concat2("drop database ", db)))
            } else {
                Ok(make_plan("postgres", t.action.as_str(), false, concat3("database ", db, " does not exist")))
            }
        } else if same_text(a, "create_user") {
            if found {
                Ok(make_plan("postgres", t.action.as_str(), false, concat3("user ", user, " already exists")))
            } else {
                Ok(make_plan("postgres", t.action.as_str(), true, concat2("create user ", user)))
            }
        } else if same_text(a, "drop_user") {
            if found {
                Ok(make_plan("postgres", t.action.as_str(), true, concat2("drop user ", user)))
            } else {
                Ok(make_plan("postgres", t.action.as_str(), false, concat3("user ", user, " does not exist")))
            }
        } else if same_text(a, "grant") {
            let mut d = concat3("grant ", t.privileges.as_str(), " on ");
            d.append(db);
            d.append(" to ");
            d.append(user);
            Ok(make_plan("postgres", t.action.as_str(), true, d))
        } else if same_text(a, "query") {
            let head = prefix_bytes(t.sql.as_str(), 60);
            Ok(make_plan("postgres", t.action.as_str(), false, concat2("query: ", head)))
        } else if same_text(a, "migrate") {
            Ok(make_plan("postgres", t.action.as_str(), true, concat4("run ", t.file.as_str(), " on database ", db)))
        } else if same_text(a, "backup") {
            Ok(make_plan("postgres", t.action.as_str(), true, concat4("back up database ", db, " to ", t.file.as_str())))
        } else if same_text(a, "restore") {
            Ok(make_plan("postgres", t.action.as_str(), true, concat4("restore database ", db, " from ", t.file.as_str())))
        } else {
            Err(unknown_action_error("postgres", a))
        }
    }

    /// The command that applies a task.
    pub fn apply_command(&self, t: &PostgresTask) -> (r: Result<Command, ModuleError>)
        ensures
            rview(r) == apply_command_spec(t),
    {
        if let Some(c) = file_command_exec(t) {
            return Ok(c);
        }
        match statement_exec(t) {
            Some(sql) => Ok(psql_exec(t, sql.as_str())),
            None => Err(unknown_action_error("postgres", t.action.as_str())),
        }
    }

    /// What applying a task did, given the output of its command.
    pub fn apply_report(&self, t: &PostgresTask, out: &ExecOutput) -> (r: Report)
        ensures
            r@ == report_spec(t, out),
    {
        let query = same_text(t.action.as_str(), "query");
        let message = if out.success {
            if query {
                trim(out.stdout.as_str()).to_owned()
            } else {
                ok_text("postgres", t.action.as_str())
            }
        } else {
            failed_text("postgres", t.action.as_str(), out.stderr.as_str())
        };
        make_report("postgres", t.action.as_str(), out.success, out.success && !query, message)
    }

    /// What checking a task needs to know about the server.
    pub fn check_probe(&self, t: &PostgresTask) -> (p: Probe)
        ensures
            p@ == check_probe_spec(t),
    {
        let a = canonical_exec(t.action.as_str());
        if same_text(a, "create_db") || same_text(a, "drop_db") {
            db_probe_exec(t)
        } else if same_text(a, "create_user") || same_text(a, "drop_user") {
            user_probe_exec(t)
        } else {
            Probe::Nothing
        }
    }

    /// Whether the server already is as the task asks, given the probe's reply.
    pub fn check(&self, t: &PostgresTask, r: &Reply) -> (b: Result<bool, ModuleError>)
        ensures
            rview(b) == check_spec(t, r),
    {
        let a = canonical_exec(t.action.as_str());
        let found = reply_prints_text(r, "1");
        if same_text(a, "create_db") || same_text(a, "create_user") {
            checked_exec(r, found)
        } else if same_text(a, "drop_db") || same_text(a, "drop_user") {
            checked_exec(r, !found)
        } else {
            Ok(false)
        }
    }
}


/// The actions that the module lists are exactly the actions that its plan,
/// its probes and its commands accept; any other action is refused as unknown.
pub proof fn postgres_accepts_listed_actions(t: &PostgresTask, r: &Reply)
    ensures
        postgres_actions().contains(t.action@) ==> plan_probe_spec(t) != Err::<ProbeView, ErrorView>(
            unknown_action("postgres"@, t.action@),
        ) && plan_spec(t, r) != Err::<PlanView, ErrorView>(unknown_action("postgres"@, t.action@))
            && apply_command_spec(t) != Err::<Seq<PieceView>, ErrorView>(unknown_action("postgres"@, t.action@)),
        !postgres_actions().contains(t.action@) ==> plan_probe_spec(t) == Err::<ProbeView, ErrorView>(
            unknown_action("postgres"@, t.action@),
        ) && plan_spec(t, r) == Err::<PlanView, ErrorView>(unknown_action("postgres"@, t.action@))
            && apply_command_spec(t) == Err::<Seq<PieceView>, ErrorView>(unknown_action("postgres"@, t.action@)),
{
    let s = postgres_actions();
    assert(s[0] == "create_db"@ && s[1] == "drop_db"@ && s[2] == "create_user"@ && s[3] == "drop_user"@ && s[4] == "grant"@ && s[5] == "query"@
        && s[6] == "migrate"@ && s[7] == "backup"@ && s[8] == "restore"@ && s[9] == "user"@);
    if s.contains(t.action@) {
        let i = choose|i: int| 0 <= i < s.len() && s[i] == t.action@;
        assert(t.action@ == s[i]);
    }
}

/// Planning and checking a task ask the node the same question, and when it
/// is answered, checking finds the node as the task asks exactly when the
/// plan would change nothing.
pub proof fn postgres_check_agrees_with_plan(t: &PostgresTask, r: &Reply)
    requires
        postgres_actions().contains(t.action@),
        !(r is Failed),
        t.action@ != "query"@,
    ensures
        plan_probe_spec(t) == Ok::<ProbeView, ErrorView>(check_probe_spec(t)),
        plan_spec(t, r) is Ok,
        check_spec(t, r) == Ok::<bool, ErrorView>(!plan_spec(t, r)->Ok_0.changed),
{
    reveal_strlit("create_db");
    assert("create_db"@ =~= seq!['c', 'r', 'e', 'a', 't', 'e', '_', 'd', 'b']);
    reveal_strlit("drop_db");
    assert("drop_db"@ =~= seq!['d', 'r', 'o', 'p', '_', 'd', 'b']);
    reveal_strlit("create_user");
    assert("create_user"@ =~= seq!['c', 'r', 'e', 'a', 't', 'e', '_', 'u', 's', 'e', 'r']);
    reveal_strlit("drop_user");
    assert("drop_user"@ =~= seq!['d', 'r', 'o', 'p', '_', 'u', 's', 'e', 'r']);
    reveal_strlit("grant");
    assert("grant"@ =~= seq!['g', 'r', 'a', 'n', 't']);
    reveal_strlit("query");
    assert("query"@ =~= seq!['q', 'u', 'e', 'r', 'y']);
    reveal_strlit("migrate");
    assert("migrate"@ =~= seq!['m', 'i', 'g', 'r', 'a', 't', 'e']);
    reveal_strlit("backup");
    assert("backup"@ =~= seq!['b', 'a', 'c', 'k', 'u', 'p']);
    reveal_strlit("restore");
    assert("restore"@ =~= seq!['r', 'e', 's', 't', 'o', 'r', 'e']);
    reveal_strlit("user");
    assert("user"@ =~= seq!['u', 's', 'e', 'r']);
    postgres_accepts_listed_actions(t, r);
}

/// A report marks a change only when the command succeeded, and its success
/// is that of the command.
pub proof fn postgres_report_change_needs_success(t: &PostgresTask, out: &ExecOutput)
    ensures
        report_spec(t, out).success == out.success,
        report_spec(t, out).changed ==> report_spec(t, out).success,
{
}

/// Whether two tasks differ at most in the values of their parameters:
/// same action, same switches, and the same parameters left empty.
pub open spec fn same_shape(t1: &PostgresTask, t2: &PostgresTask) -> bool {
    &&& t1.action@ == t2.action@
}

/// Parameter values reach the shell only as values to quote: the literal
/// text of a task's command depends on its action, never on what they hold.
pub proof fn postgres_values_only_quoted(t1: &PostgresTask, t2: &PostgresTask)
    requires
        same_shape(t1, t2),
    ensures
        apply_command_spec(t1) is Ok <==> apply_command_spec(t2) is Ok,
        apply_command_spec(t1) is Ok ==> same_literals(
            apply_command_spec(t1)->Ok_0,
            apply_command_spec(t2)->Ok_0,
        ),
{

}

/// A database is created owned by the task's owner when one is given, in
/// the one statement that creates it, and owned by the connecting user
/// otherwise; names go in as quoted identifiers.
pub proof fn postgres_create_db_sets_owner(t: &PostgresTask)
    requires
        t.action@ == "create_db"@,
    ensures
        t.owner@.len() > 0 ==> apply_command_spec(t) == Ok::<Seq<PieceView>, ErrorView>(
            psql(
                t,
                "CREATE DATABASE "@ + "\""@ + replaced(t.database@, '"', "\"\""@) + "\""@
                    + " OWNER "@ + "\""@ + replaced(t.owner@, '"', "\"\""@) + "\""@,
            ),
        ),
        t.owner@.len() == 0 ==> apply_command_spec(t) == Ok::<Seq<PieceView>, ErrorView>(
            psql(t, "CREATE DATABASE "@ + "\""@ + replaced(t.database@, '"', "\"\""@) + "\""@),
        ),
        apply_command_spec(t) is Ok,
        apply_command_spec(t)->Ok_0.last() == quote(
            "CREATE DATABASE "@ + sql_ident(t.database@) + (if t.owner@.len() > 0 {
                " OWNER "@ + sql_ident(t.owner@)
            } else {
                Seq::empty()
            }),
        ),
{
    reveal_strlit("create_db");
    reveal_strlit("migrate");
    reveal_strlit("backup");
    reveal_strlit("restore");
    reveal_strlit("user");
    assert("create_db"@.len() == 9);
    let d = "CREATE DATABASE "@ + sql_ident(t.database@);
    assert(d + Seq::<char>::empty() =~= d);
    assert(d + (" OWNER "@ + sql_ident(t.owner@)) =~= d + " OWNER "@ + sql_ident(t.owner@));
    assert("CREATE DATABASE "@ + "\""@ + replaced(t.database@, '"', "\"\""@) + "\""@ =~= d);
    assert("CREATE DATABASE "@ + "\""@ + replaced(t.database@, '"', "\"\""@) + "\""@ + " OWNER "@
        + "\""@ + replaced(t.owner@, '"', "\"\""@) + "\""@ =~= d + " OWNER "@ + sql_ident(t.owner@));
}

/// What each action runs: statements go through psql to the task's host,
/// port and user, with databases and roles as quoted identifiers and the
/// password as a quoted string; a role is a superuser exactly when asked;
/// the file actions hand the task's file to psql, pg_dump and pg_restore.
pub proof fn postgres_commands_carry_their_parameters(t: &PostgresTask)
    ensures
        t.action@ == "drop_db"@ ==> apply_command_spec(t) == Ok::<Seq<PieceView>, ErrorView>(
            seq![lit("psql -h "@), quote(t.host@), lit(" -p "@), quote(t.port@), lit(" -U "@), quote(t.pg_user@), lit(" -tAc "@), quote("DROP DATABASE IF EXISTS "@ + ("\""@ + replaced(t.database@, '"', "\"\""@) + "\""@))],
        ),
        t.action@ == "create_user"@ ==> apply_command_spec(t) == Ok::<Seq<PieceView>, ErrorView>(
            seq![lit("psql -h "@), quote(t.host@), lit(" -p "@), quote(t.port@), lit(" -U "@), quote(t.pg_user@), lit(" -tAc "@), quote("CREATE ROLE "@ + ("\""@ + replaced(t.username@, '"', "\"\""@) + "\""@) + " LOGIN"@
                + (if t.password@.len() > 0 { " PASSWORD "@ + ("'"@ + replaced(t.password@, '\'', "''"@) + "'"@) } else { Seq::empty() })
                + (if t.superuser { " SUPERUSER"@ } else { Seq::empty() }))],
        ),
        t.action@ == "user"@ ==> apply_command_spec(t) == Ok::<Seq<PieceView>, ErrorView>(
            seq![lit("psql -h "@), quote(t.host@), lit(" -p "@), quote(t.port@), lit(" -U "@), quote(t.pg_user@), lit(" -tAc "@), quote("CREATE ROLE "@ + ("\""@ + replaced(t.username@, '"', "\"\""@) + "\""@) + " LOGIN"@
                + (if t.password@.len() > 0 { " PASSWORD "@ + ("'"@ + replaced(t.password@, '\'', "''"@) + "'"@) } else { Seq::empty() })
                + (if t.superuser { " SUPERUSER"@ } else { Seq::empty() }))],
        ),
        t.action@ == "drop_user"@ ==> apply_command_spec(t) == Ok::<Seq<PieceView>, ErrorView>(
            seq![lit("psql -h "@), quote(t.host@), lit(" -p "@), quote(t.port@), lit(" -U "@), quote(t.pg_user@), lit(" -tAc "@), quote("DROP ROLE IF EXISTS "@ + ("\""@ + replaced(t.username@, '"', "\"\""@) + "\""@))],
        ),
        t.action@ == "grant"@ ==> apply_command_spec(t) == Ok::<Seq<PieceView>, ErrorView>(
            seq![lit("psql -h "@), quote(t.host@), lit(" -p "@), quote(t.port@), lit(" -U "@), quote(t.pg_user@), lit(" -tAc "@), quote("GRANT "@ + t.privileges@ + " ON DATABASE "@ + ("\""@ + replaced(t.database@, '"', "\"\""@) + "\""@) + " TO "@ + ("\""@ + replaced(t.username@, '"', "\"\""@) + "\""@))],
        ),
        t.action@ == "query"@ ==> apply_command_spec(t) == Ok::<Seq<PieceView>, ErrorView>(
            seq![lit("psql -h "@), quote(t.host@), lit(" -p "@), quote(t.port@), lit(" -U "@), quote(t.pg_user@), lit(" -tAc "@), quote(t.sql@)],
        ),
        t.action@ == "migrate"@ ==> apply_command_spec(t) == Ok::<Seq<PieceView>, ErrorView>(
            seq![lit("psql -h "@), quote(t.host@), lit(" -p "@), quote(t.port@), lit(" -U "@), quote(t.pg_user@)] + seq![lit(" -d "@), quote(t.database@), lit(" -f "@), quote(t.file@)],
        ),
        t.action@ == "backup"@ ==> apply_command_spec(t) == Ok::<Seq<PieceView>, ErrorView>(
            seq![lit("pg_dump -h "@), quote(t.host@), lit(" -p "@), quote(t.port@), lit(" -U "@), quote(t.pg_user@)] + seq![lit(" -Fc -f "@), quote(t.file@), lit(" "@), quote(t.database@)],
        ),
        t.action@ == "restore"@ ==> apply_command_spec(t) == Ok::<Seq<PieceView>, ErrorView>(
            seq![lit("pg_restore -h "@), quote(t.host@), lit(" -p "@), quote(t.port@), lit(" -U "@), quote(t.pg_user@)] + seq![lit(" -d "@), quote(t.database@), lit(" "@), quote(t.file@)],
        ),
{
    reveal_strlit("create_db");
    assert("create_db"@ =~= seq!['c', 'r', 'e', 'a', 't', 'e', '_', 'd', 'b']);
    reveal_strlit("drop_db");
    assert("drop_db"@ =~= seq!['d', 'r', 'o', 'p', '_', 'd', 'b']);
    reveal_strlit("create_user");
    assert("create_user"@ =~= seq!['c', 'r', 'e', 'a', 't', 'e', '_', 'u', 's', 'e', 'r']);
    reveal_strlit("drop_user");
    assert("drop_user"@ =~= seq!['d', 'r', 'o', 'p', '_', 'u', 's', 'e', 'r']);
    reveal_strlit("grant");
    assert("grant"@ =~= seq!['g', 'r', 'a', 'n', 't']);
    reveal_strlit("query");
    assert("query"@ =~= seq!['q', 'u', 'e', 'r', 'y']);
    reveal_strlit("migrate");
    assert("migrate"@ =~= seq!['m', 'i', 'g', 'r', 'a', 't', 'e']);
    reveal_strlit("backup");
    assert("backup"@ =~= seq!['b', 'a', 'c', 'k', 'u', 'p']);
    reveal_strlit("restore");
    assert("restore"@ =~= seq!['r', 'e', 's', 't', 'o', 'r', 'e']);
    reveal_strlit("user");
    assert("user"@ =~= seq!['u', 's', 'e', 'r']);
    reveal_strlit("psql");
    reveal_strlit("pg_dump");
    reveal_strlit("pg_restore");
    reveal_strlit(" -h ");
    reveal_strlit("psql -h ");
    reveal_strlit("pg_dump -h ");
    reveal_strlit("pg_restore -h ");
    assert(("psql"@ + " -h "@) =~= "psql -h "@);
    assert(("pg_dump"@ + " -h "@) =~= "pg_dump -h "@);
    assert(("pg_restore"@ + " -h "@) =~= "pg_restore -h "@);
}

/// What a plan asks the server and when it plans a change: a database or a
/// role is created only when the catalog lookup does not print 1 for it,
/// and dropped only when it does; a query changes nothing; grants and the
/// file actions always change.
pub proof fn postgres_plans_follow_the_server(t: &PostgresTask, r: &Reply)
    ensures
        t.action@ == "create_db"@ ==> plan_probe_spec(t) == Ok::<ProbeView, ErrorView>(ProbeView::Shell(seq![lit("psql -h "@), quote(t.host@), lit(" -p "@), quote(t.port@), lit(" -U "@), quote(t.pg_user@), lit(" -tAc "@), quote("SELECT 1 FROM pg_database WHERE datname="@ + ("'"@ + replaced(t.database@, '\'', "''"@) + "'"@))])),
        t.action@ == "create_db"@ && !(r is Failed) ==> plan_spec(t, r) is Ok && plan_spec(t, r)->Ok_0.changed == (!(r matches Reply::Output(o) && o.success && trimmed(o.stdout@) == "1"@)),
        t.action@ == "drop_db"@ ==> plan_probe_spec(t) == Ok::<ProbeView, ErrorView>(ProbeView::Shell(seq![lit("psql -h "@), quote(t.host@), lit(" -p "@), quote(t.port@), lit(" -U "@), quote(t.pg_user@), lit(" -tAc "@), quote("SELECT 1 FROM pg_database WHERE datname="@ + ("'"@ + replaced(t.database@, '\'', "''"@) + "'"@))])),
        t.action@ == "drop_db"@ && !(r is Failed) ==> plan_spec(t, r) is Ok && plan_spec(t, r)->Ok_0.changed == ((r matches Reply::Output(o) && o.success && trimmed(o.stdout@) == "1"@)),
        t.action@ == "create_user"@ ==> plan_probe_spec(t) == Ok::<ProbeView, ErrorView>(ProbeView::Shell(seq![lit("psql -h "@), quote(t.host@), lit(" -p "@), quote(t.port@), lit(" -U "@), quote(t.pg_user@), lit(" -tAc "@), quote("SELECT 1 FROM pg_roles WHERE rolname="@ + ("'"@ + replaced(t.username@, '\'', "''"@) + "'"@))])),
        t.action@ == "create_user"@ && !(r is Failed) ==> plan_spec(t, r) is Ok && plan_spec(t, r)->Ok_0.changed == (!(r matches Reply::Output(o) && o.success && trimmed(o.stdout@) == "1"@)),
        t.action@ == "user"@ ==> plan_probe_spec(t) == Ok::<ProbeView, ErrorView>(ProbeView::Shell(seq![lit("psql -h "@), quote(t.host@), lit(" -p "@), quote(t.port@), lit(" -U "@), quote(t.pg_user@), lit(" -tAc "@), quote("SELECT 1 FROM pg_roles WHERE rolname="@ + ("'"@ + replaced(t.username@, '\'', "''"@) + "'"@))])),
        t.action@ == "user"@ && !(r is Failed) ==> plan_spec(t, r) is Ok && plan_spec(t, r)->Ok_0.changed == (!(r matches Reply::Output(o) && o.success && trimmed(o.stdout@) == "1"@)),
        t.action@ == "drop_user"@ ==> plan_probe_spec(t) == Ok::<ProbeView, ErrorView>(ProbeView::Shell(seq![lit("psql -h "@), quote(t.host@), lit(" -p "@), quote(t.port@), lit(" -U "@), quote(t.pg_user@), lit(" -tAc "@), quote("SELECT 1 FROM pg_roles WHERE rolname="@ + ("'"@ + replaced(t.username@, '\'', "''"@) + "'"@))])),
        t.action@ == "drop_user"@ && !(r is Failed) ==> plan_spec(t, r) is Ok && plan_spec(t, r)->Ok_0.changed == ((r matches Reply::Output(o) && o.success && trimmed(o.stdout@) == "1"@)),
        t.action@ == "grant"@ ==> plan_probe_spec(t) == Ok::<ProbeView, ErrorView>(ProbeView::Nothing),
        t.action@ == "grant"@ && !(r is Failed) ==> plan_spec(t, r) is Ok && plan_spec(t, r)->Ok_0.changed == (true),
        t.action@ == "query"@ ==> plan_probe_spec(t) == Ok::<ProbeView, ErrorView>(ProbeView::Nothing),
        t.action@ == "query"@ && !(r is Failed) ==> plan_spec(t, r) is Ok && plan_spec(t, r)->Ok_0.changed == (false),
        t.action@ == "migrate"@ ==> plan_probe_spec(t) == Ok::<ProbeView, ErrorView>(ProbeView::Nothing),
        t.action@ == "migrate"@ && !(r is Failed) ==> plan_spec(t, r) is Ok && plan_spec(t, r)->Ok_0.changed == (true),
        t.action@ == "backup"@ ==> plan_probe_spec(t) == Ok::<ProbeView, ErrorView>(ProbeView::Nothing),
        t.action@ == "backup"@ && !(r is Failed) ==> plan_spec(t, r) is Ok && plan_spec(t, r)->Ok_0.changed == (true),
        t.action@ == "restore"@ ==> plan_probe_spec(t) == Ok::<ProbeView, ErrorView>(ProbeView::Nothing),
        t.action@ == "restore"@ && !(r is Failed) ==> plan_spec(t, r) is Ok && plan_spec(t, r)->Ok_0.changed == (true),
{
    reveal_strlit("create_db");
    assert("create_db"@ =~= seq!['c', 'r', 'e', 'a', 't', 'e', '_', 'd', 'b']);
    reveal_strlit("drop_db");
    assert("drop_db"@ =~= seq!['d', 'r', 'o', 'p', '_', 'd', 'b']);
    reveal_strlit("create_user");
    assert("create_user"@ =~= seq!['c', 'r', 'e', 'a', 't', 'e', '_', 'u', 's', 'e', 'r']);
    reveal_strlit("drop_user");
    assert("drop_user"@ =~= seq!['d', 'r', 'o', 'p', '_', 'u', 's', 'e', 'r']);
    reveal_strlit("grant");
    assert("grant"@ =~= seq!['g', 'r', 'a', 'n', 't']);
    reveal_strlit("query");
    assert("query"@ =~= seq!['q', 'u', 'e', 'r', 'y']);
    reveal_strlit("migrate");
    assert("migrate"@ =~= seq!['m', 'i', 'g', 'r', 'a', 't', 'e']);
    reveal_strlit("backup");
    assert("backup"@ =~= seq!['b', 'a', 'c', 'k', 'u', 'p']);
    reveal_strlit("restore");
    assert("restore"@ =~= seq!['r', 'e', 's', 't', 'o', 'r', 'e']);
    reveal_strlit("user");
    assert("user"@ =~= seq!['u', 's', 'e', 'r']);
}

/// What a report says: it succeeds exactly when psql did and marks a
/// change exactly when an action other than query succeeded; a query hands
/// back its trimmed output, the other actions say `ok`, and a failure says
/// `failed:` with the trimmed error.
pub proof fn postgres_reports_what_the_command_did(t: &PostgresTask, out: &ExecOutput)
    ensures
        report_spec(t, out) == (ReportView {
            module: "postgres"@,
            action: t.action@,
            success: out.success,
            changed: out.success && t.action@ != "query"@,
            message: if !out.success {
                "postgres"@ + " "@ + t.action@ + " — failed: "@ + trimmed(out.stderr@)
            } else if t.action@ == "query"@ {
                trimmed(out.stdout@)
            } else {
                "postgres"@ + " "@ + t.action@ + " — ok"@
            },
        }),
{
}

} // verus!
