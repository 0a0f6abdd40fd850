use sutra_community::command::{Command, Piece};
use sutra_community::modules::acme::{AcmeModule, AcmeTask};
use sutra_community::modules::aegis::{AegisModule, AegisTask};
use sutra_community::modules::cron::{CronModule, CronTask};
use sutra_community::modules::daimon::{DaimonModule, DaimonTask};
use sutra_community::modules::docker::{DockerModule, DockerTask};
use sutra_community::modules::edge::{EdgeModule, EdgeTask};
use sutra_community::modules::k8s::{K8sModule, K8sTask};
use sutra_community::modules::mount::{MountModule, MountTask};
use sutra_community::modules::nftables::{NftablesModule, NftablesTask};
use sutra_community::modules::nginx::{NginxModule, NginxTask};
use sutra_community::modules::podman::{PodmanModule, PodmanTask};
use sutra_community::modules::postgres::{PostgresModule, PostgresTask};
use sutra_community::modules::redis::{RedisModule, RedisTask};
use sutra_community::modules::restic::{ResticModule, ResticTask};
use sutra_community::modules::stiva::{StivaModule, StivaTask};
use sutra_community::modules::sysctl::{SysctlModule, SysctlTask};
use sutra_community::modules::wireguard::{WireguardModule, WireguardTask};
use sutra_community::task::{ExecOutput, ModuleError, Probe, Reply};

/// The command as text, with each quoted value between `<` and `>`.
fn show(c: &Command) -> String {
    c.pieces
        .iter()
        .map(|p| match p {
            Piece::Lit(s) => s.clone(),
            Piece::Quote(s) => format!("<{}>", s),
        })
        .collect()
}

fn shell(p: &Probe) -> String {
    match p {
        Probe::Shell(c) => show(c),
        Probe::FileExists(f) => format!("exists? {}", f),
        Probe::Nothing => "nothing".to_string(),
    }
}

fn ok(stdout: &str) -> ExecOutput {
    ExecOutput { success: true, stdout: stdout.to_string(), stderr: String::new() }
}

fn failed(stderr: &str) -> ExecOutput {
    ExecOutput { success: false, stdout: String::new(), stderr: stderr.to_string() }
}

fn says(stdout: &str) -> Reply {
    Reply::Output(ok(stdout))
}

fn says_no() -> Reply {
    Reply::Output(failed(""))
}

fn message(e: &ModuleError) -> String {
    e.message().expect("a worded refusal")
}

fn docker(action: &str) -> DockerTask {
    DockerTask {
        action: action.to_string(),
        image: "nginx:1.25".to_string(),
        container_name: String::new(),
        ports: String::new(),
        detach: true,
        restart: String::new(),
        env: String::new(),
        force: false,
        file: "docker-compose.yml".to_string(),
        volumes: false,
        context: ".".to_string(),
    }
}

fn aegis(action: &str) -> AegisTask {
    AegisTask {
        action: action.to_string(),
        policy: "default".to_string(),
        profile: "standard".to_string(),
        level: "standard".to_string(),
        target: String::new(),
    }
}

fn edge(action: &str) -> EdgeTask {
    EdgeTask {
        action: action.to_string(),
        profile: "default".to_string(),
        channel: "stable".to_string(),
        key: String::new(),
        value: String::new(),
        remove: false,
    }
}

#[test]
fn test_aegis_plan_audit() {
    let t = aegis("audit");
    let probe = AegisModule.plan_probe(&t).unwrap();
    assert!(matches!(probe, Probe::Nothing));
    let plan = AegisModule.plan(&t, &Reply::NotRun).unwrap();
    assert!(!plan.changed);
    assert_eq!(plan.description, "run aegis security audit");
}

#[test]
fn test_edge_plan_reboot() {
    let t = edge("reboot");
    let plan = EdgeModule.plan(&t, &Reply::NotRun).unwrap();
    assert!(plan.changed);
    assert_eq!(plan.module, "edge");
    assert_eq!(plan.action, "reboot");
}

#[test]
fn unknown_actions_are_refused_with_the_module_name() {
    let t = docker("explode");
    let e = DockerModule.apply_command(&t).err().unwrap();
    assert_eq!(message(&e), "unknown docker action: explode");
    let e = DockerModule.plan_probe(&t).err().unwrap();
    assert_eq!(message(&e), "unknown docker action: explode");
    assert!(!DockerModule.check(&t, &Reply::NotRun).unwrap());
}

#[test]
fn docker_run_command_carries_the_set_flags() {
    let mut t = docker("run");
    t.container_name = "web".to_string();
    t.ports = "8080:80".to_string();
    t.restart = "always".to_string();
    t.env = "A=1".to_string();
    let c = DockerModule.apply_command(&t).unwrap();
    assert_eq!(show(&c), "docker run -d --name <web> -p <8080:80> --restart <always> -e <A=1> <nginx:1.25>");
    t.detach = false;
    t.container_name.clear();
    t.ports.clear();
    t.restart.clear();
    t.env.clear();
    let c = DockerModule.apply_command(&t).unwrap();
    assert_eq!(show(&c), "docker run <nginx:1.25>");
}

/// The command with each quoted value blanked out.
fn literal_text(c: &Command) -> String {
    c.pieces
        .iter()
        .map(|p| match p {
            Piece::Lit(s) => s.clone(),
            Piece::Quote(_) => "<>".to_string(),
        })
        .collect()
}

#[test]
fn values_change_only_the_quoted_pieces() {
    let mut t1 = docker("run");
    t1.container_name = "web".to_string();
    t1.env = "A=1".to_string();
    let mut t2 = docker("run");
    t2.image = "x; rm -rf /".to_string();
    t2.container_name = "$(reboot)".to_string();
    t2.env = "B=2 C=3".to_string();
    let c1 = DockerModule.apply_command(&t1).unwrap();
    let c2 = DockerModule.apply_command(&t2).unwrap();
    assert_eq!(literal_text(&c1), literal_text(&c2));
    assert_eq!(literal_text(&c1), "docker run -d --name <> -e <> <>");
    assert_ne!(show(&c1), show(&c2));
}

#[test]
fn docker_plan_follows_the_probe() {
    let mut t = docker("run");
    t.container_name = "web".to_string();
    assert_eq!(
        shell(&DockerModule.plan_probe(&t).unwrap()),
        "docker inspect -f '{{.State.Running}}' <web> 2>/dev/null"
    );
    let running = DockerModule.plan(&t, &says("true\n")).unwrap();
    assert!(!running.changed);
    assert_eq!(running.description, "container web already running");
    let stopped = DockerModule.plan(&t, &says("false")).unwrap();
    assert!(stopped.changed);
    assert_eq!(stopped.description, "run container web from nginx:1.25");
    assert!(matches!(DockerModule.plan(&t, &Reply::Failed), Err(ModuleError::ProbeFailed)));
}

#[test]
fn check_agrees_with_plan_on_examples() {
    let t = docker("pull");
    for reply in [says(""), says_no()] {
        let plan = DockerModule.plan(&t, &reply).unwrap();
        assert_eq!(DockerModule.check(&t, &reply).unwrap(), !plan.changed);
    }
    let t = aegis("apply_policy");
    for reply in [says("default\n"), says("strict"), says_no()] {
        let plan = AegisModule.plan(&t, &reply).unwrap();
        assert_eq!(AegisModule.check(&t, &reply).unwrap(), !plan.changed);
    }
}

#[test]
fn reports_mark_changes_only_on_success() {
    let t = docker("stop");
    let r = DockerModule.apply_report(&t, &failed("  no such container\n"));
    assert!(!r.success && !r.changed);
    assert_eq!(r.message, "docker stop — failed: no such container");
    let r = DockerModule.apply_report(&t, &ok(""));
    assert!(r.success && r.changed);
    assert_eq!(r.message, "docker stop — ok");
}

#[test]
fn docker_compose_and_rm_commands() {
    let mut t = docker("compose_down");
    t.volumes = true;
    assert_eq!(show(&DockerModule.apply_command(&t).unwrap()), "docker compose -f <docker-compose.yml> down -v");
    let mut t = docker("compose_up");
    t.detach = false;
    assert_eq!(show(&DockerModule.apply_command(&t).unwrap()), "docker compose -f <docker-compose.yml> up");
    let mut t = docker("rm");
    t.container_name = "web".to_string();
    t.force = true;
    assert_eq!(show(&DockerModule.apply_command(&t).unwrap()), "docker rm -f <web>");
}

#[test]
fn podman_pod_and_unit_commands() {
    let mut t = PodmanTask {
        action: "pod_create".to_string(),
        image: String::new(),
        container_name: "app".to_string(),
        ports: "80:80".to_string(),
        detach: true,
        restart: String::new(),
        pod: String::new(),
        force: false,
        pod_name: "stack".to_string(),
        new_unit: true,
        context: ".".to_string(),
    };
    assert_eq!(show(&PodmanModule.apply_command(&t).unwrap()), "podman pod create --name <stack> -p <80:80>");
    assert_eq!(shell(&PodmanModule.plan_probe(&t).unwrap()), "podman pod exists <stack> 2>/dev/null");
    assert!(!PodmanModule.plan(&t, &says("")).unwrap().changed);
    t.action = "generate_systemd".to_string();
    assert_eq!(show(&PodmanModule.apply_command(&t).unwrap()), "podman generate systemd --new --name <app>");
    let r = PodmanModule.apply_report(&t, &ok("[Unit]\n"));
    assert_eq!(r.message, "[Unit]\n");
}

#[test]
fn stiva_uses_its_own_runtime() {
    let t = StivaTask {
        action: "compose_down".to_string(),
        image: String::new(),
        container_name: String::new(),
        ports: String::new(),
        env: String::new(),
        restart: String::new(),
        force: false,
        file: "stiva-compose.toml".to_string(),
        volumes: true,
    };
    assert_eq!(show(&StivaModule.apply_command(&t).unwrap()), "stiva compose down -f <stiva-compose.toml> --volumes");
    assert_eq!(StivaModule.actions(), &DockerModule.actions()[..6]);
}

fn k8s(action: &str) -> K8sTask {
    K8sTask {
        action: action.to_string(),
        context: String::new(),
        namespace: "prod".to_string(),
        kubeconfig: String::new(),
        manifest: String::new(),
        kind: String::new(),
        workload_kind: "deployment".to_string(),
        resource_name: "api".to_string(),
        sub_action: "status".to_string(),
        replicas: 3,
        condition: "Ready".to_string(),
        timeout: 300,
        pod: "api-0".to_string(),
        container: String::new(),
        cmd: "ls -l".to_string(),
    }
}

#[test]
fn k8s_commands_and_plans() {
    let t = k8s("scale");
    assert_eq!(show(&K8sModule.apply_command(&t).unwrap()), "kubectl -n <prod> scale <deployment>/<api> --replicas=3");
    assert_eq!(K8sModule.plan(&t, &Reply::NotRun).unwrap().description, "scale deployment/api to 3 replicas");
    let t = k8s("wait");
    assert_eq!(
        show(&K8sModule.apply_command(&t).unwrap()),
        "kubectl -n <prod> wait <>/<api> --for=condition=<Ready> --timeout=300s"
    );
    assert!(!K8sModule.plan(&t, &Reply::NotRun).unwrap().changed);
    let t = k8s("exec");
    assert_eq!(show(&K8sModule.apply_command(&t).unwrap()), "kubectl -n <prod> exec <api-0> -- ls -l");
    let t = k8s("apply");
    assert_eq!(message(&K8sModule.apply_command(&t).err().unwrap()), "k8s.apply requires 'manifest' parameter");
    let t = k8s("rollout");
    assert!(!K8sModule.plan(&t, &Reply::NotRun).unwrap().changed);
    let r = K8sModule.apply_report(&t, &ok("  rolled out \n"));
    assert!(r.success && !r.changed);
    assert_eq!(r.message, "rolled out");
}

#[test]
fn k8s_delete_counts_a_failed_probe_as_absent() {
    let mut t = k8s("delete");
    t.kind = "pod".to_string();
    let plan = K8sModule.plan(&t, &Reply::Failed).unwrap();
    assert!(!plan.changed);
    assert_eq!(plan.description, "pod api does not exist");
    assert!(matches!(K8sModule.check(&t, &Reply::Failed), Err(ModuleError::ProbeFailed)));
}

fn postgres(action: &str) -> PostgresTask {
    PostgresTask {
        action: action.to_string(),
        host: "localhost".to_string(),
        port: "5432".to_string(),
        pg_user: "postgres".to_string(),
        database: "app\"db".to_string(),
        username: "o'brien".to_string(),
        privileges: "ALL".to_string(),
        sql: "SELECT 1".to_string(),
        owner: String::new(),
        password: "pa'ss".to_string(),
        superuser: true,
        file: String::new(),
    }
}

#[test]
fn postgres_quotes_identifiers_and_strings() {
    let t = postgres("create_user");
    assert_eq!(
        show(&PostgresModule.apply_command(&t).unwrap()),
        "psql -h <localhost> -p <5432> -U <postgres> -tAc <CREATE ROLE \"o'brien\" LOGIN PASSWORD 'pa''ss' SUPERUSER>"
    );
    let t = postgres("drop_db");
    assert_eq!(
        show(&PostgresModule.apply_command(&t).unwrap()),
        "psql -h <localhost> -p <5432> -U <postgres> -tAc <DROP DATABASE IF EXISTS \"app\"\"db\">"
    );
    let t = postgres("create_user");
    assert_eq!(
        shell(&PostgresModule.plan_probe(&t).unwrap()),
        "psql -h <localhost> -p <5432> -U <postgres> -tAc <SELECT 1 FROM pg_roles WHERE rolname='o''brien'>"
    );
    assert!(!PostgresModule.plan(&t, &says("1\n")).unwrap().changed);
    assert!(PostgresModule.plan(&t, &Reply::Failed).unwrap().changed);
}

#[test]
fn postgres_query_plan_shows_at_most_sixty_bytes() {
    let mut t = postgres("query");
    t.sql = "y".repeat(80);
    let plan = PostgresModule.plan(&t, &Reply::NotRun).unwrap();
    assert_eq!(plan.description, format!("query: {}", "y".repeat(60)));
    assert!(!plan.changed);
    let r = PostgresModule.apply_report(&t, &ok(" 42 \n"));
    assert_eq!(r.message, "42");
    assert!(!r.changed);
}

fn redis(action: &str) -> RedisTask {
    RedisTask {
        action: action.to_string(),
        host: "localhost".to_string(),
        port: 6379,
        db: 0,
        password: "secret".to_string(),
        key: "k".to_string(),
        value: "v".to_string(),
    }
}

#[test]
fn redis_commands_plans_and_reports() {
    let t = redis("set");
    assert_eq!(show(&RedisModule.apply_command(&t).unwrap()), "redis-cli -h <localhost> -p 6379 -n 0 -a <secret> SET <k> <v>");
    assert!(!RedisModule.plan(&t, &says("v\n")).unwrap().changed);
    assert!(RedisModule.plan(&t, &says("(nil)")).unwrap().changed);
    let mut empty = redis("del");
    empty.key.clear();
    assert_eq!(message(&RedisModule.apply_command(&empty).err().unwrap()), "redis.del requires 'key' parameter");
    let t = redis("ping");
    assert!(RedisModule.check(&t, &says("PONG\n")).unwrap());
    let r = RedisModule.apply_report(&t, &ok("PONG\n"));
    assert_eq!(r.message, "redis ping — PONG");
    assert!(!r.changed);
}

#[test]
fn restic_backs_up_each_path_quoted() {
    let t = ResticTask {
        action: "backup".to_string(),
        repo: "/srv/backup".to_string(),
        password_file: String::new(),
        paths: " /etc  /home\n".to_string(),
        keep_daily: 7,
        keep_weekly: 4,
        keep_monthly: 12,
        target: String::new(),
    };
    assert_eq!(show(&ResticModule.apply_command(&t).unwrap()), "RESTIC_REPOSITORY=</srv/backup> restic backup </etc> </home>");
    let mut f = ResticTask { action: "forget".to_string(), ..t };
    assert_eq!(
        show(&ResticModule.apply_command(&f).unwrap()),
        "RESTIC_REPOSITORY=</srv/backup> restic forget --prune --keep-daily 7 --keep-weekly 4 --keep-monthly 12"
    );
    assert_eq!(ResticModule.plan(&f, &Reply::NotRun).unwrap().description, "prune snapshots (daily:7, weekly:4, monthly:12)");
    f.action = "backup".to_string();
    f.paths.clear();
    assert_eq!(message(&ResticModule.apply_command(&f).err().unwrap()), "restic.backup requires 'paths' parameter");
}

#[test]
fn sysctl_persists_a_set_key() {
    let t = SysctlTask {
        action: "set".to_string(),
        key: "net.ipv4.ip_forward".to_string(),
        value: "1".to_string(),
        persist: "true".to_string(),
        src: String::new(),
    };
    assert_eq!(show(&SysctlModule.apply_command(&t).unwrap()), "sysctl -w net.ipv4.ip_forward=1");
    let w = SysctlModule.apply_followup(&t, &ok("")).unwrap();
    assert_eq!(w.path, "/etc/sysctl.d/99-sutra-net-ipv4-ip_forward.conf");
    assert_eq!(w.content, "net.ipv4.ip_forward=1\n");
    assert_eq!(w.mode, 0o644);
    assert!(SysctlModule.apply_followup(&t, &failed("denied")).is_none());
    let r = SysctlModule.apply_report(&t, &failed(" denied\n"));
    assert_eq!(r.message, "sysctl set failed: denied");
    assert!(!r.changed);
    let plan = SysctlModule.plan(&t, &says("0\n")).unwrap();
    assert_eq!(plan.description, "net.ipv4.ip_forward: 0 -> 1");
    let plan = SysctlModule.plan(&t, &says("1")).unwrap();
    assert_eq!(plan.description, "net.ipv4.ip_forward = 1 (already set)");
    let nothing = SysctlTask { persist: "false".to_string(), ..t };
    assert!(SysctlModule.apply_followup(&nothing, &ok("")).is_none());
}

#[test]
fn cron_present_replaces_the_marked_line() {
    let t = CronTask {
        action: "present".to_string(),
        name: "backup".to_string(),
        user: "root".to_string(),
        schedule: "0 3 * * *".to_string(),
        cmd: "/usr/bin/backup".to_string(),
    };
    assert_eq!(
        show(&CronModule.apply_command(&t).unwrap()),
        "(crontab -l -u <root> 2>/dev/null | grep -vF <# sutra:backup>; echo <0 3 * * * /usr/bin/backup # sutra:backup>) | crontab -u <root> -"
    );
    assert_eq!(CronModule.plan(&t, &says_no()).unwrap().description, "add cron job 'backup' (0 3 * * *)");
    let bad = CronTask { cmd: String::new(), ..t };
    assert_eq!(
        message(&CronModule.apply_command(&bad).err().unwrap()),
        "cron.present requires 'schedule' and 'cmd' parameters"
    );
}

#[test]
fn acme_obtain_picks_the_challenge() {
    let mut t = AcmeTask {
        action: "obtain".to_string(),
        domain: "example.org".to_string(),
        email: String::new(),
        method: "webroot".to_string(),
        webroot: "/var/www/html".to_string(),
    };
    assert_eq!(
        show(&AcmeModule.apply_command(&t).unwrap()),
        "certbot certonly --non-interactive --agree-tos --register-unsafely-without-email --webroot -w </var/www/html> -d <example.org>"
    );
    t.email = "ops@example.org".to_string();
    t.method = "standalone".to_string();
    assert_eq!(
        show(&AcmeModule.apply_command(&t).unwrap()),
        "certbot certonly --non-interactive --agree-tos --email <ops@example.org> --standalone -d <example.org>"
    );
    t.action = "revoke".to_string();
    assert_eq!(shell(&AcmeModule.plan_probe(&t).unwrap()), "test -f </etc/letsencrypt/live/example.org/fullchain.pem>");
    t.domain.clear();
    assert_eq!(message(&AcmeModule.plan_probe(&t).err().unwrap()), "acme.revoke requires 'domain' parameter");
}

#[test]
fn aegis_reports_output_or_failure() {
    let t = aegis("harden");
    let r = AegisModule.apply_report(&t, &ok("  level applied \n"));
    assert_eq!(r.message, "level applied");
    let r = AegisModule.apply_report(&t, &failed("boom"));
    assert_eq!(r.message, "aegis harden failed: boom");
    let r = AegisModule.apply_report(&aegis("audit"), &ok(""));
    assert_eq!(r.message, "aegis audit — ok");
    assert!(!r.changed);
}

#[test]
fn daimon_report_escapes_the_status() {
    let t = DaimonTask {
        action: "report".to_string(),
        endpoint: "http://localhost:8090".to_string(),
        status: "say \"hi\"".to_string(),
        config: String::new(),
    };
    assert_eq!(
        show(&DaimonModule.apply_command(&t).unwrap()),
        "curl -sf -X POST <http://localhost:8090>/v1/reports -H 'Content-Type: application/json' -d '{\"status\":<\"say \\\"hi\\\"\">}'"
    );
    let r = DaimonTask { action: "register".to_string(), ..t };
    assert!(DaimonModule.plan(&r, &Reply::Failed).unwrap().changed);
}

#[test]
fn edge_label_probe_and_commands() {
    let mut t = edge("label");
    t.key = "zone".to_string();
    t.value = "eu".to_string();
    assert_eq!(show(&EdgeModule.apply_command(&t).unwrap()), "agnos-edge label set <zone>=<eu>");
    t.remove = true;
    assert_eq!(shell(&EdgeModule.plan_probe(&t).unwrap()), "agnos-edge label get <zone> 2>/dev/null");
    assert!(!EdgeModule.plan(&t, &says("  \n")).unwrap().changed);
    assert!(EdgeModule.plan(&t, &says("eu")).unwrap().changed);
    let p = edge("provision");
    assert_eq!(shell(&EdgeModule.plan_probe(&p).unwrap()), "exists? /etc/agnos/edge.conf");
    assert!(!EdgeModule.plan(&p, &Reply::Exists(true)).unwrap().changed);
}

#[test]
fn mount_commands_and_messages() {
    let t = MountTask {
        action: "fstab".to_string(),
        path: "/data".to_string(),
        src: "/dev/sdb1".to_string(),
        fstype: "ext4".to_string(),
        opts: "defaults".to_string(),
        dump: "0".to_string(),
        pass: "2".to_string(),
    };
    assert_eq!(show(&MountModule.apply_command(&t).unwrap()), "echo </dev/sdb1 /data ext4 defaults 0 2> >> /etc/fstab");
    assert_eq!(MountModule.apply_report(&t, &ok("")).message, "added fstab entry for /data");
    let m = MountTask { action: "mounted".to_string(), ..t };
    assert_eq!(
        show(&MountModule.apply_command(&m).unwrap()),
        "mkdir -p </data> && mount -t <ext4> -o <defaults> </dev/sdb1> </data>"
    );
    assert_eq!(MountModule.apply_report(&m, &failed("busy\n")).message, "mount failed: busy");
}

#[test]
fn nftables_never_claims_rules_applied() {
    let t = NftablesTask {
        action: "add_rule".to_string(),
        src: String::new(),
        table: "filter".to_string(),
        flush_table: String::new(),
        chain: "input".to_string(),
        rule: "tcp dport 22 accept".to_string(),
        handle: String::new(),
    };
    assert_eq!(show(&NftablesModule.apply_command(&t).unwrap()), "nft add rule filter input tcp dport 22 accept");
    assert!(!NftablesModule.check(&t, &Reply::NotRun).unwrap());
    let flush = NftablesTask { action: "flush".to_string(), ..t };
    assert_eq!(show(&NftablesModule.apply_command(&flush).unwrap()), "nft flush ruleset");
    let list = NftablesTask { action: "list".to_string(), ..flush };
    let r = NftablesModule.apply_report(&list, &ok("table inet filter {}\n"));
    assert_eq!(r.message, "table inet filter {}\n");
    assert!(!r.changed);
    let apply = NftablesTask { action: "apply_ruleset".to_string(), ..list };
    assert_eq!(
        message(&NftablesModule.apply_command(&apply).err().unwrap()),
        "nftables.apply_ruleset requires 'src' parameter"
    );
}

#[test]
fn nginx_site_commands() {
    let t = NginxTask { action: "site_enable".to_string(), site: "blog".to_string() };
    assert_eq!(
        show(&NginxModule.apply_command(&t).unwrap()),
        "ln -sf /etc/nginx/sites-available/<blog> /etc/nginx/sites-enabled/<blog> && nginx -s reload"
    );
    let empty = NginxTask { action: "site_disable".to_string(), site: String::new() };
    assert_eq!(
        message(&NginxModule.plan(&empty, &Reply::NotRun).err().unwrap()),
        "nginx.site_disable requires 'site' parameter"
    );
}

#[test]
fn wireguard_sync_compares_trimmed_config() {
    let t = WireguardTask {
        action: "sync_config".to_string(),
        interface: "wg0".to_string(),
        config: "[Interface]\nAddress = 10.0.0.1/24\n".to_string(),
        peer: String::new(),
        allowed_ips: String::new(),
    };
    assert_eq!(shell(&WireguardModule.plan_probe(&t).unwrap()), "cat </etc/wireguard/wg0.conf> 2>/dev/null");
    assert!(WireguardModule.check(&t, &says("[Interface]\nAddress = 10.0.0.1/24")).unwrap());
    assert!(WireguardModule.plan(&t, &says("[Interface]")).unwrap().changed);
    assert_eq!(
        show(&WireguardModule.apply_command(&t).unwrap()),
        "printf %s <[Interface]\nAddress = 10.0.0.1/24\n> > </etc/wireguard/wg0.conf> && chmod 600 </etc/wireguard/wg0.conf>"
    );
}
