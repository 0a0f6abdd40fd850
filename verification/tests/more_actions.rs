use sutra_community::command::{Command, Piece};
use sutra_community::modules::acme::{AcmeModule, AcmeTask};
use sutra_community::modules::aegis::{AegisModule, AegisTask};
use sutra_community::modules::cron::{CronModule, CronTask};
use sutra_community::modules::daimon::{DaimonModule, DaimonTask};
use sutra_community::modules::docker::{DockerModule, DockerTask};
use sutra_community::modules::edge::{EdgeModule, EdgeTask};
use sutra_community::modules::k8s::{K8sModule, K8sTask};
use sutra_community::modules::mount::{MountModule, MountTask};
use sutra_community::modules::nftables::NftablesTask;
use sutra_community::modules::nginx::{NginxModule, NginxTask};
use sutra_community::modules::podman::{PodmanModule, PodmanTask};
use sutra_community::modules::postgres::{PostgresModule, PostgresTask};
use sutra_community::modules::redis::{RedisModule, RedisTask};
use sutra_community::modules::restic::{ResticModule, ResticTask};
use sutra_community::modules::stiva::StivaTask;
use sutra_community::modules::sysctl::{SysctlModule, SysctlTask};
use sutra_community::modules::wireguard::{WireguardModule, WireguardTask};
use sutra_community::task::{ExecOutput, Probe, Reply};

fn show(c: &Command) -> String {
    c.pieces
        .iter()
        .map(|p| match p {
            Piece::Lit(s) => s.clone(),
            Piece::Quote(s) => format!("<{}>", s),
        })
        .collect()
}

fn ok(stdout: &str) -> ExecOutput {
    ExecOutput { success: true, stdout: stdout.to_string(), stderr: String::new() }
}

fn lists(actions: &[&str], wanted: &[&str]) -> bool {
    wanted.iter().all(|a| actions.contains(a))
}

#[test]
fn modules_list_their_further_actions() {
    assert!(lists(AcmeModule.actions(), &["obtain", "renew", "revoke", "issue", "status"]));
    assert!(lists(AegisModule.actions(), &["apply_policy", "harden", "enable", "disable", "status", "scan", "quarantine"]));
    assert!(lists(CronModule.actions(), &["present", "absent", "add", "remove", "list", "enable", "disable"]));
    assert!(lists(DaimonModule.actions(), &["report", "register", "deregister", "heartbeat", "status", "restart", "config"]));
    assert!(lists(DockerModule.actions(), &["pull", "run", "stop", "rm", "compose_up", "compose_down", "build", "ps"]));
    assert!(lists(EdgeModule.actions(), &["provision", "update", "reboot", "drain", "label", "decommission", "heartbeat"]));
    assert!(lists(K8sModule.actions(), &["apply", "delete", "rollout", "scale", "wait", "exec", "get"]));
    assert!(lists(MountModule.actions(), &["mounted", "unmounted", "fstab", "mount", "unmount", "list"]));
    assert!(lists(NginxModule.actions(), &["site_enable", "config_test", "config", "enable_site", "disable_site", "certbot"]));
    assert!(lists(PodmanModule.actions(), &["pull", "run", "pod_create", "generate_systemd", "build", "ps"]));
    assert!(lists(PostgresModule.actions(), &["create_db", "grant", "query", "migrate", "backup", "restore", "user"]));
    assert!(lists(RedisModule.actions(), &["set", "get", "del", "flush", "ping", "config", "backup", "info"]));
    assert!(lists(ResticModule.actions(), &["init", "backup", "forget", "check", "snapshots", "restore"]));
    assert!(lists(SysctlModule.actions(), &["set", "get", "apply", "load", "persist"]));
    assert!(lists(WireguardModule.actions(), &["up", "down", "sync_config", "setup", "add_peer", "remove_peer", "status"]));
}

#[test]
fn aliases_act_as_the_actions_they_rename() {
    let mut a = MountTask::defaults("mount");
    a.path = "/mnt/data".to_string();
    a.src = "/dev/sdb1".to_string();
    let mut b = MountTask::defaults("mounted");
    b.path = "/mnt/data".to_string();
    b.src = "/dev/sdb1".to_string();
    assert_eq!(show(&MountModule.apply_command(&a).unwrap()), show(&MountModule.apply_command(&b).unwrap()));
    let p = MountModule.plan(&a, &Reply::Output(ok(""))).unwrap();
    assert_eq!(p.action, "mount");
    assert_eq!(p.description, "/mnt/data already mounted");

    let mut issue = AcmeTask::defaults("issue");
    issue.domain = "example.org".to_string();
    let mut obtain = AcmeTask::defaults("obtain");
    obtain.domain = "example.org".to_string();
    assert_eq!(show(&AcmeModule.apply_command(&issue).unwrap()), show(&AcmeModule.apply_command(&obtain).unwrap()));

    let mut add = CronTask::defaults("add");
    add.name = "backup".to_string();
    add.schedule = "0 3 * * *".to_string();
    add.cmd = "/usr/local/bin/backup".to_string();
    let present = CronTask { action: "present".to_string(), ..CronTask::defaults("present") };
    let present = CronTask { name: add.name.clone(), schedule: add.schedule.clone(), cmd: add.cmd.clone(), ..present };
    assert_eq!(show(&CronModule.apply_command(&add).unwrap()), show(&CronModule.apply_command(&present).unwrap()));
    let remove = CronTask { action: "disable".to_string(), ..add };
    assert!(show(&CronModule.apply_command(&remove).unwrap()).ends_with(" | crontab -u <root> -"));

    let mut en = NginxTask::defaults("enable_site");
    en.site = "blog".to_string();
    let mut se = NginxTask::defaults("site_enable");
    se.site = "blog".to_string();
    assert_eq!(show(&NginxModule.apply_command(&en).unwrap()), show(&NginxModule.apply_command(&se).unwrap()));
    assert_eq!(show(&NginxModule.apply_command(&NginxTask::defaults("config")).unwrap()), "nginx -t");

    let mut user = PostgresTask::defaults("user");
    user.username = "app".to_string();
    let mut create = PostgresTask::defaults("create_user");
    create.username = "app".to_string();
    assert_eq!(show(&PostgresModule.apply_command(&user).unwrap()), show(&PostgresModule.apply_command(&create).unwrap()));

    let mut setup = WireguardTask::defaults("setup");
    setup.config = "[Interface]\n".to_string();
    assert_eq!(
        show(&WireguardModule.apply_command(&setup).unwrap()),
        "printf %s <[Interface]\n> > </etc/wireguard/wg0.conf> && chmod 600 </etc/wireguard/wg0.conf>"
    );
}

#[test]
fn container_build_and_listing() {
    let mut t = DockerTask::defaults("build");
    t.image = "app:1".to_string();
    assert_eq!(show(&DockerModule.apply_command(&t).unwrap()), "docker build -t <app:1> <.>");
    assert!(DockerModule.plan(&t, &Reply::NotRun).unwrap().changed);
    let ps = DockerTask::defaults("ps");
    assert_eq!(show(&DockerModule.apply_command(&ps).unwrap()), "docker ps -a");
    assert!(!DockerModule.plan(&ps, &Reply::NotRun).unwrap().changed);
    assert!(!DockerModule.apply_report(&ps, &ok("CONTAINER ID")).changed);
    let mut p = PodmanTask::defaults("ps");
    assert_eq!(show(&PodmanModule.apply_command(&p).unwrap()), "podman ps -a");
    assert_eq!(PodmanModule.apply_report(&p, &ok("list\n")).message, "list\n");
    p.action = "build".to_string();
    p.image = "app:1".to_string();
    p.context = "./src".to_string();
    assert_eq!(show(&PodmanModule.apply_command(&p).unwrap()), "podman build -t <app:1> <./src>");
}

#[test]
fn kubernetes_get_narrows_to_a_named_resource() {
    let mut t = K8sTask::defaults("get");
    t.kind = "pods".to_string();
    assert_eq!(show(&K8sModule.apply_command(&t).unwrap()), "kubectl get <pods>");
    t.resource_name = "web-0".to_string();
    t.namespace = "prod".to_string();
    assert_eq!(show(&K8sModule.apply_command(&t).unwrap()), "kubectl -n <prod> get <pods> <web-0>");
    assert!(!K8sModule.plan(&t, &Reply::NotRun).unwrap().changed);
    assert!(!K8sModule.apply_report(&t, &ok("web-0 Running")).changed);
}

#[test]
fn redis_config_backup_and_info() {
    let mut t = RedisTask::defaults("config");
    assert!(RedisModule.apply_command(&t).is_err());
    t.key = "maxmemory".to_string();
    t.value = "1gb".to_string();
    assert_eq!(
        show(&RedisModule.apply_command(&t).unwrap()),
        "redis-cli -h <localhost> -p 6379 -n 0 CONFIG SET <maxmemory> <1gb>"
    );
    let b = RedisTask::defaults("backup");
    assert_eq!(show(&RedisModule.apply_command(&b).unwrap()), "redis-cli -h <localhost> -p 6379 -n 0 BGSAVE");
    let i = RedisTask::defaults("info");
    assert_eq!(show(&RedisModule.apply_command(&i).unwrap()), "redis-cli -h <localhost> -p 6379 -n 0 INFO");
    assert!(!RedisModule.apply_report(&i, &ok("# Server")).changed);
}

#[test]
fn restic_restore_needs_a_target() {
    let mut t = ResticTask::defaults("restore");
    t.repo = "/srv/backup".to_string();
    assert_eq!(
        ResticModule.apply_command(&t).unwrap_err().message().unwrap(),
        "restic.restore requires 'target' parameter"
    );
    t.target = "/srv/restore".to_string();
    assert_eq!(
        show(&ResticModule.apply_command(&t).unwrap()),
        "RESTIC_REPOSITORY=</srv/backup> restic restore latest --target </srv/restore>"
    );
}

#[test]
fn sysctl_load_and_persist() {
    let l = SysctlTask::defaults("load");
    assert_eq!(show(&SysctlModule.apply_command(&l).unwrap()), "sysctl --system");
    let mut p = SysctlTask::defaults("persist");
    p.key = "net.ipv4.ip_forward".to_string();
    p.value = "1".to_string();
    assert_eq!(show(&SysctlModule.apply_command(&p).unwrap()), "mkdir -p /etc/sysctl.d");
    let w = SysctlModule.apply_followup(&p, &ok("")).unwrap();
    assert_eq!(w.path, "/etc/sysctl.d/99-sutra-net-ipv4-ip_forward.conf");
    assert_eq!(w.content, "net.ipv4.ip_forward=1\n");
    assert_eq!(
        SysctlModule.plan(&p, &Reply::NotRun).unwrap().description,
        "persist net.ipv4.ip_forward = 1 in /etc/sysctl.d/99-sutra-net-ipv4-ip_forward.conf"
    );
}

#[test]
fn agent_and_node_actions() {
    let mut q = AegisTask::defaults("quarantine");
    q.target = "/tmp/x".to_string();
    assert_eq!(show(&AegisModule.apply_command(&q).unwrap()), "aegis quarantine </tmp/x>");
    let s = AegisTask::defaults("scan");
    assert!(!AegisModule.plan(&s, &Reply::NotRun).unwrap().changed);
    assert_eq!(show(&AegisModule.apply_command(&AegisTask::defaults("enable")).unwrap()), "systemctl enable --now aegis");
    let mut c = DaimonTask::defaults("config");
    c.config = "{\"x\":1}".to_string();
    assert_eq!(
        show(&DaimonModule.apply_command(&c).unwrap()),
        "curl -sf -X PUT <http://localhost:8090>/v1/agents/self/config -H 'Content-Type: application/json' -d <{\"x\":1}>"
    );
    assert_eq!(show(&DaimonModule.apply_command(&DaimonTask::defaults("status")).unwrap()), "curl -sf <http://localhost:8090>/v1/agents/self");
    assert_eq!(show(&EdgeModule.apply_command(&EdgeTask::defaults("decommission")).unwrap()), "agnos-edge decommission");
    assert_eq!(show(&EdgeModule.apply_command(&EdgeTask::defaults("heartbeat")).unwrap()), "agnos-edge heartbeat");
}

#[test]
fn wireguard_peers_and_status() {
    let mut t = WireguardTask::defaults("add_peer");
    assert!(WireguardModule.apply_command(&t).is_err());
    t.peer = "KEY=".to_string();
    t.allowed_ips = "10.0.0.2/32".to_string();
    assert_eq!(show(&WireguardModule.apply_command(&t).unwrap()), "wg set <wg0> peer <KEY=> allowed-ips <10.0.0.2/32>");
    t.action = "remove_peer".to_string();
    assert_eq!(show(&WireguardModule.apply_command(&t).unwrap()), "wg set <wg0> peer <KEY=> remove");
    let s = WireguardTask::defaults("status");
    assert_eq!(show(&WireguardModule.apply_command(&s).unwrap()), "wg show <wg0>");
    assert!(!WireguardModule.apply_report(&s, &ok("interface: wg0")).changed);
}

#[test]
fn postgres_files_acme_status_cron_and_mount_listings() {
    let mut t = PostgresTask::defaults("backup");
    t.database = "app".to_string();
    t.file = "/srv/app.dump".to_string();
    assert_eq!(
        show(&PostgresModule.apply_command(&t).unwrap()),
        "pg_dump -h <localhost> -p <5432> -U <postgres> -Fc -f </srv/app.dump> <app>"
    );
    t.action = "restore".to_string();
    assert_eq!(
        show(&PostgresModule.apply_command(&t).unwrap()),
        "pg_restore -h <localhost> -p <5432> -U <postgres> -d <app> </srv/app.dump>"
    );
    t.action = "migrate".to_string();
    assert_eq!(
        show(&PostgresModule.apply_command(&t).unwrap()),
        "psql -h <localhost> -p <5432> -U <postgres> -d <app> -f </srv/app.dump>"
    );
    let mut s = AcmeTask::defaults("status");
    assert!(AcmeModule.apply_command(&s).is_err());
    s.domain = "example.org".to_string();
    assert_eq!(show(&AcmeModule.apply_command(&s).unwrap()), "certbot certificates --cert-name <example.org>");
    assert_eq!(show(&CronModule.apply_command(&CronTask::defaults("list")).unwrap()), "crontab -l -u <root>");
    assert_eq!(show(&MountModule.apply_command(&MountTask::defaults("list")).unwrap()), "findmnt -l");
    assert!(matches!(MountModule.plan_probe(&MountTask::defaults("list")).unwrap(), Probe::Nothing));
    let mut c = NginxTask::defaults("certbot");
    c.site = "blog.example.org".to_string();
    assert_eq!(show(&NginxModule.apply_command(&c).unwrap()), "certbot --nginx --non-interactive -d <blog.example.org>");
}

#[test]
fn tasks_start_from_their_defaults() {
    let d = DockerTask::defaults("run");
    assert_eq!((d.action.as_str(), d.file.as_str(), d.detach, d.context.as_str()), ("run", "docker-compose.yml", true, "."));
    assert_eq!(StivaTask::defaults("run").file, "stiva-compose.toml");
    assert!(PodmanTask::defaults("generate_systemd").new_unit);
    let r = RedisTask::defaults("ping");
    assert_eq!((r.host.as_str(), r.port, r.db), ("localhost", 6379, 0));
    let p = PostgresTask::defaults("query");
    assert_eq!((p.host.as_str(), p.port.as_str(), p.pg_user.as_str(), p.privileges.as_str()), ("localhost", "5432", "postgres", "ALL"));
    let k = K8sTask::defaults("scale");
    assert_eq!((k.workload_kind.as_str(), k.sub_action.as_str(), k.replicas, k.condition.as_str(), k.timeout), ("deployment", "status", 1, "Ready", 300));
    let n = NftablesTask::defaults("add_rule");
    assert_eq!((n.table.as_str(), n.chain.as_str(), n.flush_table.as_str()), ("filter", "input", ""));
    assert_eq!(WireguardTask::defaults("up").interface, "wg0");
    assert_eq!(SysctlTask::defaults("set").persist, "true");
    assert_eq!(DaimonTask::defaults("report").endpoint, "http://localhost:8090");
    let m = MountTask::defaults("fstab");
    assert_eq!((m.fstype.as_str(), m.opts.as_str(), m.dump.as_str(), m.pass.as_str()), ("auto", "defaults", "0", "0"));
    let a = AcmeTask::defaults("obtain");
    assert_eq!((a.method.as_str(), a.webroot.as_str()), ("standalone", "/var/www/html"));
    assert_eq!(CronTask::defaults("present").user, "root");
    let e = EdgeTask::defaults("update");
    assert_eq!((e.profile.as_str(), e.channel.as_str(), e.remove), ("default", "stable", false));
    let g = AegisTask::defaults("harden");
    assert_eq!((g.policy.as_str(), g.profile.as_str(), g.level.as_str()), ("default", "standard", "standard"));
    let s = ResticTask::defaults("forget");
    assert_eq!((s.keep_daily, s.keep_weekly, s.keep_monthly), (7, 4, 12));
}
