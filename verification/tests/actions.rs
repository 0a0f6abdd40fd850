use sutra_community::modules::acme::AcmeModule;
use sutra_community::modules::aegis::AegisModule;
use sutra_community::modules::cron::CronModule;
use sutra_community::modules::daimon::DaimonModule;
use sutra_community::modules::docker::DockerModule;
use sutra_community::modules::edge::EdgeModule;
use sutra_community::modules::hoosh::HooshModule;
use sutra_community::modules::k8s::K8sModule;
use sutra_community::modules::mount::MountModule;
use sutra_community::modules::nein::NeinModule;
use sutra_community::modules::nftables::NftablesModule;
use sutra_community::modules::nginx::NginxModule;
use sutra_community::modules::podman::PodmanModule;
use sutra_community::modules::postgres::PostgresModule;
use sutra_community::modules::redis::RedisModule;
use sutra_community::modules::restic::ResticModule;
use sutra_community::modules::stiva::StivaModule;
use sutra_community::modules::sysctl::SysctlModule;
use sutra_community::modules::wireguard::WireguardModule;
use sutra_community::modules::yukti::YuktiModule;

#[test]
fn test_acme_actions() {
    let module = AcmeModule;
    assert_eq!(module.name(), "acme");
    assert!(module.actions().contains(&"obtain"));
    assert!(module.actions().contains(&"renew"));
    assert!(module.actions().contains(&"revoke"));
}

#[test]
fn test_aegis_actions() {
    let module = AegisModule;
    assert_eq!(module.name(), "aegis");
    assert!(module.actions().contains(&"apply_policy"));
    assert!(module.actions().contains(&"harden"));
    assert!(module.actions().contains(&"audit"));
}

#[test]
fn lib_module_name() {
    assert_eq!(HooshModule.name(), "hoosh");
    assert_eq!(NeinModule.name(), "nein");
    assert_eq!(YuktiModule.name(), "yukti");
}

#[test]
fn lib_module_actions() {
    let actions = HooshModule.actions();
    assert!(actions.contains(&"pull_model"));
    assert!(actions.contains(&"list_models"));
    assert!(actions.contains(&"token_budget"));
    assert!(actions.contains(&"status"));
    assert_eq!(actions.len(), 7);

    let actions = NeinModule.actions();
    assert!(actions.contains(&"apply_policy"));
    assert!(actions.contains(&"allow_agent"));
    assert!(actions.contains(&"deny_agent"));
    assert!(actions.contains(&"container_network"));
    assert!(actions.contains(&"status"));
    assert_eq!(actions.len(), 6);

    let actions = YuktiModule.actions();
    assert!(actions.contains(&"list_devices"));
    assert!(actions.contains(&"mount"));
    assert!(actions.contains(&"unmount"));
    assert!(actions.contains(&"format"));
    assert_eq!(actions.len(), 6);
}

#[test]
fn test_cron_actions() {
    let module = CronModule;
    assert_eq!(module.name(), "cron");
    assert!(module.actions().contains(&"present"));
    assert!(module.actions().contains(&"absent"));
}

#[test]
fn test_daimon_actions() {
    let module = DaimonModule;
    assert_eq!(module.name(), "daimon");
    assert!(module.actions().contains(&"register"));
    assert!(module.actions().contains(&"report"));
    assert!(module.actions().contains(&"heartbeat"));
}

#[test]
fn test_docker_actions() {
    let module = DockerModule;
    assert_eq!(module.name(), "docker");
    assert!(module.actions().contains(&"pull"));
    assert!(module.actions().contains(&"run"));
    assert!(module.actions().contains(&"compose_up"));
}

#[test]
fn test_edge_actions() {
    let module = EdgeModule;
    assert_eq!(module.name(), "edge");
    assert!(module.actions().contains(&"provision"));
    assert!(module.actions().contains(&"update"));
    assert!(module.actions().contains(&"label"));
}

#[test]
fn test_k8s_actions() {
    let module = K8sModule;
    assert_eq!(module.name(), "k8s");
    assert!(module.actions().contains(&"apply"));
    assert!(module.actions().contains(&"scale"));
    assert!(module.actions().contains(&"rollout"));
    assert!(module.actions().contains(&"wait"));
}

#[test]
fn test_mount_actions() {
    let module = MountModule;
    assert_eq!(module.name(), "mount");
    assert!(module.actions().contains(&"mounted"));
    assert!(module.actions().contains(&"fstab"));
}

#[test]
fn test_nftables_actions() {
    let module = NftablesModule;
    assert_eq!(module.name(), "nftables");
    assert!(module.actions().contains(&"apply_ruleset"));
    assert!(module.actions().contains(&"add_rule"));
    assert!(module.actions().contains(&"flush"));
}

#[test]
fn test_nginx_actions() {
    let module = NginxModule;
    assert_eq!(module.name(), "nginx");
    assert!(module.actions().contains(&"site_enable"));
    assert!(module.actions().contains(&"site_disable"));
    assert!(module.actions().contains(&"config_test"));
    assert!(module.actions().contains(&"reload"));
    assert!(module.actions().contains(&"restart"));
}

#[test]
fn test_podman_actions() {
    let module = PodmanModule;
    assert_eq!(module.name(), "podman");
    assert!(module.actions().contains(&"pull"));
    assert!(module.actions().contains(&"run"));
    assert!(module.actions().contains(&"pod_create"));
    assert!(module.actions().contains(&"generate_systemd"));
}

#[test]
fn test_postgres_actions() {
    let module = PostgresModule;
    assert_eq!(module.name(), "postgres");
    assert!(module.actions().contains(&"create_db"));
    assert!(module.actions().contains(&"grant"));
    assert!(module.actions().contains(&"query"));
}

#[test]
fn test_redis_actions() {
    let module = RedisModule;
    assert_eq!(module.name(), "redis");
    assert!(module.actions().contains(&"set"));
    assert!(module.actions().contains(&"get"));
    assert!(module.actions().contains(&"del"));
    assert!(module.actions().contains(&"flush"));
    assert!(module.actions().contains(&"ping"));
}

#[test]
fn test_restic_actions() {
    let module = ResticModule;
    assert_eq!(module.name(), "restic");
    assert!(module.actions().contains(&"init"));
    assert!(module.actions().contains(&"backup"));
    assert!(module.actions().contains(&"forget"));
    assert!(module.actions().contains(&"check"));
    assert!(module.actions().contains(&"snapshots"));
}

#[test]
fn test_stiva_actions() {
    let module = StivaModule;
    assert_eq!(module.name(), "stiva");
    assert!(module.actions().contains(&"pull"));
    assert!(module.actions().contains(&"run"));
    assert!(module.actions().contains(&"stop"));
    assert!(module.actions().contains(&"rm"));
    assert!(module.actions().contains(&"compose_up"));
    assert!(module.actions().contains(&"compose_down"));
}

#[test]
fn test_actions_count() {
    let module = StivaModule;
    assert_eq!(module.actions().len(), 6);
}

#[test]
fn test_sysctl_actions() {
    let module = SysctlModule;
    assert_eq!(module.name(), "sysctl");
    assert!(module.actions().contains(&"set"));
    assert!(module.actions().contains(&"get"));
}

#[test]
fn test_wireguard_actions() {
    let module = WireguardModule;
    assert_eq!(module.name(), "wireguard");
    assert!(module.actions().contains(&"up"));
    assert!(module.actions().contains(&"down"));
    assert!(module.actions().contains(&"sync_config"));
}
