use sutra_community::modules::ark::{ArkModule, ArkTask};
use sutra_community::modules::hoosh::{HooshModule, HooshTask};
use sutra_community::modules::nein::{NeinModule, NeinTask};
use sutra_community::modules::yukti::{YuktiModule, YuktiTask};
use sutra_community::steps::Step;
use sutra_community::task::ModuleError;

fn lines(steps: &[Step]) -> Vec<String> {
    steps
        .iter()
        .map(|s| match s {
            Step::Run(line) => format!("run {}", line),
            Step::Write { path, content } => format!("write {} {:?}", path, content),
        })
        .collect()
}

fn some(s: &str) -> Option<String> {
    Some(s.to_string())
}

fn ark(action: &str, package: Option<String>, version: Option<String>) -> ArkTask {
    ArkTask { action: action.to_string(), package, version }
}

#[test]
fn ark_defaults_and_requirements() {
    let plan = ArkModule.plan(&ark("install", some("vim"), None)).unwrap();
    assert_eq!(plan.description, "Install package: vim (latest)");
    assert!(plan.needs_privilege);
    assert_eq!(lines(&ArkModule.apply_steps(&ark("install", some("vim"), None)).unwrap()), ["run ark install vim"]);
    assert_eq!(
        lines(&ArkModule.apply_steps(&ark("install", some("vim"), some("9.1"))).unwrap()),
        ["run ark install vim=9.1"]
    );
    assert_eq!(lines(&ArkModule.apply_steps(&ark("update", None, None)).unwrap()), ["run ark update"]);
    assert_eq!(lines(&ArkModule.apply_steps(&ark("verify", None, None)).unwrap()), ["run ark verify --all"]);
    assert!(!ArkModule.plan(&ark("list", None, None)).unwrap().needs_privilege);
    match ArkModule.plan(&ark("pin", some("vim"), None)) {
        Err(ModuleError::ParamMissing(key)) => assert_eq!(key, "version"),
        _ => panic!("pin without a version is refused"),
    }
    let e = ArkModule.apply_steps(&ark("fly", None, None)).err().unwrap();
    assert_eq!(e.message().unwrap(), "unknown ark action: fly");
}

#[test]
fn hoosh_writes_the_provider_file() {
    let t = HooshTask {
        action: "set_provider".to_string(),
        api_url: None,
        model: None,
        provider: some("openai"),
        api_key: some("SECRET-REDACTED"),
        endpoint: None,
        pool: None,
        limit: None,
    };
    assert_eq!(
        lines(&HooshModule.apply_steps(&t).unwrap()),
        ["write /etc/agnos/hoosh/providers/openai.toml \"[providers.openai]\\napi_key = \\\"SECRET-REDACTED\\\"\\n\\n\""]
    );
    assert!(HooshModule.plan(&t).unwrap().needs_privilege);
    let budget = HooshTask { action: "token_budget".to_string(), limit: some("1000"), ..t };
    assert_eq!(
        lines(&HooshModule.apply_steps(&budget).unwrap()),
        ["run curl -sf -X POST http://localhost:8088/v1/tokens/pools -H 'Content-Type: application/json' -d '{\"name\":\"global\",\"limit\":1000}'"]
    );
    assert_eq!(HooshModule.plan(&budget).unwrap().description, "Set token budget for 'global': 1000");
}

#[test]
fn nein_fills_defaults() {
    let t = NeinTask {
        action: "container_network".to_string(),
        policy: None,
        agent_id: None,
        port: None,
        protocol: None,
        network: some("apps"),
        mode: None,
        subnet: None,
    };
    assert_eq!(
        lines(&NeinModule.apply_steps(&t).unwrap()),
        ["run nein container-network --name apps --mode bridge --subnet 172.20.0.0/16"]
    );
    assert_eq!(NeinModule.plan(&t).unwrap().description, "Configure container network 'apps' in bridge mode");
    let status = NeinTask { action: "status".to_string(), ..t };
    assert!(!NeinModule.plan(&status).unwrap().needs_privilege);
}

#[test]
fn yukti_writes_then_runs() {
    let t = YuktiTask {
        action: "hotplug_policy".to_string(),
        device: None,
        mountpoint: None,
        filesystem: None,
        options: None,
        name: None,
        content: None,
        label: None,
        policy: some("auto"),
    };
    assert_eq!(
        lines(&YuktiModule.apply_steps(&t).unwrap()),
        [
            "write /etc/agnos/yukti/hotplug.toml \"[hotplug]\\npolicy = \\\"auto\\\"\\nauto_mount = true\\n\"",
            "run systemctl restart yukti-hotplug",
        ]
    );
    let format = YuktiTask { action: "format".to_string(), device: some("/dev/sdc"), label: some("data"), ..t };
    assert_eq!(lines(&YuktiModule.apply_steps(&format).unwrap()), ["run mkfs.ext4 -L data /dev/sdc"]);
    let udev = YuktiTask { action: "udev_rule".to_string(), name: some("usb"), content: None, ..format };
    assert!(YuktiModule.plan(&udev).is_ok());
    assert!(matches!(YuktiModule.apply_steps(&udev), Err(ModuleError::ParamMissing(_))));
}
