use sutra_community::modules::ark::ArkModule;

#[test]
fn module_name() {
    assert_eq!(ArkModule.name(), "ark");
}

#[test]
fn module_actions() {
    let actions = ArkModule.actions();
    assert!(actions.contains(&"install"));
    assert!(actions.contains(&"update"));
    assert!(actions.contains(&"remove"));
    assert!(actions.contains(&"verify"));
    assert!(actions.contains(&"pin"));
    assert_eq!(actions.len(), 7);
}
