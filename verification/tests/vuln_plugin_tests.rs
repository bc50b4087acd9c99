use vulnfeed::vuln_plugin::{get_plugin, list_plugin_names, register_plugin, PluginInfo, PluginRegistry, VulnPlugin};
use vulnfeed::wiz::WizPlugin;

fn info(name: &str, display: &str, link: &str) -> PluginInfo {
    PluginInfo { name: name.to_string(), display_name: display.to_string(), link: link.to_string() }
}

#[test]
fn registry_starts_empty() {
    let registry = PluginRegistry::new();
    assert!(list_plugin_names(&registry).is_empty());
    assert_eq!(get_plugin(&registry, "WizPlugin"), None);
}

#[test]
fn registered_plugins_are_listed_once() {
    let mut registry = PluginRegistry::new();
    register_plugin(&mut registry, "a".to_string(), info("a", "A", "https://a"));
    register_plugin(&mut registry, "b".to_string(), info("b", "B", "https://b"));
    register_plugin(&mut registry, "a".to_string(), info("a", "A2", "https://a2"));
    let mut names = list_plugin_names(&registry);
    names.sort();
    assert_eq!(names, vec!["a".to_string(), "b".to_string()]);
    assert_eq!(get_plugin(&registry, "a"), Some(info("a", "A2", "https://a2")));
    assert_eq!(get_plugin(&registry, "b"), Some(info("b", "B", "https://b")));
    assert_eq!(get_plugin(&registry, "c"), None);
}

#[test]
fn wiz_plugin_registers_under_its_name() {
    let mut registry = PluginRegistry::new();
    let wiz = WizPlugin::try_new(&mut registry);
    assert_eq!(wiz.get_name(), "WizPlugin");
    assert_eq!(wiz.get_display_name(), "Wiz漏洞库");
    assert_eq!(wiz.get_link(), "https://www.wiz.io");
    assert_eq!(list_plugin_names(&registry), vec!["WizPlugin".to_string()]);
    assert_eq!(
        get_plugin(&registry, "WizPlugin"),
        Some(info("WizPlugin", "Wiz漏洞库", "https://www.wiz.io"))
    );
    assert_eq!(WizPlugin::new().info(), info("WizPlugin", "Wiz漏洞库", "https://www.wiz.io"));
}
