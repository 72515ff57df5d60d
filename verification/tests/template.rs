use volt_plugin_api::plugin::{MyPlugin, Plugin};
use volt_plugin_api::PluginRegistry;

#[test]
fn test_can_handle() {
    let plugin = MyPlugin::default();
    assert!(plugin.can_handle("test"));
}

#[test]
fn the_empty_query_is_not_handled() {
    let plugin = MyPlugin::default();
    assert!(!plugin.can_handle(""));
    assert!(plugin.can_handle(" "));
}

#[test]
fn the_default_plugin() {
    let plugin = MyPlugin::default();
    assert_eq!(plugin.id(), "my-plugin");
    assert_eq!(plugin.name(), "My Plugin");
    assert_eq!(plugin.description(), "My awesome plugin");
    assert!(plugin.is_enabled());
}

#[test]
fn a_query_gets_one_result() {
    let plugin = MyPlugin::default();
    let results = plugin.match_query("volt");
    assert_eq!(results.len(), 1);
    assert_eq!(results[0].id, "result-1");
    assert_eq!(results[0].title, "My Result");
    assert_eq!(results[0].subtitle, Some("You searched for: volt".to_string()));
    assert_eq!(results[0].score, 100);
}

#[test]
fn the_default_plugin_can_be_registered() {
    let mut registry = PluginRegistry::new();
    registry.register(Box::new(MyPlugin::default())).unwrap();
    assert!(registry.has_plugin("my-plugin"));
    assert_eq!(registry.enabled_count().unwrap(), 1);
}
