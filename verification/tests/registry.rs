use volt_plugin_api::plugin::Plugin;
use volt_plugin_api::registry::RegistryEntry;
use volt_plugin_api::PluginRegistry;

struct MockPlugin {
    id: String,
    name: String,
}

struct Switchable {
    id: String,
    on: bool,
}

impl Plugin for Switchable {
    fn id(&self) -> &str {
        &self.id
    }

    fn name(&self) -> &str {
        "Switchable"
    }

    fn description(&self) -> &str {
        "A plugin that may be off"
    }

    fn is_enabled(&self) -> bool {
        self.on
    }
}

fn mock(id: &str) -> Box<MockPlugin> {
    Box::new(MockPlugin {
        id: id.to_string(),
        name: "Test Plugin".to_string(),
    })
}

fn switchable(id: &str, on: bool) -> Box<Switchable> {
    Box::new(Switchable {
        id: id.to_string(),
        on,
    })
}

impl Plugin for MockPlugin {
    fn id(&self) -> &str {
        &self.id
    }

    fn name(&self) -> &str {
        &self.name
    }

    fn description(&self) -> &str {
        "Mock plugin for testing"
    }

    fn is_enabled(&self) -> bool {
        true
    }
}

#[test]
fn test_register_plugin() {
    let mut registry = PluginRegistry::new();
    let plugin = Box::new(MockPlugin {
        id: "test".to_string(),
        name: "Test Plugin".to_string(),
    });

    assert!(registry.register(plugin).is_ok());
    assert!(registry.has_plugin("test"));
    assert_eq!(registry.count().unwrap(), 1);
}

#[test]
fn test_unregister_plugin() {
    let mut registry = PluginRegistry::new();
    let plugin = Box::new(MockPlugin {
        id: "test".to_string(),
        name: "Test Plugin".to_string(),
    });

    registry.register(plugin).unwrap();
    assert!(registry.unregister("test").is_ok());
    assert!(!registry.has_plugin("test"));
    assert_eq!(registry.count().unwrap(), 0);
}

#[test]
fn registering_a_known_id_overwrites() {
    let mut registry = PluginRegistry::new();
    registry.register(switchable("x", true)).unwrap();
    assert_eq!(registry.count().unwrap(), 1);
    assert_eq!(registry.enabled_count().unwrap(), 1);
    registry.register(switchable("x", false)).unwrap();
    assert!(registry.has_plugin("x"));
    assert_eq!(registry.count().unwrap(), 1);
    assert_eq!(registry.enabled_count().unwrap(), 0);
}

#[test]
fn registering_a_fresh_id_adds_one() {
    let mut registry = PluginRegistry::new();
    assert_eq!(registry.count().unwrap(), 0);
    assert!(!registry.has_plugin("x"));
    registry.register(mock("x")).unwrap();
    assert!(registry.has_plugin("x"));
    assert!(!registry.has_plugin("y"));
    assert_eq!(registry.count().unwrap(), 1);
    registry.register(mock("y")).unwrap();
    assert!(registry.has_plugin("x"));
    assert!(registry.has_plugin("y"));
    assert_eq!(registry.count().unwrap(), 2);
}

#[test]
fn unregistering_an_unknown_id_fails_and_changes_nothing() {
    let mut registry = PluginRegistry::new();
    registry.register(mock("x")).unwrap();
    assert_eq!(
        registry.unregister("y"),
        Err("Plugin 'y' not found".to_string())
    );
    assert_eq!(registry.count().unwrap(), 1);
    assert!(registry.has_plugin("x"));
    registry.unregister("x").unwrap();
    assert_eq!(
        registry.unregister("x"),
        Err("Plugin 'x' not found".to_string())
    );
    assert_eq!(registry.count().unwrap(), 0);
}

#[test]
fn unregistering_leaves_the_others() {
    let mut registry = PluginRegistry::new();
    for id in ["a", "b", "c"] {
        registry.register(mock(id)).unwrap();
    }
    registry.unregister("b").unwrap();
    assert!(registry.has_plugin("a"));
    assert!(!registry.has_plugin("b"));
    assert!(registry.has_plugin("c"));
    assert_eq!(registry.count().unwrap(), 2);
    let mut ids = registry.list_plugins().unwrap();
    ids.sort();
    assert_eq!(ids, vec!["a".to_string(), "c".to_string()]);
}

#[test]
fn listing_names_each_id_once() {
    let mut registry = PluginRegistry::default();
    assert_eq!(registry.list_plugins().unwrap(), Vec::<String>::new());
    for id in ["one", "two", "one", "three", "two"] {
        registry.register(mock(id)).unwrap();
    }
    let mut ids = registry.list_plugins().unwrap();
    ids.sort();
    assert_eq!(
        ids,
        vec!["one".to_string(), "three".to_string(), "two".to_string()]
    );
    assert_eq!(registry.count().unwrap(), 3);
}

#[test]
fn enabled_plugins_are_counted() {
    let mut registry = PluginRegistry::new();
    assert_eq!(registry.enabled_count().unwrap(), 0);
    registry.register(switchable("a", true)).unwrap();
    registry.register(switchable("b", false)).unwrap();
    registry.register(switchable("c", true)).unwrap();
    assert_eq!(registry.count().unwrap(), 3);
    assert_eq!(registry.enabled_count().unwrap(), 2);
    registry.unregister("a").unwrap();
    assert_eq!(registry.enabled_count().unwrap(), 1);
    registry.unregister("b").unwrap();
    assert_eq!(registry.enabled_count().unwrap(), 1);
}

#[test]
fn entries_are_filed_under_their_id() {
    let mut registry = PluginRegistry::new();
    registry.register_entry(RegistryEntry {
        id: "x".to_string(),
        name: "X".to_string(),
        description: "The plugin x".to_string(),
        enabled: false,
    });
    assert!(registry.has_plugin("x"));
    assert_eq!(registry.count().unwrap(), 1);
    assert_eq!(registry.enabled_count().unwrap(), 0);
    registry.register_entry(RegistryEntry {
        id: "x".to_string(),
        name: "X".to_string(),
        description: "The plugin x".to_string(),
        enabled: true,
    });
    assert_eq!(registry.count().unwrap(), 1);
    assert_eq!(registry.enabled_count().unwrap(), 1);
}

#[test]
fn an_entry_holds_what_the_plugin_says() {
    let plugin = mock("test");
    let entry = RegistryEntry::of(&*plugin);
    assert_eq!(entry.id, "test");
    assert_eq!(entry.name, "Test Plugin");
    assert_eq!(entry.description, "Mock plugin for testing");
    assert!(entry.enabled);
}

#[test]
fn ids_are_not_checked_on_registration() {
    let mut registry = PluginRegistry::new();
    registry.register(mock("")).unwrap();
    registry.register(mock("not a plugin id/..")).unwrap();
    assert!(registry.has_plugin(""));
    assert!(registry.has_plugin("not a plugin id/.."));
    assert_eq!(registry.count().unwrap(), 2);
}
