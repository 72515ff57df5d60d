use std::collections::BTreeMap;

use volt_plugin_api::registry::RegistryEntry;
use volt_plugin_api::PluginRegistry;

fn entry(id: &str, enabled: bool) -> RegistryEntry {
    RegistryEntry {
        id: id.to_string(),
        name: id.to_uppercase(),
        description: String::new(),
        enabled,
    }
}

fn agrees(registry: &PluginRegistry, model: &BTreeMap<String, bool>) {
    let mut listed = registry.list_plugins().unwrap();
    listed.sort();
    let expected: Vec<String> = model.keys().cloned().collect();
    assert_eq!(listed, expected);
    assert_eq!(registry.count().unwrap(), model.len());
    assert_eq!(
        registry.enabled_count().unwrap(),
        model.values().filter(|on| **on).count()
    );
}

#[test]
fn interleaved_operations_agree_with_a_map() {
    let mut registry = PluginRegistry::new();
    let mut model: BTreeMap<String, bool> = BTreeMap::new();
    let mut state: u32 = 12345;
    for step in 0..4000 {
        state = state.wrapping_mul(1103515245).wrapping_add(12345);
        let worker = (state >> 16) % 8;
        let slot = (state >> 8) % 5;
        let id = if slot == 0 {
            "shared".to_string()
        } else {
            format!("w{}-{}", worker, slot)
        };
        match (state >> 4) % 3 {
            0 => {
                let on = step % 2 == 0;
                let known = model.contains_key(&id);
                let before = registry.count().unwrap();
                registry.register_entry(entry(&id, on));
                model.insert(id.clone(), on);
                assert!(registry.has_plugin(&id));
                assert_eq!(
                    registry.count().unwrap(),
                    if known { before } else { before + 1 }
                );
            }
            1 => {
                let known = model.remove(&id).is_some();
                let before = registry.count().unwrap();
                let removed = registry.unregister(&id);
                assert_eq!(removed.is_ok(), known);
                if !known {
                    assert_eq!(removed, Err(format!("Plugin '{}' not found", id)));
                }
                assert!(!registry.has_plugin(&id));
                assert_eq!(
                    registry.count().unwrap(),
                    if known { before - 1 } else { before }
                );
            }
            _ => {
                assert_eq!(registry.has_plugin(&id), model.contains_key(&id));
            }
        }
        agrees(&registry, &model);
    }
}
