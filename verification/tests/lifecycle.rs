use volt_plugin_api::lifecycle::Sweep;
use volt_plugin_api::registry::RegistryEntry;
use volt_plugin_api::PluginRegistry;

fn registry(ids: &[&str]) -> PluginRegistry {
    let mut registry = PluginRegistry::new();
    for id in ids {
        registry.register_entry(RegistryEntry {
            id: id.to_string(),
            name: id.to_uppercase(),
            description: String::new(),
            enabled: true,
        });
    }
    registry
}

fn run(sweep: &mut Sweep, failing: &[&str]) -> Vec<String> {
    let mut seen = Vec::new();
    loop {
        let id = match sweep.pending() {
            Some(id) => id.to_string(),
            None => break,
        };
        sweep.record(!failing.contains(&id.as_str()));
        seen.push(id);
    }
    seen
}

#[test]
fn a_sweep_visits_every_plugin_once() {
    let registry = registry(&["a", "b", "c"]);
    let mut sweep = registry.sweep();
    let mut seen = run(&mut sweep, &[]);
    seen.sort();
    assert_eq!(seen, vec!["a".to_string(), "b".to_string(), "c".to_string()]);
    assert_eq!(sweep.finish(), Ok(()));
}

#[test]
fn a_failure_does_not_end_the_sweep() {
    let registry = registry(&["a", "b", "c"]);
    let mut sweep = registry.sweep();
    let seen = run(&mut sweep, &["a", "b"]);
    assert_eq!(seen.len(), 3);
    assert_eq!(sweep.pending(), None);
    assert_eq!(
        sweep.finish(),
        Err("One or more plugins failed".to_string())
    );
}

#[test]
fn a_sweep_over_nothing_succeeds() {
    let registry = PluginRegistry::new();
    let mut sweep = registry.sweep();
    assert_eq!(sweep.pending(), None);
    sweep.record(false);
    assert_eq!(sweep.finish(), Ok(()));
}

#[test]
fn an_unfinished_sweep_is_no_success() {
    let mut sweep = Sweep::over(vec!["a".to_string(), "b".to_string()]);
    assert_eq!(
        sweep.finish(),
        Err("Not every plugin was processed".to_string())
    );
    assert_eq!(sweep.pending(), Some("a"));
    sweep.record(true);
    assert_eq!(sweep.pending(), Some("b"));
    assert_eq!(
        sweep.finish(),
        Err("Not every plugin was processed".to_string())
    );
    sweep.record(true);
    assert_eq!(sweep.pending(), None);
    assert_eq!(sweep.finish(), Ok(()));
}

#[test]
fn a_failure_is_reported_before_the_end() {
    let mut sweep = Sweep::over(vec!["a".to_string(), "b".to_string()]);
    sweep.record(false);
    assert_eq!(
        sweep.finish(),
        Err("One or more plugins failed".to_string())
    );
    assert_eq!(sweep.pending(), Some("b"));
}

#[test]
fn a_sweep_keeps_to_the_plugins_it_began_with() {
    let mut registry = registry(&["a"]);
    let mut sweep = registry.sweep();
    registry.register_entry(RegistryEntry {
        id: "late".to_string(),
        name: String::new(),
        description: String::new(),
        enabled: true,
    });
    assert_eq!(run(&mut sweep, &[]), vec!["a".to_string()]);
    assert_eq!(sweep.finish(), Ok(()));
}
