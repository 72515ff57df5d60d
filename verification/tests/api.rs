use volt_plugin_api::api::{log_line, LogLevel, PluginCapability, APP_VERSION};
use volt_plugin_api::VoltPluginAPI;

#[test]
fn the_data_directory_is_handed_back() {
    let api = VoltPluginAPI::new("/home/user/.volt".to_string());
    assert_eq!(api.get_app_data_dir(), Ok("/home/user/.volt".to_string()));
    let copy = api.clone();
    assert_eq!(copy.get_app_data_dir(), Ok("/home/user/.volt".to_string()));
}

#[test]
fn the_version_is_the_constant() {
    let api = VoltPluginAPI::new(String::new());
    assert_eq!(api.get_volt_version(), APP_VERSION);
    assert_eq!(api.get_volt_version(), "0.1.0");
}

#[test]
fn search_results_are_taken() {
    let api = VoltPluginAPI::new("/data".to_string());
    assert!(api.add_search_results(Vec::new()).is_ok());
    assert!(api
        .add_search_results(vec![serde_json::Value::String("app".to_string())])
        .is_ok());
}

#[test]
fn log_lines() {
    assert_eq!(log_line("p", LogLevel::Info, "started"), "[p] INFO: started");
    assert_eq!(log_line("p", LogLevel::Warn, "slow"), "[p] WARN: slow");
    assert_eq!(log_line("my-plugin", LogLevel::Error, "broke"), "[my-plugin] ERROR: broke");
    assert_eq!(log_line("p", LogLevel::Debug, ""), "[p] DEBUG: ");
}

#[test]
fn log_levels() {
    assert_eq!(LogLevel::Info.label(), "INFO");
    assert_eq!(LogLevel::Warn.label(), "WARN");
    assert_eq!(LogLevel::Error.label(), "ERROR");
    assert_eq!(LogLevel::Debug.label(), "DEBUG");
    assert!(LogLevel::Error.to_error_stream());
    assert!(!LogLevel::Info.to_error_stream());
    assert!(!LogLevel::Warn.to_error_stream());
    assert!(!LogLevel::Debug.to_error_stream());
}

#[test]
fn capability_descriptions() {
    assert_eq!(
        PluginCapability::FileSystem.description(),
        "Read and write files on your computer"
    );
    assert_eq!(
        PluginCapability::Network.description(),
        "Access the internet and make network requests"
    );
    assert_eq!(
        PluginCapability::SystemInfo.description(),
        "Read system information (CPU, memory, etc.)"
    );
    assert_eq!(
        PluginCapability::ExecuteCommands.description(),
        "Execute programs and commands"
    );
    assert_eq!(
        PluginCapability::ApplicationData.description(),
        "Access your application data and history"
    );
    assert_eq!(
        PluginCapability::ModifySearch.description(),
        "Modify and add to search results"
    );
}

#[test]
fn sensitive_capabilities() {
    assert!(PluginCapability::FileSystem.is_sensitive());
    assert!(PluginCapability::Network.is_sensitive());
    assert!(PluginCapability::ExecuteCommands.is_sensitive());
    assert!(PluginCapability::ApplicationData.is_sensitive());
    assert!(!PluginCapability::SystemInfo.is_sensitive());
    assert!(!PluginCapability::ModifySearch.is_sensitive());
}
