use anything_runtime::PluginError;
use anything_runtime::PluginManager;
use anything_runtime::Plugin;
use anything_runtime::RuntimeConfig;
use anything_runtime::ShellAction;
use anything_runtime::ShellEngine;

fn shell_engine() -> ShellEngine {
    ShellEngine::new(ShellAction {
        executor: None,
        command: "echo 'ducks'".to_string(),
        args: vec![],
        cwd: None,
    })
}

#[test]
fn test_can_find_an_existing_built_in_plugin() {
    let p = PluginManager::<ShellEngine>::find_plugin_library("shell");
    assert!(p.is_ok());
    assert!(p
        .unwrap()
        .contains("plugins/artifacts/libanything_plugin_shell.dylib"));
}

#[test]
fn test_errors_with_non_existing_plugin() {
    let p = PluginManager::<ShellEngine>::find_plugin_library("bonkders");
    assert!(p.is_err());
}

#[test]
fn test_load_simple_plugin() {
    let mut manager = PluginManager::new();
    let config = RuntimeConfig::default();

    manager
        .load_plugin("shell", || Ok(shell_engine()), &config)
        .unwrap();
    assert_eq!(manager.plugins.len(), 1);
    let p = manager.get_plugin("shell");
    assert!(p.is_ok());
}

#[test]
fn load_plugin_twice_is_idempotent() {
    let mut manager = PluginManager::new();
    let config = RuntimeConfig::default();

    manager
        .load_plugin("shell", || Ok(shell_engine()), &config)
        .unwrap();
    // The second load must not construct anything: the loader would panic.
    let second = manager.load_plugin(
        "shell",
        || -> Result<ShellEngine, PluginError> { unreachable!() },
        &config,
    );
    assert!(second.is_ok());
    assert_eq!(manager.plugin_count(), 1);
}

#[test]
fn get_plugin_before_and_after_load() {
    let mut manager = PluginManager::new();
    let config = RuntimeConfig::default();

    let missing = manager.get_plugin("shell");
    assert!(matches!(missing, Err(PluginError::NotFound(n)) if n == "shell"));

    manager
        .load_plugin("shell", || Ok(shell_engine()), &config)
        .unwrap();

    let first = manager.get_plugin("shell").unwrap().name();
    let again = manager.get_plugin("shell").unwrap().name();
    assert_eq!(first, "shell");
    assert_eq!(first, again);
}

#[test]
fn failed_loader_leaves_no_partial_entry() {
    let mut manager = PluginManager::new();
    let config = RuntimeConfig::default();

    let r = manager.load_plugin(
        "shell",
        || -> Result<ShellEngine, PluginError> {
            Err(PluginError::LoadingError("no such object".to_string()))
        },
        &config,
    );
    assert!(matches!(r, Err(PluginError::LoadingError(_))));
    assert_eq!(manager.plugin_count(), 0);
    assert!(manager.get_plugin("shell").is_err());
}

#[test]
fn unload_twice_is_safe() {
    let mut manager = PluginManager::new();
    let config = RuntimeConfig::default();

    manager
        .load_plugin("shell", || Ok(shell_engine()), &config)
        .unwrap();
    assert_eq!(manager.plugin_count(), 1);

    let _ = manager.unload();
    assert_eq!(manager.plugin_count(), 0);

    // Draining an already empty registry again is a no-op.
    let _ = manager.unload();
    assert_eq!(manager.plugin_count(), 0);
}
