use shell_bootstrap::bootstrap::BootError;
use shell_bootstrap::bootstrap::Bootstrap;
use shell_bootstrap::bootstrap::Phase;
use shell_bootstrap::bootstrap::PluginKind;
use shell_bootstrap::dispatch::DispatchError;
use shell_bootstrap::paths::join_segment;
use shell_bootstrap::scope::PathStatus;
use shell_bootstrap::scope::ScopeError;

fn booted_shell() -> Bootstrap {
    let mut boot = Bootstrap::new();
    boot.register_fs_plugin();
    boot.run_setup(Some(String::from("/app/resources")), PathStatus::Directory)
        .unwrap();
    boot.register_commands();
    boot.enter_running();
    boot
}

#[test]
fn successful_bootstrap_scenario() {
    // resolver answers /app/resources, setup appends the data segment and
    // grants it recursively; the subtree is permitted, everything else denied
    let boot = booted_shell();
    assert_eq!(boot.phase, Phase::Running);
    assert_eq!(boot.granted.as_deref(), Some("/app/resources/data"));
    assert!(boot.scope.is_allowed("/app/resources/data/file.json"));
    assert!(!boot.scope.is_allowed("/etc/passwd"));
}

#[test]
fn resolver_failure_aborts_startup() {
    let mut boot = Bootstrap::new();
    boot.register_fs_plugin();
    let outcome = boot.run_setup(None, PathStatus::Directory);
    assert_eq!(outcome, Err(BootError::Resolution));
    assert_eq!(boot.phase, Phase::Aborted);
    assert_ne!(boot.phase, Phase::Running);
}

#[test]
fn missing_resource_directory_aborts_startup() {
    let mut boot = Bootstrap::new();
    boot.register_fs_plugin();
    let outcome = boot.run_setup(Some(String::from("/app/resources")), PathStatus::Missing);
    assert_eq!(outcome, Err(BootError::ScopeGrant(ScopeError::PathNotFound)));
    assert_eq!(boot.phase, Phase::Aborted);
}

#[test]
fn non_directory_resource_aborts_startup() {
    let mut boot = Bootstrap::new();
    boot.register_fs_plugin();
    let outcome = boot.run_setup(
        Some(String::from("/app/resources")),
        PathStatus::NonDirectory,
    );
    assert_eq!(outcome, Err(BootError::ScopeGrant(ScopeError::NotADirectory)));
    assert_eq!(boot.phase, Phase::Aborted);
}

#[test]
fn plugins_attach_in_fixed_order() {
    let boot = booted_shell();
    assert_eq!(
        boot.plugins,
        vec![PluginKind::FsCapability, PluginKind::LinkOpener]
    );
}

#[test]
fn no_handler_reachable_before_commands_registered() {
    let mut boot = Bootstrap::new();
    boot.register_fs_plugin();
    boot.run_setup(Some(String::from("/app/resources")), PathStatus::Directory)
        .unwrap();
    // scope is granted, but the command surface is still empty: a racing
    // front-end call finds no handler
    assert!(boot.scope.is_allowed("/app/resources/data/file.json"));
    assert_eq!(
        boot.dispatcher.dispatch("greet", "World"),
        Err(DispatchError::UnknownCommand)
    );
}

#[test]
fn scope_granted_whenever_handlers_reachable() {
    // the converse race: once a handler answers, the grant is in place
    let boot = booted_shell();
    assert!(boot.dispatch("greet", "World").is_ok());
    assert!(boot.scope.is_allowed("/app/resources/data/file.json"));
}

#[test]
fn dispatch_routes_greet() {
    let boot = booted_shell();
    assert_eq!(
        boot.dispatch("greet", "World"),
        Ok(String::from("Hello, World! You've been greeted from Rust!"))
    );
}

#[test]
fn dispatch_rejects_unknown_command() {
    let boot = booted_shell();
    assert_eq!(
        boot.dispatch("open", "https://example.com"),
        Err(DispatchError::UnknownCommand)
    );
    assert_eq!(boot.dispatch("", ""), Err(DispatchError::UnknownCommand));
}

#[test]
fn join_segment_appends_below_directory() {
    assert_eq!(join_segment("/app/resources", "data"), "/app/resources/data");
    assert_eq!(join_segment("", "data"), "/data");
}
