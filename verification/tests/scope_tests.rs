use shell_bootstrap::scope::PathStatus;
use shell_bootstrap::scope::ScopeError;
use shell_bootstrap::scope::ScopeRegistry;

#[test]
fn fresh_registry_denies_everything() {
    let registry = ScopeRegistry::new();
    assert!(!registry.is_allowed("/"));
    assert!(!registry.is_allowed("/etc/passwd"));
    assert!(!registry.is_allowed(""));
}

#[test]
fn recursive_grant_permits_root_and_descendants() {
    let mut registry = ScopeRegistry::new();
    let granted = registry.allow_directory(
        String::from("/app/resources/data"),
        true,
        PathStatus::Directory,
    );
    assert_eq!(granted, Ok(()));
    assert!(registry.is_allowed("/app/resources/data"));
    assert!(registry.is_allowed("/app/resources/data/file.json"));
    assert!(registry.is_allowed("/app/resources/data/sub/deep/file.bin"));
}

#[test]
fn recursive_grant_denies_outside_paths() {
    let mut registry = ScopeRegistry::new();
    registry
        .allow_directory(
            String::from("/app/resources/data"),
            true,
            PathStatus::Directory,
        )
        .unwrap();
    assert!(!registry.is_allowed("/etc/passwd"));
    assert!(!registry.is_allowed("/app/resources"));
    assert!(!registry.is_allowed("/app/resources/other"));
    // a sibling that merely extends the granted name is not nested under it
    assert!(!registry.is_allowed("/app/resources/database"));
}

#[test]
fn non_recursive_grant_permits_exact_path_only() {
    let mut registry = ScopeRegistry::new();
    registry
        .allow_directory(String::from("/app/cache"), false, PathStatus::Directory)
        .unwrap();
    assert!(registry.is_allowed("/app/cache"));
    assert!(!registry.is_allowed("/app/cache/entry"));
    assert!(!registry.is_allowed("/app"));
}

#[test]
fn missing_path_is_refused() {
    let mut registry = ScopeRegistry::new();
    let refused = registry.allow_directory(String::from("/gone"), true, PathStatus::Missing);
    assert_eq!(refused, Err(ScopeError::PathNotFound));
    assert!(!registry.is_allowed("/gone"));
}

#[test]
fn non_directory_path_is_refused() {
    let mut registry = ScopeRegistry::new();
    let refused = registry.allow_directory(
        String::from("/app/resources/data"),
        true,
        PathStatus::NonDirectory,
    );
    assert_eq!(refused, Err(ScopeError::NotADirectory));
    assert!(!registry.is_allowed("/app/resources/data"));
}

#[test]
fn entries_accumulate() {
    let mut registry = ScopeRegistry::new();
    registry
        .allow_directory(String::from("/a"), true, PathStatus::Directory)
        .unwrap();
    registry
        .allow_directory(String::from("/b"), false, PathStatus::Directory)
        .unwrap();
    assert!(registry.is_allowed("/a/x"));
    assert!(registry.is_allowed("/b"));
    assert!(!registry.is_allowed("/b/x"));
    assert!(!registry.is_allowed("/c"));
}
