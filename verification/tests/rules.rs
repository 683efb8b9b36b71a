use ken_desktop::vault::{account_name, normalize_token};
use ken_desktop::workspace::{
    normalize_thread_id, workspace_create_error, workspace_root_path, CreateFailure,
};

#[test]
fn account_name_is_stable() {
    assert_eq!(account_name("thread-1", "access"), "thread-1:access");
}

#[test]
fn normalize_token_trims_and_accepts_content() {
    assert_eq!(
        normalize_token("  token-value  ").expect("token should be valid"),
        "token-value"
    );
}

#[test]
fn normalize_token_rejects_empty_input() {
    assert!(normalize_token("   ").is_none());
}

#[test]
fn normalize_thread_id_accepts_allowed_characters() {
    assert_eq!(
        normalize_thread_id("Thread-01_alpha.sample").expect("thread id should be valid"),
        "thread-01_alpha.sample"
    );
}

#[test]
fn normalize_thread_id_rejects_invalid_characters() {
    assert!(normalize_thread_id("thread with spaces").is_none());
    assert!(normalize_thread_id("thread/child").is_none());
}

#[test]
fn workspace_root_path_targets_executive_assistant_directory() {
    let path = workspace_root_path("/Users/tester");
    assert_eq!(path, "/Users/tester/Executive Assistant/Ken");
}

#[test]
fn workspace_create_error_includes_permission_guidance() {
    let source = std::io::Error::from(std::io::ErrorKind::PermissionDenied);
    let failure = CreateFailure {
        permission_denied: source.kind() == std::io::ErrorKind::PermissionDenied,
        detail: source.to_string(),
    };
    let error = workspace_create_error("/Users/tester/Executive Assistant/Ken/thread-1", &failure);

    assert!(error.contains("Grant Files and Folders access"));
    assert!(error.contains("System Settings"));
}
