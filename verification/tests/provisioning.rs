//! The provisioning pipeline: path derivation, the clone-once rule, and
//! failure propagation.

use mcp_http_core::error::ErrorKind;
use mcp_http_core::provision::{
    get_server_work_dir, git_marker_path, Phase, ProvisionAction, Provisioner,
};

#[test]
fn work_dir_is_derived_from_the_server_name() {
    assert_eq!(get_server_work_dir("redmine"), "/tmp/mcp-servers/redmine");
    assert_eq!(get_server_work_dir("a-b"), "/tmp/mcp-servers/a-b");
}

#[test]
fn marker_is_the_version_control_metadata_directory() {
    assert_eq!(git_marker_path("/tmp/mcp-servers/redmine"), "/tmp/mcp-servers/redmine/.git");
}

#[test]
fn full_pass_runs_tree_probe_clone_build_then_launch() {
    let mut p = Provisioner::new(
        Some("https://example.com/repo.git".to_string()),
        Some("npm install".to_string()),
        "/tmp/mcp-servers/demo".to_string(),
    );
    assert!(matches!(p.next_action(), ProvisionAction::EnsureTree { path } if path == "/tmp/mcp-servers/demo"));
    p.on_tree_created();
    assert!(matches!(p.next_action(), ProvisionAction::ProbeMarker { path } if path == "/tmp/mcp-servers/demo/.git"));
    p.on_marker(false);
    assert!(matches!(
        p.next_action(),
        ProvisionAction::RunClone { url, dest }
            if url == "https://example.com/repo.git" && dest == "/tmp/mcp-servers/demo"
    ));
    p.on_clone_exit(true, Some(0)).unwrap();
    assert!(matches!(
        p.next_action(),
        ProvisionAction::RunBuild { command, dir }
            if command == "npm install" && dir == "/tmp/mcp-servers/demo"
    ));
    p.on_build_exit(true, Some(0)).unwrap();
    assert!(matches!(p.next_action(), ProvisionAction::Launch));
}

#[test]
fn present_marker_skips_the_clone_and_still_succeeds() {
    let mut p = Provisioner::new(
        Some("https://example.com/repo.git".to_string()),
        None,
        "/tmp/mcp-servers/demo".to_string(),
    );
    p.on_tree_created();
    p.on_marker(true);
    assert_eq!(p.phase, Phase::Ready);
    assert!(matches!(p.next_action(), ProvisionAction::Launch));
}

#[test]
fn present_marker_still_builds_when_configured() {
    let mut p = Provisioner::new(
        Some("https://example.com/repo.git".to_string()),
        Some("make".to_string()),
        "/tmp/mcp-servers/demo".to_string(),
    );
    p.on_tree_created();
    p.on_marker(true);
    assert!(matches!(p.next_action(), ProvisionAction::RunBuild { command, .. } if command == "make"));
}

#[test]
fn no_repository_means_no_probe_and_no_clone() {
    let mut p = Provisioner::new(None, Some("make".to_string()), "/tmp/w".to_string());
    p.on_tree_created();
    assert!(matches!(p.next_action(), ProvisionAction::RunBuild { .. }));
}

#[test]
fn clone_failure_carries_exit_code_and_url() {
    let mut p = Provisioner::new(
        Some("https://example.com/repo.git".to_string()),
        None,
        "/tmp/w".to_string(),
    );
    p.on_tree_created();
    p.on_marker(false);
    let err = p.on_clone_exit(false, Some(128)).unwrap_err();
    assert_eq!(err.kind(), ErrorKind::Runtime);
    assert_eq!(
        err.message(),
        "Git clone failed with exit code 128: https://example.com/repo.git"
    );
    assert!(matches!(p.next_action(), ProvisionAction::Halt));
}

#[test]
fn build_failure_carries_exit_code_and_never_launches() {
    let mut p = Provisioner::new(
        Some("https://example.com/repo.git".to_string()),
        Some("npm install".to_string()),
        "/tmp/w".to_string(),
    );
    p.on_tree_created();
    p.on_marker(true);
    let err = p.on_build_exit(false, Some(2)).unwrap_err();
    assert_eq!(err.kind(), ErrorKind::Runtime);
    assert_eq!(err.message(), "Build command failed with exit code 2: npm install");
    assert_eq!(p.phase, Phase::Failed);
    assert!(matches!(p.next_action(), ProvisionAction::Halt));
}

#[test]
fn signal_death_renders_an_unknown_exit_code() {
    let mut p = Provisioner::new(Some("u".to_string()), None, "/tmp/w".to_string());
    p.on_tree_created();
    p.on_marker(false);
    let err = p.on_clone_exit(false, None).unwrap_err();
    assert_eq!(err.message(), "Git clone failed with exit code unknown: u");
}

#[test]
fn negative_exit_code_keeps_its_sign() {
    let mut p = Provisioner::new(Some("u".to_string()), Some("make".to_string()), "/tmp/w".to_string());
    p.on_tree_created();
    p.on_marker(true);
    let err = p.on_build_exit(false, Some(-1)).unwrap_err();
    assert_eq!(err.message(), "Build command failed with exit code -1: make");
}

#[test]
fn tree_failure_abandons_the_pass() {
    let mut p = Provisioner::new(None, None, "/tmp/w".to_string());
    let err = p.on_tree_failed("permission denied");
    assert_eq!(err.kind(), ErrorKind::Runtime);
    assert_eq!(
        err.message(),
        "Failed to create work directory '/tmp/w': permission denied"
    );
    assert_eq!(p.phase, Phase::Failed);
}
