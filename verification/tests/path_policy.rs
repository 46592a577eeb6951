use tailscale_mcp::common::real_path;
use tailscale_mcp::error::ErrorCode;
use tailscale_mcp::local_files::{metrics_write, MetricsWriteParams};
use tailscale_mcp::path_policy::{components_of, PathPolicy};

fn exports() -> PathPolicy {
    PathPolicy::Within(vec!["/srv/exports".to_owned()])
}

#[test]
fn any_path_is_allowed_while_the_allow_list_is_off() {
    assert!(real_path(&PathPolicy::default(), "path", "/anywhere/at/all").is_ok());
}

#[test]
fn a_populated_allow_list_confines_a_path_to_its_roots() {
    let policy = exports();
    assert!(real_path(&policy, "path", "/srv/exports/report.txt").is_ok());

    let refused = real_path(&policy, "path", "/etc/shadow").unwrap_err();
    assert_eq!(refused.code, ErrorCode::NotPermitted);
    assert_eq!(refused.message, "`path` is outside the paths this server may use");
    assert_eq!(
        refused.hint.as_deref(),
        Some("Name a path under one of the server's configured roots.")
    );
}

#[test]
fn a_parent_directory_step_cannot_leave_an_allowed_root() {
    let refused = real_path(&exports(), "path", "/srv/exports/../../etc/shadow").unwrap_err();
    assert_eq!(refused.code, ErrorCode::NotPermitted);
}

#[test]
fn the_impossible_path_is_named_before_the_policy() {
    let refused = real_path(&exports(), "path", " - ").unwrap_err();
    assert_eq!(refused.code, ErrorCode::InvalidArgs);
    let refused = real_path(&exports(), "path", "  ").unwrap_err();
    assert_eq!(refused.code, ErrorCode::InvalidArgs);
}

#[test]
fn a_root_confines_by_whole_components() {
    let policy = exports();
    assert!(policy.permits("/srv/exports"));
    assert!(policy.permits("/srv/./exports//a/../b"));
    assert!(!policy.permits("/srv/exports-old/file"));
    assert!(!policy.permits("srv/exports/file"));
    assert_eq!(components_of("/a/./b/../c//d"), ["a", "c", "d"]);
}

#[test]
fn a_tool_that_writes_a_file_asks_the_policy() {
    let refused = metrics_write(&exports(), &MetricsWriteParams { path: "/tmp/metrics".to_owned() })
        .unwrap_err();
    assert_eq!(refused.code, ErrorCode::NotPermitted);
    let args = metrics_write(&exports(), &MetricsWriteParams { path: "/srv/exports/m".to_owned() })
        .expect("inside the root");
    assert_eq!(args, ["metrics", "write", "/srv/exports/m"]);
}
