use tailscale_mcp::version::{satisfies, supported_floor, Version};

fn parsed(text: &str) -> Result<Version, ()> {
    Version::parse(text).ok_or(())
}

#[test]
fn a_plain_version_parses() {
    assert_eq!(parsed("1.102.2"), Ok(Version::new(1, 102, 2)));
    assert_eq!(parsed("1.78"), Ok(Version::new(1, 78, 0)));
    assert_eq!(parsed("v1.80.0"), Ok(Version::new(1, 80, 0)));
}

#[test]
fn a_build_suffix_parses_as_its_release() {
    assert_eq!(parsed("1.102.2-t01a2b3c4"), Ok(Version::new(1, 102, 2)));
    assert_eq!(parsed("1.99.0-dev"), Ok(Version::new(1, 99, 0)));
}

#[test]
fn prose_is_not_a_version() {
    for text in ["", "tailscale", "go1.24.1 (rev abcdef)", "1", "1.2.3.4"] {
        assert_eq!(parsed(text), Err(()), "{text} parsed");
    }
}

#[test]
fn the_first_line_of_the_cli_output_is_the_client_version() {
    let output = "1.102.2\n  tailscale commit: 0123456789abcdef\n  go version: go1.24.1\n";
    assert_eq!(
        Version::parse_cli_output(output),
        Some(Version::new(1, 102, 2))
    );
}

#[test]
fn versions_order_by_component() {
    assert!(Version::new(1, 102, 0) > Version::new(1, 78, 9));
    assert!(Version::new(1, 78, 1) > Version::new(1, 78, 0));
    assert!(Version::new(1, 78, 0) >= supported_floor());
    assert!(Version::new(1, 72, 0) < supported_floor());
    // The comparison the library itself uses agrees with the derived order.
    assert!(Version::new(1, 78, 9).older_than(&Version::new(1, 102, 0)));
    assert!(!Version::new(1, 78, 0).older_than(&supported_floor()));
    assert!(Version::new(1, 72, 0).older_than(&supported_floor()));
}

#[test]
fn odd_minors_are_the_unstable_track() {
    assert!(Version::new(1, 103, 0).is_unstable());
    assert!(!Version::new(1, 102, 0).is_unstable());
}

#[test]
fn a_requirement_is_met_by_a_newer_release() {
    assert!(satisfies(Some(Version::new(1, 102, 2)), Some("1.80")));
    assert!(satisfies(Some(Version::new(1, 80, 0)), Some("1.80")));
    assert!(!satisfies(Some(Version::new(1, 78, 0)), Some("1.80")));
}

#[test]
fn an_unknown_version_blocks_nothing() {
    assert!(satisfies(None, Some("1.80")));
    assert!(satisfies(Some(Version::new(1, 50, 0)), None));
    // An unparseable requirement is a bug in our own table, and refusing
    // the call would hide it behind a confusing message.
    assert!(satisfies(Some(Version::new(1, 50, 0)), Some("soon")));
}

#[test]
fn a_version_reads_back_as_it_was_written() {
    for v in [Version::new(1, 102, 2), Version::new(0, 0, 0), Version::new(4294967295, 7, 10)] {
        assert_eq!(Version::parse(&v.to_text()), Some(v));
    }
    assert_eq!(Version::new(1, 78, 0).to_text(), "1.78.0");
}

#[test]
fn a_patch_that_does_not_fit_reads_as_zero_and_a_minor_that_does_not_fit_is_no_version() {
    assert_eq!(parsed("1.2.99999999999"), Ok(Version::new(1, 2, 0)));
    assert_eq!(parsed("1.2."), Ok(Version::new(1, 2, 0)));
    assert_eq!(parsed("1.99999999999.0"), Err(()));
    assert_eq!(parsed("  vv1.2.3 (stable)"), Ok(Version::new(1, 2, 3)));
}

#[test]
fn the_version_report_judges_against_the_floor() {
    let report = tailscale_mcp::local_status::version("1.102.2\n  go version: go1.24.1\n");
    assert_eq!(report.version.as_deref(), Some("1.102.2"));
    assert_eq!(report.supported_floor, "1.78.0");
    assert!(report.meets_floor);
    assert!(!tailscale_mcp::local_status::version("1.72.0\n").meets_floor);
    assert!(tailscale_mcp::local_status::version("1.77.0\n").meets_floor);
    assert!(!tailscale_mcp::local_status::version("1.71.4\n").meets_floor, "an unstable build ranks just above the stable release after it");
    assert!(tailscale_mcp::local_status::version("1.79.0\n").meets_floor);
    let unreadable = tailscale_mcp::local_status::version("nonsense\n");
    assert_eq!(unreadable.version, None);
    assert!(unreadable.meets_floor);
    assert_eq!(unreadable.raw, "nonsense");
}
