use tailscale_mcp::common::{bounded_wait, find_url, note, only_on, path_segment, tokens_with_prefix};
use tailscale_mcp::error::{ErrorCode, ToolError};

#[test]
fn an_identifier_containing_a_dot_is_still_an_identifier() {
    for good in [
        "n1111111CNTRL",
        "123456789",
        "laptop.example-tailnet.ts.net",
        "custom:a.b",
    ] {
        assert_eq!(
            path_segment("device_id", good).expect("a valid identifier"),
            good
        );
    }
}

#[test]
fn a_path_break_is_not_an_identifier() {
    for bad in ["a/b", "..", ".", "", "  ", "a?b", "a#b", "a%2Fb"] {
        let error = path_segment("device_id", bad).unwrap_err();
        assert_eq!(error.code, ErrorCode::InvalidArgs, "{bad:?}");
    }
    assert_eq!(path_segment("device_id", "  abc  ").unwrap(), "abc");
}

#[test]
fn a_wait_is_clamped_and_the_client_gets_the_grace() {
    assert_eq!(bounded_wait(None, 30, 120), (30, 35));
    assert_eq!(bounded_wait(Some(0), 30, 120), (1, 6));
    assert_eq!(bounded_wait(Some(500), 30, 120), (120, 125));
}

#[test]
fn tokens_are_found_by_prefix_and_lose_their_punctuation() {
    let found = tokens_with_prefix(
        "keep disablement-secret:AAA, and disablement-secret:BBB. now",
        &["disablement-secret:"],
    );
    assert_eq!(found, ["disablement-secret:AAA", "disablement-secret:BBB"]);
    assert_eq!(
        find_url("served at http://host:8080/ now"),
        Some("http://host:8080/".to_owned())
    );
    assert_eq!(note("  \n "), None);
    assert_eq!(note(" said \n"), Some("said".to_owned()));
}

#[test]
fn a_refused_identifier_names_the_character_as_rust_quotes_it() {
    let error = path_segment("device_id", "a/b").unwrap_err();
    assert_eq!(
        error.message,
        "`device_id` contains '/', which cannot appear in an identifier"
    );
    let error = path_segment("device_id", "a\tb").unwrap_err();
    assert!(error.message.contains("'\\t'"), "{}", error.message);
    let error = path_segment("device_id", "..").unwrap_err();
    assert_eq!(error.code, ErrorCode::InvalidArgs);
}

#[test]
fn a_dot_segment_is_not_an_identifier() {
    for bad in [".", "..", "...", " .. "] {
        let error = path_segment("device_id", bad).expect_err("a dot segment");
        assert_eq!(error.code, ErrorCode::InvalidArgs, "{bad:?}");
    }
}

#[test]
fn each_platform_preference_is_offered_only_where_it_exists() {
    let linux_only: &[&str] = &["linux"];
    let windows_only: &[&str] = &["windows"];
    for (setting, platforms) in [
        ("snat_subnet_routes", linux_only),
        ("stateful_filtering", linux_only),
        ("netfilter_mode", linux_only),
        ("unattended", windows_only),
    ] {
        let allowed = platforms.contains(&"linux");
        assert_eq!(
            only_on(setting, platforms, "linux").is_ok(),
            allowed,
            "{setting} on linux"
        );
    }
    let error = only_on("unattended", windows_only, "linux").unwrap_err();
    assert_eq!(error.code, ErrorCode::UnsupportedPlatform);
    assert_eq!(error.message, "`unattended` is a windows preference, and this node runs linux");
}

#[test]
fn a_rate_limit_says_how_long_to_wait_when_it_was_told() {
    let told = ToolError::rate_limited(Some(30));
    assert_eq!(told.code, ErrorCode::RateLimited);
    assert_eq!(told.status, Some(429));
    assert_eq!(told.hint.as_deref(), Some("Wait 30 seconds before calling again."));
    let untold = ToolError::rate_limited(None);
    assert_eq!(untold.hint.as_deref(), Some("Wait a little before calling again."));
    assert_eq!(untold.message, "the control plane is limiting how often this credential may call it");
}
