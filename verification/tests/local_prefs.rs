use tailscale_mcp::error::ErrorCode;
use tailscale_mcp::local_prefs::{
    connect_login_url, connect_timeouts, disconnect_report, down, entries, find_url, login,
    login_report, logout, prefs_get, prefs_set, switch_profile, switch_remove, switch_report, up,
    DownParams, LoginParams, LogoutParams, NetfilterMode, PrefsGetParams, PrefsSetParams,
    SharedPrefs, SwitchParams, SwitchRemoveParams, UpParams, ACCEPTED_RISKS,
    DEFAULT_CONNECT_TIMEOUT, MAX_CONNECT_TIMEOUT,
};
use tailscale_mcp::meta::{Tier, Toolset};

#[test]
fn a_wait_is_bounded_whatever_was_asked_for() {
    assert_eq!(connect_timeouts(None).0, DEFAULT_CONNECT_TIMEOUT);
    assert_eq!(connect_timeouts(Some(5)).0, 5);
    assert_eq!(connect_timeouts(Some(0)).0, 1);
    assert_eq!(connect_timeouts(Some(9_999)).0, MAX_CONNECT_TIMEOUT);
    // The client is given longer than the caller waits, in seconds.
    assert!(connect_timeouts(Some(60)).1 > 60);
}

#[test]
fn a_url_is_found_wherever_the_client_put_it_and_nowhere_else() {
    assert_eq!(
        find_url("To authenticate, visit:\n\n\thttps://login.example.com/a/00\n"),
        Some("https://login.example.com/a/00".to_owned())
    );
    assert_eq!(
        find_url("visit https://login.example.com/a/00, then come back."),
        Some("https://login.example.com/a/00".to_owned())
    );
    assert_eq!(find_url("Success.\n"), None);
}

#[test]
fn a_plain_http_address_is_not_a_login_url() {
    assert_eq!(find_url("see http://example.com for more"), None);
}

#[test]
fn the_toolset_holds_the_eight_commands_that_change_this_node() {
    let names: Vec<_> = entries().iter().map(|e| e.meta.name).collect();
    assert_eq!(
        names,
        [
            "tailscale_prefs_get",
            "tailscale_prefs_set",
            "tailscale_up",
            "tailscale_down",
            "tailscale_login",
            "tailscale_logout",
            "tailscale_switch_profile",
            "tailscale_switch_remove",
        ]
    );
}

#[test]
fn everything_that_can_cut_the_connection_asks_first() {
    for entry in entries() {
        let meta = &entry.meta;
        assert_eq!(meta.toolset, Toolset::LocalPrefs, "{}", meta.name);
        let severing = matches!(
            meta.name,
            "tailscale_up"
                | "tailscale_down"
                | "tailscale_login"
                | "tailscale_logout"
                | "tailscale_switch_profile"
        );
        assert_eq!(
            meta.self_severing, severing,
            "`{}` is on the wrong side of the self-severing line",
            meta.name
        );
        assert_eq!(
            meta.requires_confirmation,
            meta.tier != Tier::Read && meta.name != "tailscale_prefs_set",
            "`{}` confirms the wrong way round",
            meta.name
        );
    }
}

#[test]
fn reading_one_setting_renders_first_and_names_it_with_dashes() {
    let args = prefs_get(&PrefsGetParams {
        setting: Some("exit_node".to_owned()),
        as_set_flags: false,
    });
    assert_eq!(args, ["get", "--json=true", "exit-node"]);
    let args = prefs_get(&PrefsGetParams {
        setting: None,
        as_set_flags: true,
    });
    assert_eq!(args, ["get", "--set-flags=true"]);
}

#[test]
fn a_set_passes_exactly_what_was_named() {
    let params = PrefsSetParams {
        shared: SharedPrefs {
            accept_routes: Some(true),
            advertise_routes: Some(vec!["10.0.0.0/24".to_owned(), "10.1.0.0/24".to_owned()]),
            hostname: Some("box".to_owned()),
            ..SharedPrefs::default()
        },
        webclient: Some(false),
        relay_server_static_endpoints: Some(vec![]),
        ..PrefsSetParams::default()
    };
    let plan = prefs_set(&params, "linux").unwrap();
    assert_eq!(
        plan.applied,
        [
            "--accept-routes=true",
            "--advertise-routes=10.0.0.0/24,10.1.0.0/24",
            "--hostname=box",
            "--webclient=false",
            "--relay-server-static-endpoints=",
        ]
    );
    assert_eq!(plan.args[0], "set");
    assert_eq!(plan.args[1..], plan.applied[..]);
}

#[test]
fn a_set_of_nothing_is_refused() {
    let error = prefs_set(&PrefsSetParams::default(), "linux").err().unwrap();
    assert_eq!(error.code, ErrorCode::InvalidArgs);
    assert!(error.message.contains("at least one preference"));
}

#[test]
fn a_preference_from_another_platform_is_refused_naming_both() {
    let params = PrefsSetParams {
        shared: SharedPrefs {
            unattended: Some(true),
            ..SharedPrefs::default()
        },
        ..PrefsSetParams::default()
    };
    let error = prefs_set(&params, "linux").err().unwrap();
    assert_eq!(error.code, ErrorCode::UnsupportedPlatform);
    assert_eq!(
        error.message,
        "`unattended` is a windows preference, and this node runs linux"
    );
    let params = PrefsSetParams {
        shared: SharedPrefs {
            netfilter_mode: Some(NetfilterMode::Nodivert),
            ..SharedPrefs::default()
        },
        ..PrefsSetParams::default()
    };
    assert_eq!(
        prefs_set(&params, "linux").unwrap().applied,
        ["--netfilter-mode=nodivert"]
    );
    assert!(prefs_set(&params, "macos").is_err());
}

#[test]
fn up_is_bounded_accepts_the_risk_and_keeps_a_literal_key_off_the_command_line() {
    let params = UpParams {
        auth_key: Some("tskey-auth-secret".to_owned()),
        timeout_seconds: Some(9_999),
        ..UpParams::default()
    };
    let plan = up(&params, "linux").unwrap();
    assert_eq!(
        plan.args,
        ["up", "--json=true", "--timeout=300s", ACCEPTED_RISKS]
    );
    assert_eq!(plan.timeout_seconds, 300);
    assert_eq!(plan.child_seconds, 305);
    assert_eq!(plan.secret.as_deref(), Some("tskey-auth-secret"));
    assert!(!plan.args.iter().any(|a| a.contains("tskey")));
}

#[test]
fn a_key_by_reference_goes_on_the_command_line_as_it_is() {
    let params = LoginParams {
        auth_key: Some("file:/run/key".to_owned()),
        nickname: Some("work".to_owned()),
        ..LoginParams::default()
    };
    let plan = login(&params, "linux").unwrap();
    assert_eq!(
        plan.args,
        ["login", "--nickname=work", "--timeout=60s", "--auth-key=file:/run/key"]
    );
    assert_eq!(plan.secret, None);
}

#[test]
fn the_login_url_comes_from_the_document_before_the_prose() {
    assert_eq!(
        connect_login_url(Some("https://a.example/x"), "https://b.example/y"),
        Some("https://a.example/x".to_owned())
    );
    assert_eq!(
        connect_login_url(Some(""), "go to https://b.example/y."),
        Some("https://b.example/y".to_owned())
    );
    assert_eq!(connect_login_url(None, "nothing here"), None);
    let report = login_report("visit https://c.example/z".to_owned(), 60, None);
    assert_eq!(report.login_url.as_deref(), Some("https://c.example/z"));
}

#[test]
fn disconnecting_accepts_the_risk_and_carries_a_reason() {
    let args = down(&DownParams {
        reason: Some("maintenance".to_owned()),
    });
    assert_eq!(args, ["down", "--accept-risk=all", "--reason=maintenance"]);
    assert_eq!(logout(&LogoutParams { reason: None }), ["logout"]);
    assert_eq!(disconnect_report(true, None).outcome, "logged out");
    assert_eq!(disconnect_report(false, None).outcome, "disconnected");
}

#[test]
fn switching_names_the_account() {
    assert_eq!(
        switch_profile(&SwitchParams {
            account: "work".to_owned()
        }),
        ["switch", "work"]
    );
    assert_eq!(
        switch_remove(&SwitchRemoveParams {
            account: "old".to_owned()
        }),
        ["switch", "remove", "old"]
    );
    assert_eq!(switch_report("old".to_owned(), true, None).outcome, "removed");
}
