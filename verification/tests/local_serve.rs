use tailscale_mcp::error::ErrorCode;
use tailscale_mcp::local_serve::{
    entries, funnel_off, funnel_set, one_endpoint, proxy_protocol, scope, serve_get_config,
    serve_off, serve_reset, serve_set, service_command, service_name, set_config_args,
    EndpointParams, FunnelOffParams, FunnelSetParams, GetConfigParams, Lifecycle, NoParams,
    ServeOffParams, ServeSetParams, ServiceParams,
};
use tailscale_mcp::meta::{Tier, Toolset};

#[test]
fn a_bare_service_name_is_given_the_prefix_the_client_insists_on() {
    assert_eq!(service_name("web"), "svc:web");
    assert_eq!(service_name("  web  "), "svc:web");
    assert_eq!(service_name("svc:web"), "svc:web");
}

#[test]
fn the_toolset_holds_the_ten_commands_that_publish_from_this_node() {
    let names: Vec<&str> = entries().iter().map(|e| e.meta.name).collect();
    assert_eq!(
        names,
        [
            "tailscale_serve_set",
            "tailscale_serve_off",
            "tailscale_serve_reset",
            "tailscale_serve_drain",
            "tailscale_serve_clear",
            "tailscale_serve_advertise",
            "tailscale_serve_get_config",
            "tailscale_serve_set_config",
            "tailscale_funnel_set",
            "tailscale_funnel_off",
        ]
    );
    for entry in entries() {
        assert_eq!(entry.meta.toolset, Toolset::LocalServe);
    }
}

#[test]
fn funnel_is_out_of_reach_until_the_destructive_tier_is_allowed() {
    for entry in entries() {
        if entry.meta.name.starts_with("tailscale_funnel_") {
            assert_eq!(
                entry.meta.tier,
                Tier::Destructive,
                "`{}` publishes to or unpublishes from the internet",
                entry.meta.name
            );
        }
    }
}

#[test]
fn serving_to_the_tailnet_needs_no_more_than_the_write_tier() {
    for name in [
        "tailscale_serve_set",
        "tailscale_serve_off",
        "tailscale_serve_drain",
        "tailscale_serve_advertise",
        "tailscale_serve_get_config",
        "tailscale_serve_set_config",
    ] {
        let entry = entries()
            .into_iter()
            .find(|e| e.meta.name == name)
            .expect("the tool is declared");
        assert!(
            entry.meta.tier <= Tier::Write,
            "`{name}` should not need the destructive tier"
        );
    }
}

#[test]
fn removing_everything_asks_first() {
    for name in [
        "tailscale_serve_reset",
        "tailscale_serve_clear",
        "tailscale_funnel_set",
    ] {
        let entry = entries()
            .into_iter()
            .find(|e| e.meta.name == name)
            .expect("the tool is declared");
        assert!(
            entry.meta.requires_confirmation,
            "`{name}` should not act without being asked twice"
        );
    }
}

#[test]
fn serving_runs_in_the_background_with_the_target_last() {
    let params = ServeSetParams {
        endpoints: EndpointParams {
            https: Some(443),
            ..EndpointParams::default()
        },
        target: "3000".to_owned(),
        service: Some("web".to_owned()),
        accept_app_caps: Some(vec!["example.com/cap/a".to_owned()]),
        tun: Some(true),
        ..ServeSetParams::default()
    };
    let plan = serve_set(&params).unwrap();
    assert_eq!(
        plan.args,
        [
            "serve",
            "--bg=true",
            "--yes=true",
            "--https=443",
            "--service=svc:web",
            "--accept-app-caps=example.com/cap/a",
            "--tun=true",
            "3000",
        ]
    );
    let report = plan.answer("Available within your tailnet:\n\nhttps://box.ts.net/\n", None);
    assert_eq!(report.url.as_deref(), Some("https://box.ts.net/"));
    assert_eq!(report.endpoint.as_deref(), Some("https:443"));
    assert_eq!(report.service.as_deref(), Some("svc:web"));
    assert!(!report.public);
}

#[test]
fn two_endpoints_are_refused_naming_both() {
    let error = one_endpoint(vec![("https", 443), ("tcp", 22)]).err().unwrap();
    assert_eq!(error.code, ErrorCode::InvalidArgs);
    assert_eq!(error.message, "name one endpoint, not 2: https:443, tcp:22");
    assert_eq!(one_endpoint(vec![]).unwrap(), None);
    assert_eq!(one_endpoint(vec![("http", 80)]).unwrap(), Some(("http", 80)));
}

#[test]
fn tun_needs_a_service() {
    let params = ServeSetParams {
        target: "3000".to_owned(),
        tun: Some(true),
        ..ServeSetParams::default()
    };
    let error = serve_set(&params).err().unwrap();
    assert!(error.message.contains("`tun`"));
}

#[test]
fn only_two_proxy_versions_exist() {
    assert_eq!(proxy_protocol(None).unwrap(), None);
    assert_eq!(
        proxy_protocol(Some(2)).unwrap().as_deref(),
        Some("--proxy-protocol=2")
    );
    assert_eq!(
        proxy_protocol(Some(3)).err().unwrap().message,
        "the PROXY protocol has versions 1 and 2, not 3"
    );
}

#[test]
fn a_configuration_exchange_names_one_scope() {
    assert!(scope(Some("web"), true).is_err());
    assert!(scope(None, false).is_err());
    assert_eq!(
        scope(Some("web"), false).unwrap(),
        ("--service=svc:web".to_owned(), "svc:web".to_owned())
    );
    assert_eq!(
        scope(None, true).unwrap(),
        ("--all=true".to_owned(), "all".to_owned())
    );
    let plan = serve_get_config(&GetConfigParams {
        service: None,
        all: true,
    })
    .unwrap();
    assert_eq!(plan.args, ["serve", "get-config", "--all=true"]);
    assert_eq!(
        set_config_args("--all=true", "/tmp/x/serve-config.json"),
        ["serve", "set-config", "--all=true", "/tmp/x/serve-config.json"]
    );
}

#[test]
fn turning_off_names_the_endpoint_and_ends_with_off() {
    let plan = serve_off(&ServeOffParams {
        http: Some(80),
        ..ServeOffParams::default()
    })
    .unwrap();
    assert_eq!(plan.args, ["serve", "--bg=true", "--yes=true", "--http=80", "off"]);
    let report = plan.answer("https://ignored/", None);
    assert_eq!(report.url, None);
    assert_eq!(report.target, "off");

    let plan = funnel_off(&FunnelOffParams::default()).unwrap();
    assert_eq!(plan.args, ["funnel", "--bg=true", "--yes=true", "off"]);
}

#[test]
fn funnel_is_public() {
    let plan = funnel_set(&FunnelSetParams {
        target: "8080".to_owned(),
        proxy_protocol: Some(1),
        ..FunnelSetParams::default()
    })
    .unwrap();
    assert_eq!(
        plan.args,
        ["funnel", "--bg=true", "--yes=true", "--proxy-protocol=1", "8080"]
    );
    assert!(plan.report.public);
}

#[test]
fn the_lifecycle_commands_differ_only_in_the_word() {
    let plan = service_command(
        Lifecycle::Drain,
        &ServiceParams {
            service: "web".to_owned(),
        },
    );
    assert_eq!(plan.args, ["serve", "drain", "svc:web"]);
    assert_eq!(plan.scope, "svc:web");
    let reset = serve_reset(&NoParams {});
    assert_eq!(reset.args, ["serve", "reset"]);
    assert_eq!(reset.scope, "this node");
}
