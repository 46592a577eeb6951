use tailscale_mcp::local_debug::{fixed_debug, FixedDebug, Reading};
use tailscale_mcp::common::{flag, push_bool};
use tailscale_mcp::error::ErrorCode;
use tailscale_mcp::path_policy::PathPolicy;
use tailscale_mcp::local_debug::{
    component_logs, daemon_bus_graph, default_component_log_seconds, excluded, parse_stat,
    portmap, stat, watch_ipn, watch_report, BusGraphFormat, ComponentLogsParams, DaemonBusGraphParams,
    ForcePreferDerpParams, PortmapParams, StatParams, ViaParams, WatchIpnParams,
    DEFAULT_COMPONENT_LOG_SECONDS, DEFAULT_WATCH_SECONDS, MAX_EVENTS, MAX_PORTMAP_SECONDS,
    MAX_WATCH_SECONDS,
};

fn watching(count: u32, timeout_seconds: Option<u64>) -> WatchIpnParams {
    WatchIpnParams {
        count,
        timeout_seconds,
        ..WatchIpnParams::default()
    }
}

#[test]
fn the_excluded_list_is_complete_and_says_why() {
    let list = excluded();
    assert_eq!(list.len(), 14, "fourteen of the forty-four are excluded");
    let mut paths = std::collections::BTreeSet::new();
    for excluded in &list {
        assert!(excluded.path.starts_with("debug "), "`{}`", excluded.path);
        assert!(excluded.reason.len() > 20, "`{}`", excluded.path);
        assert!(paths.insert(excluded.path), "`{}` twice", excluded.path);
    }
}

#[test]
fn a_stat_line_splits_from_the_right() {
    let entry = parse_stat("/etc/hosts: -rw-r--r--, 213").expect("a well-formed line");
    assert_eq!(entry.path, "/etc/hosts");
    assert_eq!(entry.mode, "-rw-r--r--");
    assert_eq!(entry.size, "213");

    let odd = parse_stat("/tmp/a: b, c/file: -rw-------, 0").expect("a path with separators");
    assert_eq!(odd.path, "/tmp/a: b, c/file");
    assert_eq!(odd.size, "0");

    assert!(parse_stat("something else entirely").is_none());
}

#[test]
fn the_watcher_honours_its_count_and_its_cap() {
    let plan = watch_ipn(&watching(3, None)).expect("a count");
    assert_eq!(plan.args, ["debug", "watch-ipn", "--count=3"]);
    assert_eq!(plan.asked_for, 3);
    assert_eq!(plan.seconds, DEFAULT_WATCH_SECONDS);
    let report = watch_report(&plan, "{\"Version\":\"1.102.2\"}\n", "");
    assert_eq!(report.asked_for, 3);
    assert_eq!(report.seconds, DEFAULT_WATCH_SECONDS);
    assert_eq!(report.events.len(), 1);

    let plan = watch_ipn(&watching(10_000, Some(10_000))).expect("a count");
    assert_eq!(
        plan.args,
        ["debug", "watch-ipn", &format!("--count={MAX_EVENTS}")]
    );
    assert_eq!(plan.asked_for, MAX_EVENTS);
    assert_eq!(plan.seconds, MAX_WATCH_SECONDS);
    assert_eq!(plan.child_seconds, MAX_WATCH_SECONDS + 5);
}

#[test]
fn a_count_of_zero_is_refused_rather_than_run() {
    let error = watch_ipn(&watching(0, None)).expect_err("zero never stops");
    assert_eq!(error.code, ErrorCode::InvalidArgs);
}

#[test]
fn the_watcher_passes_each_flag_it_was_given_in_order() {
    let plan = watch_ipn(&WatchIpnParams {
        count: 1,
        peer_changes: Some(false),
        initial_status: Some(true),
        ..WatchIpnParams::default()
    })
    .expect("a count");
    assert_eq!(
        plan.args,
        [
            "debug",
            "watch-ipn",
            "--count=1",
            "--peer-changes=false",
            "--initial-status=true"
        ]
    );
}

#[test]
fn the_bus_graph_asks_for_the_format_it_reports() {
    let (args, format) = daemon_bus_graph(&DaemonBusGraphParams { format: None });
    assert_eq!(args, ["debug", "daemon-bus-graph", "--format=json"]);
    assert_eq!(format, BusGraphFormat::Json);
    let (args, format) = daemon_bus_graph(&DaemonBusGraphParams {
        format: Some(BusGraphFormat::Dot),
    });
    assert_eq!(args, ["debug", "daemon-bus-graph", "--format=dot"]);
    assert_eq!(format.as_str(), "dot");
}

#[test]
fn the_two_conversions_via_offers_are_told_apart_before_anything_runs() {
    let args = tailscale_mcp::local_debug::via(&ViaParams {
        site_id: Some(7),
        prefix: Some("10.1.0.0/16".to_owned()),
        route: None,
    })
    .expect("a route to build");
    assert_eq!(args, ["debug", "via", "7", "10.1.0.0/16"]);

    let args = tailscale_mcp::local_debug::via(&ViaParams {
        site_id: None,
        prefix: None,
        route: Some("fd7a:115c:a1e0:b1a:0:7:a01:0/112".to_owned()),
    })
    .expect("a route to take apart");
    assert_eq!(args, ["debug", "via", "fd7a:115c:a1e0:b1a:0:7:a01:0/112"]);

    for mixture in [
        ViaParams { site_id: Some(7), prefix: None, route: None },
        ViaParams {
            site_id: Some(7),
            prefix: Some("10.1.0.0/16".to_owned()),
            route: Some("fd7a::/112".to_owned()),
        },
        ViaParams { site_id: None, prefix: None, route: None },
    ] {
        let error = tailscale_mcp::local_debug::via(&mixture).expect_err("a mixture");
        assert_eq!(error.code, ErrorCode::InvalidArgs);
    }
}

#[test]
fn the_portmap_overrides_are_refused_one_at_a_time() {
    for lonely in [
        PortmapParams { gateway_addr: Some("192.0.2.1".to_owned()), ..PortmapParams::default() },
        PortmapParams { self_addr: Some("192.0.2.2".to_owned()), ..PortmapParams::default() },
    ] {
        let error = portmap(&lonely).expect_err("a lone override");
        assert_eq!(error.code, ErrorCode::InvalidArgs);
    }
    let plan = portmap(&PortmapParams {
        duration_seconds: Some(10_000),
        probe_type: Some("upnp".to_owned()),
        gateway_addr: Some("192.0.2.1".to_owned()),
        self_addr: Some("192.0.2.2".to_owned()),
        log_http: Some(false),
    })
    .expect("both overrides");
    assert_eq!(
        plan.args,
        [
            "debug",
            "portmap",
            &format!("--duration={MAX_PORTMAP_SECONDS}s"),
            "--type=upnp",
            "--gateway-addr=192.0.2.1",
            "--self-addr=192.0.2.2",
            "--log-http=false"
        ]
    );
}

#[test]
fn turning_component_logging_off_says_so_rather_than_saying_how_long_for() {
    let plan = component_logs(&ComponentLogsParams {
        component: "magicsock".to_owned(),
        for_seconds: default_component_log_seconds(),
    });
    assert_eq!(
        plan.args,
        [
            "debug",
            "component-logs",
            &format!("--for={DEFAULT_COMPONENT_LOG_SECONDS}s"),
            "magicsock"
        ]
    );
    assert!(plan.outcome.contains("is on"));

    let plan = component_logs(&ComponentLogsParams {
        component: "magicsock".to_owned(),
        for_seconds: 0,
    });
    assert_eq!(plan.args, ["debug", "component-logs", "--for=0s", "magicsock"]);
    assert_eq!(plan.outcome, "verbose logging for `magicsock` is off");

    let plan = component_logs(&ComponentLogsParams {
        component: "sockstats".to_owned(),
        for_seconds: -5,
    });
    assert_eq!(plan.args[2], "--for=-5s");
}

#[test]
fn pinning_a_relay_region_and_letting_it_go_read_differently() {
    let plan = tailscale_mcp::local_debug::force_prefer_derp(&ForcePreferDerpParams { region_id: 0 });
    assert_eq!(plan.args, ["debug", "force-prefer-derp", "0"]);
    assert!(plan.outcome.contains("free to choose"));
    let plan = tailscale_mcp::local_debug::force_prefer_derp(&ForcePreferDerpParams { region_id: 2 });
    assert!(plan.outcome.contains("region 2"));
}

#[test]
fn stat_refuses_an_empty_list_and_a_stream() {
    let error = stat(&PathPolicy::default(), &StatParams { paths: Vec::new() }).expect_err("no paths");
    assert_eq!(error.code, ErrorCode::InvalidArgs);
    let error = stat(&PathPolicy::default(), &StatParams { paths: vec!["-".to_owned()] }).expect_err("a stream");
    assert_eq!(error.code, ErrorCode::InvalidArgs);
    let args = stat(&PathPolicy::default(), &StatParams { paths: vec![" /etc/hosts ".to_owned()] }).expect("a path");
    assert_eq!(args, ["debug", "stat", "/etc/hosts"]);
}

#[test]
fn the_stat_table_is_read_line_by_line() {
    let entries = tailscale_mcp::local_debug::stat_entries(
        "/etc/hosts: -rw-r--r--, 213\nnot a line\n/tmp: drwxrwxrwt, 4096\n",
    );
    assert_eq!(entries.len(), 2);
    assert_eq!(entries[1].path, "/tmp");
    assert_eq!(
        tailscale_mcp::local_debug::addresses("  100.64.0.1 \n\n fd7a::1\n"),
        ["100.64.0.1", "fd7a::1"]
    );
}

#[test]
fn a_boolean_flag_is_joined_to_its_value() {
    assert_eq!(flag("json", true), "--json=true");
    let mut args = vec!["x".to_owned()];
    push_bool(&mut args, "ssh", None);
    push_bool(&mut args, "ssh", Some(false));
    assert_eq!(args, ["x", "--ssh=false"]);
}

#[test]
fn the_toolset_is_twenty_two_readers_and_eight_knobs() {
    let all = tailscale_mcp::local_debug::entries();
    assert_eq!(all.len(), 30, "the debug toolset is thirty tools");
    let readers = all
        .iter()
        .filter(|e| e.meta.tier == tailscale_mcp::meta::Tier::Read)
        .count();
    let knobs = all
        .iter()
        .filter(|e| e.meta.tier == tailscale_mcp::meta::Tier::Write)
        .count();
    assert_eq!(readers, 22, "twenty-two readers");
    assert_eq!(knobs, 8, "eight knobs");
    assert_eq!(readers + knobs, all.len(), "a debug tool is a reader or a knob");
}

#[test]
fn every_tool_is_in_the_debug_toolset() {
    for entry in tailscale_mcp::local_debug::entries() {
        assert_eq!(
            entry.meta.toolset,
            tailscale_mcp::meta::Toolset::LocalDebug,
            "`{}` is declared elsewhere",
            entry.meta.name
        );
    }
}

#[test]
fn nothing_here_needs_a_confirmation() {
    for entry in tailscale_mcp::local_debug::entries() {
        assert!(
            !entry.meta.requires_confirmation,
            "`{}` asks for a confirmation it does not need",
            entry.meta.name
        );
    }
}

#[test]
fn no_excluded_command_is_also_declared_as_a_tool() {
    let declared: std::collections::BTreeSet<String> = tailscale_mcp::local_debug::entries()
        .iter()
        .map(|e| {
            e.meta
                .name
                .replace("tailscale_debug_", "debug ")
                .replace('_', "-")
        })
        .collect();
    for excluded in excluded() {
        assert!(
            !declared.contains(excluded.path),
            "`{}` is both excluded and offered",
            excluded.path
        );
    }
}

#[test]
fn the_fixed_commands_are_found_by_tool_name() {
    let derp_map = fixed_debug("tailscale_debug_derp_map").expect("a fixed command");
    assert_eq!(derp_map, FixedDebug::DerpMap);
    assert_eq!(derp_map.args(), ["debug", "derp-map"]);
    assert_eq!(derp_map.reading(), Reading::Object);
    assert_eq!(derp_map.outcome(), None);
    let files = fixed_debug("tailscale_debug_file_list").unwrap();
    assert_eq!(files.args(), ["debug", "--file=get"]);
    let rebind = fixed_debug("tailscale_debug_rebind").unwrap();
    assert_eq!(rebind.reading(), Reading::Knob);
    assert_eq!(rebind.outcome(), Some("the node was told to rebind its sockets"));
    assert_eq!(fixed_debug("tailscale_debug_stat"), None);
    for entry in tailscale_mcp::local_debug::entries() {
        if let Some(fixed) = fixed_debug(entry.meta.name) {
            assert_eq!(fixed.reading() == Reading::Knob, entry.meta.tier == tailscale_mcp::meta::Tier::Write, "{}", entry.meta.name);
        }
    }
}
