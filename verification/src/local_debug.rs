//! The debug toolset: what tailscaled will say about itself, and what it will
//! be told to do again.
//!
//! `tailscale debug` is hidden and "not a stable interface", so this toolset
//! is reached only by naming it. Twenty-two tools read what the daemon
//! currently believes and eight knobs make it do something over again.

use vstd::prelude::*;
pub use crate::common::Excluded;
use crate::registry::{ToolEntry, ToolMeta};
use crate::meta::{Tier, Toolset};

use crate::common::{
    arg, bool_seq, bounded_wait, command, flag_seq, flag_text, opt_bool, opt_str, opt_string_view,
    opt_text, path_usable, push_bool, push_text, real_path, wait_seconds, GRACE,
};
use crate::error::{ErrorCode, ToolError, ToolResult};
use crate::path_policy::PathPolicy;
use crate::text::{
    cat3, cat4, chars_of, decimal, decimal_text, owned, signed_decimal, signed_text, slice,
    trim_seq,
};

verus! {

/// Every `debug` subcommand that never becomes a tool, with the reason for
/// each. The passthrough refuses these, so a toolset that is off is not a way
/// in.
pub open spec fn excluded_rows() -> Seq<Excluded> {
    seq![
        Excluded {
            path: "debug prefs",
            reason: "it prints the node's private keys along with its preferences; `tailscale_debug_netmap` and the preference tools report the rest",
        },
        Excluded {
            path: "debug local-creds",
            reason: "it prints the credential for reaching tailscaled's private HTTP interface, which this server never uses",
        },
        Excluded {
            path: "debug env",
            reason: "it prints the whole process environment, which is where secrets for other services live",
        },
        Excluded {
            path: "debug localapi",
            reason: "it calls tailscaled's private HTTP interface directly, which this server does not do at all",
        },
        Excluded {
            path: "debug daemon-logs",
            reason: "it streams the daemon log until interrupted and has no bounded form",
        },
        Excluded {
            path: "debug daemon-bus-events",
            reason: "it streams bus events until interrupted and has no bounded form",
        },
        Excluded {
            path: "debug capture",
            reason: "it streams a packet capture of tunnel traffic until interrupted, and launches a separate application when given no path",
        },
        Excluded {
            path: "debug test-risk",
            reason: "it exists to test the client's interactive risk prompt, which a tool call cannot answer",
        },
        Excluded {
            path: "debug set-expire",
            reason: "it expires the local node's key, cutting this server off from the tailnet; re-authenticate deliberately instead",
        },
        Excluded {
            path: "debug break-tcp-conns",
            reason: "its purpose is to break the daemon's connections",
        },
        Excluded {
            path: "debug break-derp-conns",
            reason: "its purpose is to break the daemon's relay connections",
        },
        Excluded {
            path: "debug derp-set-on-demand",
            reason: "it makes the node reachable only after a delay; `tailscale_debug_derp_unset_on_demand` undoes it if something else did it",
        },
        Excluded {
            path: "debug clear-netmap-cache",
            reason: "it deletes the cached netmaps the node falls back on when the control plane is unreachable",
        },
        Excluded {
            path: "debug dev-store-set",
            reason: "it writes directly into tailscaled's state store, behind every check the rest of the client makes",
        },
    ]
}

pub fn excluded() -> (r: Vec<Excluded>)
    ensures
        r@ == excluded_rows(),
{
    let rows = vec![
        Excluded {
            path: "debug prefs",
            reason: "it prints the node's private keys along with its preferences; `tailscale_debug_netmap` and the preference tools report the rest",
        },
        Excluded {
            path: "debug local-creds",
            reason: "it prints the credential for reaching tailscaled's private HTTP interface, which this server never uses",
        },
        Excluded {
            path: "debug env",
            reason: "it prints the whole process environment, which is where secrets for other services live",
        },
        Excluded {
            path: "debug localapi",
            reason: "it calls tailscaled's private HTTP interface directly, which this server does not do at all",
        },
        Excluded {
            path: "debug daemon-logs",
            reason: "it streams the daemon log until interrupted and has no bounded form",
        },
        Excluded {
            path: "debug daemon-bus-events",
            reason: "it streams bus events until interrupted and has no bounded form",
        },
        Excluded {
            path: "debug capture",
            reason: "it streams a packet capture of tunnel traffic until interrupted, and launches a separate application when given no path",
        },
        Excluded {
            path: "debug test-risk",
            reason: "it exists to test the client's interactive risk prompt, which a tool call cannot answer",
        },
        Excluded {
            path: "debug set-expire",
            reason: "it expires the local node's key, cutting this server off from the tailnet; re-authenticate deliberately instead",
        },
        Excluded {
            path: "debug break-tcp-conns",
            reason: "its purpose is to break the daemon's connections",
        },
        Excluded {
            path: "debug break-derp-conns",
            reason: "its purpose is to break the daemon's relay connections",
        },
        Excluded {
            path: "debug derp-set-on-demand",
            reason: "it makes the node reachable only after a delay; `tailscale_debug_derp_unset_on_demand` undoes it if something else did it",
        },
        Excluded {
            path: "debug clear-netmap-cache",
            reason: "it deletes the cached netmaps the node falls back on when the control plane is unreachable",
        },
        Excluded {
            path: "debug dev-store-set",
            reason: "it writes directly into tailscaled's state store, behind every check the rest of the client makes",
        },
    ];
    assert(rows@ =~= excluded_rows());
    rows
}


/// A tool that takes nothing.
#[derive(Debug, Default)]
pub struct NoParams {}

// ---------------------------------------------------------------------------
// Reports
// ---------------------------------------------------------------------------

/// What a command that prints prose rather than a document had to say.
#[derive(Debug)]
pub struct TextReport {
    pub printed: Option<String>,
}

/// A single path this server was asked about.
#[derive(Debug, PartialEq, Eq)]
pub struct StatEntry {
    pub path: String,
    pub mode: String,
    pub size: String,
}

#[derive(Debug)]
pub struct StatReport {
    pub entries: Vec<StatEntry>,
    pub printed: Option<String>,
}

#[derive(Debug)]
pub struct AddressReport {
    pub addresses: Vec<String>,
    pub printed: Option<String>,
}

#[derive(Debug)]
pub struct PathReport {
    pub path: String,
}

/// What `debug via` made of its arguments: the one line it printed.
#[derive(Debug)]
pub struct ViaReport {
    pub converted: String,
}

/// What a knob did, which is never more than "the daemon was told".
#[derive(Debug)]
pub struct KnobReport {
    pub outcome: String,
    pub printed: Option<String>,
}

// ---------------------------------------------------------------------------
// Parameters
// ---------------------------------------------------------------------------

#[derive(Debug, Default)]
pub struct DaemonBusGraphParams {
    /// `json` for a document, or `dot` for a Graphviz drawing returned as text.
    pub format: Option<BusGraphFormat>,
}

#[derive(Debug, Clone, Copy, PartialEq, Eq, Structural)]
pub enum BusGraphFormat {
    Json,
    Dot,
}

impl BusGraphFormat {
    pub open spec fn spec_name(self) -> Seq<char> {
        match self {
            BusGraphFormat::Json => "json"@,
            BusGraphFormat::Dot => "dot"@,
        }
    }

    pub fn as_str(self) -> (r: &'static str)
        ensures
            r@ == self.spec_name(),
    {
        match self {
            BusGraphFormat::Json => "json",
            BusGraphFormat::Dot => "dot",
        }
    }
}

#[derive(Debug, Default)]
pub struct StatParams {
    /// Paths on the local filesystem to report on. At least one.
    pub paths: Vec<String>,
}

#[derive(Debug, Default)]
pub struct ViaParams {
    /// The site's numeric identifier. Give this with `prefix` to build a route.
    pub site_id: Option<u32>,
    /// The site's IPv4 prefix, such as `10.1.0.0/16`. Needs `site_id`.
    pub prefix: Option<String>,
    /// An IPv6 `via` route to take apart. Give this on its own.
    pub route: Option<String>,
}

/// The client's own default for how long to wait, and the longest this server
/// will hold a call open for one.
pub const DEFAULT_WATCH_SECONDS: u64 = 30;
pub const MAX_WATCH_SECONDS: u64 = 300;
pub const MAX_EVENTS: u32 = 100;

#[derive(Debug, Default)]
pub struct WatchIpnParams {
    /// How many notifications to wait for before returning. Required, because
    /// without one the command never ends. Capped at 100.
    pub count: u32,
    /// How long to wait for them, in seconds. Defaults to 30, capped at 300.
    pub timeout_seconds: Option<u64>,
    pub engine_updates: Option<bool>,
    pub health_actions: Option<bool>,
    pub peer_changes: Option<bool>,
    pub peer_patches: Option<bool>,
    pub peer_wireguard_state: Option<bool>,
    pub initial_client_version: Option<bool>,
    pub initial_drive_shares: Option<bool>,
    pub initial_health: Option<bool>,
    pub initial_outgoing_files: Option<bool>,
    pub initial_status: Option<bool>,
    pub initial_suggested_exit_node: Option<bool>,
}

#[derive(Debug, Default)]
pub struct PeerParams {
    /// The peer, by hostname or Tailscale IP address.
    pub peer: String,
}

#[derive(Debug, Default)]
pub struct ResolveParams {
    /// The hostname to look up.
    pub host: String,
    /// Which addresses to ask for: `ip`, `ip4` or `ip6`. Defaults to `ip`.
    pub net: Option<String>,
}

#[derive(Debug, Default)]
pub struct DialTypesParams {
    /// The host or IP address to dial.
    pub host: String,
    /// The port to dial.
    pub port: u16,
    /// The network to dial: `tcp`, `udp` and so on. Defaults to `tcp`.
    pub network: Option<String>,
}

#[derive(Debug, Default)]
pub struct Ts2021Params {
    /// The control-plane host to test against. Defaults to the real one.
    pub host: Option<String>,
    /// The protocol version to speak. Defaults to the client's own.
    pub version: Option<u32>,
    /// An ACE server address to offer as a candidate path.
    pub ace: Option<String>,
    /// A file on the local filesystem holding a dial plan as JSON.
    pub dial_plan: Option<String>,
    /// Report every step of the exchange rather than the outcome.
    pub verbose: Option<bool>,
}

/// The client's own default probe length, and the longest this server will
/// hold a call open for one.
pub const DEFAULT_PORTMAP_SECONDS: u64 = 5;
pub const MAX_PORTMAP_SECONDS: u64 = 120;

#[derive(Debug, Default)]
pub struct PortmapParams {
    /// How long to probe for, in seconds. Defaults to 5, capped at 120.
    pub duration_seconds: Option<u64>,
    /// Probe only one protocol: `pmp`, `pcp` or `upnp`. All three by default.
    /// The `--type` flag of the client.
    pub probe_type: Option<String>,
    /// Probe this gateway rather than the one the daemon found. Must be given
    /// together with `self_addr`.
    pub gateway_addr: Option<String>,
    /// The address to claim as this node's own. Must be given together with
    /// `gateway_addr`.
    pub self_addr: Option<String>,
    /// Report every HTTP request and response the probe made.
    pub log_http: Option<bool>,
}

/// The client's own default, which is what an unspecified call should do.
pub const DEFAULT_COMPONENT_LOG_SECONDS: i64 = 3600;

pub fn default_component_log_seconds() -> (r: i64)
    ensures
        r == DEFAULT_COMPONENT_LOG_SECONDS,
{
    DEFAULT_COMPONENT_LOG_SECONDS
}

#[derive(Debug)]
pub struct ComponentLogsParams {
    /// Which component to log: `magicsock`, `sockstats` or `syspolicy`.
    pub component: String,
    /// For how long, in seconds. Zero or negative turns the logging off again.
    pub for_seconds: i64,
}

#[derive(Debug)]
pub struct ForcePreferDerpParams {
    /// The DERP region to pin the node to, or 0 to un-pin it.
    pub region_id: i32,
}

// ---------------------------------------------------------------------------
// Plans
// ---------------------------------------------------------------------------

/// A command bounded in time: what to run, the bound the caller is told
/// about, and the longer one the child is given.
#[derive(Debug)]
pub struct BoundedCommand {
    pub args: Vec<String>,
    pub seconds: u64,
    pub child_seconds: u64,
}

/// What `watch-ipn` will run, and the count it was asked for after capping.
#[derive(Debug)]
pub struct WatchPlan {
    pub args: Vec<String>,
    pub asked_for: u32,
    pub seconds: u64,
    pub child_seconds: u64,
}

/// What `watch-ipn` answers.
pub struct WatchReport {
    /// The notifications that arrived, in the order they were published.
    pub events: Vec<serde_json::Value>,
    /// How many were asked for.
    pub asked_for: u32,
    /// The bound the call was given, in seconds.
    pub seconds: u64,
    pub note: Option<String>,
}

/// The answer to a watch: the notifications read one at a time from what the
/// command printed, which is one document after another rather than one
/// document, stopping at one cut short when the bound ended the command.
pub fn watch_report(plan: &WatchPlan, stdout: &str, stderr: &str) -> (r: WatchReport)
    ensures
        r.events@ == crate::json::stream_values(stdout@),
        r.asked_for == plan.asked_for,
        r.seconds == plan.seconds,
        trim_seq(stderr@).len() == 0 ==> r.note is None,
        trim_seq(stderr@).len() > 0 ==> (r.note matches Some(n) && n@ == trim_seq(stderr@)),
{
    WatchReport {
        events: crate::json::documents(stdout),
        asked_for: plan.asked_for,
        seconds: plan.seconds,
        note: crate::common::note(stderr),
    }
}

/// What a knob runs, and what the report will say it did.
#[derive(Debug)]
pub struct KnobPlan {
    pub args: Vec<String>,
    pub outcome: String,
}

pub open spec fn seqs2(a: Seq<char>, b: Seq<char>) -> Seq<Seq<char>> {
    seq![a, b]
}

/// `debug daemon-bus-graph --format=…`, JSON unless the caller asked for a
/// drawing.
pub fn daemon_bus_graph(params: &DaemonBusGraphParams) -> (r: (Vec<String>, BusGraphFormat))
    ensures
        r.1 == (match params.format {
            Some(f) => f,
            None => BusGraphFormat::Json,
        }),
        r.0.deep_view() == seq!["debug"@, "daemon-bus-graph"@, flag_seq("format"@, r.1.spec_name())],
{
    let format = match params.format {
        Some(f) => f,
        None => BusGraphFormat::Json,
    };
    let mut args = command(&["debug", "daemon-bus-graph"]);
    let f = flag_text("format", format.as_str());
    arg(&mut args, f.as_str());
    assert(args.deep_view() =~= seq!["debug"@, "daemon-bus-graph"@, flag_seq("format"@, format.spec_name())]);
    (args, format)
}

pub open spec fn all_real(policy: PathPolicy, paths: Seq<Seq<char>>) -> bool {
    forall|i: int| 0 <= i < paths.len() ==> path_usable(policy, #[trigger] paths[i])
}

/// `debug stat` on the paths given, each checked and trimmed.
pub fn stat(policy: &PathPolicy, params: &StatParams) -> (r: ToolResult<Vec<String>>)
    ensures
        r is Ok <==> params.paths@.len() > 0 && all_real(*policy, params.paths.deep_view()),
        r matches Ok(args) ==> args.deep_view() == seq!["debug"@, "stat"@] + params.paths.deep_view().map_values(
            |p: Seq<char>| trim_seq(p),
        ),
        r matches Err(e) ==> if params.paths@.len() == 0 {
            e.code == ErrorCode::InvalidArgs && e.message@
                == "`paths` needs at least one path to report on"@
        } else {
            crate::common::first_path_refusal(*policy, "paths"@, params.paths.deep_view(), e)
        },
{
    if params.paths.len() == 0 {
        return Err(ToolError::invalid_args(owned("`paths` needs at least one path to report on")));
    }
    let mut args = command(&["debug", "stat"]);
    let ghost start = args.deep_view();
    let mut i: usize = 0;
    while i < params.paths.len()
        invariant
            i <= params.paths@.len(),
            start == seq!["debug"@, "stat"@],
            all_real(*policy, params.paths.deep_view().take(i as int)),
            args.deep_view() == start + params.paths.deep_view().take(i as int).map_values(
                |p: Seq<char>| trim_seq(p),
            ),
        decreases params.paths.len() - i,
    {
        assert(params.paths.deep_view()[i as int] == params.paths[i as int]@);
        let path = match real_path(policy, "paths", params.paths[i].as_str()) {
            Ok(v) => v,
            Err(e) => {
                proof {
                    assert forall|j: int| 0 <= j < i implies crate::common::path_usable(*policy, #[trigger] params.paths.deep_view()[j]) by {
                        assert(params.paths.deep_view().take(i as int)[j] == params.paths.deep_view()[j]);
                    }
                    assert(crate::common::path_refusal(*policy, "paths"@, params.paths.deep_view()[i as int], e));
                }
                return Err(e);
            },
        };
        arg(&mut args, path.as_str());
        assert(params.paths.deep_view().take(i + 1) =~= params.paths.deep_view().take(i as int).push(params.paths[i as int]@));
        assert(params.paths.deep_view().take(i + 1).map_values(|p: Seq<char>| trim_seq(p)) =~= params.paths.deep_view().take(i as int).map_values(|p: Seq<char>| trim_seq(p)).push(trim_seq(params.paths[i as int]@)));
        i = i + 1;
    }
    assert(params.paths.deep_view().take(i as int) =~= params.paths.deep_view());
    Ok(args)
}


/// One `path: mode, size` line, split from the right, because a path may hold
/// a colon and a comma but the mode and size that follow it may not.
pub open spec fn stat_line(line: Seq<char>) -> Option<(Seq<char>, Seq<char>, Seq<char>)> {
    match crate::text::rsplit_once_seq(trim_seq(line), ": "@) {
        None => None,
        Some((path, rest)) => match crate::text::rsplit_once_seq(rest, ", "@) {
            None => None,
            Some((mode, size)) => Some((path, mode, size)),
        },
    }
}

pub open spec fn entry_view(e: StatEntry) -> (Seq<char>, Seq<char>, Seq<char>) {
    (e.path@, e.mode@, e.size@)
}

pub fn parse_stat(line: &str) -> (r: Option<StatEntry>)
    ensures
        match stat_line(line@) {
            Some(t) => r matches Some(e) && entry_view(e) == t,
            None => r is None,
        },
{
    proof {
        reveal_strlit(": ");
        reveal_strlit(", ");
    }
    let trimmed = crate::text::trim(line);
    let (path, rest) = match crate::text::rsplit_once(trimmed.as_str(), ": ") {
        Some(pair) => pair,
        None => {
            return None;
        },
    };
    let (mode, size) = match crate::text::rsplit_once(rest.as_str(), ", ") {
        Some(pair) => pair,
        None => {
            return None;
        },
    };
    Some(StatEntry { path, mode, size })
}

/// The entries of every line that reads as one, in order.
pub open spec fn stat_entries_of(ls: Seq<Seq<char>>) -> Seq<(Seq<char>, Seq<char>, Seq<char>)>
    decreases ls.len(),
{
    if ls.len() == 0 {
        seq![]
    } else {
        let before = stat_entries_of(ls.drop_last());
        match stat_line(ls.last()) {
            Some(t) => before.push(t),
            None => before,
        }
    }
}

/// What `debug stat` printed, read line by line.
pub fn stat_entries(stdout: &str) -> (r: Vec<StatEntry>)
    ensures
        r@.map_values(|e: StatEntry| entry_view(e)) == stat_entries_of(crate::text::lines_seq(stdout@)),
{
    let all = crate::text::lines(stdout);
    let ghost ls = all.deep_view();
    let mut found: Vec<StatEntry> = Vec::new();
    let mut i: usize = 0;
    while i < all.len()
        invariant
            ls == all.deep_view(),
            ls == crate::text::lines_seq(stdout@),
            i <= ls.len(),
            found@.map_values(|e: StatEntry| entry_view(e)) == stat_entries_of(ls.take(i as int)),
        decreases all.len() - i,
    {
        assert(ls.take(i + 1).drop_last() =~= ls.take(i as int));
        assert(ls.take(i + 1).last() == all[i as int]@);
        let ghost before = found@;
        if let Some(entry) = parse_stat(all[i].as_str()) {
            found.push(entry);
            assert(found@.map_values(|e: StatEntry| entry_view(e)) =~= before.map_values(|e: StatEntry| entry_view(e)).push(stat_line(all[i as int]@)->0));
        }
        i = i + 1;
    }
    assert(ls.take(i as int) =~= ls);
    found
}

/// The two conversions `debug via` offers, told apart before anything runs:
/// `site_id` with `prefix` builds a route, `route` alone takes one apart.
pub fn via(params: &ViaParams) -> (r: ToolResult<Vec<String>>)
    ensures
        match (params.site_id, opt_string_view(params.prefix), opt_string_view(params.route)) {
            (Some(id), Some(prefix), None) => r matches Ok(args) && args.deep_view() == seq![
                "debug"@,
                "via"@,
                decimal(id as nat),
                prefix,
            ],
            (None, None, Some(route)) => r matches Ok(args) && args.deep_view() == seq![
                "debug"@,
                "via"@,
                route,
            ],
            (None, None, None) => r matches Err(e) && e.code == ErrorCode::InvalidArgs && e.message@
                == "give `site_id` and `prefix` to build a route, or `route` to take one apart"@,
            _ => r matches Err(e) && e.code == ErrorCode::InvalidArgs && e.message@
                == "`site_id` and `prefix` go together and neither goes with `route`"@,
        },
{
    match (params.site_id, &params.prefix, &params.route) {
        (Some(site_id), Some(prefix), None) => {
            let mut args = command(&["debug", "via"]);
            let id = decimal_text(site_id as u64);
            arg(&mut args, id.as_str());
            arg(&mut args, prefix.as_str());
            Ok(args)
        },
        (None, None, Some(route)) => {
            let mut args = command(&["debug", "via"]);
            arg(&mut args, route.as_str());
            Ok(args)
        },
        (None, None, None) => Err(
            ToolError::invalid_args(
                owned("give `site_id` and `prefix` to build a route, or `route` to take one apart"),
            ),
        ),
        _ => Err(
            ToolError::invalid_args(
                owned("`site_id` and `prefix` go together and neither goes with `route`"),
            ),
        ),
    }
}

/// The flags of `watch-ipn` that ask for more in each notification or in
/// the first one, in the order they are passed.
pub open spec fn watch_flags(p: WatchIpnParams) -> Seq<Seq<char>> {
    opt_bool("engine-updates"@, p.engine_updates) + opt_bool("health-actions"@, p.health_actions)
        + opt_bool("peer-changes"@, p.peer_changes) + opt_bool("peer-patches"@, p.peer_patches)
        + opt_bool("peer-wireguard-state"@, p.peer_wireguard_state) + opt_bool(
        "initial-client-version"@,
        p.initial_client_version,
    ) + opt_bool("initial-drive-shares"@, p.initial_drive_shares) + opt_bool(
        "initial-health"@,
        p.initial_health,
    ) + opt_bool("initial-outgoing-files"@, p.initial_outgoing_files) + opt_bool(
        "initial-status"@,
        p.initial_status,
    ) + opt_bool("initial-suggested-exit-node"@, p.initial_suggested_exit_node)
}

/// Watch the node's notifications until `count` of them have arrived or the
/// bound expires. A count of zero is the client's "never stop", and is
/// refused; a larger count than 100 is capped.
pub fn watch_ipn(params: &WatchIpnParams) -> (r: ToolResult<WatchPlan>)
    ensures
        r is Ok <==> params.count > 0,
        r matches Err(e) ==> e.code == ErrorCode::InvalidArgs && e.message@
            == "`count` must be at least 1: the client reads zero as \"never stop\""@,
        r matches Ok(plan) ==> {
            &&& plan.asked_for == (if params.count < MAX_EVENTS {
                params.count
            } else {
                MAX_EVENTS
            })
            &&& plan.seconds == wait_seconds(
                params.timeout_seconds,
                DEFAULT_WATCH_SECONDS,
                MAX_WATCH_SECONDS,
            )
            &&& plan.child_seconds == plan.seconds + GRACE
            &&& plan.args.deep_view() == seq![
                "debug"@,
                "watch-ipn"@,
                flag_seq("count"@, decimal(plan.asked_for as nat)),
            ] + watch_flags(*params)
        },
{
    if params.count == 0 {
        return Err(
            ToolError::invalid_args(
                owned("`count` must be at least 1: the client reads zero as \"never stop\""),
            ),
        );
    }
    let count = if params.count < MAX_EVENTS {
        params.count
    } else {
        MAX_EVENTS
    };
    let (seconds, child_seconds) = bounded_wait(
        params.timeout_seconds,
        DEFAULT_WATCH_SECONDS,
        MAX_WATCH_SECONDS,
    );
    let mut args = command(&["debug", "watch-ipn"]);
    let n = decimal_text(count as u64);
    let f = flag_text("count", n.as_str());
    arg(&mut args, f.as_str());
    let ghost start = args.deep_view();
    push_bool(&mut args, "engine-updates", params.engine_updates);
    push_bool(&mut args, "health-actions", params.health_actions);
    push_bool(&mut args, "peer-changes", params.peer_changes);
    push_bool(&mut args, "peer-patches", params.peer_patches);
    push_bool(&mut args, "peer-wireguard-state", params.peer_wireguard_state);
    push_bool(&mut args, "initial-client-version", params.initial_client_version);
    push_bool(&mut args, "initial-drive-shares", params.initial_drive_shares);
    push_bool(&mut args, "initial-health", params.initial_health);
    push_bool(&mut args, "initial-outgoing-files", params.initial_outgoing_files);
    push_bool(&mut args, "initial-status", params.initial_status);
    push_bool(&mut args, "initial-suggested-exit-node", params.initial_suggested_exit_node);
    assert(args.deep_view() =~= start + watch_flags(*params));
    Ok(WatchPlan { args, asked_for: count, seconds, child_seconds })
}

/// `debug peer-endpoint-changes <peer>`.
pub fn peer_endpoint_changes(params: &PeerParams) -> (r: Vec<String>)
    ensures
        r.deep_view() == seq!["debug"@, "peer-endpoint-changes"@, params.peer@],
{
    let mut args = command(&["debug", "peer-endpoint-changes"]);
    arg(&mut args, params.peer.as_str());
    args
}

/// `debug resolve <host>`, with the address family when one was asked for.
pub fn resolve(params: &ResolveParams) -> (r: Vec<String>)
    ensures
        r.deep_view() == seq!["debug"@, "resolve"@, params.host@] + opt_text(
            "net"@,
            opt_string_view(params.net),
        ),
{
    let mut args = command(&["debug", "resolve"]);
    arg(&mut args, params.host.as_str());
    push_text(&mut args, "net", opt_str(&params.net));
    args
}

/// The lines that are not blank, trimmed.
pub open spec fn nonblank_lines(ls: Seq<Seq<char>>) -> Seq<Seq<char>>
    decreases ls.len(),
{
    if ls.len() == 0 {
        seq![]
    } else {
        let before = nonblank_lines(ls.drop_last());
        let line = trim_seq(ls.last());
        if line.len() > 0 {
            before.push(line)
        } else {
            before
        }
    }
}

/// The addresses `debug resolve` printed, one per line.
pub fn addresses(stdout: &str) -> (r: Vec<String>)
    ensures
        r.deep_view() == nonblank_lines(crate::text::lines_seq(stdout@)),
{
    let all = crate::text::lines(stdout);
    let ghost ls = all.deep_view();
    let mut found: Vec<String> = Vec::new();
    let mut i: usize = 0;
    while i < all.len()
        invariant
            ls == all.deep_view(),
            i <= ls.len(),
            found.deep_view() == nonblank_lines(ls.take(i as int)),
        decreases all.len() - i,
    {
        assert(ls.take(i + 1).drop_last() =~= ls.take(i as int));
        assert(ls.take(i + 1).last() == all[i as int]@);
        let line = crate::text::trim(all[i].as_str());
        let ghost before = found.deep_view();
        if line.as_str().unicode_len() > 0 {
            found.push(line);
        }
        assert(found.deep_view() =~= nonblank_lines(ls.take(i + 1)));
        i = i + 1;
    }
    assert(ls.take(i as int) =~= ls);
    found
}

/// `debug dial-types <host> <port>`, with the network when one was named.
pub fn dial_types(params: &DialTypesParams) -> (r: Vec<String>)
    ensures
        r.deep_view() == seq!["debug"@, "dial-types"@, params.host@, decimal(params.port as nat)]
            + opt_text("network"@, opt_string_view(params.network)),
{
    let mut args = command(&["debug", "dial-types"]);
    arg(&mut args, params.host.as_str());
    let port = decimal_text(params.port as u64);
    arg(&mut args, port.as_str());
    push_text(&mut args, "network", opt_str(&params.network));
    args
}

/// `debug ts2021` with the options given. A dial plan is a file on the local
/// filesystem and is checked as a path.
pub fn ts2021(policy: &PathPolicy, params: &Ts2021Params) -> (r: ToolResult<Vec<String>>)
    ensures
        r is Ok <==> (params.dial_plan matches Some(p) ==> path_usable(*policy, p@)),
        r matches Ok(args) ==> args.deep_view() == seq!["debug"@, "ts2021"@] + opt_text(
            "host"@,
            opt_string_view(params.host),
        ) + opt_text("ace"@, opt_string_view(params.ace)) + opt_text(
            "dial-plan"@,
            match params.dial_plan {
                Some(p) => Some(trim_seq(p@)),
                None => None,
            },
        ) + opt_text(
            "version"@,
            match params.version {
                Some(v) => Some(decimal(v as nat)),
                None => None,
            },
        ) + opt_bool("verbose"@, params.verbose),
        r matches Err(e) ==> (params.dial_plan matches Some(p) && crate::common::path_refusal(
            *policy,
            "dial_plan"@,
            p@,
            e,
        )),
{
    let mut args = command(&["debug", "ts2021"]);
    push_text(&mut args, "host", opt_str(&params.host));
    push_text(&mut args, "ace", opt_str(&params.ace));
    let ghost before_plan = args.deep_view();
    if let Some(path) = &params.dial_plan {
        let checked = real_path(policy, "dial_plan", path.as_str())?;
        args.push(flag_text("dial-plan", checked.as_str()));
    }
    assert(args.deep_view() =~= before_plan + opt_text(
        "dial-plan"@,
        match params.dial_plan {
            Some(p) => Some(trim_seq(p@)),
            None => None,
        },
    ));
    let ghost before_version = args.deep_view();
    if let Some(version) = params.version {
        let v = decimal_text(version as u64);
        args.push(flag_text("version", v.as_str()));
    }
    assert(args.deep_view() =~= before_version + opt_text(
        "version"@,
        match params.version {
            Some(v) => Some(decimal(v as nat)),
            None => None,
        },
    ));
    push_bool(&mut args, "verbose", params.verbose);
    Ok(args)
}

/// Probe the gateway for port mapping for a bounded time. Neither override
/// of the probe's view of the network means anything without the other.
pub fn portmap(params: &PortmapParams) -> (r: ToolResult<BoundedCommand>)
    ensures
        r is Ok <==> params.gateway_addr.is_some() == params.self_addr.is_some(),
        r matches Err(e) ==> e.code == ErrorCode::InvalidArgs,
        r matches Ok(plan) ==> {
            &&& plan.seconds == wait_seconds(
                params.duration_seconds,
                DEFAULT_PORTMAP_SECONDS,
                MAX_PORTMAP_SECONDS,
            )
            &&& plan.child_seconds == plan.seconds + GRACE
            &&& plan.args.deep_view() == seq![
                "debug"@,
                "portmap"@,
                flag_seq("duration"@, decimal(plan.seconds as nat) + "s"@),
            ] + opt_text("type"@, opt_string_view(params.probe_type)) + opt_text(
                "gateway-addr"@,
                opt_string_view(params.gateway_addr),
            ) + opt_text("self-addr"@, opt_string_view(params.self_addr)) + opt_bool(
                "log-http"@,
                params.log_http,
            )
        },
{
    if params.gateway_addr.is_some() != params.self_addr.is_some() {
        return Err(
            ToolError::invalid_args(
                owned(
                    "`gateway_addr` and `self_addr` override the probe's view of the network together, so give both or neither",
                ),
            ),
        );
    }
    let (seconds, child_seconds) = bounded_wait(
        params.duration_seconds,
        DEFAULT_PORTMAP_SECONDS,
        MAX_PORTMAP_SECONDS,
    );
    let mut args = command(&["debug", "portmap"]);
    let n = decimal_text(seconds);
    let d = crate::text::cat2(n.as_str(), "s");
    let f = flag_text("duration", d.as_str());
    arg(&mut args, f.as_str());
    push_text(&mut args, "type", opt_str(&params.probe_type));
    push_text(&mut args, "gateway-addr", opt_str(&params.gateway_addr));
    push_text(&mut args, "self-addr", opt_str(&params.self_addr));
    push_bool(&mut args, "log-http", params.log_http);
    Ok(BoundedCommand { args, seconds, child_seconds })
}

/// Turn verbose logging for a component on for a while, or off for a
/// duration of zero or less, and say which.
pub fn component_logs(params: &ComponentLogsParams) -> (r: KnobPlan)
    ensures
        r.args.deep_view() == seq![
            "debug"@,
            "component-logs"@,
            flag_seq("for"@, signed_decimal(params.for_seconds as int) + "s"@),
            params.component@,
        ],
        r.outcome@ == (if params.for_seconds > 0 {
            "verbose logging for `"@ + params.component@ + "` is on for the next "@
                + signed_decimal(params.for_seconds as int) + "s"@
        } else {
            "verbose logging for `"@ + params.component@ + "` is off"@
        }),
{
    let seconds = signed_text(params.for_seconds);
    let outcome = if params.for_seconds > 0 {
        let head = cat3("verbose logging for `", params.component.as_str(), "` is on for the next ");
        cat3(head.as_str(), seconds.as_str(), "s")
    } else {
        cat3("verbose logging for `", params.component.as_str(), "` is off")
    };
    let mut args = command(&["debug", "component-logs"]);
    let d = crate::text::cat2(seconds.as_str(), "s");
    let f = flag_text("for", d.as_str());
    arg(&mut args, f.as_str());
    arg(&mut args, params.component.as_str());
    KnobPlan { args, outcome }
}

/// Pin the home relay region, or free it with region 0, and say which.
pub fn force_prefer_derp(params: &ForcePreferDerpParams) -> (r: KnobPlan)
    ensures
        r.args.deep_view() == seq![
            "debug"@,
            "force-prefer-derp"@,
            signed_decimal(params.region_id as int),
        ],
        r.outcome@ == (if params.region_id == 0 {
            "the node is free to choose its own home relay region again"@
        } else {
            "the node prefers relay region "@ + signed_decimal(params.region_id as int)
                + " until it restarts"@
        }),
{
    let region = signed_text(params.region_id as i64);
    let outcome = if params.region_id == 0 {
        owned("the node is free to choose its own home relay region again")
    } else {
        cat3("the node prefers relay region ", region.as_str(), " until it restarts")
    };
    let mut args = command(&["debug", "force-prefer-derp"]);
    arg(&mut args, region.as_str());
    KnobPlan { args, outcome }
}

// ---------------------------------------------------------------------------
// The fixed commands
// ---------------------------------------------------------------------------

/// How the answer to a fixed command is read out of what it printed.
#[derive(Debug, Clone, Copy, PartialEq, Eq, Structural)]
pub enum Reading {
    /// A JSON document, answered as it came.
    Object,
    /// Text for a person, answered as printed.
    Text,
    /// One path, trimmed.
    Path,
    /// A JSON list of files, where `null` is an empty list.
    Files,
    /// A change to the running daemon, answered with what it did.
    Knob,
}

/// The debug tools whose command takes nothing from the caller.
#[derive(Debug, Clone, Copy, PartialEq, Eq, Structural)]
pub enum FixedDebug {
    DerpMap,
    Netmap,
    Hostinfo,
    ControlKnobs,
    DaemonGoroutines,
    DaemonBusQueues,
    Metrics,
    Statedir,
    GoBuildinfo,
    PeerRelayServers,
    PeerRelaySessions,
    FileList,
    Derp,
    Restun,
    Rebind,
    RotateDiscoKey,
    DerpUnsetOnDemand,
    PickNewDerp,
    ForceNetmapUpdate,
}

impl FixedDebug {
    pub open spec fn spec_subcommand(self) -> Seq<char> {
        match self {
            FixedDebug::DerpMap => "derp-map"@,
            FixedDebug::Netmap => "netmap"@,
            FixedDebug::Hostinfo => "hostinfo"@,
            FixedDebug::ControlKnobs => "control-knobs"@,
            FixedDebug::DaemonGoroutines => "daemon-goroutines"@,
            FixedDebug::DaemonBusQueues => "daemon-bus-queues"@,
            FixedDebug::Metrics => "metrics"@,
            FixedDebug::Statedir => "statedir"@,
            FixedDebug::GoBuildinfo => "go-buildinfo"@,
            FixedDebug::PeerRelayServers => "peer-relay-servers"@,
            FixedDebug::PeerRelaySessions => "peer-relay-sessions"@,
            FixedDebug::FileList => "--file=get"@,
            FixedDebug::Derp => "derp"@,
            FixedDebug::Restun => "restun"@,
            FixedDebug::Rebind => "rebind"@,
            FixedDebug::RotateDiscoKey => "rotate-disco-key"@,
            FixedDebug::DerpUnsetOnDemand => "derp-unset-on-demand"@,
            FixedDebug::PickNewDerp => "pick-new-derp"@,
            FixedDebug::ForceNetmapUpdate => "force-netmap-update"@,
        }
    }

    pub open spec fn spec_reading(self) -> Reading {
        match self {
            FixedDebug::DerpMap => Reading::Object,
            FixedDebug::Netmap => Reading::Object,
            FixedDebug::Hostinfo => Reading::Object,
            FixedDebug::ControlKnobs => Reading::Object,
            FixedDebug::DaemonGoroutines => Reading::Text,
            FixedDebug::DaemonBusQueues => Reading::Object,
            FixedDebug::Metrics => Reading::Text,
            FixedDebug::Statedir => Reading::Path,
            FixedDebug::GoBuildinfo => Reading::Object,
            FixedDebug::PeerRelayServers => Reading::Object,
            FixedDebug::PeerRelaySessions => Reading::Text,
            FixedDebug::FileList => Reading::Files,
            FixedDebug::Derp => Reading::Text,
            FixedDebug::Restun => Reading::Knob,
            FixedDebug::Rebind => Reading::Knob,
            FixedDebug::RotateDiscoKey => Reading::Knob,
            FixedDebug::DerpUnsetOnDemand => Reading::Knob,
            FixedDebug::PickNewDerp => Reading::Knob,
            FixedDebug::ForceNetmapUpdate => Reading::Knob,
        }
    }

    pub open spec fn spec_outcome(self) -> Option<Seq<char>> {
        match self {
            FixedDebug::DerpMap => None,
            FixedDebug::Netmap => None,
            FixedDebug::Hostinfo => None,
            FixedDebug::ControlKnobs => None,
            FixedDebug::DaemonGoroutines => None,
            FixedDebug::DaemonBusQueues => None,
            FixedDebug::Metrics => None,
            FixedDebug::Statedir => None,
            FixedDebug::GoBuildinfo => None,
            FixedDebug::PeerRelayServers => None,
            FixedDebug::PeerRelaySessions => None,
            FixedDebug::FileList => None,
            FixedDebug::Derp => None,
            FixedDebug::Restun => Some("the node was told to re-learn its own addresses"@),
            FixedDebug::Rebind => Some("the node was told to rebind its sockets"@),
            FixedDebug::RotateDiscoKey => Some("the node's disco key was rotated; peers will rebuild their direct paths"@),
            FixedDebug::DerpUnsetOnDemand => Some("relay connections are back to always-on"@),
            FixedDebug::PickNewDerp => Some("the node was moved to another home relay region until it restarts"@),
            FixedDebug::ForceNetmapUpdate => Some("a full netmap update was pushed through the daemon"@),
        }
    }

    pub open spec fn spec_tool(self) -> Seq<char> {
        match self {
            FixedDebug::DerpMap => "tailscale_debug_derp_map"@,
            FixedDebug::Netmap => "tailscale_debug_netmap"@,
            FixedDebug::Hostinfo => "tailscale_debug_hostinfo"@,
            FixedDebug::ControlKnobs => "tailscale_debug_control_knobs"@,
            FixedDebug::DaemonGoroutines => "tailscale_debug_daemon_goroutines"@,
            FixedDebug::DaemonBusQueues => "tailscale_debug_daemon_bus_queues"@,
            FixedDebug::Metrics => "tailscale_debug_metrics"@,
            FixedDebug::Statedir => "tailscale_debug_statedir"@,
            FixedDebug::GoBuildinfo => "tailscale_debug_go_buildinfo"@,
            FixedDebug::PeerRelayServers => "tailscale_debug_peer_relay_servers"@,
            FixedDebug::PeerRelaySessions => "tailscale_debug_peer_relay_sessions"@,
            FixedDebug::FileList => "tailscale_debug_file_list"@,
            FixedDebug::Derp => "tailscale_debug_derp"@,
            FixedDebug::Restun => "tailscale_debug_restun"@,
            FixedDebug::Rebind => "tailscale_debug_rebind"@,
            FixedDebug::RotateDiscoKey => "tailscale_debug_rotate_disco_key"@,
            FixedDebug::DerpUnsetOnDemand => "tailscale_debug_derp_unset_on_demand"@,
            FixedDebug::PickNewDerp => "tailscale_debug_pick_new_derp"@,
            FixedDebug::ForceNetmapUpdate => "tailscale_debug_force_netmap_update"@,
        }
    }

    /// The word after `debug` that runs it.
    pub fn subcommand(&self) -> (r: &'static str)
        ensures
            r@ == self.spec_subcommand(),
    {
        match self {
            FixedDebug::DerpMap => "derp-map",
            FixedDebug::Netmap => "netmap",
            FixedDebug::Hostinfo => "hostinfo",
            FixedDebug::ControlKnobs => "control-knobs",
            FixedDebug::DaemonGoroutines => "daemon-goroutines",
            FixedDebug::DaemonBusQueues => "daemon-bus-queues",
            FixedDebug::Metrics => "metrics",
            FixedDebug::Statedir => "statedir",
            FixedDebug::GoBuildinfo => "go-buildinfo",
            FixedDebug::PeerRelayServers => "peer-relay-servers",
            FixedDebug::PeerRelaySessions => "peer-relay-sessions",
            FixedDebug::FileList => "--file=get",
            FixedDebug::Derp => "derp",
            FixedDebug::Restun => "restun",
            FixedDebug::Rebind => "rebind",
            FixedDebug::RotateDiscoKey => "rotate-disco-key",
            FixedDebug::DerpUnsetOnDemand => "derp-unset-on-demand",
            FixedDebug::PickNewDerp => "pick-new-derp",
            FixedDebug::ForceNetmapUpdate => "force-netmap-update",
        }
    }

    /// How its answer is read.
    pub fn reading(&self) -> (r: Reading)
        ensures
            r == self.spec_reading(),
    {
        match self {
            FixedDebug::DerpMap => Reading::Object,
            FixedDebug::Netmap => Reading::Object,
            FixedDebug::Hostinfo => Reading::Object,
            FixedDebug::ControlKnobs => Reading::Object,
            FixedDebug::DaemonGoroutines => Reading::Text,
            FixedDebug::DaemonBusQueues => Reading::Object,
            FixedDebug::Metrics => Reading::Text,
            FixedDebug::Statedir => Reading::Path,
            FixedDebug::GoBuildinfo => Reading::Object,
            FixedDebug::PeerRelayServers => Reading::Object,
            FixedDebug::PeerRelaySessions => Reading::Text,
            FixedDebug::FileList => Reading::Files,
            FixedDebug::Derp => Reading::Text,
            FixedDebug::Restun => Reading::Knob,
            FixedDebug::Rebind => Reading::Knob,
            FixedDebug::RotateDiscoKey => Reading::Knob,
            FixedDebug::DerpUnsetOnDemand => Reading::Knob,
            FixedDebug::PickNewDerp => Reading::Knob,
            FixedDebug::ForceNetmapUpdate => Reading::Knob,
        }
    }

    /// What a knob reports having done; a reader reports nothing of its own.
    pub fn outcome(&self) -> (r: Option<&'static str>)
        ensures
            r is None <==> self.spec_outcome() is None,
            r matches Some(o) ==> self.spec_outcome() == Some(o@),
    {
        match self {
            FixedDebug::DerpMap => None,
            FixedDebug::Netmap => None,
            FixedDebug::Hostinfo => None,
            FixedDebug::ControlKnobs => None,
            FixedDebug::DaemonGoroutines => None,
            FixedDebug::DaemonBusQueues => None,
            FixedDebug::Metrics => None,
            FixedDebug::Statedir => None,
            FixedDebug::GoBuildinfo => None,
            FixedDebug::PeerRelayServers => None,
            FixedDebug::PeerRelaySessions => None,
            FixedDebug::FileList => None,
            FixedDebug::Derp => None,
            FixedDebug::Restun => Some("the node was told to re-learn its own addresses"),
            FixedDebug::Rebind => Some("the node was told to rebind its sockets"),
            FixedDebug::RotateDiscoKey => Some("the node's disco key was rotated; peers will rebuild their direct paths"),
            FixedDebug::DerpUnsetOnDemand => Some("relay connections are back to always-on"),
            FixedDebug::PickNewDerp => Some("the node was moved to another home relay region until it restarts"),
            FixedDebug::ForceNetmapUpdate => Some("a full netmap update was pushed through the daemon"),
        }
    }

    /// The command: `debug` and the subcommand.
    pub fn args(&self) -> (r: Vec<String>)
        ensures
            r.deep_view() == seq!["debug"@, self.spec_subcommand()],
    {
        let mut args: Vec<String> = Vec::new();
        arg(&mut args, "debug");
        arg(&mut args, self.subcommand());
        args
    }
}

/// The fixed command a tool runs, by the tool's name.
pub fn fixed_debug(tool: &str) -> (r: Option<FixedDebug>)
    ensures
        r matches Some(f) ==> f.spec_tool() == tool@,
        r is None ==> forall|f: FixedDebug| #[trigger] f.spec_tool() != tool@,
{
    if crate::text::same(tool, "tailscale_debug_derp_map") {
        return Some(FixedDebug::DerpMap);
    }
    if crate::text::same(tool, "tailscale_debug_netmap") {
        return Some(FixedDebug::Netmap);
    }
    if crate::text::same(tool, "tailscale_debug_hostinfo") {
        return Some(FixedDebug::Hostinfo);
    }
    if crate::text::same(tool, "tailscale_debug_control_knobs") {
        return Some(FixedDebug::ControlKnobs);
    }
    if crate::text::same(tool, "tailscale_debug_daemon_goroutines") {
        return Some(FixedDebug::DaemonGoroutines);
    }
    if crate::text::same(tool, "tailscale_debug_daemon_bus_queues") {
        return Some(FixedDebug::DaemonBusQueues);
    }
    if crate::text::same(tool, "tailscale_debug_metrics") {
        return Some(FixedDebug::Metrics);
    }
    if crate::text::same(tool, "tailscale_debug_statedir") {
        return Some(FixedDebug::Statedir);
    }
    if crate::text::same(tool, "tailscale_debug_go_buildinfo") {
        return Some(FixedDebug::GoBuildinfo);
    }
    if crate::text::same(tool, "tailscale_debug_peer_relay_servers") {
        return Some(FixedDebug::PeerRelayServers);
    }
    if crate::text::same(tool, "tailscale_debug_peer_relay_sessions") {
        return Some(FixedDebug::PeerRelaySessions);
    }
    if crate::text::same(tool, "tailscale_debug_file_list") {
        return Some(FixedDebug::FileList);
    }
    if crate::text::same(tool, "tailscale_debug_derp") {
        return Some(FixedDebug::Derp);
    }
    if crate::text::same(tool, "tailscale_debug_restun") {
        return Some(FixedDebug::Restun);
    }
    if crate::text::same(tool, "tailscale_debug_rebind") {
        return Some(FixedDebug::Rebind);
    }
    if crate::text::same(tool, "tailscale_debug_rotate_disco_key") {
        return Some(FixedDebug::RotateDiscoKey);
    }
    if crate::text::same(tool, "tailscale_debug_derp_unset_on_demand") {
        return Some(FixedDebug::DerpUnsetOnDemand);
    }
    if crate::text::same(tool, "tailscale_debug_pick_new_derp") {
        return Some(FixedDebug::PickNewDerp);
    }
    if crate::text::same(tool, "tailscale_debug_force_netmap_update") {
        return Some(FixedDebug::ForceNetmapUpdate);
    }
    None
}

/// Every tool of this toolset, in the order a client lists them.
pub fn entries() -> (r: Vec<ToolEntry>)
    ensures
        r.len() == 30,
        forall|i: int|
            0 <= i < r.len() ==> (#[trigger] r[i]).meta.toolset == Toolset::LocalDebug
                && crate::registry::row_ok(r[i])
                && !r[i].meta.requires_confirmation && r[i].meta.tier != Tier::Destructive,
{
    proof {
        reveal_strlit("tailscale_");
        reveal_strlit("tailscale_debug_derp_map");
        reveal_strlit("tailscale_debug_netmap");
        reveal_strlit("tailscale_debug_hostinfo");
        reveal_strlit("tailscale_debug_control_knobs");
        reveal_strlit("tailscale_debug_daemon_goroutines");
        reveal_strlit("tailscale_debug_daemon_bus_graph");
        reveal_strlit("tailscale_debug_daemon_bus_queues");
        reveal_strlit("tailscale_debug_metrics");
        reveal_strlit("tailscale_debug_statedir");
        reveal_strlit("tailscale_debug_go_buildinfo");
        reveal_strlit("tailscale_debug_peer_relay_servers");
        reveal_strlit("tailscale_debug_peer_relay_sessions");
        reveal_strlit("tailscale_debug_file_list");
        reveal_strlit("tailscale_debug_stat");
        reveal_strlit("tailscale_debug_via");
        reveal_strlit("tailscale_debug_watch_ipn");
        reveal_strlit("tailscale_debug_peer_endpoint_changes");
        reveal_strlit("tailscale_debug_resolve");
        reveal_strlit("tailscale_debug_dial_types");
        reveal_strlit("tailscale_debug_derp");
        reveal_strlit("tailscale_debug_ts2021");
        reveal_strlit("tailscale_debug_portmap");
        reveal_strlit("tailscale_debug_component_logs");
        reveal_strlit("tailscale_debug_restun");
        reveal_strlit("tailscale_debug_rebind");
        reveal_strlit("tailscale_debug_rotate_disco_key");
        reveal_strlit("tailscale_debug_derp_unset_on_demand");
        reveal_strlit("tailscale_debug_pick_new_derp");
        reveal_strlit("tailscale_debug_force_prefer_derp");
        reveal_strlit("tailscale_debug_force_netmap_update");
    }
    vec![
        ToolEntry {
            meta: ToolMeta {
                name: "tailscale_debug_derp_map",
                summary: "The DERP map the local node is using: every relay region the control plane has told it about, with the servers in each. Large.",
                toolset: Toolset::LocalDebug,
                tier: Tier::Read,
                idempotent: true,
                requires_confirmation: false,
                self_severing: false,
                varying: false,
                since: None,
            },
        },
        ToolEntry {
            meta: ToolMeta {
                name: "tailscale_debug_netmap",
                summary: "The current netmap: every peer the local node knows, with the keys, addresses and endpoints it holds for each. The largest document this server produces, and the one most likely to exceed the result cap.",
                toolset: Toolset::LocalDebug,
                tier: Tier::Read,
                idempotent: true,
                requires_confirmation: false,
                self_severing: false,
                varying: false,
                since: None,
            },
        },
        ToolEntry {
            meta: ToolMeta {
                name: "tailscale_debug_hostinfo",
                summary: "What the local node reports about itself to the control plane: its OS, version, hardware and the features it has enabled.",
                toolset: Toolset::LocalDebug,
                tier: Tier::Read,
                idempotent: true,
                requires_confirmation: false,
                self_severing: false,
                varying: false,
                since: None,
            },
        },
        ToolEntry {
            meta: ToolMeta {
                name: "tailscale_debug_control_knobs",
                summary: "The control knobs the control plane has set on this node: the per-tailnet switches that change how the daemon behaves without a preference.",
                toolset: Toolset::LocalDebug,
                tier: Tier::Read,
                idempotent: true,
                requires_confirmation: false,
                self_severing: false,
                varying: false,
                since: None,
            },
        },
        ToolEntry {
            meta: ToolMeta {
                name: "tailscale_debug_daemon_goroutines",
                summary: "A stack dump of every goroutine in tailscaled, for diagnosing a daemon that is wedged. Tens of kilobytes of Go stack traces.",
                toolset: Toolset::LocalDebug,
                tier: Tier::Read,
                idempotent: true,
                requires_confirmation: false,
                self_severing: false,
                varying: false,
                since: None,
            },
        },
        ToolEntry {
            meta: ToolMeta {
                name: "tailscale_debug_daemon_bus_graph",
                summary: "The daemon's internal event bus as a graph: which components publish which events and which subscribe to them.",
                toolset: Toolset::LocalDebug,
                tier: Tier::Read,
                idempotent: true,
                requires_confirmation: false,
                self_severing: false,
                varying: false,
                since: None,
            },
        },
        ToolEntry {
            meta: ToolMeta {
                name: "tailscale_debug_daemon_bus_queues",
                summary: "How much is queued on each of the daemon's internal event bus queues, for finding a subscriber that has fallen behind.",
                toolset: Toolset::LocalDebug,
                tier: Tier::Read,
                idempotent: true,
                requires_confirmation: false,
                self_severing: false,
                varying: false,
                since: None,
            },
        },
        ToolEntry {
            meta: ToolMeta {
                name: "tailscale_debug_metrics",
                summary: "The daemon's own internal metrics, in Prometheus text format. Distinct from `tailscale_metrics_print`, which reports the node's client metrics.",
                toolset: Toolset::LocalDebug,
                tier: Tier::Read,
                idempotent: true,
                requires_confirmation: false,
                self_severing: false,
                varying: false,
                since: None,
            },
        },
        ToolEntry {
            meta: ToolMeta {
                name: "tailscale_debug_statedir",
                summary: "The directory tailscaled keeps its state in on the local filesystem.",
                toolset: Toolset::LocalDebug,
                tier: Tier::Read,
                idempotent: true,
                requires_confirmation: false,
                self_severing: false,
                varying: false,
                since: None,
            },
        },
        ToolEntry {
            meta: ToolMeta {
                name: "tailscale_debug_go_buildinfo",
                summary: "The Go build information of the `tailscale` binary: its module versions, build settings and the toolchain that produced it.",
                toolset: Toolset::LocalDebug,
                tier: Tier::Read,
                idempotent: true,
                requires_confirmation: false,
                self_severing: false,
                varying: false,
                since: None,
            },
        },
        ToolEntry {
            meta: ToolMeta {
                name: "tailscale_debug_peer_relay_servers",
                summary: "The peers this node could relay through, for reaching a peer that no direct path and no DERP region can carry.",
                toolset: Toolset::LocalDebug,
                tier: Tier::Read,
                idempotent: true,
                requires_confirmation: false,
                self_severing: false,
                varying: false,
                since: None,
            },
        },
        ToolEntry {
            meta: ToolMeta {
                name: "tailscale_debug_peer_relay_sessions",
                summary: "The relay sessions currently running through this node on behalf of other peers, and whether it is configured to serve them at all.",
                toolset: Toolset::LocalDebug,
                tier: Tier::Read,
                idempotent: true,
                requires_confirmation: false,
                self_severing: false,
                varying: false,
                since: None,
            },
        },
        ToolEntry {
            meta: ToolMeta {
                name: "tailscale_debug_file_list",
                summary: "List the files waiting in this node's Taildrop inbox without downloading any of them. Use `tailscale_file_get` to fetch what this reports.",
                toolset: Toolset::LocalDebug,
                tier: Tier::Read,
                idempotent: true,
                requires_confirmation: false,
                self_severing: false,
                varying: false,
                since: None,
            },
        },
        ToolEntry {
            meta: ToolMeta {
                name: "tailscale_debug_stat",
                summary: "The mode and size of files on the local filesystem, as tailscaled's own process sees them, for telling a missing file from an unreadable one.",
                toolset: Toolset::LocalDebug,
                tier: Tier::Read,
                idempotent: true,
                requires_confirmation: false,
                self_severing: false,
                varying: false,
                since: None,
            },
        },
        ToolEntry {
            meta: ToolMeta {
                name: "tailscale_debug_via",
                summary: "Convert between a site's IPv4 prefix and the IPv6 `via` route that carries it. Give `site_id` and `prefix` to go one way, or `route` to go back. Arithmetic on the values given: nothing is contacted.",
                toolset: Toolset::LocalDebug,
                tier: Tier::Read,
                idempotent: true,
                requires_confirmation: false,
                self_severing: false,
                varying: false,
                since: None,
            },
        },
        ToolEntry {
            meta: ToolMeta {
                name: "tailscale_debug_watch_ipn",
                summary: "Watch the local node's state notifications until `count` of them have arrived or the bound expires, whichever comes first. Reports the events as they were published. A quiet node reaches the bound instead, which is reported as a timeout carrying whatever had arrived.",
                toolset: Toolset::LocalDebug,
                tier: Tier::Read,
                idempotent: false,
                requires_confirmation: false,
                self_severing: false,
                varying: false,
                since: None,
            },
        },
        ToolEntry {
            meta: ToolMeta {
                name: "tailscale_debug_peer_endpoint_changes",
                summary: "The history of endpoint changes the local node has recorded for one peer, for diagnosing a connection that keeps being rebuilt.",
                toolset: Toolset::LocalDebug,
                tier: Tier::Read,
                idempotent: true,
                requires_confirmation: false,
                self_severing: false,
                varying: false,
                since: None,
            },
        },
        ToolEntry {
            meta: ToolMeta {
                name: "tailscale_debug_resolve",
                summary: "Resolve a hostname through the daemon's own resolver rather than the operating system's, to see what tailscaled would have got.",
                toolset: Toolset::LocalDebug,
                tier: Tier::Read,
                idempotent: true,
                requires_confirmation: false,
                self_severing: false,
                varying: false,
                since: None,
            },
        },
        ToolEntry {
            meta: ToolMeta {
                name: "tailscale_debug_dial_types",
                summary: "Try every path type in turn to a host and port — direct, through DERP, through the operating system — and report which of them connected.",
                toolset: Toolset::LocalDebug,
                tier: Tier::Read,
                idempotent: true,
                requires_confirmation: false,
                self_severing: false,
                varying: false,
                since: None,
            },
        },
        ToolEntry {
            meta: ToolMeta {
                name: "tailscale_debug_derp",
                summary: "Test the local node's DERP configuration by exercising the relays it would use. A network probe: it makes connections but changes nothing.",
                toolset: Toolset::LocalDebug,
                tier: Tier::Read,
                idempotent: true,
                requires_confirmation: false,
                self_severing: false,
                varying: false,
                since: None,
            },
        },
        ToolEntry {
            meta: ToolMeta {
                name: "tailscale_debug_ts2021",
                summary: "Test that the control plane is reachable over the Noise protocol the daemon uses, reporting each dial attempt and its result.",
                toolset: Toolset::LocalDebug,
                tier: Tier::Read,
                idempotent: true,
                requires_confirmation: false,
                self_severing: false,
                varying: false,
                since: None,
            },
        },
        ToolEntry {
            meta: ToolMeta {
                name: "tailscale_debug_portmap",
                summary: "Probe the local network's gateway for port-mapping support — PMP, PCP and UPnP — and report what it offered. Runs for `seconds`.",
                toolset: Toolset::LocalDebug,
                tier: Tier::Read,
                idempotent: true,
                requires_confirmation: false,
                self_severing: false,
                varying: false,
                since: None,
            },
        },
        ToolEntry {
            meta: ToolMeta {
                name: "tailscale_debug_component_logs",
                summary: "Turn verbose logging on for one of the daemon's components for a while. A zero or negative duration turns it off again. The logs go to the daemon's own log, which this server does not read.",
                toolset: Toolset::LocalDebug,
                tier: Tier::Write,
                idempotent: false,
                requires_confirmation: false,
                self_severing: false,
                varying: false,
                since: None,
            },
        },
        ToolEntry {
            meta: ToolMeta {
                name: "tailscale_debug_restun",
                summary: "Force a fresh STUN round, so the node re-learns the addresses peers should reach it on. Useful after a network change the daemon missed.",
                toolset: Toolset::LocalDebug,
                tier: Tier::Write,
                idempotent: true,
                requires_confirmation: false,
                self_severing: false,
                varying: false,
                since: None,
            },
        },
        ToolEntry {
            meta: ToolMeta {
                name: "tailscale_debug_rebind",
                summary: "Force the node to rebind its UDP sockets, so it starts using whatever the operating system's routing table now says.",
                toolset: Toolset::LocalDebug,
                tier: Tier::Write,
                idempotent: true,
                requires_confirmation: false,
                self_severing: false,
                varying: false,
                since: None,
            },
        },
        ToolEntry {
            meta: ToolMeta {
                name: "tailscale_debug_rotate_disco_key",
                summary: "Rotate this node's disco key, so that peers must re-establish their direct paths to it. Existing sessions are rebuilt, not dropped.",
                toolset: Toolset::LocalDebug,
                tier: Tier::Write,
                idempotent: false,
                requires_confirmation: false,
                self_severing: false,
                varying: false,
                since: None,
            },
        },
        ToolEntry {
            meta: ToolMeta {
                name: "tailscale_debug_derp_unset_on_demand",
                summary: "Put DERP connections back to always-on after something set them to on-demand. The repair for a node that has become slow to be reached.",
                toolset: Toolset::LocalDebug,
                tier: Tier::Write,
                idempotent: true,
                requires_confirmation: false,
                self_severing: false,
                varying: false,
                since: None,
            },
        },
        ToolEntry {
            meta: ToolMeta {
                name: "tailscale_debug_pick_new_derp",
                summary: "Move the node to a different home DERP region, chosen by the daemon, until the next restart. For testing whether a region is the problem.",
                toolset: Toolset::LocalDebug,
                tier: Tier::Write,
                idempotent: false,
                requires_confirmation: false,
                self_severing: false,
                varying: false,
                since: None,
            },
        },
        ToolEntry {
            meta: ToolMeta {
                name: "tailscale_debug_force_prefer_derp",
                summary: "Pin the node's home DERP to one region until the next restart, or pass region 0 to un-pin it and let the daemon choose again.",
                toolset: Toolset::LocalDebug,
                tier: Tier::Write,
                idempotent: true,
                requires_confirmation: false,
                self_severing: false,
                varying: false,
                since: None,
            },
        },
        ToolEntry {
            meta: ToolMeta {
                name: "tailscale_debug_force_netmap_update",
                summary: "Push a full netmap update through the daemon without changing it, to exercise everything that reacts to one.",
                toolset: Toolset::LocalDebug,
                tier: Tier::Write,
                idempotent: true,
                requires_confirmation: false,
                self_severing: false,
                varying: false,
                since: None,
            },
        },
    ]
}


} // verus!


