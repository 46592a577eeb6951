//! Changing what the local node is and where it is connected.
//!
//! Eight commands, and one idea running through them: the node this server
//! runs on is very often the node the caller is reaching us over. Every tool
//! here but the two that only read can end that conversation, so those refuse
//! without `confirm: true`, and the client's own risk acceptance is passed only
//! on a call that carried one.
//!
//! `up` applies a whole preference set: anything not restated goes back to its
//! default. `set` changes exactly the preferences it is given and nothing else.
//! This module builds the argument lists and reads what came back; running the
//! client is the caller's.

use vstd::prelude::*;
use crate::registry::{ToolEntry, ToolMeta};
use crate::meta::{Tier, Toolset};

use crate::common::{
    arg, by_reference, bounded_wait, extend, first_of, flag, flag_seq, flag_text, only_on, opt_bool,
    opt_list, opt_string_view, opt_text, prefixed_tokens, push_bool, push_list, push_text,
    tokens_with_prefix, views, bool_seq, flag_name_ok, lemma_optional_flag_carries,
};
use crate::error::{ErrorCode, ToolError, ToolResult};
use crate::text::{cat3, decimal, decimal_text, join_seq, owned, push_char, starts_with, trim, trim_seq, words_seq};

verus! {

/// What every command that disconnects something is told: the caller
/// confirmed the call, which is the question the client would otherwise ask
/// at a prompt nobody can see.
pub const ACCEPTED_RISKS: &'static str = "--accept-risk=all";

/// How long a connect or a login waits by default.
pub const DEFAULT_CONNECT_TIMEOUT: u64 = 60;

/// The longest either may be asked to wait. The client's own default is to
/// wait for ever, which an agent cannot recover from.
pub const MAX_CONNECT_TIMEOUT: u64 = 300;

// ---------------------------------------------------------------------------
// Preferences
// ---------------------------------------------------------------------------

/// How Tailscale manages the Linux firewall.
#[derive(Debug, Clone, Copy, PartialEq, Eq, Structural)]
pub enum NetfilterMode {
    /// Tailscale manages its own netfilter rules.
    On,
    /// Tailscale adds rules but does not divert traffic into them.
    Nodivert,
    /// Tailscale manages nothing; the rules are yours to write.
    Off,
}

impl NetfilterMode {
    pub open spec fn spec_name(self) -> Seq<char> {
        match self {
            NetfilterMode::On => "on"@,
            NetfilterMode::Nodivert => "nodivert"@,
            NetfilterMode::Off => "off"@,
        }
    }

    /// The mode as the client spells it.
    pub fn as_str(&self) -> (r: &'static str)
        ensures
            r@ == self.spec_name(),
    {
        match self {
            NetfilterMode::On => "on",
            NetfilterMode::Nodivert => "nodivert",
            NetfilterMode::Off => "off",
        }
    }
}

pub open spec fn mode_view(m: Option<NetfilterMode>) -> Option<Seq<char>> {
    match m {
        Some(m) => Some(m.spec_name()),
        None => None,
    }
}

/// The preferences that `set`, `up` and `login` all understand. Each is left
/// alone when it is absent.
#[derive(Debug, Default)]
pub struct SharedPrefs {
    /// Accept the DNS configuration the tailnet publishes, including MagicDNS.
    pub accept_dns: Option<bool>,
    /// Accept the subnet routes other nodes advertise.
    pub accept_routes: Option<bool>,
    /// Advertise this node as an app connector.
    pub advertise_connector: Option<bool>,
    /// Offer this node to the tailnet as an exit node.
    pub advertise_exit_node: Option<bool>,
    /// The subnet routes this node offers, as CIDR blocks. An empty list
    /// withdraws every route it was advertising.
    pub advertise_routes: Option<Vec<String>>,
    /// The exit node to send traffic through. An empty string stops using one.
    pub exit_node: Option<String>,
    /// Keep reaching the local network directly while an exit node is in use.
    pub exit_node_allow_lan_access: Option<bool>,
    /// The name this node goes by on the tailnet.
    pub hostname: Option<String>,
    /// The Unix user allowed to run `tailscale` without elevation.
    pub operator: Option<String>,
    /// Allow device posture information to be collected from this node.
    pub report_posture: Option<bool>,
    /// Block all incoming connections from the tailnet.
    pub shields_up: Option<bool>,
    /// Run the Tailscale SSH server on this node.
    pub ssh: Option<bool>,
    /// Linux only. Source-NAT traffic arriving for an advertised subnet route.
    pub snat_subnet_routes: Option<bool>,
    /// Linux only. Drop forwarded traffic that does not belong to a known
    /// connection.
    pub stateful_filtering: Option<bool>,
    /// Linux only. How much of the firewall Tailscale manages.
    pub netfilter_mode: Option<NetfilterMode>,
    /// Windows only. Keep the tailnet connection up when no user is signed in.
    pub unattended: Option<bool>,
}

pub open spec fn list_view(v: Option<Vec<String>>) -> Option<Seq<Seq<char>>> {
    match v {
        Some(v) => Some(v.deep_view()),
        None => None,
    }
}

/// The flags for the preferences every one of these commands takes, in the
/// order the client documents them.
pub open spec fn shared_seq(p: SharedPrefs) -> Seq<Seq<char>> {
    opt_bool("accept-dns"@, p.accept_dns) + opt_bool("accept-routes"@, p.accept_routes) + opt_bool(
        "advertise-connector"@,
        p.advertise_connector,
    ) + opt_bool("advertise-exit-node"@, p.advertise_exit_node) + opt_list(
        "advertise-routes"@,
        list_view(p.advertise_routes),
    ) + opt_text("exit-node"@, opt_string_view(p.exit_node)) + opt_bool(
        "exit-node-allow-lan-access"@,
        p.exit_node_allow_lan_access,
    ) + opt_text("hostname"@, opt_string_view(p.hostname)) + opt_text(
        "operator"@,
        opt_string_view(p.operator),
    ) + opt_bool("report-posture"@, p.report_posture) + opt_bool("shields-up"@, p.shields_up)
        + opt_bool("ssh"@, p.ssh)
}

/// The first platform-specific preference given that this node's operating
/// system does not have, with the one system that does.
pub open spec fn platform_refusal(p: SharedPrefs, os: Seq<char>) -> Option<(Seq<char>, Seq<char>)> {
    if p.snat_subnet_routes is Some && os != "linux"@ {
        Some(("snat_subnet_routes"@, "linux"@))
    } else if p.stateful_filtering is Some && os != "linux"@ {
        Some(("stateful_filtering"@, "linux"@))
    } else if p.netfilter_mode is Some && os != "linux"@ {
        Some(("netfilter_mode"@, "linux"@))
    } else if p.unattended is Some && os != "windows"@ {
        Some(("unattended"@, "windows"@))
    } else {
        None
    }
}

pub open spec fn platform_seq(p: SharedPrefs) -> Seq<Seq<char>> {
    opt_bool("snat-subnet-routes"@, p.snat_subnet_routes) + opt_bool(
        "stateful-filtering"@,
        p.stateful_filtering,
    ) + opt_text("netfilter-mode"@, mode_view(p.netfilter_mode)) + opt_bool(
        "unattended"@,
        p.unattended,
    )
}

/// The message a preference that this node's system lacks is refused with.
pub open spec fn platform_message(setting: Seq<char>, platform: Seq<char>, os: Seq<char>) -> Seq<
    char,
> {
    "`"@ + setting + "` is a "@ + platform + " preference, and this node runs "@ + os
}

/// The platform-specific flags are built, or the first one this node cannot
/// take is refused.
pub open spec fn platform_outcome(p: SharedPrefs, os: Seq<char>, r: ToolResult<Vec<String>>) -> bool {
    match platform_refusal(p, os) {
        Some((setting, platform)) => r matches Err(e) && e.code == ErrorCode::UnsupportedPlatform
            && e.message@ == platform_message(setting, platform, os),
        None => r matches Ok(v) && v.deep_view() == platform_seq(p),
    }
}

/// Refuse a setting unless this node runs the one system that has it.
fn only_on_one(setting: &str, platform: &str, os: &str) -> (r: ToolResult<()>)
    ensures
        r is Ok <==> os@ == platform@,
        r matches Err(e) ==> e.code == ErrorCode::UnsupportedPlatform && e.message@
            == platform_message(setting@, platform@, os@),
{
    let platforms: [&str; 1] = [platform];
    let s: &[&str] = &platforms;
    assert(views(s@) =~= seq![platform@]);
    only_on(setting, s, os)
}

impl SharedPrefs {
    /// The flags for the preferences every one of these commands takes.
    pub fn shared_flags(&self) -> (r: Vec<String>)
        ensures
            r.deep_view() == shared_seq(*self),
    {
        let mut args: Vec<String> = Vec::new();
        push_bool(&mut args, "accept-dns", self.accept_dns);
        push_bool(&mut args, "accept-routes", self.accept_routes);
        push_bool(&mut args, "advertise-connector", self.advertise_connector);
        push_bool(&mut args, "advertise-exit-node", self.advertise_exit_node);
        push_list(&mut args, "advertise-routes", self.advertise_routes.as_ref());
        push_text(&mut args, "exit-node", opt_ref(&self.exit_node));
        push_bool(&mut args, "exit-node-allow-lan-access", self.exit_node_allow_lan_access);
        push_text(&mut args, "hostname", opt_ref(&self.hostname));
        push_text(&mut args, "operator", opt_ref(&self.operator));
        push_bool(&mut args, "report-posture", self.report_posture);
        push_bool(&mut args, "shields-up", self.shields_up);
        push_bool(&mut args, "ssh", self.ssh);
        assert(args.deep_view() =~= shared_seq(*self));
        args
    }

    /// The flags for the preferences that exist on one system only, refused
    /// here rather than by a binary that has never heard of them. `os` is the
    /// system this node runs.
    pub fn platform_flags(&self, os: &str) -> (r: ToolResult<Vec<String>>)
        ensures
            platform_outcome(*self, os@, r),
    {
        let mut args: Vec<String> = Vec::new();
        if let Some(value) = self.snat_subnet_routes {
            only_on_one("snat_subnet_routes", "linux", os)?;
            args.push(flag("snat-subnet-routes", value));
        }
        if let Some(value) = self.stateful_filtering {
            only_on_one("stateful_filtering", "linux", os)?;
            args.push(flag("stateful-filtering", value));
        }
        if let Some(mode) = self.netfilter_mode {
            only_on_one("netfilter_mode", "linux", os)?;
            args.push(flag_text("netfilter-mode", mode.as_str()));
        }
        if let Some(value) = self.unattended {
            only_on_one("unattended", "windows", os)?;
            args.push(flag("unattended", value));
        }
        assert(args.deep_view() =~= platform_seq(*self));
        Ok(args)
    }
}

/// Add one argument that was built for the purpose.
fn put(args: &mut Vec<String>, value: String)
    ensures
        final(args).deep_view() == old(args).deep_view().push(value@),
{
    let ghost before = args.deep_view();
    args.push(value);
    assert(args.deep_view() =~= before.push(value@));
}

fn opt_ref(value: &Option<String>) -> (r: Option<&str>)
    ensures
        crate::common::opt_view(r) == opt_string_view(*value),
{
    match value {
        Some(s) => Some(s.as_str()),
        None => None,
    }
}


// ---------------------------------------------------------------------------
// Shared pieces of the connect commands
// ---------------------------------------------------------------------------

/// `--timeout=<seconds>s`, the client's own bound on a connect.
pub open spec fn timeout_flag(seconds: nat) -> Seq<char> {
    "--timeout="@ + decimal(seconds) + "s"@
}

fn timeout_text(seconds: u64) -> (r: String)
    ensures
        r@ == timeout_flag(seconds as nat),
{
    let n = decimal_text(seconds);
    cat3("--timeout=", n.as_str(), "s")
}

/// The authentication-key argument that can go on the command line as it
/// stands: only a `file:` reference.
pub open spec fn key_seq(key: Option<Seq<char>>) -> Seq<Seq<char>> {
    match key {
        Some(k) => if by_reference(k) {
            seq![flag_seq("auth-key"@, k)]
        } else {
            seq![]
        },
        None => seq![],
    }
}

/// The key that has to be written to a private file before the call, so that
/// it never reaches an argument list another user can read.
pub open spec fn secret_of(key: Option<Seq<char>>) -> Option<Seq<char>> {
    match key {
        Some(k) => if by_reference(k) {
            None
        } else {
            Some(k)
        },
        None => None,
    }
}

/// Bound a caller's wait for a connect or a login, and give the client a
/// little longer than the caller waits. Answers the caller's bound and the
/// client's, in seconds.
pub fn connect_timeouts(requested: Option<u64>) -> (r: (u64, u64))
    ensures
        r.0 == crate::common::wait_seconds(requested, DEFAULT_CONNECT_TIMEOUT, MAX_CONNECT_TIMEOUT),
        r.1 == r.0 + crate::common::GRACE,
        1 <= r.0 <= MAX_CONNECT_TIMEOUT,
{
    bounded_wait(requested, DEFAULT_CONNECT_TIMEOUT, MAX_CONNECT_TIMEOUT)
}

/// Put the key argument in place: a `file:` reference goes on the command
/// line, and anything else is handed back to be written to a private file.
fn place_key(args: &mut Vec<String>, key: &Option<String>) -> (secret: Option<String>)
    ensures
        final(args).deep_view() == old(args).deep_view() + key_seq(opt_string_view(*key)),
        opt_string_view(secret) == secret_of(opt_string_view(*key)),
{
    let ghost before = args.deep_view();
    match key {
        Some(k) => {
            if starts_with(k.as_str(), "file:") {
                put(args, flag_text("auth-key", k.as_str()));
                assert(args.deep_view() =~= before + key_seq(opt_string_view(*key)));
                None
            } else {
                assert(args.deep_view() =~= before + key_seq(opt_string_view(*key)));
                Some(owned(k.as_str()))
            }
        },
        None => {
            assert(args.deep_view() =~= before + key_seq(opt_string_view(*key)));
            None
        },
    }
}

/// What a connect or a login runs: its argument list, how long the caller
/// waits and the client is given, and the key to write to a private file and
/// pass as `--auth-key=<reference>` after the other arguments, when there is
/// one.
pub struct ConnectPlan {
    pub args: Vec<String>,
    pub timeout_seconds: u64,
    pub child_seconds: u64,
    pub secret: Option<String>,
}

/// The first `https://` word of what the client printed, without trailing
/// sentence punctuation: how `login` and a non-JSON `up` hand over an
/// interactive login.
pub open spec fn first_url(text: Seq<char>) -> Option<Seq<char>> {
    first_of(prefixed_tokens(words_seq(text), seq!["https://"@]))
}

/// The first URL in a block of text.
pub fn find_url(text: &str) -> (r: Option<String>)
    ensures
        opt_string_view(r) == first_url(text@),
{
    let prefixes: [&str; 1] = ["https://"];
    let slice: &[&str] = &prefixes;
    assert(views(slice@) =~= seq!["https://"@]);
    let mut found = tokens_with_prefix(text, slice);
    if found.len() > 0 {
        Some(found.swap_remove(0))
    } else {
        None
    }
}

/// What an `up` printed, read: the state document, when standard output is
/// one, and the login URL.
pub struct ConnectReading {
    pub state: Option<serde_json::Value>,
    pub login_url: Option<String>,
}

/// The `AuthURL` a state document names, when it names one as text.
pub open spec fn auth_url_of(stdout: Seq<char>) -> Option<Seq<char>> {
    match crate::json::json_read(trim_seq(stdout)) {
        Ok(v) => crate::json::json_text_field(v, "AuthURL"@),
        Err(_) => None,
    }
}

/// Read what an `up` printed: the document standard output holds, and the
/// login URL it names, or else the first URL printed.
pub fn connect_reading(stdout: &str) -> (r: ConnectReading)
    ensures
        match crate::json::json_read(trim_seq(stdout@)) {
            Ok(v) => r.state == Some(v),
            Err(_) => r.state is None,
        },
        opt_string_view(r.login_url) == (match auth_url_of(stdout@) {
            Some(u) => if u.len() > 0 {
                Some(u)
            } else {
                first_url(stdout@)
            },
            None => first_url(stdout@),
        }),
{
    let trimmed = trim(stdout);
    match crate::json::parse_json(trimmed.as_str()) {
        Ok(v) => {
            let url = crate::json::text_field(&v, "AuthURL");
            let login_url = match &url {
                Some(u) => connect_login_url(Some(u.as_str()), stdout),
                None => connect_login_url(None, stdout),
            };
            ConnectReading { state: Some(v), login_url }
        },
        Err(_) => ConnectReading { state: None, login_url: connect_login_url(None, stdout) },
    }
}

/// The login URL of an `up`: the one its JSON document named, unless that
/// was empty or absent, and otherwise the first one it printed.
pub fn connect_login_url(auth_url: Option<&str>, stdout: &str) -> (r: Option<String>)
    ensures
        opt_string_view(r) == (match auth_url {
            Some(u) => if u@.len() > 0 {
                Some(u@)
            } else {
                first_url(stdout@)
            },
            None => first_url(stdout@),
        }),
{
    match auth_url {
        Some(u) => {
            if u.unicode_len() > 0 {
                Some(owned(u))
            } else {
                find_url(stdout)
            }
        },
        None => find_url(stdout),
    }
}

// ---------------------------------------------------------------------------
// prefs get
// ---------------------------------------------------------------------------

/// What `tailscale_prefs_get` is asked.
#[derive(Debug, Default)]
pub struct PrefsGetParams {
    /// One preference by name, with underscores or the client's own dashes.
    /// Absent for all of them.
    pub setting: Option<String>,
    /// Answer with the `tailscale set` flags that would reproduce the current
    /// preferences, instead of with the preference document.
    pub as_set_flags: bool,
}

/// A setting's name as the client spells it: dashes for underscores.
pub open spec fn dashed(s: Seq<char>) -> Seq<char> {
    s.map_values(|c: char| if c == '_' { '-' } else { c })
}

fn dash(s: &str) -> (r: String)
    ensures
        r@ == dashed(s@),
{
    let x = crate::text::chars_of(s);
    let mut r = String::new();
    let mut i: usize = 0;
    while i < x.len()
        invariant
            x@ == s@,
            i <= x@.len(),
            r@ == dashed(s@).take(i as int),
        decreases x.len() - i,
    {
        let c = if x[i] == '_' {
            '-'
        } else {
            x[i]
        };
        push_char(&mut r, c);
        assert(dashed(s@).take(i + 1) =~= dashed(s@).take(i as int).push(c));
        i = i + 1;
    }
    assert(dashed(s@).take(i as int) =~= dashed(s@));
    r
}

pub open spec fn prefs_get_seq(p: PrefsGetParams) -> Seq<Seq<char>> {
    seq!["get"@, flag_seq(if p.as_set_flags { "set-flags"@ } else { "json"@ }, "true"@)] + match p.setting {
        Some(s) => seq![dashed(s@)],
        None => seq![],
    }
}

/// The arguments of `tailscale get`: the rendering flag first, since the
/// client stops reading flags at the first positional, then the setting.
pub fn prefs_get(params: &PrefsGetParams) -> (r: Vec<String>)
    ensures
        r.deep_view() == prefs_get_seq(*params),
{
    let mut args: Vec<String> = Vec::new();
    arg(&mut args, "get");
    let rendering = if params.as_set_flags {
        "set-flags"
    } else {
        "json"
    };
    put(&mut args, flag(rendering, true));
    if let Some(setting) = &params.setting {
        put(&mut args, dash(setting.as_str()));
    }
    assert(args.deep_view() =~= prefs_get_seq(*params));
    args
}

// ---------------------------------------------------------------------------
// prefs set
// ---------------------------------------------------------------------------

/// The preferences to change, and nothing else.
#[derive(Debug, Default)]
pub struct PrefsSetParams {
    pub shared: SharedPrefs,
    /// Apply Tailscale updates automatically as they are released.
    pub auto_update: Option<bool>,
    /// Be told when an update is available.
    pub update_check: Option<bool>,
    /// Serve the node's own web interface to the tailnet on port 5252.
    pub webclient: Option<bool>,
    /// A short name for this account profile on this machine.
    pub nickname: Option<String>,
    /// The UDP port this node listens on as a peer relay. `0` picks one at
    /// random, and an empty string turns the relay off.
    pub relay_server_port: Option<String>,
    /// Fixed `address:port` endpoints to advertise as a peer relay.
    pub relay_server_static_endpoints: Option<Vec<String>>,
}

/// Every flag a `set` passes, in order: exactly the preferences named.
pub open spec fn set_seq(p: PrefsSetParams) -> Seq<Seq<char>> {
    shared_seq(p.shared) + platform_seq(p.shared) + opt_bool("auto-update"@, p.auto_update)
        + opt_bool("update-check"@, p.update_check) + opt_bool("webclient"@, p.webclient)
        + opt_text("nickname"@, opt_string_view(p.nickname)) + opt_text(
        "relay-server-port"@,
        opt_string_view(p.relay_server_port),
    ) + opt_list("relay-server-static-endpoints"@, list_view(p.relay_server_static_endpoints))
}

pub open spec fn nothing_to_set() -> Seq<char> {
    "name at least one preference to change; `tailscale_prefs_set` changes only what it is given"@
}

/// What a `set` runs, and the flags it reports as applied.
pub struct PrefsSetPlan {
    pub args: Vec<String>,
    pub applied: Vec<String>,
}

/// The `tailscale set` call for these preferences on a node running `os`.
/// Refused when a preference does not exist there, or when none was named,
/// since a `set` of nothing would be a call that does nothing.
pub fn prefs_set(params: &PrefsSetParams, os: &str) -> (r: ToolResult<PrefsSetPlan>)
    ensures
        platform_refusal(params.shared, os@) matches Some((setting, platform)) ==> (r matches Err(e)
            && e.code == ErrorCode::UnsupportedPlatform && e.message@ == platform_message(
            setting,
            platform,
            os@,
        )),
        platform_refusal(params.shared, os@) is None && set_seq(*params).len() == 0 ==> (r matches Err(
            e,
        ) && e.code == ErrorCode::InvalidArgs && e.message@ == nothing_to_set()),
        platform_refusal(params.shared, os@) is None && set_seq(*params).len() > 0 ==> (r matches Ok(
            plan,
        ) && plan.applied.deep_view() == set_seq(*params) && plan.args.deep_view() == seq!["set"@]
            + set_seq(*params)),
{
    let mut flags = params.shared.shared_flags();
    let platform = params.shared.platform_flags(os)?;
    extend(&mut flags, &platform);
    push_bool(&mut flags, "auto-update", params.auto_update);
    push_bool(&mut flags, "update-check", params.update_check);
    push_bool(&mut flags, "webclient", params.webclient);
    push_text(&mut flags, "nickname", opt_ref(&params.nickname));
    push_text(&mut flags, "relay-server-port", opt_ref(&params.relay_server_port));
    push_list(
        &mut flags,
        "relay-server-static-endpoints",
        params.relay_server_static_endpoints.as_ref(),
    );
    assert(flags.deep_view() =~= set_seq(*params));
    if flags.len() == 0 {
        return Err(
            ToolError::invalid_args(
                owned(
                    "name at least one preference to change; `tailscale_prefs_set` changes only what it is given",
                ),
            ),
        );
    }
    let mut args: Vec<String> = Vec::new();
    arg(&mut args, "set");
    extend(&mut args, &flags);
    Ok(PrefsSetPlan { args, applied: flags })
}

/// What a `set` answers: the flags applied, and anything the client said.
#[derive(Debug)]
pub struct PrefsSetReport {
    /// The flags that were applied, in the order they were passed. Exactly the
    /// preferences that were named: everything else was left alone.
    pub applied: Vec<String>,
    pub note: Option<String>,
}

// ---------------------------------------------------------------------------
// up
// ---------------------------------------------------------------------------

/// The whole preference set to connect with. Anything left out returns to its
/// default.
#[derive(Debug, Default)]
pub struct UpParams {
    pub shared: SharedPrefs,
    /// ACL tags to claim for this node.
    pub advertise_tags: Option<Vec<String>>,
    /// An authentication key, or `file:<path>` to read it from a file.
    pub auth_key: Option<String>,
    /// A control server other than Tailscale's own.
    pub login_server: Option<String>,
    /// Seconds to wait for the node to come up. Capped at 300.
    pub timeout_seconds: Option<u64>,
    /// Log in again even though the node is already authenticated.
    pub force_reauth: Option<bool>,
    /// Return every preference not named here to its default.
    pub reset: Option<bool>,
}

pub open spec fn up_seq(p: UpParams, seconds: nat) -> Seq<Seq<char>> {
    seq!["up"@, flag_seq("json"@, "true"@)] + shared_seq(p.shared) + platform_seq(p.shared)
        + opt_list("advertise-tags"@, list_view(p.advertise_tags)) + opt_text(
        "login-server"@,
        opt_string_view(p.login_server),
    ) + opt_bool("force-reauth"@, p.force_reauth) + opt_bool("reset"@, p.reset) + seq![
        timeout_flag(seconds),
        ACCEPTED_RISKS@,
    ] + key_seq(opt_string_view(p.auth_key))
}

/// The `tailscale up` call for this preference set on a node running `os`.
/// The caller confirmed the call, so the client's risk question is answered;
/// the wait is bounded whatever was asked for.
#[verifier::spinoff_prover]
pub fn up(params: &UpParams, os: &str) -> (r: ToolResult<ConnectPlan>)
    ensures
        platform_refusal(params.shared, os@) matches Some((setting, platform)) ==> (r matches Err(e)
            && e.code == ErrorCode::UnsupportedPlatform && e.message@ == platform_message(
            setting,
            platform,
            os@,
        )),
        platform_refusal(params.shared, os@) is None ==> (r matches Ok(plan)
            && plan.timeout_seconds == crate::common::wait_seconds(
            params.timeout_seconds,
            DEFAULT_CONNECT_TIMEOUT,
            MAX_CONNECT_TIMEOUT,
        ) && plan.child_seconds == plan.timeout_seconds + crate::common::GRACE
            && plan.args.deep_view() == up_seq(*params, plan.timeout_seconds as nat)
            && opt_string_view(plan.secret) == secret_of(opt_string_view(params.auth_key))),
{
    let (seconds, child) = connect_timeouts(params.timeout_seconds);
    let mut args: Vec<String> = Vec::new();
    arg(&mut args, "up");
    put(&mut args, flag("json", true));
    let shared = params.shared.shared_flags();
    extend(&mut args, &shared);
    let platform = params.shared.platform_flags(os)?;
    extend(&mut args, &platform);
    push_list(&mut args, "advertise-tags", params.advertise_tags.as_ref());
    push_text(&mut args, "login-server", opt_ref(&params.login_server));
    push_bool(&mut args, "force-reauth", params.force_reauth);
    push_bool(&mut args, "reset", params.reset);
    put(&mut args, timeout_text(seconds));
    arg(&mut args, ACCEPTED_RISKS);
    let secret = place_key(&mut args, &params.auth_key);
    assert(args.deep_view() =~= up_seq(*params, seconds as nat));
    Ok(ConnectPlan { args, timeout_seconds: seconds, child_seconds: child, secret })
}

// ---------------------------------------------------------------------------
// login
// ---------------------------------------------------------------------------

/// The identity to log in as, and the preferences to log in with.
#[derive(Debug, Default)]
pub struct LoginParams {
    pub shared: SharedPrefs,
    /// ACL tags to claim for this node.
    pub advertise_tags: Option<Vec<String>>,
    /// An authentication key, or `file:<path>` to read it from a file.
    pub auth_key: Option<String>,
    /// A control server other than Tailscale's own.
    pub login_server: Option<String>,
    /// A short name for the account profile this login creates.
    pub nickname: Option<String>,
    /// Seconds to wait for the login to complete. Capped at 300.
    pub timeout_seconds: Option<u64>,
}

pub open spec fn login_seq(p: LoginParams, seconds: nat) -> Seq<Seq<char>> {
    seq!["login"@] + shared_seq(p.shared) + platform_seq(p.shared) + opt_list(
        "advertise-tags"@,
        list_view(p.advertise_tags),
    ) + opt_text("login-server"@, opt_string_view(p.login_server)) + opt_text(
        "nickname"@,
        opt_string_view(p.nickname),
    ) + seq![timeout_flag(seconds)] + key_seq(opt_string_view(p.auth_key))
}

/// The `tailscale login` call for these preferences on a node running `os`.
#[verifier::spinoff_prover]
pub fn login(params: &LoginParams, os: &str) -> (r: ToolResult<ConnectPlan>)
    ensures
        platform_refusal(params.shared, os@) matches Some((setting, platform)) ==> (r matches Err(e)
            && e.code == ErrorCode::UnsupportedPlatform && e.message@ == platform_message(
            setting,
            platform,
            os@,
        )),
        platform_refusal(params.shared, os@) is None ==> (r matches Ok(plan)
            && plan.timeout_seconds == crate::common::wait_seconds(
            params.timeout_seconds,
            DEFAULT_CONNECT_TIMEOUT,
            MAX_CONNECT_TIMEOUT,
        ) && plan.child_seconds == plan.timeout_seconds + crate::common::GRACE
            && plan.args.deep_view() == login_seq(*params, plan.timeout_seconds as nat)
            && opt_string_view(plan.secret) == secret_of(opt_string_view(params.auth_key))),
{
    let (seconds, child) = connect_timeouts(params.timeout_seconds);
    let mut args: Vec<String> = Vec::new();
    arg(&mut args, "login");
    let shared = params.shared.shared_flags();
    extend(&mut args, &shared);
    let platform = params.shared.platform_flags(os)?;
    extend(&mut args, &platform);
    push_list(&mut args, "advertise-tags", params.advertise_tags.as_ref());
    push_text(&mut args, "login-server", opt_ref(&params.login_server));
    push_text(&mut args, "nickname", opt_ref(&params.nickname));
    put(&mut args, timeout_text(seconds));
    let secret = place_key(&mut args, &params.auth_key);
    assert(args.deep_view() =~= login_seq(*params, seconds as nat));
    Ok(ConnectPlan { args, timeout_seconds: seconds, child_seconds: child, secret })
}

/// What a login answers.
#[derive(Debug)]
pub struct LoginReport {
    /// The URL a person has to open to finish the login, when the client
    /// printed one.
    pub login_url: Option<String>,
    /// How long the call was allowed to wait.
    pub timeout_seconds: u64,
    /// What the client printed, which is where the login instructions are.
    pub output: String,
    pub note: Option<String>,
}

/// The answer to a login, from what the client printed (already redacted
/// and trimmed).
pub fn login_report(printed: String, timeout_seconds: u64, note: Option<String>) -> (r: LoginReport)
    ensures
        opt_string_view(r.login_url) == first_url(printed@),
        r.output@ == printed@,
        r.timeout_seconds == timeout_seconds,
        r.note == note,
{
    let login_url = find_url(printed.as_str());
    LoginReport { login_url, timeout_seconds, output: printed, note }
}

// ---------------------------------------------------------------------------
// down, logout, switch
// ---------------------------------------------------------------------------

/// Why the node is being disconnected, for tailnets whose policy asks.
#[derive(Debug, Default)]
pub struct DownParams {
    pub reason: Option<String>,
}

/// What a disconnect answers: what was done, and anything the client said.
#[derive(Debug)]
pub struct DisconnectReport {
    pub outcome: &'static str,
    pub note: Option<String>,
}

/// `tailscale down`, with the risk accepted and a reason when one was given.
pub fn down(params: &DownParams) -> (r: Vec<String>)
    ensures
        r.deep_view() == seq!["down"@, ACCEPTED_RISKS@] + opt_text(
            "reason"@,
            opt_string_view(params.reason),
        ),
{
    let mut args: Vec<String> = Vec::new();
    arg(&mut args, "down");
    arg(&mut args, ACCEPTED_RISKS);
    push_text(&mut args, "reason", opt_ref(&params.reason));
    assert(args.deep_view() =~= seq!["down"@, ACCEPTED_RISKS@] + opt_text(
        "reason"@,
        opt_string_view(params.reason),
    ));
    args
}

/// Why the node is being logged out, for tailnets whose policy asks.
#[derive(Debug, Default)]
pub struct LogoutParams {
    pub reason: Option<String>,
}

/// `tailscale logout`, with a reason when one was given.
pub fn logout(params: &LogoutParams) -> (r: Vec<String>)
    ensures
        r.deep_view() == seq!["logout"@] + opt_text("reason"@, opt_string_view(params.reason)),
{
    let mut args: Vec<String> = Vec::new();
    arg(&mut args, "logout");
    push_text(&mut args, "reason", opt_ref(&params.reason));
    assert(args.deep_view() =~= seq!["logout"@] + opt_text("reason"@, opt_string_view(params.reason)));
    args
}

/// The answer to a `down` or a `logout`.
pub fn disconnect_report(logged_out: bool, note: Option<String>) -> (r: DisconnectReport)
    ensures
        r.outcome@ == (if logged_out { "logged out"@ } else { "disconnected"@ }),
        r.note == note,
{
    let outcome = if logged_out {
        "logged out"
    } else {
        "disconnected"
    };
    DisconnectReport { outcome, note }
}

/// The account to switch to.
#[derive(Debug, Default)]
pub struct SwitchParams {
    pub account: String,
}

/// The stored account to forget.
#[derive(Debug, Default)]
pub struct SwitchRemoveParams {
    pub account: String,
}

/// What a switch answers, naming the account it was about.
#[derive(Debug)]
pub struct SwitchReport {
    pub account: String,
    pub outcome: &'static str,
    pub note: Option<String>,
}

/// `tailscale switch <account>`.
pub fn switch_profile(params: &SwitchParams) -> (r: Vec<String>)
    ensures
        r.deep_view() == seq!["switch"@, params.account@],
{
    let mut args: Vec<String> = Vec::new();
    arg(&mut args, "switch");
    arg(&mut args, params.account.as_str());
    assert(args.deep_view() =~= seq!["switch"@, params.account@]);
    args
}

/// `tailscale switch remove <account>`.
pub fn switch_remove(params: &SwitchRemoveParams) -> (r: Vec<String>)
    ensures
        r.deep_view() == seq!["switch"@, "remove"@, params.account@],
{
    let mut args: Vec<String> = Vec::new();
    arg(&mut args, "switch");
    arg(&mut args, "remove");
    arg(&mut args, params.account.as_str());
    assert(args.deep_view() =~= seq!["switch"@, "remove"@, params.account@]);
    args
}

/// The answer to a switch or a removal.
pub fn switch_report(account: String, removed: bool, note: Option<String>) -> (r: SwitchReport)
    ensures
        r.account@ == account@,
        r.outcome@ == (if removed { "removed"@ } else { "switched"@ }),
        r.note == note,
{
    let outcome = if removed {
        "removed"
    } else {
        "switched"
    };
    SwitchReport { account, outcome, note }
}

/// The names of this toolset's tools, in the order of its table.
pub open spec fn tool_names() -> Seq<Seq<char>> {
    seq![
        "tailscale_prefs_get"@,
        "tailscale_prefs_set"@,
        "tailscale_up"@,
        "tailscale_down"@,
        "tailscale_login"@,
        "tailscale_logout"@,
        "tailscale_switch_profile"@,
        "tailscale_switch_remove"@,
    ]
}

/// Every tool of this toolset, in the order a client lists them.
pub fn entries() -> (r: Vec<ToolEntry>)
    ensures
        forall|i: int| 0 <= i < r.len() ==> (#[trigger] r[i]).meta.name@ == tool_names()[i],
        r.len() == 8,
        forall|i: int|
            0 <= i < r.len() ==> (#[trigger] r[i]).meta.toolset == Toolset::LocalPrefs
                && crate::registry::row_ok(r[i]),
{
    proof {
        reveal_strlit("tailscale_");
        reveal_strlit("tailscale_prefs_get");
        reveal_strlit("tailscale_prefs_set");
        reveal_strlit("tailscale_up");
        reveal_strlit("tailscale_down");
        reveal_strlit("tailscale_login");
        reveal_strlit("tailscale_logout");
        reveal_strlit("tailscale_switch_profile");
        reveal_strlit("tailscale_switch_remove");
    }
    vec![
        ToolEntry {
            meta: ToolMeta {
                name: "tailscale_prefs_get",
                summary: "Show the node's current preferences: one setting by name, or all of them. Reads only; use `tailscale_prefs_set` to change anything.",
                toolset: Toolset::LocalPrefs,
                tier: Tier::Read,
                idempotent: true,
                requires_confirmation: false,
                self_severing: false,
                varying: false,
                since: Some("1.90"),
            },
        },
        ToolEntry {
            meta: ToolMeta {
                name: "tailscale_prefs_set",
                summary: "Change only the preferences named here, leaving every other preference as it is. This is the tool to reach for on a node that is already connected: unlike `tailscale_up` it does not restate the whole preference set, so it cannot reset something by omitting it.",
                toolset: Toolset::LocalPrefs,
                tier: Tier::Write,
                idempotent: true,
                requires_confirmation: false,
                self_severing: false,
                varying: false,
                since: None,
            },
        },
        ToolEntry {
            meta: ToolMeta {
                name: "tailscale_up",
                summary: "Connect this node to the tailnet, logging in if it is not already, and apply the preferences given here.

This applies a *whole* preference set: anything not restated goes back to its default. On a node that is already connected, use `tailscale_prefs_set` instead unless you mean to reset the rest. Without an authentication key the client prints a login URL and waits, so the call is bounded by `timeout_seconds` and returns the URL when it has one.",
                toolset: Toolset::LocalPrefs,
                tier: Tier::Destructive,
                idempotent: false,
                requires_confirmation: true,
                self_severing: true,
                varying: false,
                since: None,
            },
        },
        ToolEntry {
            meta: ToolMeta {
                name: "tailscale_down",
                summary: "Disconnect this node from the tailnet. The node stays logged in and can be reconnected with `tailscale_up`.",
                toolset: Toolset::LocalPrefs,
                tier: Tier::Destructive,
                idempotent: false,
                requires_confirmation: true,
                self_severing: true,
                varying: false,
                since: None,
            },
        },
        ToolEntry {
            meta: ToolMeta {
                name: "tailscale_login",
                summary: "Log in, adding a new account profile if this node is already logged in to another. Prints a login URL and waits when no authentication key is given, bounded by `timeout_seconds`.",
                toolset: Toolset::LocalPrefs,
                tier: Tier::Write,
                idempotent: false,
                requires_confirmation: true,
                self_severing: true,
                varying: false,
                since: None,
            },
        },
        ToolEntry {
            meta: ToolMeta {
                name: "tailscale_logout",
                summary: "Log out and expire this node's key. The node disconnects, and coming back needs a fresh login rather than a reconnect.",
                toolset: Toolset::LocalPrefs,
                tier: Tier::Destructive,
                idempotent: false,
                requires_confirmation: true,
                self_severing: true,
                varying: false,
                since: None,
            },
        },
        ToolEntry {
            meta: ToolMeta {
                name: "tailscale_switch_profile",
                summary: "Switch this machine to one of the other accounts stored on it, which restarts the connection under that account's identity. Use `tailscale_switch_list` to see the accounts and their ids.",
                toolset: Toolset::LocalPrefs,
                tier: Tier::Write,
                idempotent: false,
                requires_confirmation: true,
                self_severing: true,
                varying: false,
                since: None,
            },
        },
        ToolEntry {
            meta: ToolMeta {
                name: "tailscale_switch_remove",
                summary: "Forget one of the accounts stored on this machine. The account itself is untouched; it is logging in again that brings it back.",
                toolset: Toolset::LocalPrefs,
                tier: Tier::Destructive,
                idempotent: false,
                requires_confirmation: true,
                self_severing: false,
                varying: false,
                since: None,
            },
        },
    ]
}



/// A key given as itself never reaches the command line: it is handed back to
/// be written to a private file. Only a `file:` reference, which is a path and
/// not a secret, is passed as it stands.
pub proof fn a_literal_key_stays_off_the_command_line(key: Seq<char>)
    ensures
        !by_reference(key) ==> key_seq(Some(key)) == Seq::<Seq<char>>::empty() && secret_of(
            Some(key),
        ) == Some(key),
        by_reference(key) ==> key_seq(Some(key)) == seq![flag_seq("auth-key"@, key)] && secret_of(
            Some(key),
        ) is None,
{
}

/// An `up`, which the caller has confirmed, always passes the client's own
/// risk acceptance, so the client never waits on a question nobody can see.
pub proof fn up_accepts_the_risk_it_was_confirmed_for(params: UpParams, seconds: nat)
    ensures
        up_seq(params, seconds).contains(ACCEPTED_RISKS@),
{
    let s = up_seq(params, seconds);
    let before = seq!["up"@, flag_seq("json"@, "true"@)] + shared_seq(params.shared) + platform_seq(
        params.shared,
    ) + opt_list("advertise-tags"@, list_view(params.advertise_tags)) + opt_text(
        "login-server"@,
        opt_string_view(params.login_server),
    ) + opt_bool("force-reauth"@, params.force_reauth) + opt_bool("reset"@, params.reset);
    assert(s[(before.len() + 1) as int] == ACCEPTED_RISKS@);
}


/// The flags of the shared preferences, as pieces of at most one flag each.
proof fn lemma_shared_pieces(p: SharedPrefs)
    ensures
        shared_seq(p) == opt_text("accept-dns"@, (match p.accept_dns { Some(b) => Some(bool_seq(b)), None => None::<Seq<char>> })) + opt_text("accept-routes"@, (match p.accept_routes { Some(b) => Some(bool_seq(b)), None => None::<Seq<char>> })) + opt_text("advertise-connector"@, (match p.advertise_connector { Some(b) => Some(bool_seq(b)), None => None::<Seq<char>> })) + opt_text("advertise-exit-node"@, (match p.advertise_exit_node { Some(b) => Some(bool_seq(b)), None => None::<Seq<char>> })) + opt_text("advertise-routes"@, (match list_view(p.advertise_routes) { Some(vs) => Some(join_seq(vs, ","@)), None => None::<Seq<char>> })) + opt_text("exit-node"@, opt_string_view(p.exit_node)) + opt_text("exit-node-allow-lan-access"@, (match p.exit_node_allow_lan_access { Some(b) => Some(bool_seq(b)), None => None::<Seq<char>> })) + opt_text("hostname"@, opt_string_view(p.hostname)) + opt_text("operator"@, opt_string_view(p.operator)) + opt_text("report-posture"@, (match p.report_posture { Some(b) => Some(bool_seq(b)), None => None::<Seq<char>> })) + opt_text("shields-up"@, (match p.shields_up { Some(b) => Some(bool_seq(b)), None => None::<Seq<char>> })) + opt_text("ssh"@, (match p.ssh { Some(b) => Some(bool_seq(b)), None => None::<Seq<char>> })),
{
    assert(shared_seq(p) =~= opt_text("accept-dns"@, (match p.accept_dns { Some(b) => Some(bool_seq(b)), None => None::<Seq<char>> })) + opt_text("accept-routes"@, (match p.accept_routes { Some(b) => Some(bool_seq(b)), None => None::<Seq<char>> })) + opt_text("advertise-connector"@, (match p.advertise_connector { Some(b) => Some(bool_seq(b)), None => None::<Seq<char>> })) + opt_text("advertise-exit-node"@, (match p.advertise_exit_node { Some(b) => Some(bool_seq(b)), None => None::<Seq<char>> })) + opt_text("advertise-routes"@, (match list_view(p.advertise_routes) { Some(vs) => Some(join_seq(vs, ","@)), None => None::<Seq<char>> })) + opt_text("exit-node"@, opt_string_view(p.exit_node)) + opt_text("exit-node-allow-lan-access"@, (match p.exit_node_allow_lan_access { Some(b) => Some(bool_seq(b)), None => None::<Seq<char>> })) + opt_text("hostname"@, opt_string_view(p.hostname)) + opt_text("operator"@, opt_string_view(p.operator)) + opt_text("report-posture"@, (match p.report_posture { Some(b) => Some(bool_seq(b)), None => None::<Seq<char>> })) + opt_text("shields-up"@, (match p.shields_up { Some(b) => Some(bool_seq(b)), None => None::<Seq<char>> })) + opt_text("ssh"@, (match p.ssh { Some(b) => Some(bool_seq(b)), None => None::<Seq<char>> })));
}

/// Which piece of the shared flags carries a flag of name `n` and value `v`.
proof fn lemma_shared_carries(p: SharedPrefs, n: Seq<char>, v: Seq<char>)
    requires
        flag_name_ok(n),
    ensures
        shared_seq(p).contains(flag_seq(n, v)) <==> {
            ||| (n == "accept-dns"@ && (match p.accept_dns { Some(b) => Some(bool_seq(b)), None => None::<Seq<char>> }) == Some(v))
            ||| (n == "accept-routes"@ && (match p.accept_routes { Some(b) => Some(bool_seq(b)), None => None::<Seq<char>> }) == Some(v))
            ||| (n == "advertise-connector"@ && (match p.advertise_connector { Some(b) => Some(bool_seq(b)), None => None::<Seq<char>> }) == Some(v))
            ||| (n == "advertise-exit-node"@ && (match p.advertise_exit_node { Some(b) => Some(bool_seq(b)), None => None::<Seq<char>> }) == Some(v))
            ||| (n == "advertise-routes"@ && (match list_view(p.advertise_routes) { Some(vs) => Some(join_seq(vs, ","@)), None => None::<Seq<char>> }) == Some(v))
            ||| (n == "exit-node"@ && opt_string_view(p.exit_node) == Some(v))
            ||| (n == "exit-node-allow-lan-access"@ && (match p.exit_node_allow_lan_access { Some(b) => Some(bool_seq(b)), None => None::<Seq<char>> }) == Some(v))
            ||| (n == "hostname"@ && opt_string_view(p.hostname) == Some(v))
            ||| (n == "operator"@ && opt_string_view(p.operator) == Some(v))
            ||| (n == "report-posture"@ && (match p.report_posture { Some(b) => Some(bool_seq(b)), None => None::<Seq<char>> }) == Some(v))
            ||| (n == "shields-up"@ && (match p.shields_up { Some(b) => Some(bool_seq(b)), None => None::<Seq<char>> }) == Some(v))
            ||| (n == "ssh"@ && (match p.ssh { Some(b) => Some(bool_seq(b)), None => None::<Seq<char>> }) == Some(v))
        },
{
    reveal_strlit("accept-dns");
    reveal_strlit("accept-routes");
    reveal_strlit("advertise-connector");
    reveal_strlit("advertise-exit-node");
    reveal_strlit("advertise-routes");
    reveal_strlit("exit-node");
    reveal_strlit("exit-node-allow-lan-access");
    reveal_strlit("hostname");
    reveal_strlit("operator");
    reveal_strlit("report-posture");
    reveal_strlit("shields-up");
    reveal_strlit("ssh");
    assert(flag_name_ok("accept-dns"@));
    assert(flag_name_ok("accept-routes"@));
    assert(flag_name_ok("advertise-connector"@));
    assert(flag_name_ok("advertise-exit-node"@));
    assert(flag_name_ok("advertise-routes"@));
    assert(flag_name_ok("exit-node"@));
    assert(flag_name_ok("exit-node-allow-lan-access"@));
    assert(flag_name_ok("hostname"@));
    assert(flag_name_ok("operator"@));
    assert(flag_name_ok("report-posture"@));
    assert(flag_name_ok("shields-up"@));
    assert(flag_name_ok("ssh"@));
    lemma_shared_pieces(p);
    broadcast use vstd::seq_lib::lemma_seq_concat_contains_all_elements;
    lemma_optional_flag_carries("accept-dns"@, (match p.accept_dns { Some(b) => Some(bool_seq(b)), None => None::<Seq<char>> }), n, v);
    lemma_optional_flag_carries("accept-routes"@, (match p.accept_routes { Some(b) => Some(bool_seq(b)), None => None::<Seq<char>> }), n, v);
    lemma_optional_flag_carries("advertise-connector"@, (match p.advertise_connector { Some(b) => Some(bool_seq(b)), None => None::<Seq<char>> }), n, v);
    lemma_optional_flag_carries("advertise-exit-node"@, (match p.advertise_exit_node { Some(b) => Some(bool_seq(b)), None => None::<Seq<char>> }), n, v);
    lemma_optional_flag_carries("advertise-routes"@, (match list_view(p.advertise_routes) { Some(vs) => Some(join_seq(vs, ","@)), None => None::<Seq<char>> }), n, v);
    lemma_optional_flag_carries("exit-node"@, opt_string_view(p.exit_node), n, v);
    lemma_optional_flag_carries("exit-node-allow-lan-access"@, (match p.exit_node_allow_lan_access { Some(b) => Some(bool_seq(b)), None => None::<Seq<char>> }), n, v);
    lemma_optional_flag_carries("hostname"@, opt_string_view(p.hostname), n, v);
    lemma_optional_flag_carries("operator"@, opt_string_view(p.operator), n, v);
    lemma_optional_flag_carries("report-posture"@, (match p.report_posture { Some(b) => Some(bool_seq(b)), None => None::<Seq<char>> }), n, v);
    lemma_optional_flag_carries("shields-up"@, (match p.shields_up { Some(b) => Some(bool_seq(b)), None => None::<Seq<char>> }), n, v);
    lemma_optional_flag_carries("ssh"@, (match p.ssh { Some(b) => Some(bool_seq(b)), None => None::<Seq<char>> }), n, v);
}

/// Every shared preference reaches the command line under its own flag and
/// no other: a flag of a preference's name, with a given value, is among the
/// arguments exactly when that preference was given that value.
pub proof fn each_preference_reaches_its_own_flag(p: SharedPrefs, v: Seq<char>)
    ensures
        shared_seq(p).contains(flag_seq("accept-dns"@, v)) <==> (p.accept_dns matches Some(b) && v == bool_seq(b)),
        shared_seq(p).contains(flag_seq("accept-routes"@, v)) <==> (p.accept_routes matches Some(b) && v == bool_seq(b)),
        shared_seq(p).contains(flag_seq("advertise-connector"@, v)) <==> (p.advertise_connector matches Some(b) && v == bool_seq(b)),
        shared_seq(p).contains(flag_seq("advertise-exit-node"@, v)) <==> (p.advertise_exit_node matches Some(b) && v == bool_seq(b)),
        shared_seq(p).contains(flag_seq("advertise-routes"@, v)) <==> (p.advertise_routes matches Some(rs) && v == join_seq(rs.deep_view(), ","@)),
        shared_seq(p).contains(flag_seq("exit-node"@, v)) <==> (p.exit_node matches Some(s) && v == s@),
        shared_seq(p).contains(flag_seq("exit-node-allow-lan-access"@, v)) <==> (p.exit_node_allow_lan_access matches Some(b) && v == bool_seq(b)),
        shared_seq(p).contains(flag_seq("hostname"@, v)) <==> (p.hostname matches Some(s) && v == s@),
        shared_seq(p).contains(flag_seq("operator"@, v)) <==> (p.operator matches Some(s) && v == s@),
        shared_seq(p).contains(flag_seq("report-posture"@, v)) <==> (p.report_posture matches Some(b) && v == bool_seq(b)),
        shared_seq(p).contains(flag_seq("shields-up"@, v)) <==> (p.shields_up matches Some(b) && v == bool_seq(b)),
        shared_seq(p).contains(flag_seq("ssh"@, v)) <==> (p.ssh matches Some(b) && v == bool_seq(b)),
{
    reveal_strlit("accept-dns");
    reveal_strlit("accept-routes");
    reveal_strlit("advertise-connector");
    reveal_strlit("advertise-exit-node");
    reveal_strlit("advertise-routes");
    reveal_strlit("exit-node");
    reveal_strlit("exit-node-allow-lan-access");
    reveal_strlit("hostname");
    reveal_strlit("operator");
    reveal_strlit("report-posture");
    reveal_strlit("shields-up");
    reveal_strlit("ssh");
    assert(flag_name_ok("accept-dns"@));
    assert(flag_name_ok("accept-routes"@));
    assert(flag_name_ok("advertise-connector"@));
    assert(flag_name_ok("advertise-exit-node"@));
    assert(flag_name_ok("advertise-routes"@));
    assert(flag_name_ok("exit-node"@));
    assert(flag_name_ok("exit-node-allow-lan-access"@));
    assert(flag_name_ok("hostname"@));
    assert(flag_name_ok("operator"@));
    assert(flag_name_ok("report-posture"@));
    assert(flag_name_ok("shields-up"@));
    assert(flag_name_ok("ssh"@));
    assert("accept-dns"@[0] != "shields-up"@[0]);
    assert("advertise-connector"@[10] != "advertise-exit-node"@[10]);
    assert("hostname"@[0] != "operator"@[0]);
    lemma_shared_carries(p, "accept-dns"@, v);
    lemma_shared_carries(p, "accept-routes"@, v);
    lemma_shared_carries(p, "advertise-connector"@, v);
    lemma_shared_carries(p, "advertise-exit-node"@, v);
    lemma_shared_carries(p, "advertise-routes"@, v);
    lemma_shared_carries(p, "exit-node"@, v);
    lemma_shared_carries(p, "exit-node-allow-lan-access"@, v);
    lemma_shared_carries(p, "hostname"@, v);
    lemma_shared_carries(p, "operator"@, v);
    lemma_shared_carries(p, "report-posture"@, v);
    lemma_shared_carries(p, "shields-up"@, v);
    lemma_shared_carries(p, "ssh"@, v);
}

} // verus!
