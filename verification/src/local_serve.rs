//! Publishing a local server: to the tailnet with `serve`, to the internet
//! with `funnel`.
//!
//! Both commands run in the foreground by default, holding the terminal until
//! interrupted, which a tool call can never do, so `--bg=true` is passed on
//! every call that sets or clears a handler. `--yes=true` answers the client's
//! own prompt before it is asked: a prompt nobody can see is a hang, and the
//! question it asks is one this server asks in its own terms.
//!
//! Serve and funnel write to one configuration, which is why `reset` appears
//! once rather than twice.

use vstd::prelude::*;
use crate::registry::{ToolEntry, ToolMeta};
use crate::meta::{Tier, Toolset};

use crate::common::{arg, extend, flag, flag_seq, opt_bool, opt_list, opt_string_view, opt_text,
    push_list, push_text};
use crate::error::{ToolError, ToolResult};
use crate::text::{
    cat2, cat3, decimal, decimal_text, join_seq, owned, starts_with, trim, trim_seq,
};

verus! {

/// Run in the background. The client's default is to hold the foreground
/// until it is interrupted.
pub const BACKGROUND: &'static str = "--bg=true";

/// Answer the client's own prompt, whose question the `confirm` parameter has
/// already asked in terms the caller can see.
pub const NO_PROMPT: &'static str = "--yes=true";

/// The word that turns a set into a clear, in the position the target
/// occupies.
pub const OFF: &'static str = "off";

/// A tool that takes nothing.
#[derive(Debug, Default, Clone, Copy)]
pub struct NoParams {}

// ---------------------------------------------------------------------------
// Endpoints
// ---------------------------------------------------------------------------

/// The endpoint selectors every `serve` and `funnel` call shares.
#[derive(Debug, Default)]
pub struct EndpointParams {
    /// Expose an HTTPS server on this port. The default when no endpoint is
    /// named at all is HTTPS on port 443.
    pub https: Option<u16>,
    /// Forward raw TCP on this port instead of speaking HTTP.
    pub tcp: Option<u16>,
    /// Forward TCP on this port, terminating TLS here.
    pub tls_terminated_tcp: Option<u16>,
    /// Serve under this path rather than at the root.
    pub set_path: Option<String>,
}

/// One endpoint: the scheme as the client's flag names it, and the port.
pub type Endpoint = (&'static str, u16);

pub open spec fn one_if(scheme: Seq<char>, port: Option<u16>) -> Seq<(Seq<char>, u16)> {
    match port {
        Some(p) => seq![(scheme, p)],
        None => seq![],
    }
}

/// The endpoints a call named, in the order the flags are documented.
pub open spec fn shared_chosen(e: EndpointParams) -> Seq<(Seq<char>, u16)> {
    one_if("https"@, e.https) + one_if("tcp"@, e.tcp) + one_if(
        "tls-terminated-tcp"@,
        e.tls_terminated_tcp,
    )
}

pub open spec fn endpoint_views(v: Seq<Endpoint>) -> Seq<(Seq<char>, u16)> {
    v.map_values(|e: Endpoint| (e.0@, e.1))
}

fn push_if(chosen: &mut Vec<Endpoint>, scheme: &'static str, port: Option<u16>)
    ensures
        endpoint_views(final(chosen)@) == endpoint_views(old(chosen)@) + one_if(scheme@, port),
{
    let ghost before = chosen@;
    if let Some(p) = port {
        chosen.push((scheme, p));
    }
    assert(endpoint_views(chosen@) =~= endpoint_views(before) + one_if(scheme@, port));
}

impl EndpointParams {
    /// The endpoints this call named, for [`one_endpoint`] to reduce to the
    /// one the client will accept.
    pub fn shared_endpoints(&self) -> (r: Vec<Endpoint>)
        ensures
            endpoint_views(r@) == shared_chosen(*self),
    {
        let mut chosen: Vec<Endpoint> = Vec::new();
        push_if(&mut chosen, "https", self.https);
        push_if(&mut chosen, "tcp", self.tcp);
        push_if(&mut chosen, "tls-terminated-tcp", self.tls_terminated_tcp);
        assert(endpoint_views(chosen@) =~= shared_chosen(*self));
        chosen
    }
}

/// An endpoint as an answer writes it: `scheme:port`.
pub open spec fn described(e: (Seq<char>, u16)) -> Seq<char> {
    e.0 + ":"@ + decimal(e.1 as nat)
}

pub open spec fn described_all(v: Seq<(Seq<char>, u16)>) -> Seq<Seq<char>> {
    v.map_values(|e: (Seq<char>, u16)| described(e))
}

fn endpoint_text(e: Endpoint) -> (r: String)
    ensures
        r@ == described((e.0@, e.1)),
{
    let n = decimal_text(e.1 as u64);
    cat3(e.0, ":", n.as_str())
}

fn describe_all(chosen: &Vec<Endpoint>) -> (r: String)
    ensures
        r@ == join_seq(described_all(endpoint_views(chosen@)), ", "@),
{
    let ghost all = described_all(endpoint_views(chosen@));
    let mut r = String::new();
    let mut i: usize = 0;
    while i < chosen.len()
        invariant
            all == described_all(endpoint_views(chosen@)),
            i <= chosen@.len(),
            r@ == join_seq(all.take(i as int), ", "@),
        decreases chosen.len() - i,
    {
        assert(all.take(i + 1).drop_last() =~= all.take(i as int));
        assert(all.take(i + 1).last() == described((chosen@[i as int].0@, chosen@[i as int].1)));
        if i > 0 {
            r.append(", ");
        }
        let d = endpoint_text(chosen[i]);
        r.append(d.as_str());
        i = i + 1;
    }
    assert(all.take(i as int) =~= all);
    r
}

pub open spec fn too_many(chosen: Seq<(Seq<char>, u16)>) -> Seq<char> {
    "name one endpoint, not "@ + decimal(chosen.len()) + ": "@ + join_seq(
        described_all(chosen),
        ", "@,
    )
}

/// Reduce the endpoints a call named to the single one the client accepts.
///
/// `None` means the caller named none and the client's own default, HTTPS on
/// 443, applies. Two or more are refused here rather than by a client that
/// would take the last one silently.
pub fn one_endpoint(chosen: Vec<Endpoint>) -> (r: ToolResult<Option<Endpoint>>)
    ensures
        chosen@.len() == 0 ==> r matches Ok(None),
        chosen@.len() == 1 ==> (r matches Ok(Some(e)) && e == chosen@[0]),
        chosen@.len() > 1 ==> (r matches Err(e) && e.code == crate::error::ErrorCode::InvalidArgs
            && e.message@ == too_many(endpoint_views(chosen@))),
{
    if chosen.len() == 0 {
        return Ok(None);
    }
    if chosen.len() == 1 {
        return Ok(Some(chosen[0]));
    }
    let count = decimal_text(chosen.len() as u64);
    let all = describe_all(&chosen);
    let message = cat3("name one endpoint, not ", count.as_str(), ": ");
    let message = cat2(message.as_str(), all.as_str());
    Err(ToolError::invalid_args(message))
}

pub open spec fn endpoint_seq(endpoint: Option<Endpoint>) -> Seq<Seq<char>> {
    match endpoint {
        Some(e) => seq![flag_seq(e.0@, decimal(e.1 as nat))],
        None => seq![],
    }
}

/// Add the endpoint flag, when there is one to add.
pub fn push_endpoint(args: &mut Vec<String>, endpoint: Option<Endpoint>)
    ensures
        final(args).deep_view() == old(args).deep_view() + endpoint_seq(endpoint),
{
    let ghost before = args.deep_view();
    if let Some((scheme, port)) = endpoint {
        let n = decimal_text(port as u64);
        args.push(crate::common::flag_text(scheme, n.as_str()));
    }
    assert(args.deep_view() =~= before + endpoint_seq(endpoint));
}

pub open spec fn described_opt(endpoint: Option<Endpoint>) -> Option<Seq<char>> {
    match endpoint {
        Some(e) => Some(described((e.0@, e.1))),
        None => None,
    }
}

/// How an endpoint is written in an answer.
pub fn describe(endpoint: Option<Endpoint>) -> (r: Option<String>)
    ensures
        opt_string_view(r) == described_opt(endpoint),
{
    match endpoint {
        Some(e) => Some(endpoint_text(e)),
        None => None,
    }
}

// ---------------------------------------------------------------------------
// Services, the PROXY protocol, scope
// ---------------------------------------------------------------------------

pub open spec fn service_seq(service: Seq<char>) -> Seq<char> {
    let t = trim_seq(service);
    if "svc:"@.is_prefix_of(t) {
        t
    } else {
        "svc:"@ + t
    }
}

/// A service name in the form the client insists on: trimmed, and with the
/// `svc:` prefix that the client will not add itself.
pub fn service_name(service: &str) -> (r: String)
    ensures
        r@ == service_seq(service@),
{
    let t = trim(service);
    if starts_with(t.as_str(), "svc:") {
        t
    } else {
        cat2("svc:", t.as_str())
    }
}

pub open spec fn service_opt(service: Option<String>) -> Option<Seq<char>> {
    match service {
        Some(s) => Some(service_seq(s@)),
        None => None,
    }
}

fn service_of(service: &Option<String>) -> (r: Option<String>)
    ensures
        opt_string_view(r) == service_opt(*service),
{
    match service {
        Some(s) => Some(service_name(s.as_str())),
        None => None,
    }
}

fn opt_ref(value: &Option<String>) -> (r: Option<&str>)
    ensures
        crate::common::opt_view(r) == opt_string_view(*value),
{
    match value {
        Some(s) => Some(s.as_str()),
        None => None,
    }
}

pub open spec fn proxy_seq(version: Option<u8>) -> Seq<Seq<char>> {
    match version {
        Some(v) => seq![flag_seq("proxy-protocol"@, decimal(v as nat))],
        None => seq![],
    }
}

pub open spec fn proxy_ok(version: Option<u8>) -> bool {
    match version {
        Some(v) => v == 1 || v == 2,
        None => true,
    }
}

pub open spec fn proxy_message(v: u8) -> Seq<char> {
    "the PROXY protocol has versions 1 and 2, not "@ + decimal(v as nat)
}

/// The PROXY protocol flag, which the client takes as version `1` or `2`.
pub fn proxy_protocol(version: Option<u8>) -> (r: ToolResult<Option<String>>)
    ensures
        r is Ok <==> proxy_ok(version),
        r matches Ok(f) ==> (match f {
            Some(f) => proxy_seq(version) == seq![f@],
            None => version is None,
        }),
        r matches Err(e) ==> e.code == crate::error::ErrorCode::InvalidArgs
            && (version matches Some(v) && e.message@ == proxy_message(v)),
{
    match version {
        None => Ok(None),
        Some(v) => {
            let n = decimal_text(v as u64);
            if v == 1 || v == 2 {
                Ok(Some(crate::common::flag_text("proxy-protocol", n.as_str())))
            } else {
                Err(
                    ToolError::invalid_args(
                        cat2("the PROXY protocol has versions 1 and 2, not ", n.as_str()),
                    ),
                )
            }
        },
    }
}

fn push_proxy(args: &mut Vec<String>, version: Option<u8>) -> (r: ToolResult<()>)
    ensures
        r is Ok <==> proxy_ok(version),
        r is Ok ==> final(args).deep_view() == old(args).deep_view() + proxy_seq(version),
        r matches Err(e) ==> e.code == crate::error::ErrorCode::InvalidArgs
            && (version matches Some(v) && e.message@ == proxy_message(v)),
{
    let ghost before = args.deep_view();
    let f = proxy_protocol(version)?;
    if let Some(f) = f {
        args.push(f);
    }
    assert(args.deep_view() =~= before + proxy_seq(version));
    Ok(())
}

pub open spec fn both_scopes() -> Seq<char> {
    "name one service or set `all`, not both"@
}

pub open spec fn no_scope() -> Seq<char> {
    "name the service this covers, or set `all` to true for every service this node hosts"@
}

/// Which services a configuration exchange covers: the selector flag, and
/// the scope an answer names. Named rather than defaulted, since `--all` on a
/// write replaces the configuration of every service this node hosts.
pub fn scope(service: Option<&str>, all: bool) -> (r: ToolResult<(String, String)>)
    ensures
        (service is Some && all) ==> (r matches Err(e) && e.code
            == crate::error::ErrorCode::InvalidArgs && e.message@ == both_scopes()),
        (service is None && !all) ==> (r matches Err(e) && e.code
            == crate::error::ErrorCode::InvalidArgs && e.message@ == no_scope()),
        service is Some && !all ==> (r matches Ok((selector, named)) && named@
            == service_seq(service->0@) && selector@ == flag_seq("service"@, service_seq(service->0@))),
        service is None && all ==> (r matches Ok((selector, named)) && named@ == "all"@
            && selector@ == flag_seq("all"@, "true"@)),
{
    match service {
        Some(s) => {
            if all {
                Err(ToolError::invalid_args(owned("name one service or set `all`, not both")))
            } else {
                let named = service_name(s);
                let selector = crate::common::flag_text("service", named.as_str());
                Ok((selector, named))
            }
        },
        None => {
            if all {
                Ok((flag("all", true), owned("all")))
            } else {
                Err(
                    ToolError::invalid_args(
                        owned(
                            "name the service this covers, or set `all` to true for every service this node hosts",
                        ),
                    ),
                )
            }
        },
    }
}

// ---------------------------------------------------------------------------
// Reports
// ---------------------------------------------------------------------------

/// The answer to a call that added or removed a handler.
#[derive(Debug)]
pub struct HandlerReport {
    /// What is now being served, or `"off"` for a handler that was removed.
    pub target: String,
    /// The endpoint as `scheme:port`, when the call named one.
    pub endpoint: Option<String>,
    /// The path the handler was attached under, when it was not the root.
    pub path: Option<String>,
    /// The service this covers, when it was for a service.
    pub service: Option<String>,
    /// Whether this is reachable from the public internet.
    pub public: bool,
    /// The address the handler is reachable at, when the client printed one.
    pub url: Option<String>,
    /// Everything the client printed.
    pub printed: Option<String>,
}

/// The answer to a call that acted on a whole service or on the whole node.
#[derive(Debug)]
pub struct ScopeReport {
    /// What the call covered: a `svc:` name, or `"this node"`.
    pub scope: String,
    /// What was done to it.
    pub outcome: String,
    /// Anything the client said.
    pub note: Option<String>,
}

/// A handler call: what to run, and the answer it gives once it has run.
pub struct HandlerPlan {
    pub args: Vec<String>,
    pub report: HandlerReport,
    /// The call adds a handler, so the address the client prints is part of
    /// the answer.
    pub reads_url: bool,
}

impl HandlerPlan {
    /// The answer, from what the client printed on standard output and both
    /// streams joined (already redacted).
    pub fn answer(self, stdout: &str, printed: Option<String>) -> (r: HandlerReport)
        ensures
            r.target == self.report.target,
            r.endpoint == self.report.endpoint,
            r.path == self.report.path,
            r.service == self.report.service,
            r.public == self.report.public,
            self.reads_url ==> opt_string_view(r.url) == crate::common::first_of(
                crate::common::prefixed_tokens(
                    crate::text::words_seq(stdout@),
                    crate::common::url_prefixes(),
                ),
            ),
            !self.reads_url ==> r.url is None,
            r.printed == printed,
    {
        let url = if self.reads_url {
            crate::common::find_url(stdout)
        } else {
            None
        };
        let report = self.report;
        HandlerReport {
            target: report.target,
            endpoint: report.endpoint,
            path: report.path,
            service: report.service,
            public: report.public,
            url,
            printed,
        }
    }
}

// ---------------------------------------------------------------------------
// serve set / off
// ---------------------------------------------------------------------------

/// What to serve to the tailnet, and where.
#[derive(Debug, Default)]
pub struct ServeSetParams {
    pub endpoints: EndpointParams,
    /// What to serve: a port number, a URL, a path, a `text:` literal or a
    /// `unix:` socket path.
    pub target: String,
    /// Expose an HTTP server on this port.
    pub http: Option<u16>,
    /// Serve for a Tailscale service, as a `svc:` name or a bare one.
    pub service: Option<String>,
    /// Forward all traffic for the service to this machine. Services only.
    pub tun: Option<bool>,
    /// Application capabilities to pass through to the server.
    pub accept_app_caps: Option<Vec<String>>,
    /// Speak the PROXY protocol to the server behind a TCP forwarder.
    pub proxy_protocol: Option<u8>,
}

pub open spec fn list_view(v: Option<Vec<String>>) -> Option<Seq<Seq<char>>> {
    match v {
        Some(v) => Some(v.deep_view()),
        None => None,
    }
}

pub open spec fn serve_set_chosen(p: ServeSetParams) -> Seq<(Seq<char>, u16)> {
    shared_chosen(p.endpoints) + one_if("http"@, p.http)
}

pub open spec fn tun_alone() -> Seq<char> {
    "`tun` forwards all traffic for a service, so it needs a `service`"@
}

pub open spec fn serve_set_seq(p: ServeSetParams, endpoint: Option<Endpoint>) -> Seq<Seq<char>> {
    seq!["serve"@, BACKGROUND@, NO_PROMPT@] + endpoint_seq(endpoint) + opt_text(
        "set-path"@,
        opt_string_view(p.endpoints.set_path),
    ) + opt_text("service"@, service_opt(p.service)) + proxy_seq(p.proxy_protocol) + opt_list(
        "accept-app-caps"@,
        list_view(p.accept_app_caps),
    ) + opt_bool("tun"@, p.tun) + seq![p.target@]
}

/// The endpoint of a call with exactly one, or none at all.
pub open spec fn chosen_endpoint(chosen: Seq<(Seq<char>, u16)>, endpoint: Option<Endpoint>) -> bool {
    &&& chosen.len() == 0 ==> endpoint is None
    &&& chosen.len() == 1 ==> (endpoint matches Some(e) && (e.0@, e.1) == chosen[0])
}

/// `tailscale serve` for one handler, in the background and without a
/// prompt, with the target last since the client stops reading flags at the
/// first positional. Refused when more than one endpoint is named, when
/// `tun` is asked for without a service, or for a PROXY version the client
/// does not have.
pub fn serve_set(params: &ServeSetParams) -> (r: ToolResult<HandlerPlan>)
    ensures
        r is Ok <==> serve_set_chosen(*params).len() <= 1 && !(params.tun == Some(true)
            && params.service is None) && proxy_ok(params.proxy_protocol),
        serve_set_chosen(*params).len() > 1 ==> (r matches Err(e) && e.message@ == too_many(
            serve_set_chosen(*params),
        )),
        serve_set_chosen(*params).len() <= 1 && params.tun == Some(true) && params.service is None
            ==> (r matches Err(e) && e.message@ == tun_alone()),
        serve_set_chosen(*params).len() <= 1 && !(params.tun == Some(true) && params.service is None)
            && !proxy_ok(params.proxy_protocol) ==> (r matches Err(e) && e.message@ == proxy_message(
            params.proxy_protocol->0,
        )),
        r matches Err(e) ==> e.code == crate::error::ErrorCode::InvalidArgs,
        r matches Ok(plan) ==> {
            &&& serve_set_chosen(*params).len() <= 1
            &&& !(params.tun == Some(true) && params.service is None)
            &&& proxy_ok(params.proxy_protocol)
            &&& exists|endpoint: Option<Endpoint>|
                chosen_endpoint(serve_set_chosen(*params), endpoint) && plan.args.deep_view()
                    == serve_set_seq(*params, endpoint) && opt_string_view(plan.report.endpoint)
                    == described_opt(endpoint)
            &&& plan.report.target@ == params.target@
            &&& opt_string_view(plan.report.path) == opt_string_view(params.endpoints.set_path)
            &&& opt_string_view(plan.report.service) == service_opt(params.service)
            &&& !plan.report.public
            &&& plan.reads_url
        },
{
    let mut chosen = params.endpoints.shared_endpoints();
    push_if(&mut chosen, "http", params.http);
    assert(endpoint_views(chosen@) =~= serve_set_chosen(*params));
    let endpoint = one_endpoint(chosen)?;
    if params.tun == Some(true) && params.service.is_none() {
        return Err(
            ToolError::invalid_args(
                owned("`tun` forwards all traffic for a service, so it needs a `service`"),
            ),
        );
    }
    let service = service_of(&params.service);
    let mut args: Vec<String> = Vec::new();
    arg(&mut args, "serve");
    arg(&mut args, BACKGROUND);
    arg(&mut args, NO_PROMPT);
    push_endpoint(&mut args, endpoint);
    push_text(&mut args, "set-path", opt_ref(&params.endpoints.set_path));
    push_text(&mut args, "service", opt_ref(&service));
    push_proxy(&mut args, params.proxy_protocol)?;
    push_list(&mut args, "accept-app-caps", params.accept_app_caps.as_ref());
    crate::common::push_bool(&mut args, "tun", params.tun);
    arg(&mut args, params.target.as_str());
    assert(args.deep_view() =~= serve_set_seq(*params, endpoint));
    let report = HandlerReport {
        target: owned(params.target.as_str()),
        endpoint: describe(endpoint),
        path: copy_opt(&params.endpoints.set_path),
        service,
        public: false,
        url: None,
        printed: None,
    };
    Ok(HandlerPlan { args, report, reads_url: true })
}

fn copy_opt(value: &Option<String>) -> (r: Option<String>)
    ensures
        opt_string_view(r) == opt_string_view(*value),
{
    match value {
        Some(s) => Some(owned(s.as_str())),
        None => None,
    }
}

/// Which endpoint to stop serving.
#[derive(Debug, Default)]
pub struct ServeOffParams {
    pub endpoints: EndpointParams,
    /// Stop serving plain HTTP on this port.
    pub http: Option<u16>,
    /// Stop serving for this Tailscale service rather than for this node.
    pub service: Option<String>,
}

pub open spec fn serve_off_chosen(p: ServeOffParams) -> Seq<(Seq<char>, u16)> {
    shared_chosen(p.endpoints) + one_if("http"@, p.http)
}

pub open spec fn serve_off_seq(p: ServeOffParams, endpoint: Option<Endpoint>) -> Seq<Seq<char>> {
    seq!["serve"@, BACKGROUND@, NO_PROMPT@] + endpoint_seq(endpoint) + opt_text(
        "set-path"@,
        opt_string_view(p.endpoints.set_path),
    ) + opt_text("service"@, service_opt(p.service)) + seq![OFF@]
}

/// `tailscale serve ... off` for one endpoint, leaving every other handler
/// in place.
pub fn serve_off(params: &ServeOffParams) -> (r: ToolResult<HandlerPlan>)
    ensures
        serve_off_chosen(*params).len() > 1 ==> (r matches Err(e) && e.code
            == crate::error::ErrorCode::InvalidArgs && e.message@ == too_many(
            serve_off_chosen(*params),
        )),
        serve_off_chosen(*params).len() <= 1 ==> (r matches Ok(plan) && (exists|
            endpoint: Option<Endpoint>,
        |
            chosen_endpoint(serve_off_chosen(*params), endpoint) && plan.args.deep_view()
                == serve_off_seq(*params, endpoint) && opt_string_view(plan.report.endpoint)
                == described_opt(endpoint)) && plan.report.target@ == OFF@ && opt_string_view(
            plan.report.path,
        ) == opt_string_view(params.endpoints.set_path) && opt_string_view(plan.report.service)
            == service_opt(params.service) && !plan.report.public && !plan.reads_url),
{
    let mut chosen = params.endpoints.shared_endpoints();
    push_if(&mut chosen, "http", params.http);
    assert(endpoint_views(chosen@) =~= serve_off_chosen(*params));
    let endpoint = one_endpoint(chosen)?;
    let service = service_of(&params.service);
    let mut args: Vec<String> = Vec::new();
    arg(&mut args, "serve");
    arg(&mut args, BACKGROUND);
    arg(&mut args, NO_PROMPT);
    push_endpoint(&mut args, endpoint);
    push_text(&mut args, "set-path", opt_ref(&params.endpoints.set_path));
    push_text(&mut args, "service", opt_ref(&service));
    arg(&mut args, OFF);
    assert(args.deep_view() =~= serve_off_seq(*params, endpoint));
    let report = HandlerReport {
        target: owned(OFF),
        endpoint: describe(endpoint),
        path: copy_opt(&params.endpoints.set_path),
        service,
        public: false,
        url: None,
        printed: None,
    };
    Ok(HandlerPlan { args, report, reads_url: false })
}

// ---------------------------------------------------------------------------
// funnel set / off
// ---------------------------------------------------------------------------

/// What to publish to the internet, and where.
#[derive(Debug, Default)]
pub struct FunnelSetParams {
    pub endpoints: EndpointParams,
    /// What to publish: a port number, a URL, a path, a `text:` literal or a
    /// `unix:` socket path.
    pub target: String,
    /// Speak the PROXY protocol to the server behind a TCP forwarder.
    pub proxy_protocol: Option<u8>,
}

pub open spec fn funnel_set_seq(p: FunnelSetParams, endpoint: Option<Endpoint>) -> Seq<Seq<char>> {
    seq!["funnel"@, BACKGROUND@, NO_PROMPT@] + endpoint_seq(endpoint) + opt_text(
        "set-path"@,
        opt_string_view(p.endpoints.set_path),
    ) + proxy_seq(p.proxy_protocol) + seq![p.target@]
}

/// `tailscale funnel` for one handler, which anyone on the internet can reach.
pub fn funnel_set(params: &FunnelSetParams) -> (r: ToolResult<HandlerPlan>)
    ensures
        shared_chosen(params.endpoints).len() > 1 ==> (r matches Err(e) && e.message@ == too_many(
            shared_chosen(params.endpoints),
        )),
        shared_chosen(params.endpoints).len() <= 1 && !proxy_ok(params.proxy_protocol) ==> (r matches Err(
            e,
        ) && e.message@ == proxy_message(params.proxy_protocol->0)),
        r matches Err(e) ==> e.code == crate::error::ErrorCode::InvalidArgs,
        shared_chosen(params.endpoints).len() <= 1 && proxy_ok(params.proxy_protocol) ==> (r matches Ok(
            plan,
        ) && (exists|endpoint: Option<Endpoint>|
            chosen_endpoint(shared_chosen(params.endpoints), endpoint) && plan.args.deep_view()
                == funnel_set_seq(*params, endpoint) && opt_string_view(plan.report.endpoint)
                == described_opt(endpoint)) && plan.report.target@ == params.target@
            && opt_string_view(plan.report.path) == opt_string_view(params.endpoints.set_path)
            && plan.report.service is None && plan.report.public && plan.reads_url),
{
    let chosen = params.endpoints.shared_endpoints();
    let endpoint = one_endpoint(chosen)?;
    let mut args: Vec<String> = Vec::new();
    arg(&mut args, "funnel");
    arg(&mut args, BACKGROUND);
    arg(&mut args, NO_PROMPT);
    push_endpoint(&mut args, endpoint);
    push_text(&mut args, "set-path", opt_ref(&params.endpoints.set_path));
    push_proxy(&mut args, params.proxy_protocol)?;
    arg(&mut args, params.target.as_str());
    assert(args.deep_view() =~= funnel_set_seq(*params, endpoint));
    let report = HandlerReport {
        target: owned(params.target.as_str()),
        endpoint: describe(endpoint),
        path: copy_opt(&params.endpoints.set_path),
        service: None,
        public: true,
        url: None,
        printed: None,
    };
    Ok(HandlerPlan { args, report, reads_url: true })
}

/// Which endpoint to stop publishing.
#[derive(Debug, Default)]
pub struct FunnelOffParams {
    pub endpoints: EndpointParams,
}

pub open spec fn funnel_off_seq(p: FunnelOffParams, endpoint: Option<Endpoint>) -> Seq<Seq<char>> {
    seq!["funnel"@, BACKGROUND@, NO_PROMPT@] + endpoint_seq(endpoint) + opt_text(
        "set-path"@,
        opt_string_view(p.endpoints.set_path),
    ) + seq![OFF@]
}

/// `tailscale funnel ... off`: the handler stays on the tailnet.
pub fn funnel_off(params: &FunnelOffParams) -> (r: ToolResult<HandlerPlan>)
    ensures
        shared_chosen(params.endpoints).len() > 1 ==> (r matches Err(e) && e.code
            == crate::error::ErrorCode::InvalidArgs && e.message@ == too_many(
            shared_chosen(params.endpoints),
        )),
        shared_chosen(params.endpoints).len() <= 1 ==> (r matches Ok(plan) && (exists|
            endpoint: Option<Endpoint>,
        |
            chosen_endpoint(shared_chosen(params.endpoints), endpoint) && plan.args.deep_view()
                == funnel_off_seq(*params, endpoint) && opt_string_view(plan.report.endpoint)
                == described_opt(endpoint)) && plan.report.target@ == OFF@ && opt_string_view(
            plan.report.path,
        ) == opt_string_view(params.endpoints.set_path) && plan.report.service is None
            && !plan.report.public && !plan.reads_url),
{
    let chosen = params.endpoints.shared_endpoints();
    let endpoint = one_endpoint(chosen)?;
    let mut args: Vec<String> = Vec::new();
    arg(&mut args, "funnel");
    arg(&mut args, BACKGROUND);
    arg(&mut args, NO_PROMPT);
    push_endpoint(&mut args, endpoint);
    push_text(&mut args, "set-path", opt_ref(&params.endpoints.set_path));
    arg(&mut args, OFF);
    assert(args.deep_view() =~= funnel_off_seq(*params, endpoint));
    let report = HandlerReport {
        target: owned(OFF),
        endpoint: describe(endpoint),
        path: copy_opt(&params.endpoints.set_path),
        service: None,
        public: false,
        url: None,
        printed: None,
    };
    Ok(HandlerPlan { args, report, reads_url: false })
}

// ---------------------------------------------------------------------------
// reset and the service lifecycle
// ---------------------------------------------------------------------------

/// What to run for a call that covers a whole service or the whole node, and
/// what it answers apart from the client's note.
pub struct ScopePlan {
    pub args: Vec<String>,
    pub scope: String,
    pub outcome: String,
}

impl ScopePlan {
    /// The answer, with whatever the client said.
    pub fn answer(self, note: Option<String>) -> (r: ScopeReport)
        ensures
            r.scope == self.scope,
            r.outcome == self.outcome,
            r.note == note,
    {
        ScopeReport { scope: self.scope, outcome: self.outcome, note }
    }
}

/// `tailscale serve reset`, which clears both serve and funnel: they share one
/// configuration.
pub fn serve_reset(_params: &NoParams) -> (r: ScopePlan)
    ensures
        r.args.deep_view() == seq!["serve"@, "reset"@],
        r.scope@ == "this node"@,
        r.outcome@ == "every serve and funnel handler removed"@,
{
    let mut args: Vec<String> = Vec::new();
    arg(&mut args, "serve");
    arg(&mut args, "reset");
    assert(args.deep_view() =~= seq!["serve"@, "reset"@]);
    ScopePlan {
        args,
        scope: owned("this node"),
        outcome: owned("every serve and funnel handler removed"),
    }
}

/// One Tailscale service by name.
#[derive(Debug, Default)]
pub struct ServiceParams {
    /// The service, as a `svc:` name. A bare name is given the prefix.
    pub service: String,
}

/// What a service lifecycle command does: the word the client takes and the
/// outcome an answer reports.
#[derive(Debug, Clone, Copy, PartialEq, Eq, Structural)]
pub enum Lifecycle {
    Drain,
    Clear,
    Advertise,
}

impl Lifecycle {
    pub open spec fn word(self) -> Seq<char> {
        match self {
            Lifecycle::Drain => "drain"@,
            Lifecycle::Clear => "clear"@,
            Lifecycle::Advertise => "advertise"@,
        }
    }

    pub open spec fn outcome(self) -> Seq<char> {
        match self {
            Lifecycle::Drain => "no longer accepting new connections; existing ones continue"@,
            Lifecycle::Clear => "every handler for the service removed from this node"@,
            Lifecycle::Advertise => "advertised to the tailnet as a host for the service"@,
        }
    }
}

/// `tailscale serve drain|clear|advertise <svc:name>`, the three commands
/// that differ only in the word.
pub fn service_command(action: Lifecycle, params: &ServiceParams) -> (r: ScopePlan)
    ensures
        r.args.deep_view() == seq!["serve"@, action.word(), service_seq(params.service@)],
        r.scope@ == service_seq(params.service@),
        r.outcome@ == action.outcome(),
{
    let (word, outcome) = match action {
        Lifecycle::Drain => ("drain", "no longer accepting new connections; existing ones continue"),
        Lifecycle::Clear => ("clear", "every handler for the service removed from this node"),
        Lifecycle::Advertise => ("advertise", "advertised to the tailnet as a host for the service"),
    };
    let service = service_name(params.service.as_str());
    let mut args: Vec<String> = Vec::new();
    arg(&mut args, "serve");
    arg(&mut args, word);
    arg(&mut args, service.as_str());
    assert(args.deep_view() =~= seq!["serve"@, action.word(), service_seq(params.service@)]);
    ScopePlan { args, scope: service, outcome: owned(outcome) }
}

// ---------------------------------------------------------------------------
// The configuration exchange
// ---------------------------------------------------------------------------

/// Which configuration to read.
#[derive(Debug, Default)]
pub struct GetConfigParams {
    /// One service by name. Give this or `all`, not both.
    pub service: Option<String>,
    /// Every service this node hosts.
    pub all: bool,
}

/// A configuration read: what to run, and the scope the answer names.
pub struct ConfigPlan {
    pub args: Vec<String>,
    pub scope: String,
}

/// `tailscale serve get-config <selector>`. The client prints the document to
/// standard output, so no file is involved in this direction.
pub fn serve_get_config(params: &GetConfigParams) -> (r: ToolResult<ConfigPlan>)
    ensures
        match scope_outcome(opt_string_view(params.service), params.all) {
            Some((selector, named)) => r matches Ok(plan) && plan.args.deep_view() == seq![
                "serve"@,
                "get-config"@,
                selector,
            ] && plan.scope@ == named,
            None => r matches Err(e) && e.code == crate::error::ErrorCode::InvalidArgs,
        },
{
    let (selector, named) = scope(opt_ref(&params.service), params.all)?;
    let mut args: Vec<String> = Vec::new();
    arg(&mut args, "serve");
    arg(&mut args, "get-config");
    arg(&mut args, selector.as_str());
    assert(args.deep_view() =~= seq!["serve"@, "get-config"@, selector@]);
    Ok(ConfigPlan { args, scope: named })
}

/// The selector and scope of a configuration exchange, when the call named
/// exactly one of a service and `all`.
pub open spec fn scope_outcome(service: Option<Seq<char>>, all: bool) -> Option<(Seq<char>, Seq<char>)> {
    match service {
        Some(s) => if all {
            None
        } else {
            Some((flag_seq("service"@, service_seq(s)), service_seq(s)))
        },
        None => if all {
            Some((flag_seq("all"@, "true"@), "all"@))
        } else {
            None
        },
    }
}

/// `tailscale serve set-config <selector> <file>`, once the document has been
/// written to a private file.
pub fn set_config_args(selector: &str, file: &str) -> (r: Vec<String>)
    ensures
        r.deep_view() == seq!["serve"@, "set-config"@, selector@, file@],
{
    let mut args: Vec<String> = Vec::new();
    arg(&mut args, "serve");
    arg(&mut args, "set-config");
    arg(&mut args, selector);
    arg(&mut args, file);
    assert(args.deep_view() =~= seq!["serve"@, "set-config"@, selector@, file@]);
    args
}

/// The names of this toolset's tools, in the order of its table.
pub open spec fn tool_names() -> Seq<Seq<char>> {
    seq![
        "tailscale_serve_set"@,
        "tailscale_serve_off"@,
        "tailscale_serve_reset"@,
        "tailscale_serve_drain"@,
        "tailscale_serve_clear"@,
        "tailscale_serve_advertise"@,
        "tailscale_serve_get_config"@,
        "tailscale_serve_set_config"@,
        "tailscale_funnel_set"@,
        "tailscale_funnel_off"@,
    ]
}

/// Every tool of this toolset, in the order a client lists them.
pub fn entries() -> (r: Vec<ToolEntry>)
    ensures
        forall|i: int| 0 <= i < r.len() ==> (#[trigger] r[i]).meta.name@ == tool_names()[i],
        r.len() == 10,
        forall|i: int|
            0 <= i < r.len() ==> (#[trigger] r[i]).meta.toolset == Toolset::LocalServe
                && crate::registry::row_ok(r[i]),
{
    proof {
        reveal_strlit("tailscale_");
        reveal_strlit("tailscale_serve_set");
        reveal_strlit("tailscale_serve_off");
        reveal_strlit("tailscale_serve_reset");
        reveal_strlit("tailscale_serve_drain");
        reveal_strlit("tailscale_serve_clear");
        reveal_strlit("tailscale_serve_advertise");
        reveal_strlit("tailscale_serve_get_config");
        reveal_strlit("tailscale_serve_set_config");
        reveal_strlit("tailscale_funnel_set");
        reveal_strlit("tailscale_funnel_off");
    }
    vec![
        ToolEntry {
            meta: ToolMeta {
                name: "tailscale_serve_set",
                summary: "Serve a local server, a file, a directory or a block of text to the tailnet. Reachable by other nodes on the tailnet only; use `tailscale_funnel_set` to publish to the internet. Runs in the background: the call returns as soon as the handler is in place.",
                toolset: Toolset::LocalServe,
                tier: Tier::Write,
                idempotent: false,
                requires_confirmation: false,
                self_severing: false,
                varying: false,
                since: None,
            },
        },
        ToolEntry {
            meta: ToolMeta {
                name: "tailscale_serve_off",
                summary: "Stop serving one endpoint, leaving every other handler in place. Names the same endpoint the handler was added on; reports `not_found` when there is no handler there.",
                toolset: Toolset::LocalServe,
                tier: Tier::Write,
                idempotent: false,
                requires_confirmation: false,
                self_severing: false,
                varying: false,
                since: None,
            },
        },
        ToolEntry {
            meta: ToolMeta {
                name: "tailscale_serve_reset",
                summary: "Remove every serve and funnel handler on this node at once. There is one configuration behind both commands, so this clears both. Use `tailscale_serve_off` to remove a single endpoint.",
                toolset: Toolset::LocalServe,
                tier: Tier::Destructive,
                idempotent: false,
                requires_confirmation: true,
                self_severing: false,
                varying: false,
                since: None,
            },
        },
        ToolEntry {
            meta: ToolMeta {
                name: "tailscale_serve_drain",
                summary: "Stop this node accepting new connections for a service, while letting the connections it already has finish. Bring it back with `tailscale_serve_advertise`.",
                toolset: Toolset::LocalServe,
                tier: Tier::Write,
                idempotent: false,
                requires_confirmation: false,
                self_severing: false,
                varying: false,
                since: Some("1.90"),
            },
        },
        ToolEntry {
            meta: ToolMeta {
                name: "tailscale_serve_clear",
                summary: "Remove every handler configured for one service on this node. Unlike `tailscale_serve_drain` this discards the configuration rather than stopping at the door, and `tailscale_serve_advertise` will not bring it back.",
                toolset: Toolset::LocalServe,
                tier: Tier::Destructive,
                idempotent: false,
                requires_confirmation: true,
                self_severing: false,
                varying: false,
                since: Some("1.90"),
            },
        },
        ToolEntry {
            meta: ToolMeta {
                name: "tailscale_serve_advertise",
                summary: "Offer this node to the tailnet as a host for a service, which is what undoes `tailscale_serve_drain`. Not needed after `tailscale_serve_set`, which advertises the service itself.",
                toolset: Toolset::LocalServe,
                tier: Tier::Write,
                idempotent: false,
                requires_confirmation: false,
                self_severing: false,
                varying: false,
                since: Some("1.90"),
            },
        },
        ToolEntry {
            meta: ToolMeta {
                name: "tailscale_serve_get_config",
                summary: "Read the service configuration this node is hosting, as a document that `tailscale_serve_set_config` takes back unchanged. Reads only.",
                toolset: Toolset::LocalServe,
                tier: Tier::Read,
                idempotent: true,
                requires_confirmation: false,
                self_severing: false,
                varying: false,
                since: Some("1.90"),
            },
        },
        ToolEntry {
            meta: ToolMeta {
                name: "tailscale_serve_set_config",
                summary: "Replace the service configuration on this node with the document given here, which overwrites every handler in scope. Writing back a document that `tailscale_serve_get_config` produced changes nothing.",
                toolset: Toolset::LocalServe,
                tier: Tier::Write,
                idempotent: true,
                requires_confirmation: false,
                self_severing: false,
                varying: false,
                since: Some("1.90"),
            },
        },
        ToolEntry {
            meta: ToolMeta {
                name: "tailscale_funnel_set",
                summary: "Publish a local server to the **public internet** through Tailscale Funnel. Anyone on the internet who knows the name can reach it, with no tailnet membership and no authentication of any kind. Use `tailscale_serve_set` for a server that only the tailnet should reach. Funnel has to be enabled for the tailnet in the admin console first; on a tailnet where it is not, the client waits rather than failing, and this call comes back as a timeout carrying the URL that enables it.",
                toolset: Toolset::LocalServe,
                tier: Tier::Destructive,
                idempotent: false,
                requires_confirmation: true,
                self_severing: false,
                varying: false,
                since: None,
            },
        },
        ToolEntry {
            meta: ToolMeta {
                name: "tailscale_funnel_off",
                summary: "Stop publishing one endpoint to the internet. The handler stops being reachable from outside the tailnet; use `tailscale_serve_off` to remove it from the tailnet as well.",
                toolset: Toolset::LocalServe,
                tier: Tier::Destructive,
                idempotent: false,
                requires_confirmation: false,
                self_severing: false,
                varying: false,
                since: None,
            },
        },
    ]
}



/// No call that sets or clears a handler can leave a process running or wait
/// at a prompt: each one's arguments carry `--bg=true` and `--yes=true` right
/// after the command's name, whatever the call was given.
pub proof fn handlers_run_in_the_background(
    set: ServeSetParams,
    off: ServeOffParams,
    funnel: FunnelSetParams,
    funnel_off: FunnelOffParams,
    endpoint: Option<Endpoint>,
)
    ensures
        serve_set_seq(set, endpoint)[1] == BACKGROUND@ && serve_set_seq(set, endpoint)[2]
            == NO_PROMPT@,
        serve_off_seq(off, endpoint)[1] == BACKGROUND@ && serve_off_seq(off, endpoint)[2]
            == NO_PROMPT@,
        funnel_set_seq(funnel, endpoint)[1] == BACKGROUND@ && funnel_set_seq(funnel, endpoint)[2]
            == NO_PROMPT@,
        funnel_off_seq(funnel_off, endpoint)[1] == BACKGROUND@ && funnel_off_seq(
            funnel_off,
            endpoint,
        )[2] == NO_PROMPT@,
{
}

/// A service name, once given its prefix, keeps it: naming a service twice
/// names the same one.
pub proof fn a_service_name_is_named_once(service: Seq<char>)
    ensures
        service_seq(service_seq(service)) == service_seq(service),
        "svc:"@.is_prefix_of(service_seq(service)),
{
    let t = trim_seq(service);
    reveal_strlit("svc:");
    crate::text::lemma_trim_idempotent(service);
    crate::text::lemma_trim_ends(service);
    if !"svc:"@.is_prefix_of(t) {
        let s = "svc:"@ + t;
        assert(s.subrange(0, 4) =~= "svc:"@);
        assert(s[0] == 's');
        if t.len() > 0 {
            assert(s.last() == t.last());
        } else {
            assert(s.last() == ':');
        }
        crate::text::lemma_trim_unchanged(s);
        assert("svc:"@.is_prefix_of(s));
    }
}

} // verus!
