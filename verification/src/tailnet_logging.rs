//! The tailnet's logs: the audit log, network flow logs, and the streams
//! that send either to an outside endpoint.

use vstd::prelude::*;
use crate::registry::{ToolEntry, ToolMeta};
use crate::meta::{Tier, Toolset};

use crate::common::{join_strs, listed, path_segment, valid_segment, views};
use crate::error::{ErrorCode, ToolError, ToolResult};
use crate::text::{cat3, cat4, join_seq, owned, trim_seq};

verus! {

/// A window of the audit log, and what to narrow it to.
#[derive(Debug, Default)]
pub struct AuditLogParams {
    pub start: String,
    pub end: String,
    pub actor: Option<Vec<String>>,
    pub target: Option<Vec<String>>,
    pub event: Option<Vec<String>>,
}

/// A window of the network flow logs.
#[derive(Debug, Default)]
pub struct NetworkLogParams {
    pub start: String,
    pub end: String,
}

/// One log stream, by the type of log it carries.
#[derive(Debug, Default)]
pub struct LogStreamParams {
    pub log_type: String,
}

/// Ask for an external id for an AWS role's trust policy.
#[derive(Debug, Default)]
pub struct AwsExternalIdParams {
    pub reusable: Option<bool>,
}

/// Check an AWS role's trust policy against an external id.
#[derive(Debug, Default)]
pub struct AwsTrustPolicyParams {
    pub external_id: String,
    pub role_arn: String,
}

pub open spec fn blank_bound(name: Seq<char>) -> Seq<char> {
    "`"@ + name + "` is blank; give an RFC3339 timestamp such as `2023-12-19T16:39:57-08:00`"@
}

/// A log window's two ends, each of which has to be given; a blank one is
/// refused naming it and the shape it wants.
pub fn window(start: &str, end: &str) -> (r: ToolResult<()>)
    ensures
        trim_seq(start@).len() == 0 ==> (r matches Err(e) && e.code == ErrorCode::InvalidArgs
            && e.message@ == blank_bound("start"@)),
        trim_seq(start@).len() > 0 && trim_seq(end@).len() == 0 ==> (r matches Err(e) && e.code
            == ErrorCode::InvalidArgs && e.message@ == blank_bound("end"@)),
        trim_seq(start@).len() > 0 && trim_seq(end@).len() > 0 ==> r is Ok,
{
    let s = crate::text::trim(start);
    if s.as_str().unicode_len() == 0 {
        return Err(ToolError::invalid_args(blank_text("start")));
    }
    let e = crate::text::trim(end);
    if e.as_str().unicode_len() == 0 {
        return Err(ToolError::invalid_args(blank_text("end")));
    }
    Ok(())
}

fn blank_text(name: &str) -> (r: String)
    ensures
        r@ == blank_bound(name@),
{
    cat3("`", name, "` is blank; give an RFC3339 timestamp such as `2023-12-19T16:39:57-08:00`")
}

/// The path of a log type's stream under the tailnet's own path. A type the
/// API does not list still reaches the control plane; only a segment that
/// would rewrite the path is refused.
pub fn stream_path(log_type: &str, rest: &str) -> (r: ToolResult<String>)
    ensures
        r is Ok <==> valid_segment(trim_seq(log_type@)),
        r matches Ok(p) ==> p@ == "/logging/"@ + trim_seq(log_type@) + "/stream"@ + rest@,
        r matches Err(e) ==> e.code == ErrorCode::InvalidArgs,
{
    let t = path_segment("log_type", log_type)?;
    Ok(cat4("/logging/", t.as_str(), "/stream", rest))
}

pub open spec fn unknown_type(log_type: Seq<char>, known: Seq<Seq<char>>) -> Seq<char> {
    "`"@ + log_type + "` is not one of the log types this description knows ("@ + join_seq(
        known,
        ", "@,
    ) + "); check the spelling."@
}

/// A stream the control plane could not find, for a log type the API does
/// not list, is most likely a typo, and is told which types there are.
pub fn explain_log_type(error: ToolError, log_type: &str, known: &[&str]) -> (r: ToolError)
    ensures
        r.code == error.code,
        r.message@ == error.message@,
        r.status == error.status,
        error.status == Some(404u16) && !listed(log_type@, views(known@)) ==> (r.hint matches Some(h)
            && h@ == unknown_type(log_type@, views(known@))),
        !(error.status == Some(404u16) && !listed(log_type@, views(known@))) ==> r.hint == error.hint,
{
    let missing = match error.status {
        Some(s) => s == 404,
        None => false,
    };
    if missing && !crate::common::is_listed(log_type, known) {
        let all = join_strs(known, ", ");
        let hint = cat4("`", log_type, "` is not one of the log types this description knows (", all.as_str());
        let hint = crate::text::cat2(hint.as_str(), "); check the spelling.");
        return error.with_hint(hint);
    }
    error
}

pub open spec fn not_an_object() -> Seq<char> {
    "`configuration` is an object describing the endpoint, not a list or a string"@
}

/// What a stream write answers when its configuration is not an object.
pub fn not_a_stream_configuration() -> (r: ToolError)
    ensures
        r.code == ErrorCode::InvalidArgs,
        r.message@ == not_an_object(),
{
    ToolError::invalid_args(owned("`configuration` is an object describing the endpoint, not a list or a string"))
}

/// The path that checks an AWS role's trust policy against an external id,
/// under the tailnet's own path.
pub fn trust_policy_path(external_id: &str) -> (r: ToolResult<String>)
    ensures
        r is Ok <==> valid_segment(trim_seq(external_id@)),
        r matches Ok(p) ==> p@ == "/aws-external-id/"@ + trim_seq(external_id@)
            + "/validate-aws-trust-policy"@,
        r matches Err(e) ==> e.code == ErrorCode::InvalidArgs,
{
    let id = path_segment("external_id", external_id)?;
    Ok(cat3("/aws-external-id/", id.as_str(), "/validate-aws-trust-policy"))
}

pub open spec fn opt_items(v: Option<Vec<String>>) -> Seq<Seq<char>> {
    match v {
        Some(v) => v.deep_view(),
        None => seq![],
    }
}

pub open spec fn named(name: Seq<char>, values: Seq<Seq<char>>) -> Seq<(Seq<char>, Seq<char>)> {
    values.map_values(|v: Seq<char>| (name, v))
}

pub open spec fn audit_pairs(p: AuditLogParams) -> Seq<(Seq<char>, Seq<char>)> {
    seq![("start"@, p.start@), ("end"@, p.end@)] + named(
        "actor"@,
        crate::common::trimmed_all(opt_items(p.actor)),
    ) + named("target"@, crate::common::trimmed_all(opt_items(p.target))) + named(
        "event"@,
        crate::common::trimmed_all(opt_items(p.event)),
    )
}

pub open spec fn pairs_view(v: Seq<(String, String)>) -> Seq<(Seq<char>, Seq<char>)> {
    v.map_values(|p: (String, String)| (p.0@, p.1@))
}

fn push_named(out: &mut Vec<(String, String)>, name: &str, what: &str, values: &Option<Vec<String>>) -> (r: ToolResult<()>)
    ensures
        r is Ok <==> crate::common::none_blank(opt_items(*values)),
        r is Ok ==> pairs_view(final(out)@) == pairs_view(old(out)@) + named(
            name@,
            crate::common::trimmed_all(opt_items(*values)),
        ),
        r matches Err(e) ==> e.code == ErrorCode::InvalidArgs,
{
    let given: Vec<String> = match values {
        Some(v) => crate::common::copy_all(v),
        None => Vec::new(),
    };
    assert(given.deep_view() =~= opt_items(*values));
    let kept = crate::common::each_present(what, given)?;
    let ghost before = pairs_view(out@);
    let ghost all = crate::common::trimmed_all(opt_items(*values));
    let mut i: usize = 0;
    while i < kept.len()
        invariant
            kept.deep_view() == all,
            i <= all.len(),
            pairs_view(out@) == before + named(name@, all.take(i as int)),
        decreases kept.len() - i,
    {
        let ghost mid = out@;
        out.push((owned(name), owned(kept[i].as_str())));
        assert(pairs_view(out@) =~= pairs_view(mid).push((name@, all[i as int])));
        assert(named(name@, all.take(i + 1)) =~= named(name@, all.take(i as int)).push((name@, all[i as int])));
        i = i + 1;
    }
    assert(all.take(i as int) =~= all);
    Ok(())
}

/// The query of an audit-log read: the window, then every actor, target and
/// event to narrow it to, trimmed, with a blank one refused.
pub fn audit_query(params: &AuditLogParams) -> (r: ToolResult<Vec<(String, String)>>)
    ensures
        r is Ok <==> trim_seq(params.start@).len() > 0 && trim_seq(params.end@).len() > 0
            && crate::common::none_blank(opt_items(params.actor)) && crate::common::none_blank(
            opt_items(params.target),
        ) && crate::common::none_blank(opt_items(params.event)),
        r matches Ok(v) ==> pairs_view(v@) == audit_pairs(*params),
        r matches Err(e) ==> e.code == ErrorCode::InvalidArgs,
{
    window(params.start.as_str(), params.end.as_str())?;
    let mut out: Vec<(String, String)> = Vec::new();
    out.push((owned("start"), owned(params.start.as_str())));
    out.push((owned("end"), owned(params.end.as_str())));
    assert(pairs_view(out@) =~= seq![("start"@, params.start@), ("end"@, params.end@)]);
    push_named(&mut out, "actor", "actor", &params.actor)?;
    push_named(&mut out, "target", "target", &params.target)?;
    push_named(&mut out, "event", "event", &params.event)?;
    Ok(out)
}


/// Every tool of this toolset, in the order a client lists them.
pub fn entries() -> (r: Vec<ToolEntry>)
    ensures
        r.len() == 8,
        forall|i: int|
            0 <= i < r.len() ==> (#[trigger] r[i]).meta.toolset == Toolset::TailnetLogging
                && crate::registry::row_ok(r[i]),
{
    proof {
        reveal_strlit("tailnet_");
        reveal_strlit("tailnet_audit_log_list");
        reveal_strlit("tailnet_network_log_list");
        reveal_strlit("tailnet_log_stream_get");
        reveal_strlit("tailnet_log_stream_status_get");
        reveal_strlit("tailnet_log_stream_replace");
        reveal_strlit("tailnet_log_stream_delete");
        reveal_strlit("tailnet_aws_external_id_create");
        reveal_strlit("tailnet_aws_trust_policy_validate");
    }
    vec![
        ToolEntry {
            meta: ToolMeta {
                name: "tailnet_audit_log_list",
                summary: "Read the configuration audit log over a window: who changed what, when and from where.

`start` and `end` are RFC3339 timestamps and both are required — the endpoint does not paginate, so the window is what bounds the answer. The optional filters are ANDed across kinds and ORed within one: give two `event` values to see either.",
                toolset: Toolset::TailnetLogging,
                tier: Tier::Read,
                idempotent: true,
                requires_confirmation: false,
                self_severing: false,
                varying: false,
                since: None,
            },
        },
        ToolEntry {
            meta: ToolMeta {
                name: "tailnet_network_log_list",
                summary: "Read network flow logs over a window: which node reached which, over what protocol, and how much went each way.

Requires network flow logging to be switched on for the tailnet — `tailnet_settings_get` reports whether it is. `start` and `end` are RFC3339 timestamps and both are required.",
                toolset: Toolset::TailnetLogging,
                tier: Tier::Read,
                idempotent: true,
                requires_confirmation: false,
                self_severing: false,
                varying: false,
                since: None,
            },
        },
        ToolEntry {
            meta: ToolMeta {
                name: "tailnet_log_stream_get",
                summary: "Read where a log type is being streamed to.

The credential fields are write-only and never come back: `token`, `s3_secret_access_key` and `gcs_credentials` are absent from this answer even when they are configured. Do not read this, edit it and write it back — the write would clear them.",
                toolset: Toolset::TailnetLogging,
                tier: Tier::Read,
                idempotent: true,
                requires_confirmation: false,
                self_severing: false,
                varying: false,
                since: None,
            },
        },
        ToolEntry {
            meta: ToolMeta {
                name: "tailnet_log_stream_status_get",
                summary: "Read whether a log stream is actually being delivered: last activity, last error, and the rates and counts behind them.",
                toolset: Toolset::TailnetLogging,
                tier: Tier::Read,
                idempotent: true,
                requires_confirmation: false,
                self_severing: false,
                varying: false,
                since: None,
            },
        },
        ToolEntry {
            meta: ToolMeta {
                name: "tailnet_log_stream_replace",
                summary: "Replace where a log type is streamed to.

The whole endpoint, not a merge: a field this does not carry is gone. Send the credential — `token`, or `s3_secret_access_key`, or `gcs_credentials` — every time, because a read never returns it and a write without it removes it.",
                toolset: Toolset::TailnetLogging,
                tier: Tier::Write,
                idempotent: true,
                requires_confirmation: false,
                self_severing: false,
                varying: false,
                since: None,
            },
        },
        ToolEntry {
            meta: ToolMeta {
                name: "tailnet_log_stream_delete",
                summary: "Stop streaming a log type. The logs are still recorded and still readable here; only the delivery stops.",
                toolset: Toolset::TailnetLogging,
                tier: Tier::Destructive,
                idempotent: true,
                requires_confirmation: false,
                self_severing: false,
                varying: false,
                since: None,
            },
        },
        ToolEntry {
            meta: ToolMeta {
                name: "tailnet_aws_external_id_create",
                summary: "Mint an AWS external id for role-based S3 log streaming.

The answer carries the id and the Tailscale AWS account id that will assume the role; both go into the IAM trust policy. `reusable: true` returns the same id to later reusable calls until it is linked to an account, which is how a caller that may retry avoids stranding ids.",
                toolset: Toolset::TailnetLogging,
                tier: Tier::Write,
                idempotent: false,
                requires_confirmation: false,
                self_severing: false,
                varying: false,
                since: None,
            },
        },
        ToolEntry {
            meta: ToolMeta {
                name: "tailnet_aws_trust_policy_validate",
                summary: "Check that an IAM role's trust policy actually lets Tailscale assume it with a given external id. Changes nothing; run it before configuring the stream.",
                toolset: Toolset::TailnetLogging,
                tier: Tier::Read,
                idempotent: true,
                requires_confirmation: false,
                self_severing: false,
                varying: false,
                since: None,
            },
        },
    ]
}


} // verus!
