//! Webhook endpoints: where the control plane sends tailnet events. An
//! endpoint is addressed outside the tailnet's path, by its own id.

use vstd::prelude::*;
use crate::registry::{ToolEntry, ToolMeta};
use crate::meta::{Tier, Toolset};

use crate::common::{listed, one_of, path_segment, valid_segment, views};
use crate::error::{ErrorCode, ToolError, ToolResult};
use crate::text::{cat3, owned, trim_seq};

verus! {

/// A tool that takes nothing.
#[derive(Debug, Default, Clone, Copy)]
pub struct NoParams {}

/// One endpoint.
#[derive(Debug, Default)]
pub struct WebhookParams {
    pub endpoint_id: String,
}

/// A new endpoint and the events it is sent.
#[derive(Debug, Default)]
pub struct WebhookCreateParams {
    pub endpoint_url: String,
    pub provider_type: Option<String>,
    pub subscriptions: Vec<String>,
}

/// The events an endpoint is to be sent from now on.
#[derive(Debug, Default)]
pub struct WebhookUpdateParams {
    pub endpoint_id: String,
    pub subscriptions: Vec<String>,
}

/// `/api/v2/webhooks/<id><rest>`.
pub fn webhook_path(id: &str, rest: &str) -> (r: ToolResult<String>)
    ensures
        r is Ok <==> valid_segment(trim_seq(id@)),
        r matches Ok(p) ==> p@ == "/api/v2/webhooks/"@ + trim_seq(id@) + rest@,
        r matches Err(e) ==> e.code == ErrorCode::InvalidArgs,
{
    let id = path_segment("endpoint_id", id)?;
    Ok(cat3("/api/v2/webhooks/", id.as_str(), rest))
}

pub open spec fn no_events() -> Seq<char> {
    "`subscriptions` is empty; an endpoint with no events is one nothing is ever sent to"@
}

/// The events an endpoint is sent: at least one, each one the API has.
pub fn checked_subscriptions(subscriptions: &Vec<String>, allowed: &[&str]) -> (r: ToolResult<Vec<String>>)
    ensures
        subscriptions@.len() == 0 ==> (r matches Err(e) && e.code == ErrorCode::InvalidArgs
            && e.message@ == no_events()),
        r is Ok <==> subscriptions@.len() > 0 && (forall|i: int|
            0 <= i < subscriptions@.len() ==> listed(#[trigger] subscriptions@[i]@, views(allowed@))),
        r matches Ok(v) ==> v.deep_view() == subscriptions.deep_view(),
        r matches Err(e) ==> e.code == ErrorCode::InvalidArgs,
{
    if subscriptions.len() == 0 {
        return Err(
            ToolError::invalid_args(
                owned("`subscriptions` is empty; an endpoint with no events is one nothing is ever sent to"),
            ),
        );
    }
    let mut out: Vec<String> = Vec::new();
    let mut i: usize = 0;
    while i < subscriptions.len()
        invariant
            i <= subscriptions@.len(),
            forall|k: int| 0 <= k < i ==> listed(#[trigger] subscriptions@[k]@, views(allowed@)),
            out.deep_view() == subscriptions.deep_view().take(i as int),
        decreases subscriptions.len() - i,
    {
        let v = one_of("subscriptions", subscriptions[i].as_str(), allowed)?;
        let ghost before = out.deep_view();
        out.push(v);
        assert(out.deep_view() =~= before.push(subscriptions@[i as int]@));
        assert(subscriptions.deep_view().take(i + 1) =~= subscriptions.deep_view().take(i as int).push(
            subscriptions@[i as int]@,
        ));
        i = i + 1;
    }
    assert(subscriptions.deep_view().take(i as int) =~= subscriptions.deep_view());
    Ok(out)
}

pub open spec fn no_url() -> Seq<char> {
    "`endpoint_url` is empty; a webhook needs somewhere to post to"@
}

/// A new endpoint as it is sent: the URL trimmed, the provider type and the
/// events held to what the API has.
#[derive(Debug)]
pub struct CreateWebhook {
    pub endpoint_url: String,
    pub provider_type: Option<String>,
    pub subscriptions: Vec<String>,
}

/// The body of a new endpoint, refusing one with nowhere to post to, a
/// provider type the API does not have, or events it cannot send.
pub fn webhook_body(
    params: &WebhookCreateParams,
    provider_types: &[&str],
    events: &[&str],
) -> (r: ToolResult<CreateWebhook>)
    ensures
        trim_seq(params.endpoint_url@).len() == 0 ==> (r matches Err(e) && e.code
            == ErrorCode::InvalidArgs && e.message@ == no_url()),
        r is Ok <==> trim_seq(params.endpoint_url@).len() > 0 && (match params.provider_type {
            Some(p) => listed(p@, views(provider_types@)),
            None => true,
        }) && params.subscriptions@.len() > 0 && (forall|i: int|
            0 <= i < params.subscriptions@.len() ==> listed(
                #[trigger] params.subscriptions@[i]@,
                views(events@),
            )),
        r matches Ok(body) ==> body.endpoint_url@ == trim_seq(params.endpoint_url@)
            && crate::common::opt_string_view(body.provider_type) == crate::common::opt_string_view(
            params.provider_type,
        ) && body.subscriptions.deep_view() == params.subscriptions.deep_view(),
        r matches Err(e) ==> e.code == ErrorCode::InvalidArgs,
{
    let url = crate::text::trim(params.endpoint_url.as_str());
    if url.as_str().unicode_len() == 0 {
        return Err(ToolError::invalid_args(owned("`endpoint_url` is empty; a webhook needs somewhere to post to")));
    }
    let provider_type = match &params.provider_type {
        Some(p) => Some(one_of("provider_type", p.as_str(), provider_types)?),
        None => None,
    };
    let subscriptions = checked_subscriptions(&params.subscriptions, events)?;
    Ok(CreateWebhook { endpoint_url: url, provider_type, subscriptions })
}


/// Every tool of this toolset, in the order a client lists them.
pub fn entries() -> (r: Vec<ToolEntry>)
    ensures
        r.len() == 7,
        forall|i: int|
            0 <= i < r.len() ==> (#[trigger] r[i]).meta.toolset == Toolset::TailnetWebhooks
                && crate::registry::row_ok(r[i]),
{
    proof {
        reveal_strlit("tailnet_");
        reveal_strlit("tailnet_webhook_list");
        reveal_strlit("tailnet_webhook_create");
        reveal_strlit("tailnet_webhook_get");
        reveal_strlit("tailnet_webhook_update");
        reveal_strlit("tailnet_webhook_delete");
        reveal_strlit("tailnet_webhook_test");
        reveal_strlit("tailnet_webhook_secret_rotate");
    }
    vec![
        ToolEntry {
            meta: ToolMeta {
                name: "tailnet_webhook_list",
                summary: "List the tailnet's webhook endpoints. No secret is included — a webhook's secret comes back only when it is created or rotated.",
                toolset: Toolset::TailnetWebhooks,
                tier: Tier::Read,
                idempotent: true,
                requires_confirmation: false,
                self_severing: false,
                varying: false,
                since: None,
            },
        },
        ToolEntry {
            meta: ToolMeta {
                name: "tailnet_webhook_create",
                summary: "Create a webhook endpoint.

**The signing secret is in the answer and nowhere else.** It signs the `Tailscale-Webhook-Signature` header; a receiver that checks signatures needs it, and there is no way to read it again — only to rotate it, which breaks the old one.

`provider_type` shapes the payload for a receiver that expects its own format. Omit it for Tailscale's own shape.",
                toolset: Toolset::TailnetWebhooks,
                tier: Tier::Write,
                idempotent: false,
                requires_confirmation: false,
                self_severing: false,
                varying: false,
                since: None,
            },
        },
        ToolEntry {
            meta: ToolMeta {
                name: "tailnet_webhook_get",
                summary: "Read one webhook endpoint by its id.",
                toolset: Toolset::TailnetWebhooks,
                tier: Tier::Read,
                idempotent: true,
                requires_confirmation: false,
                self_severing: false,
                varying: false,
                since: None,
            },
        },
        ToolEntry {
            meta: ToolMeta {
                name: "tailnet_webhook_update",
                summary: "Replace which events an endpoint is sent.

The whole list, not an addition: an event not in `subscriptions` stops being delivered. The endpoint's URL and provider cannot be changed — delete it and create another.",
                toolset: Toolset::TailnetWebhooks,
                tier: Tier::Write,
                idempotent: true,
                requires_confirmation: false,
                self_severing: false,
                varying: false,
                since: None,
            },
        },
        ToolEntry {
            meta: ToolMeta {
                name: "tailnet_webhook_delete",
                summary: "Delete a webhook endpoint. Deliveries stop at once.",
                toolset: Toolset::TailnetWebhooks,
                tier: Tier::Destructive,
                idempotent: true,
                requires_confirmation: false,
                self_severing: false,
                varying: false,
                since: None,
            },
        },
        ToolEntry {
            meta: ToolMeta {
                name: "tailnet_webhook_test",
                summary: "Queue a `test` event at the endpoint, to check it is reachable.

Changes nothing in the tailnet and does send a real delivery. The control plane accepts it and delivers asynchronously, so a success here means queued rather than received.",
                toolset: Toolset::TailnetWebhooks,
                tier: Tier::Write,
                idempotent: false,
                requires_confirmation: false,
                self_severing: false,
                varying: false,
                since: None,
            },
        },
        ToolEntry {
            meta: ToolMeta {
                name: "tailnet_webhook_secret_rotate",
                summary: "Replace an endpoint's signing secret, and answer with the new one.

**The old secret stops verifying immediately.** Every receiver checking signatures rejects every delivery until it has the new secret, which is in this answer and nowhere else.",
                toolset: Toolset::TailnetWebhooks,
                tier: Tier::Destructive,
                idempotent: false,
                requires_confirmation: false,
                self_severing: false,
                varying: false,
                since: None,
            },
        },
    ]
}


} // verus!
