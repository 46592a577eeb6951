//! Device posture integrations: the third-party providers whose view of a
//! device the tailnet's policy can consult. An integration is addressed
//! outside the tailnet's path, by its own id.

use vstd::prelude::*;
use crate::registry::{ToolEntry, ToolMeta};
use crate::meta::{Tier, Toolset};

use crate::common::{path_segment, valid_segment};
use crate::error::{ErrorCode, ToolError, ToolResult};
use crate::text::{cat2, owned, trim, trim_seq};

verus! {

/// A listing takes nothing.
#[derive(Debug, Default, Clone, Copy)]
pub struct ListParams {}

/// One integration.
#[derive(Debug, Default)]
pub struct GetParams {
    pub integration_id: String,
}

/// A new integration. The secret is never shown back.
#[derive(Default)]
pub struct CreateParams {
    pub provider: String,
    pub client_secret: String,
    pub client_id: Option<String>,
    pub cloud_id: Option<String>,
    pub tenant_id: Option<String>,
}

/// What to change about an integration. The provider cannot be changed.
#[derive(Default)]
pub struct UpdateParams {
    pub integration_id: String,
    pub client_secret: Option<String>,
    pub client_id: Option<String>,
    pub cloud_id: Option<String>,
    pub tenant_id: Option<String>,
}

/// `/api/v2/posture/integrations/<id>`.
pub fn integration_path(id: &str) -> (r: ToolResult<String>)
    ensures
        r is Ok <==> valid_segment(trim_seq(id@)),
        r matches Ok(p) ==> p@ == "/api/v2/posture/integrations/"@ + trim_seq(id@),
        r matches Err(e) ==> e.code == ErrorCode::InvalidArgs,
{
    let id = path_segment("integration_id", id)?;
    Ok(cat2("/api/v2/posture/integrations/", id.as_str()))
}

pub open spec fn blank_provider() -> Seq<char> {
    "`provider` is blank; name the posture provider this integration is for"@
}

/// The provider a new integration is for, trimmed, refusing a blank one.
pub fn checked_provider(provider: &str) -> (r: ToolResult<String>)
    ensures
        trim_seq(provider@).len() == 0 ==> (r matches Err(e) && e.code == ErrorCode::InvalidArgs
            && e.message@ == blank_provider()),
        trim_seq(provider@).len() > 0 ==> (r matches Ok(v) && v@ == trim_seq(provider@)),
{
    let t = trim(provider);
    if t.as_str().unicode_len() == 0 {
        return Err(ToolError::invalid_args(owned("`provider` is blank; name the posture provider this integration is for")));
    }
    Ok(t)
}

pub open spec fn nothing_to_change() -> Seq<char> {
    "nothing to change: give at least one of `client_secret`, `client_id`, `cloud_id` or `tenant_id`"@
}

/// An update that names nothing to change is refused. The provider is never
/// sent on an update: the control plane ignores it, so sending one would let
/// a caller believe it had been changed.
pub fn update_check(params: &UpdateParams) -> (r: ToolResult<()>)
    ensures
        r is Ok <==> (params.client_secret is Some || params.client_id is Some
            || params.cloud_id is Some || params.tenant_id is Some),
        r matches Err(e) ==> e.code == ErrorCode::InvalidArgs && e.message@ == nothing_to_change(),
{
    if params.client_secret.is_none() && params.client_id.is_none() && params.cloud_id.is_none()
        && params.tenant_id.is_none() {
        return Err(
            ToolError::invalid_args(
                owned(
                    "nothing to change: give at least one of `client_secret`, `client_id`, `cloud_id` or `tenant_id`",
                ),
            ),
        );
    }
    Ok(())
}

pub open spec fn no_secret() -> Seq<char> {
    "`client_secret` is empty; the provider's secret is what the integration authenticates with"@
}

/// The provider of a new integration, once its secret has been checked to be
/// there: a blank secret is refused first, then a blank provider.
pub fn create_check(params: &CreateParams) -> (r: ToolResult<String>)
    ensures
        trim_seq(params.client_secret@).len() == 0 ==> (r matches Err(e) && e.code
            == ErrorCode::InvalidArgs && e.message@ == no_secret()),
        trim_seq(params.client_secret@).len() > 0 && trim_seq(params.provider@).len() == 0 ==> (r matches Err(
            e,
        ) && e.code == ErrorCode::InvalidArgs && e.message@ == blank_provider()),
        trim_seq(params.client_secret@).len() > 0 && trim_seq(params.provider@).len() > 0 ==> (r matches Ok(
            v,
        ) && v@ == trim_seq(params.provider@)),
{
    let s = trim(params.client_secret.as_str());
    if s.as_str().unicode_len() == 0 {
        return Err(
            ToolError::invalid_args(
                owned("`client_secret` is empty; the provider's secret is what the integration authenticates with"),
            ),
        );
    }
    checked_provider(params.provider.as_str())
}


/// Every tool of this toolset, in the order a client lists them.
pub fn entries() -> (r: Vec<ToolEntry>)
    ensures
        r.len() == 5,
        forall|i: int|
            0 <= i < r.len() ==> (#[trigger] r[i]).meta.toolset == Toolset::TailnetPosture
                && crate::registry::row_ok(r[i]),
{
    proof {
        reveal_strlit("tailnet_");
        reveal_strlit("tailnet_posture_integration_list");
        reveal_strlit("tailnet_posture_integration_get");
        reveal_strlit("tailnet_posture_integration_create");
        reveal_strlit("tailnet_posture_integration_update");
        reveal_strlit("tailnet_posture_integration_delete");
    }
    vec![
        ToolEntry {
            meta: ToolMeta {
                name: "tailnet_posture_integration_list",
                summary: "List the posture integrations configured for the tailnet, with the status of each one's last sync. No secret is included.",
                toolset: Toolset::TailnetPosture,
                tier: Tier::Read,
                idempotent: true,
                requires_confirmation: false,
                self_severing: false,
                varying: false,
                since: None,
            },
        },
        ToolEntry {
            meta: ToolMeta {
                name: "tailnet_posture_integration_get",
                summary: "Read one posture integration by its id.",
                toolset: Toolset::TailnetPosture,
                tier: Tier::Read,
                idempotent: true,
                requires_confirmation: false,
                self_severing: false,
                varying: false,
                since: None,
            },
        },
        ToolEntry {
            meta: ToolMeta {
                name: "tailnet_posture_integration_create",
                summary: "Configure a link to a device posture provider.

A tailnet may have only one integration per provider: if one already exists the control plane refuses this call, and `tailnet_posture_integration_update` is what changes the existing one. The client secret is sent to the control plane and never comes back.",
                toolset: Toolset::TailnetPosture,
                tier: Tier::Write,
                idempotent: false,
                requires_confirmation: false,
                self_severing: false,
                varying: false,
                since: None,
            },
        },
        ToolEntry {
            meta: ToolMeta {
                name: "tailnet_posture_integration_update",
                summary: "Change an existing posture integration. Anything not given is left as it is, including the client secret, and the provider cannot be changed.",
                toolset: Toolset::TailnetPosture,
                tier: Tier::Write,
                idempotent: true,
                requires_confirmation: false,
                self_severing: false,
                varying: false,
                since: None,
            },
        },
        ToolEntry {
            meta: ToolMeta {
                name: "tailnet_posture_integration_delete",
                summary: "Remove a posture integration. Tailscale stops collecting posture from that provider, and any policy rule depending on those attributes stops matching.",
                toolset: Toolset::TailnetPosture,
                tier: Tier::Destructive,
                idempotent: true,
                requires_confirmation: false,
                self_severing: false,
                varying: false,
                since: None,
            },
        },
    ]
}


} // verus!
