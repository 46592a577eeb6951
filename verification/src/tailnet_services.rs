//! Tailscale services: virtual addresses a set of devices can host.
//!
//! The control plane documents these under `/services` while its own client
//! uses `/vip-services`; a call that the documented spelling does not find is
//! tried again with the other.

use vstd::prelude::*;
use crate::registry::{ToolEntry, ToolMeta};
use crate::meta::{Tier, Toolset};

use crate::common::{path_segment, valid_segment};
use crate::error::{ErrorCode, ToolError, ToolResult};
use crate::text::{cat3, cat4, trim_seq};

verus! {

/// The documented spelling of the services path.
pub const DOCUMENTED: &'static str = "/services";

/// The spelling the control plane's own client uses, tried when the
/// documented one is not found.
pub const GO_CLIENT: &'static str = "/vip-services";

/// A tool that takes nothing.
#[derive(Debug, Default, Clone, Copy)]
pub struct NoParams {}

/// One service, as `svc:example`.
#[derive(Debug, Default)]
pub struct ServiceParams {
    pub service_name: String,
}

/// One service and one device.
#[derive(Debug, Default)]
pub struct ServiceDeviceParams {
    pub service_name: String,
    pub device_id: String,
}

/// Whether a device is approved to host a service.
#[derive(Debug, Default)]
pub struct ServiceApprovalParams {
    pub service_name: String,
    pub device_id: String,
    pub approved: bool,
}

/// The service name, checked once before either spelling is tried. Its colon
/// is part of the identifier.
pub fn checked_name(service: &str) -> (r: ToolResult<String>)
    ensures
        r is Ok <==> valid_segment(trim_seq(service@)),
        r matches Ok(v) ==> v@ == trim_seq(service@),
        r matches Err(e) ==> e.code == ErrorCode::InvalidArgs,
{
    path_segment("service_name", service)
}

/// `<base>/<name><rest>`, under the tailnet's own path.
pub fn service_path(base: &str, name: &str, rest: &str) -> (r: String)
    ensures
        r@ == base@ + "/"@ + name@ + rest@,
{
    cat4(base, "/", name, rest)
}

/// `/device/<id>/approved`.
pub fn approval_suffix(device: &str) -> (r: ToolResult<String>)
    ensures
        r is Ok <==> valid_segment(trim_seq(device@)),
        r matches Ok(p) ==> p@ == "/device/"@ + trim_seq(device@) + "/approved"@,
        r matches Err(e) ==> e.code == ErrorCode::InvalidArgs,
{
    let id = path_segment("device_id", device)?;
    Ok(cat3("/device/", id.as_str(), "/approved"))
}

/// Whether to try the other spelling: only when the documented one was not
/// found.
pub fn retry_spelling(status: Option<u16>) -> (r: bool)
    ensures
        r == (status == Some(404u16)),
{
    match status {
        Some(s) => s == 404,
        None => false,
    }
}

/// Approving adds a host; withdrawing removes a working one, so it needs a
/// session that allows the destructive tier.
pub fn approval_check(approved: bool, max_tier: Tier) -> (r: ToolResult<()>)
    ensures
        r is Ok <==> (approved || max_tier == Tier::Destructive),
        r matches Err(e) ==> e.code == ErrorCode::NotPermitted,
{
    if !approved && max_tier.level() < 2 {
        return Err(
            ToolError::not_permitted(
                "withdrawing a device's approval to host a service",
                "--allow-destructive",
            ),
        );
    }
    Ok(())
}

/// Every tool of this toolset, in the order a client lists them.
pub fn entries() -> (r: Vec<ToolEntry>)
    ensures
        r.len() == 7,
        forall|i: int|
            0 <= i < r.len() ==> (#[trigger] r[i]).meta.toolset == Toolset::TailnetServices
                && crate::registry::row_ok(r[i]),
{
    proof {
        reveal_strlit("tailnet_");
        reveal_strlit("tailnet_service_list");
        reveal_strlit("tailnet_service_get");
        reveal_strlit("tailnet_service_replace");
        reveal_strlit("tailnet_service_delete");
        reveal_strlit("tailnet_service_hosts_list");
        reveal_strlit("tailnet_service_approval_get");
        reveal_strlit("tailnet_service_approval_set");
    }
    vec![
        ToolEntry {
            meta: ToolMeta {
                name: "tailnet_service_list",
                summary: "List the tailnet's services. Answers with `{\"vipServices\": [...]}`.",
                toolset: Toolset::TailnetServices,
                tier: Tier::Read,
                idempotent: true,
                requires_confirmation: false,
                self_severing: false,
                varying: false,
                since: None,
            },
        },
        ToolEntry {
            meta: ToolMeta {
                name: "tailnet_service_get",
                summary: "Read one service by its name, which is `svc:` followed by the name.",
                toolset: Toolset::TailnetServices,
                tier: Tier::Read,
                idempotent: true,
                requires_confirmation: false,
                self_severing: false,
                varying: false,
                since: None,
            },
        },
        ToolEntry {
            meta: ToolMeta {
                name: "tailnet_service_replace",
                summary: "Create a service, or replace one that already exists.

One endpoint for both: a service that is not there is created, and one that is gets this document in place of its own — anything the document leaves out is discarded. Read `tailnet_service_get` first and send back what it answered with the one change made.

On a create, the `name` in the document has to match `service_name`; on a replace, a different `name` renames the service.",
                toolset: Toolset::TailnetServices,
                tier: Tier::Write,
                idempotent: true,
                requires_confirmation: false,
                self_severing: false,
                varying: false,
                since: None,
            },
        },
        ToolEntry {
            meta: ToolMeta {
                name: "tailnet_service_delete",
                summary: "Delete a service. Anything addressing it by name stops resolving.",
                toolset: Toolset::TailnetServices,
                tier: Tier::Destructive,
                idempotent: true,
                requires_confirmation: false,
                self_severing: false,
                varying: false,
                since: None,
            },
        },
        ToolEntry {
            meta: ToolMeta {
                name: "tailnet_service_hosts_list",
                summary: "List the devices standing behind a service, and whether each is approved to host it.",
                toolset: Toolset::TailnetServices,
                tier: Tier::Read,
                idempotent: true,
                requires_confirmation: false,
                self_severing: false,
                varying: false,
                since: None,
            },
        },
        ToolEntry {
            meta: ToolMeta {
                name: "tailnet_service_approval_get",
                summary: "Read whether one device may host a service, and whether an auto-approver decided it rather than a person.",
                toolset: Toolset::TailnetServices,
                tier: Tier::Read,
                idempotent: true,
                requires_confirmation: false,
                self_severing: false,
                varying: false,
                since: None,
            },
        },
        ToolEntry {
            meta: ToolMeta {
                name: "tailnet_service_approval_set",
                summary: "Approve one device to host a service, or withdraw that approval.

Approving is a write. Withdrawing takes the device out of the service — traffic stops being sent to it — and needs the destructive tier.",
                toolset: Toolset::TailnetServices,
                tier: Tier::Write,
                idempotent: true,
                requires_confirmation: false,
                self_severing: false,
                varying: true,
                since: None,
            },
        },
    ]
}


} // verus!
