//! Invitations: a device shared into another tailnet, and a person asked to
//! join this one.
//!
//! These endpoints accept only a credential owned by a user, since an
//! invitation records who sent it, so a refusal about permission is explained
//! in those terms on its way back.

use vstd::prelude::*;
use crate::registry::{ToolEntry, ToolMeta};
use crate::meta::{Tier, Toolset};

use crate::common::{path_segment, valid_segment};
use crate::error::{ErrorCode, ToolError, ToolResult};
use crate::text::{cat3, owned, trim_seq};

verus! {

/// Why a permission refusal from these endpoints is not about scopes.
pub const NEEDS_A_PERSON: &'static str = "This endpoint accepts only a credential owned by a user, because an invitation records who sent it. A token minted from an OAuth client or a federated identity is refused however wide its scopes are.";

/// A tool that takes nothing.
#[derive(Debug, Default, Clone, Copy)]
pub struct NoParams {}

/// One device.
#[derive(Debug, Default)]
pub struct DeviceParams {
    pub device_id: String,
}

/// One invitation.
#[derive(Debug, Default)]
pub struct InviteParams {
    pub invite_id: String,
}

/// The device to share and the invitations to create for it.
#[derive(Debug, Default)]
pub struct DeviceInviteCreateParams {
    pub device_id: String,
    pub invites: Vec<DeviceInviteRequest>,
}

/// One invitation to a device.
#[derive(Debug, Default)]
pub struct DeviceInviteRequest {
    /// Whether the invitation can be accepted more than once.
    pub multi_use: Option<bool>,
    /// Whether the recipient may use the device as an exit node.
    pub allow_exit_node: Option<bool>,
    /// Who to mail it to.
    pub email: Option<String>,
}

/// An invitation URL or code to accept.
#[derive(Debug, Default)]
pub struct AcceptParams {
    pub invite: String,
}

/// The people to invite.
#[derive(Debug, Default)]
pub struct UserInviteCreateParams {
    pub invites: Vec<UserInviteRequest>,
}

/// One invitation to the tailnet.
#[derive(Debug, Default)]
pub struct UserInviteRequest {
    /// The role the invitee gets on accepting.
    pub role: Option<String>,
    /// Who to mail it to.
    pub email: Option<String>,
}

/// A refusal about permission: the control plane's own, with a status it
/// uses for a credential it will not accept.
pub open spec fn about_permission(e: ToolError) -> bool {
    e.code == ErrorCode::ApiError && (e.status == Some(400u16) || e.status == Some(401u16)
        || e.status == Some(403u16))
}

/// Attach the credential explanation to a refusal that could be about it.
/// Only to a refusal about permission: a 404 is a missing invite and a 429 is
/// the rate limit, each with an answer of its own.
pub fn explain_credential(error: ToolError) -> (r: ToolError)
    ensures
        r.code == error.code,
        r.message@ == error.message@,
        r.status == error.status,
        about_permission(error) ==> (r.hint matches Some(h) && h@ == NEEDS_A_PERSON@),
        !about_permission(error) ==> r.hint == error.hint,
{
    let permission = match error.code {
        ErrorCode::ApiError => match error.status {
            Some(s) => s == 400 || s == 401 || s == 403,
            None => false,
        },
        _ => false,
    };
    if permission {
        return error.with_hint(owned(NEEDS_A_PERSON));
    }
    error
}

/// `/api/v2/device/<id>/device-invites`.
pub fn device_invites_path(device: &str) -> (r: ToolResult<String>)
    ensures
        r is Ok <==> valid_segment(trim_seq(device@)),
        r matches Ok(p) ==> p@ == "/api/v2/device/"@ + trim_seq(device@) + "/device-invites"@,
        r matches Err(e) ==> e.code == ErrorCode::InvalidArgs,
{
    let id = path_segment("device_id", device)?;
    Ok(cat3("/api/v2/device/", id.as_str(), "/device-invites"))
}

/// `/api/v2/device-invites/<id><rest>`.
pub fn device_invite_path(id: &str, rest: &str) -> (r: ToolResult<String>)
    ensures
        r is Ok <==> valid_segment(trim_seq(id@)),
        r matches Ok(p) ==> p@ == "/api/v2/device-invites/"@ + trim_seq(id@) + rest@,
        r matches Err(e) ==> e.code == ErrorCode::InvalidArgs,
{
    let id = path_segment("invite_id", id)?;
    Ok(cat3("/api/v2/device-invites/", id.as_str(), rest))
}

/// `/api/v2/user-invites/<id><rest>`.
pub fn user_invite_path(id: &str, rest: &str) -> (r: ToolResult<String>)
    ensures
        r is Ok <==> valid_segment(trim_seq(id@)),
        r matches Ok(p) ==> p@ == "/api/v2/user-invites/"@ + trim_seq(id@) + rest@,
        r matches Err(e) ==> e.code == ErrorCode::InvalidArgs,
{
    let id = path_segment("invite_id", id)?;
    Ok(cat3("/api/v2/user-invites/", id.as_str(), rest))
}

/// An invitation call that names nobody is refused before it is sent.
pub fn some_invites(count: usize) -> (r: ToolResult<()>)
    ensures
        r is Ok <==> count > 0,
        r matches Err(e) ==> e.code == ErrorCode::InvalidArgs && e.message@
            == "`invites` is empty; give at least one invitation to create"@,
{
    if count == 0 {
        return Err(ToolError::invalid_args(owned("`invites` is empty; give at least one invitation to create")));
    }
    Ok(())
}

pub open spec fn no_invite() -> Seq<char> {
    "`invite` is empty; give the invitation URL or its id"@
}

/// The invitation to accept, trimmed, refusing a blank one.
pub fn checked_invite(invite: &str) -> (r: ToolResult<String>)
    ensures
        trim_seq(invite@).len() == 0 ==> (r matches Err(e) && e.code == ErrorCode::InvalidArgs
            && e.message@ == no_invite()),
        trim_seq(invite@).len() > 0 ==> (r matches Ok(v) && v@ == trim_seq(invite@)),
{
    let t = crate::text::trim(invite);
    if t.as_str().unicode_len() == 0 {
        return Err(ToolError::invalid_args(owned("`invite` is empty; give the invitation URL or its id")));
    }
    Ok(t)
}

/// Every role an invitation names is one the API has; an invitation that
/// names none gets the control plane's default.
pub fn checked_roles(invites: &Vec<UserInviteRequest>, roles: &[&str]) -> (r: ToolResult<()>)
    ensures
        r is Ok <==> forall|i: int|
            0 <= i < invites@.len() ==> match (#[trigger] invites@[i]).role {
                Some(role) => crate::common::listed(role@, crate::common::views(roles@)),
                None => true,
            },
        r matches Err(e) ==> e.code == ErrorCode::InvalidArgs,
{
    let mut i: usize = 0;
    while i < invites.len()
        invariant
            i <= invites@.len(),
            forall|k: int|
                0 <= k < i ==> match (#[trigger] invites@[k]).role {
                    Some(role) => crate::common::listed(role@, crate::common::views(roles@)),
                    None => true,
                },
        decreases invites.len() - i,
    {
        if let Some(role) = &invites[i].role {
            crate::common::one_of("role", role.as_str(), roles)?;
        }
        i = i + 1;
    }
    Ok(())
}


/// Every tool of this toolset, in the order a client lists them.
pub fn entries() -> (r: Vec<ToolEntry>)
    ensures
        r.len() == 11,
        forall|i: int|
            0 <= i < r.len() ==> (#[trigger] r[i]).meta.toolset == Toolset::TailnetInvites
                && crate::registry::row_ok(r[i]),
{
    proof {
        reveal_strlit("tailnet_");
        reveal_strlit("tailnet_device_invite_list");
        reveal_strlit("tailnet_device_invite_create");
        reveal_strlit("tailnet_device_invite_get");
        reveal_strlit("tailnet_device_invite_delete");
        reveal_strlit("tailnet_device_invite_resend");
        reveal_strlit("tailnet_device_invite_accept");
        reveal_strlit("tailnet_user_invite_list");
        reveal_strlit("tailnet_user_invite_create");
        reveal_strlit("tailnet_user_invite_get");
        reveal_strlit("tailnet_user_invite_delete");
        reveal_strlit("tailnet_user_invite_resend");
    }
    vec![
        ToolEntry {
            meta: ToolMeta {
                name: "tailnet_device_invite_list",
                summary: "List the outstanding invitations to share one device.",
                toolset: Toolset::TailnetInvites,
                tier: Tier::Read,
                idempotent: true,
                requires_confirmation: false,
                self_severing: false,
                varying: false,
                since: None,
            },
        },
        ToolEntry {
            meta: ToolMeta {
                name: "tailnet_device_invite_create",
                summary: "Share a device with people outside the tailnet.

Takes a list, so several people can be invited at once and each gets its own settings. Each answer carries an `inviteUrl`, which is a credential: anyone holding it can accept. Omitting `email` is how to create one nobody is mailed, to be passed on by hand.

Needs a user-owned credential: the invite records who sent it.",
                toolset: Toolset::TailnetInvites,
                tier: Tier::Write,
                idempotent: false,
                requires_confirmation: false,
                self_severing: false,
                varying: false,
                since: None,
            },
        },
        ToolEntry {
            meta: ToolMeta {
                name: "tailnet_device_invite_get",
                summary: "Read one device invitation by its id.",
                toolset: Toolset::TailnetInvites,
                tier: Tier::Read,
                idempotent: true,
                requires_confirmation: false,
                self_severing: false,
                varying: false,
                since: None,
            },
        },
        ToolEntry {
            meta: ToolMeta {
                name: "tailnet_device_invite_delete",
                summary: "Withdraw a device invitation. Anyone who already accepted keeps the share; this only stops it being accepted again.",
                toolset: Toolset::TailnetInvites,
                tier: Tier::Destructive,
                idempotent: true,
                requires_confirmation: false,
                self_severing: false,
                varying: false,
                since: None,
            },
        },
        ToolEntry {
            meta: ToolMeta {
                name: "tailnet_device_invite_resend",
                summary: "Send the invitation email again.

Only for an invite that was created with an email address, and rate limited upstream to one a minute. Needs a user-owned credential.",
                toolset: Toolset::TailnetInvites,
                tier: Tier::Write,
                idempotent: false,
                requires_confirmation: false,
                self_severing: false,
                varying: false,
                since: None,
            },
        },
        ToolEntry {
            meta: ToolMeta {
                name: "tailnet_device_invite_accept",
                summary: "Accept a device invitation, taking the share for this credential's own user.

Takes the invite URL or the bare id at the end of it. Needs a user-owned credential: a share belongs to a person.",
                toolset: Toolset::TailnetInvites,
                tier: Tier::Write,
                idempotent: false,
                requires_confirmation: false,
                self_severing: false,
                varying: false,
                since: None,
            },
        },
        ToolEntry {
            meta: ToolMeta {
                name: "tailnet_user_invite_list",
                summary: "List the outstanding invitations to join the tailnet.",
                toolset: Toolset::TailnetInvites,
                tier: Tier::Read,
                idempotent: true,
                requires_confirmation: false,
                self_severing: false,
                varying: false,
                since: None,
            },
        },
        ToolEntry {
            meta: ToolMeta {
                name: "tailnet_user_invite_create",
                summary: "Invite people to join the tailnet, each with the role they will get.

Takes a list, so several people can be invited at once. Each answer carries an `inviteUrl`, which is a credential: anyone holding it can accept. Omitting `email` is how to create one nobody is mailed.

Needs a user-owned credential: the invite records who sent it.",
                toolset: Toolset::TailnetInvites,
                tier: Tier::Write,
                idempotent: false,
                requires_confirmation: false,
                self_severing: false,
                varying: false,
                since: None,
            },
        },
        ToolEntry {
            meta: ToolMeta {
                name: "tailnet_user_invite_get",
                summary: "Read one tailnet invitation by its id.",
                toolset: Toolset::TailnetInvites,
                tier: Tier::Read,
                idempotent: true,
                requires_confirmation: false,
                self_severing: false,
                varying: false,
                since: None,
            },
        },
        ToolEntry {
            meta: ToolMeta {
                name: "tailnet_user_invite_delete",
                summary: "Withdraw a tailnet invitation. Needs a user-owned credential.",
                toolset: Toolset::TailnetInvites,
                tier: Tier::Destructive,
                idempotent: true,
                requires_confirmation: false,
                self_severing: false,
                varying: false,
                since: None,
            },
        },
        ToolEntry {
            meta: ToolMeta {
                name: "tailnet_user_invite_resend",
                summary: "Send the invitation email again.

Only for an invite that was created with an email address, and rate limited upstream to one a minute. Needs a user-owned credential.",
                toolset: Toolset::TailnetInvites,
                tier: Tier::Write,
                idempotent: false,
                requires_confirmation: false,
                self_severing: false,
                varying: false,
                since: None,
            },
        },
    ]
}


} // verus!
