//! The tailnet's users: listed, read, given a role, suspended, restored,
//! approved and deleted. A user is addressed outside the tailnet's path, by
//! their own id.

use vstd::prelude::*;
use crate::registry::{ToolEntry, ToolMeta};
use crate::meta::{Tier, Toolset};

use crate::common::{listed, one_of, opt_string_view, path_segment, valid_segment, views};
use crate::error::{ErrorCode, ToolResult};
use crate::text::{cat3, trim_seq};

verus! {

/// Which users a listing covers.
#[derive(Debug, Default)]
pub struct UserListParams {
    pub user_type: Option<String>,
    pub role: Option<String>,
}

/// One user.
#[derive(Debug, Default)]
pub struct UserParams {
    pub user_id: String,
}

/// A user's new role.
#[derive(Debug, Default)]
pub struct UserRoleParams {
    pub user_id: String,
    pub role: String,
}

/// `/api/v2/users/<id><rest>`.
pub fn user_path(id: &str, rest: &str) -> (r: ToolResult<String>)
    ensures
        r is Ok <==> valid_segment(trim_seq(id@)),
        r matches Ok(p) ==> p@ == "/api/v2/users/"@ + trim_seq(id@) + rest@,
        r matches Err(e) ==> e.code == ErrorCode::InvalidArgs,
{
    let id = path_segment("user_id", id)?;
    Ok(cat3("/api/v2/users/", id.as_str(), rest))
}

/// A listing's filters, each held to the values the API takes for it.
pub fn user_filters(
    params: &UserListParams,
    type_filters: &[&str],
    role_filters: &[&str],
) -> (r: ToolResult<(Option<String>, Option<String>)>)
    ensures
        r is Ok <==> (match params.user_type {
            Some(t) => listed(t@, views(type_filters@)),
            None => true,
        }) && (match params.role {
            Some(t) => listed(t@, views(role_filters@)),
            None => true,
        }),
        r matches Ok((t, role)) ==> opt_string_view(t) == opt_string_view(params.user_type)
            && opt_string_view(role) == opt_string_view(params.role),
        r matches Err(e) ==> e.code == ErrorCode::InvalidArgs,
{
    let t = match &params.user_type {
        Some(v) => Some(one_of("user_type", v.as_str(), type_filters)?),
        None => None,
    };
    let role = match &params.role {
        Some(v) => Some(one_of("role", v.as_str(), role_filters)?),
        None => None,
    };
    Ok((t, role))
}


/// The four changes to a user's standing, each a bodyless `POST` to a path
/// named by the action.
#[derive(Debug, Clone, Copy, PartialEq, Eq, Structural)]
pub enum Standing {
    Approve,
    Suspend,
    Restore,
    Delete,
}

impl Standing {
    pub open spec fn spec_action(self) -> Seq<char> {
        match self {
            Standing::Approve => "approve"@,
            Standing::Suspend => "suspend"@,
            Standing::Restore => "restore"@,
            Standing::Delete => "delete"@,
        }
    }

    pub open spec fn spec_done(self) -> Seq<char> {
        match self {
            Standing::Approve => "user approved"@,
            Standing::Suspend => "user suspended"@,
            Standing::Restore => "user restored"@,
            Standing::Delete => "user deleted"@,
        }
    }

    /// What an answer says was done, when the control plane said nothing.
    pub fn done(self) -> (r: &'static str)
        ensures
            r@ == self.spec_done(),
    {
        match self {
            Standing::Approve => "user approved",
            Standing::Suspend => "user suspended",
            Standing::Restore => "user restored",
            Standing::Delete => "user deleted",
        }
    }

    /// `/api/v2/users/<id>/<action>`.
    pub fn path(self, id: &str) -> (r: ToolResult<String>)
        ensures
            r is Ok <==> valid_segment(trim_seq(id@)),
            r matches Ok(p) ==> p@ == "/api/v2/users/"@ + trim_seq(id@) + "/"@ + self.spec_action(),
            r matches Err(e) ==> e.code == ErrorCode::InvalidArgs,
    {
        let action = match self {
            Standing::Approve => "/approve",
            Standing::Suspend => "/suspend",
            Standing::Restore => "/restore",
            Standing::Delete => "/delete",
        };
        proof {
            reveal_strlit("/approve");
            reveal_strlit("approve");
            reveal_strlit("/suspend");
            reveal_strlit("suspend");
            reveal_strlit("/restore");
            reveal_strlit("restore");
            reveal_strlit("/delete");
            reveal_strlit("delete");
            reveal_strlit("/");
        }
        let r = user_path(id, action);
        proof {
            if r is Ok {
                assert(action@ =~= "/"@ + self.spec_action());
            }
        }
        r
    }
}

/// Every tool of this toolset, in the order a client lists them.
pub fn entries() -> (r: Vec<ToolEntry>)
    ensures
        r.len() == 7,
        forall|i: int|
            0 <= i < r.len() ==> (#[trigger] r[i]).meta.toolset == Toolset::TailnetUsers
                && crate::registry::row_ok(r[i]),
{
    proof {
        reveal_strlit("tailnet_");
        reveal_strlit("tailnet_user_list");
        reveal_strlit("tailnet_user_get");
        reveal_strlit("tailnet_user_role_set");
        reveal_strlit("tailnet_user_approve");
        reveal_strlit("tailnet_user_suspend");
        reveal_strlit("tailnet_user_restore");
        reveal_strlit("tailnet_user_delete");
    }
    vec![
        ToolEntry {
            meta: ToolMeta {
                name: "tailnet_user_list",
                summary: "List the tailnet's users. Answers with `{\"users\": [...]}`.

`role` and `type` narrow the listing at the control plane. Both accept `all`, which is the same as leaving them out.",
                toolset: Toolset::TailnetUsers,
                tier: Tier::Read,
                idempotent: true,
                requires_confirmation: false,
                self_severing: false,
                varying: false,
                since: None,
            },
        },
        ToolEntry {
            meta: ToolMeta {
                name: "tailnet_user_get",
                summary: "Read one user by their id.",
                toolset: Toolset::TailnetUsers,
                tier: Tier::Read,
                idempotent: true,
                requires_confirmation: false,
                self_severing: false,
                varying: false,
                since: None,
            },
        },
        ToolEntry {
            meta: ToolMeta {
                name: "tailnet_user_role_set",
                summary: "Change a user's role.

A credential owned by a user cannot change that user's own role, which the control plane refuses rather than this server.",
                toolset: Toolset::TailnetUsers,
                tier: Tier::Write,
                idempotent: true,
                requires_confirmation: false,
                self_severing: false,
                varying: false,
                since: None,
            },
        },
        ToolEntry {
            meta: ToolMeta {
                name: "tailnet_user_approve",
                summary: "Approve a user waiting for approval.

Does nothing if the tailnet does not require approval or the user is already approved, which the control plane treats as success.",
                toolset: Toolset::TailnetUsers,
                tier: Tier::Write,
                idempotent: true,
                requires_confirmation: false,
                self_severing: false,
                varying: false,
                since: None,
            },
        },
        ToolEntry {
            meta: ToolMeta {
                name: "tailnet_user_suspend",
                summary: "Suspend a user: their devices stop connecting and they cannot sign in. Reversible with `tailnet_user_restore`.",
                toolset: Toolset::TailnetUsers,
                tier: Tier::Write,
                idempotent: true,
                requires_confirmation: false,
                self_severing: false,
                varying: false,
                since: None,
            },
        },
        ToolEntry {
            meta: ToolMeta {
                name: "tailnet_user_restore",
                summary: "Restore a suspended user, and their devices with them.",
                toolset: Toolset::TailnetUsers,
                tier: Tier::Write,
                idempotent: true,
                requires_confirmation: false,
                self_severing: false,
                varying: false,
                since: None,
            },
        },
        ToolEntry {
            meta: ToolMeta {
                name: "tailnet_user_delete",
                summary: "Delete a user from the tailnet, along with every device they own.

Not reversible: the user has to be invited again and their devices re-registered.",
                toolset: Toolset::TailnetUsers,
                tier: Tier::Destructive,
                idempotent: true,
                requires_confirmation: false,
                self_severing: false,
                varying: false,
                since: None,
            },
        },
    ]
}


} // verus!
