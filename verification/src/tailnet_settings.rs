//! The tailnet's settings and its contacts.

use vstd::prelude::*;
use crate::registry::{ToolEntry, ToolMeta};
use crate::meta::{Tier, Toolset};

use crate::common::{listed, one_of, views};
use crate::error::{ErrorCode, ToolError, ToolResult};
use crate::text::{cat3, owned, trim, trim_seq};

verus! {

/// A tool that takes nothing.
#[derive(Debug, Default, Clone, Copy)]
pub struct NoParams {}

/// Which contact.
#[derive(Debug, Default)]
pub struct ContactParams {
    pub contact_type: String,
}

/// A contact's new address.
#[derive(Debug, Default)]
pub struct ContactUpdateParams {
    pub contact_type: String,
    pub email: String,
}

/// `/contacts/<type><rest>` under the tailnet's own path, for a contact type
/// the API has.
pub fn contact_path(kind: &str, rest: &str, allowed: &[&str]) -> (r: ToolResult<String>)
    ensures
        r is Ok <==> listed(kind@, views(allowed@)),
        r matches Ok(p) ==> p@ == "/contacts/"@ + kind@ + rest@,
        r matches Err(e) ==> e.code == ErrorCode::InvalidArgs,
{
    let kind = one_of("contact_type", kind, allowed)?;
    Ok(cat3("/contacts/", kind.as_str(), rest))
}

pub open spec fn no_email() -> Seq<char> {
    "`email` is empty; a contact has to be an address"@
}

/// A contact's new address, trimmed, refusing a blank one.
pub fn checked_email(email: &str) -> (r: ToolResult<String>)
    ensures
        trim_seq(email@).len() == 0 ==> (r matches Err(e) && e.code == ErrorCode::InvalidArgs
            && e.message@ == no_email()),
        trim_seq(email@).len() > 0 ==> (r matches Ok(v) && v@ == trim_seq(email@)),
{
    let t = trim(email);
    if t.as_str().unicode_len() == 0 {
        return Err(ToolError::invalid_args(owned("`email` is empty; a contact has to be an address")));
    }
    Ok(t)
}


/// Every tool of this toolset, in the order a client lists them.
pub fn entries() -> (r: Vec<ToolEntry>)
    ensures
        r.len() == 5,
        forall|i: int|
            0 <= i < r.len() ==> (#[trigger] r[i]).meta.toolset == Toolset::TailnetSettings
                && crate::registry::row_ok(r[i]),
{
    proof {
        reveal_strlit("tailnet_");
        reveal_strlit("tailnet_contacts_get");
        reveal_strlit("tailnet_contact_update");
        reveal_strlit("tailnet_contact_verification_resend");
        reveal_strlit("tailnet_settings_get");
        reveal_strlit("tailnet_settings_update");
    }
    vec![
        ToolEntry {
            meta: ToolMeta {
                name: "tailnet_contacts_get",
                summary: "Read the addresses the tailnet's notices go to: `account`, `support` and `security`, each with its verification state.",
                toolset: Toolset::TailnetSettings,
                tier: Tier::Read,
                idempotent: true,
                requires_confirmation: false,
                self_severing: false,
                varying: false,
                since: None,
            },
        },
        ToolEntry {
            meta: ToolMeta {
                name: "tailnet_contact_update",
                summary: "Change one contact address.

Not immediate: the new address is mailed a verification link and sits in `fallbackEmail` until it is followed, while the old one keeps receiving.",
                toolset: Toolset::TailnetSettings,
                tier: Tier::Write,
                idempotent: true,
                requires_confirmation: false,
                self_severing: false,
                varying: false,
                since: None,
            },
        },
        ToolEntry {
            meta: ToolMeta {
                name: "tailnet_contact_verification_resend",
                summary: "Send the verification link again for a contact address waiting on one.

Only works while a verification is pending; there is nothing to resend for an address already in use.",
                toolset: Toolset::TailnetSettings,
                tier: Tier::Write,
                idempotent: true,
                requires_confirmation: false,
                self_severing: false,
                varying: false,
                since: None,
            },
        },
        ToolEntry {
            meta: ToolMeta {
                name: "tailnet_settings_get",
                summary: "Read the tailnet-wide settings: device and user approval, key durations, automatic updates, network flow logging and the rest.

A setting reads as `null` where the tailnet's plan does not carry the feature, which is not the same answer as `false`.",
                toolset: Toolset::TailnetSettings,
                tier: Tier::Read,
                idempotent: true,
                requires_confirmation: false,
                self_severing: false,
                varying: false,
                since: None,
            },
        },
        ToolEntry {
            meta: ToolMeta {
                name: "tailnet_settings_update",
                summary: "Change tailnet-wide settings.

A merge: a setting the document does not mention is left alone. The field names are Tailscale's own, as `tailnet_settings_get` reports them — `devicesApprovalOn`, `usersApprovalOn`, `devicesKeyDurationDays` and so on.",
                toolset: Toolset::TailnetSettings,
                tier: Tier::Write,
                idempotent: true,
                requires_confirmation: false,
                self_severing: false,
                varying: false,
                since: None,
            },
        },
    ]
}


} // verus!
