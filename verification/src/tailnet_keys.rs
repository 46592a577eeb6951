//! The tailnet's keys: auth keys, OAuth clients and federated identities.
//! A key's secret appears once, in the answer to the call that created it.

use vstd::prelude::*;
use crate::registry::{ToolEntry, ToolMeta};
use crate::meta::{Tier, Toolset};

use crate::common::{listed, one_of, path_segment, valid_segment, views};
use crate::error::{ErrorCode, ToolResult};
use crate::text::{cat2, trim_seq};

verus! {

/// Which keys a listing covers.
#[derive(Debug, Default)]
pub struct KeyListParams {
    /// Every key in the tailnet rather than only the credential's own. Sent
    /// whatever was asked, as `true` when it was not.
    pub all: Option<bool>,
}

/// One key, by its id. Not the secret.
#[derive(Debug, Default)]
pub struct KeyParams {
    pub key_id: String,
}

/// What a key update changes.
#[derive(Debug, Default)]
pub struct KeyUpdateParams {
    pub key_id: String,
    pub key_type: Option<String>,
    pub description: Option<String>,
    pub scopes: Option<Vec<String>>,
    pub tags: Option<Vec<String>>,
    pub issuer: Option<String>,
    pub subject: Option<String>,
    pub audience: Option<String>,
}

/// The `all` a listing sends: what was asked, or every key.
pub fn listing_all(all: Option<bool>) -> (r: bool)
    ensures
        r == match all {
            Some(a) => a,
            None => true,
        },
{
    match all {
        Some(a) => a,
        None => true,
    }
}

/// The path of one key under the tailnet's own path.
pub fn key_path(id: &str) -> (r: ToolResult<String>)
    ensures
        r is Ok <==> valid_segment(trim_seq(id@)),
        r matches Ok(p) ==> p@ == "/keys/"@ + trim_seq(id@),
        r matches Err(e) ==> e.code == ErrorCode::InvalidArgs,
{
    let id = path_segment("key_id", id)?;
    Ok(cat2("/keys/", id.as_str()))
}

/// The key type, held to the types the call takes.
pub fn checked_key_type(key_type: Option<&str>, allowed: &[&str]) -> (r: ToolResult<Option<String>>)
    ensures
        key_type is None ==> r matches Ok(None),
        key_type matches Some(k) ==> (r is Ok <==> listed(k@, views(allowed@))),
        r matches Ok(Some(v)) ==> key_type matches Some(k) && v@ == k@,
        r matches Err(e) ==> e.code == ErrorCode::InvalidArgs,
{
    match key_type {
        None => Ok(None),
        Some(k) => {
            let v = one_of("key_type", k, allowed)?;
            Ok(Some(v))
        },
    }
}

/// Every tool of this toolset, in the order a client lists them.
pub fn entries() -> (r: Vec<ToolEntry>)
    ensures
        r.len() == 5,
        forall|i: int|
            0 <= i < r.len() ==> (#[trigger] r[i]).meta.toolset == Toolset::TailnetKeys
                && crate::registry::row_ok(r[i]),
{
    proof {
        reveal_strlit("tailnet_");
        reveal_strlit("tailnet_key_list");
        reveal_strlit("tailnet_key_get");
        reveal_strlit("tailnet_key_create");
        reveal_strlit("tailnet_key_update");
        reveal_strlit("tailnet_key_delete");
    }
    vec![
        ToolEntry {
            meta: ToolMeta {
                name: "tailnet_key_list",
                summary: "List the tailnet's keys: auth keys, API access tokens, OAuth clients and federated identities. No secret is included — a key's secret is returned only by the call that created it.

`all` decides how wide the listing is, and defaults to true, which is every key the credential's scopes let it see. Set it to false to see only the keys belonging to the credential's own user.",
                toolset: Toolset::TailnetKeys,
                tier: Tier::Read,
                idempotent: true,
                requires_confirmation: false,
                self_severing: false,
                varying: false,
                since: None,
            },
        },
        ToolEntry {
            meta: ToolMeta {
                name: "tailnet_key_get",
                summary: "Read one key by its id. A revoked or expired key answers with `invalid: true` rather than a 404.",
                toolset: Toolset::TailnetKeys,
                tier: Tier::Read,
                idempotent: true,
                requires_confirmation: false,
                self_severing: false,
                varying: false,
                since: None,
            },
        },
        ToolEntry {
            meta: ToolMeta {
                name: "tailnet_key_create",
                summary: "Mint an auth key, an OAuth client or a federated identity.

**The secret is in the answer and nowhere else.** There is no way to read it again; a caller that loses it has to create another key and revoke this one.

`key_type: \"auth\"` takes `capabilities` and `expiry_seconds`; `\"client\"` and `\"federated\"` take `scopes` instead, and `tags` is required when the scopes include `devices:core` or `auth_keys`. An API access token cannot be created here.",
                toolset: Toolset::TailnetKeys,
                tier: Tier::Write,
                idempotent: false,
                requires_confirmation: false,
                self_severing: false,
                varying: false,
                since: None,
            },
        },
        ToolEntry {
            meta: ToolMeta {
                name: "tailnet_key_update",
                summary: "Reconfigure an OAuth client or a federated identity.

Auth keys and API access tokens cannot be changed: revoke and mint another. The secret is neither regenerated nor returned.",
                toolset: Toolset::TailnetKeys,
                tier: Tier::Write,
                idempotent: true,
                requires_confirmation: false,
                self_severing: false,
                varying: false,
                since: None,
            },
        },
        ToolEntry {
            meta: ToolMeta {
                name: "tailnet_key_delete",
                summary: "Revoke a key. Anything authenticating with it stops working at once, and devices registered with an auth key are unaffected.",
                toolset: Toolset::TailnetKeys,
                tier: Tier::Destructive,
                idempotent: true,
                requires_confirmation: false,
                self_severing: false,
                varying: false,
                since: None,
            },
        },
    ]
}


} // verus!
