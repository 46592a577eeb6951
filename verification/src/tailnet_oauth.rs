//! OAuth apps registered for the tailnet: listed, read, registered, changed
//! and removed.

use vstd::prelude::*;
use crate::registry::{ToolEntry, ToolMeta};
use crate::meta::{Tier, Toolset};

use crate::common::{each_present, none_blank, path_segment, trimmed_all, valid_segment};
use crate::error::{ErrorCode, ToolError, ToolResult};
use crate::text::{cat2, owned, trim_seq};

verus! {

/// A tool that takes nothing.
#[derive(Debug, Default, Clone, Copy)]
pub struct NoParams {}

/// One OAuth app.
#[derive(Debug, Default)]
pub struct OauthAppParams {
    pub app_id: String,
}

/// An OAuth app as it is registered.
#[derive(Debug, Default)]
pub struct OauthAppWriteParams {
    pub name: String,
    pub description: Option<String>,
    /// Where the app returns to. At least one.
    pub redirect_uris: Vec<String>,
    /// What the app may do. At least one.
    pub scopes: Vec<String>,
    pub allowed_node_attributes: Option<Vec<String>>,
}

/// One OAuth app, and what it is to become.
#[derive(Debug, Default)]
pub struct OauthAppUpdateParams {
    pub app_id: String,
    pub app: OauthAppWriteParams,
}

/// The body an OAuth app is registered or changed with, in the order the API
/// documents it.
#[derive(Debug)]
pub struct OauthAppBody {
    pub name: String,
    pub description: Option<String>,
    pub redirect_uris: Vec<String>,
    pub scopes: Vec<String>,
    pub allowed_node_attributes: Option<Vec<String>>,
}

/// The path of the tailnet's OAuth apps under the tailnet's own path.
pub fn oauth_apps_path() -> (r: &'static str)
    ensures
        r@ == "/oauth-apps"@,
{
    "/oauth-apps"
}

/// The path of one OAuth app under the tailnet's own path.
pub fn oauth_app_path(app_id: &str) -> (r: ToolResult<String>)
    ensures
        r is Ok <==> valid_segment(trim_seq(app_id@)),
        r matches Ok(p) ==> p@ == "/oauth-apps/"@ + trim_seq(app_id@),
        r matches Err(e) ==> e.code == ErrorCode::InvalidArgs,
{
    let id = path_segment("app_id", app_id)?;
    Ok(cat2("/oauth-apps/", id.as_str()))
}

pub open spec fn no_redirects() -> Seq<char> {
    "`redirect_uris` is empty; an OAuth app needs somewhere to return to"@
}

pub open spec fn no_scopes() -> Seq<char> {
    "`scopes` is empty; an OAuth app with no scope can do nothing"@
}

pub open spec fn attrs_ok(a: Option<Vec<String>>) -> bool {
    match a {
        Some(v) => none_blank(v.deep_view()),
        None => true,
    }
}

/// A registration that could work: somewhere to return to and something to
/// do, with no blank entry in any list.
pub open spec fn registrable(app: OauthAppWriteParams) -> bool {
    &&& none_blank(app.redirect_uris.deep_view())
    &&& app.redirect_uris@.len() > 0
    &&& none_blank(app.scopes.deep_view())
    &&& app.scopes@.len() > 0
    &&& attrs_ok(app.allowed_node_attributes)
}

impl OauthAppBody {
    /// The body for `app`, refusing a registration that could not work before
    /// it is sent: no redirect URI, no scope, or a blank entry in a list.
    pub fn build(app: OauthAppWriteParams) -> (r: ToolResult<OauthAppBody>)
        ensures
            r is Ok <==> registrable(app),
            r matches Ok(body) ==> body.name@ == app.name@ && body.description == app.description
                && body.redirect_uris.deep_view() == trimmed_all(app.redirect_uris.deep_view())
                && body.scopes.deep_view() == trimmed_all(app.scopes.deep_view()) && (match (
                body.allowed_node_attributes,
                app.allowed_node_attributes,
            ) {
                (Some(b), Some(a)) => b.deep_view() == trimmed_all(a.deep_view()),
                (None, None) => true,
                _ => false,
            }),
            none_blank(app.redirect_uris.deep_view()) && app.redirect_uris@.len() == 0 ==> (r matches Err(
                e,
            ) && e.message@ == no_redirects()),
            none_blank(app.redirect_uris.deep_view()) && app.redirect_uris@.len() > 0 && none_blank(
                app.scopes.deep_view(),
            ) && app.scopes@.len() == 0 ==> (r matches Err(e) && e.message@ == no_scopes()),
            r matches Err(e) ==> e.code == ErrorCode::InvalidArgs,
    {
        let ghost given = app;
        let OauthAppWriteParams { name, description, redirect_uris, scopes, allowed_node_attributes } = app;
        assert(redirect_uris.deep_view() == given.redirect_uris.deep_view());
        let redirect_uris = each_present("redirect_uris", redirect_uris)?;
        assert(redirect_uris.deep_view().len() == redirect_uris@.len());
        assert(given.redirect_uris.deep_view().len() == given.redirect_uris@.len());
        if redirect_uris.len() == 0 {
            return Err(ToolError::invalid_args(owned("`redirect_uris` is empty; an OAuth app needs somewhere to return to")));
        }
        let scopes = each_present("scopes", scopes)?;
        assert(scopes.deep_view().len() == scopes@.len());
        assert(given.scopes.deep_view().len() == given.scopes@.len());
        if scopes.len() == 0 {
            return Err(ToolError::invalid_args(owned("`scopes` is empty; an OAuth app with no scope can do nothing")));
        }
        let allowed_node_attributes = match allowed_node_attributes {
            Some(a) => Some(each_present("allowed_node_attributes", a)?),
            None => None,
        };
        Ok(OauthAppBody { name, description, redirect_uris, scopes, allowed_node_attributes })
    }
}

/// Every tool of this toolset, in the order a client lists them.
pub fn entries() -> (r: Vec<ToolEntry>)
    ensures
        r.len() == 5,
        forall|i: int|
            0 <= i < r.len() ==> (#[trigger] r[i]).meta.toolset == Toolset::TailnetOauthApps
                && crate::registry::row_ok(r[i]),
{
    proof {
        reveal_strlit("tailnet_");
        reveal_strlit("tailnet_oauth_app_list");
        reveal_strlit("tailnet_oauth_app_create");
        reveal_strlit("tailnet_oauth_app_get");
        reveal_strlit("tailnet_oauth_app_update");
        reveal_strlit("tailnet_oauth_app_delete");
    }
    vec![
        ToolEntry {
            meta: ToolMeta {
                name: "tailnet_oauth_app_list",
                summary: "List the OAuth apps registered on this tailnet, with their redirect URIs and scopes. Not the OAuth clients — those are `tailnet_key_list`.",
                toolset: Toolset::TailnetOauthApps,
                tier: Tier::Read,
                idempotent: true,
                requires_confirmation: false,
                self_severing: false,
                varying: false,
                since: None,
            },
        },
        ToolEntry {
            meta: ToolMeta {
                name: "tailnet_oauth_app_create",
                summary: "Register an OAuth app.

`name` is 3 to 50 characters of letters, digits, `.`, `-` and `_`. Every redirect URI must use `https`, except `localhost`, `127.0.0.1` and `::1`, which may use any scheme; a bare IP address host is refused by the control plane.",
                toolset: Toolset::TailnetOauthApps,
                tier: Tier::Write,
                idempotent: false,
                requires_confirmation: false,
                self_severing: false,
                varying: false,
                since: None,
            },
        },
        ToolEntry {
            meta: ToolMeta {
                name: "tailnet_oauth_app_get",
                summary: "Read one OAuth app.",
                toolset: Toolset::TailnetOauthApps,
                tier: Tier::Read,
                idempotent: true,
                requires_confirmation: false,
                self_severing: false,
                varying: false,
                since: None,
            },
        },
        ToolEntry {
            meta: ToolMeta {
                name: "tailnet_oauth_app_update",
                summary: "Replace an OAuth app's registration.

Every field is written, not merged: `name`, `redirect_uris` and `scopes` are required, and an omitted `description` or `allowed_node_attributes` clears what was there.",
                toolset: Toolset::TailnetOauthApps,
                tier: Tier::Write,
                idempotent: true,
                requires_confirmation: false,
                self_severing: false,
                varying: false,
                since: None,
            },
        },
        ToolEntry {
            meta: ToolMeta {
                name: "tailnet_oauth_app_delete",
                summary: "Delete an OAuth app. Anything holding an authorisation from it stops working.",
                toolset: Toolset::TailnetOauthApps,
                tier: Tier::Destructive,
                idempotent: true,
                requires_confirmation: false,
                self_severing: false,
                varying: false,
                since: None,
            },
        },
    ]
}


} // verus!
