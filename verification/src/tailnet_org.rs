//! The tailnets of an organisation: listed, created and deleted.
//!
//! A listing without a cursor follows the control plane's pages itself, up to
//! a bound, and says so when it stopped short; a listing with one is paged by
//! hand and forwarded as it came.

use vstd::prelude::*;
use crate::registry::{ToolEntry, ToolMeta};
use crate::meta::{Tier, Toolset};

use crate::common::{path_segment, valid_segment};
use crate::error::{ErrorCode, ToolError, ToolResult};
use crate::text::{cat3, decimal, decimal_text, owned, trim_seq};

verus! {

/// The largest page the control plane serves.
pub const LARGEST_PAGE: u32 = 100;

/// How many pages a listing without a cursor follows before it stops and
/// hands back the cursor for the rest.
pub const PAGES_FOLLOWED: usize = 10;

/// Which organisation's tailnets to list, and how.
#[derive(Debug, Default)]
pub struct OrganizationTailnetListParams {
    /// The organisation's id or name, or `-` for the credential's own.
    pub organization: String,
    /// Tailnets per page, from 1 to 100.
    pub limit: Option<u32>,
    /// Where a previous page left off.
    pub cursor: Option<String>,
}

/// A tailnet to create in an organisation.
#[derive(Debug, Default)]
pub struct OrganizationTailnetCreateParams {
    pub organization: String,
    pub display_name: String,
}

/// One tailnet of an organisation.
#[derive(Debug, Default)]
pub struct OrganizationTailnetParams {
    pub tailnet: String,
}

/// `/api/v2/organizations/<organisation>/tailnets`.
pub fn organization_path(organization: &str) -> (r: ToolResult<String>)
    ensures
        r is Ok <==> valid_segment(trim_seq(organization@)),
        r matches Ok(p) ==> p@ == "/api/v2/organizations/"@ + trim_seq(organization@) + "/tailnets"@,
        r matches Err(e) ==> e.code == ErrorCode::InvalidArgs,
{
    let id = path_segment("organization", organization)?;
    Ok(cat3("/api/v2/organizations/", id.as_str(), "/tailnets"))
}

pub open spec fn limit_message(limit: u32) -> Seq<char> {
    "`limit` is between 1 and 100; `"@ + decimal(limit as nat) + "` is outside that"@
}

/// The page size: the largest there is unless the caller asked for one
/// between 1 and the largest.
pub fn checked_limit(limit: Option<u32>) -> (r: ToolResult<u32>)
    ensures
        limit is None ==> (r matches Ok(v) && v == LARGEST_PAGE),
        limit is Some && 1 <= limit->0 <= LARGEST_PAGE ==> (r matches Ok(v) && v == limit->0),
        limit is Some && !(1 <= limit->0 <= LARGEST_PAGE) ==> (r matches Err(e) && e.code
            == ErrorCode::InvalidArgs && e.message@ == limit_message(limit->0)),
{
    match limit {
        None => Ok(LARGEST_PAGE),
        Some(l) => {
            if 1 <= l && l <= LARGEST_PAGE {
                Ok(l)
            } else {
                let n = decimal_text(l as u64);
                Err(ToolError::invalid_args(cat3("`limit` is between 1 and 100; `", n.as_str(), "` is outside that")))
            }
        },
    }
}

/// A listing that follows pages: how many it has fetched, where the next one
/// starts, if there is one, the tailnets of every page so far in the order
/// they came, and the last `totalCount` any page carried.
pub struct PageWalk<T> {
    pub pages: usize,
    pub cursor: Option<String>,
    pub gathered: Vec<T>,
    pub total: Option<T>,
}

/// What a followed listing answers: every tailnet gathered, the last total
/// seen, and, when the walk stopped short, the cursor to continue from with a
/// sentence saying so.
pub struct Listing<T> {
    pub tailnets: Vec<T>,
    pub total: Option<T>,
    pub more: Option<(String, String)>,
}

pub open spec fn stopped_sentence() -> Seq<char> {
    "stopped after 10 pages; call again with this `cursor` for the rest"@
}

impl<T> PageWalk<T> {
    /// Nothing fetched yet.
    pub fn new() -> (r: PageWalk<T>)
        ensures
            r.pages == 0,
            r.cursor is None,
            r.gathered@.len() == 0,
            r.total is None,
    {
        PageWalk { pages: 0, cursor: None, gathered: Vec::new(), total: None }
    }

    /// Whether to fetch another page, and with which cursor: the first page
    /// has none, each later one the cursor the last page ended with, and no
    /// page is fetched once the last one ended the listing or the bound has
    /// been reached.
    pub open spec fn wants_more(&self) -> bool {
        self.pages == 0 || (self.cursor is Some && self.pages < PAGES_FOLLOWED)
    }

    pub fn more(&self) -> (r: bool)
        ensures
            r == self.wants_more(),
    {
        self.pages == 0 || (self.cursor.is_some() && self.pages < PAGES_FOLLOWED)
    }

    /// Record a page that came back: its `tailnets` list, when it had one,
    /// the cursor it ended with, and its `totalCount`, when it had one. The
    /// total is kept whatever the page held; a page with no list ends the walk
    /// with an error, because an organisation read as empty would be a wrong
    /// answer. An empty cursor ends the listing as an absent one does.
    pub fn record(&mut self, page: Option<Vec<T>>, next: Option<String>, total: Option<T>) -> (r:
        ToolResult<()>)
        requires
            old(self).wants_more(),
        ensures
            final(self).total == (match total {
                Some(t) => Some(t),
                None => old(self).total,
            }),
            page is None ==> (r matches Err(e) && e.code == ErrorCode::ApiError && e.message@
                == no_tailnets()),
            page is None ==> final(self).pages == old(self).pages && final(self).cursor
                == old(self).cursor && final(self).gathered@ == old(self).gathered@,
            page is Some ==> r is Ok,
            page matches Some(v) ==> final(self).gathered@ == old(self).gathered@ + v@,
            page is Some ==> final(self).pages == old(self).pages + 1,
            page is Some ==> final(self).cursor == (match next {
                Some(c) => if c@.len() > 0 { Some(c) } else { None::<String> },
                None => None::<String>,
            }),
            final(self).pages <= PAGES_FOLLOWED,
    {
        if let Some(t) = total {
            self.total = Some(t);
        }
        let mut tailnets = match page {
            Some(v) => v,
            None => return Err(no_page()),
        };
        self.gathered.append(&mut tailnets);
        self.pages = self.pages + 1;
        self.cursor = match next {
            Some(c) => if c.as_str().unicode_len() > 0 {
                Some(c)
            } else {
                None
            },
            None => None,
        };
        Ok(())
    }

    /// What the answer says when the walk stopped short: the cursor to
    /// continue from, and a sentence saying that it did.
    pub fn stopped_short(&self) -> (r: Option<(String, String)>)
        ensures
            self.cursor is None ==> r is None,
            self.cursor matches Some(c) ==> (r matches Some((cur, more)) && cur@ == c@ && more@
                == stopped_sentence()),
    {
        match &self.cursor {
            Some(c) => Some(
                (
                    owned(c.as_str()),
                    owned("stopped after 10 pages; call again with this `cursor` for the rest"),
                ),
            ),
            None => None,
        }
    }

    /// The answer of a walk that has ended.
    pub fn finish(self) -> (r: Listing<T>)
        ensures
            r.tailnets@ == self.gathered@,
            r.total == self.total,
            self.cursor is None ==> r.more is None,
            self.cursor matches Some(c) ==> (r.more matches Some((cur, more)) && cur@ == c@
                && more@ == stopped_sentence()),
    {
        let more = self.stopped_short();
        Listing { tailnets: self.gathered, total: self.total, more }
    }
}

/// A walk that follows pages fetches at most the bound, however long the
/// listing is.
pub proof fn walk_is_bounded<T>(w: PageWalk<T>)
    requires
        w.pages <= PAGES_FOLLOWED,
    ensures
        w.pages == PAGES_FOLLOWED ==> !w.wants_more(),
        w.wants_more() ==> w.pages < PAGES_FOLLOWED,
{
}

pub open spec fn no_tailnets() -> Seq<char> {
    "the control plane answered a listing with no `tailnets` list, so there is nothing to follow"@
}

/// What a followed listing answers when a page had no `tailnets` list.
pub fn no_page() -> (r: ToolError)
    ensures
        r.code == ErrorCode::ApiError,
        r.message@ == no_tailnets(),
        r.hint matches Some(h) && h@
            == "Call again with a `cursor` to take the answer one page at a time."@,
{
    ToolError::new(
        ErrorCode::ApiError,
        owned("the control plane answered a listing with no `tailnets` list, so there is nothing to follow"),
    ).with_hint(owned("Call again with a `cursor` to take the answer one page at a time."))
}

/// Every tool of this toolset, in the order a client lists them.
pub fn entries() -> (r: Vec<ToolEntry>)
    ensures
        r.len() == 3,
        forall|i: int|
            0 <= i < r.len() ==> (#[trigger] r[i]).meta.toolset == Toolset::TailnetOrg
                && crate::registry::row_ok(r[i]),
{
    proof {
        reveal_strlit("tailnet_");
        reveal_strlit("tailnet_organization_tailnet_list");
        reveal_strlit("tailnet_organization_tailnet_create");
        reveal_strlit("tailnet_organization_tailnet_delete");
    }
    vec![
        ToolEntry {
            meta: ToolMeta {
                name: "tailnet_organization_tailnet_list",
                summary: "List every tailnet in an organisation, including the original one and any created through the tailnet-creation API.

Alpha upstream. This is the one paginated endpoint on this surface: by default it follows the cursor and answers with every tailnet. Pass `cursor` to take one page at a time instead, using the `cursor` the previous answer carried.",
                toolset: Toolset::TailnetOrg,
                tier: Tier::Read,
                idempotent: true,
                requires_confirmation: false,
                self_severing: false,
                varying: false,
                since: None,
            },
        },
        ToolEntry {
            meta: ToolMeta {
                name: "tailnet_organization_tailnet_create",
                summary: "Create a tailnet in an organisation.

Alpha upstream. The answer carries OAuth client credentials for the new tailnet; they are shown once and cannot be read back, so keep them from this answer or the tailnet is unreachable except through the admin console.",
                toolset: Toolset::TailnetOrg,
                tier: Tier::Write,
                idempotent: false,
                requires_confirmation: false,
                self_severing: false,
                varying: false,
                since: None,
            },
        },
        ToolEntry {
            meta: ToolMeta {
                name: "tailnet_organization_tailnet_delete",
                summary: "Delete a tailnet, with all of its users, devices and configuration.

Alpha upstream. Irreversible, and irreversible for everyone in that tailnet rather than only for this caller — which is why it needs an explicit `confirm: true` as well as the destructive tier. Requires an access token for the tailnet being deleted, or an OAuth client with the `all` scope from the tailnet that created it.",
                toolset: Toolset::TailnetOrg,
                tier: Tier::Destructive,
                idempotent: false,
                requires_confirmation: true,
                self_severing: false,
                varying: false,
                since: None,
            },
        },
    ]
}


} // verus!
