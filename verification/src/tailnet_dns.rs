//! The tailnet's DNS settings: nameservers, MagicDNS, search paths, split DNS
//! and the whole configuration at once. Every write replaces what it names.

use vstd::prelude::*;
use crate::registry::{ToolEntry, ToolMeta};
use crate::meta::{Tier, Toolset};

use crate::error::{ErrorCode, ToolError, ToolResult};
use crate::text::{cat2, owned, trim, trim_seq};

verus! {

/// A tool that takes nothing.
#[derive(Debug, Default, Clone, Copy)]
pub struct NoParams {}

/// The whole list of nameservers. An empty list removes every one.
#[derive(Debug, Default)]
pub struct NameserversParams {
    pub dns: Vec<String>,
}

/// Whether MagicDNS is on.
#[derive(Debug, Default)]
pub struct PreferencesParams {
    pub magic_dns: bool,
}

/// The whole list of search paths. An empty list removes every one.
#[derive(Debug, Default)]
pub struct SearchPathsParams {
    pub search_paths: Vec<String>,
}

/// The path of one DNS endpoint under the tailnet's own path.
pub fn dns_path(rest: &str) -> (r: String)
    ensures
        r@ == "/dns"@ + rest@,
{
    cat2("/dns", rest)
}

pub open spec fn trimmed_all(given: Seq<Seq<char>>) -> Seq<Seq<char>> {
    given.map_values(|a: Seq<char>| trim_seq(a))
}

pub open spec fn blank_entry() -> Seq<char> {
    "`dns` has an empty entry; send `[]` to remove every nameserver"@
}

/// Addresses as they will be sent: each trimmed, with a blank one refused
/// rather than sent. An empty list is not blank: it is how every entry is
/// removed.
pub fn addresses(given: Vec<String>) -> (r: ToolResult<Vec<String>>)
    ensures
        (forall|i: int| 0 <= i < given@.len() ==> trim_seq(#[trigger] given@[i]@).len() > 0) ==> (r matches Ok(
            v,
        ) && v.deep_view() == trimmed_all(given.deep_view())),
        (exists|i: int| 0 <= i < given@.len() && trim_seq(#[trigger] given@[i]@).len() == 0) ==> (r matches Err(
            e,
        ) && e.code == ErrorCode::InvalidArgs && e.message@ == blank_entry()),
{
    let mut out: Vec<String> = Vec::new();
    let mut i: usize = 0;
    while i < given.len()
        invariant
            i <= given@.len(),
            forall|k: int| 0 <= k < i ==> trim_seq(#[trigger] given@[k]@).len() > 0,
            out.deep_view() == trimmed_all(given.deep_view()).take(i as int),
        decreases given.len() - i,
    {
        let t = trim(given[i].as_str());
        if t.as_str().unicode_len() == 0 {
            return Err(ToolError::invalid_args(owned("`dns` has an empty entry; send `[]` to remove every nameserver")));
        }
        let ghost before = out.deep_view();
        out.push(t);
        assert(out.deep_view() =~= before.push(trim_seq(given@[i as int]@)));
        assert(trimmed_all(given.deep_view()).take(i + 1) =~= trimmed_all(given.deep_view()).take(
            i as int,
        ).push(trim_seq(given@[i as int]@)));
        i = i + 1;
    }
    assert(trimmed_all(given.deep_view()).take(i as int) =~= trimmed_all(given.deep_view()));
    Ok(out)
}

pub open spec fn not_a_document() -> Seq<char> {
    "`configuration` is the DNS configuration document, an object with `nameservers`, `splitDNS`, `searchPaths` and `preferences`"@
}

/// What replacing the configuration answers when it was not given an object.
pub fn not_a_configuration() -> (r: ToolError)
    ensures
        r.code == ErrorCode::InvalidArgs,
        r.message@ == not_a_document(),
        r.hint matches Some(h) && h@
            == "Call `tailnet_dns_configuration_get` and send back what it answered."@,
{
    ToolError::invalid_args(
        owned(
            "`configuration` is the DNS configuration document, an object with `nameservers`, `splitDNS`, `searchPaths` and `preferences`",
        ),
    ).with_hint(owned("Call `tailnet_dns_configuration_get` and send back what it answered."))
}

/// Every tool of this toolset, in the order a client lists them.
pub fn entries() -> (r: Vec<ToolEntry>)
    ensures
        r.len() == 11,
        forall|i: int|
            0 <= i < r.len() ==> (#[trigger] r[i]).meta.toolset == Toolset::TailnetDns
                && crate::registry::row_ok(r[i]),
{
    proof {
        reveal_strlit("tailnet_");
        reveal_strlit("tailnet_dns_nameservers_get");
        reveal_strlit("tailnet_dns_nameservers_replace");
        reveal_strlit("tailnet_dns_preferences_get");
        reveal_strlit("tailnet_dns_preferences_set");
        reveal_strlit("tailnet_dns_search_paths_get");
        reveal_strlit("tailnet_dns_search_paths_replace");
        reveal_strlit("tailnet_dns_split_get");
        reveal_strlit("tailnet_dns_split_update");
        reveal_strlit("tailnet_dns_split_replace");
        reveal_strlit("tailnet_dns_configuration_get");
        reveal_strlit("tailnet_dns_configuration_replace");
    }
    vec![
        ToolEntry {
            meta: ToolMeta {
                name: "tailnet_dns_nameservers_get",
                summary: "Read the tailnet's global DNS nameservers. Answers `{\"dns\": [...]}`.",
                toolset: Toolset::TailnetDns,
                tier: Tier::Read,
                idempotent: true,
                requires_confirmation: false,
                self_severing: false,
                varying: false,
                since: None,
            },
        },
        ToolEntry {
            meta: ToolMeta {
                name: "tailnet_dns_nameservers_replace",
                summary: "Replace the tailnet's global nameservers with exactly this list.

A full replace: anything not in `dns` is removed. An empty list removes every global nameserver, which also turns MagicDNS off — the answer says which state MagicDNS was left in.",
                toolset: Toolset::TailnetDns,
                tier: Tier::Write,
                idempotent: true,
                requires_confirmation: false,
                self_severing: false,
                varying: false,
                since: None,
            },
        },
        ToolEntry {
            meta: ToolMeta {
                name: "tailnet_dns_preferences_get",
                summary: "Read whether MagicDNS is on for the tailnet.",
                toolset: Toolset::TailnetDns,
                tier: Tier::Read,
                idempotent: true,
                requires_confirmation: false,
                self_severing: false,
                varying: false,
                since: None,
            },
        },
        ToolEntry {
            meta: ToolMeta {
                name: "tailnet_dns_preferences_set",
                summary: "Turn MagicDNS on or off for the tailnet.

Turning it on needs at least one global nameserver; without one the control plane refuses the call.",
                toolset: Toolset::TailnetDns,
                tier: Tier::Write,
                idempotent: true,
                requires_confirmation: false,
                self_severing: false,
                varying: false,
                since: None,
            },
        },
        ToolEntry {
            meta: ToolMeta {
                name: "tailnet_dns_search_paths_get",
                summary: "Read the search domains appended to a bare hostname.",
                toolset: Toolset::TailnetDns,
                tier: Tier::Read,
                idempotent: true,
                requires_confirmation: false,
                self_severing: false,
                varying: false,
                since: None,
            },
        },
        ToolEntry {
            meta: ToolMeta {
                name: "tailnet_dns_search_paths_replace",
                summary: "Replace the search domains with exactly this list.

A full replace: a domain not in `search_paths` is removed, and an empty list removes all of them.",
                toolset: Toolset::TailnetDns,
                tier: Tier::Write,
                idempotent: true,
                requires_confirmation: false,
                self_severing: false,
                varying: false,
                since: None,
            },
        },
        ToolEntry {
            meta: ToolMeta {
                name: "tailnet_dns_split_get",
                summary: "Read the split-DNS map: which nameservers answer for which domain.",
                toolset: Toolset::TailnetDns,
                tier: Tier::Read,
                idempotent: true,
                requires_confirmation: false,
                self_severing: false,
                varying: false,
                since: None,
            },
        },
        ToolEntry {
            meta: ToolMeta {
                name: "tailnet_dns_split_update",
                summary: "Change the split-DNS entries named here and leave the rest alone.

A merge, and the only one of these that is: a domain the map does not mention keeps its nameservers. A domain mapped to `null` has its nameservers cleared.",
                toolset: Toolset::TailnetDns,
                tier: Tier::Write,
                idempotent: true,
                requires_confirmation: false,
                self_severing: false,
                varying: false,
                since: None,
            },
        },
        ToolEntry {
            meta: ToolMeta {
                name: "tailnet_dns_split_replace",
                summary: "Replace the whole split-DNS map with exactly this one.

A full replace: a domain not named here loses its nameservers, and an empty map clears every domain.",
                toolset: Toolset::TailnetDns,
                tier: Tier::Write,
                idempotent: true,
                requires_confirmation: false,
                self_severing: false,
                varying: false,
                since: None,
            },
        },
        ToolEntry {
            meta: ToolMeta {
                name: "tailnet_dns_configuration_get",
                summary: "Read the whole DNS configuration in one document: nameservers, split DNS, search paths and preferences.

The newer shape, and the one to read before a `_configuration_replace`. Its split DNS is a map of domain to resolver objects, where `tailnet_dns_split_get` gives bare addresses for the same thing.",
                toolset: Toolset::TailnetDns,
                tier: Tier::Read,
                idempotent: true,
                requires_confirmation: false,
                self_severing: false,
                varying: false,
                since: None,
            },
        },
        ToolEntry {
            meta: ToolMeta {
                name: "tailnet_dns_configuration_replace",
                summary: "Replace the whole DNS configuration.

A full replace of everything the document holds — nameservers, split DNS, search paths and preferences together. Read `tailnet_dns_configuration_get` first and send that back with the one change made, or anything omitted is cleared.",
                toolset: Toolset::TailnetDns,
                tier: Tier::Write,
                idempotent: true,
                requires_confirmation: false,
                self_severing: false,
                varying: false,
                since: None,
            },
        },
    ]
}


} // verus!
