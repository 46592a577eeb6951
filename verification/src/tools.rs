//! The tool table: every toolset a default build offers, in the order a
//! client lists them.

use vstd::prelude::*;
use crate::meta::Toolset;
use crate::registry::{names_distinct, ToolEntry};

verus! {

/// The toolset a row of the whole table belongs to: the local status tool,
/// then the preference, serve and file toolsets in that order.
pub open spec fn toolset_at(i: int) -> Toolset {
    if i < 1 {
        Toolset::LocalStatus
    } else if i < 9 {
        Toolset::LocalPrefs
    } else if i < 19 {
        Toolset::LocalServe
    } else {
        Toolset::LocalFiles
    }
}

/// The names of the whole table, in its order.
pub open spec fn all_names() -> Seq<Seq<char>> {
    crate::local_status::tool_names() + crate::local_prefs::tool_names()
        + crate::local_serve::tool_names() + crate::local_files::tool_names()
}

/// No two of the table's names are the same.
proof fn lemma_all_names_distinct()
    ensures
        all_names().len() == 30,
        forall|i: int, j: int| 0 <= i < j < 30 ==> all_names()[i] != all_names()[j],
{
    assert forall|i: int, j: int| 0 <= i < j < 30 implies all_names()[i] != all_names()[j] by {
        reveal_strlit("tailscale_version");
        reveal_strlit("tailscale_prefs_get");
        reveal_strlit("tailscale_prefs_set");
        reveal_strlit("tailscale_up");
        reveal_strlit("tailscale_down");
        reveal_strlit("tailscale_login");
        reveal_strlit("tailscale_logout");
        reveal_strlit("tailscale_switch_profile");
        reveal_strlit("tailscale_switch_remove");
        reveal_strlit("tailscale_serve_set");
        reveal_strlit("tailscale_serve_off");
        reveal_strlit("tailscale_serve_reset");
        reveal_strlit("tailscale_serve_drain");
        reveal_strlit("tailscale_serve_clear");
        reveal_strlit("tailscale_serve_advertise");
        reveal_strlit("tailscale_serve_get_config");
        reveal_strlit("tailscale_serve_set_config");
        reveal_strlit("tailscale_funnel_set");
        reveal_strlit("tailscale_funnel_off");
        reveal_strlit("tailscale_file_cp");
        reveal_strlit("tailscale_file_targets");
        reveal_strlit("tailscale_file_get");
        reveal_strlit("tailscale_cert");
        reveal_strlit("tailscale_metrics_write");
        reveal_strlit("tailscale_configure_kubeconfig");
        reveal_strlit("tailscale_syspolicy_reload");
        reveal_strlit("tailscale_drive_list");
        reveal_strlit("tailscale_drive_share");
        reveal_strlit("tailscale_drive_rename");
        reveal_strlit("tailscale_drive_unshare");
        assert(i == 0 || i == 1 || i == 2 || i == 3 || i == 4 || i == 5 || i == 6 || i == 7 || i == 8 || i == 9 || i == 10 || i == 11 || i == 12 || i == 13 || i == 14 || i == 15 || i == 16 || i == 17 || i == 18 || i == 19 || i == 20 || i == 21 || i == 22 || i == 23 || i == 24 || i == 25 || i == 26 || i == 27 || i == 28 || i == 29);
        assert(j == 0 || j == 1 || j == 2 || j == 3 || j == 4 || j == 5 || j == 6 || j == 7 || j == 8 || j == 9 || j == 10 || j == 11 || j == 12 || j == 13 || j == 14 || j == 15 || j == 16 || j == 17 || j == 18 || j == 19 || j == 20 || j == 21 || j == 22 || j == 23 || j == 24 || j == 25 || j == 26 || j == 27 || j == 28 || j == 29);
        let a = all_names()[i];
        let b = all_names()[j];
        if a == b {
            assert(a.len() == b.len());
            assert(a[a.len() - 1] == b[b.len() - 1]);
            assert(a[a.len() - 2] == b[b.len() - 2]);
            assert(a[a.len() - 3] == b[b.len() - 3]);
            assert(a[a.len() - 4] == b[b.len() - 4]);
            assert(a[a.len() - 5] == b[b.len() - 5]);
            assert(a[a.len() - 6] == b[b.len() - 6]);
            assert(a[a.len() - 7] == b[b.len() - 7]);
            assert(a[a.len() - 8] == b[b.len() - 8]);
            assert(a[a.len() - 9] == b[b.len() - 9]);
            assert(a[a.len() - 10] == b[b.len() - 10]);
        }
    }
}

/// Every tool this server can offer, before any gating.
pub fn entries() -> (r: Vec<ToolEntry>)
    ensures
        r.len() == 30,
        names_distinct(r@),
        forall|i: int| 0 <= i < r.len() ==> (#[trigger] r[i]).meta.name@ == all_names()[i],
        forall|i: int|
            0 <= i < r.len() ==> (#[trigger] r[i]).meta.toolset == toolset_at(i)
                && crate::registry::row_ok(r[i]),
{
    let mut all = crate::local_status::entries();
    let mut prefs = crate::local_prefs::entries();
    let mut serve = crate::local_serve::entries();
    let mut files = crate::local_files::entries();
    all.append(&mut prefs);
    all.append(&mut serve);
    all.append(&mut files);
    proof {
        lemma_all_names_distinct();
        assert forall|i: int| 0 <= i < all.len() implies (#[trigger] all[i]).meta.name@ == all_names()[i] by {
            if i < 1 {
            } else if i < 9 {
            } else if i < 19 {
            } else {
            }
        }
    }
    all
}

} // verus!
