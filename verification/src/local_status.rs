//! The status toolset's own report on the client version.

use vstd::prelude::*;
use crate::registry::{ToolEntry, ToolMeta};
use crate::meta::{Tier, Toolset};

use crate::version::{Version, first_version, version_lt, version_text};

verus! {

/// A tool that takes nothing.
#[derive(Debug, Default)]
pub struct NoParams {}

/// What `tailscale_version` returns.
#[derive(Debug)]
pub struct VersionReport {
    /// The release the binary reports, when it could be read.
    pub version: Option<String>,
    /// Everything the binary printed, which also carries the commit and the Go
    /// toolchain.
    pub raw: String,
    /// The oldest release this server is written against.
    pub supported_floor: String,
    /// Whether the binary is at or above that floor. An unstable build counts
    /// as newer than the stable release above it.
    pub meets_floor: bool,
}

/// Whether the stable release that follows `v`, `major.(minor+1).0`, is at
/// least `floor`.
pub open spec fn next_stable_meets(v: Version, floor: Version) -> bool {
    ||| v.major > floor.major
    ||| (v.major == floor.major && v.minor + 1 > floor.minor)
    ||| (v.major == floor.major && v.minor + 1 == floor.minor && floor.patch == 0)
}

/// Whether a build meets the floor. An unstable build, an odd minor number,
/// counts as newer than the stable release above it, so it meets the floor
/// when that release does.
pub open spec fn meets(v: Version, floor: Version) -> bool {
    !version_lt(v, floor) || (v.minor % 2 == 1 && next_stable_meets(v, floor))
}

fn meets_floor(v: &Version, floor: &Version) -> (r: bool)
    ensures
        r == meets(*v, *floor),
{
    if !v.older_than(floor) {
        return true;
    }
    if !v.is_unstable() {
        return false;
    }
    let next: u64 = v.minor as u64 + 1;
    v.major > floor.major || (v.major == floor.major && next > floor.minor as u64) || (v.major
        == floor.major && next == floor.minor as u64 && floor.patch == 0)
}

/// The report on what `tailscale version` printed. A version that cannot be
/// read meets the floor: the commands themselves say what they need.
pub fn version(raw: &str) -> (r: VersionReport)
    ensures
        ({
            let found = first_version(crate::text::lines_seq(raw@));
            let floor = Version { major: 1, minor: 78, patch: 0 };
            &&& r.version.is_none() == found.is_none()
            &&& (r.version matches Some(v) ==> v@ == version_text(found->0))
            &&& r.raw@ == crate::text::trim_end_seq(raw@)
            &&& r.supported_floor@ == version_text(floor)
            &&& r.meets_floor == (found matches Some(v) ==> meets(v, floor))
        }),
{
    let found = Version::parse_cli_output(raw);
    let floor = crate::version::supported_floor();
    let (text, meets_floor) = match found {
        Some(v) => {
            let m = meets_floor(&v, &floor);
            (Some(v.to_text()), m)
        },
        None => (None, true),
    };
    VersionReport {
        version: text,
        raw: crate::text::trim_end(raw),
        supported_floor: floor.to_text(),
        meets_floor,
    }
}

/// The names of this toolset's tools, in the order of its table.
pub open spec fn tool_names() -> Seq<Seq<char>> {
    seq![
        "tailscale_version"@,
    ]
}

/// Every tool of this toolset, in the order a client lists them.
pub fn entries() -> (r: Vec<ToolEntry>)
    ensures
        forall|i: int| 0 <= i < r.len() ==> (#[trigger] r[i]).meta.name@ == tool_names()[i],
        r.len() == 1,
        forall|i: int|
            0 <= i < r.len() ==> (#[trigger] r[i]).meta.toolset == Toolset::LocalStatus
                && crate::registry::row_ok(r[i]),
{
    proof {
        reveal_strlit("tailscale_");
        reveal_strlit("tailscale_version");
    }
    vec![
        ToolEntry {
            meta: ToolMeta {
                name: "tailscale_version",
                summary: "Report the version of the `tailscale` binary this server drives, and whether it is new enough for everything this server models.",
                toolset: Toolset::LocalStatus,
                tier: Tier::Read,
                idempotent: true,
                requires_confirmation: false,
                self_severing: false,
                varying: false,
                since: None,
            },
        },
    ]
}


} // verus!
