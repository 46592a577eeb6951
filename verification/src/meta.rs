//! What the server knows about each tool before it runs one: how much a call
//! may change, and which toolset it belongs to.

use vstd::prelude::*;

verus! {

/// How much a tool may change, lowest first. A session is started with a
/// highest tier, and nothing above it runs.
#[derive(Debug, Clone, Copy, PartialEq, Eq, Structural, PartialOrd, Ord)]
pub enum Tier {
    Read,
    Write,
    Destructive,
}

impl Tier {
    pub open spec fn rank(self) -> nat {
        match self {
            Tier::Read => 0,
            Tier::Write => 1,
            Tier::Destructive => 2,
        }
    }

    pub fn level(&self) -> (r: u8)
        ensures
            r == self.rank(),
    {
        match self {
            Tier::Read => 0,
            Tier::Write => 1,
            Tier::Destructive => 2,
        }
    }

    pub open spec fn spec_name(self) -> Seq<char> {
        match self {
            Tier::Read => "read"@,
            Tier::Write => "write"@,
            Tier::Destructive => "destructive"@,
        }
    }

    /// The tier as a report writes it.
    pub fn as_str(&self) -> (r: &'static str)
        ensures
            r@ == self.spec_name(),
    {
        match self {
            Tier::Read => "read",
            Tier::Write => "write",
            Tier::Destructive => "destructive",
        }
    }

    pub open spec fn spec_flag(self) -> Option<Seq<char>> {
        match self {
            Tier::Read => None,
            Tier::Write => Some("--allow-write"@),
            Tier::Destructive => Some("--allow-destructive"@),
        }
    }

    /// The server switch that lets a session reach this tier. Reading needs
    /// none.
    pub fn flag(&self) -> (r: Option<&'static str>)
        ensures
            r.is_none() == self.spec_flag().is_none(),
            r matches Some(f) ==> self.spec_flag() == Some(f@),
    {
        match self {
            Tier::Read => None,
            Tier::Write => Some("--allow-write"),
            Tier::Destructive => Some("--allow-destructive"),
        }
    }
}

/// Which side of the server a tool drives: this node through its client, or
/// the tailnet through the control plane.
#[derive(Debug, Clone, Copy, PartialEq, Eq, Structural)]
pub enum Surface {
    Local,
    Tailnet,
}

impl Surface {
    pub open spec fn spec_prefix(self) -> Seq<char> {
        match self {
            Surface::Local => "tailscale_"@,
            Surface::Tailnet => "tailnet_"@,
        }
    }

    /// What every tool name on this surface begins with.
    pub fn prefix(&self) -> (r: &'static str)
        ensures
            r@ == self.spec_prefix(),
    {
        match self {
            Surface::Local => "tailscale_",
            Surface::Tailnet => "tailnet_",
        }
    }
}

/// A group of tools a session switches on together.
#[derive(Debug, Clone, Copy, PartialEq, Eq, Structural)]
pub enum Toolset {
    LocalStatus,
    LocalPrefs,
    LocalServe,
    LocalFiles,
    LocalLock,
    LocalDebug,
    LocalPassthrough,
    TailnetDevices,
    TailnetDns,
    TailnetInvites,
    TailnetKeys,
    TailnetLogging,
    TailnetOauthApps,
    TailnetOrg,
    TailnetPolicy,
    TailnetPosture,
    TailnetServices,
    TailnetSettings,
    TailnetUsers,
    TailnetWebhooks,
}

impl Toolset {
    pub open spec fn spec_surface(self) -> Surface {
        match self {
            Toolset::LocalStatus | Toolset::LocalPrefs | Toolset::LocalServe
            | Toolset::LocalFiles | Toolset::LocalLock | Toolset::LocalDebug
            | Toolset::LocalPassthrough => Surface::Local,
            _ => Surface::Tailnet,
        }
    }

    pub fn surface(&self) -> (r: Surface)
        ensures
            r == self.spec_surface(),
    {
        match self {
            Toolset::LocalStatus | Toolset::LocalPrefs | Toolset::LocalServe
            | Toolset::LocalFiles | Toolset::LocalLock | Toolset::LocalDebug
            | Toolset::LocalPassthrough => Surface::Local,
            _ => Surface::Tailnet,
        }
    }
}

} // verus!
