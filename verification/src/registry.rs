//! The rows the server is built from: one per tool, saying what it is called,
//! what it does, which toolset it is in and how much it may change.

use vstd::prelude::*;
use crate::meta::{Surface, Tier, Toolset};
use crate::text::{same, starts_with};

verus! {

/// Everything the server knows about a tool before it runs it.
#[derive(Debug, Clone, Copy)]
pub struct ToolMeta {
    pub name: &'static str,
    /// What the caller reads when choosing a tool.
    pub summary: &'static str,
    pub toolset: Toolset,
    pub tier: Tier,
    /// Calling it twice with the same arguments leaves things as once would.
    pub idempotent: bool,
    /// The call is refused unless it carries `confirm: true`.
    pub requires_confirmation: bool,
    /// The call can cut this server off from the node or tailnet it drives.
    pub self_severing: bool,
    /// What the call changes depends on its arguments, so its tier is decided
    /// per call rather than per tool.
    pub varying: bool,
    /// The oldest client release the tool works with, where it needs one.
    pub since: Option<&'static str>,
}

impl ToolMeta {
    /// A tool that asks for a confirmation changes something, and one that
    /// can cut the server off always asks.
    pub open spec fn consistent(self) -> bool {
        &&& self.requires_confirmation ==> self.tier != Tier::Read
        &&& self.self_severing ==> self.requires_confirmation
    }

    /// The side of the server the tool drives, from its toolset.
    pub fn surface(&self) -> (r: Surface)
        ensures
            r == self.toolset.spec_surface(),
    {
        self.toolset.surface()
    }
}

/// One row of the tool table.
#[derive(Debug, Clone, Copy)]
pub struct ToolEntry {
    pub meta: ToolMeta,
}

/// Why a tool table cannot be served. Each variant names the offending row by
/// its position.
#[derive(Debug, Clone, Copy, PartialEq, Eq, Structural)]
pub enum TableFault {
    /// The name does not begin with its surface's prefix.
    WrongPrefix(usize),
    /// The row asks for a confirmation or severs without being consistent.
    Inconsistent(usize),
    /// The second row repeats the first one's name.
    Duplicate(usize, usize),
}

/// A row is fit to serve on its own.
pub open spec fn row_ok(e: ToolEntry) -> bool {
    &&& e.meta.toolset.spec_surface().spec_prefix().is_prefix_of(e.meta.name@)
    &&& e.meta.consistent()
}

/// No two rows share a name.
pub open spec fn names_distinct(es: Seq<ToolEntry>) -> bool {
    forall|i: int, j: int| 0 <= i < j < es.len() ==> es[i].meta.name@ != es[j].meta.name@
}

pub open spec fn table_ok(es: Seq<ToolEntry>) -> bool {
    &&& forall|i: int| 0 <= i < es.len() ==> row_ok(#[trigger] es[i])
    &&& names_distinct(es)
}

/// A tool table that has been checked.
pub struct Registry {
    entries: Vec<ToolEntry>,
}

impl Registry {
    pub closed spec fn rows(&self) -> Seq<ToolEntry> {
        self.entries@
    }

    /// Checks the table and keeps it: every name carries its surface's prefix,
    /// every row's confirmation agrees with its tier, and no name is used
    /// twice.
    pub fn new(entries: Vec<ToolEntry>) -> (r: Result<Registry, TableFault>)
        ensures
            r is Ok <==> table_ok(entries@),
            r matches Ok(reg) ==> reg.rows() == entries@,
            r matches Err(TableFault::WrongPrefix(i)) ==> i < entries@.len()
                && !entries@[i as int].meta.toolset.spec_surface().spec_prefix().is_prefix_of(
                entries@[i as int].meta.name@),
            r matches Err(TableFault::Inconsistent(i)) ==> i < entries@.len()
                && !entries@[i as int].meta.consistent(),
            r matches Err(TableFault::Duplicate(i, j)) ==> i < j < entries@.len()
                && entries@[i as int].meta.name@ == entries@[j as int].meta.name@,
    {
        let n = entries.len();
        let mut i: usize = 0;
        while i < n
            invariant
                n == entries@.len(),
                i <= n,
                forall|k: int| 0 <= k < i ==> row_ok(#[trigger] entries@[k]),
            decreases n - i,
        {
            let meta = entries[i].meta;
            let surface = meta.surface();
            if !starts_with(meta.name, surface.prefix()) {
                return Err(TableFault::WrongPrefix(i));
            }
            let confirm_ok = !meta.requires_confirmation || meta.tier.level() != 0;
            if !confirm_ok || (meta.self_severing && !meta.requires_confirmation) {
                return Err(TableFault::Inconsistent(i));
            }
            i = i + 1;
        }
        let mut a: usize = 0;
        while a < n
            invariant
                n == entries@.len(),
                a <= n,
                forall|k: int| 0 <= k < n ==> row_ok(#[trigger] entries@[k]),
                forall|x: int, y: int|
                    0 <= x < a && x < y < n ==> entries@[x].meta.name@ != entries@[y].meta.name@,
            decreases n - a,
        {
            let mut b: usize = a + 1;
            while b < n
                invariant
                    n == entries@.len(),
                    a < n,
                    a + 1 <= b <= n,
                    forall|k: int| 0 <= k < n ==> row_ok(#[trigger] entries@[k]),
                    forall|x: int, y: int|
                        0 <= x < a && x < y < n ==> entries@[x].meta.name@ != entries@[y].meta.name@,
                    forall|y: int| a < y < b ==> entries@[a as int].meta.name@ != entries@[y].meta.name@,
                decreases n - b,
            {
                if same(entries[a].meta.name, entries[b].meta.name) {
                    return Err(TableFault::Duplicate(a, b));
                }
                b = b + 1;
            }
            a = a + 1;
        }
        Ok(Registry { entries })
    }

    /// The row of the tool called `name`, if the table has one.
    pub fn find(&self, name: &str) -> (r: Option<ToolMeta>)
        ensures
            r matches Some(m) ==> m.name@ == name@ && exists|i: int|
                0 <= i < self.rows().len() && self.rows()[i].meta == m,
            r is None ==> forall|i: int|
                0 <= i < self.rows().len() ==> (#[trigger] self.rows()[i]).meta.name@ != name@,
    {
        let mut i: usize = 0;
        while i < self.entries.len()
            invariant
                i <= self.entries@.len(),
                forall|k: int| 0 <= k < i ==> (#[trigger] self.entries@[k]).meta.name@ != name@,
            decreases self.entries.len() - i,
        {
            if same(self.entries[i].meta.name, name) {
                return Some(self.entries[i].meta);
            }
            i = i + 1;
        }
        None
    }

    /// How many tools the table holds.
    pub fn len(&self) -> (r: usize)
        ensures
            r == self.rows().len(),
    {
        self.entries.len()
    }
}

/// A tool is offered to a session whose highest tier is at least its own; a
/// tool above it is not listed at all, rather than refused when called.
pub fn offered(meta: &ToolMeta, max_tier: Tier) -> (r: bool)
    ensures
        r == (meta.tier.rank() <= max_tier.rank()),
{
    meta.tier.level() <= max_tier.level()
}

/// A tool whose row asks for a confirmation runs only on a call that carried
/// `confirm: true`.
pub fn confirmation(meta: &ToolMeta, confirmed: bool) -> (r: crate::error::ToolResult<()>)
    ensures
        r is Ok <==> (!meta.requires_confirmation || confirmed),
        r matches Err(e) ==> e.code == crate::error::ErrorCode::ConfirmationRequired && e.message@
            == "`"@ + meta.name@ + "` "@ + "cannot simply be undone"@
            + ", and this call did not confirm it"@,
{
    if meta.requires_confirmation && !confirmed {
        return Err(crate::error::ToolError::confirmation_required(meta.name, "cannot simply be undone"));
    }
    Ok(())
}

/// What a session is offered follows its tier alone: a reading tool is
/// offered to every session, every tool to a session that allows the
/// destructive tier, and a destructive tool to no other.
pub proof fn what_a_session_is_offered(meta: ToolMeta, max_tier: Tier)
    ensures
        meta.tier == Tier::Read ==> meta.tier.rank() <= max_tier.rank(),
        max_tier == Tier::Destructive ==> meta.tier.rank() <= max_tier.rank(),
        meta.tier == Tier::Destructive && max_tier != Tier::Destructive ==> meta.tier.rank()
            > max_tier.rank(),
{
}

/// A row fit to serve that can cut the server off never runs unconfirmed, and
/// a reading row never asks.
pub proof fn severing_tools_always_ask(e: ToolEntry)
    requires
        row_ok(e),
    ensures
        e.meta.self_severing ==> e.meta.requires_confirmation,
        e.meta.tier == Tier::Read ==> !e.meta.requires_confirmation,
{
}

} // verus!
