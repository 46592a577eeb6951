//! The passthrough: any `tailscale` subcommand no typed tool covers, judged
//! before it runs.
//!
//! A command a typed tool covers runs on that tool's terms, a command nobody
//! has judged counts as destructive, and a command this server never runs is
//! refused with the reason why.

use vstd::prelude::*;
use crate::registry::{ToolEntry, ToolMeta};

use crate::common::Excluded;
use crate::error::{ErrorCode, ToolError, ToolResult};
use crate::meta::{Tier, Toolset};
use crate::text::{
    cat3, cat4, chars_of, join, join_seq, lower_seq, lower_text, same, split_seq, trim, trim_seq,
};

verus! {

/// The deepest command path either table names, and so the most words worth
/// matching.
pub const MAX_DEPTH: usize = 3;

/// How long a passthrough command may run, and the bound when the caller
/// names none.
pub const DEFAULT_RUN_TIMEOUT: u64 = 30;
pub const MAX_RUN_TIMEOUT: u64 = 300;

/// A command a typed tool already runs, and the terms it runs on there.
#[derive(Debug, Clone, Copy, PartialEq, Eq)]
pub struct Covered {
    /// The command as it is written after `tailscale`, words separated by
    /// spaces.
    pub path: &'static str,
    /// The tier of the typed tool that runs it; where two tools share a path,
    /// the higher of them.
    pub tier: Tier,
    /// Whether that tool requires a confirmation, for the same reason.
    pub confirm: bool,
}

/// Every command a typed tool covers, with the terms that tool runs it on.
pub open spec fn covered_rows() -> Seq<Covered> {
    seq![
        Covered { path: "up", tier: Tier::Destructive, confirm: true },
        Covered { path: "down", tier: Tier::Destructive, confirm: true },
        Covered { path: "set", tier: Tier::Write, confirm: false },
        Covered { path: "get", tier: Tier::Read, confirm: false },
        Covered { path: "login", tier: Tier::Write, confirm: true },
        Covered { path: "logout", tier: Tier::Destructive, confirm: true },
        Covered { path: "switch", tier: Tier::Write, confirm: true },
        Covered { path: "switch remove", tier: Tier::Destructive, confirm: true },
        Covered { path: "status", tier: Tier::Read, confirm: false },
        Covered { path: "ip", tier: Tier::Read, confirm: false },
        Covered { path: "netcheck", tier: Tier::Read, confirm: false },
        Covered { path: "ping", tier: Tier::Read, confirm: false },
        Covered { path: "whois", tier: Tier::Read, confirm: false },
        Covered { path: "whoami", tier: Tier::Read, confirm: false },
        Covered { path: "version", tier: Tier::Read, confirm: false },
        Covered { path: "licenses", tier: Tier::Read, confirm: false },
        Covered { path: "bugreport", tier: Tier::Read, confirm: false },
        Covered { path: "appc-routes", tier: Tier::Read, confirm: false },
        Covered { path: "routecheck", tier: Tier::Read, confirm: false },
        Covered { path: "wait", tier: Tier::Read, confirm: false },
        Covered { path: "dns status", tier: Tier::Read, confirm: false },
        Covered { path: "dns query", tier: Tier::Read, confirm: false },
        Covered { path: "exit-node list", tier: Tier::Read, confirm: false },
        Covered { path: "exit-node suggest", tier: Tier::Read, confirm: false },
        Covered { path: "metrics print", tier: Tier::Read, confirm: false },
        Covered { path: "service list", tier: Tier::Read, confirm: false },
        Covered { path: "syspolicy list", tier: Tier::Read, confirm: false },
        Covered { path: "configure sysext status", tier: Tier::Read, confirm: false },
        Covered { path: "serve", tier: Tier::Write, confirm: false },
        Covered { path: "serve status", tier: Tier::Read, confirm: false },
        Covered { path: "serve reset", tier: Tier::Destructive, confirm: true },
        Covered { path: "serve drain", tier: Tier::Write, confirm: false },
        Covered { path: "serve clear", tier: Tier::Destructive, confirm: true },
        Covered { path: "serve advertise", tier: Tier::Write, confirm: false },
        Covered { path: "serve get-config", tier: Tier::Read, confirm: false },
        Covered { path: "serve set-config", tier: Tier::Write, confirm: false },
        Covered { path: "funnel", tier: Tier::Destructive, confirm: true },
        Covered { path: "funnel status", tier: Tier::Read, confirm: false },
        Covered { path: "file cp", tier: Tier::Write, confirm: false },
        Covered { path: "file get", tier: Tier::Write, confirm: false },
        Covered { path: "cert", tier: Tier::Write, confirm: false },
        Covered { path: "metrics write", tier: Tier::Write, confirm: false },
        Covered { path: "configure kubeconfig", tier: Tier::Write, confirm: false },
        Covered { path: "syspolicy reload", tier: Tier::Write, confirm: false },
        Covered { path: "drive list", tier: Tier::Read, confirm: false },
        Covered { path: "drive share", tier: Tier::Write, confirm: false },
        Covered { path: "drive rename", tier: Tier::Write, confirm: false },
        Covered { path: "drive unshare", tier: Tier::Destructive, confirm: false },
        Covered { path: "lock status", tier: Tier::Read, confirm: false },
        Covered { path: "lock log", tier: Tier::Read, confirm: false },
        Covered { path: "lock init", tier: Tier::Destructive, confirm: true },
        Covered { path: "lock add", tier: Tier::Write, confirm: false },
        Covered { path: "lock remove", tier: Tier::Destructive, confirm: false },
        Covered { path: "lock sign", tier: Tier::Write, confirm: false },
        Covered { path: "lock disable", tier: Tier::Destructive, confirm: true },
        Covered { path: "lock disablement-kdf", tier: Tier::Read, confirm: false },
        Covered { path: "lock local-disable", tier: Tier::Destructive, confirm: false },
        Covered { path: "lock revoke-keys", tier: Tier::Destructive, confirm: true },
        Covered { path: "debug derp-map", tier: Tier::Read, confirm: false },
        Covered { path: "debug netmap", tier: Tier::Read, confirm: false },
        Covered { path: "debug hostinfo", tier: Tier::Read, confirm: false },
        Covered { path: "debug control-knobs", tier: Tier::Read, confirm: false },
        Covered { path: "debug daemon-goroutines", tier: Tier::Read, confirm: false },
        Covered { path: "debug daemon-bus-graph", tier: Tier::Read, confirm: false },
        Covered { path: "debug daemon-bus-queues", tier: Tier::Read, confirm: false },
        Covered { path: "debug metrics", tier: Tier::Read, confirm: false },
        Covered { path: "debug statedir", tier: Tier::Read, confirm: false },
        Covered { path: "debug go-buildinfo", tier: Tier::Read, confirm: false },
        Covered { path: "debug peer-relay-servers", tier: Tier::Read, confirm: false },
        Covered { path: "debug peer-relay-sessions", tier: Tier::Read, confirm: false },
        Covered { path: "debug stat", tier: Tier::Read, confirm: false },
        Covered { path: "debug via", tier: Tier::Read, confirm: false },
        Covered { path: "debug watch-ipn", tier: Tier::Read, confirm: false },
        Covered { path: "debug peer-endpoint-changes", tier: Tier::Read, confirm: false },
        Covered { path: "debug resolve", tier: Tier::Read, confirm: false },
        Covered { path: "debug dial-types", tier: Tier::Read, confirm: false },
        Covered { path: "debug derp", tier: Tier::Read, confirm: false },
        Covered { path: "debug ts2021", tier: Tier::Read, confirm: false },
        Covered { path: "debug portmap", tier: Tier::Read, confirm: false },
        Covered { path: "debug component-logs", tier: Tier::Write, confirm: false },
        Covered { path: "debug restun", tier: Tier::Write, confirm: false },
        Covered { path: "debug rebind", tier: Tier::Write, confirm: false },
        Covered { path: "debug rotate-disco-key", tier: Tier::Write, confirm: false },
        Covered { path: "debug derp-unset-on-demand", tier: Tier::Write, confirm: false },
        Covered { path: "debug pick-new-derp", tier: Tier::Write, confirm: false },
        Covered { path: "debug force-prefer-derp", tier: Tier::Write, confirm: false },
        Covered { path: "debug force-netmap-update", tier: Tier::Write, confirm: false },
    ]
}

pub fn covered() -> (r: Vec<Covered>)
    ensures
        r@ == covered_rows(),
{
    let rows = vec![
        Covered { path: "up", tier: Tier::Destructive, confirm: true },
        Covered { path: "down", tier: Tier::Destructive, confirm: true },
        Covered { path: "set", tier: Tier::Write, confirm: false },
        Covered { path: "get", tier: Tier::Read, confirm: false },
        Covered { path: "login", tier: Tier::Write, confirm: true },
        Covered { path: "logout", tier: Tier::Destructive, confirm: true },
        Covered { path: "switch", tier: Tier::Write, confirm: true },
        Covered { path: "switch remove", tier: Tier::Destructive, confirm: true },
        Covered { path: "status", tier: Tier::Read, confirm: false },
        Covered { path: "ip", tier: Tier::Read, confirm: false },
        Covered { path: "netcheck", tier: Tier::Read, confirm: false },
        Covered { path: "ping", tier: Tier::Read, confirm: false },
        Covered { path: "whois", tier: Tier::Read, confirm: false },
        Covered { path: "whoami", tier: Tier::Read, confirm: false },
        Covered { path: "version", tier: Tier::Read, confirm: false },
        Covered { path: "licenses", tier: Tier::Read, confirm: false },
        Covered { path: "bugreport", tier: Tier::Read, confirm: false },
        Covered { path: "appc-routes", tier: Tier::Read, confirm: false },
        Covered { path: "routecheck", tier: Tier::Read, confirm: false },
        Covered { path: "wait", tier: Tier::Read, confirm: false },
        Covered { path: "dns status", tier: Tier::Read, confirm: false },
        Covered { path: "dns query", tier: Tier::Read, confirm: false },
        Covered { path: "exit-node list", tier: Tier::Read, confirm: false },
        Covered { path: "exit-node suggest", tier: Tier::Read, confirm: false },
        Covered { path: "metrics print", tier: Tier::Read, confirm: false },
        Covered { path: "service list", tier: Tier::Read, confirm: false },
        Covered { path: "syspolicy list", tier: Tier::Read, confirm: false },
        Covered { path: "configure sysext status", tier: Tier::Read, confirm: false },
        Covered { path: "serve", tier: Tier::Write, confirm: false },
        Covered { path: "serve status", tier: Tier::Read, confirm: false },
        Covered { path: "serve reset", tier: Tier::Destructive, confirm: true },
        Covered { path: "serve drain", tier: Tier::Write, confirm: false },
        Covered { path: "serve clear", tier: Tier::Destructive, confirm: true },
        Covered { path: "serve advertise", tier: Tier::Write, confirm: false },
        Covered { path: "serve get-config", tier: Tier::Read, confirm: false },
        Covered { path: "serve set-config", tier: Tier::Write, confirm: false },
        Covered { path: "funnel", tier: Tier::Destructive, confirm: true },
        Covered { path: "funnel status", tier: Tier::Read, confirm: false },
        Covered { path: "file cp", tier: Tier::Write, confirm: false },
        Covered { path: "file get", tier: Tier::Write, confirm: false },
        Covered { path: "cert", tier: Tier::Write, confirm: false },
        Covered { path: "metrics write", tier: Tier::Write, confirm: false },
        Covered { path: "configure kubeconfig", tier: Tier::Write, confirm: false },
        Covered { path: "syspolicy reload", tier: Tier::Write, confirm: false },
        Covered { path: "drive list", tier: Tier::Read, confirm: false },
        Covered { path: "drive share", tier: Tier::Write, confirm: false },
        Covered { path: "drive rename", tier: Tier::Write, confirm: false },
        Covered { path: "drive unshare", tier: Tier::Destructive, confirm: false },
        Covered { path: "lock status", tier: Tier::Read, confirm: false },
        Covered { path: "lock log", tier: Tier::Read, confirm: false },
        Covered { path: "lock init", tier: Tier::Destructive, confirm: true },
        Covered { path: "lock add", tier: Tier::Write, confirm: false },
        Covered { path: "lock remove", tier: Tier::Destructive, confirm: false },
        Covered { path: "lock sign", tier: Tier::Write, confirm: false },
        Covered { path: "lock disable", tier: Tier::Destructive, confirm: true },
        Covered { path: "lock disablement-kdf", tier: Tier::Read, confirm: false },
        Covered { path: "lock local-disable", tier: Tier::Destructive, confirm: false },
        Covered { path: "lock revoke-keys", tier: Tier::Destructive, confirm: true },
        Covered { path: "debug derp-map", tier: Tier::Read, confirm: false },
        Covered { path: "debug netmap", tier: Tier::Read, confirm: false },
        Covered { path: "debug hostinfo", tier: Tier::Read, confirm: false },
        Covered { path: "debug control-knobs", tier: Tier::Read, confirm: false },
        Covered { path: "debug daemon-goroutines", tier: Tier::Read, confirm: false },
        Covered { path: "debug daemon-bus-graph", tier: Tier::Read, confirm: false },
        Covered { path: "debug daemon-bus-queues", tier: Tier::Read, confirm: false },
        Covered { path: "debug metrics", tier: Tier::Read, confirm: false },
        Covered { path: "debug statedir", tier: Tier::Read, confirm: false },
        Covered { path: "debug go-buildinfo", tier: Tier::Read, confirm: false },
        Covered { path: "debug peer-relay-servers", tier: Tier::Read, confirm: false },
        Covered { path: "debug peer-relay-sessions", tier: Tier::Read, confirm: false },
        Covered { path: "debug stat", tier: Tier::Read, confirm: false },
        Covered { path: "debug via", tier: Tier::Read, confirm: false },
        Covered { path: "debug watch-ipn", tier: Tier::Read, confirm: false },
        Covered { path: "debug peer-endpoint-changes", tier: Tier::Read, confirm: false },
        Covered { path: "debug resolve", tier: Tier::Read, confirm: false },
        Covered { path: "debug dial-types", tier: Tier::Read, confirm: false },
        Covered { path: "debug derp", tier: Tier::Read, confirm: false },
        Covered { path: "debug ts2021", tier: Tier::Read, confirm: false },
        Covered { path: "debug portmap", tier: Tier::Read, confirm: false },
        Covered { path: "debug component-logs", tier: Tier::Write, confirm: false },
        Covered { path: "debug restun", tier: Tier::Write, confirm: false },
        Covered { path: "debug rebind", tier: Tier::Write, confirm: false },
        Covered { path: "debug rotate-disco-key", tier: Tier::Write, confirm: false },
        Covered { path: "debug derp-unset-on-demand", tier: Tier::Write, confirm: false },
        Covered { path: "debug pick-new-derp", tier: Tier::Write, confirm: false },
        Covered { path: "debug force-prefer-derp", tier: Tier::Write, confirm: false },
        Covered { path: "debug force-netmap-update", tier: Tier::Write, confirm: false },
    ];
    assert(rows@ =~= covered_rows());
    rows
}

/// Every documented command this server will not run at all: it runs in the
/// foreground with no end, it wires a stream to a terminal this server does
/// not have, or it changes the host outside Tailscale.
pub open spec fn own_excluded_rows() -> Seq<Excluded> {
    seq![
        Excluded {
            path: "ssh",
            reason: "it opens an interactive session on a peer, which needs a terminal this server does not have",
        },
        Excluded {
            path: "nc",
            reason: "it wires a socket to standard input and output, which a tool call has nothing to connect",
        },
        Excluded {
            path: "web",
            reason: "it runs a web server in the foreground until interrupted",
        },
        Excluded {
            path: "systray",
            reason: "it runs a desktop application in the foreground until quit",
        },
        Excluded {
            path: "update",
            reason: "it replaces the `tailscale` binary this server is talking to; update the host the way the host is normally updated",
        },
        Excluded {
            path: "configure sysext activate",
            reason: "it installs a system extension and reboots into it, which is a change to the host rather than to the tailnet",
        },
        Excluded {
            path: "configure sysext deactivate",
            reason: "it removes a system extension the node may be running on, which is a change to the host rather than to the tailnet",
        },
        Excluded {
            path: "configure mac-vpn install",
            reason: "it installs a system VPN profile, which is a change to the host rather than to the tailnet",
        },
        Excluded {
            path: "configure mac-vpn uninstall",
            reason: "it removes a system VPN profile, which is a change to the host rather than to the tailnet",
        },
    ]
}

/// Every command this server refuses, documented and hidden alike.
pub open spec fn excluded_rows() -> Seq<Excluded> {
    own_excluded_rows() + crate::local_debug::excluded_rows()
}

pub fn excluded() -> (r: Vec<Excluded>)
    ensures
        r@ == excluded_rows(),
{
    let mut rows = vec![
        Excluded {
            path: "ssh",
            reason: "it opens an interactive session on a peer, which needs a terminal this server does not have",
        },
        Excluded {
            path: "nc",
            reason: "it wires a socket to standard input and output, which a tool call has nothing to connect",
        },
        Excluded {
            path: "web",
            reason: "it runs a web server in the foreground until interrupted",
        },
        Excluded {
            path: "systray",
            reason: "it runs a desktop application in the foreground until quit",
        },
        Excluded {
            path: "update",
            reason: "it replaces the `tailscale` binary this server is talking to; update the host the way the host is normally updated",
        },
        Excluded {
            path: "configure sysext activate",
            reason: "it installs a system extension and reboots into it, which is a change to the host rather than to the tailnet",
        },
        Excluded {
            path: "configure sysext deactivate",
            reason: "it removes a system extension the node may be running on, which is a change to the host rather than to the tailnet",
        },
        Excluded {
            path: "configure mac-vpn install",
            reason: "it installs a system VPN profile, which is a change to the host rather than to the tailnet",
        },
        Excluded {
            path: "configure mac-vpn uninstall",
            reason: "it removes a system VPN profile, which is a change to the host rather than to the tailnet",
        },
    ];
    assert(rows@ =~= own_excluded_rows());
    let mut debug = crate::local_debug::excluded();
    rows.append(&mut debug);
    rows
}


/// What this server knows about a command it was asked to run.
#[derive(Debug, Clone, Copy, PartialEq, Eq)]
pub enum Known {
    /// A typed tool runs this, and these are its terms.
    Covered(Covered),
    /// This server never runs it, and here is what to tell the caller.
    Excluded(Excluded),
    /// Nobody has judged it, so it is judged at the top.
    Unknown,
}

// ---------------------------------------------------------------------------
// The two readings of an argument list
// ---------------------------------------------------------------------------

/// A flag rather than a word of the command.
pub open spec fn is_flag_seq(arg: Seq<char>) -> bool {
    arg.len() > 0 && arg[0] == '-'
}

/// A word in the form the tables are written in: trimmed and lowercased,
/// because the client matches its own subcommands without regard to case.
pub open spec fn word_of(arg: Seq<char>) -> Seq<char> {
    lower_seq(trim_seq(arg))
}

/// The words before the first flag.
pub open spec fn leading_words(args: Seq<Seq<char>>) -> Seq<Seq<char>>
    decreases args.len(),
{
    if args.len() == 0 || is_flag_seq(args[0]) {
        seq![]
    } else {
        seq![word_of(args[0])] + leading_words(args.drop_first())
    }
}

/// Every argument that is not a flag, as a word.
pub open spec fn every_word(args: Seq<Seq<char>>) -> Seq<Seq<char>>
    decreases args.len(),
{
    if args.len() == 0 {
        seq![]
    } else {
        let before = every_word(args.drop_last());
        if is_flag_seq(args.last()) {
            before
        } else {
            before.push(word_of(args.last()))
        }
    }
}

pub open spec fn find_excluded(rows: Seq<Excluded>, path: Seq<char>) -> Option<Excluded>
    decreases rows.len(),
{
    if rows.len() == 0 {
        None
    } else if rows[0].path@ == path {
        Some(rows[0])
    } else {
        find_excluded(rows.drop_first(), path)
    }
}

pub open spec fn find_covered(rows: Seq<Covered>, path: Seq<char>) -> Option<Covered>
    decreases rows.len(),
{
    if rows.len() == 0 {
        None
    } else if rows[0].path@ == path {
        Some(rows[0])
    } else {
        find_covered(rows.drop_first(), path)
    }
}

/// The deepest of the first `depth` words that either table names, an
/// exclusion winning over a covering row at the same depth.
pub open spec fn read_at(ws: Seq<Seq<char>>, depth: nat) -> (Seq<char>, Known)
    decreases depth,
{
    if depth == 0 {
        (join_seq(ws, " "@), Known::Unknown)
    } else {
        let path = join_seq(ws.take(depth as int), " "@);
        match find_excluded(excluded_rows(), path) {
            Some(e) => (path, Known::Excluded(e)),
            None => match find_covered(covered_rows(), path) {
                Some(c) => (path, Known::Covered(c)),
                None => read_at(ws, (depth - 1) as nat),
            },
        }
    }
}

pub open spec fn start_depth(ws: Seq<Seq<char>>) -> nat {
    if ws.len() < 3 {
        ws.len()
    } else {
        3
    }
}

/// The deepest command either table names at the start of `ws`.
pub open spec fn read_words(ws: Seq<Seq<char>>) -> (Seq<char>, Known) {
    read_at(ws, start_depth(ws))
}

/// How strict a reading is: a command never run outranks every tier; below
/// that, a higher tier is stricter, and needing a confirmation is stricter
/// than not.
pub open spec fn spec_strictness(known: Known) -> (bool, Tier, bool) {
    match known {
        Known::Excluded(_) => (true, Tier::Destructive, true),
        Known::Covered(c) => (false, c.tier, c.confirm),
        Known::Unknown => (false, Tier::Destructive, false),
    }
}

/// The lexicographic order of those triples, as a number.
pub open spec fn strict_rank(t: (bool, Tier, bool)) -> nat {
    (if t.0 {
        6nat
    } else {
        0nat
    }) + t.1.rank() * 2 + (if t.2 {
        1nat
    } else {
        0nat
    })
}

/// `ws` is the beginning of `path` without being all of it.
pub open spec fn proper_prefix(ws: Seq<Seq<char>>, path: Seq<char>) -> bool {
    let pieces = split_seq(path, ' ');
    &&& ws.len() > 0
    &&& ws.len() < pieces.len()
    &&& forall|i: int| 0 <= i < ws.len() ==> ws[i] == pieces[i]
}

/// A reading that stops partway into a command this server refuses.
pub open spec fn partial(ws: Seq<Seq<char>>) -> bool {
    exists|i: int| 0 <= i < excluded_rows().len() && proper_prefix(ws, (#[trigger] excluded_rows()[i]).path@)
}

/// The reading that decides: the stricter of the two, and the one of every
/// word when they are as strict as each other.
pub open spec fn chosen_reading(args: Seq<Seq<char>>) -> (Seq<char>, Known) {
    let leading = leading_words(args);
    let every = every_word(args);
    if leading.len() == 0 {
        read_words(every)
    } else {
        let a = read_words(leading);
        let b = read_words(every);
        if strict_rank(spec_strictness(a.1)) > strict_rank(spec_strictness(b.1)) {
            a
        } else {
            b
        }
    }
}

/// The arguments name no command this server can read: no bare word, or a
/// blank one first.
pub open spec fn nameless(args: Seq<Seq<char>>) -> bool {
    every_word(args).len() == 0 || every_word(args)[0].len() == 0
}

/// An unjudged reading that stops partway into a refused command.
pub open spec fn stops_partway(args: Seq<Seq<char>>) -> bool {
    chosen_reading(args).1 == Known::Unknown && (partial(leading_words(args)) || partial(
        every_word(args),
    ))
}

pub open spec fn nameless_message() -> Seq<char> {
    "the first argument has to be a subcommand rather than a flag or an empty string, so that what runs can be read from the arguments"@
}

pub open spec fn partway_message(ws: Seq<Seq<char>>) -> Seq<char> {
    "`tailscale "@ + join_seq(ws, " "@)
        + "` names only part of a command, and this server decides what to allow from the words that are not flags. Write the whole subcommand, with its flags after it."@
}

// ---------------------------------------------------------------------------
// Reading
// ---------------------------------------------------------------------------

fn is_flag(arg: &str) -> (r: bool)
    ensures
        r == is_flag_seq(arg@),
{
    let c = chars_of(arg);
    c.len() > 0 && c[0] == '-'
}

fn word(arg: &str) -> (r: String)
    ensures
        r@ == word_of(arg@),
{
    let t = trim(arg);
    lower_text(t.as_str())
}

fn leading(args: &Vec<String>) -> (r: Vec<String>)
    ensures
        r.deep_view() == leading_words(args.deep_view()),
{
    let ghost all = args.deep_view();
    let mut out: Vec<String> = Vec::new();
    let mut i: usize = 0;
    assert(all.skip(0) =~= all);
    while i < args.len() && !is_flag(args[i].as_str())
        invariant
            all == args.deep_view(),
            i <= all.len(),
            leading_words(all) == out.deep_view() + leading_words(all.skip(i as int)),
        decreases args.len() - i,
    {
        assert(all.skip(i as int)[0] == args[i as int]@);
        assert(all.skip(i as int).drop_first() =~= all.skip(i + 1));
        let ghost old_dv = out.deep_view();
        out.push(word(args[i].as_str()));
        assert(out.deep_view() =~= old_dv.push(word_of(args[i as int]@)));
        assert(old_dv + leading_words(all.skip(i as int)) =~= out.deep_view() + leading_words(
            all.skip(i + 1),
        ));
        i = i + 1;
    }
    if i < args.len() {
        assert(all.skip(i as int)[0] == args[i as int]@);
    }
    assert(out.deep_view() + leading_words(all.skip(i as int)) =~= out.deep_view());
    out
}

fn every(args: &Vec<String>) -> (r: Vec<String>)
    ensures
        r.deep_view() == every_word(args.deep_view()),
{
    let ghost all = args.deep_view();
    let mut out: Vec<String> = Vec::new();
    let mut i: usize = 0;
    while i < args.len()
        invariant
            all == args.deep_view(),
            i <= all.len(),
            out.deep_view() == every_word(all.take(i as int)),
        decreases args.len() - i,
    {
        assert(all.take(i + 1).drop_last() =~= all.take(i as int));
        assert(all.take(i + 1).last() == args[i as int]@);
        if !is_flag(args[i].as_str()) {
            let ghost old_dv = out.deep_view();
            out.push(word(args[i].as_str()));
            assert(out.deep_view() =~= old_dv.push(word_of(args[i as int]@)));
        }
        i = i + 1;
    }
    assert(all.take(i as int) =~= all);
    out
}

fn lookup_excluded(rows: &Vec<Excluded>, path: &str) -> (r: Option<Excluded>)
    ensures
        r == find_excluded(rows@, path@),
{
    let mut k: usize = 0;
    assert(rows@.skip(0) =~= rows@);
    while k < rows.len()
        invariant
            k <= rows@.len(),
            find_excluded(rows@, path@) == find_excluded(rows@.skip(k as int), path@),
        decreases rows.len() - k,
    {
        assert(rows@.skip(k as int)[0] == rows@[k as int]);
        assert(rows@.skip(k as int).drop_first() =~= rows@.skip(k + 1));
        if same(rows[k].path, path) {
            return Some(rows[k]);
        }
        k = k + 1;
    }
    None
}

fn lookup_covered(rows: &Vec<Covered>, path: &str) -> (r: Option<Covered>)
    ensures
        r == find_covered(rows@, path@),
{
    let mut k: usize = 0;
    assert(rows@.skip(0) =~= rows@);
    while k < rows.len()
        invariant
            k <= rows@.len(),
            find_covered(rows@, path@) == find_covered(rows@.skip(k as int), path@),
        decreases rows.len() - k,
    {
        assert(rows@.skip(k as int)[0] == rows@[k as int]);
        assert(rows@.skip(k as int).drop_first() =~= rows@.skip(k + 1));
        if same(rows[k].path, path) {
            return Some(rows[k]);
        }
        k = k + 1;
    }
    None
}

/// The first `n` words.
fn first_words(ws: &Vec<String>, n: usize) -> (r: Vec<String>)
    requires
        n <= ws@.len(),
    ensures
        r.deep_view() == ws.deep_view().take(n as int),
{
    let mut out: Vec<String> = Vec::new();
    let mut i: usize = 0;
    while i < n
        invariant
            n <= ws@.len(),
            i <= n,
            out.deep_view() == ws.deep_view().take(i as int),
        decreases n - i,
    {
        let ghost old_dv = out.deep_view();
        out.push(crate::text::owned(ws[i].as_str()));
        assert(out.deep_view() =~= old_dv.push(ws[i as int]@));
        assert(ws.deep_view().take(i + 1) =~= ws.deep_view().take(i as int).push(ws[i as int]@));
        i = i + 1;
    }
    out
}

/// The deepest command either table names at the start of `ws`.
fn read(ws: &Vec<String>) -> (r: (String, Known))
    ensures
        r.0@ == read_words(ws.deep_view()).0,
        r.1 == read_words(ws.deep_view()).1,
{
    let excluded_table = excluded();
    let covered_table = covered();
    let mut depth: usize = if ws.len() < MAX_DEPTH {
        ws.len()
    } else {
        MAX_DEPTH
    };
    while depth > 0
        invariant
            depth <= ws@.len(),
            excluded_table@ == excluded_rows(),
            covered_table@ == covered_rows(),
            read_words(ws.deep_view()) == read_at(ws.deep_view(), depth as nat),
        decreases depth,
    {
        let prefix = first_words(ws, depth);
        let path = join(&prefix, " ");
        if let Some(found) = lookup_excluded(&excluded_table, path.as_str()) {
            return (path, Known::Excluded(found));
        }
        if let Some(found) = lookup_covered(&covered_table, path.as_str()) {
            return (path, Known::Covered(found));
        }
        depth = depth - 1;
    }
    (join(ws, " "), Known::Unknown)
}

/// How strict a reading is, for choosing between two readings of one command.
pub fn strictness(known: &Known) -> (r: (bool, Tier, bool))
    ensures
        r == spec_strictness(*known),
{
    match known {
        Known::Excluded(_) => (true, Tier::Destructive, true),
        Known::Covered(covered) => (false, covered.tier, covered.confirm),
        Known::Unknown => (false, Tier::Destructive, false),
    }
}

fn rank(t: (bool, Tier, bool)) -> (r: u8)
    ensures
        r == strict_rank(t),
{
    (if t.0 {
        6u8
    } else {
        0u8
    }) + t.1.level() * 2 + (if t.2 {
        1u8
    } else {
        0u8
    })
}

/// Whether `ws` is the beginning of `path` without being all of it.
pub fn is_proper_prefix(ws: &Vec<String>, path: &str) -> (r: bool)
    ensures
        r == proper_prefix(ws.deep_view(), path@),
{
    let pieces = crate::text::split(path, ' ');
    if ws.len() == 0 || ws.len() >= pieces.len() {
        return false;
    }
    let mut i: usize = 0;
    while i < ws.len()
        invariant
            ws@.len() < pieces@.len(),
            pieces.deep_view() == split_seq(path@, ' '),
            i <= ws@.len(),
            forall|k: int| 0 <= k < i ==> ws.deep_view()[k] == pieces.deep_view()[k],
        decreases ws.len() - i,
    {
        if !same(ws[i].as_str(), pieces[i].as_str()) {
            assert(ws.deep_view()[i as int] != pieces.deep_view()[i as int]);
            return false;
        }
        i = i + 1;
    }
    true
}

fn stops_in_an_exclusion(ws: &Vec<String>) -> (r: bool)
    ensures
        r == partial(ws.deep_view()),
{
    let rows = excluded();
    let mut k: usize = 0;
    while k < rows.len()
        invariant
            rows@ == excluded_rows(),
            k <= rows@.len(),
            forall|j: int| 0 <= j < k ==> !proper_prefix(ws.deep_view(), (#[trigger] excluded_rows()[j]).path@),
        decreases rows.len() - k,
    {
        if is_proper_prefix(ws, rows[k].path) {
            return true;
        }
        k = k + 1;
    }
    false
}

/// The command a caller named, and what is known about it.
///
/// Two readings are taken, because this server does not parse the client's
/// flags: the words before the first flag, and every word that is not a flag.
/// `serve --bg reset` runs `serve reset`, which only the second sees, while in
/// `funnel --set-path status 8080` the second mistakes a flag's value for a
/// subcommand. Neither can be trusted alone, so the stricter wins. An
/// unjudged reading that stops partway into a refused command is refused
/// rather than run as unknown.
pub fn classify(args: &Vec<String>) -> (r: ToolResult<(String, Known)>)
    ensures
        r is Ok <==> !nameless(args.deep_view()) && !stops_partway(args.deep_view()),
        r matches Ok(found) ==> found.0@ == chosen_reading(args.deep_view()).0 && found.1
            == chosen_reading(args.deep_view()).1,
        r matches Err(e) ==> e.code == ErrorCode::InvalidArgs && e.hint is None && (if nameless(
            args.deep_view(),
        ) {
            e.message@ == nameless_message()
        } else if partial(leading_words(args.deep_view())) {
            e.message@ == partway_message(leading_words(args.deep_view()))
        } else {
            e.message@ == partway_message(every_word(args.deep_view()))
        }),
{
    let leading_reading = leading(args);
    let every_reading = every(args);
    if every_reading.len() == 0 || every_reading[0].as_str().unicode_len() == 0 {
        return Err(
            ToolError::invalid_args(
                crate::text::owned(
                    "the first argument has to be a subcommand rather than a flag or an empty string, so that what runs can be read from the arguments",
                ),
            ),
        );
    }
    let (path, known) = if leading_reading.len() == 0 {
        read(&every_reading)
    } else {
        let a = read(&leading_reading);
        let b = read(&every_reading);
        if rank(strictness(&a.1)) > rank(strictness(&b.1)) {
            a
        } else {
            b
        }
    };
    if let Known::Unknown = known {
        let first = stops_in_an_exclusion(&leading_reading);
        let second = stops_in_an_exclusion(&every_reading);
        if first || second {
            let reading = if first {
                join(&leading_reading, " ")
            } else {
                join(&every_reading, " ")
            };
            return Err(
                ToolError::invalid_args(
                    cat3(
                        "`tailscale ",
                        reading.as_str(),
                        "` names only part of a command, and this server decides what to allow from the words that are not flags. Write the whole subcommand, with its flags after it.",
                    ),
                ),
            );
        }
    }
    Ok((path, known))
}


// ---------------------------------------------------------------------------
// Running
// ---------------------------------------------------------------------------

/// Run any `tailscale` subcommand.
#[derive(Debug)]
pub struct RunParams {
    /// The arguments to `tailscale`, one per element, subcommand first.
    /// Nothing here is parsed by a shell.
    pub args: Vec<String>,
    /// Set to true to confirm a command whose covering tool needs it.
    pub confirm: bool,
    /// How long to let the command run, in seconds: clamped to 1..=300, and
    /// 30 when it is not given.
    pub timeout_seconds: Option<u64>,
}

/// What the server decided about a passthrough command before running it.
#[derive(Debug)]
pub struct RunPlan {
    /// The command as it was read, words separated by spaces.
    pub path: String,
    /// The tier it was judged at.
    pub tier: Tier,
    /// Whether a typed tool covers it.
    pub covered: bool,
    /// Anything that is not a read takes the exclusive lane.
    pub mutate: bool,
    /// How long the caller is told the command may run, in seconds.
    pub seconds: u64,
    /// How long the child process is given, a little longer than that.
    pub child_seconds: u64,
}

/// What a passthrough command did.
#[derive(Debug)]
pub struct RunReport {
    /// The command as it ran, with anything secret-shaped removed.
    pub command: String,
    /// The tier it was judged at.
    pub tier: &'static str,
    /// Whether a typed tool covers it. When this is false the tier above is
    /// this server declining to guess rather than something it knows.
    pub covered: bool,
    /// Everything the client printed.
    pub printed: Option<String>,
}

impl RunPlan {
    /// The answer, from the command as it was displayed (already redacted)
    /// and what it printed.
    pub fn answer(self, command: String, printed: Option<String>) -> (r: RunReport)
        ensures
            r.command == command,
            r.tier@ == self.tier.spec_name(),
            r.covered == self.covered,
            r.printed == printed,
    {
        RunReport { command, tier: self.tier.as_str(), covered: self.covered, printed }
    }
}

/// The terms a reading runs on: a covering row's own, and destructive without
/// a confirmation for a command nobody has judged.
pub open spec fn run_terms(known: Known) -> (Tier, bool) {
    match known {
        Known::Covered(c) => (c.tier, c.confirm),
        _ => (Tier::Destructive, false),
    }
}

pub open spec fn above(tier: Tier, max_tier: Tier) -> bool {
    tier.rank() > max_tier.rank()
}

/// Judge a passthrough command against the session's tier and the caller's
/// confirmation, and bound how long it may run.
pub fn plan_run(params: &RunParams, max_tier: Tier) -> (r: ToolResult<RunPlan>)
    ensures
        ({
            let args = params.args.deep_view();
            let reading = chosen_reading(args);
            let terms = run_terms(reading.1);
            &&& r is Ok <==> !nameless(args) && !stops_partway(args) && !(reading.1 is Excluded)
                && !above(terms.0, max_tier) && !(terms.1 && !params.confirm)
            &&& r matches Ok(plan) ==> {
                &&& plan.path@ == reading.0
                &&& plan.tier == terms.0
                &&& plan.covered == (reading.1 is Covered)
                &&& plan.mutate == (terms.0 != Tier::Read)
                &&& plan.seconds == crate::common::wait_seconds(
                    params.timeout_seconds,
                    DEFAULT_RUN_TIMEOUT,
                    MAX_RUN_TIMEOUT,
                )
                &&& plan.child_seconds == plan.seconds + crate::common::GRACE
            }
            &&& r matches Err(e) ==> (if nameless(args) || stops_partway(args) {
                e.code == ErrorCode::InvalidArgs
            } else if reading.1 is Excluded {
                &&& e.code == ErrorCode::NotPermitted
                &&& e.hint is None
                &&& e.message@ == "`tailscale "@ + reading.1->Excluded_0.path@
                    + "` is never run by this server: "@ + reading.1->Excluded_0.reason@
            } else if above(terms.0, max_tier) {
                &&& e.code == ErrorCode::NotPermitted
                &&& e.message@ == "`"@ + ("tailscale "@ + reading.0)
                    + "` needs a session started with `"@ + terms.0.spec_flag()->0 + "`"@
            } else {
                &&& e.code == ErrorCode::ConfirmationRequired
                &&& e.message@ == "`"@ + ("tailscale "@ + reading.0) + "` "@
                    + "runs at the same terms as the tool that covers it"@
                    + ", and this call did not confirm it"@
            })
        }),
{
    let (path, known) = classify(&params.args)?;
    let (tier, confirm) = match known {
        Known::Excluded(excluded) => {
            let message = cat4(
                "`tailscale ",
                excluded.path,
                "` is never run by this server: ",
                excluded.reason,
            );
            return Err(ToolError::new(ErrorCode::NotPermitted, message));
        },
        Known::Covered(covered) => (covered.tier, covered.confirm),
        Known::Unknown => (Tier::Destructive, false),
    };
    let command = crate::text::cat2("tailscale ", path.as_str());
    if tier.level() > max_tier.level() {
        if let Some(flag) = tier.flag() {
            return Err(ToolError::not_permitted(command.as_str(), flag));
        }
    }
    if confirm && !params.confirm {
        return Err(
            ToolError::confirmation_required(
                command.as_str(),
                "runs at the same terms as the tool that covers it",
            ),
        );
    }
    let (seconds, child_seconds) = crate::common::bounded_wait(
        params.timeout_seconds,
        DEFAULT_RUN_TIMEOUT,
        MAX_RUN_TIMEOUT,
    );
    let mutate = match tier {
        Tier::Read => false,
        _ => true,
    };
    let covered = match known {
        Known::Covered(_) => true,
        _ => false,
    };
    Ok(RunPlan { path, tier, covered, mutate, seconds, child_seconds })
}

// ---------------------------------------------------------------------------
// What holds of every argument list
// ---------------------------------------------------------------------------

/// The stricter reading wins: whatever the arguments, the reading that
/// decides is at least as strict as the words before the first flag, and at
/// least as strict as every word that is not a flag.
pub proof fn stricter_reading_wins(args: Seq<Seq<char>>)
    ensures
        leading_words(args).len() > 0 ==> strict_rank(spec_strictness(chosen_reading(args).1))
            >= strict_rank(spec_strictness(read_words(leading_words(args)).1)),
        strict_rank(spec_strictness(chosen_reading(args).1)) >= strict_rank(
            spec_strictness(read_words(every_word(args)).1),
        ),
{
}

/// A command nobody has judged is judged destructive.
pub proof fn unjudged_is_destructive()
    ensures
        spec_strictness(Known::Unknown) == (false, Tier::Destructive, false),
        run_terms(Known::Unknown).0 == Tier::Destructive,
{
}

/// A letter in upper case, as `to_ascii_uppercase` writes it.
pub open spec fn upper(c: char) -> char {
    if 'a' <= c && c <= 'z' {
        ((c as u32) - 32) as char
    } else {
        c
    }
}

/// An argument shouted: every ASCII letter in upper case.
pub open spec fn shout(arg: Seq<char>) -> Seq<char> {
    arg.map_values(|c: char| upper(c))
}

/// Every argument shouted.
pub open spec fn shouted(args: Seq<Seq<char>>) -> Seq<Seq<char>> {
    args.map_values(|a: Seq<char>| shout(a))
}

proof fn lemma_upper_char(c: char)
    ensures
        crate::text::is_space(upper(c)) == crate::text::is_space(c),
        crate::text::lower(upper(c)) == crate::text::lower(c),
        (upper(c) == '-') == (c == '-'),
{
    if 'a' <= c && c <= 'z' {
        assert((((c as u32) - 32) as char) as u32 == (c as u32) - 32);
    }
}

proof fn lemma_trim_start_shout(s: Seq<char>)
    ensures
        crate::text::trim_start_seq(shout(s)) == shout(crate::text::trim_start_seq(s)),
    decreases s.len(),
{
    if s.len() > 0 {
        lemma_upper_char(s[0]);
        assert(shout(s).drop_first() =~= shout(s.drop_first()));
        if crate::text::is_space(s[0]) {
            lemma_trim_start_shout(s.drop_first());
        }
    }
}

proof fn lemma_trim_end_shout(s: Seq<char>)
    ensures
        crate::text::trim_end_seq(shout(s)) == shout(crate::text::trim_end_seq(s)),
    decreases s.len(),
{
    if s.len() > 0 {
        lemma_upper_char(s.last());
        assert(shout(s).drop_last() =~= shout(s.drop_last()));
        if crate::text::is_space(s.last()) {
            lemma_trim_end_shout(s.drop_last());
        }
    }
}

proof fn lemma_word_of_shout(a: Seq<char>)
    ensures
        word_of(shout(a)) == word_of(a),
        is_flag_seq(shout(a)) == is_flag_seq(a),
{
    lemma_trim_start_shout(a);
    lemma_trim_end_shout(crate::text::trim_start_seq(a));
    let t = trim_seq(a);
    assert(trim_seq(shout(a)) == shout(t));
    assert forall|i: int| 0 <= i < t.len() implies crate::text::lower(shout(t)[i])
        == crate::text::lower(t[i]) by {
        lemma_upper_char(t[i]);
    }
    assert(lower_seq(shout(t)) =~= lower_seq(t));
    if a.len() > 0 {
        lemma_upper_char(a[0]);
    }
}

proof fn lemma_leading_shout(args: Seq<Seq<char>>)
    ensures
        leading_words(shouted(args)) == leading_words(args),
    decreases args.len(),
{
    if args.len() > 0 {
        lemma_word_of_shout(args[0]);
        assert(shouted(args).drop_first() =~= shouted(args.drop_first()));
        lemma_leading_shout(args.drop_first());
    }
}

proof fn lemma_every_shout(args: Seq<Seq<char>>)
    ensures
        every_word(shouted(args)) == every_word(args),
    decreases args.len(),
{
    if args.len() > 0 {
        lemma_word_of_shout(args.last());
        assert(shouted(args).drop_last() =~= shouted(args.drop_last()));
        lemma_every_shout(args.drop_last());
    }
}

/// Shouting does not evade the exclusion list: the client matches its
/// subcommands without regard to case, and so does every reading here. An
/// argument list with its letters in upper case is read as the same command,
/// judged the same way, and refused with the same words.
pub proof fn shouting_does_not_evade_the_exclusion_list(args: Seq<Seq<char>>)
    ensures
        leading_words(shouted(args)) == leading_words(args),
        every_word(shouted(args)) == every_word(args),
        chosen_reading(shouted(args)) == chosen_reading(args),
        nameless(shouted(args)) == nameless(args),
        stops_partway(shouted(args)) == stops_partway(args),
{
    lemma_leading_shout(args);
    lemma_every_shout(args);
}

/// Every tool of this toolset, in the order a client lists them.
pub fn entries() -> (r: Vec<ToolEntry>)
    ensures
        r.len() == 1,
        forall|i: int|
            0 <= i < r.len() ==> (#[trigger] r[i]).meta.toolset == Toolset::LocalPassthrough
                && crate::registry::row_ok(r[i]),
{
    proof {
        reveal_strlit("tailscale_");
        reveal_strlit("tailscale_run");
    }
    vec![
        ToolEntry {
            meta: ToolMeta {
                name: "tailscale_run",
                summary: "Run a `tailscale` subcommand that no other tool covers, given as a list of arguments. Prefer a typed tool wherever one exists: they validate what they are given and answer with structured data rather than the text a person would read. What this is allowed to run depends on the command — one a typed tool covers takes that tool's tier and confirmation, an unrecognised one counts as destructive, and a command this server never runs is refused with the reason why.",
                toolset: Toolset::LocalPassthrough,
                tier: Tier::Read,
                idempotent: false,
                requires_confirmation: false,
                self_severing: false,
                varying: true,
                since: None,
            },
        },
    ]
}




/// Whether a path is written the way the tables are read: in lower case,
/// with no white space at either end.
pub open spec fn written_plainly(path: Seq<char>) -> bool {
    &&& path.len() > 0
    &&& !crate::text::is_space(path[0])
    &&& !crate::text::is_space(path.last())
    &&& forall|k: int| 0 <= k < path.len() ==> crate::text::lower(#[trigger] path[k]) == path[k]
}

/// The list of refused commands names each once: the documented commands
/// first and the hidden `debug` ones after them, every path written plainly
/// in at most three words, every hidden one with a reason of its own, and no
/// two rows naming the same command.
pub proof fn the_exclusion_list_names_each_command_once()
    ensures
        own_excluded_rows().len() == 9,
        crate::local_debug::excluded_rows().len() == 14,
        excluded_rows().len() == 23,
        forall|i: int| 0 <= i < 23 ==> written_plainly(#[trigger] excluded_rows()[i].path@),
        forall|i: int, j: int|
            0 <= i < j < 23 ==> excluded_rows()[i].path@ != excluded_rows()[j].path@,
        forall|i: int|
            0 <= i < 14 ==> "debug "@.is_prefix_of(
                (#[trigger] crate::local_debug::excluded_rows()[i]).path@,
            ),
        forall|i: int| 0 <= i < 14 ==> (#[trigger] crate::local_debug::excluded_rows()[i]).reason@.len() > 20,
        forall|i: int| 0 <= i < 23 ==> split_seq((#[trigger] excluded_rows()[i]).path@, ' ').len() <= 3,
{
    lemma_refused_paths_are_short();
    reveal_strlit("ssh");
    reveal_strlit("nc");
    reveal_strlit("web");
    reveal_strlit("systray");
    reveal_strlit("update");
    reveal_strlit("configure sysext activate");
    reveal_strlit("configure sysext deactivate");
    reveal_strlit("configure mac-vpn install");
    reveal_strlit("configure mac-vpn uninstall");
    reveal_strlit("debug prefs");
    reveal_strlit("debug local-creds");
    reveal_strlit("debug env");
    reveal_strlit("debug localapi");
    reveal_strlit("debug daemon-logs");
    reveal_strlit("debug daemon-bus-events");
    reveal_strlit("debug capture");
    reveal_strlit("debug test-risk");
    reveal_strlit("debug set-expire");
    reveal_strlit("debug break-tcp-conns");
    reveal_strlit("debug break-derp-conns");
    reveal_strlit("debug derp-set-on-demand");
    reveal_strlit("debug clear-netmap-cache");
    reveal_strlit("debug dev-store-set");
    reveal_strlit("debug ");
    let rows = excluded_rows();
    assert forall|i: int| 0 <= i < 23 implies written_plainly(#[trigger] excluded_rows()[i].path@) by {
        assert(i == 0 || i == 1 || i == 2 || i == 3 || i == 4 || i == 5 || i == 6 || i == 7 || i == 8 || i == 9 || i == 10 || i == 11 || i == 12 || i == 13 || i == 14 || i == 15 || i == 16 || i == 17 || i == 18 || i == 19 || i == 20 || i == 21 || i == 22);
    }
    assert forall|i: int, j: int| 0 <= i < j < 23 implies excluded_rows()[i].path@
        != excluded_rows()[j].path@ by {
        assert(i == 0 || i == 1 || i == 2 || i == 3 || i == 4 || i == 5 || i == 6 || i == 7 || i == 8 || i == 9 || i == 10 || i == 11 || i == 12 || i == 13 || i == 14 || i == 15 || i == 16 || i == 17 || i == 18 || i == 19 || i == 20 || i == 21 || i == 22);
        assert(j == 0 || j == 1 || j == 2 || j == 3 || j == 4 || j == 5 || j == 6 || j == 7 || j == 8 || j == 9 || j == 10 || j == 11 || j == 12 || j == 13 || j == 14 || j == 15 || j == 16 || j == 17 || j == 18 || j == 19 || j == 20 || j == 21 || j == 22);
        let a = excluded_rows()[i].path@;
        let b = excluded_rows()[j].path@;
        if a == b {
            assert(a.len() == b.len());
            assert(a[a.len() - 1] == b[b.len() - 1]);
            assert(a[a.len() - 2] == b[b.len() - 2]);
            assert(a[a.len() - 3] == b[b.len() - 3]);
        }
    }
    assert forall|i: int| 0 <= i < 14 implies "debug "@.is_prefix_of(
        (#[trigger] crate::local_debug::excluded_rows()[i]).path@,
    ) by {
        assert(i == 0 || i == 1 || i == 2 || i == 3 || i == 4 || i == 5 || i == 6 || i == 7 || i == 8 || i == 9 || i == 10 || i == 11 || i == 12 || i == 13);
        assert(crate::local_debug::excluded_rows()[i].path@.subrange(0, 6) =~= "debug "@);
    }
    assert forall|i: int| 0 <= i < 14 implies (#[trigger] crate::local_debug::excluded_rows()[i]).reason@.len()
        > 20 by {
        reveal_strlit("it prints the node's private keys along with its preferences; `tailscale_debug_netmap` and the preference tools report the rest");
        reveal_strlit("it prints the credential for reaching tailscaled's private HTTP interface, which this server never uses");
        reveal_strlit("it prints the whole process environment, which is where secrets for other services live");
        reveal_strlit("it calls tailscaled's private HTTP interface directly, which this server does not do at all");
        reveal_strlit("it streams the daemon log until interrupted and has no bounded form");
        reveal_strlit("it streams bus events until interrupted and has no bounded form");
        reveal_strlit("it streams a packet capture of tunnel traffic until interrupted, and launches a separate application when given no path");
        reveal_strlit("it exists to test the client's interactive risk prompt, which a tool call cannot answer");
        reveal_strlit("it expires the local node's key, cutting this server off from the tailnet; re-authenticate deliberately instead");
        reveal_strlit("its purpose is to break the daemon's connections");
        reveal_strlit("its purpose is to break the daemon's relay connections");
        reveal_strlit("it makes the node reachable only after a delay; `tailscale_debug_derp_unset_on_demand` undoes it if something else did it");
        reveal_strlit("it deletes the cached netmaps the node falls back on when the control plane is unreachable");
        reveal_strlit("it writes directly into tailscaled's state store, behind every check the rest of the client makes");
        assert(i == 0 || i == 1 || i == 2 || i == 3 || i == 4 || i == 5 || i == 6 || i == 7 || i == 8 || i == 9 || i == 10 || i == 11 || i == 12 || i == 13);
    }
}



/// No refused command is also one a typed tool covers: a path is either run
/// on a tool's terms or not run at all, never both.
pub proof fn no_refused_command_is_also_covered()
    ensures
        covered_rows().len() == 87,
        forall|i: int, j: int|
            0 <= i < 23 && 0 <= j < 87 ==> excluded_rows()[i].path@ != covered_rows()[j].path@,
{
    reveal_strlit("ssh");
    reveal_strlit("nc");
    reveal_strlit("web");
    reveal_strlit("systray");
    reveal_strlit("update");
    reveal_strlit("configure sysext activate");
    reveal_strlit("configure sysext deactivate");
    reveal_strlit("configure mac-vpn install");
    reveal_strlit("configure mac-vpn uninstall");
    reveal_strlit("debug prefs");
    reveal_strlit("debug local-creds");
    reveal_strlit("debug env");
    reveal_strlit("debug localapi");
    reveal_strlit("debug daemon-logs");
    reveal_strlit("debug daemon-bus-events");
    reveal_strlit("debug capture");
    reveal_strlit("debug test-risk");
    reveal_strlit("debug set-expire");
    reveal_strlit("debug break-tcp-conns");
    reveal_strlit("debug break-derp-conns");
    reveal_strlit("debug derp-set-on-demand");
    reveal_strlit("debug clear-netmap-cache");
    reveal_strlit("debug dev-store-set");
    reveal_strlit("up");
    reveal_strlit("down");
    reveal_strlit("set");
    reveal_strlit("get");
    reveal_strlit("login");
    reveal_strlit("logout");
    reveal_strlit("switch");
    reveal_strlit("switch remove");
    reveal_strlit("status");
    reveal_strlit("ip");
    reveal_strlit("netcheck");
    reveal_strlit("ping");
    reveal_strlit("whois");
    reveal_strlit("whoami");
    reveal_strlit("version");
    reveal_strlit("licenses");
    reveal_strlit("bugreport");
    reveal_strlit("appc-routes");
    reveal_strlit("routecheck");
    reveal_strlit("wait");
    reveal_strlit("dns status");
    reveal_strlit("dns query");
    reveal_strlit("exit-node list");
    reveal_strlit("exit-node suggest");
    reveal_strlit("metrics print");
    reveal_strlit("service list");
    reveal_strlit("syspolicy list");
    reveal_strlit("configure sysext status");
    reveal_strlit("serve");
    reveal_strlit("serve status");
    reveal_strlit("serve reset");
    reveal_strlit("serve drain");
    reveal_strlit("serve clear");
    reveal_strlit("serve advertise");
    reveal_strlit("serve get-config");
    reveal_strlit("serve set-config");
    reveal_strlit("funnel");
    reveal_strlit("funnel status");
    reveal_strlit("file cp");
    reveal_strlit("file get");
    reveal_strlit("cert");
    reveal_strlit("metrics write");
    reveal_strlit("configure kubeconfig");
    reveal_strlit("syspolicy reload");
    reveal_strlit("drive list");
    reveal_strlit("drive share");
    reveal_strlit("drive rename");
    reveal_strlit("drive unshare");
    reveal_strlit("lock status");
    reveal_strlit("lock log");
    reveal_strlit("lock init");
    reveal_strlit("lock add");
    reveal_strlit("lock remove");
    reveal_strlit("lock sign");
    reveal_strlit("lock disable");
    reveal_strlit("lock disablement-kdf");
    reveal_strlit("lock local-disable");
    reveal_strlit("lock revoke-keys");
    reveal_strlit("debug derp-map");
    reveal_strlit("debug netmap");
    reveal_strlit("debug hostinfo");
    reveal_strlit("debug control-knobs");
    reveal_strlit("debug daemon-goroutines");
    reveal_strlit("debug daemon-bus-graph");
    reveal_strlit("debug daemon-bus-queues");
    reveal_strlit("debug metrics");
    reveal_strlit("debug statedir");
    reveal_strlit("debug go-buildinfo");
    reveal_strlit("debug peer-relay-servers");
    reveal_strlit("debug peer-relay-sessions");
    reveal_strlit("debug stat");
    reveal_strlit("debug via");
    reveal_strlit("debug watch-ipn");
    reveal_strlit("debug peer-endpoint-changes");
    reveal_strlit("debug resolve");
    reveal_strlit("debug dial-types");
    reveal_strlit("debug derp");
    reveal_strlit("debug ts2021");
    reveal_strlit("debug portmap");
    reveal_strlit("debug component-logs");
    reveal_strlit("debug restun");
    reveal_strlit("debug rebind");
    reveal_strlit("debug rotate-disco-key");
    reveal_strlit("debug derp-unset-on-demand");
    reveal_strlit("debug pick-new-derp");
    reveal_strlit("debug force-prefer-derp");
    reveal_strlit("debug force-netmap-update");
    assert forall|i: int, j: int| 0 <= i < 23 && 0 <= j < 87 implies excluded_rows()[i].path@
        != covered_rows()[j].path@ by {
        assert(i == 0 || i == 1 || i == 2 || i == 3 || i == 4 || i == 5 || i == 6 || i == 7 || i == 8 || i == 9 || i == 10 || i == 11 || i == 12 || i == 13 || i == 14 || i == 15 || i == 16 || i == 17 || i == 18 || i == 19 || i == 20 || i == 21 || i == 22);
        assert(j == 0 || j == 1 || j == 2 || j == 3 || j == 4 || j == 5 || j == 6 || j == 7 || j == 8 || j == 9 || j == 10 || j == 11 || j == 12 || j == 13 || j == 14 || j == 15 || j == 16 || j == 17 || j == 18 || j == 19 || j == 20 || j == 21 || j == 22 || j == 23 || j == 24 || j == 25 || j == 26 || j == 27 || j == 28 || j == 29 || j == 30 || j == 31 || j == 32 || j == 33 || j == 34 || j == 35 || j == 36 || j == 37 || j == 38 || j == 39 || j == 40 || j == 41 || j == 42 || j == 43 || j == 44 || j == 45 || j == 46 || j == 47 || j == 48 || j == 49 || j == 50 || j == 51 || j == 52 || j == 53 || j == 54 || j == 55 || j == 56 || j == 57 || j == 58 || j == 59 || j == 60 || j == 61 || j == 62 || j == 63 || j == 64 || j == 65 || j == 66 || j == 67 || j == 68 || j == 69 || j == 70 || j == 71 || j == 72 || j == 73 || j == 74 || j == 75 || j == 76 || j == 77 || j == 78 || j == 79 || j == 80 || j == 81 || j == 82 || j == 83 || j == 84 || j == 85 || j == 86);
        let a = excluded_rows()[i].path@;
        let b = covered_rows()[j].path@;
        if a == b {
            assert(a.len() == b.len());
            assert(a[a.len() - 1] == b[b.len() - 1]);
            assert(a[a.len() - 2] == b[b.len() - 2]);
            assert(a[a.len() - 3] == b[b.len() - 3]);
            assert(a[a.len() - 4] == b[b.len() - 4]);
        }
    }
}



pub open spec fn spaceless(w: Seq<char>) -> bool {
    forall|k: int| 0 <= k < w.len() ==> w[k] != ' '
}

/// Text with no space in it is one piece.
proof fn lemma_one_word(a: Seq<char>)
    requires
        spaceless(a),
    ensures
        split_seq(a, ' ').len() == 1,
{
    assert(!a.contains(' '));
    crate::text::lemma_split_append(seq![], a, ' ');
    assert(Seq::<char>::empty() + a =~= a);
}

/// A space and then a word with no space in it adds one piece.
proof fn lemma_one_more_word(x: Seq<char>, a: Seq<char>)
    requires
        spaceless(a),
    ensures
        split_seq(x + seq![' '] + a, ' ').len() == split_seq(x, ' ').len() + 1,
{
    assert(!a.contains(' '));
    crate::text::lemma_split_separator(x, ' ');
    crate::text::lemma_split_nonempty(x.push(' '), ' ');
    crate::text::lemma_split_append(x.push(' '), a, ' ');
    assert(x + seq![' '] + a =~= x.push(' ') + a);
}

/// The documented refused paths are at most three words.
proof fn lemma_documented_paths_are_short()
    ensures
        forall|i: int| 0 <= i < 9 ==> split_seq((#[trigger] excluded_rows()[i]).path@, ' ').len() <= 3,
{
    assert(split_seq(excluded_rows()[0].path@, ' ').len() <= 3) by {
        reveal_strlit("ssh");
        reveal_strlit("ssh");
        assert(spaceless("ssh"@));
        lemma_one_word("ssh"@);
        assert("ssh"@ =~= excluded_rows()[0].path@);
    }
    assert(split_seq(excluded_rows()[1].path@, ' ').len() <= 3) by {
        reveal_strlit("nc");
        reveal_strlit("nc");
        assert(spaceless("nc"@));
        lemma_one_word("nc"@);
        assert("nc"@ =~= excluded_rows()[1].path@);
    }
    assert(split_seq(excluded_rows()[2].path@, ' ').len() <= 3) by {
        reveal_strlit("web");
        reveal_strlit("web");
        assert(spaceless("web"@));
        lemma_one_word("web"@);
        assert("web"@ =~= excluded_rows()[2].path@);
    }
    assert(split_seq(excluded_rows()[3].path@, ' ').len() <= 3) by {
        reveal_strlit("systray");
        reveal_strlit("systray");
        assert(spaceless("systray"@));
        lemma_one_word("systray"@);
        assert("systray"@ =~= excluded_rows()[3].path@);
    }
    assert(split_seq(excluded_rows()[4].path@, ' ').len() <= 3) by {
        reveal_strlit("update");
        reveal_strlit("update");
        assert(spaceless("update"@));
        lemma_one_word("update"@);
        assert("update"@ =~= excluded_rows()[4].path@);
    }
    assert(split_seq(excluded_rows()[5].path@, ' ').len() <= 3) by {
        reveal_strlit("configure sysext activate");
        reveal_strlit("configure");
        reveal_strlit("sysext");
        reveal_strlit("activate");
        assert(spaceless("configure"@));
        assert(spaceless("sysext"@));
        assert(spaceless("activate"@));
        lemma_one_word("configure"@);
        lemma_one_more_word("configure"@, "sysext"@);
        lemma_one_more_word("configure"@ + seq![' '] + "sysext"@, "activate"@);
        assert("configure"@ + seq![' '] + "sysext"@ + seq![' '] + "activate"@ =~= excluded_rows()[5].path@);
    }
    assert(split_seq(excluded_rows()[6].path@, ' ').len() <= 3) by {
        reveal_strlit("configure sysext deactivate");
        reveal_strlit("configure");
        reveal_strlit("sysext");
        reveal_strlit("deactivate");
        assert(spaceless("configure"@));
        assert(spaceless("sysext"@));
        assert(spaceless("deactivate"@));
        lemma_one_word("configure"@);
        lemma_one_more_word("configure"@, "sysext"@);
        lemma_one_more_word("configure"@ + seq![' '] + "sysext"@, "deactivate"@);
        assert("configure"@ + seq![' '] + "sysext"@ + seq![' '] + "deactivate"@ =~= excluded_rows()[6].path@);
    }
    assert(split_seq(excluded_rows()[7].path@, ' ').len() <= 3) by {
        reveal_strlit("configure mac-vpn install");
        reveal_strlit("configure");
        reveal_strlit("mac-vpn");
        reveal_strlit("install");
        assert(spaceless("configure"@));
        assert(spaceless("mac-vpn"@));
        assert(spaceless("install"@));
        lemma_one_word("configure"@);
        lemma_one_more_word("configure"@, "mac-vpn"@);
        lemma_one_more_word("configure"@ + seq![' '] + "mac-vpn"@, "install"@);
        assert("configure"@ + seq![' '] + "mac-vpn"@ + seq![' '] + "install"@ =~= excluded_rows()[7].path@);
    }
    assert(split_seq(excluded_rows()[8].path@, ' ').len() <= 3) by {
        reveal_strlit("configure mac-vpn uninstall");
        reveal_strlit("configure");
        reveal_strlit("mac-vpn");
        reveal_strlit("uninstall");
        assert(spaceless("configure"@));
        assert(spaceless("mac-vpn"@));
        assert(spaceless("uninstall"@));
        lemma_one_word("configure"@);
        lemma_one_more_word("configure"@, "mac-vpn"@);
        lemma_one_more_word("configure"@ + seq![' '] + "mac-vpn"@, "uninstall"@);
        assert("configure"@ + seq![' '] + "mac-vpn"@ + seq![' '] + "uninstall"@ =~= excluded_rows()[8].path@);
    }
    assert forall|i: int| 0 <= i < 9 implies split_seq((#[trigger] excluded_rows()[i]).path@, ' ').len() <= 3 by {
        assert(i == 0 || i == 1 || i == 2 || i == 3 || i == 4 || i == 5 || i == 6 || i == 7 || i == 8);
    }
}

/// The hidden `debug` refused paths are at most three words.
proof fn lemma_hidden_paths_are_short()
    ensures
        forall|i: int| 9 <= i < 23 ==> split_seq((#[trigger] excluded_rows()[i]).path@, ' ').len() <= 3,
{
    assert(split_seq(excluded_rows()[9].path@, ' ').len() <= 3) by {
        reveal_strlit("debug prefs");
        reveal_strlit("debug");
        reveal_strlit("prefs");
        assert(spaceless("debug"@));
        assert(spaceless("prefs"@));
        lemma_one_word("debug"@);
        lemma_one_more_word("debug"@, "prefs"@);
        assert("debug"@ + seq![' '] + "prefs"@ =~= excluded_rows()[9].path@);
    }
    assert(split_seq(excluded_rows()[10].path@, ' ').len() <= 3) by {
        reveal_strlit("debug local-creds");
        reveal_strlit("debug");
        reveal_strlit("local-creds");
        assert(spaceless("debug"@));
        assert(spaceless("local-creds"@));
        lemma_one_word("debug"@);
        lemma_one_more_word("debug"@, "local-creds"@);
        assert("debug"@ + seq![' '] + "local-creds"@ =~= excluded_rows()[10].path@);
    }
    assert(split_seq(excluded_rows()[11].path@, ' ').len() <= 3) by {
        reveal_strlit("debug env");
        reveal_strlit("debug");
        reveal_strlit("env");
        assert(spaceless("debug"@));
        assert(spaceless("env"@));
        lemma_one_word("debug"@);
        lemma_one_more_word("debug"@, "env"@);
        assert("debug"@ + seq![' '] + "env"@ =~= excluded_rows()[11].path@);
    }
    assert(split_seq(excluded_rows()[12].path@, ' ').len() <= 3) by {
        reveal_strlit("debug localapi");
        reveal_strlit("debug");
        reveal_strlit("localapi");
        assert(spaceless("debug"@));
        assert(spaceless("localapi"@));
        lemma_one_word("debug"@);
        lemma_one_more_word("debug"@, "localapi"@);
        assert("debug"@ + seq![' '] + "localapi"@ =~= excluded_rows()[12].path@);
    }
    assert(split_seq(excluded_rows()[13].path@, ' ').len() <= 3) by {
        reveal_strlit("debug daemon-logs");
        reveal_strlit("debug");
        reveal_strlit("daemon-logs");
        assert(spaceless("debug"@));
        assert(spaceless("daemon-logs"@));
        lemma_one_word("debug"@);
        lemma_one_more_word("debug"@, "daemon-logs"@);
        assert("debug"@ + seq![' '] + "daemon-logs"@ =~= excluded_rows()[13].path@);
    }
    assert(split_seq(excluded_rows()[14].path@, ' ').len() <= 3) by {
        reveal_strlit("debug daemon-bus-events");
        reveal_strlit("debug");
        reveal_strlit("daemon-bus-events");
        assert(spaceless("debug"@));
        assert(spaceless("daemon-bus-events"@));
        lemma_one_word("debug"@);
        lemma_one_more_word("debug"@, "daemon-bus-events"@);
        assert("debug"@ + seq![' '] + "daemon-bus-events"@ =~= excluded_rows()[14].path@);
    }
    assert(split_seq(excluded_rows()[15].path@, ' ').len() <= 3) by {
        reveal_strlit("debug capture");
        reveal_strlit("debug");
        reveal_strlit("capture");
        assert(spaceless("debug"@));
        assert(spaceless("capture"@));
        lemma_one_word("debug"@);
        lemma_one_more_word("debug"@, "capture"@);
        assert("debug"@ + seq![' '] + "capture"@ =~= excluded_rows()[15].path@);
    }
    assert(split_seq(excluded_rows()[16].path@, ' ').len() <= 3) by {
        reveal_strlit("debug test-risk");
        reveal_strlit("debug");
        reveal_strlit("test-risk");
        assert(spaceless("debug"@));
        assert(spaceless("test-risk"@));
        lemma_one_word("debug"@);
        lemma_one_more_word("debug"@, "test-risk"@);
        assert("debug"@ + seq![' '] + "test-risk"@ =~= excluded_rows()[16].path@);
    }
    assert(split_seq(excluded_rows()[17].path@, ' ').len() <= 3) by {
        reveal_strlit("debug set-expire");
        reveal_strlit("debug");
        reveal_strlit("set-expire");
        assert(spaceless("debug"@));
        assert(spaceless("set-expire"@));
        lemma_one_word("debug"@);
        lemma_one_more_word("debug"@, "set-expire"@);
        assert("debug"@ + seq![' '] + "set-expire"@ =~= excluded_rows()[17].path@);
    }
    assert(split_seq(excluded_rows()[18].path@, ' ').len() <= 3) by {
        reveal_strlit("debug break-tcp-conns");
        reveal_strlit("debug");
        reveal_strlit("break-tcp-conns");
        assert(spaceless("debug"@));
        assert(spaceless("break-tcp-conns"@));
        lemma_one_word("debug"@);
        lemma_one_more_word("debug"@, "break-tcp-conns"@);
        assert("debug"@ + seq![' '] + "break-tcp-conns"@ =~= excluded_rows()[18].path@);
    }
    assert(split_seq(excluded_rows()[19].path@, ' ').len() <= 3) by {
        reveal_strlit("debug break-derp-conns");
        reveal_strlit("debug");
        reveal_strlit("break-derp-conns");
        assert(spaceless("debug"@));
        assert(spaceless("break-derp-conns"@));
        lemma_one_word("debug"@);
        lemma_one_more_word("debug"@, "break-derp-conns"@);
        assert("debug"@ + seq![' '] + "break-derp-conns"@ =~= excluded_rows()[19].path@);
    }
    assert(split_seq(excluded_rows()[20].path@, ' ').len() <= 3) by {
        reveal_strlit("debug derp-set-on-demand");
        reveal_strlit("debug");
        reveal_strlit("derp-set-on-demand");
        assert(spaceless("debug"@));
        assert(spaceless("derp-set-on-demand"@));
        lemma_one_word("debug"@);
        lemma_one_more_word("debug"@, "derp-set-on-demand"@);
        assert("debug"@ + seq![' '] + "derp-set-on-demand"@ =~= excluded_rows()[20].path@);
    }
    assert(split_seq(excluded_rows()[21].path@, ' ').len() <= 3) by {
        reveal_strlit("debug clear-netmap-cache");
        reveal_strlit("debug");
        reveal_strlit("clear-netmap-cache");
        assert(spaceless("debug"@));
        assert(spaceless("clear-netmap-cache"@));
        lemma_one_word("debug"@);
        lemma_one_more_word("debug"@, "clear-netmap-cache"@);
        assert("debug"@ + seq![' '] + "clear-netmap-cache"@ =~= excluded_rows()[21].path@);
    }
    assert(split_seq(excluded_rows()[22].path@, ' ').len() <= 3) by {
        reveal_strlit("debug dev-store-set");
        reveal_strlit("debug");
        reveal_strlit("dev-store-set");
        assert(spaceless("debug"@));
        assert(spaceless("dev-store-set"@));
        lemma_one_word("debug"@);
        lemma_one_more_word("debug"@, "dev-store-set"@);
        assert("debug"@ + seq![' '] + "dev-store-set"@ =~= excluded_rows()[22].path@);
    }
    assert forall|i: int| 9 <= i < 23 implies split_seq((#[trigger] excluded_rows()[i]).path@, ' ').len() <= 3 by {
        assert(i == 9 || i == 10 || i == 11 || i == 12 || i == 13 || i == 14 || i == 15 || i == 16 || i == 17 || i == 18 || i == 19 || i == 20 || i == 21 || i == 22);
    }
}

/// Every refused path is at most three words, the depth to which an
/// argument list is read.
proof fn lemma_refused_paths_are_short()
    ensures
        forall|i: int| 0 <= i < 23 ==> split_seq((#[trigger] excluded_rows()[i]).path@, ' ').len() <= 3,
{
    lemma_documented_paths_are_short();
    lemma_hidden_paths_are_short();
}


/// Arguments that are each already a word as the tables write it: not
/// blank, not a flag, trimmed and in lower case.
pub open spec fn plain_words(ws: Seq<Seq<char>>) -> bool {
    forall|i: int|
        0 <= i < ws.len() ==> (#[trigger] ws[i]).len() > 0 && word_of(ws[i]) == ws[i]
            && !is_flag_seq(ws[i])
}

proof fn lemma_plain_leading(ws: Seq<Seq<char>>)
    requires
        plain_words(ws),
    ensures
        leading_words(ws) == ws,
    decreases ws.len(),
{
    if ws.len() > 0 {
        assert(plain_words(ws.drop_first())) by {
            assert forall|i: int| 0 <= i < ws.drop_first().len() implies (#[trigger] ws.drop_first()[i]).len() > 0
                && word_of(ws.drop_first()[i]) == ws.drop_first()[i] && !is_flag_seq(ws.drop_first()[i]) by {
                assert(ws.drop_first()[i] == ws[i + 1]);
            }
        }
        lemma_plain_leading(ws.drop_first());
        assert(ws[0].len() > 0 && word_of(ws[0]) == ws[0] && !is_flag_seq(ws[0]));
        assert(seq![ws[0]] + ws.drop_first() =~= ws);
    }
}

proof fn lemma_plain_every(ws: Seq<Seq<char>>)
    requires
        plain_words(ws),
    ensures
        every_word(ws) == ws,
    decreases ws.len(),
{
    if ws.len() > 0 {
        assert(plain_words(ws.drop_last())) by {
            assert forall|i: int| 0 <= i < ws.drop_last().len() implies (#[trigger] ws.drop_last()[i]).len() > 0
                && word_of(ws.drop_last()[i]) == ws.drop_last()[i] && !is_flag_seq(ws.drop_last()[i]) by {
                assert(ws.drop_last()[i] == ws[i]);
            }
        }
        lemma_plain_every(ws.drop_last());
        assert(ws[ws.len() - 1] == ws.last());
        assert(ws.drop_last().push(ws.last()) =~= ws);
    }
}

proof fn lemma_find_excluded(rows: Seq<Excluded>, path: Seq<char>)
    ensures
        find_excluded(rows, path) matches Some(e) ==> e.path@ == path,
        find_excluded(rows, path) is None <==> forall|i: int|
            0 <= i < rows.len() ==> (#[trigger] rows[i]).path@ != path,
    decreases rows.len(),
{
    if rows.len() > 0 {
        lemma_find_excluded(rows.drop_first(), path);
        if rows[0].path@ != path {
            assert forall|i: int| 0 <= i < rows.len() && (#[trigger] rows[i]).path@ == path implies i > 0 by {}
            if find_excluded(rows, path) is None {
                assert forall|i: int| 0 <= i < rows.len() implies (#[trigger] rows[i]).path@ != path by {
                    if i > 0 {
                        assert(rows[i] == rows.drop_first()[i - 1]);
                    }
                }
            } else {
                let k = choose|k: int| 0 <= k < rows.drop_first().len() && (#[trigger] rows.drop_first()[k]).path@ == path;
                assert(rows[k + 1] == rows.drop_first()[k]);
            }
        }
    }
}

proof fn lemma_find_covered(rows: Seq<Covered>, path: Seq<char>)
    ensures
        find_covered(rows, path) matches Some(c) ==> c.path@ == path,
        find_covered(rows, path) is None <==> forall|i: int|
            0 <= i < rows.len() ==> (#[trigger] rows[i]).path@ != path,
    decreases rows.len(),
{
    if rows.len() > 0 {
        lemma_find_covered(rows.drop_first(), path);
        if rows[0].path@ != path {
            if find_covered(rows, path) is None {
                assert forall|i: int| 0 <= i < rows.len() implies (#[trigger] rows[i]).path@ != path by {
                    if i > 0 {
                        assert(rows[i] == rows.drop_first()[i - 1]);
                    }
                }
            } else {
                let k = choose|k: int| 0 <= k < rows.drop_first().len() && (#[trigger] rows.drop_first()[k]).path@ == path;
                assert(rows[k + 1] == rows.drop_first()[k]);
            }
        }
    }
}

/// A command the tables name reads as itself: its words, given as
/// arguments, are judged by that command's own row, at any depth up to three
/// words, and are neither refused as nameless nor as a command named only in
/// part. So `classify` answers with that path and that row.
pub proof fn a_listed_command_reads_as_itself(ws: Seq<Seq<char>>)
    requires
        1 <= ws.len() <= 3,
        plain_words(ws),
    ensures
        (exists|i: int| 0 <= i < covered_rows().len() && (#[trigger] covered_rows()[i]).path@
            == join_seq(ws, " "@)) ==> {
            &&& !nameless(ws) && !stops_partway(ws)
            &&& chosen_reading(ws).0 == join_seq(ws, " "@)
            &&& chosen_reading(ws).1 matches Known::Covered(c)
            &&& c.path@ == join_seq(ws, " "@)
        },
        (exists|i: int| 0 <= i < excluded_rows().len() && (#[trigger] excluded_rows()[i]).path@
            == join_seq(ws, " "@)) ==> {
            &&& !nameless(ws) && !stops_partway(ws)
            &&& chosen_reading(ws).0 == join_seq(ws, " "@)
            &&& chosen_reading(ws).1 matches Known::Excluded(e)
            &&& e.path@ == join_seq(ws, " "@)
        },
{
    lemma_plain_leading(ws);
    lemma_plain_every(ws);
    assert(ws[0].len() > 0);
    let p = join_seq(ws, " "@);
    assert(ws.take(ws.len() as int) =~= ws);
    assert(start_depth(ws) == ws.len());
    lemma_find_excluded(excluded_rows(), p);
    lemma_find_covered(covered_rows(), p);
    no_refused_command_is_also_covered();
    the_exclusion_list_names_each_command_once();
    if exists|i: int| 0 <= i < covered_rows().len() && (#[trigger] covered_rows()[i]).path@ == p {
        let i = choose|i: int| 0 <= i < covered_rows().len() && (#[trigger] covered_rows()[i]).path@ == p;
        assert forall|j: int| 0 <= j < excluded_rows().len() implies (#[trigger] excluded_rows()[j]).path@ != p by {
            assert(excluded_rows()[j].path@ != covered_rows()[i].path@);
        }
    }
}

} // verus!
