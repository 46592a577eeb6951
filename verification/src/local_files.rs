//! The files toolset: everything that reads or writes the local filesystem
//! on the caller's behalf — Taildrop, certificates, metrics, kubeconfig and
//! Taildrive.

use vstd::prelude::*;
use crate::registry::{ToolEntry, ToolMeta};
use crate::meta::{Tier, Toolset};

use crate::common::{
    arg, bounded_wait, command, flag, flag_seq, flag_text, bool_seq, opt_bool, opt_str,
    opt_string_view, opt_text, path_usable, push_bool, push_text, real_path, wait_seconds, GRACE,
};
use crate::error::{ErrorCode, ToolError, ToolResult};
use crate::path_policy::PathPolicy;
use crate::text::{
    cat2, cat3, chars_of, decimal, decimal_text, ends_with, lines_seq, owned, slice, split_seq,
    trim, trim_end_seq, trim_seq,
};

verus! {

// ---------------------------------------------------------------------------
// Budgets
// ---------------------------------------------------------------------------

/// How long a Taildrop transfer may run before the call gives up.
pub const DEFAULT_TRANSFER_TIMEOUT: u64 = 300;

/// How long certificate issuance may run.
pub const DEFAULT_CERT_TIMEOUT: u64 = 120;

/// The most either of them may be asked to wait for.
pub const MAX_LONG_TIMEOUT: u64 = 600;

/// Bound a caller's wait against the cap these longer commands share.
pub fn budget(requested: Option<u64>, default: u64) -> (r: (u64, u64))
    ensures
        r.0 == wait_seconds(requested, default, MAX_LONG_TIMEOUT),
        r.1 == r.0 + GRACE,
{
    bounded_wait(requested, default, MAX_LONG_TIMEOUT)
}

/// Repainting a progress line is for a terminal, so the display is switched
/// off rather than captured.
pub const NO_PROGRESS: &'static str = "--update-interval=0";

/// A tool that takes nothing.
#[derive(Debug, Default)]
pub struct NoParams {}

// ---------------------------------------------------------------------------
// Parameters
// ---------------------------------------------------------------------------

#[derive(Debug, Default)]
pub struct FileCpParams {
    /// Paths on the local filesystem to send. At least one, and none may be `-`.
    pub files: Vec<String>,
    /// The node to send to. A trailing colon is added if it is missing.
    pub target: String,
    /// Deliver under this name instead of the name on disk.
    pub name: Option<String>,
    /// Report each file as it goes.
    pub verbose: Option<bool>,
    /// How long to allow, in seconds. Default 300, capped at 600.
    pub timeout_seconds: Option<u64>,
}

/// What to do about a file in the inbox whose name is already taken in the
/// target directory.
#[derive(Debug, Default, Clone, Copy, PartialEq, Eq, Structural)]
pub enum Conflict {
    /// Leave the conflicting file in the inbox and report it: the client's own
    /// default, and the only one that destroys nothing.
    #[default]
    Skip,
    /// Replace the file already in the directory.
    Overwrite,
    /// Write to a new name with a number appended.
    Rename,
}

impl Conflict {
    pub open spec fn spec_name(self) -> Seq<char> {
        match self {
            Conflict::Skip => "skip"@,
            Conflict::Overwrite => "overwrite"@,
            Conflict::Rename => "rename"@,
        }
    }

    pub fn as_str(self) -> (r: &'static str)
        ensures
            r@ == self.spec_name(),
    {
        match self {
            Conflict::Skip => "skip",
            Conflict::Overwrite => "overwrite",
            Conflict::Rename => "rename",
        }
    }
}

#[derive(Debug, Default)]
pub struct FileGetParams {
    /// The directory to move the waiting files into. It has to exist already.
    pub directory: String,
    /// What to do about a name that is already taken there.
    pub conflict: Conflict,
    /// Report each file as it is moved.
    pub verbose: Option<bool>,
}

#[derive(Debug, Default)]
pub struct CertParams {
    /// The name to certify.
    pub domain: String,
    /// Where to write the certificate. Required, and `-` is refused.
    pub cert_file: String,
    /// Where to write the private key. Required, and `-` is refused: a key
    /// printed to standard output would end up in the answer.
    pub key_file: String,
    /// Renew if the existing certificate has less than this long to run.
    pub min_validity_seconds: Option<u64>,
    /// How long to allow, in seconds. Default 120, capped at 600.
    pub timeout_seconds: Option<u64>,
}

#[derive(Debug, Default)]
pub struct MetricsWriteParams {
    /// The file to write the metrics to. It is replaced, not appended to.
    pub path: String,
}

#[derive(Debug, Default)]
pub struct KubeconfigParams {
    /// The Tailscale hostname or FQDN of the peer running the auth proxy.
    pub hostname: String,
    /// Reach the proxy over plain HTTP.
    pub http: Option<bool>,
}

#[derive(Debug, Default)]
pub struct DriveShareParams {
    /// The name peers will see the share under.
    pub name: String,
    /// The directory to share.
    pub path: String,
}

#[derive(Debug, Default)]
pub struct DriveRenameParams {
    /// The share's current name.
    pub name: String,
    /// The name to give it.
    pub new_name: String,
}

#[derive(Debug, Default)]
pub struct DriveUnshareParams {
    /// The name of the share to withdraw.
    pub name: String,
}

// ---------------------------------------------------------------------------
// Reports
// ---------------------------------------------------------------------------

/// The answer to a call that sent files somewhere.
#[derive(Debug)]
pub struct TransferReport {
    pub target: String,
    pub files: Vec<String>,
    pub delivered_as: Option<String>,
    pub timeout_seconds: u64,
    pub printed: Option<String>,
}

/// One node this one may send files to.
#[derive(Debug, PartialEq, Eq)]
pub struct Target {
    /// The Tailscale address to send to.
    pub address: String,
    /// The node's name.
    pub hostname: String,
    /// What the client noted about it, such as how long it has been offline.
    pub status: Option<String>,
}

#[derive(Debug)]
pub struct TargetsReport {
    pub targets: Vec<Target>,
}

/// The answer to emptying the inbox.
#[derive(Debug)]
pub struct InboxReport {
    pub directory: String,
    pub conflict: String,
    pub printed: Option<String>,
}

/// The answer to issuing a certificate. The material itself is on disk and
/// is deliberately not here.
#[derive(Debug)]
pub struct CertificateReport {
    pub domain: String,
    pub cert_file: String,
    pub key_file: String,
    pub timeout_seconds: u64,
    pub printed: Option<String>,
}

/// The answer to a call that did one thing to one named subject.
#[derive(Debug)]
pub struct OutcomeReport {
    pub subject: String,
    pub outcome: String,
    pub note: Option<String>,
}

/// One directory shared from the local filesystem over Taildrive.
#[derive(Debug, PartialEq, Eq)]
pub struct Share {
    pub name: String,
    pub path: String,
    pub as_user: String,
}

#[derive(Debug)]
pub struct SharesReport {
    pub shares: Vec<Share>,
}

// ---------------------------------------------------------------------------
// Taildrop
// ---------------------------------------------------------------------------

/// The trailing colon `file cp` insists on, added when the caller left it off.
pub open spec fn spec_transfer_target(target: Seq<char>) -> Seq<char> {
    let t = trim_seq(target);
    if t.len() > 0 && t.last() == ':' {
        t
    } else {
        t.push(':')
    }
}

/// A target names its node once: the result always ends in one colon, a
/// target that already ends in one is used as it was trimmed, a colon is
/// added only to one that does not, and naming the planned target again
/// changes nothing.
pub proof fn a_target_names_its_node_once(target: Seq<char>)
    ensures
        spec_transfer_target(target).len() > 0,
        spec_transfer_target(target).last() == ':',
        trim_seq(target).len() > 0 && trim_seq(target).last() == ':' ==> spec_transfer_target(target)
            == trim_seq(target),
        !(trim_seq(target).len() > 0 && trim_seq(target).last() == ':') ==> spec_transfer_target(
            target,
        ).drop_last() == trim_seq(target),
        spec_transfer_target(spec_transfer_target(target)) == spec_transfer_target(target),
{
    let t = trim_seq(target);
    let r = spec_transfer_target(target);
    crate::text::lemma_trim_ends(target);
    if !(t.len() > 0 && t.last() == ':') {
        assert(t.push(':').drop_last() =~= t);
    }
    assert(r.len() > 0 && r.last() == ':');
    assert(!crate::text::is_space(r.last()));
    if t.len() > 0 {
        assert(!crate::text::is_space(r[0])) by {
            assert(r[0] == t[0]);
        }
    } else {
        assert(r =~= seq![':']);
    }
    crate::text::lemma_trim_unchanged(r);
}

pub fn transfer_target(target: &str) -> (r: ToolResult<String>)
    ensures
        r is Ok <==> trim_seq(target@).len() > 0 && trim_seq(target@) != ":"@,
        r matches Ok(t) ==> t@ == spec_transfer_target(target@),
        r matches Err(e) ==> e.code == ErrorCode::InvalidArgs && e.message@
            == "`target` has to name a node"@,
{
    proof {
        reveal_strlit(":");
    }
    let trimmed = trim(target);
    let c = chars_of(trimmed.as_str());
    if c.len() == 0 || (c.len() == 1 && c[0] == ':') {
        if c.len() == 1 {
            assert(trimmed@ =~= ":"@);
        }
        return Err(ToolError::invalid_args(owned("`target` has to name a node")));
    }
    assert(trimmed@ != ":"@) by {
        if trimmed@ == ":"@ {
            assert(trimmed@.len() == 1);
        }
    }
    if c[c.len() - 1] == ':' {
        Ok(trimmed)
    } else {
        let r = cat2(trimmed.as_str(), ":");
        assert(r@ =~= trimmed@.push(':'));
        Ok(r)
    }
}

/// What `file cp` will run: the flags, then every file, then the target,
/// because Go stops reading flags at the first positional.
#[derive(Debug)]
pub struct TransferPlan {
    pub args: Vec<String>,
    /// The files as they were checked, which the answer reports and which a
    /// path policy has to be asked about before anything runs.
    pub files: Vec<String>,
    pub target: String,
    pub seconds: u64,
    pub child_seconds: u64,
}

pub open spec fn all_real(policy: PathPolicy, paths: Seq<Seq<char>>) -> bool {
    forall|i: int| 0 <= i < paths.len() ==> path_usable(policy, #[trigger] paths[i])
}

pub open spec fn trimmed(paths: Seq<Seq<char>>) -> Seq<Seq<char>> {
    paths.map_values(|p: Seq<char>| trim_seq(p))
}

/// Check every path and hand back the trimmed spellings.
pub fn real_paths(policy: &PathPolicy, what: &str, paths: &Vec<String>) -> (r: ToolResult<Vec<String>>)
    ensures
        r is Ok <==> all_real(*policy, paths.deep_view()),
        r matches Ok(v) ==> v.deep_view() == trimmed(paths.deep_view()),
        r matches Err(e) ==> crate::common::first_path_refusal(*policy, what@, paths.deep_view(), e),
{
    let mut out: Vec<String> = Vec::new();
    let mut i: usize = 0;
    while i < paths.len()
        invariant
            i <= paths@.len(),
            all_real(*policy, paths.deep_view().take(i as int)),
            out.deep_view() == trimmed(paths.deep_view().take(i as int)),
        decreases paths.len() - i,
    {
        assert(paths.deep_view()[i as int] == paths[i as int]@);
        let p = match real_path(policy, what, paths[i].as_str()) {
            Ok(v) => v,
            Err(e) => {
                proof {
                    assert forall|j: int| 0 <= j < i implies crate::common::path_usable(*policy, #[trigger] paths.deep_view()[j]) by {
                        assert(paths.deep_view().take(i as int)[j] == paths.deep_view()[j]);
                    }
                    assert(crate::common::path_refusal(*policy, what@, paths.deep_view()[i as int], e));
                }
                return Err(e);
            },
        };
        arg(&mut out, p.as_str());
        assert(paths.deep_view().take(i + 1) =~= paths.deep_view().take(i as int).push(paths[i as int]@));
        assert(trimmed(paths.deep_view().take(i + 1)) =~= trimmed(paths.deep_view().take(i as int)).push(trim_seq(paths[i as int]@)));
        i = i + 1;
    }
    assert(paths.deep_view().take(i as int) =~= paths.deep_view());
    Ok(out)
}

/// Send files over Taildrop: at least one real path, and a node to send to.
pub fn file_cp(policy: &PathPolicy, params: &FileCpParams) -> (r: ToolResult<TransferPlan>)
    ensures
        r is Ok <==> params.files@.len() > 0 && all_real(*policy, params.files.deep_view()) && trim_seq(
            params.target@,
        ).len() > 0 && trim_seq(params.target@) != ":"@,
        r matches Err(e) ==> if params.files@.len() == 0 {
            e.code == ErrorCode::InvalidArgs && e.message@ == "`files` needs at least one path"@
        } else if !all_real(*policy, params.files.deep_view()) {
            crate::common::first_path_refusal(*policy, "files"@, params.files.deep_view(), e)
        } else {
            e.code == ErrorCode::InvalidArgs && e.message@ == "`target` has to name a node"@
        },
        r matches Ok(plan) ==> {
            &&& plan.files.deep_view() == trimmed(params.files.deep_view())
            &&& plan.target@ == spec_transfer_target(params.target@)
            &&& plan.seconds == wait_seconds(
                params.timeout_seconds,
                DEFAULT_TRANSFER_TIMEOUT,
                MAX_LONG_TIMEOUT,
            )
            &&& plan.child_seconds == plan.seconds + GRACE
            &&& plan.args.deep_view() == seq!["file"@, "cp"@, "--update-interval=0"@] + opt_text(
                "name"@,
                opt_string_view(params.name),
            ) + opt_bool("verbose"@, params.verbose) + plan.files.deep_view() + seq![
                plan.target@,
            ]
        },
{
    if params.files.len() == 0 {
        return Err(ToolError::invalid_args(owned("`files` needs at least one path")));
    }
    let files = real_paths(policy, "files", &params.files)?;
    let target = transfer_target(params.target.as_str())?;
    let (seconds, child_seconds) = budget(params.timeout_seconds, DEFAULT_TRANSFER_TIMEOUT);
    let mut args = command(&["file", "cp", NO_PROGRESS]);
    push_text(&mut args, "name", opt_str(&params.name));
    push_bool(&mut args, "verbose", params.verbose);
    crate::common::extend(&mut args, &files);
    arg(&mut args, target.as_str());
    Ok(TransferPlan { args, files, target, seconds, child_seconds })
}

/// `file cp --targets=true`: list the nodes that would accept a file.
pub fn file_targets() -> (r: Vec<String>)
    ensures
        r.deep_view() == seq!["file"@, "cp"@, flag_seq("targets"@, bool_seq(true))],
{
    let mut args = command(&["file", "cp"]);
    let f = flag("targets", true);
    arg(&mut args, f.as_str());
    args
}

pub open spec fn target_view(t: Target) -> (Seq<char>, Seq<char>, Option<Seq<char>>) {
    (t.address@, t.hostname@, opt_string_view(t.status))
}

/// One line of the tab-separated table `file cp --targets` prints: address,
/// name, and for a node that is not up, a note saying so.
pub open spec fn target_row(line: Seq<char>) -> (Seq<char>, Seq<char>, Option<Seq<char>>) {
    let cols = split_seq(trim_end_seq(line), '\t');
    let hostname = if cols.len() > 1 {
        trim_seq(cols[1])
    } else {
        seq![]
    };
    let status = if cols.len() > 2 && trim_seq(cols[2]).len() > 0 {
        Some(trim_seq(cols[2]))
    } else {
        None
    };
    (trim_seq(cols[0]), hostname, status)
}

pub open spec fn target_rows(ls: Seq<Seq<char>>) -> Seq<(Seq<char>, Seq<char>, Option<Seq<char>>)>
    decreases ls.len(),
{
    if ls.len() == 0 {
        seq![]
    } else {
        let before = target_rows(ls.drop_last());
        if trim_seq(trim_end_seq(ls.last())).len() > 0 {
            before.push(target_row(ls.last()))
        } else {
            before
        }
    }
}

fn target_of(line: &str) -> (r: Target)
    ensures
        target_view(r) == target_row(line@),
{
    let end_trimmed = crate::text::trim_end(line);
    let cols = crate::text::split(end_trimmed.as_str(), '\t');
    proof {
        crate::text::lemma_split_nonempty(end_trimmed@, '\t');
    }
    assert(cols.deep_view()[0] == cols[0]@);
    let address = trim(cols[0].as_str());
    let hostname = if cols.len() > 1 {
        assert(cols.deep_view()[1] == cols[1]@);
        trim(cols[1].as_str())
    } else {
        String::new()
    };
    let status = if cols.len() > 2 {
        assert(cols.deep_view()[2] == cols[2]@);
        let s = trim(cols[2].as_str());
        if s.as_str().unicode_len() > 0 {
            Some(s)
        } else {
            None
        }
    } else {
        None
    };
    Target { address, hostname, status }
}

/// The nodes `file cp --targets` listed, in the order it listed them.
pub fn parse_targets(text: &str) -> (r: Vec<Target>)
    ensures
        r@.map_values(|t: Target| target_view(t)) == target_rows(lines_seq(text@)),
{
    let all = crate::text::lines(text);
    let ghost ls = all.deep_view();
    let mut found: Vec<Target> = Vec::new();
    let mut i: usize = 0;
    while i < all.len()
        invariant
            ls == all.deep_view(),
            i <= ls.len(),
            found@.map_values(|t: Target| target_view(t)) == target_rows(ls.take(i as int)),
        decreases all.len() - i,
    {
        assert(ls.take(i + 1).drop_last() =~= ls.take(i as int));
        assert(ls.take(i + 1).last() == all[i as int]@);
        let end_trimmed = crate::text::trim_end(all[i].as_str());
        let whole = trim(end_trimmed.as_str());
        let ghost before = found@;
        if whole.as_str().unicode_len() > 0 {
            found.push(target_of(all[i].as_str()));
            assert(found@.map_values(|t: Target| target_view(t)) =~= before.map_values(
                |t: Target| target_view(t),
            ).push(target_row(all[i as int]@)));
        }
        i = i + 1;
    }
    assert(ls.take(i as int) =~= ls);
    found
}

/// What `file get` will run, and the directory it was checked as.
#[derive(Debug)]
pub struct InboxPlan {
    pub args: Vec<String>,
    pub directory: String,
}

/// Move what is waiting into a directory, naming every flag that would make
/// the call outlive the request switched off.
pub fn file_get(policy: &PathPolicy, params: &FileGetParams) -> (r: ToolResult<InboxPlan>)
    ensures
        r is Ok <==> path_usable(*policy, params.directory@),
        r matches Err(e) ==> crate::common::path_refusal(*policy, "directory"@, params.directory@, e),
        r matches Ok(plan) ==> plan.directory@ == trim_seq(params.directory@)
            && plan.args.deep_view() == seq![
            "file"@,
            "get"@,
            flag_seq("conflict"@, params.conflict.spec_name()),
            flag_seq("wait"@, bool_seq(false)),
            flag_seq("loop"@, bool_seq(false)),
            flag_seq(
                "verbose"@,
                bool_seq(
                    match params.verbose {
                        Some(v) => v,
                        None => false,
                    },
                ),
            ),
            trim_seq(params.directory@),
        ],
{
    let directory = real_path(policy, "directory", params.directory.as_str())?;
    let mut args = command(&["file", "get"]);
    let c = flag_text("conflict", params.conflict.as_str());
    arg(&mut args, c.as_str());
    let w = flag("wait", false);
    arg(&mut args, w.as_str());
    let l = flag("loop", false);
    arg(&mut args, l.as_str());
    let verbose = match params.verbose {
        Some(v) => v,
        None => false,
    };
    let v = flag("verbose", verbose);
    arg(&mut args, v.as_str());
    arg(&mut args, directory.as_str());
    Ok(InboxPlan { args, directory })
}

// ---------------------------------------------------------------------------
// Certificates
// ---------------------------------------------------------------------------

#[derive(Debug)]
pub struct CertPlan {
    pub args: Vec<String>,
    pub cert_file: String,
    pub key_file: String,
    pub seconds: u64,
    pub child_seconds: u64,
}

pub open spec fn is_real(policy: PathPolicy, p: Seq<char>) -> bool {
    path_usable(policy, p)
}

/// Obtain a certificate and write it to two files, neither of which may be
/// standard output: the private key is never printed into the answer.
pub fn cert(policy: &PathPolicy, params: &CertParams) -> (r: ToolResult<CertPlan>)
    ensures
        r is Ok <==> is_real(*policy, params.cert_file@) && is_real(*policy, params.key_file@) && trim_seq(
            params.domain@,
        ).len() > 0,
        r matches Err(e) ==> if !is_real(*policy, params.cert_file@) {
            crate::common::path_refusal(*policy, "cert_file"@, params.cert_file@, e)
        } else if !is_real(*policy, params.key_file@) {
            crate::common::path_refusal(*policy, "key_file"@, params.key_file@, e)
        } else {
            e.code == ErrorCode::InvalidArgs && e.message@ == "`domain` cannot be empty"@
        },
        r matches Ok(plan) ==> {
            &&& plan.cert_file@ == trim_seq(params.cert_file@)
            &&& plan.key_file@ == trim_seq(params.key_file@)
            &&& plan.seconds == wait_seconds(
                params.timeout_seconds,
                DEFAULT_CERT_TIMEOUT,
                MAX_LONG_TIMEOUT,
            )
            &&& plan.child_seconds == plan.seconds + GRACE
            &&& plan.args.deep_view() == seq![
                "cert"@,
                flag_seq("cert-file"@, plan.cert_file@),
                flag_seq("key-file"@, plan.key_file@),
            ] + opt_text(
                "min-validity"@,
                match params.min_validity_seconds {
                    Some(v) => Some(decimal(v as nat) + "s"@),
                    None => None,
                },
            ) + seq![params.domain@]
        },
{
    let cert_file = real_path(policy, "cert_file", params.cert_file.as_str())?;
    let key_file = real_path(policy, "key_file", params.key_file.as_str())?;
    let domain = trim(params.domain.as_str());
    if domain.as_str().unicode_len() == 0 {
        return Err(ToolError::invalid_args(owned("`domain` cannot be empty")));
    }
    let (seconds, child_seconds) = budget(params.timeout_seconds, DEFAULT_CERT_TIMEOUT);
    let mut args = command(&["cert"]);
    let c = flag_text("cert-file", cert_file.as_str());
    arg(&mut args, c.as_str());
    let k = flag_text("key-file", key_file.as_str());
    arg(&mut args, k.as_str());
    let ghost before = args.deep_view();
    if let Some(validity) = params.min_validity_seconds {
        let n = decimal_text(validity);
        let d = cat2(n.as_str(), "s");
        arg(&mut args, flag_text("min-validity", d.as_str()).as_str());
    }
    assert(args.deep_view() =~= before + opt_text(
        "min-validity"@,
        match params.min_validity_seconds {
            Some(v) => Some(decimal(v as nat) + "s"@),
            None => None,
        },
    ));
    arg(&mut args, params.domain.as_str());
    Ok(CertPlan { args, cert_file, key_file, seconds, child_seconds })
}

// ---------------------------------------------------------------------------
// Host configuration
// ---------------------------------------------------------------------------

/// `metrics write <path>`, with the path checked.
pub fn metrics_write(policy: &PathPolicy, params: &MetricsWriteParams) -> (r: ToolResult<Vec<String>>)
    ensures
        r is Ok <==> is_real(*policy, params.path@),
        r matches Err(e) ==> crate::common::path_refusal(*policy, "path"@, params.path@, e),
        r matches Ok(args) ==> args.deep_view() == seq!["metrics"@, "write"@, trim_seq(params.path@)],
{
    let path = real_path(policy, "path", params.path.as_str())?;
    let mut args = command(&["metrics", "write"]);
    arg(&mut args, path.as_str());
    Ok(args)
}

/// `configure kubeconfig`, the flag before the hostname.
pub fn configure_kubeconfig(params: &KubeconfigParams) -> (r: ToolResult<Vec<String>>)
    ensures
        r is Ok <==> trim_seq(params.hostname@).len() > 0,
        r matches Err(e) ==> e.code == ErrorCode::InvalidArgs && e.message@
            == "`hostname` cannot be empty"@,
        r matches Ok(args) ==> args.deep_view() == seq!["configure"@, "kubeconfig"@] + opt_bool(
            "http"@,
            params.http,
        ) + seq![params.hostname@],
{
    if trim(params.hostname.as_str()).as_str().unicode_len() == 0 {
        return Err(ToolError::invalid_args(owned("`hostname` cannot be empty")));
    }
    let mut args = command(&["configure", "kubeconfig"]);
    push_bool(&mut args, "http", params.http);
    arg(&mut args, params.hostname.as_str());
    Ok(args)
}

// ---------------------------------------------------------------------------
// Taildrive
// ---------------------------------------------------------------------------

/// What the client prints when this build does not let the command line
/// configure Taildrive — the macOS GUI packaging, where the application owns
/// the share list.
pub const NO_TAILDRIVE: &'static str = "Taildrive CLI commands are not supported";

pub open spec fn contains_seq(s: Seq<char>, p: Seq<char>) -> bool {
    exists|i: int| crate::text::occurs_at(s, p, i)
}

/// `p` occurs somewhere in `s`.
pub fn contains(s: &str, p: &str) -> (r: bool)
    ensures
        r == contains_seq(s@, p@),
{
    let x = chars_of(s);
    let q = chars_of(p);
    if q.len() > x.len() {
        return false;
    }
    let last = x.len() - q.len();
    let mut i: usize = 0;
    loop
        invariant
            x@ == s@,
            q@ == p@,
            q.len() <= x.len(),
            last == x.len() - q.len(),
            i <= last,
            forall|j: int| 0 <= j < i ==> !#[trigger] crate::text::occurs_at(s@, p@, j),
        decreases last - i,
    {
        if crate::text::occurs_at_exec(&x, &q, i) {
            return true;
        }
        if i == last {
            assert forall|j: int| !#[trigger] crate::text::occurs_at(s@, p@, j) by {
                if j > last as int {
                }
            }
            return false;
        }
        i = i + 1;
    }
}

/// A refusal that is a fact about the build rather than about the request.
pub fn taildrive_unsupported(stderr: &str) -> (r: bool)
    ensures
        r == contains_seq(stderr@, NO_TAILDRIVE@),
{
    contains(stderr, NO_TAILDRIVE)
}


/// Where each column of a padded table starts, counted in characters: a
/// column begins wherever a run of spaces ends.
pub open spec fn starts_of(header: Seq<char>) -> Seq<usize>
    decreases header.len(),
{
    if header.len() == 0 {
        seq![]
    } else {
        let before = starts_of(header.drop_last());
        let i = header.len() - 1;
        let previous = if i == 0 {
            ' '
        } else {
            header[i - 1]
        };
        if previous == ' ' && header[i] != ' ' {
            before.push(i as usize)
        } else {
            before
        }
    }
}

pub fn column_starts(header: &str) -> (r: Vec<usize>)
    ensures
        r@ == starts_of(header@),
{
    let x = chars_of(header);
    let mut starts: Vec<usize> = Vec::new();
    let mut previous = ' ';
    let mut i: usize = 0;
    assert(x@.take(0) =~= Seq::<char>::empty());
    while i < x.len()
        invariant
            x@ == header@,
            i <= x@.len(),
            starts@ == starts_of(x@.take(i as int)),
            previous == (if i == 0 {
                ' '
            } else {
                x@[i - 1]
            }),
        decreases x.len() - i,
    {
        assert(x@.take(i + 1).drop_last() =~= x@.take(i as int));
        assert(x@.take(i + 1)[i as int] == x@[i as int]);
        if i > 0 {
            assert(x@.take(i + 1)[i - 1] == x@[i - 1]);
        }
        let character = x[i];
        if previous == ' ' && character != ' ' {
            starts.push(i);
        }
        previous = character;
        i = i + 1;
    }
    assert(x@.take(i as int) =~= x@);
    starts
}

/// One cell of a row, cut at the offsets its header gave and trimmed. A cell
/// the row is too short to reach is empty.
pub open spec fn cell_of(row: Seq<char>, starts: Seq<usize>, nth: int) -> Seq<char> {
    let from = starts[nth] as int;
    let to = if nth + 1 < starts.len() {
        starts[nth + 1] as int
    } else {
        row.len() as int
    };
    let end = if to < row.len() {
        to
    } else {
        row.len() as int
    };
    if from <= end {
        trim_seq(row.subrange(from, end))
    } else {
        seq![]
    }
}

pub fn cells(row: &str, starts: &Vec<usize>) -> (r: Vec<String>)
    ensures
        r.deep_view() == Seq::new(starts@.len(), |nth: int| cell_of(row@, starts@, nth)),
{
    let x = chars_of(row);
    let mut out: Vec<String> = Vec::new();
    let mut nth: usize = 0;
    while nth < starts.len()
        invariant
            x@ == row@,
            nth <= starts@.len(),
            out.deep_view() == Seq::new(nth as nat, |k: int| cell_of(row@, starts@, k)),
        decreases starts.len() - nth,
    {
        let from = starts[nth];
        let to = if nth + 1 < starts.len() {
            starts[nth + 1]
        } else {
            x.len()
        };
        let end = if to < x.len() {
            to
        } else {
            x.len()
        };
        let cell = if from <= end {
            let piece = slice(row, from, end);
            trim(piece.as_str())
        } else {
            String::new()
        };
        assert(cell@ == cell_of(row@, starts@, nth as int));
        let ghost before = out.deep_view();
        let ghost cv = cell@;
        out.push(cell);
        assert(out.deep_view() =~= before.push(cv));
        assert(out.deep_view() =~= Seq::new((nth + 1) as nat, |k: int| cell_of(row@, starts@, k)));
        nth = nth + 1;
    }
    out
}

pub open spec fn share_view(s: Share) -> (Seq<char>, Seq<char>, Seq<char>) {
    (s.name@, s.path@, s.as_user@)
}

/// The dashes under the header: nothing but dashes and spaces.
pub open spec fn is_rule(row: Seq<char>) -> bool {
    forall|i: int| 0 <= i < row.len() ==> row[i] == '-' || row[i] == ' '
}

pub open spec fn nth_or_empty(cs: Seq<Seq<char>>, n: int) -> Seq<char> {
    if n < cs.len() {
        cs[n]
    } else {
        seq![]
    }
}

pub open spec fn share_of(row: Seq<char>, starts: Seq<usize>) -> (Seq<char>, Seq<char>, Seq<char>) {
    let cs = Seq::new(starts.len(), |nth: int| cell_of(row, starts, nth));
    (nth_or_empty(cs, 0), nth_or_empty(cs, 1), nth_or_empty(cs, 2))
}

pub open spec fn shares_of(rows: Seq<Seq<char>>, starts: Seq<usize>) -> Seq<(Seq<char>, Seq<char>, Seq<char>)>
    decreases rows.len(),
{
    if rows.len() == 0 {
        seq![]
    } else {
        let before = shares_of(rows.drop_last(), starts);
        let row = rows.last();
        if !is_rule(row) && share_of(row, starts).0.len() > 0 {
            before.push(share_of(row, starts))
        } else {
            before
        }
    }
}

/// The lines with something other than white space on them, untrimmed.
pub open spec fn filled_lines(ls: Seq<Seq<char>>) -> Seq<Seq<char>>
    decreases ls.len(),
{
    if ls.len() == 0 {
        seq![]
    } else {
        let before = filled_lines(ls.drop_last());
        if trim_seq(ls.last()).len() > 0 {
            before.push(ls.last())
        } else {
            before
        }
    }
}

/// The shares in the padded table `drive list` prints: a header, a row of
/// dashes, then one row per share, each cut at the offsets the header gives.
pub open spec fn spec_shares(text: Seq<char>) -> Seq<(Seq<char>, Seq<char>, Seq<char>)> {
    let rows = filled_lines(lines_seq(text));
    if rows.len() == 0 {
        seq![]
    } else {
        shares_of(rows.drop_first(), starts_of(rows[0]))
    }
}

fn rule(row: &str) -> (r: bool)
    ensures
        r == is_rule(row@),
{
    let x = chars_of(row);
    let mut i: usize = 0;
    while i < x.len()
        invariant
            x@ == row@,
            i <= x@.len(),
            forall|k: int| 0 <= k < i ==> x@[k] == '-' || x@[k] == ' ',
        decreases x.len() - i,
    {
        if x[i] != '-' && x[i] != ' ' {
            return false;
        }
        i = i + 1;
    }
    true
}

fn filled(all: &Vec<String>) -> (r: Vec<String>)
    ensures
        r.deep_view() == filled_lines(all.deep_view()),
{
    let ghost ls = all.deep_view();
    let mut out: Vec<String> = Vec::new();
    let mut i: usize = 0;
    while i < all.len()
        invariant
            ls == all.deep_view(),
            i <= ls.len(),
            out.deep_view() == filled_lines(ls.take(i as int)),
        decreases all.len() - i,
    {
        assert(ls.take(i + 1).drop_last() =~= ls.take(i as int));
        assert(ls.take(i + 1).last() == all[i as int]@);
        if trim(all[i].as_str()).as_str().unicode_len() > 0 {
            arg(&mut out, all[i].as_str());
        }
        i = i + 1;
    }
    assert(ls.take(i as int) =~= ls);
    out
}

fn take_or_empty(cs: &Vec<String>, n: usize) -> (r: String)
    ensures
        r@ == nth_or_empty(cs.deep_view(), n as int),
{
    if n < cs.len() {
        owned(cs[n].as_str())
    } else {
        String::new()
    }
}

pub fn parse_shares(text: &str) -> (r: Vec<Share>)
    ensures
        r@.map_values(|s: Share| share_view(s)) == spec_shares(text@),
{
    let all = crate::text::lines(text);
    let rows = filled(&all);
    let ghost rv = rows.deep_view();
    if rows.len() == 0 {
        return Vec::new();
    }
    let starts = column_starts(rows[0].as_str());
    let mut shares: Vec<Share> = Vec::new();
    let mut i: usize = 1;
    assert(rv.drop_first().take(0) =~= Seq::<Seq<char>>::empty());
    while i < rows.len()
        invariant
            rv == rows.deep_view(),
            rv.len() > 0,
            starts@ == starts_of(rv[0]),
            1 <= i <= rv.len(),
            shares@.map_values(|s: Share| share_view(s)) == shares_of(
                rv.drop_first().take(i - 1),
                starts@,
            ),
        decreases rows.len() - i,
    {
        let ghost rest = rv.drop_first();
        assert(rest.take(i as int).drop_last() =~= rest.take(i - 1));
        assert(rest.take(i as int).last() == rows[i as int]@);
        let row = rows[i].as_str();
        let ghost before = shares@;
        if !rule(row) {
            let cs = cells(row, &starts);
            let name = take_or_empty(&cs, 0);
            assert(cs.deep_view() =~= Seq::new(starts@.len(), |nth: int| cell_of(row@, starts@, nth)));
            if name.as_str().unicode_len() > 0 {
                let path = take_or_empty(&cs, 1);
                let as_user = take_or_empty(&cs, 2);
                shares.push(Share { name, path, as_user });
                assert(shares@.map_values(|s: Share| share_view(s)) =~= before.map_values(
                    |s: Share| share_view(s),
                ).push(share_of(row@, starts@)));
            }
        }
        i = i + 1;
    }
    assert(rv.drop_first().take(i - 1) =~= rv.drop_first());
    shares
}

/// `drive share <name> <path>`.
pub fn drive_share(policy: &PathPolicy, params: &DriveShareParams) -> (r: ToolResult<Vec<String>>)
    ensures
        r is Ok <==> is_real(*policy, params.path@) && trim_seq(params.name@).len() > 0,
        r matches Err(e) ==> if !is_real(*policy, params.path@) {
            crate::common::path_refusal(*policy, "path"@, params.path@, e)
        } else {
            e.code == ErrorCode::InvalidArgs && e.message@ == "`name` cannot be empty"@
        },
        r matches Ok(args) ==> args.deep_view() == seq![
            "drive"@,
            "share"@,
            params.name@,
            trim_seq(params.path@),
        ],
{
    let path = real_path(policy, "path", params.path.as_str())?;
    if trim(params.name.as_str()).as_str().unicode_len() == 0 {
        return Err(ToolError::invalid_args(owned("`name` cannot be empty")));
    }
    let mut args = command(&["drive", "share"]);
    arg(&mut args, params.name.as_str());
    arg(&mut args, path.as_str());
    Ok(args)
}

/// `drive rename <name> <new_name>`.
pub fn drive_rename(params: &DriveRenameParams) -> (r: ToolResult<Vec<String>>)
    ensures
        r is Ok <==> trim_seq(params.name@).len() > 0 && trim_seq(params.new_name@).len() > 0,
        r matches Err(e) ==> e.code == ErrorCode::InvalidArgs && e.message@
            == "`name` and `new_name` both have to be given"@,
        r matches Ok(args) ==> args.deep_view() == seq![
            "drive"@,
            "rename"@,
            params.name@,
            params.new_name@,
        ],
{
    if trim(params.name.as_str()).as_str().unicode_len() == 0 || trim(
        params.new_name.as_str(),
    ).as_str().unicode_len() == 0 {
        return Err(ToolError::invalid_args(owned("`name` and `new_name` both have to be given")));
    }
    let mut args = command(&["drive", "rename"]);
    arg(&mut args, params.name.as_str());
    arg(&mut args, params.new_name.as_str());
    Ok(args)
}

/// `drive unshare <name>`.
pub fn drive_unshare(params: &DriveUnshareParams) -> (r: ToolResult<Vec<String>>)
    ensures
        r is Ok <==> trim_seq(params.name@).len() > 0,
        r matches Err(e) ==> e.code == ErrorCode::InvalidArgs && e.message@
            == "`name` cannot be empty"@,
        r matches Ok(args) ==> args.deep_view() == seq!["drive"@, "unshare"@, params.name@],
{
    if trim(params.name.as_str()).as_str().unicode_len() == 0 {
        return Err(ToolError::invalid_args(owned("`name` cannot be empty")));
    }
    let mut args = command(&["drive", "unshare"]);
    arg(&mut args, params.name.as_str());
    Ok(args)
}

// ---------------------------------------------------------------------------
// Fixed commands and what the file tools report
// ---------------------------------------------------------------------------

/// `tailscale syspolicy reload --json=true`.
pub fn syspolicy_reload() -> (r: Vec<String>)
    ensures
        r.deep_view() == seq!["syspolicy"@, "reload"@, flag_seq("json"@, bool_seq(true))],
{
    let mut args: Vec<String> = Vec::new();
    arg(&mut args, "syspolicy");
    arg(&mut args, "reload");
    let f = flag("json", true);
    arg(&mut args, f.as_str());
    args
}

/// `tailscale drive list`.
pub fn drive_list() -> (r: Vec<String>)
    ensures
        r.deep_view() == seq!["drive"@, "list"@],
{
    let mut args: Vec<String> = Vec::new();
    arg(&mut args, "drive");
    arg(&mut args, "list");
    args
}

/// What a Taildrive command answers on a node whose client cannot configure
/// Taildrive, with what the client said, trimmed.
pub fn no_taildrive(said: &str) -> (r: ToolError)
    ensures
        r.code == ErrorCode::UnsupportedPlatform,
        r.message@ == "Taildrive is not configurable through the client on this node: "@ + trim_seq(
            said@,
        ),
        r.hint matches Some(h) && h@
            == "Configure Taildrive in the Tailscale application on this node instead."@,
{
    let t = trim(said);
    ToolError::new(
        ErrorCode::UnsupportedPlatform,
        cat2("Taildrive is not configurable through the client on this node: ", t.as_str()),
    ).with_hint(owned("Configure Taildrive in the Tailscale application on this node instead."))
}

/// What a file tool that changes something reports: what it acted on and
/// what is now true.
pub fn outcome_report(subject: String, outcome: String, note: Option<String>) -> (r: OutcomeReport)
    ensures
        r.subject == subject,
        r.outcome == outcome,
        r.note == note,
{
    OutcomeReport { subject, outcome, note }
}

/// What writing the metrics did.
pub fn metrics_outcome() -> (r: String)
    ensures
        r@ == "client metrics written in Prometheus text format"@,
{
    owned("client metrics written in Prometheus text format")
}

/// What adding a cluster to kubectl's configuration did.
pub fn kubeconfig_outcome() -> (r: String)
    ensures
        r@ == "added to the local kubectl configuration"@,
{
    owned("added to the local kubectl configuration")
}

/// What sharing a directory did, naming the directory.
pub fn share_outcome(path: &str) -> (r: String)
    ensures
        r@ == "`"@ + path@ + "` shared with the tailnet over Taildrive"@,
{
    cat3("`", path, "` shared with the tailnet over Taildrive")
}

/// What renaming a share did, naming the new name.
pub fn rename_outcome(new_name: &str) -> (r: String)
    ensures
        r@ == "renamed to `"@ + new_name@ + "`"@,
{
    cat3("renamed to `", new_name, "`")
}

/// What withdrawing a share did.
pub fn unshare_outcome() -> (r: String)
    ensures
        r@ == "no longer shared over Taildrive; the files are untouched"@,
{
    owned("no longer shared over Taildrive; the files are untouched")
}

/// The names of this toolset's tools, in the order of its table.
pub open spec fn tool_names() -> Seq<Seq<char>> {
    seq![
        "tailscale_file_cp"@,
        "tailscale_file_targets"@,
        "tailscale_file_get"@,
        "tailscale_cert"@,
        "tailscale_metrics_write"@,
        "tailscale_configure_kubeconfig"@,
        "tailscale_syspolicy_reload"@,
        "tailscale_drive_list"@,
        "tailscale_drive_share"@,
        "tailscale_drive_rename"@,
        "tailscale_drive_unshare"@,
    ]
}

/// Every tool of this toolset, in the order a client lists them.
pub fn entries() -> (r: Vec<ToolEntry>)
    ensures
        forall|i: int| 0 <= i < r.len() ==> (#[trigger] r[i]).meta.name@ == tool_names()[i],
        r.len() == 11,
        forall|i: int|
            0 <= i < r.len() ==> (#[trigger] r[i]).meta.toolset == Toolset::LocalFiles
                && crate::registry::row_ok(r[i]),
{
    proof {
        reveal_strlit("tailscale_");
        reveal_strlit("tailscale_file_cp");
        reveal_strlit("tailscale_file_targets");
        reveal_strlit("tailscale_file_get");
        reveal_strlit("tailscale_cert");
        reveal_strlit("tailscale_metrics_write");
        reveal_strlit("tailscale_configure_kubeconfig");
        reveal_strlit("tailscale_syspolicy_reload");
        reveal_strlit("tailscale_drive_list");
        reveal_strlit("tailscale_drive_share");
        reveal_strlit("tailscale_drive_rename");
        reveal_strlit("tailscale_drive_unshare");
    }
    vec![
        ToolEntry {
            meta: ToolMeta {
                name: "tailscale_file_cp",
                summary: "Send files from **the local filesystem** to another node over Taildrop. The files are read from the paths given here; the peer takes delivery with `tailscale_file_get` on its own machine. Transfers are slow, so this call allows several minutes.",
                toolset: Toolset::LocalFiles,
                tier: Tier::Write,
                idempotent: false,
                requires_confirmation: false,
                self_severing: false,
                varying: false,
                since: None,
            },
        },
        ToolEntry {
            meta: ToolMeta {
                name: "tailscale_file_targets",
                summary: "List the nodes this one may send files to with `tailscale_file_cp`, with the address and name to use for each. Reads only.",
                toolset: Toolset::LocalFiles,
                tier: Tier::Read,
                idempotent: true,
                requires_confirmation: false,
                self_severing: false,
                varying: false,
                since: None,
            },
        },
        ToolEntry {
            meta: ToolMeta {
                name: "tailscale_file_get",
                summary: "Move files waiting in this node's Taildrop inbox into a directory on **the local filesystem**, emptying the inbox. Returns straight away whether or not anything was waiting: it never blocks for a file to arrive and never runs on in a loop.",
                toolset: Toolset::LocalFiles,
                tier: Tier::Write,
                idempotent: false,
                requires_confirmation: false,
                self_severing: false,
                varying: false,
                since: None,
            },
        },
        ToolEntry {
            meta: ToolMeta {
                name: "tailscale_cert",
                summary: "Obtain a TLS certificate for a name in this tailnet and **write it to two files on the local filesystem**. Both output paths are required, and neither may be `-`: the private key is never printed into the answer. Issuance talks to a certificate authority, so this call allows a minute or two.",
                toolset: Toolset::LocalFiles,
                tier: Tier::Write,
                idempotent: false,
                requires_confirmation: false,
                self_severing: false,
                varying: false,
                since: None,
            },
        },
        ToolEntry {
            meta: ToolMeta {
                name: "tailscale_metrics_write",
                summary: "Write this node's client metrics, in Prometheus text format, to a file on **the local filesystem** — the form a node exporter's textfile collector reads. Use `tailscale_metrics_print` to read the same numbers without writing anything.",
                toolset: Toolset::LocalFiles,
                tier: Tier::Write,
                idempotent: true,
                requires_confirmation: false,
                self_severing: false,
                varying: false,
                since: Some("1.78"),
            },
        },
        ToolEntry {
            meta: ToolMeta {
                name: "tailscale_configure_kubeconfig",
                summary: "Add a context to the **local kubectl configuration file** for a Kubernetes cluster reached through a Tailscale auth proxy running on the named peer. Alpha in the client, and it edits the kubeconfig in place.",
                toolset: Toolset::LocalFiles,
                tier: Tier::Write,
                idempotent: true,
                requires_confirmation: false,
                self_severing: false,
                varying: false,
                since: None,
            },
        },
        ToolEntry {
            meta: ToolMeta {
                name: "tailscale_syspolicy_reload",
                summary: "Reload the local node's MDM and system policy settings even when nothing has changed, and report what the reload produced. Use `tailscale_syspolicy_list` to read the settings without reloading.",
                toolset: Toolset::LocalFiles,
                tier: Tier::Write,
                idempotent: true,
                requires_confirmation: false,
                self_severing: false,
                varying: false,
                since: Some("1.72"),
            },
        },
        ToolEntry {
            meta: ToolMeta {
                name: "tailscale_drive_list",
                summary: "List the directories on **the local filesystem** that Taildrive shares with the tailnet, with the local user each is served as. Reads only.",
                toolset: Toolset::LocalFiles,
                tier: Tier::Read,
                idempotent: true,
                requires_confirmation: false,
                self_severing: false,
                varying: false,
                since: None,
            },
        },
        ToolEntry {
            meta: ToolMeta {
                name: "tailscale_drive_share",
                summary: "Share a directory on **the local filesystem** with the tailnet over Taildrive, under a name peers will see. Sharing the same name and path again changes nothing.",
                toolset: Toolset::LocalFiles,
                tier: Tier::Write,
                idempotent: true,
                requires_confirmation: false,
                self_severing: false,
                varying: false,
                since: None,
            },
        },
        ToolEntry {
            meta: ToolMeta {
                name: "tailscale_drive_rename",
                summary: "Rename an existing Taildrive share. Peers see the new name; the directory on the local filesystem is untouched.",
                toolset: Toolset::LocalFiles,
                tier: Tier::Write,
                idempotent: false,
                requires_confirmation: false,
                self_severing: false,
                varying: false,
                since: None,
            },
        },
        ToolEntry {
            meta: ToolMeta {
                name: "tailscale_drive_unshare",
                summary: "Stop sharing a directory over Taildrive. Every peer loses access at once; the files stay on disk. Restoring it needs `tailscale_drive_share` and the original path.",
                toolset: Toolset::LocalFiles,
                tier: Tier::Destructive,
                idempotent: false,
                requires_confirmation: false,
                self_severing: false,
                varying: false,
                since: None,
            },
        },
    ]
}


} // verus!
