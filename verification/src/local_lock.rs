//! The tools that change the tailnet's trust root.
//!
//! Tailnet lock decides which nodes the tailnet will accept, independently of
//! the control plane: a node is admitted only once a key the tailnet already
//! trusts has signed it. These tools act through this node's own tailnet-lock
//! key.
//!
//! Two kinds of secret pass through here. A node or auth key being signed may
//! be given as `file:<path>`, which the client reads itself; a literal is
//! written to a private file first. A disablement secret has no such form, so
//! `file:<path>` is honoured on the client's behalf by reading the file.
//!
//! `lock init` always passes `--confirm=true`: without it the client reads
//! end-of-file from a standard input a tool call does not have and exits
//! successfully having done nothing.

use vstd::prelude::*;
use crate::registry::{ToolEntry, ToolMeta};
use crate::meta::{Tier, Toolset};

use crate::common::{
    arg, extend, first_of, flag, flag_seq, opt_bool, opt_string_view, opt_text, prefixed_tokens,
    push_bool, push_text, tokens_with_prefix, views,
};
use crate::error::{ErrorCode, ToolError, ToolResult};
use crate::text::{
    cat2, cat3, cat4, decimal, decimal_text, hex, is_hex, owned, slice, starts_with, trim,
    trim_seq, words_seq,
};

verus! {

/// What every tailnet-lock key starts with. Public by design, so unlike
/// everything else here it goes on the argument list as it stands.
pub const KEY_PREFIX: &'static str = "tlpub:";

/// What an auth key starts with, which is how the answer to a `lock sign`
/// tells a signed auth key from a signed node key.
pub const AUTH_KEY_PREFIX: &'static str = "tskey-";

/// The private half of a disablement, as `lock init` mints it.
pub const DISABLEMENT_SECRET_PREFIX: &'static str = "disablement-secret:";

/// The public half, as `lock disablement-kdf` computes it.
pub const DISABLEMENT_VALUE_PREFIX: &'static str = "disablement:";

/// A tool that takes nothing.
#[derive(Debug, Default, Clone, Copy)]
pub struct NoParams {}

// ---------------------------------------------------------------------------
// Parameters
// ---------------------------------------------------------------------------

/// How a lock is first turned on.
#[derive(Debug)]
pub struct LockInitParams {
    /// The tailnet-lock keys to trust initially, each beginning with `tlpub:`.
    pub trusted_keys: Vec<String>,
    /// How many disablement secrets to mint. At least one.
    pub gen_disablements: u32,
    /// Also mint a disablement secret for Tailscale support.
    pub gen_disablement_for_support: bool,
}

impl Default for LockInitParams {
    /// The empty value agrees with the schema: one disablement secret, since
    /// a lock with none is refused.
    fn default() -> (r: Self)
        ensures
            r.trusted_keys@.len() == 0,
            r.gen_disablements == 1,
            !r.gen_disablement_for_support,
    {
        LockInitParams {
            trusted_keys: Vec::new(),
            gen_disablements: 1,
            gen_disablement_for_support: false,
        }
    }
}

/// The tailnet-lock keys to trust.
#[derive(Debug, Default)]
pub struct LockKeysParams {
    pub keys: Vec<String>,
}

/// The tailnet-lock keys to stop trusting.
#[derive(Debug, Default)]
pub struct LockRemoveParams {
    pub keys: Vec<String>,
    /// Re-sign what the removed keys signed. The client's default is to;
    /// `false` locks those nodes out.
    pub re_sign: Option<bool>,
}

/// The key to sign.
#[derive(Debug, Default)]
pub struct LockSignParams {
    /// The node key or pre-approved auth key, or `file:<path>` to one.
    pub key: String,
    /// The rotation key to attach to a node signature, in the same two forms.
    pub rotation_key: Option<String>,
}

/// The disablement secret that turns the lock off.
#[derive(Debug, Default)]
pub struct LockDisableParams {
    pub secret: String,
}

/// The disablement secret whose public half is wanted.
#[derive(Debug, Default)]
pub struct LockDisablementKdfParams {
    pub secret: String,
}

/// One step of a revocation.
#[derive(Debug, Default)]
pub struct LockRevokeKeysParams {
    /// The compromised keys, on the call that starts a revocation.
    pub keys: Vec<String>,
    /// The recovery blob the previous step printed.
    pub recovery_blob: Option<String>,
    /// Co-sign the recovery with this node's key.
    pub cosign: bool,
    /// Transmit the revocation, ending the process.
    pub finish: bool,
    /// The parent AUM hash to rewrite from.
    pub fork_from: Option<String>,
}

// ---------------------------------------------------------------------------
// Reports
// ---------------------------------------------------------------------------

/// What a lock change did to a named set of keys.
#[derive(Debug)]
pub struct LockReport {
    pub outcome: String,
    /// The public keys the call named; empty on a continued revocation.
    pub keys: Vec<String>,
    pub printed: Option<String>,
}

/// What a lock change did where there is no key to name.
#[derive(Debug)]
pub struct StateReport {
    pub outcome: String,
    pub printed: Option<String>,
}

/// What turning the lock on answers, including the secrets it minted: the
/// only time they are offered.
#[derive(Debug)]
pub struct InitReport {
    pub outcome: String,
    pub trusted_keys: Vec<String>,
    pub disablement_secrets: Vec<String>,
    pub gen_disablement_for_support: bool,
    /// The client's own text, kept so that a parse is never the only copy of
    /// something that cannot be minted twice.
    pub printed: Option<String>,
}

/// What a signature answers.
#[derive(Debug)]
pub struct SignReport {
    pub outcome: String,
    /// The signed auth key, when an auth key was what got signed.
    pub signed_auth_key: Option<String>,
    pub printed: Option<String>,
}

/// The public disablement value computed from a secret.
#[derive(Debug)]
pub struct DisablementReport {
    pub disablement_value: String,
    pub note: Option<String>,
}

// ---------------------------------------------------------------------------
// Public keys
// ---------------------------------------------------------------------------

/// The keys given, trimmed, with blank ones dropped.
pub open spec fn kept_keys(ks: Seq<Seq<char>>) -> Seq<Seq<char>>
    decreases ks.len(),
{
    if ks.len() == 0 {
        seq![]
    } else {
        let before = kept_keys(ks.drop_last());
        let t = trim_seq(ks.last());
        if t.len() > 0 {
            before.push(t)
        } else {
            before
        }
    }
}

pub open spec fn is_key(k: Seq<char>) -> bool {
    KEY_PREFIX@.is_prefix_of(k)
}

/// `n` is the first of `ks` that is not a tailnet-lock key.
pub open spec fn first_not_key(ks: Seq<Seq<char>>, n: int) -> bool {
    &&& 0 <= n < ks.len()
    &&& !is_key(ks[n])
    &&& forall|k: int| 0 <= k < n ==> is_key(#[trigger] ks[k])
}

pub open spec fn no_keys(what: Seq<char>) -> Seq<char> {
    "`"@ + what + "` needs at least one tailnet-lock key"@
}

pub open spec fn not_a_key(what: Seq<char>, n: int) -> Seq<char> {
    "value "@ + decimal((n + 1) as nat) + " of `"@ + what + "` is not a tailnet-lock key: they begin with `"@
        + KEY_PREFIX@ + "`"@
}

pub open spec fn own_key_hint() -> Seq<char> {
    "`tailscale_lock_status` reports this node's own tailnet-lock key."@
}

/// Why a list of tailnet-lock keys is refused, if it is: none left once
/// blanks are dropped, or the first one that is not a key, by position.
pub open spec fn keys_refusal(keys: Seq<Seq<char>>, what: Seq<char>) -> Option<Seq<char>> {
    let kept = kept_keys(keys);
    if kept.len() == 0 {
        Some(no_keys(what))
    } else if exists|n: int| first_not_key(kept, n) {
        Some(not_a_key(what, choose|n: int| first_not_key(kept, n)))
    } else {
        None
    }
}

/// A refusal for a wrong key points at where this node's own key is shown.
pub open spec fn keys_hint(keys: Seq<Seq<char>>) -> Option<Seq<char>> {
    if kept_keys(keys).len() == 0 {
        None
    } else {
        Some(own_key_hint())
    }
}

/// Check a list of tailnet-lock keys and hand back the trimmed spellings.
///
/// A rejected key is reported by its position rather than its value: a caller
/// that mistook an auth key for a lock key would otherwise have pasted a
/// secret into an error message.
pub fn public_keys(keys: &Vec<String>, what: &str) -> (r: ToolResult<Vec<String>>)
    ensures
        match keys_refusal(keys.deep_view(), what@) {
            Some(m) => r matches Err(e) && e.code == ErrorCode::InvalidArgs && e.message@ == m
                && opt_string_view(e.hint) == keys_hint(keys.deep_view()),
            None => r matches Ok(v) && v.deep_view() == kept_keys(keys.deep_view()),
        },
{
    let ghost kv = keys.deep_view();
    let mut kept: Vec<String> = Vec::new();
    let mut i: usize = 0;
    while i < keys.len()
        invariant
            kv == keys.deep_view(),
            i <= kv.len(),
            kept.deep_view() == kept_keys(kv.take(i as int)),
        decreases keys.len() - i,
    {
        assert(kv.take(i + 1).drop_last() =~= kv.take(i as int));
        assert(kv.take(i + 1).last() == keys[i as int]@);
        let t = trim(keys[i].as_str());
        if t.as_str().unicode_len() > 0 {
            let ghost before = kept.deep_view();
            kept.push(t);
            assert(kept.deep_view() =~= before.push(trim_seq(keys[i as int]@)));
        }
        i = i + 1;
    }
    assert(kv.take(i as int) =~= kv);
    let ghost kd = kept.deep_view();
    if kept.len() == 0 {
        return Err(ToolError::invalid_args(cat3("`", what, "` needs at least one tailnet-lock key")));
    }
    let mut n: usize = 0;
    while n < kept.len()
        invariant
            kd == kept.deep_view(),
            kv == keys.deep_view(),
            kd == kept_keys(kv),
            n <= kd.len(),
            forall|k: int| 0 <= k < n ==> is_key(#[trigger] kd[k]),
        decreases kept.len() - n,
    {
        if !starts_with(kept[n].as_str(), KEY_PREFIX) {
            assert(first_not_key(kd, n as int));
            proof {
                let m = choose|m: int| first_not_key(kd, m);
                if m < n {
                    assert(is_key(kd[m]));
                } else if m > n {
                    assert(is_key(kd[n as int]));
                }
            }
            let position = decimal_text((n + 1) as u64);
            let message = cat3("value ", position.as_str(), " of `");
            let message = cat4(message.as_str(), what, "` is not a tailnet-lock key: they begin with `", KEY_PREFIX);
            let message = cat2(message.as_str(), "`");
            let error = ToolError::invalid_args(message).with_hint(
                owned("`tailscale_lock_status` reports this node's own tailnet-lock key."),
            );
            return Err(error);
        }
        n = n + 1;
    }
    assert forall|m: int| !first_not_key(kd, m) by {
        if 0 <= m < kd.len() {
            assert(is_key(kd[m]));
        }
    }
    Ok(kept)
}

// ---------------------------------------------------------------------------
// lock init
// ---------------------------------------------------------------------------

pub open spec fn no_way_back() -> Seq<char> {
    "`gen_disablements` has to be at least 1: a lock with no disablement secret can never be turned off"@
}

pub open spec fn init_seq(p: LockInitParams, keys: Seq<Seq<char>>) -> Seq<Seq<char>> {
    seq![
        "lock"@,
        "init"@,
        flag_seq("confirm"@, "true"@),
        flag_seq("gen-disablement-for-support"@, crate::common::bool_seq(p.gen_disablement_for_support)),
        flag_seq("gen-disablements"@, decimal(p.gen_disablements as nat)),
    ] + keys
}

/// What a lock change runs, the keys it names, and the outcome it reports.
pub struct LockPlan {
    pub args: Vec<String>,
    pub keys: Vec<String>,
    pub outcome: String,
}

impl LockPlan {
    /// The answer, with whatever the client printed.
    pub fn answer(self, printed: Option<String>) -> (r: LockReport)
        ensures
            r.outcome == self.outcome,
            r.keys == self.keys,
            r.printed == printed,
    {
        LockReport { outcome: self.outcome, keys: self.keys, printed }
    }
}

/// `tailscale lock init`. The keys are checked, a lock with no way back is
/// refused, and `--confirm=true` is always passed.
pub fn lock_init(params: &LockInitParams) -> (r: ToolResult<LockPlan>)
    ensures
        match keys_refusal(params.trusted_keys.deep_view(), "trusted_keys"@) {
            Some(m) => r matches Err(e) && e.code == ErrorCode::InvalidArgs && e.message@ == m,
            None => if params.gen_disablements == 0 {
                r matches Err(e) && e.code == ErrorCode::InvalidArgs && e.message@ == no_way_back()
            } else {
                r matches Ok(plan) && plan.keys.deep_view() == kept_keys(
                    params.trusted_keys.deep_view(),
                ) && plan.args.deep_view() == init_seq(*params, plan.keys.deep_view())
                    && plan.outcome@ == init_outcome(plan.keys@.len())
            },
        },
{
    let keys = public_keys(&params.trusted_keys, "trusted_keys")?;
    if params.gen_disablements == 0 {
        return Err(
            ToolError::invalid_args(
                owned(
                    "`gen_disablements` has to be at least 1: a lock with no disablement secret can never be turned off",
                ),
            ),
        );
    }
    let mut args: Vec<String> = Vec::new();
    arg(&mut args, "lock");
    arg(&mut args, "init");
    put(&mut args, flag("confirm", true));
    put(&mut args, flag("gen-disablement-for-support", params.gen_disablement_for_support));
    let count = decimal_text(params.gen_disablements as u64);
    put(&mut args, crate::common::flag_text("gen-disablements", count.as_str()));
    extend(&mut args, &keys);
    let outcome = init_outcome_text(keys.len());
    Ok(LockPlan { args, keys, outcome })
}

pub open spec fn init_outcome(n: nat) -> Seq<char> {
    "tailnet lock is enabled for the tailnet, trusting "@ + decimal(n) + " key(s)"@
}

fn init_outcome_text(n: usize) -> (r: String)
    ensures
        r@ == init_outcome(n as nat),
{
    let count = decimal_text(n as u64);
    cat3("tailnet lock is enabled for the tailnet, trusting ", count.as_str(), " key(s)")
}

/// The disablement secrets `lock init` printed, in order.
pub open spec fn minted(stdout: Seq<char>) -> Seq<Seq<char>> {
    prefixed_tokens(words_seq(stdout), seq![DISABLEMENT_SECRET_PREFIX@])
}

/// The answer to a `lock init`, from the plan and what the client printed:
/// every `disablement-secret:` word of standard output, in order.
pub fn init_report(
    plan: LockPlan,
    gen_disablement_for_support: bool,
    stdout: &str,
    printed: Option<String>,
) -> (r: InitReport)
    ensures
        r.outcome == plan.outcome,
        r.trusted_keys == plan.keys,
        r.disablement_secrets.deep_view() == minted(stdout@),
        r.gen_disablement_for_support == gen_disablement_for_support,
        r.printed == printed,
{
    let prefixes: [&str; 1] = [DISABLEMENT_SECRET_PREFIX];
    let slice: &[&str] = &prefixes;
    assert(views(slice@) =~= seq![DISABLEMENT_SECRET_PREFIX@]);
    let secrets = tokens_with_prefix(stdout, slice);
    InitReport {
        outcome: plan.outcome,
        trusted_keys: plan.keys,
        disablement_secrets: secrets,
        gen_disablement_for_support,
        printed,
    }
}

// ---------------------------------------------------------------------------
// lock add / remove
// ---------------------------------------------------------------------------

pub open spec fn add_outcome() -> Seq<char> {
    "tailnet lock now trusts these keys to sign nodes and to change the lock"@
}

/// `tailscale lock add <keys>`.
pub fn lock_add(params: &LockKeysParams) -> (r: ToolResult<LockPlan>)
    ensures
        match keys_refusal(params.keys.deep_view(), "keys"@) {
            Some(m) => r matches Err(e) && e.code == ErrorCode::InvalidArgs && e.message@ == m,
            None => r matches Ok(plan) && plan.keys.deep_view() == kept_keys(params.keys.deep_view())
                && plan.args.deep_view() == seq!["lock"@, "add"@] + plan.keys.deep_view()
                && plan.outcome@ == add_outcome(),
        },
{
    let keys = public_keys(&params.keys, "keys")?;
    let mut args: Vec<String> = Vec::new();
    arg(&mut args, "lock");
    arg(&mut args, "add");
    extend(&mut args, &keys);
    let outcome = owned("tailnet lock now trusts these keys to sign nodes and to change the lock");
    Ok(LockPlan { args, keys, outcome })
}

pub open spec fn remove_outcome(re_sign: Option<bool>) -> Seq<char> {
    if re_sign == Some(false) {
        "tailnet lock no longer trusts these keys, and the nodes they signed are locked out"@
    } else {
        "tailnet lock no longer trusts these keys; the nodes they signed were re-signed and stay admitted"@
    }
}

/// `tailscale lock remove [--re-sign=..] <keys>`. The outcome says whether the
/// nodes those keys admitted stay admitted.
pub fn lock_remove(params: &LockRemoveParams) -> (r: ToolResult<LockPlan>)
    ensures
        match keys_refusal(params.keys.deep_view(), "keys"@) {
            Some(m) => r matches Err(e) && e.code == ErrorCode::InvalidArgs && e.message@ == m,
            None => r matches Ok(plan) && plan.keys.deep_view() == kept_keys(params.keys.deep_view())
                && plan.args.deep_view() == seq!["lock"@, "remove"@] + opt_bool(
                "re-sign"@,
                params.re_sign,
            ) + plan.keys.deep_view() && plan.outcome@ == remove_outcome(params.re_sign),
        },
{
    let keys = public_keys(&params.keys, "keys")?;
    let mut args: Vec<String> = Vec::new();
    arg(&mut args, "lock");
    arg(&mut args, "remove");
    push_bool(&mut args, "re-sign", params.re_sign);
    extend(&mut args, &keys);
    let outcome = if params.re_sign == Some(false) {
        owned("tailnet lock no longer trusts these keys, and the nodes they signed are locked out")
    } else {
        owned(
            "tailnet lock no longer trusts these keys; the nodes they signed were re-signed and stay admitted",
        )
    };
    Ok(LockPlan { args, keys, outcome })
}

// ---------------------------------------------------------------------------
// lock sign
// ---------------------------------------------------------------------------

/// The keys to sign with, trimmed: the key itself, and the rotation key when
/// one was given that is not blank. Each is either a `file:` reference, which
/// goes on the command line as it is, or a literal to be written to a private
/// file whose reference goes there instead.
pub struct SignPlan {
    pub key: String,
    pub rotation_key: Option<String>,
}

pub open spec fn rotation_of(r: Option<String>) -> Option<Seq<char>> {
    match r {
        Some(v) => if trim_seq(v@).len() > 0 {
            Some(trim_seq(v@))
        } else {
            None
        },
        None => None,
    }
}

pub open spec fn empty_key() -> Seq<char> {
    "`key` cannot be empty"@
}

/// The keys a `lock sign` signs with; a blank key is refused.
pub fn lock_sign(params: &LockSignParams) -> (r: ToolResult<SignPlan>)
    ensures
        trim_seq(params.key@).len() == 0 ==> (r matches Err(e) && e.code == ErrorCode::InvalidArgs
            && e.message@ == empty_key()),
        trim_seq(params.key@).len() > 0 ==> (r matches Ok(plan) && plan.key@ == trim_seq(
            params.key@,
        ) && opt_string_view(plan.rotation_key) == rotation_of(params.rotation_key)),
{
    let key = trim(params.key.as_str());
    if key.as_str().unicode_len() == 0 {
        return Err(ToolError::invalid_args(owned("`key` cannot be empty")));
    }
    let rotation_key = match &params.rotation_key {
        Some(v) => {
            let t = trim(v.as_str());
            if t.as_str().unicode_len() > 0 {
                Some(t)
            } else {
                None
            }
        },
        None => None,
    };
    Ok(SignPlan { key, rotation_key })
}

/// `tailscale lock sign <key> [<rotation key>]`, with each key as it will be
/// passed: a `file:` reference, or the reference of the private file a
/// literal was written to.
pub fn sign_args(key: &str, rotation_key: Option<&str>) -> (r: Vec<String>)
    ensures
        r.deep_view() == seq!["lock"@, "sign"@, key@] + match rotation_key {
            Some(k) => seq![k@],
            None => seq![],
        },
{
    let mut args: Vec<String> = Vec::new();
    arg(&mut args, "lock");
    arg(&mut args, "sign");
    arg(&mut args, key);
    if let Some(k) = rotation_key {
        arg(&mut args, k);
    }
    args
}

pub open spec fn signed_key(stdout: Seq<char>) -> Option<Seq<char>> {
    first_of(prefixed_tokens(words_seq(stdout), seq![AUTH_KEY_PREFIX@]))
}

/// The answer to a `lock sign`. Which of the two things the client did is read
/// off what it printed: a `tskey-` word on standard output is a signed auth
/// key, returned whole, and then only the client's commentary on standard
/// error is passed on rather than the text the key was read out of.
pub fn sign_report(stdout: &str, stderr_note: Option<String>, printed: Option<String>) -> (r: SignReport)
    ensures
        opt_string_view(r.signed_auth_key) == signed_key(stdout@),
        signed_key(stdout@) is Some ==> r.outcome@
            == "the auth key is signed and can now bring nodes up under tailnet lock"@ && r.printed
            == stderr_note,
        signed_key(stdout@) is None ==> r.outcome@
            == "the node key is signed and the signature is with the control plane"@ && r.printed
            == printed,
{
    let prefixes: [&str; 1] = [AUTH_KEY_PREFIX];
    let slice: &[&str] = &prefixes;
    assert(views(slice@) =~= seq![AUTH_KEY_PREFIX@]);
    let mut found = tokens_with_prefix(stdout, slice);
    if found.len() > 0 {
        let key = found.swap_remove(0);
        SignReport {
            outcome: owned("the auth key is signed and can now bring nodes up under tailnet lock"),
            signed_auth_key: Some(key),
            printed: stderr_note,
        }
    } else {
        SignReport {
            outcome: owned("the node key is signed and the signature is with the control plane"),
            signed_auth_key: None,
            printed,
        }
    }
}

// ---------------------------------------------------------------------------
// Disablement secrets
// ---------------------------------------------------------------------------

/// Where a disablement secret is: given as it is, or in a file to be read.
#[derive(Debug, PartialEq, Eq)]
pub enum SecretSource {
    Given(String),
    File(String),
}

/// Whether a disablement secret was given or pointed at, refusing a blank one.
pub fn disablement_source(what: &str, value: &str) -> (r: ToolResult<SecretSource>)
    ensures
        trim_seq(value@).len() == 0 ==> (r matches Err(e) && e.code == ErrorCode::InvalidArgs
            && e.message@ == "`"@ + what@ + "` cannot be empty"@),
        trim_seq(value@).len() > 0 && "file:"@.is_prefix_of(trim_seq(value@)) ==> (r matches Ok(
            SecretSource::File(p),
        ) && p@ == trim_seq(value@).skip(5)),
        trim_seq(value@).len() > 0 && !"file:"@.is_prefix_of(trim_seq(value@)) ==> (r matches Ok(
            SecretSource::Given(v),
        ) && v@ == trim_seq(value@)),
{
    let t = trim(value);
    let n = t.as_str().unicode_len();
    if n == 0 {
        return Err(ToolError::invalid_args(cat3("`", what, "` cannot be empty")));
    }
    if starts_with(t.as_str(), "file:") {
        proof {
            reveal_strlit("file:");
        }
        let path = slice(t.as_str(), 5, n);
        assert(t@.subrange(5, n as int) =~= t@.skip(5));
        return Ok(SecretSource::File(path));
    }
    Ok(SecretSource::Given(t))
}

/// A disablement secret read out of the file it was pointed at: the file's
/// text, trimmed, refusing an empty file.
pub fn file_secret(what: &str, text: &str) -> (r: ToolResult<String>)
    ensures
        trim_seq(text@).len() == 0 ==> (r matches Err(e) && e.code == ErrorCode::InvalidArgs
            && e.message@ == "`"@ + what@ + "` names a file with nothing in it"@),
        trim_seq(text@).len() > 0 ==> (r matches Ok(v) && v@ == trim_seq(text@)),
{
    let t = trim(text);
    if t.as_str().unicode_len() == 0 {
        return Err(ToolError::invalid_args(cat3("`", what, "` names a file with nothing in it")));
    }
    Ok(t)
}

pub open spec fn unprefixed_secret() -> Seq<char> {
    "`secret` has to carry its `"@ + DISABLEMENT_SECRET_PREFIX@ + "` or `"@
        + DISABLEMENT_VALUE_PREFIX@
        + "` prefix, which says which half of the disablement it is"@
}

pub open spec fn disable_outcome() -> Seq<char> {
    "tailnet lock is off for the whole tailnet, and the secret that turned it off is now public"@
}

/// `tailscale lock disable <secret>`, for a secret that says which half of
/// the disablement it is.
pub fn lock_disable(secret: &str) -> (r: ToolResult<Vec<String>>)
    ensures
        (DISABLEMENT_SECRET_PREFIX@.is_prefix_of(secret@) || DISABLEMENT_VALUE_PREFIX@.is_prefix_of(
            secret@,
        )) ==> (r matches Ok(v) && v.deep_view() == seq!["lock"@, "disable"@, secret@]),
        !(DISABLEMENT_SECRET_PREFIX@.is_prefix_of(secret@) || DISABLEMENT_VALUE_PREFIX@.is_prefix_of(
            secret@,
        )) ==> (r matches Err(e) && e.code == ErrorCode::InvalidArgs && e.message@
            == unprefixed_secret()),
{
    if !starts_with(secret, DISABLEMENT_SECRET_PREFIX) && !starts_with(secret, DISABLEMENT_VALUE_PREFIX) {
        let message = cat5s(
            "`secret` has to carry its `",
            DISABLEMENT_SECRET_PREFIX,
            "` or `",
            DISABLEMENT_VALUE_PREFIX,
            "` prefix, which says which half of the disablement it is",
        );
        return Err(ToolError::invalid_args(message));
    }
    let mut args: Vec<String> = Vec::new();
    arg(&mut args, "lock");
    arg(&mut args, "disable");
    arg(&mut args, secret);
    Ok(args)
}

fn cat5s(a: &str, b: &str, c: &str, d: &str, e: &str) -> (r: String)
    ensures
        r@ == a@ + b@ + c@ + d@ + e@,
{
    crate::text::cat5(a, b, c, d, e)
}

/// What turning the lock off, or this node's lock, answers.
pub fn state_report(local: bool, printed: Option<String>) -> (r: StateReport)
    ensures
        !local ==> r.outcome@ == disable_outcome(),
        local ==> r.outcome@
            == "this node now accepts traffic from nodes tailnet lock has locked out; the tailnet's lock is untouched"@,
        r.printed == printed,
{
    let outcome = if local {
        owned(
            "this node now accepts traffic from nodes tailnet lock has locked out; the tailnet's lock is untouched",
        )
    } else {
        owned("tailnet lock is off for the whole tailnet, and the secret that turned it off is now public")
    };
    StateReport { outcome, printed }
}

/// `tailscale lock local-disable`.
pub fn lock_local_disable(_params: &NoParams) -> (r: Vec<String>)
    ensures
        r.deep_view() == seq!["lock"@, "local-disable"@],
{
    let mut args: Vec<String> = Vec::new();
    arg(&mut args, "lock");
    arg(&mut args, "local-disable");
    args
}

/// The hex the key derivation takes: the secret without its
/// `disablement-secret:` prefix, when it has one.
pub open spec fn kdf_input(secret: Seq<char>) -> Seq<char> {
    if DISABLEMENT_SECRET_PREFIX@.is_prefix_of(secret) {
        secret.skip(DISABLEMENT_SECRET_PREFIX@.len() as int)
    } else {
        secret
    }
}

pub open spec fn all_hex(s: Seq<char>) -> bool {
    forall|i: int| 0 <= i < s.len() ==> is_hex(#[trigger] s[i])
}

pub open spec fn not_hex() -> Seq<char> {
    "`secret` has to be a hex-encoded disablement secret, with or without its `disablement-secret:` prefix"@
}

pub open spec fn public_half_hint() -> Seq<char> {
    "A `disablement:` value is the public half and is what this computes, not what it takes."@
}

/// The key derivation takes a disablement secret with or without its
/// prefix: bare hex is used as it is, and the same hex with the prefix is
/// used without it, so both spellings ask for the same derivation.
pub proof fn a_secret_is_read_with_or_without_its_prefix(h: Seq<char>)
    requires
        h.len() > 0,
        all_hex(h),
    ensures
        kdf_input(h) == h,
        kdf_input(DISABLEMENT_SECRET_PREFIX@ + h) == h,
{
    reveal_strlit("disablement-secret:");
    if DISABLEMENT_SECRET_PREFIX@.is_prefix_of(h) {
        assert(h[1] == DISABLEMENT_SECRET_PREFIX@[1]);
        assert(is_hex(h[1]));
    }
    let whole = DISABLEMENT_SECRET_PREFIX@ + h;
    assert(DISABLEMENT_SECRET_PREFIX@.is_prefix_of(whole)) by {
        assert(whole.subrange(0, DISABLEMENT_SECRET_PREFIX@.len() as int) =~= DISABLEMENT_SECRET_PREFIX@);
    }
    assert(whole.skip(DISABLEMENT_SECRET_PREFIX@.len() as int) =~= h);
}

/// `tailscale lock disablement-kdf <hex>`. The command wants bare hex while
/// `lock init` mints the prefixed form, so the prefix is taken off here.
pub fn lock_disablement_kdf(secret: &str) -> (r: ToolResult<Vec<String>>)
    ensures
        kdf_input(secret@).len() > 0 && all_hex(kdf_input(secret@)) ==> (r matches Ok(v)
            && v.deep_view() == seq!["lock"@, "disablement-kdf"@, kdf_input(secret@)]),
        !(kdf_input(secret@).len() > 0 && all_hex(kdf_input(secret@))) ==> (r matches Err(e) && e.code
            == ErrorCode::InvalidArgs && e.message@ == not_hex() && (e.hint matches Some(h) && h@
            == public_half_hint())),
{
    let n = secret.unicode_len();
    let input = if starts_with(secret, DISABLEMENT_SECRET_PREFIX) {
        proof {
            reveal_strlit("disablement-secret:");
        }
        let p = DISABLEMENT_SECRET_PREFIX.unicode_len();
        assert(secret@.subrange(p as int, n as int) =~= secret@.skip(p as int));
        slice(secret, p, n)
    } else {
        owned(secret)
    };
    let x = crate::text::chars_of(input.as_str());
    let mut ok = x.len() > 0;
    let mut i: usize = 0;
    while i < x.len()
        invariant
            x@ == input@,
            i <= x@.len(),
            ok == (x@.len() > 0 && forall|k: int| 0 <= k < i ==> is_hex(#[trigger] x@[k])),
        decreases x.len() - i,
    {
        if !hex(x[i]) {
            ok = false;
        }
        i = i + 1;
    }
    if !ok {
        return Err(
            ToolError::invalid_args(
                owned(
                    "`secret` has to be a hex-encoded disablement secret, with or without its `disablement-secret:` prefix",
                ),
            ).with_hint(
                owned(
                    "A `disablement:` value is the public half and is what this computes, not what it takes.",
                ),
            ),
        );
    }
    let mut args: Vec<String> = Vec::new();
    arg(&mut args, "lock");
    arg(&mut args, "disablement-kdf");
    arg(&mut args, input.as_str());
    Ok(args)
}

pub open spec fn kdf_value(stdout: Seq<char>) -> Seq<char> {
    match first_of(prefixed_tokens(words_seq(stdout), seq![DISABLEMENT_VALUE_PREFIX@])) {
        Some(v) => v,
        None => trim_seq(stdout),
    }
}

/// The answer to a key derivation: the first `disablement:` word printed, or
/// all of what was printed, trimmed, when there was none.
pub fn kdf_report(stdout: &str, note: Option<String>) -> (r: DisablementReport)
    ensures
        r.disablement_value@ == kdf_value(stdout@),
        r.note == note,
{
    let prefixes: [&str; 1] = [DISABLEMENT_VALUE_PREFIX];
    let slice: &[&str] = &prefixes;
    assert(views(slice@) =~= seq![DISABLEMENT_VALUE_PREFIX@]);
    let mut found = tokens_with_prefix(stdout, slice);
    let value = if found.len() > 0 {
        found.swap_remove(0)
    } else {
        trim(stdout)
    };
    DisablementReport { disablement_value: value, note }
}

// ---------------------------------------------------------------------------
// lock revoke-keys
// ---------------------------------------------------------------------------

pub open spec fn both_continuations() -> Seq<char> {
    "`cosign` and `finish` are the two ways of continuing a revocation and only one applies to a call: `cosign` on each further signing node, `finish` once there are more co-signatures than keys"@
}

pub open spec fn keys_and_blob() -> Seq<char> {
    "name `keys` to start a revocation or `recovery_blob` to continue one, not both"@
}

pub open spec fn continuation_without_blob() -> Seq<char> {
    "`cosign` and `finish` continue a revocation, so they need the `recovery_blob` the step before printed"@
}

pub open spec fn revoke_outcome(p: LockRevokeKeysParams) -> Seq<char> {
    if p.finish {
        "the keys are revoked: every node they signed has lost its authorisation and has to be signed again"@
    } else if p.cosign {
        "this node has co-signed the revocation; run the printed command on the next signing node, or finish once the co-signatures outnumber the keys"@
    } else {
        "the revocation has begun; run the printed command on the next signing node to co-sign it"@
    }
}

/// The flags every step of a revocation carries.
pub open spec fn revoke_flags(p: LockRevokeKeysParams) -> Seq<Seq<char>> {
    seq!["lock"@, "revoke-keys"@] + (if p.cosign {
        seq![flag_seq("cosign"@, "true"@)]
    } else {
        seq![]
    }) + (if p.finish {
        seq![flag_seq("finish"@, "true"@)]
    } else {
        seq![]
    }) + opt_text("fork-from"@, opt_string_view(p.fork_from))
}

/// One step of `tailscale lock revoke-keys`: the keys on the call that
/// starts it, the recovery blob on each call that continues it. Refused when
/// the step is ambiguous: both continuations at once, keys and a blob
/// together, or a continuation with no blob to continue.
pub fn lock_revoke_keys(params: &LockRevokeKeysParams) -> (r: ToolResult<LockPlan>)
    ensures
        params.cosign && params.finish ==> (r matches Err(e) && e.code == ErrorCode::InvalidArgs
            && e.message@ == both_continuations()),
        !(params.cosign && params.finish) && rotation_of(params.recovery_blob) is Some ==> if params.keys@.len() > 0 {
            r matches Err(e) && e.code == ErrorCode::InvalidArgs && e.message@ == keys_and_blob()
        } else {
            r matches Ok(plan) && plan.keys@.len() == 0 && plan.args.deep_view() == revoke_flags(
                *params,
            ).push(rotation_of(params.recovery_blob)->0) && plan.outcome@ == revoke_outcome(*params)
        },
        !(params.cosign && params.finish) && rotation_of(params.recovery_blob) is None ==> if params.cosign
            || params.finish {
            r matches Err(e) && e.code == ErrorCode::InvalidArgs && e.message@
                == continuation_without_blob()
        } else {
            match keys_refusal(params.keys.deep_view(), "keys"@) {
                Some(m) => r matches Err(e) && e.code == ErrorCode::InvalidArgs && e.message@ == m,
                None => r matches Ok(plan) && plan.keys.deep_view() == kept_keys(
                    params.keys.deep_view(),
                ) && plan.args.deep_view() == revoke_flags(*params) + plan.keys.deep_view()
                    && plan.outcome@ == revoke_outcome(*params),
            }
        },
{
    if params.cosign && params.finish {
        return Err(
            ToolError::invalid_args(
                owned(
                    "`cosign` and `finish` are the two ways of continuing a revocation and only one applies to a call: `cosign` on each further signing node, `finish` once there are more co-signatures than keys",
                ),
            ),
        );
    }
    let mut args: Vec<String> = Vec::new();
    arg(&mut args, "lock");
    arg(&mut args, "revoke-keys");
    if params.cosign {
        put(&mut args, flag("cosign", true));
    }
    if params.finish {
        put(&mut args, flag("finish", true));
    }
    push_text(&mut args, "fork-from", opt_ref(&params.fork_from));
    assert(args.deep_view() =~= revoke_flags(*params));
    let blob = match &params.recovery_blob {
        Some(b) => {
            let t = trim(b.as_str());
            if t.as_str().unicode_len() > 0 {
                Some(t)
            } else {
                None
            }
        },
        None => None,
    };
    assert(opt_string_view(blob) == rotation_of(params.recovery_blob));
    let keys = match blob {
        Some(b) => {
            if params.keys.len() > 0 {
                return Err(
                    ToolError::invalid_args(
                        owned(
                            "name `keys` to start a revocation or `recovery_blob` to continue one, not both",
                        ),
                    ),
                );
            }
            put(&mut args, b);
            Vec::new()
        },
        None => {
            if params.cosign || params.finish {
                return Err(
                    ToolError::invalid_args(
                        owned(
                            "`cosign` and `finish` continue a revocation, so they need the `recovery_blob` the step before printed",
                        ),
                    ),
                );
            }
            let keys = public_keys(&params.keys, "keys")?;
            extend(&mut args, &keys);
            keys
        },
    };
    let outcome = if params.finish {
        owned(
            "the keys are revoked: every node they signed has lost its authorisation and has to be signed again",
        )
    } else if params.cosign {
        owned(
            "this node has co-signed the revocation; run the printed command on the next signing node, or finish once the co-signatures outnumber the keys",
        )
    } else {
        owned("the revocation has begun; run the printed command on the next signing node to co-sign it")
    };
    Ok(LockPlan { args, keys, outcome })
}

fn opt_ref(value: &Option<String>) -> (r: Option<&str>)
    ensures
        crate::common::opt_view(r) == opt_string_view(*value),
{
    match value {
        Some(s) => Some(s.as_str()),
        None => None,
    }
}

/// Add one argument that was built for the purpose.
fn put(args: &mut Vec<String>, value: String)
    ensures
        final(args).deep_view() == old(args).deep_view().push(value@),
{
    let ghost before = args.deep_view();
    args.push(value);
    assert(args.deep_view() =~= before.push(value@));
}

/// Every tool of this toolset, in the order a client lists them.
pub fn entries() -> (r: Vec<ToolEntry>)
    ensures
        r.len() == 8,
        forall|i: int|
            0 <= i < r.len() ==> (#[trigger] r[i]).meta.toolset == Toolset::LocalLock
                && crate::registry::row_ok(r[i]),
{
    proof {
        reveal_strlit("tailscale_");
        reveal_strlit("tailscale_lock_init");
        reveal_strlit("tailscale_lock_add");
        reveal_strlit("tailscale_lock_remove");
        reveal_strlit("tailscale_lock_sign");
        reveal_strlit("tailscale_lock_disable");
        reveal_strlit("tailscale_lock_disablement_kdf");
        reveal_strlit("tailscale_lock_local_disable");
        reveal_strlit("tailscale_lock_revoke_keys");
    }
    vec![
        ToolEntry {
            meta: ToolMeta {
                name: "tailscale_lock_init",
                summary: "Turn on tailnet lock for the whole tailnet, trusting the tailnet-lock keys given here to sign nodes and to make further lock changes. Mints the disablement secrets that are the only way back, and returns them once: store them before answering, because nothing here keeps a copy. Affects every node in the tailnet, so it needs a confirmation as well as the destructive tier.",
                toolset: Toolset::LocalLock,
                tier: Tier::Destructive,
                idempotent: false,
                requires_confirmation: true,
                self_severing: false,
                varying: false,
                since: None,
            },
        },
        ToolEntry {
            meta: ToolMeta {
                name: "tailscale_lock_add",
                summary: "Trust more tailnet-lock keys, so that the nodes holding them can sign nodes and change tailnet lock. Adding a key that is already trusted changes nothing.",
                toolset: Toolset::LocalLock,
                tier: Tier::Write,
                idempotent: true,
                requires_confirmation: false,
                self_severing: false,
                varying: false,
                since: None,
            },
        },
        ToolEntry {
            meta: ToolMeta {
                name: "tailscale_lock_remove",
                summary: "Stop trusting tailnet-lock keys. Signatures those keys made are re-signed by default so that the nodes they admitted stay admitted; turning that off locks those nodes out. Use `tailscale_lock_revoke_keys` instead if a key was compromised.",
                toolset: Toolset::LocalLock,
                tier: Tier::Destructive,
                idempotent: false,
                requires_confirmation: false,
                self_severing: false,
                varying: false,
                since: None,
            },
        },
        ToolEntry {
            meta: ToolMeta {
                name: "tailscale_lock_sign",
                summary: "Sign a node key, admitting that node to a tailnet under lock, or sign a pre-approved auth key so that it can bring nodes up. Give the key directly or as `file:<path>` to a file holding it. A signed auth key is returned once and is not stored.",
                toolset: Toolset::LocalLock,
                tier: Tier::Write,
                idempotent: false,
                requires_confirmation: false,
                self_severing: false,
                varying: false,
                since: None,
            },
        },
        ToolEntry {
            meta: ToolMeta {
                name: "tailscale_lock_disable",
                summary: "Turn tailnet lock off for the whole tailnet by spending one of the disablement secrets minted when it was initialised. The secret is consumed and becomes public; re-enabling the lock means initialising it again from scratch. Needs a confirmation as well as the destructive tier.",
                toolset: Toolset::LocalLock,
                tier: Tier::Destructive,
                idempotent: false,
                requires_confirmation: true,
                self_severing: false,
                varying: false,
                since: None,
            },
        },
        ToolEntry {
            meta: ToolMeta {
                name: "tailscale_lock_disablement_kdf",
                summary: "Compute the public disablement value that corresponds to a disablement secret, without disabling anything and without contacting anything. Local arithmetic on the value given, for checking a stored secret against what `tailscale_lock_status` reports.",
                toolset: Toolset::LocalLock,
                tier: Tier::Read,
                idempotent: true,
                requires_confirmation: false,
                self_severing: false,
                varying: false,
                since: None,
            },
        },
        ToolEntry {
            meta: ToolMeta {
                name: "tailscale_lock_local_disable",
                summary: "Make this node accept traffic from nodes that tailnet lock has locked out. Affects this node only: the tailnet's lock stays on and every other node keeps enforcing it.",
                toolset: Toolset::LocalLock,
                tier: Tier::Destructive,
                idempotent: false,
                requires_confirmation: false,
                self_severing: false,
                varying: false,
                since: None,
            },
        },
        ToolEntry {
            meta: ToolMeta {
                name: "tailscale_lock_revoke_keys",
                summary: "Retroactively revoke compromised tailnet-lock keys, so that every node they signed loses its authorisation and must be signed again. Several signing nodes have to co-sign: start with `keys`, then re-run with the `recovery_blob` the previous step printed and `cosign` on each further node, then once with `finish`. Needs a confirmation as well as the destructive tier.",
                toolset: Toolset::LocalLock,
                tier: Tier::Destructive,
                idempotent: false,
                requires_confirmation: true,
                self_severing: false,
                varying: false,
                since: None,
            },
        },
    ]
}



/// `lock init` is never sent without `--confirm=true`, which is what stops the
/// client from reading a confirmation nobody can type and doing nothing.
pub proof fn initialising_always_confirms(p: LockInitParams, keys: Seq<Seq<char>>)
    ensures
        init_seq(p, keys)[2] == flag_seq("confirm"@, "true"@),
        init_seq(p, keys).len() == 5 + keys.len(),
{
}


/// A refused list of keys is answered with the parameter's name and at most a
/// position, never with a key: a caller who pasted a secret where a lock key
/// belongs does not see it repeated.
pub proof fn a_refusal_never_repeats_a_key(keys: Seq<Seq<char>>, what: Seq<char>)
    ensures
        keys_refusal(keys, what) matches Some(m) ==> m == no_keys(what) || exists|n: int|
            0 <= n < kept_keys(keys).len() && m == not_a_key(what, n),
{
    let kept = kept_keys(keys);
    if kept.len() > 0 && exists|n: int| first_not_key(kept, n) {
        let n = choose|n: int| first_not_key(kept, n);
        assert(0 <= n < kept.len());
    }
}

} // verus!
