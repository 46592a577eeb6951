//! The tailnet policy file: read, written under a guard, previewed and
//! validated.
//!
//! A write always carries an `If-Match` guard, either the version the caller
//! read or the untouched default, so that it cannot overwrite a change made
//! since.

use vstd::prelude::*;
use crate::registry::{ToolEntry, ToolMeta};
use crate::meta::{Tier, Toolset};

use crate::common::{one_of, listed, views};
use crate::error::{ErrorCode, ToolError, ToolResult};
use crate::text::{cat3, owned, same, trim, trim_seq};

verus! {

/// The media type of a HuJSON policy.
pub const HUJSON: &'static str = "application/hujson";

/// The media type of a JSON policy.
pub const JSON: &'static str = "application/json";

/// The guard that matches only a tailnet's untouched default policy.
pub const DEFAULT_ETAG: &'static str = "ts-default";

/// The two renderings of a policy the endpoint has.
#[derive(Debug, Clone, Copy, PartialEq, Eq, Structural)]
pub enum Format {
    HuJson,
    Json,
}

impl Format {
    pub open spec fn spec_name(self) -> Seq<char> {
        match self {
            Format::HuJson => "hujson"@,
            Format::Json => "json"@,
        }
    }

    pub open spec fn spec_accept(self) -> Seq<char> {
        match self {
            Format::HuJson => HUJSON@,
            Format::Json => JSON@,
        }
    }

    /// The format asked for: HuJSON unless `json` was, and nothing else.
    pub fn parse(given: Option<&str>) -> (r: ToolResult<Format>)
        ensures
            given is None ==> r == Ok::<Format, ToolError>(Format::HuJson),
            given matches Some(g) ==> (r is Ok <==> (g@ == "hujson"@ || g@ == "json"@)),
            given matches Some(g) && g@ == "json"@ ==> (r matches Ok(f) && f == Format::Json),
            given matches Some(g) && g@ == "hujson"@ ==> (r matches Ok(f) && f == Format::HuJson),
            r matches Err(e) ==> e.code == ErrorCode::InvalidArgs,
    {
        match given {
            None => Ok(Format::HuJson),
            Some(value) => {
                let formats: [&str; 2] = ["hujson", "json"];
                let s: &[&str] = &formats;
                assert(views(s@) =~= seq!["hujson"@, "json"@]);
                let v = one_of("format", value, s)?;
                proof {
                    reveal_strlit("hujson");
                    reveal_strlit("json");
                    assert("hujson"@.len() == 6);
                    assert("json"@.len() == 4);
                    assert("hujson"@ != "json"@);
                }
                if same(v.as_str(), "json") {
                    Ok(Format::Json)
                } else {
                    Ok(Format::HuJson)
                }
            },
        }
    }

    /// The media type to ask for.
    pub fn accept(self) -> (r: &'static str)
        ensures
            r@ == self.spec_accept(),
    {
        match self {
            Format::HuJson => HUJSON,
            Format::Json => JSON,
        }
    }

    /// The format as an answer names it.
    pub fn as_str(self) -> (r: &'static str)
        ensures
            r@ == self.spec_name(),
    {
        match self {
            Format::HuJson => "hujson",
            Format::Json => "json",
        }
    }
}

/// How a policy is read.
#[derive(Debug, Default)]
pub struct PolicyGetParams {
    /// `hujson` (the default) or `json`.
    pub format: Option<String>,
    /// Answer with the policy's details as well.
    pub details: Option<bool>,
}

/// A guard in the form `If-Match` compares: in double quotes, added when
/// they are not already there.
pub open spec fn quoted_seq(v: Seq<char>) -> Seq<char> {
    if v.len() >= 2 && v[0] == '"' && v.last() == '"' {
        v
    } else {
        seq!['"'] + v + seq!['"']
    }
}

pub fn quoted(value: &str) -> (r: String)
    ensures
        r@ == quoted_seq(value@),
{
    let x = crate::text::chars_of(value);
    let n = x.len();
    if n >= 2 && x[0] == '"' && x[n - 1] == '"' {
        return owned(value);
    }
    proof {
        reveal_strlit("\"");
    }
    cat3("\"", value, "\"")
}

pub open spec fn both_guards() -> Seq<char> {
    "`etag` and `over_default` say different things: one writes over the version you read, the other only over the untouched default. Give one."@
}

pub open spec fn no_guard() -> Seq<char> {
    "a policy write needs `etag` — the version `tailnet_policy_get` answered with — or `over_default: true` to write only over a tailnet's untouched default policy"@
}

pub open spec fn no_guard_hint() -> Seq<char> {
    "Without one of these the write would overwrite whatever is there, including a change somebody else made since you last read the policy."@
}

/// The `If-Match` guard of a policy write: the version read, or the untouched
/// default. A blank `etag` is no etag. Both at once, or neither, is refused
/// rather than resolved by a rule the caller cannot see.
pub fn if_match(etag: Option<&str>, over_default: bool) -> (r: ToolResult<String>)
    ensures
        ({
            let given = match etag {
                Some(e) => if trim_seq(e@).len() > 0 {
                    Some(trim_seq(e@))
                } else {
                    None
                },
                None => None,
            };
            match given {
                Some(e) => if over_default {
                    r matches Err(err) && err.code == ErrorCode::InvalidArgs && err.message@
                        == both_guards()
                } else {
                    r matches Ok(v) && v@ == quoted_seq(e)
                },
                None => if over_default {
                    r matches Ok(v) && v@ == quoted_seq(DEFAULT_ETAG@)
                } else {
                    r matches Err(err) && err.code == ErrorCode::InvalidArgs && err.message@
                        == no_guard() && (err.hint matches Some(h) && h@ == no_guard_hint())
                },
            }
        }),
{
    let given = match etag {
        Some(e) => {
            let t = trim(e);
            if t.as_str().unicode_len() > 0 {
                Some(t)
            } else {
                None
            }
        },
        None => None,
    };
    match given {
        Some(e) => {
            if over_default {
                Err(
                    ToolError::invalid_args(
                        owned(
                            "`etag` and `over_default` say different things: one writes over the version you read, the other only over the untouched default. Give one.",
                        ),
                    ),
                )
            } else {
                Ok(quoted(e.as_str()))
            }
        },
        None => {
            if over_default {
                Ok(quoted(DEFAULT_ETAG))
            } else {
                Err(
                    ToolError::invalid_args(
                        owned(
                            "a policy write needs `etag` — the version `tailnet_policy_get` answered with — or `over_default: true` to write only over a tailnet's untouched default policy",
                        ),
                    ).with_hint(
                        owned(
                            "Without one of these the write would overwrite whatever is there, including a change somebody else made since you last read the policy.",
                        ),
                    ),
                )
            }
        },
    }
}

/// How a policy document arrived: as HuJSON text, as a policy object, or as
/// something that is neither.
#[derive(Debug, Clone, Copy, PartialEq, Eq, Structural)]
pub enum PolicyShape {
    Text,
    Object,
    Other,
}

pub open spec fn not_a_policy() -> Seq<char> {
    "`policy` is a HuJSON document as a string or a policy object; it is neither"@
}

/// The media type a policy document is sent as, in whichever spelling it
/// came: text as HuJSON, an object as JSON, anything else refused.
pub fn policy_media_type(shape: PolicyShape) -> (r: ToolResult<&'static str>)
    ensures
        shape == PolicyShape::Text ==> (r matches Ok(t) && t@ == HUJSON@),
        shape == PolicyShape::Object ==> (r matches Ok(t) && t@ == JSON@),
        shape == PolicyShape::Other ==> (r matches Err(e) && e.code == ErrorCode::InvalidArgs
            && e.message@ == not_a_policy()),
{
    match shape {
        PolicyShape::Text => Ok(HUJSON),
        PolicyShape::Object => Ok(JSON),
        PolicyShape::Other => Err(
            ToolError::invalid_args(
                owned("`policy` is a HuJSON document as a string or a policy object; it is neither"),
            ),
        ),
    }
}

/// What a validation sends: which mode it is, and the media type of its
/// body. Tests go as JSON.
#[derive(Debug)]
pub struct ValidateRequest {
    pub mode: Validation,
    pub media_type: &'static str,
}

/// The request a validation makes, given whether tests came and how the
/// policy came, if it did. Exactly one of them has to be given, and a policy
/// has to be text or an object.
pub fn validate_request(has_tests: bool, policy: Option<PolicyShape>) -> (r: ToolResult<ValidateRequest>)
    ensures
        has_tests && policy is Some ==> (r matches Err(e) && e.code == ErrorCode::InvalidArgs
            && e.message@ == both_modes()),
        !has_tests && policy is None ==> (r matches Err(e) && e.code == ErrorCode::InvalidArgs
            && e.message@ == no_mode()),
        has_tests && policy is None ==> (r matches Ok(q) && q.mode == Validation::Tests
            && q.media_type@ == JSON@),
        !has_tests && policy == Some(PolicyShape::Text) ==> (r matches Ok(q) && q.mode
            == Validation::Policy && q.media_type@ == HUJSON@),
        !has_tests && policy == Some(PolicyShape::Object) ==> (r matches Ok(q) && q.mode
            == Validation::Policy && q.media_type@ == JSON@),
        !has_tests && policy == Some(PolicyShape::Other) ==> (r matches Err(e) && e.code
            == ErrorCode::InvalidArgs && e.message@ == not_a_policy()),
{
    let mode = validation(has_tests, policy.is_some())?;
    match policy {
        None => Ok(ValidateRequest { mode, media_type: JSON }),
        Some(shape) => {
            let media_type = policy_media_type(shape)?;
            Ok(ValidateRequest { mode, media_type })
        },
    }
}

/// What a validation answers: a pass, naming what was checked, or what the
/// control plane said.
#[derive(Debug)]
pub enum ValidationAnswer<T> {
    Passed { checked: &'static str },
    Found(T),
}

/// The answer to a validation. An empty answer is the endpoint's pass, and
/// is said as one naming what was checked; any other answer is handed back
/// as it came.
pub fn validation_answer<T>(mode: Validation, answer: Option<T>) -> (r: ValidationAnswer<T>)
    ensures
        answer is None ==> (r matches ValidationAnswer::Passed { checked } && checked@
            == mode.spec_checked()),
        answer matches Some(t) ==> r == ValidationAnswer::Found(t),
{
    match answer {
        None => ValidationAnswer::Passed { checked: mode.checked() },
        Some(t) => ValidationAnswer::Found(t),
    }
}

/// What a validation checks: tests against the policy in force, or a policy
/// that is not saved.
#[derive(Debug, Clone, Copy, PartialEq, Eq, Structural)]
pub enum Validation {
    Tests,
    Policy,
}

impl Validation {
    pub open spec fn spec_checked(self) -> Seq<char> {
        match self {
            Validation::Tests => "the tests against the current policy"@,
            Validation::Policy => "the policy given"@,
        }
    }

    /// What an answer says was checked.
    pub fn checked(self) -> (r: &'static str)
        ensures
            r@ == self.spec_checked(),
    {
        match self {
            Validation::Tests => "the tests against the current policy",
            Validation::Policy => "the policy given",
        }
    }
}

pub open spec fn both_modes() -> Seq<char> {
    "`tests` and `policy` are the endpoint's two modes and only one can be sent: `tests` runs against the policy in force, `policy` checks a document that is not saved"@
}

pub open spec fn no_mode() -> Seq<char> {
    "give `tests` to run access tests against the current policy, or `policy` to check a document"@
}

/// Which of the validation endpoint's two modes a call is: exactly one of
/// tests and a policy has to be given.
pub fn validation(has_tests: bool, has_policy: bool) -> (r: ToolResult<Validation>)
    ensures
        has_tests && has_policy ==> (r matches Err(e) && e.code == ErrorCode::InvalidArgs
            && e.message@ == both_modes()),
        !has_tests && !has_policy ==> (r matches Err(e) && e.code == ErrorCode::InvalidArgs
            && e.message@ == no_mode()),
        has_tests && !has_policy ==> r == Ok::<Validation, ToolError>(Validation::Tests),
        !has_tests && has_policy ==> r == Ok::<Validation, ToolError>(Validation::Policy),
{
    if has_tests && has_policy {
        return Err(
            ToolError::invalid_args(
                owned(
                    "`tests` and `policy` are the endpoint's two modes and only one can be sent: `tests` runs against the policy in force, `policy` checks a document that is not saved",
                ),
            ),
        );
    }
    if !has_tests && !has_policy {
        return Err(
            ToolError::invalid_args(
                owned("give `tests` to run access tests against the current policy, or `policy` to check a document"),
            ),
        );
    }
    if has_tests {
        Ok(Validation::Tests)
    } else {
        Ok(Validation::Policy)
    }
}

/// What a policy read asks the control plane for: the detailed report, or
/// the document in one format.
#[derive(Debug, Clone, Copy, PartialEq, Eq, Structural)]
pub enum PolicyRead {
    Details,
    Document(Format),
}

pub open spec fn details_with_format() -> Seq<char> {
    "`details` and `format` cannot be given together: the detailed report is always JSON, and the control plane refuses an `Accept` alongside `details`"@
}

/// How a policy is read: the detailed report when it was asked for, which is
/// always JSON and so takes no format, or the document in the format asked
/// for.
pub fn policy_read(params: &PolicyGetParams) -> (r: ToolResult<PolicyRead>)
    ensures
        params.details == Some(true) && params.format is Some ==> (r matches Err(e) && e.code
            == ErrorCode::InvalidArgs && e.message@ == details_with_format()),
        params.details == Some(true) && params.format is None ==> r == Ok::<PolicyRead, ToolError>(
            PolicyRead::Details,
        ),
        params.details != Some(true) && params.format is None ==> r == Ok::<PolicyRead, ToolError>(
            PolicyRead::Document(Format::HuJson),
        ),
        params.details != Some(true) && params.format is Some ==> (r is Ok <==> (params.format->0@
            == "hujson"@ || params.format->0@ == "json"@)),
        params.format is Some ==> (r matches Ok(PolicyRead::Document(f)) ==> f.spec_name()
            == params.format->0@),
{
    let details = match params.details {
        Some(d) => d,
        None => false,
    };
    if details {
        if params.format.is_some() {
            return Err(
                ToolError::invalid_args(
                    owned(
                        "`details` and `format` cannot be given together: the detailed report is always JSON, and the control plane refuses an `Accept` alongside `details`",
                    ),
                ),
            );
        }
        return Ok(PolicyRead::Details);
    }
    let given = match &params.format {
        Some(f) => Some(f.as_str()),
        None => None,
    };
    let f = Format::parse(given)?;
    Ok(PolicyRead::Document(f))
}


/// Every tool of this toolset, in the order a client lists them.
pub fn entries() -> (r: Vec<ToolEntry>)
    ensures
        r.len() == 4,
        forall|i: int|
            0 <= i < r.len() ==> (#[trigger] r[i]).meta.toolset == Toolset::TailnetPolicy
                && crate::registry::row_ok(r[i]),
{
    proof {
        reveal_strlit("tailnet_");
        reveal_strlit("tailnet_policy_get");
        reveal_strlit("tailnet_policy_set");
        reveal_strlit("tailnet_policy_preview");
        reveal_strlit("tailnet_policy_validate");
    }
    vec![
        ToolEntry {
            meta: ToolMeta {
                name: "tailnet_policy_get",
                summary: "Read the tailnet policy file, with the version identifier a write has to quote back.

Answers `{\"etag\": ..., \"format\": ..., \"policy\": ...}`. `format: \"hujson\"` — the default — gives the document as written, comments and all; `format: \"json\"` gives it parsed, with the comments gone. `details: true` asks instead for the control plane's own report on the document, with the policy base64-encoded beside its warnings and errors.",
                toolset: Toolset::TailnetPolicy,
                tier: Tier::Read,
                idempotent: true,
                requires_confirmation: false,
                self_severing: false,
                varying: false,
                since: None,
            },
        },
        ToolEntry {
            meta: ToolMeta {
                name: "tailnet_policy_set",
                summary: "Replace the whole tailnet policy file.

The highest-impact call on this surface: the policy is what decides who may reach what, and this replaces all of it. Read it first with `tailnet_policy_get`, change what came back, and send it with the `etag` that read gave you — the write is refused without either that or `over_default: true`, which is only for a tailnet whose policy is still the untouched default. A stale `etag` is a conflict: somebody else changed the policy since you read it.

Validate first with `tailnet_policy_validate`, which changes nothing.

Not idempotent, unusually for a replace: the guard makes the second call fail. Once the write lands, the `etag` it was made with is stale and the policy is no longer the untouched default.",
                toolset: Toolset::TailnetPolicy,
                tier: Tier::Destructive,
                idempotent: false,
                requires_confirmation: false,
                self_severing: false,
                varying: false,
                since: None,
            },
        },
        ToolEntry {
            meta: ToolMeta {
                name: "tailnet_policy_preview",
                summary: "Show which rules of a candidate policy would match a user or an address, without saving anything.

`subject_type: \"user\"` with an email address in `preview_for`, or `subject_type: \"ipport\"` with something like `10.0.0.1:80`. Answers the matching rules and the line each is written on.",
                toolset: Toolset::TailnetPolicy,
                tier: Tier::Read,
                idempotent: true,
                requires_confirmation: false,
                self_severing: false,
                varying: false,
                since: None,
            },
        },
        ToolEntry {
            meta: ToolMeta {
                name: "tailnet_policy_validate",
                summary: "Check a policy, or run access tests, without saving anything.

Two things in one endpoint, told apart by what is sent: give `tests` and they run against the policy in force; give `policy` and that document is parsed, checked, and its own `tests` run. An empty answer is a pass, which this reports as `{\"passed\": true}` so that a pass is not an empty result.",
                toolset: Toolset::TailnetPolicy,
                tier: Tier::Read,
                idempotent: true,
                requires_confirmation: false,
                self_severing: false,
                varying: false,
                since: None,
            },
        },
    ]
}



/// A guard always arrives at `If-Match` in double quotes, and quoting one that
/// already has them changes nothing, so an etag is used as it came however
/// often it is passed back.
pub proof fn a_guard_is_quoted_once(value: Seq<char>)
    ensures
        quoted_seq(value).len() >= 2,
        quoted_seq(value)[0] == '"',
        quoted_seq(value).last() == '"',
        quoted_seq(quoted_seq(value)) == quoted_seq(value),
{
}

} // verus!
