//! What a refused or failed call answers with.

use vstd::prelude::*;

verus! {

/// The fixed codes a caller can branch on.
#[derive(Debug, Clone, Copy, PartialEq, Eq, Structural)]
pub enum ErrorCode {
    InvalidArgs,
    NotPermitted,
    ConfirmationRequired,
    UnsupportedPlatform,
    NotFound,
    Timeout,
    CliFailed,
    ApiError,
    RateLimited,
}

impl ErrorCode {
    pub open spec fn spec_name(self) -> Seq<char> {
        match self {
            ErrorCode::InvalidArgs => "invalid_args"@,
            ErrorCode::NotPermitted => "not_permitted"@,
            ErrorCode::ConfirmationRequired => "confirmation_required"@,
            ErrorCode::UnsupportedPlatform => "unsupported_platform"@,
            ErrorCode::NotFound => "not_found"@,
            ErrorCode::Timeout => "timeout"@,
            ErrorCode::CliFailed => "cli_failed"@,
            ErrorCode::ApiError => "api_error"@,
            ErrorCode::RateLimited => "rate_limited"@,
        }
    }

    /// The code as it is written in an answer.
    pub fn as_str(&self) -> (r: &'static str)
        ensures
            r@ == self.spec_name(),
    {
        match self {
            ErrorCode::InvalidArgs => "invalid_args",
            ErrorCode::NotPermitted => "not_permitted",
            ErrorCode::ConfirmationRequired => "confirmation_required",
            ErrorCode::UnsupportedPlatform => "unsupported_platform",
            ErrorCode::NotFound => "not_found",
            ErrorCode::Timeout => "timeout",
            ErrorCode::CliFailed => "cli_failed",
            ErrorCode::ApiError => "api_error",
            ErrorCode::RateLimited => "rate_limited",
        }
    }
}

/// A refusal or a failure: a code, a sentence, and sometimes what to do about
/// it.
#[derive(Debug)]
pub struct ToolError {
    pub code: ErrorCode,
    pub message: String,
    pub hint: Option<String>,
    /// The HTTP status, when the control plane is what refused.
    pub status: Option<u16>,
}

pub type ToolResult<T> = Result<T, ToolError>;

impl ToolError {
    pub fn new(code: ErrorCode, message: String) -> (r: ToolError)
        ensures
            r.code == code,
            r.message@ == message@,
            r.hint is None,
            r.status is None,
    {
        ToolError { code, message, hint: None, status: None }
    }

    pub fn invalid_args(message: String) -> (r: ToolError)
        ensures
            r.code == ErrorCode::InvalidArgs,
            r.message@ == message@,
            r.hint is None,
            r.status is None,
    {
        ToolError::new(ErrorCode::InvalidArgs, message)
    }

    /// The same refusal, with advice on what to do instead.
    pub fn with_hint(self, hint: String) -> (r: ToolError)
        ensures
            r.code == self.code,
            r.message@ == self.message@,
            r.hint matches Some(h) && h@ == hint@,
            r.status == self.status,
    {
        ToolError { code: self.code, message: self.message, hint: Some(hint), status: self.status }
    }

    /// A call above the session's tier: `what` names the operation and
    /// `flag` the server switch that would allow it.
    pub fn not_permitted(what: &str, flag: &str) -> (r: ToolError)
        ensures
            r.code == ErrorCode::NotPermitted,
            r.message@ == "`"@ + what@ + "` needs a session started with `"@ + flag@ + "`"@,
            r.hint matches Some(h) && h@ == "Restart the server with `"@ + flag@ + "` to allow it."@,
            r.status is None,
    {
        let message = crate::text::cat5("`", what, "` needs a session started with `", flag, "`");
        let hint = crate::text::cat3("Restart the server with `", flag, "` to allow it.");
        ToolError::new(ErrorCode::NotPermitted, message).with_hint(hint)
    }

    /// A call whose terms ask the caller to say it meant it.
    pub fn confirmation_required(what: &str, why: &str) -> (r: ToolError)
        ensures
            r.code == ErrorCode::ConfirmationRequired,
            r.message@ == "`"@ + what@ + "` "@ + why@ + ", and this call did not confirm it"@,
            r.hint matches Some(h) && h@ == "Pass `confirm: true` to do it anyway."@,
            r.status is None,
    {
        let message = crate::text::cat5("`", what, "` ", why, ", and this call did not confirm it");
        let hint = crate::text::owned("Pass `confirm: true` to do it anyway.");
        ToolError::new(ErrorCode::ConfirmationRequired, message).with_hint(hint)
    }

    /// A refusal the control plane made, with the HTTP status it answered.
    pub fn api_error(status: u16, message: &str) -> (r: ToolError)
        ensures
            r.code == ErrorCode::ApiError,
            r.message@ == message@,
            r.hint is None,
            r.status == Some(status),
    {
        ToolError::new(ErrorCode::ApiError, crate::text::owned(message)).with_status(status)
    }

    /// The same refusal, recording the HTTP status behind it.
    pub fn with_status(self, status: u16) -> (r: ToolError)
        ensures
            r.code == self.code,
            r.message@ == self.message@,
            r.hint == self.hint,
            r.status == Some(status),
    {
        ToolError { code: self.code, message: self.message, hint: self.hint, status: Some(status) }
    }

    /// The control plane's rate limit, with how long it asked the caller to
    /// wait when it said.
    pub fn rate_limited(retry_after: Option<u64>) -> (r: ToolError)
        ensures
            r.code == ErrorCode::RateLimited,
            r.status == Some(429u16),
            r.message@ == "the control plane is limiting how often this credential may call it"@,
            r.hint matches Some(h) && h@ == match retry_after {
                Some(seconds) => "Wait "@ + crate::text::decimal(seconds as nat)
                    + " seconds before calling again."@,
                None => "Wait a little before calling again."@,
            },
    {
        let message = crate::text::owned("the control plane is limiting how often this credential may call it");
        let hint = match retry_after {
            Some(seconds) => {
                let n = crate::text::decimal_text(seconds);
                crate::text::cat3("Wait ", n.as_str(), " seconds before calling again.")
            },
            None => crate::text::owned("Wait a little before calling again."),
        };
        ToolError::new(ErrorCode::RateLimited, message).with_hint(hint).with_status(429)
    }
}

} // verus!
