//! How calls to upstreams end.
use vstd::prelude::*;

verus! {

/// How a call to an upstream ended.
#[derive(Clone, Copy, Debug, PartialEq, Eq, Structural)]
pub enum ErrType {
    Success,
    RateLimited,
    ClientError,
    UpstreamError,
    NetworkError,
}

impl ErrType {
    /// The name under which an outcome is recorded.
    pub open spec fn name(self) -> Seq<char> {
        match self {
            ErrType::Success => "success"@,
            ErrType::RateLimited => "rate_limited"@,
            ErrType::ClientError => "client_error"@,
            ErrType::UpstreamError => "upstream_error"@,
            ErrType::NetworkError => "network_error"@,
        }
    }

    /// The name under which an outcome is recorded.
    pub fn label(self) -> (r: &'static str)
        ensures
            r@ == self.name(),
    {
        match self {
            ErrType::Success => "success",
            ErrType::RateLimited => "rate_limited",
            ErrType::ClientError => "client_error",
            ErrType::UpstreamError => "upstream_error",
            ErrType::NetworkError => "network_error",
        }
    }
}

/// What an upstream's refusal of a key or a failure of its own is taken for.
pub open spec fn upstream_err(code: u16) -> ErrType {
    if code == 429 {
        ErrType::RateLimited
    } else if code == 400 || code == 401 || code == 403 || code == 404 {
        ErrType::ClientError
    } else {
        ErrType::UpstreamError
    }
}

/// Tells what an upstream's refusal of a key or a failure of its own is taken for.
pub fn classify_upstream_err(code: u16) -> (r: ErrType)
    ensures
        r == upstream_err(code),
{
    match code {
        429 => ErrType::RateLimited,
        400 | 401 | 403 | 404 => ErrType::ClientError,
        _ => ErrType::UpstreamError,
    }
}

/// The status under which a chat is recorded. One that brought no reply at all counts
/// as a bad answer of the upstream.
pub open spec fn recorded_code(status: Option<u16>) -> u16 {
    match status {
        Some(code) => code,
        None => 502,
    }
}

/// How a chat ended, by the status of the reply to it.
pub open spec fn chat_outcome(code: u16) -> ErrType {
    if code < 400 {
        ErrType::Success
    } else if code == 429 {
        ErrType::RateLimited
    } else if code >= 500 {
        ErrType::UpstreamError
    } else {
        ErrType::ClientError
    }
}

/// Tells how a chat ended, by the status of the reply to it.
pub fn classify_chat(code: u16) -> (r: ErrType)
    ensures
        r == chat_outcome(code),
{
    if code < 400 {
        ErrType::Success
    } else if code == 429 {
        ErrType::RateLimited
    } else if code >= 500 {
        ErrType::UpstreamError
    } else {
        ErrType::ClientError
    }
}

// ---------------------------------------------------------------------------
// Laws
// ---------------------------------------------------------------------------
/// A refusal for too many calls is one of the rate, four statuses are the client's error,
/// and every other status is the upstream's.
pub proof fn law_upstream_statuses_have_their_class(code: u16)
    ensures
        upstream_err(code) == ErrType::RateLimited <==> code == 429,
        upstream_err(code) == ErrType::ClientError <==> code == 400 || code == 401 || code == 403
            || code == 404,
        upstream_err(code) == ErrType::UpstreamError <==> code != 429 && code != 400 && code != 401
            && code != 403 && code != 404,
{
}

/// A chat succeeds below 400; above that 429 is one of the rate, the rest up to 499 the
/// client's error, and all from 500 on the upstream's. Without a reply it counts as 502.
pub proof fn law_chats_have_their_class(code: u16)
    ensures
        chat_outcome(code) == ErrType::Success <==> code <= 399,
        chat_outcome(code) == ErrType::RateLimited <==> code == 429,
        chat_outcome(code) == ErrType::ClientError <==> 400 <= code <= 499 && code != 429,
        chat_outcome(code) == ErrType::UpstreamError <==> code >= 500,
        recorded_code(Some(code)) == code,
        recorded_code(None) == 502,
{
}

/// Each outcome is recorded under its own name.
pub proof fn law_outcomes_have_their_names()
    ensures
        ErrType::Success.name() == "success"@,
        ErrType::RateLimited.name() == "rate_limited"@,
        ErrType::ClientError.name() == "client_error"@,
        ErrType::UpstreamError.name() == "upstream_error"@,
        ErrType::NetworkError.name() == "network_error"@,
{
}

} // verus!
