//! The library's error type.

use vstd::prelude::*;

verus! {

/// Everything that can go wrong while talking to a screen.
///
/// Variants that stem from a transport, a JSON or an encoding failure keep
/// that failure's message.
#[derive(Debug)]
pub enum LoungeError {
    RequestFailed(String),
    ParseFailed(String),
    UrlEncodingFailed(String),
    NumericParseFailed(String),
    SessionLost,
    TokenExpired,
    ConnectionClosed,
    InvalidResponse(String),
    IoError(String),
    SessionInvalidatedByServer(u16),
    TokenRefreshFailed(Box<LoungeError>),
    TaskJoinError(String),
}

/// The human-readable text of an error.
pub open spec fn error_text(e: LoungeError) -> Seq<char>
    decreases e,
{
    match e {
        LoungeError::RequestFailed(m) => "HTTP request failed: "@ + m@,
        LoungeError::ParseFailed(m) => "JSON parsing failed: "@ + m@,
        LoungeError::UrlEncodingFailed(m) => "URL encoding failed: "@ + m@,
        LoungeError::NumericParseFailed(m) => "Numeric parsing failed: "@ + m@,
        LoungeError::SessionLost => "Session not established or lost (Missing SID/GSID)"@,
        LoungeError::TokenExpired => "Token expired (HTTP 401)"@,
        LoungeError::ConnectionClosed => "Connection explicitly closed or terminated"@,
        LoungeError::InvalidResponse(m) => "Invalid response: "@ + m@,
        LoungeError::IoError(m) => "I/O error: "@ + m@,
        LoungeError::SessionInvalidatedByServer(code) => "Server indicated session is invalid (HTTP "@
            + crate::text::decimal(code as nat) + ")"@,
        LoungeError::TokenRefreshFailed(inner) => "Token refresh failed: "@ + error_text(*inner),
        LoungeError::TaskJoinError(_) => "Task panicked or cancelled"@,
    }
}

/// Whether an error says that the session is gone for good (a full re-bind is needed).
pub open spec fn indicates_session_dead(e: LoungeError) -> bool {
    e is SessionLost || e is SessionInvalidatedByServer || e is ConnectionClosed
}

fn prefixed(prefix: &str, m: &String) -> (r: String)
    ensures
        r@ == prefix@ + m@,
{
    let mut r = prefix.to_string();
    r.append(m.as_str());
    r
}

impl LoungeError {
    /// The error's text, as it is displayed.
    pub fn message(&self) -> (r: String)
        ensures
            r@ == error_text(*self),
        decreases *self,
    {
        match self {
            LoungeError::RequestFailed(m) => prefixed("HTTP request failed: ", m),
            LoungeError::ParseFailed(m) => prefixed("JSON parsing failed: ", m),
            LoungeError::UrlEncodingFailed(m) => prefixed("URL encoding failed: ", m),
            LoungeError::NumericParseFailed(m) => prefixed("Numeric parsing failed: ", m),
            LoungeError::SessionLost => "Session not established or lost (Missing SID/GSID)".to_string(),
            LoungeError::TokenExpired => "Token expired (HTTP 401)".to_string(),
            LoungeError::ConnectionClosed => "Connection explicitly closed or terminated".to_string(),
            LoungeError::InvalidResponse(m) => prefixed("Invalid response: ", m),
            LoungeError::IoError(m) => prefixed("I/O error: ", m),
            LoungeError::SessionInvalidatedByServer(code) => {
                let mut r = "Server indicated session is invalid (HTTP ".to_string();
                let d = crate::text::format_u64(*code as u64);
                r.append(d.as_str());
                r.append(")");
                r
            },
            LoungeError::TokenRefreshFailed(inner) => {
                let m = inner.message();
                prefixed("Token refresh failed: ", &m)
            },
            LoungeError::TaskJoinError(_) => "Task panicked or cancelled".to_string(),
        }
    }

    /// Whether the error says that the session is gone for good.
    pub fn indicates_session_dead(&self) -> (r: bool)
        ensures
            r == indicates_session_dead(*self),
    {
        match self {
            LoungeError::SessionLost | LoungeError::SessionInvalidatedByServer(_)
            | LoungeError::ConnectionClosed => true,
            _ => false,
        }
    }
}

} // verus!
