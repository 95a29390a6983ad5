//! Error codes shared with the resolver and the front end, the application
//! error that carries one, and the conversion of a resolver response into a
//! result.

use vstd::prelude::*;
use crate::text::{str_eq, to_owned_string};

verus! {

/// Error code shared by every layer.
#[derive(Debug, Clone, Copy, PartialEq, Eq, Structural, Hash)]
pub enum ErrorCode {
    NetworkTimeout,
    NetworkError,
    RateLimited,
    ProxyError,
    CookieExpired,
    CookieInvalid,
    LoginRequired,
    VideoNotFound,
    UserNotFound,
    ContentDeleted,
    SignatureError,
    ParseError,
    DatabaseError,
    FileSystemError,
    ConfigError,
    Unknown,
}

/// The snake-case name of a code, as it travels between layers.
pub open spec fn code_name(c: ErrorCode) -> Seq<char> {
    match c {
        ErrorCode::NetworkTimeout => "network_timeout"@,
        ErrorCode::NetworkError => "network_error"@,
        ErrorCode::RateLimited => "rate_limited"@,
        ErrorCode::ProxyError => "proxy_error"@,
        ErrorCode::CookieExpired => "cookie_expired"@,
        ErrorCode::CookieInvalid => "cookie_invalid"@,
        ErrorCode::LoginRequired => "login_required"@,
        ErrorCode::VideoNotFound => "video_not_found"@,
        ErrorCode::UserNotFound => "user_not_found"@,
        ErrorCode::ContentDeleted => "content_deleted"@,
        ErrorCode::SignatureError => "signature_error"@,
        ErrorCode::ParseError => "parse_error"@,
        ErrorCode::DatabaseError => "database_error"@,
        ErrorCode::FileSystemError => "file_system_error"@,
        ErrorCode::ConfigError => "config_error"@,
        ErrorCode::Unknown => "unknown"@,
    }
}

/// The code a resolver's code string stands for: the network, auth and
/// business codes by name, anything else `Unknown`.
pub open spec fn parsed_code(s: Seq<char>) -> ErrorCode {
    if s == "network_timeout"@ {
        ErrorCode::NetworkTimeout
    } else if s == "network_error"@ {
        ErrorCode::NetworkError
    } else if s == "rate_limited"@ {
        ErrorCode::RateLimited
    } else if s == "proxy_error"@ {
        ErrorCode::ProxyError
    } else if s == "cookie_expired"@ {
        ErrorCode::CookieExpired
    } else if s == "cookie_invalid"@ {
        ErrorCode::CookieInvalid
    } else if s == "login_required"@ {
        ErrorCode::LoginRequired
    } else if s == "video_not_found"@ {
        ErrorCode::VideoNotFound
    } else if s == "user_not_found"@ {
        ErrorCode::UserNotFound
    } else if s == "content_deleted"@ {
        ErrorCode::ContentDeleted
    } else if s == "signature_error"@ {
        ErrorCode::SignatureError
    } else if s == "parse_error"@ {
        ErrorCode::ParseError
    } else {
        ErrorCode::Unknown
    }
}

impl ErrorCode {
    /// The snake-case name of the code.
    pub fn name(&self) -> (res: &'static str)
        ensures
            res@ == code_name(*self),
    {
        match self {
            ErrorCode::NetworkTimeout => "network_timeout",
            ErrorCode::NetworkError => "network_error",
            ErrorCode::RateLimited => "rate_limited",
            ErrorCode::ProxyError => "proxy_error",
            ErrorCode::CookieExpired => "cookie_expired",
            ErrorCode::CookieInvalid => "cookie_invalid",
            ErrorCode::LoginRequired => "login_required",
            ErrorCode::VideoNotFound => "video_not_found",
            ErrorCode::UserNotFound => "user_not_found",
            ErrorCode::ContentDeleted => "content_deleted",
            ErrorCode::SignatureError => "signature_error",
            ErrorCode::ParseError => "parse_error",
            ErrorCode::DatabaseError => "database_error",
            ErrorCode::FileSystemError => "file_system_error",
            ErrorCode::ConfigError => "config_error",
            ErrorCode::Unknown => "unknown",
        }
    }
}

/// Reads a resolver's code string.
pub fn parse_error_code(s: &str) -> (res: ErrorCode)
    ensures
        res == parsed_code(s@),
{
    if str_eq(s, "network_timeout") {
        ErrorCode::NetworkTimeout
    } else if str_eq(s, "network_error") {
        ErrorCode::NetworkError
    } else if str_eq(s, "rate_limited") {
        ErrorCode::RateLimited
    } else if str_eq(s, "proxy_error") {
        ErrorCode::ProxyError
    } else if str_eq(s, "cookie_expired") {
        ErrorCode::CookieExpired
    } else if str_eq(s, "cookie_invalid") {
        ErrorCode::CookieInvalid
    } else if str_eq(s, "login_required") {
        ErrorCode::LoginRequired
    } else if str_eq(s, "video_not_found") {
        ErrorCode::VideoNotFound
    } else if str_eq(s, "user_not_found") {
        ErrorCode::UserNotFound
    } else if str_eq(s, "content_deleted") {
        ErrorCode::ContentDeleted
    } else if str_eq(s, "signature_error") {
        ErrorCode::SignatureError
    } else if str_eq(s, "parse_error") {
        ErrorCode::ParseError
    } else {
        ErrorCode::Unknown
    }
}

/// Application error: a code, a message and an optional detail.
#[derive(Debug, Clone)]
pub struct AppError {
    pub code: ErrorCode,
    pub message: String,
    pub detail: Option<String>,
}

impl AppError {
    /// An error with a code and a message, without detail.
    pub fn new(code: ErrorCode, message: &str) -> (res: Self)
        ensures
            res.code == code,
            res.message@ == message@,
            res.detail is None,
    {
        AppError { code, message: to_owned_string(message), detail: None }
    }

    /// An error with a code, a message and a detail.
    pub fn with_detail(code: ErrorCode, message: &str, detail: &str) -> (res: Self)
        ensures
            res.code == code,
            res.message@ == message@,
            res.detail matches Some(d) && d@ == detail@,
    {
        AppError { code, message: to_owned_string(message), detail: Some(to_owned_string(detail)) }
    }

    /// An error of code `Unknown`.
    pub fn unknown(message: &str) -> (res: Self)
        ensures
            res.code == ErrorCode::Unknown,
            res.message@ == message@,
            res.detail is None,
    {
        Self::new(ErrorCode::Unknown, message)
    }

    /// An error of code `Unknown` from the text of a resolver error.
    pub fn from_py_err(e: &str) -> (res: Self)
        ensures
            res.code == ErrorCode::Unknown,
            res.message@ == e@,
            res.detail is None,
    {
        Self::unknown(e)
    }

    /// An error of code `Unknown` for a background job that could not be
    /// joined, from the join error's text.
    pub fn from_join_err(e: &str) -> (res: Self)
        ensures
            res.code == ErrorCode::Unknown,
            res.message@ == "spawn_blocking join error: "@ + e@,
            res.detail is None,
    {
        let mut m = to_owned_string("spawn_blocking join error: ");
        m.append(e);
        AppError { code: ErrorCode::Unknown, message: m, detail: None }
    }

    /// The error as shown to people: `[code] message`.
    pub fn to_text(&self) -> (res: String)
        ensures
            res@ == "["@ + code_name(self.code) + "] "@ + self.message@,
    {
        let mut s = to_owned_string("[");
        s.append(self.code.name());
        s.append("] ");
        s.append(self.message.as_str());
        s
    }
}

impl From<String> for AppError {
    fn from(msg: String) -> (res: Self) {
        AppError { code: ErrorCode::Unknown, message: msg, detail: None }
    }
}

impl vstd::std_specs::convert::FromSpecImpl<String> for AppError {
    open spec fn obeys_from_spec() -> bool {
        true
    }

    open spec fn from_spec(msg: String) -> Self {
        AppError { code: ErrorCode::Unknown, message: msg, detail: None }
    }
}

/// Outcome of a resolver response: itself when successful, else an error
/// with the code its code string stands for and its message.
pub open spec fn bridge_outcome(success: bool, code: Seq<char>, message: Seq<char>) -> Option<(ErrorCode, Seq<char>)> {
    if success {
        None
    } else {
        Some((parsed_code(code), message))
    }
}

/// The error a resolver response stands for: none when it succeeded, else
/// one with the code its code string stands for and its message.
pub fn bridge_error(success: bool, code: &str, message: &str) -> (res: Option<AppError>)
    ensures
        match bridge_outcome(success, code@, message@) {
            None => res is None,
            Some((c, m)) => res matches Some(e) && e.code == c && e.message@ == m && e.detail is None,
        },
{
    if success {
        None
    } else {
        Some(AppError::new(parse_error_code(code), message))
    }
}

/// The common face of every resolver response.
pub trait BridgeResponse: Sized {
    fn is_success(&self) -> bool;

    fn error_code_str(&self) -> &str;

    fn error_message(&self) -> &str;

    /// The response when it succeeded, else its error (see
    /// [`bridge_error`]): the outcome of what this response's
    /// `is_success`, `error_code_str` and `error_message` returned.
    fn into_result(self) -> (res: Result<Self, AppError>)
        ensures
            exists|b: bool, c: &str, m: &str|
                {
                    &&& call_ensures(Self::is_success, (&self,), b)
                    &&& call_ensures(Self::error_code_str, (&self,), c)
                    &&& call_ensures(Self::error_message, (&self,), m)
                    &&& match bridge_outcome(b, c@, m@) {
                        None => res == Ok::<Self, AppError>(self),
                        Some((k, t)) => res matches Err(e) && e.code == k && e.message@ == t && e.detail is None,
                    }
                },
    {
        let b = self.is_success();
        let c = self.error_code_str();
        let m = self.error_message();
        match bridge_error(b, c, m) {
            None => Ok(self),
            Some(e) => Err(e),
        }
    }
}

} // verus!

verus! {

/// A code the resolver can send comes back as itself from its name; the
/// database, file-system and configuration codes, which only this side
/// raises, read as `Unknown`.
pub proof fn lemma_code_name_round_trip(c: ErrorCode)
    ensures
        (c == ErrorCode::DatabaseError || c == ErrorCode::FileSystemError || c == ErrorCode::ConfigError)
            ==> parsed_code(code_name(c)) == ErrorCode::Unknown,
        !(c == ErrorCode::DatabaseError || c == ErrorCode::FileSystemError || c == ErrorCode::ConfigError)
            ==> parsed_code(code_name(c)) == c,
{
    reveal_strlit("network_timeout");
    reveal_strlit("network_error");
    reveal_strlit("rate_limited");
    reveal_strlit("proxy_error");
    reveal_strlit("cookie_expired");
    reveal_strlit("cookie_invalid");
    reveal_strlit("login_required");
    reveal_strlit("video_not_found");
    reveal_strlit("user_not_found");
    reveal_strlit("content_deleted");
    reveal_strlit("signature_error");
    reveal_strlit("parse_error");
    reveal_strlit("database_error");
    reveal_strlit("file_system_error");
    reveal_strlit("config_error");
    reveal_strlit("unknown");
    match c {
        ErrorCode::NetworkTimeout => {
        },
        ErrorCode::NetworkError => {
            assert("network_error"@.len() != "network_timeout"@.len());
        },
        ErrorCode::RateLimited => {
            assert("rate_limited"@.len() != "network_timeout"@.len());
            assert("rate_limited"@.len() != "network_error"@.len());
        },
        ErrorCode::ProxyError => {
            assert("proxy_error"@.len() != "network_timeout"@.len());
            assert("proxy_error"@.len() != "network_error"@.len());
            assert("proxy_error"@.len() != "rate_limited"@.len());
        },
        ErrorCode::CookieExpired => {
            assert("cookie_expired"@.len() != "network_timeout"@.len());
            assert("cookie_expired"@.len() != "network_error"@.len());
            assert("cookie_expired"@.len() != "rate_limited"@.len());
            assert("cookie_expired"@.len() != "proxy_error"@.len());
        },
        ErrorCode::CookieInvalid => {
            assert("cookie_invalid"@.len() != "network_timeout"@.len());
            assert("cookie_invalid"@.len() != "network_error"@.len());
            assert("cookie_invalid"@.len() != "rate_limited"@.len());
            assert("cookie_invalid"@.len() != "proxy_error"@.len());
            assert("cookie_invalid"@[7] != "cookie_expired"@[7]);
        },
        ErrorCode::LoginRequired => {
            assert("login_required"@.len() != "network_timeout"@.len());
            assert("login_required"@.len() != "network_error"@.len());
            assert("login_required"@.len() != "rate_limited"@.len());
            assert("login_required"@.len() != "proxy_error"@.len());
            assert("login_required"@[0] != "cookie_expired"@[0]);
            assert("login_required"@[0] != "cookie_invalid"@[0]);
        },
        ErrorCode::VideoNotFound => {
            assert("video_not_found"@[0] != "network_timeout"@[0]);
            assert("video_not_found"@.len() != "network_error"@.len());
            assert("video_not_found"@.len() != "rate_limited"@.len());
            assert("video_not_found"@.len() != "proxy_error"@.len());
            assert("video_not_found"@.len() != "cookie_expired"@.len());
            assert("video_not_found"@.len() != "cookie_invalid"@.len());
            assert("video_not_found"@.len() != "login_required"@.len());
        },
        ErrorCode::UserNotFound => {
            assert("user_not_found"@.len() != "network_timeout"@.len());
            assert("user_not_found"@.len() != "network_error"@.len());
            assert("user_not_found"@.len() != "rate_limited"@.len());
            assert("user_not_found"@.len() != "proxy_error"@.len());
            assert("user_not_found"@[0] != "cookie_expired"@[0]);
            assert("user_not_found"@[0] != "cookie_invalid"@[0]);
            assert("user_not_found"@[0] != "login_required"@[0]);
            assert("user_not_found"@.len() != "video_not_found"@.len());
        },
        ErrorCode::ContentDeleted => {
            assert("content_deleted"@[0] != "network_timeout"@[0]);
            assert("content_deleted"@.len() != "network_error"@.len());
            assert("content_deleted"@.len() != "rate_limited"@.len());
            assert("content_deleted"@.len() != "proxy_error"@.len());
            assert("content_deleted"@.len() != "cookie_expired"@.len());
            assert("content_deleted"@.len() != "cookie_invalid"@.len());
            assert("content_deleted"@.len() != "login_required"@.len());
            assert("content_deleted"@[0] != "video_not_found"@[0]);
            assert("content_deleted"@.len() != "user_not_found"@.len());
        },
        ErrorCode::SignatureError => {
            assert("signature_error"@[0] != "network_timeout"@[0]);
            assert("signature_error"@.len() != "network_error"@.len());
            assert("signature_error"@.len() != "rate_limited"@.len());
            assert("signature_error"@.len() != "proxy_error"@.len());
            assert("signature_error"@.len() != "cookie_expired"@.len());
            assert("signature_error"@.len() != "cookie_invalid"@.len());
            assert("signature_error"@.len() != "login_required"@.len());
            assert("signature_error"@[0] != "video_not_found"@[0]);
            assert("signature_error"@.len() != "user_not_found"@.len());
            assert("signature_error"@[0] != "content_deleted"@[0]);
        },
        ErrorCode::ParseError => {
            assert("parse_error"@.len() != "network_timeout"@.len());
            assert("parse_error"@.len() != "network_error"@.len());
            assert("parse_error"@.len() != "rate_limited"@.len());
            assert("parse_error"@[1] != "proxy_error"@[1]);
            assert("parse_error"@.len() != "cookie_expired"@.len());
            assert("parse_error"@.len() != "cookie_invalid"@.len());
            assert("parse_error"@.len() != "login_required"@.len());
            assert("parse_error"@.len() != "video_not_found"@.len());
            assert("parse_error"@.len() != "user_not_found"@.len());
            assert("parse_error"@.len() != "content_deleted"@.len());
            assert("parse_error"@.len() != "signature_error"@.len());
        },
        ErrorCode::DatabaseError => {
            assert("database_error"@.len() != "network_timeout"@.len());
            assert("database_error"@.len() != "network_error"@.len());
            assert("database_error"@.len() != "rate_limited"@.len());
            assert("database_error"@.len() != "proxy_error"@.len());
            assert("database_error"@[0] != "cookie_expired"@[0]);
            assert("database_error"@[0] != "cookie_invalid"@[0]);
            assert("database_error"@[0] != "login_required"@[0]);
            assert("database_error"@.len() != "video_not_found"@.len());
            assert("database_error"@[0] != "user_not_found"@[0]);
            assert("database_error"@.len() != "content_deleted"@.len());
            assert("database_error"@.len() != "signature_error"@.len());
            assert("database_error"@.len() != "parse_error"@.len());
        },
        ErrorCode::FileSystemError => {
            assert("file_system_error"@.len() != "network_timeout"@.len());
            assert("file_system_error"@.len() != "network_error"@.len());
            assert("file_system_error"@.len() != "rate_limited"@.len());
            assert("file_system_error"@.len() != "proxy_error"@.len());
            assert("file_system_error"@.len() != "cookie_expired"@.len());
            assert("file_system_error"@.len() != "cookie_invalid"@.len());
            assert("file_system_error"@.len() != "login_required"@.len());
            assert("file_system_error"@.len() != "video_not_found"@.len());
            assert("file_system_error"@.len() != "user_not_found"@.len());
            assert("file_system_error"@.len() != "content_deleted"@.len());
            assert("file_system_error"@.len() != "signature_error"@.len());
            assert("file_system_error"@.len() != "parse_error"@.len());
        },
        ErrorCode::ConfigError => {
            assert("config_error"@.len() != "network_timeout"@.len());
            assert("config_error"@.len() != "network_error"@.len());
            assert("config_error"@[0] != "rate_limited"@[0]);
            assert("config_error"@.len() != "proxy_error"@.len());
            assert("config_error"@.len() != "cookie_expired"@.len());
            assert("config_error"@.len() != "cookie_invalid"@.len());
            assert("config_error"@.len() != "login_required"@.len());
            assert("config_error"@.len() != "video_not_found"@.len());
            assert("config_error"@.len() != "user_not_found"@.len());
            assert("config_error"@.len() != "content_deleted"@.len());
            assert("config_error"@.len() != "signature_error"@.len());
            assert("config_error"@.len() != "parse_error"@.len());
        },
        ErrorCode::Unknown => {
            assert("unknown"@.len() != "network_timeout"@.len());
            assert("unknown"@.len() != "network_error"@.len());
            assert("unknown"@.len() != "rate_limited"@.len());
            assert("unknown"@.len() != "proxy_error"@.len());
            assert("unknown"@.len() != "cookie_expired"@.len());
            assert("unknown"@.len() != "cookie_invalid"@.len());
            assert("unknown"@.len() != "login_required"@.len());
            assert("unknown"@.len() != "video_not_found"@.len());
            assert("unknown"@.len() != "user_not_found"@.len());
            assert("unknown"@.len() != "content_deleted"@.len());
            assert("unknown"@.len() != "signature_error"@.len());
            assert("unknown"@.len() != "parse_error"@.len());
        },
    }
}

} // verus!
