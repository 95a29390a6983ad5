use douyin_core::error::{bridge_error, parse_error_code, AppError, BridgeResponse, ErrorCode};

#[test]
fn codes_parse_by_name() {
    assert_eq!(parse_error_code("network_timeout"), ErrorCode::NetworkTimeout);
    assert_eq!(parse_error_code("cookie_expired"), ErrorCode::CookieExpired);
    assert_eq!(parse_error_code("parse_error"), ErrorCode::ParseError);
    assert_eq!(parse_error_code("database_error"), ErrorCode::Unknown);
    assert_eq!(parse_error_code("OK"), ErrorCode::Unknown);
    for c in [
        ErrorCode::NetworkTimeout,
        ErrorCode::NetworkError,
        ErrorCode::RateLimited,
        ErrorCode::ProxyError,
        ErrorCode::CookieExpired,
        ErrorCode::CookieInvalid,
        ErrorCode::LoginRequired,
        ErrorCode::VideoNotFound,
        ErrorCode::UserNotFound,
        ErrorCode::ContentDeleted,
        ErrorCode::SignatureError,
        ErrorCode::ParseError,
    ] {
        assert_eq!(parse_error_code(c.name()), c);
    }
    assert_eq!(ErrorCode::FileSystemError.name(), "file_system_error");
}

#[test]
fn app_error_constructors() {
    let e = AppError::new(ErrorCode::RateLimited, "slow down");
    assert_eq!(e.to_text(), "[rate_limited] slow down");
    assert!(e.detail.is_none());
    let d = AppError::with_detail(ErrorCode::ConfigError, "bad", "line 3");
    assert_eq!(d.detail.as_deref(), Some("line 3"));
    assert_eq!(AppError::unknown("x").code, ErrorCode::Unknown);
    assert_eq!(AppError::from_py_err("py").message, "py");
    assert_eq!(AppError::from_join_err("panicked").message, "spawn_blocking join error: panicked");
    let f: AppError = AppError::from("msg".to_string());
    assert_eq!(f.code, ErrorCode::Unknown);
    assert_eq!(f.message, "msg");
}

struct Reply {
    success: bool,
    error_code: String,
    error: String,
}

impl BridgeResponse for Reply {
    fn is_success(&self) -> bool {
        self.success
    }
    fn error_code_str(&self) -> &str {
        &self.error_code
    }
    fn error_message(&self) -> &str {
        &self.error
    }
}

#[test]
fn bridge_responses_become_results() {
    let ok = Reply { success: true, error_code: "OK".to_string(), error: String::new() };
    assert!(ok.into_result().is_ok());
    let bad = Reply { success: false, error_code: "login_required".to_string(), error: "please log in".to_string() };
    match bad.into_result() {
        Err(e) => {
            assert_eq!(e.code, ErrorCode::LoginRequired);
            assert_eq!(e.message, "please log in");
        },
        Ok(_) => panic!("failure must become an error"),
    }
}

#[test]
fn bridge_error_decides() {
    assert!(bridge_error(true, "rate_limited", "x").is_none());
    let e = bridge_error(false, "rate_limited", "slow").unwrap();
    assert_eq!(e.code, ErrorCode::RateLimited);
    assert_eq!(e.message, "slow");
    assert_eq!(bridge_error(false, "weird", "m").unwrap().code, ErrorCode::Unknown);
}
