use iotics_grpc_client::auth::{authorization_value, TokenError};

#[test]
fn token_of_visible_ascii_is_accepted() {
    let v = authorization_value("bearer abc.DEF-123_~").unwrap();
    assert_eq!(v.as_bytes(), b"bearer abc.DEF-123_~");
}

#[test]
fn token_with_tab_or_high_bytes_is_accepted() {
    assert!(authorization_value("a\tb").is_ok());
    assert!(authorization_value("caf\u{e9}").is_ok());
    assert!(authorization_value("").is_ok());
}

#[test]
fn token_with_control_byte_is_refused() {
    assert_eq!(authorization_value("abc\n").unwrap_err(), TokenError::InvalidToken);
    assert_eq!(authorization_value("a\u{7f}b").unwrap_err(), TokenError::InvalidToken);
    assert_eq!(authorization_value("\u{1f}").unwrap_err(), TokenError::InvalidToken);
    assert_eq!(TokenError::InvalidToken.message(), "parse token failed");
}
