use chat_server::error::{AppError, ErrorOutput};

#[test]
fn error_output_carries_text() {
    let out = ErrorOutput::new("invalid email or password");
    assert_eq!(out.error(), "invalid email or password");
    assert_eq!(ErrorOutput::new("").error(), "");
}

#[test]
fn status_codes() {
    let s = |e: AppError| e.status_code();
    assert_eq!(s(AppError::EmailAlreadyExists("a".into())), 409);
    assert_eq!(s(AppError::SqlxError("a".into())), 500);
    assert_eq!(s(AppError::PasswordHashError("a".into())), 422);
    assert_eq!(s(AppError::HttpHeaderError("a".into())), 422);
    assert_eq!(s(AppError::JWTError("a".into())), 403);
    assert_eq!(s(AppError::CreateChatError("a".into())), 400);
    assert_eq!(s(AppError::UpdateChatError("a".into())), 400);
    assert_eq!(s(AppError::DeleteChatError("a".into())), 400);
}

#[test]
fn messages() {
    let m = |e: AppError| e.message();
    assert_eq!(m(AppError::EmailAlreadyExists("x@y.org".into())), "email: x@y.org already exists");
    assert_eq!(m(AppError::CreateChatError("c".into())), "create chat error: c");
    assert_eq!(m(AppError::UpdateChatError("u".into())), "update chat error: u");
    assert_eq!(m(AppError::DeleteChatError("d".into())), "delete chat error: d");
    assert_eq!(m(AppError::SqlxError("s".into())), "sql error: s");
    assert_eq!(m(AppError::PasswordHashError("p".into())), "password hash error: p");
    assert_eq!(m(AppError::JWTError("j".into())), "jwt error: j");
    assert_eq!(
        m(AppError::HttpHeaderError("failed to parse header value".into())),
        "http header parse error: failed to parse header value"
    );
}

#[test]
fn into_response_pairs_status_and_text() {
    let (status, body) = AppError::CreateChatError("Some members do not exist.".into()).into_response();
    assert_eq!(status, 400);
    assert_eq!(body.error(), "create chat error: Some members do not exist.");
    let (status, body) = AppError::EmailAlreadyExists("luffy@acme.org".into()).into_response();
    assert_eq!(status, 409);
    assert_eq!(body.error(), "email: luffy@acme.org already exists");
}
