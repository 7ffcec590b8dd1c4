use chat_server::auth::{check_signup, signin_response, signup_response, AuthOutput, SigninBody};
use chat_server::error::AppError;

#[test]
fn signup_should_work() {
    assert!(check_signup("luffy@acme.org".to_string(), false).is_ok());
    let (status, ret) = signup_response("a.b.c".to_string());
    assert_eq!(status, 201);
    assert_ne!(ret.token(), "");
    assert_eq!(ret.token(), "a.b.c");
}

#[test]
fn signin_should_work() {
    let (status, body) = signin_response(Some("t0k3n".to_string()));
    assert_eq!(status, 200);
    match body {
        SigninBody::Token(ret) => {
            assert_ne!(ret.token(), "");
            assert_eq!(ret.token(), "t0k3n");
        }
        SigninBody::Refused(_) => panic!("expected a token"),
    }
}

#[test]
fn signup_with_taken_email_is_refused() {
    let r = check_signup("luffy@acme.org".to_string(), true);
    let e = r.err().unwrap();
    assert_eq!(e, AppError::EmailAlreadyExists("luffy@acme.org".to_string()));
    let (status, body) = e.into_response();
    assert_eq!(status, 409);
    assert_eq!(body.error(), "email: luffy@acme.org already exists");
}

#[test]
fn signin_with_bad_credentials_is_forbidden() {
    let (status, body) = signin_response(None);
    assert_eq!(status, 403);
    match body {
        SigninBody::Refused(out) => assert_eq!(out.error(), "invalid email or password"),
        SigninBody::Token(_) => panic!("expected a refusal"),
    }
}

#[test]
fn auth_output_carries_token() {
    assert_eq!(AuthOutput::new("abc".to_string()).token(), "abc");
}
