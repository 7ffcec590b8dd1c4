//! The replies of sign-up and sign-in.
//!
//! Looking a user up, storing a new user, checking a password and signing a
//! token are done by the caller; the functions here decide, from what those
//! gave back, whether the request is refused and what is answered.
use vstd::prelude::*;
use vstd::string::*;

use crate::error::{AppError, ErrorOutput, STATUS_CREATED, STATUS_FORBIDDEN, STATUS_OK};

verus! {

/// The JSON body `{"token": ...}` of a successful sign-up or sign-in.
pub struct AuthOutput {
    token: String,
}

impl View for AuthOutput {
    type V = Seq<char>;

    /// The token that the body carries.
    closed spec fn view(&self) -> Seq<char> {
        self.token@
    }
}

impl AuthOutput {
    /// A body that carries `token`.
    pub fn new(token: String) -> (out: AuthOutput)
        ensures
            out@ == token@,
    {
        AuthOutput { token }
    }

    /// The token that the body carries.
    pub fn token(&self) -> (t: &str)
        ensures
            t@ == self@,
    {
        self.token.as_str()
    }
}

/// The body of a sign-in reply: a token, or the refusal.
pub enum SigninBody {
    Token(AuthOutput),
    Refused(ErrorOutput),
}

/// The text that answers a sign-in with an unknown email or a wrong
/// password.
pub open spec fn signin_refusal_text() -> Seq<char> {
    "invalid email or password"@
}

/// Checks a sign-up for `email`, given whether a user with that email is
/// already registered: refused in that case, allowed otherwise.
pub fn check_signup(email: String, registered: bool) -> (r: Result<(), AppError>)
    ensures
        r is Ok <==> !registered,
        r matches Err(e) ==> e matches AppError::EmailAlreadyExists(m) && m@ == email@,
{
    if registered {
        return Err(AppError::EmailAlreadyExists(email));
    }
    Ok(())
}

/// The reply to a sign-up that stored the user and signed `token`:
/// created, with the token.
pub fn signup_response(token: String) -> (r: (u16, AuthOutput))
    ensures
        r.0 == STATUS_CREATED,
        r.1@ == token@,
{
    (STATUS_CREATED, AuthOutput::new(token))
}

/// The reply to a sign-in, given the token signed for the user whose email
/// and password matched, or nothing when none did: the token, or a refusal.
pub fn signin_response(token: Option<String>) -> (r: (u16, SigninBody))
    ensures
        r.0 == (if token is Some { STATUS_OK } else { STATUS_FORBIDDEN }),
        token matches Some(t) ==> (r.1 matches SigninBody::Token(a) && a@ == t@),
        token is None ==> (r.1 matches SigninBody::Refused(o) && o@ == signin_refusal_text()),
{
    match token {
        Some(t) => (STATUS_OK, SigninBody::Token(AuthOutput::new(t))),
        None => (STATUS_FORBIDDEN, SigninBody::Refused(ErrorOutput::new("invalid email or password"))),
    }
}

} // verus!
