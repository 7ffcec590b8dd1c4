//! The library's error type, the JSON error body, and how an error is
//! answered: a status code and an `ErrorOutput` carrying the error's text.
use vstd::prelude::*;
use vstd::string::*;

verus! {

/// HTTP status codes that the server answers with.
pub const STATUS_OK: u16 = 200;
pub const STATUS_CREATED: u16 = 201;
pub const STATUS_BAD_REQUEST: u16 = 400;
pub const STATUS_FORBIDDEN: u16 = 403;
pub const STATUS_CONFLICT: u16 = 409;
pub const STATUS_UNPROCESSABLE_ENTITY: u16 = 422;
pub const STATUS_INTERNAL_SERVER_ERROR: u16 = 500;

/// The JSON body `{"error": ...}` of a refused request.
pub struct ErrorOutput {
    error: String,
}

impl View for ErrorOutput {
    type V = Seq<char>;

    /// The text that the body carries.
    closed spec fn view(&self) -> Seq<char> {
        self.error@
    }
}

impl ErrorOutput {
    /// An error body that carries `error`.
    pub fn new(error: &str) -> (out: ErrorOutput)
        ensures
            out@ == error@,
    {
        ErrorOutput { error: String::from_str(error) }
    }

    /// The text that the body carries.
    pub fn error(&self) -> (e: &str)
        ensures
            e@ == self@,
    {
        self.error.as_str()
    }
}

/// Why a request failed. The variants that come from an outside library
/// (database, password hashing, token signing, header parsing) carry that
/// error's text.
#[derive(Debug, PartialEq, Eq)]
pub enum AppError {
    EmailAlreadyExists(String),
    CreateChatError(String),
    UpdateChatError(String),
    DeleteChatError(String),
    SqlxError(String),
    PasswordHashError(String),
    JWTError(String),
    HttpHeaderError(String),
}

/// The status code that answers an error.
pub open spec fn spec_status(e: AppError) -> u16 {
    match e {
        AppError::EmailAlreadyExists(_) => STATUS_CONFLICT,
        AppError::SqlxError(_) => STATUS_INTERNAL_SERVER_ERROR,
        AppError::PasswordHashError(_) => STATUS_UNPROCESSABLE_ENTITY,
        AppError::HttpHeaderError(_) => STATUS_UNPROCESSABLE_ENTITY,
        AppError::JWTError(_) => STATUS_FORBIDDEN,
        AppError::CreateChatError(_) => STATUS_BAD_REQUEST,
        AppError::UpdateChatError(_) => STATUS_BAD_REQUEST,
        AppError::DeleteChatError(_) => STATUS_BAD_REQUEST,
    }
}

/// The text of an error: a prefix that names its kind, then what it carries.
pub open spec fn spec_message(e: AppError) -> Seq<char> {
    match e {
        AppError::EmailAlreadyExists(s) => "email: "@ + s@ + " already exists"@,
        AppError::CreateChatError(s) => "create chat error: "@ + s@,
        AppError::UpdateChatError(s) => "update chat error: "@ + s@,
        AppError::DeleteChatError(s) => "delete chat error: "@ + s@,
        AppError::SqlxError(s) => "sql error: "@ + s@,
        AppError::PasswordHashError(s) => "password hash error: "@ + s@,
        AppError::JWTError(s) => "jwt error: "@ + s@,
        AppError::HttpHeaderError(s) => "http header parse error: "@ + s@,
    }
}

fn prefixed(prefix: &str, s: &String) -> (r: String)
    ensures
        r@ == prefix@ + s@,
{
    let mut r = String::from_str(prefix);
    r.append(s.as_str());
    r
}

impl AppError {
    /// The status code that answers this error.
    pub fn status_code(&self) -> (code: u16)
        ensures
            code == spec_status(*self),
    {
        match self {
            AppError::EmailAlreadyExists(_) => STATUS_CONFLICT,
            AppError::SqlxError(_) => STATUS_INTERNAL_SERVER_ERROR,
            AppError::PasswordHashError(_) => STATUS_UNPROCESSABLE_ENTITY,
            AppError::HttpHeaderError(_) => STATUS_UNPROCESSABLE_ENTITY,
            AppError::JWTError(_) => STATUS_FORBIDDEN,
            AppError::CreateChatError(_) => STATUS_BAD_REQUEST,
            AppError::UpdateChatError(_) => STATUS_BAD_REQUEST,
            AppError::DeleteChatError(_) => STATUS_BAD_REQUEST,
        }
    }

    /// The text of this error, as its `Display` writes it.
    pub fn message(&self) -> (m: String)
        ensures
            m@ == spec_message(*self),
    {
        match self {
            AppError::EmailAlreadyExists(s) => {
                let mut r = prefixed("email: ", s);
                r.append(" already exists");
                r
            },
            AppError::CreateChatError(s) => prefixed("create chat error: ", s),
            AppError::UpdateChatError(s) => prefixed("update chat error: ", s),
            AppError::DeleteChatError(s) => prefixed("delete chat error: ", s),
            AppError::SqlxError(s) => prefixed("sql error: ", s),
            AppError::PasswordHashError(s) => prefixed("password hash error: ", s),
            AppError::JWTError(s) => prefixed("jwt error: ", s),
            AppError::HttpHeaderError(s) => prefixed("http header parse error: ", s),
        }
    }

    /// The answer to this error: its status code and a body that carries
    /// its text.
    pub fn into_response(self) -> (r: (u16, ErrorOutput))
        ensures
            r.0 == spec_status(self),
            r.1@ == spec_message(self),
    {
        let status = self.status_code();
        let text = self.message();
        (status, ErrorOutput::new(text.as_str()))
    }
}

} // verus!
