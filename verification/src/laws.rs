//! Properties that span the library's functions.
use vstd::prelude::*;

use crate::chat::{
    is_create_refusal, is_update_refusal, rule_text, spec_chat_type, spec_shape_violation,
    spec_violation, ChatRule, ChatType,
};
use crate::error::{spec_message, spec_status, AppError};

verus! {

/// An accepted chat's kind matches its shape: a single chat has exactly two
/// members and no name, a group has three to eight members and no name,
/// and a channel has a name, public or private as asked.
pub proof fn lemma_chat_kind_matches_shape(named: bool, len: int, found: int, public: bool)
    requires
        spec_violation(named, len, found) is None,
    ensures
        (spec_chat_type(named, len, public) == ChatType::Single) <==> (!named && len == 2),
        (spec_chat_type(named, len, public) == ChatType::Group) <==> (!named && 3 <= len <= 8),
        (spec_chat_type(named, len, public) == ChatType::PublicChannel) <==> (named && public),
        (spec_chat_type(named, len, public) == ChatType::PrivateChannel) <==> (named && !public),
        found == len,
{
}

/// The check made before the members are looked up never contradicts the
/// full decision: what it refuses is refused by the same rule whatever the
/// lookup finds, and what it lets through is refused only when some member
/// was not found.
pub proof fn lemma_precheck_agrees(named: bool, len: int, found: int)
    ensures
        spec_shape_violation(named, len) matches Some(rule) ==> spec_violation(named, len, found)
            == Some(rule),
        spec_shape_violation(named, len) is None ==> (spec_violation(named, len, found) is None
            <==> found == len),
{
}

/// A refused chat creation or change is answered with 400 and the text
/// `create chat error: <rule>` or `update chat error: <rule>`.
pub proof fn lemma_chat_refusal_answer(e: AppError, rule: ChatRule)
    requires
        is_create_refusal(e, rule) || is_update_refusal(e, rule),
    ensures
        spec_status(e) == 400,
        is_create_refusal(e, rule) ==> spec_message(e) == "create chat error: "@ + rule_text(rule),
        is_update_refusal(e, rule) ==> spec_message(e) == "update chat error: "@ + rule_text(rule),
{
}

/// A sign-up with an email that is taken is answered with 409 and the text
/// `email: <email> already exists`.
pub proof fn lemma_taken_email_answer(e: AppError, email: Seq<char>)
    requires
        e matches AppError::EmailAlreadyExists(m) && m@ == email,
    ensures
        spec_status(e) == 409,
        spec_message(e) == "email: "@ + email + " already exists"@,
{
}

/// Every error is answered with a client or server error status (4xx or
/// 5xx), never with a success.
pub proof fn lemma_error_status_is_failure(e: AppError)
    ensures
        400 <= spec_status(e) < 600,
{
}

/// What refuses a chat request, rule by rule: fewer than two members
/// refuses it as too few; otherwise more than eight members without a name
/// refuses it as an unnamed large group; otherwise a member that was not
/// found refuses it; and nothing else does. In particular a request with at
/// least two members, all found, is accepted when it is named or has at
/// most eight members.
pub proof fn lemma_chat_refusal_rules(named: bool, len: int, found: int)
    ensures
        len < 2 ==> spec_violation(named, len, found) == Some(ChatRule::TooFewMembers),
        len >= 2 && len > 8 && !named ==> spec_violation(named, len, found) == Some(
            ChatRule::UnnamedLargeGroup,
        ),
        len >= 2 && (named || len <= 8) && found != len ==> spec_violation(named, len, found)
            == Some(ChatRule::UnknownMembers),
        len >= 2 && (named || len <= 8) && found == len ==> spec_violation(named, len, found)
            is None,
        spec_violation(named, len, found) == Some(ChatRule::TooFewMembers) ==> len < 2,
        spec_violation(named, len, found) == Some(ChatRule::UnnamedLargeGroup) ==> len > 8
            && !named,
        spec_violation(named, len, found) == Some(ChatRule::UnknownMembers) ==> found != len,
        spec_violation(named, len, found) is None <==> (len >= 2 && (named || len <= 8) && found
            == len),
{
}

/// The check before the lookup refuses exactly the requests with fewer than
/// two members, and the unnamed ones with more than eight: an unnamed
/// request of two to eight members, or a named one of at least two, passes
/// it.
pub proof fn lemma_shape_rules(named: bool, len: int)
    ensures
        spec_shape_violation(named, len) is None <==> (len >= 2 && (named || len <= 8)),
        spec_shape_violation(named, len) == Some(ChatRule::TooFewMembers) <==> len < 2,
        spec_shape_violation(named, len) == Some(ChatRule::UnnamedLargeGroup) <==> (len >= 2
            && len > 8 && !named),
        spec_shape_violation(named, len) != Some(ChatRule::UnknownMembers),
{
}

/// Each kind of error is answered with one status whatever text it carries:
/// 409 for a taken email, 400 for a refused chat creation, change or
/// deletion, 500 for a database failure, 422 for a password-hashing or
/// header failure, and 403 for a token failure.
pub proof fn lemma_status_by_kind(s: String, t: String)
    ensures
        spec_status(AppError::EmailAlreadyExists(s)) == 409,
        spec_status(AppError::CreateChatError(s)) == 400,
        spec_status(AppError::UpdateChatError(s)) == 400,
        spec_status(AppError::DeleteChatError(s)) == 400,
        spec_status(AppError::SqlxError(s)) == 500,
        spec_status(AppError::PasswordHashError(s)) == 422,
        spec_status(AppError::HttpHeaderError(s)) == 422,
        spec_status(AppError::JWTError(s)) == 403,
        spec_status(AppError::DeleteChatError(s)) == spec_status(AppError::DeleteChatError(t)),
        spec_status(AppError::SqlxError(s)) == spec_status(AppError::SqlxError(t)),
{
}

} // verus!
