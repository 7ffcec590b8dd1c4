//! The rules a chat obeys: how many members it needs, when it must be
//! named, which kind of chat it is, and when a deletion is refused.
//!
//! Looking the members up and writing the chat are database work that the
//! caller does; the functions here decide, from the request and from what
//! the database answered, whether the request is refused and what is written.
use vstd::prelude::*;
use vstd::string::*;

use crate::decimal::{i64_to_decimal, signed_decimal};
use crate::error::AppError;

verus! {

/// The kind of a chat.
#[derive(Clone, Copy, Debug, PartialEq, Eq, Structural)]
pub enum ChatType {
    Single,
    Group,
    PrivateChannel,
    PublicChannel,
}

/// A request to create a chat.
pub struct CreateChat {
    pub name: Option<String>,
    pub members: Vec<i64>,
    pub public: bool,
}

/// A request to change a chat.
pub struct UpdateChat {
    pub name: Option<String>,
    pub members: Vec<i64>,
    pub public: bool,
}

/// A chat as it is stored.
pub struct Chat {
    pub id: i64,
    pub ws_id: i64,
    pub name: Option<String>,
    pub chat_type: ChatType,
    pub members: Vec<i64>,
}

/// What is written to create a chat.
pub struct NewChat {
    pub ws_id: i64,
    pub name: Option<String>,
    pub chat_type: ChatType,
    pub members: Vec<i64>,
}

/// What is written to change the chat `id`.
pub struct ChatChange {
    pub id: i64,
    pub name: Option<String>,
    pub chat_type: ChatType,
    pub members: Vec<i64>,
}

/// The rule that refuses a member list.
#[derive(Clone, Copy, Debug, PartialEq, Eq, Structural)]
pub enum ChatRule {
    /// Fewer than two members.
    TooFewMembers,
    /// More than eight members and no name.
    UnnamedLargeGroup,
    /// Some member was not found.
    UnknownMembers,
}

/// The text that explains a rule.
pub open spec fn rule_text(rule: ChatRule) -> Seq<char> {
    match rule {
        ChatRule::TooFewMembers => "Chat must have at least 2 members"@,
        ChatRule::UnnamedLargeGroup => "Group chat with more than 8 members must have a name"@,
        ChatRule::UnknownMembers => "Some members do not exist."@,
    }
}

/// The rule that refuses a member list of `len` members before the members
/// are looked up, if any.
pub open spec fn spec_shape_violation(named: bool, len: int) -> Option<ChatRule> {
    if len < 2 {
        Some(ChatRule::TooFewMembers)
    } else if len > 8 && !named {
        Some(ChatRule::UnnamedLargeGroup)
    } else {
        None
    }
}

/// The first rule that refuses a member list of `len` members of which
/// `found` were found, if any.
pub open spec fn spec_violation(named: bool, len: int, found: int) -> Option<ChatRule> {
    match spec_shape_violation(named, len) {
        Some(rule) => Some(rule),
        None => if found != len {
            Some(ChatRule::UnknownMembers)
        } else {
            None
        },
    }
}

/// The kind of a chat: without a name, a chat of two is a single chat and a
/// larger one a group; with a name, it is a public or a private channel.
pub open spec fn spec_chat_type(named: bool, len: int, public: bool) -> ChatType {
    if !named {
        if len == 2 {
            ChatType::Single
        } else {
            ChatType::Group
        }
    } else if public {
        ChatType::PublicChannel
    } else {
        ChatType::PrivateChannel
    }
}

/// `e` is the refusal of a chat creation by `rule`.
pub open spec fn is_create_refusal(e: AppError, rule: ChatRule) -> bool {
    e matches AppError::CreateChatError(m) && m@ == rule_text(rule)
}

/// `e` is the refusal of a chat change by `rule`.
pub open spec fn is_update_refusal(e: AppError, rule: ChatRule) -> bool {
    e matches AppError::UpdateChatError(m) && m@ == rule_text(rule)
}

/// `r` refuses a deletion with the text `text`.
pub open spec fn is_delete_refusal(r: Result<(), AppError>, text: Seq<char>) -> bool {
    r matches Err(AppError::DeleteChatError(m)) && m@ == text
}

/// The text of a refused deletion of chat `id`, when the id is not zero.
pub open spec fn missing_chat_text(id: int) -> Seq<char> {
    "Chat with id="@ + signed_decimal(id) + " not exist."@
}

fn rule_message(rule: ChatRule) -> (m: String)
    ensures
        m@ == rule_text(rule),
{
    match rule {
        ChatRule::TooFewMembers => String::from_str("Chat must have at least 2 members"),
        ChatRule::UnnamedLargeGroup => String::from_str(
            "Group chat with more than 8 members must have a name",
        ),
        ChatRule::UnknownMembers => String::from_str("Some members do not exist."),
    }
}

/// The rule that refuses a member list before its members are looked up.
pub fn shape_violation(named: bool, len: usize) -> (r: Option<ChatRule>)
    ensures
        r == spec_shape_violation(named, len as int),
{
    if len < 2 {
        Some(ChatRule::TooFewMembers)
    } else if len > 8 && !named {
        Some(ChatRule::UnnamedLargeGroup)
    } else {
        None
    }
}

/// The first rule that refuses a member list, given how many of its members
/// were found.
pub fn violation(named: bool, len: usize, found: usize) -> (r: Option<ChatRule>)
    ensures
        r == spec_violation(named, len as int, found as int),
{
    match shape_violation(named, len) {
        Some(rule) => Some(rule),
        None => if found != len {
            Some(ChatRule::UnknownMembers)
        } else {
            None
        },
    }
}

/// The kind of a chat with the given name, number of members and
/// visibility.
pub fn chat_type(name: &Option<String>, len: usize, public: bool) -> (t: ChatType)
    ensures
        t == spec_chat_type(name is Some, len as int, public),
{
    match name {
        None => if len == 2 {
            ChatType::Single
        } else {
            ChatType::Group
        },
        Some(_) => if public {
            ChatType::PublicChannel
        } else {
            ChatType::PrivateChannel
        },
    }
}

fn name_from(name: &str) -> (r: Option<String>)
    ensures
        r is None <==> name@.len() == 0,
        r matches Some(n) ==> n@ == name@,
{
    if name.is_empty() {
        None
    } else {
        Some(String::from_str(name))
    }
}

impl CreateChat {
    /// A creation request; an empty name means no name.
    pub fn new(name: &str, members: &[i64], public: bool) -> (c: CreateChat)
        ensures
            c.name is None <==> name@.len() == 0,
            c.name matches Some(n) ==> n@ == name@,
            c.members@ == members@,
            c.public == public,
    {
        CreateChat { name: name_from(name), members: vstd::slice::slice_to_vec(members), public }
    }

    /// Checks the rules that need no lookup: at least two members, and a
    /// name for more than eight.
    pub fn validate(&self) -> (r: Result<(), AppError>)
        ensures
            r is Ok <==> spec_shape_violation(self.name is Some, self.members.len() as int) is None,
            r matches Err(e) ==> is_create_refusal(
                e,
                spec_shape_violation(self.name is Some, self.members.len() as int)->Some_0,
            ),
    {
        match shape_violation(self.name.is_some(), self.members.len()) {
            Some(rule) => Err(AppError::CreateChatError(rule_message(rule))),
            None => Ok(()),
        }
    }
}

impl UpdateChat {
    /// A change request; an empty name means no name.
    pub fn new(name: &str, members: &[i64], public: bool) -> (c: UpdateChat)
        ensures
            c.name is None <==> name@.len() == 0,
            c.name matches Some(n) ==> n@ == name@,
            c.members@ == members@,
            c.public == public,
    {
        UpdateChat { name: name_from(name), members: vstd::slice::slice_to_vec(members), public }
    }

    /// Checks the rules that need no lookup: at least two members, and a
    /// name for more than eight.
    pub fn validate(&self) -> (r: Result<(), AppError>)
        ensures
            r is Ok <==> spec_shape_violation(self.name is Some, self.members.len() as int) is None,
            r matches Err(e) ==> is_update_refusal(
                e,
                spec_shape_violation(self.name is Some, self.members.len() as int)->Some_0,
            ),
    {
        match shape_violation(self.name.is_some(), self.members.len()) {
            Some(rule) => Err(AppError::UpdateChatError(rule_message(rule))),
            None => Ok(()),
        }
    }
}

impl Chat {
    /// Decides a chat creation in workspace `ws_id`, given that `found` of
    /// the requested members exist: refused by the first rule broken, or
    /// else the chat to write, with its kind.
    pub fn create(input: CreateChat, ws_id: u64, found: usize) -> (r: Result<NewChat, AppError>)
        ensures
            r is Ok <==> spec_violation(input.name is Some, input.members.len() as int, found as int) is None,
            r matches Err(e) ==> is_create_refusal(
                e,
                spec_violation(input.name is Some, input.members.len() as int, found as int)->Some_0,
            ),
            r matches Ok(c) ==> {
                &&& c.ws_id == ws_id as i64
                &&& c.name == input.name
                &&& c.members@ == input.members@
                &&& c.chat_type == spec_chat_type(
                    input.name is Some,
                    input.members.len() as int,
                    input.public,
                )
            },
    {
        let len = input.members.len();
        match violation(input.name.is_some(), len, found) {
            Some(rule) => Err(AppError::CreateChatError(rule_message(rule))),
            None => {
                let chat_type = chat_type(&input.name, len, input.public);
                Ok(NewChat { ws_id: ws_id as i64, name: input.name, chat_type, members: input.members })
            },
        }
    }

    /// Decides a change of chat `id`, given that `found` of the requested
    /// members exist: refused by the first rule broken, or else what to
    /// write, with the chat's new kind.
    pub fn update(id: i64, input: UpdateChat, found: usize) -> (r: Result<ChatChange, AppError>)
        ensures
            r is Ok <==> spec_violation(input.name is Some, input.members.len() as int, found as int) is None,
            r matches Err(e) ==> is_update_refusal(
                e,
                spec_violation(input.name is Some, input.members.len() as int, found as int)->Some_0,
            ),
            r matches Ok(c) ==> {
                &&& c.id == id
                &&& c.name == input.name
                &&& c.members@ == input.members@
                &&& c.chat_type == spec_chat_type(
                    input.name is Some,
                    input.members.len() as int,
                    input.public,
                )
            },
    {
        let len = input.members.len();
        match violation(input.name.is_some(), len, found) {
            Some(rule) => Err(AppError::UpdateChatError(rule_message(rule))),
            None => {
                let chat_type = chat_type(&input.name, len, input.public);
                Ok(ChatChange { id, name: input.name, chat_type, members: input.members })
            },
        }
    }

    /// Checks, before the database is asked, that chat `id` may be deleted:
    /// the chat with id 0 never may.
    pub fn check_delete(id: i64) -> (r: Result<(), AppError>)
        ensures
            r is Ok <==> id != 0,
            r is Err ==> is_delete_refusal(r, "Chat with id=0 can not be delete"@),
    {
        if id == 0 {
            return Err(AppError::DeleteChatError(String::from_str("Chat with id=0 can not be delete")));
        }
        Ok(())
    }

    /// Decides a deletion of chat `id`, given how many rows the deletion
    /// removed: refused for id 0 whatever the database did, refused when no
    /// row was removed, accepted otherwise.
    pub fn delete(id: i64, rows_affected: u64) -> (r: Result<(), AppError>)
        ensures
            r is Ok <==> id != 0 && rows_affected >= 1,
            id == 0 ==> is_delete_refusal(r, "Chat with id=0 can not be delete"@),
            id != 0 && rows_affected < 1 ==> is_delete_refusal(r, missing_chat_text(id as int)),
    {
        Chat::check_delete(id)?;
        if rows_affected < 1 {
            let mut m = String::from_str("Chat with id=");
            let digits = i64_to_decimal(id);
            m.append(digits.as_str());
            m.append(" not exist.");
            return Err(AppError::DeleteChatError(m));
        }
        Ok(())
    }
}

} // verus!
