use chat_server::chat::{Chat, ChatType, CreateChat, UpdateChat};
use chat_server::error::AppError;

fn create_error(msg: &str) -> AppError {
    AppError::CreateChatError(msg.to_string())
}

fn update_error(msg: &str) -> AppError {
    AppError::UpdateChatError(msg.to_string())
}

#[test]
fn create_single_chat_should_work() {
    let input = CreateChat::new("", &[1, 2], false);
    let chat = Chat::create(input, 1, 2).unwrap();
    assert_eq!(chat.ws_id, 1);
    assert_eq!(chat.members.len(), 2);
    assert_eq!(chat.chat_type, ChatType::Single);
}

#[test]
fn create_public_named_chat_should_work() {
    let input = CreateChat::new("pub", &[1, 2, 3], true);
    let chat = Chat::create(input, 1, 3).unwrap();
    assert_eq!(chat.ws_id, 1);
    assert_eq!(chat.name.unwrap(), "pub");
    assert_eq!(chat.members.len(), 3);
    assert_eq!(chat.chat_type, ChatType::PublicChannel);
}

#[test]
fn update_chat_to_public_named_should_work() {
    let id = 3;
    let input = UpdateChat::new("pub", &[1, 2, 3], true);
    let chat = Chat::update(id, input, 3).unwrap();
    assert_eq!(chat.id, 3);
    assert_eq!(chat.name.unwrap(), "pub");
    assert_eq!(chat.members.len(), 3);
    assert_eq!(chat.chat_type, ChatType::PublicChannel);
}

#[test]
fn chat_delete_should_work() {
    let ret = Chat::delete(1, 1);
    assert!(ret.is_ok());

    let ret = Chat::delete(0, 1);
    assert!(ret.is_err());
    let ret = Chat::delete(10, 0);
    assert!(ret.is_err());
}

#[test]
fn create_chat_new_maps_empty_name_to_none() {
    let c = CreateChat::new("", &[4, 5, 6], true);
    assert!(c.name.is_none());
    assert_eq!(c.members, vec![4, 5, 6]);
    assert!(c.public);
    let c = CreateChat::new("team", &[], false);
    assert_eq!(c.name.as_deref(), Some("team"));
    assert!(c.members.is_empty());
    assert!(!c.public);
}

#[test]
fn update_chat_new_maps_empty_name_to_none() {
    let c = UpdateChat::new("", &[7], false);
    assert!(c.name.is_none());
    assert_eq!(c.members, vec![7]);
    let c = UpdateChat::new("x", &[7, 8], true);
    assert_eq!(c.name.as_deref(), Some("x"));
    assert!(c.public);
}

#[test]
fn create_refuses_fewer_than_two_members() {
    let r = Chat::create(CreateChat::new("named", &[1], true), 1, 1);
    assert_eq!(r.err(), Some(create_error("Chat must have at least 2 members")));
    let r = Chat::create(CreateChat::new("", &[], false), 1, 0);
    assert_eq!(r.err(), Some(create_error("Chat must have at least 2 members")));
}

#[test]
fn create_refuses_large_unnamed_group() {
    let members: Vec<i64> = (1..=9).collect();
    let r = Chat::create(CreateChat::new("", &members, false), 1, 9);
    assert_eq!(
        r.err(),
        Some(create_error("Group chat with more than 8 members must have a name"))
    );
    let chat = Chat::create(CreateChat::new("big", &members, false), 1, 9).unwrap();
    assert_eq!(chat.chat_type, ChatType::PrivateChannel);
}

#[test]
fn create_refuses_unknown_members() {
    let r = Chat::create(CreateChat::new("", &[1, 2, 3], false), 1, 2);
    assert_eq!(r.err(), Some(create_error("Some members do not exist.")));
}

#[test]
fn unnamed_chat_of_three_to_eight_is_group() {
    let chat = Chat::create(CreateChat::new("", &[1, 2, 3], true), 2, 3).unwrap();
    assert_eq!(chat.chat_type, ChatType::Group);
    assert!(chat.name.is_none());
    let members: Vec<i64> = (1..=8).collect();
    let chat = Chat::create(CreateChat::new("", &members, false), 2, 8).unwrap();
    assert_eq!(chat.chat_type, ChatType::Group);
    assert_eq!(chat.ws_id, 2);
}

#[test]
fn named_chat_of_two_is_channel() {
    let chat = Chat::create(CreateChat::new("duo", &[1, 2], false), 1, 2).unwrap();
    assert_eq!(chat.chat_type, ChatType::PrivateChannel);
}

#[test]
fn create_keeps_members_in_order() {
    let chat = Chat::create(CreateChat::new("", &[9, 3, 5], false), 1, 3).unwrap();
    assert_eq!(chat.members, vec![9, 3, 5]);
}

#[test]
fn update_applies_same_rules_with_update_errors() {
    let r = Chat::update(4, UpdateChat::new("", &[1], false), 1);
    assert_eq!(r.err(), Some(update_error("Chat must have at least 2 members")));
    let members: Vec<i64> = (1..=10).collect();
    let r = Chat::update(4, UpdateChat::new("", &members, false), 10);
    assert_eq!(
        r.err(),
        Some(update_error("Group chat with more than 8 members must have a name"))
    );
    let r = Chat::update(4, UpdateChat::new("", &[1, 2], false), 1);
    assert_eq!(r.err(), Some(update_error("Some members do not exist.")));
    let c = Chat::update(4, UpdateChat::new("", &[1, 2], false), 2).unwrap();
    assert_eq!(c.chat_type, ChatType::Single);
    assert!(c.name.is_none());
}

#[test]
fn validate_checks_shape_only() {
    assert!(CreateChat::new("", &[1, 2], false).validate().is_ok());
    assert_eq!(
        CreateChat::new("", &[1], false).validate().err(),
        Some(create_error("Chat must have at least 2 members"))
    );
    let members: Vec<i64> = (1..=9).collect();
    assert_eq!(
        UpdateChat::new("", &members, false).validate().err(),
        Some(update_error("Group chat with more than 8 members must have a name"))
    );
    assert!(UpdateChat::new("n", &members, false).validate().is_ok());
}

#[test]
fn delete_messages() {
    assert_eq!(
        Chat::delete(0, 0).err(),
        Some(AppError::DeleteChatError("Chat with id=0 can not be delete".to_string()))
    );
    assert_eq!(
        Chat::check_delete(0).err(),
        Some(AppError::DeleteChatError("Chat with id=0 can not be delete".to_string()))
    );
    assert!(Chat::check_delete(10).is_ok());
    assert_eq!(
        Chat::delete(10, 0).err(),
        Some(AppError::DeleteChatError("Chat with id=10 not exist.".to_string()))
    );
    assert_eq!(
        Chat::delete(-7, 0).err(),
        Some(AppError::DeleteChatError("Chat with id=-7 not exist.".to_string()))
    );
    assert!(Chat::delete(10, 3).is_ok());
}
