//! Events the chat protocol delivers: private and group messages and their
//! senders.

use vstd::prelude::*;

use crate::onebot11::message::Message;

verus! {

/// A message event, private or from a group.
#[derive(Debug)]
pub enum MessageEvent {
    Private(PrivateMessage),
    Group(GroupMessage),
}

/// A private message event.
#[derive(Debug)]
pub struct PrivateMessage {
    pub sub_type: PrivateMessageType,
    pub message_id: i32,
    pub user_id: i64,
    pub message: Vec<Message>,
    pub raw_message: String,
    pub font: i32,
    pub sender: PrivateMessageSender,
}

/// How a private message reached the bot.
#[derive(Debug, Clone, Copy, PartialEq, Eq, Structural)]
pub enum PrivateMessageType {
    Frient,
    Group,
    Other,
}

/// What is known of a private message's sender.
#[derive(Debug, Clone)]
pub struct PrivateMessageSender {
    pub user_id: Option<i64>,
    pub nickname: Option<String>,
    pub sex: Option<SexType>,
    pub age: Option<i32>,
}

/// A group message event.
#[derive(Debug)]
pub struct GroupMessage {
    pub sub_type: GroupMessageType,
    pub message_id: i32,
    pub group_id: i64,
    pub user_id: i64,
    pub message: Vec<Message>,
    pub raw_message: String,
    pub font: i32,
    pub anonymous: Option<AnonymousSender>,
    pub sender: GroupMessageSender,
}

/// What is known of a group message's sender.
#[derive(Debug, Clone)]
pub struct GroupMessageSender {
    pub user_id: Option<i64>,
    pub nickname: Option<String>,
    pub card: Option<String>,
    pub sex: Option<SexType>,
    pub age: Option<i32>,
    pub area: Option<String>,
    pub level: Option<String>,
    pub role: Option<GroupRole>,
    pub title: Option<String>,
}

/// An anonymous group sender.
#[derive(Debug, Clone)]
pub struct AnonymousSender {
    pub id: i64,
    pub name: String,
    pub flag: String,
}

/// How a group message was posted.
#[derive(Debug, Clone, Copy, PartialEq, Eq, Structural)]
pub enum GroupMessageType {
    Anonymous,
    Notice,
    Normal,
}

/// The declared sex of a sender.
#[derive(Debug, Clone, Copy, PartialEq, Eq, Structural)]
pub enum SexType {
    Male,
    Female,
    Unknown,
}

/// The role of a sender within a group.
#[derive(Debug, Clone, Copy, PartialEq, Eq, Structural)]
pub enum GroupRole {
    Owner,
    Admin,
    Member,
}

/// A lifecycle meta event.
#[derive(Debug, Clone)]
pub struct Lifecycle {
    pub sub_type: LifecycleSubtype,
}

/// Which lifecycle edge a meta event reports.
#[derive(Debug, Clone, Copy, PartialEq, Eq, Structural)]
pub enum LifecycleSubtype {
    Enable,
    Disable,
    Connect,
}

} // verus!
