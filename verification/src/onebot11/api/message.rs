//! The message-sending calls of the chat protocol.

use vstd::prelude::*;

use crate::onebot11::message::Message;

verus! {

/// The call that sends a private message.
#[derive(Debug, Clone, Copy)]
pub struct SendPrivateMsg;

/// Parameters of a private message send.
#[derive(Debug)]
pub struct SendPrivateMsgParam {
    pub user_id: i64,
    pub message: Vec<Message>,
    pub auto_escape: bool,
}

/// What a private message send answers.
#[derive(Debug, Clone, Copy)]
pub struct SendPrivateMsgResponse {
    pub message_id: i64,
}

/// The call that sends a group message.
#[derive(Debug, Clone, Copy)]
pub struct SendGroupMsg;

/// Parameters of a group message send.
#[derive(Debug)]
pub struct SendGroupMsgParam {
    pub group_id: i64,
    pub message: Vec<Message>,
    pub auto_escape: bool,
}

/// What a group message send answers.
#[derive(Debug, Clone, Copy)]
pub struct SendGroupMsgResponse {
    pub message_id: i64,
}

} // verus!
