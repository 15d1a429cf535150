//! What the client's front end hands in, and the rules that it must meet
//! before anything is done with it. Lengths are counted in bytes.

use crate::text::str_eq;
use crate::validation::{agrees, byte_len};
use vstd::prelude::*;

verus! {

pub const MAX_USER_ID_LENGTH: usize = 128;

pub const MAX_CHAT_ID_LENGTH: usize = 256;

pub const MAX_MESSAGE_LENGTH: usize = 10000;

pub const MAX_SEARCH_QUERY_LENGTH: usize = 200;

/// Whether a text has at least one byte and at most the given number.
pub open spec fn length_within(text: Seq<char>, max: nat) -> bool {
    1 <= byte_len(text) <= max
}

/// Whether a text names a kind of message.
pub open spec fn message_type_known(value: Seq<char>) -> bool {
    value == "text"@ || value == "image"@ || value == "audio"@ || value == "video"@ || value == "document"@
}

/// Whether a text names a status of a message.
pub open spec fn message_status_known(value: Seq<char>) -> bool {
    value == "sent"@ || value == "delivered"@ || value == "read"@
}

fn check_length(text: &str, max: usize) -> (within: bool)
    ensures
        within == length_within(text@, max as nat),
{
    let length = text.as_bytes().len();
    1 <= length && length <= max
}

/// Custom validation for message type.
pub fn validate_message_type(value: &str) -> (known: bool)
    ensures
        known == message_type_known(value@),
{
    str_eq(value, "text") || str_eq(value, "image") || str_eq(value, "audio") || str_eq(value, "video") || str_eq(
        value,
        "document",
    )
}

/// Custom validation for message status.
pub fn validate_message_status(value: &str) -> (known: bool)
    ensures
        known == message_status_known(value@),
{
    str_eq(value, "sent") || str_eq(value, "delivered") || str_eq(value, "read")
}

/// Input for creating a new chat.
#[derive(Debug)]
pub struct CreateChatInput {
    pub user_id: String,
}

/// Input for getting messages from a chat.
#[derive(Debug)]
pub struct GetMessagesInput {
    pub chat_id: String,
    pub limit: i32,
    pub offset: i32,
}

/// Input for sending a message.
#[derive(Debug)]
pub struct SendMessageInput {
    pub chat_id: String,
    pub content: String,
    pub message_type: String,
}

/// Input for marking messages as read.
#[derive(Debug)]
pub struct MarkAsReadInput {
    pub chat_id: String,
}

/// Input for updating message status.
#[derive(Debug)]
pub struct UpdateMessageStatusInput {
    pub message_id: String,
    pub status: String,
}

/// Input for searching messages.
#[derive(Debug)]
pub struct SearchMessagesInput {
    pub query: String,
}

/// Checks an input against its rules, field by field, and says which rule the
/// first field that breaks one has broken.
pub trait ValidateExt {
    /// The complaint about the first field that breaks a rule, if one does.
    spec fn input_error(&self) -> Option<Seq<char>>;

    fn validate_input(&self) -> (outcome: Result<(), String>)
        ensures
            agrees(outcome, self.input_error()),
    ;
}

impl ValidateExt for CreateChatInput {
    open spec fn input_error(&self) -> Option<Seq<char>> {
        if !length_within(self.user_id@, MAX_USER_ID_LENGTH as nat) {
            Some("user_id: length is out of range"@)
        } else {
            None
        }
    }

    fn validate_input(&self) -> (outcome: Result<(), String>) {
        if !check_length(self.user_id.as_str(), MAX_USER_ID_LENGTH) {
            return Err("user_id: length is out of range".to_owned());
        }
        Ok(())
    }
}

impl ValidateExt for GetMessagesInput {
    open spec fn input_error(&self) -> Option<Seq<char>> {
        if !length_within(self.chat_id@, MAX_CHAT_ID_LENGTH as nat) {
            Some("chat_id: length is out of range"@)
        } else if !(1 <= self.limit <= 1000) {
            Some("limit: value is out of range"@)
        } else if self.offset < 0 {
            Some("offset: value is out of range"@)
        } else {
            None
        }
    }

    fn validate_input(&self) -> (outcome: Result<(), String>) {
        if !check_length(self.chat_id.as_str(), MAX_CHAT_ID_LENGTH) {
            return Err("chat_id: length is out of range".to_owned());
        }
        if self.limit < 1 || self.limit > 1000 {
            return Err("limit: value is out of range".to_owned());
        }
        if self.offset < 0 {
            return Err("offset: value is out of range".to_owned());
        }
        Ok(())
    }
}

impl ValidateExt for SendMessageInput {
    open spec fn input_error(&self) -> Option<Seq<char>> {
        if !length_within(self.chat_id@, MAX_CHAT_ID_LENGTH as nat) {
            Some("chat_id: length is out of range"@)
        } else if !length_within(self.content@, MAX_MESSAGE_LENGTH as nat) {
            Some("content: length is out of range"@)
        } else if !message_type_known(self.message_type@) {
            Some("message_type: Invalid message type"@)
        } else {
            None
        }
    }

    fn validate_input(&self) -> (outcome: Result<(), String>) {
        if !check_length(self.chat_id.as_str(), MAX_CHAT_ID_LENGTH) {
            return Err("chat_id: length is out of range".to_owned());
        }
        if !check_length(self.content.as_str(), MAX_MESSAGE_LENGTH) {
            return Err("content: length is out of range".to_owned());
        }
        if !validate_message_type(self.message_type.as_str()) {
            return Err("message_type: Invalid message type".to_owned());
        }
        Ok(())
    }
}

impl ValidateExt for MarkAsReadInput {
    open spec fn input_error(&self) -> Option<Seq<char>> {
        if !length_within(self.chat_id@, MAX_CHAT_ID_LENGTH as nat) {
            Some("chat_id: length is out of range"@)
        } else {
            None
        }
    }

    fn validate_input(&self) -> (outcome: Result<(), String>) {
        if !check_length(self.chat_id.as_str(), MAX_CHAT_ID_LENGTH) {
            return Err("chat_id: length is out of range".to_owned());
        }
        Ok(())
    }
}

impl ValidateExt for UpdateMessageStatusInput {
    open spec fn input_error(&self) -> Option<Seq<char>> {
        if !length_within(self.message_id@, MAX_USER_ID_LENGTH as nat) {
            Some("message_id: length is out of range"@)
        } else if !message_status_known(self.status@) {
            Some("status: Invalid message status"@)
        } else {
            None
        }
    }

    fn validate_input(&self) -> (outcome: Result<(), String>) {
        if !check_length(self.message_id.as_str(), MAX_USER_ID_LENGTH) {
            return Err("message_id: length is out of range".to_owned());
        }
        if !validate_message_status(self.status.as_str()) {
            return Err("status: Invalid message status".to_owned());
        }
        Ok(())
    }
}

impl ValidateExt for SearchMessagesInput {
    open spec fn input_error(&self) -> Option<Seq<char>> {
        if !length_within(self.query@, MAX_SEARCH_QUERY_LENGTH as nat) {
            Some("query: length is out of range"@)
        } else {
            None
        }
    }

    fn validate_input(&self) -> (outcome: Result<(), String>) {
        if !check_length(self.query.as_str(), MAX_SEARCH_QUERY_LENGTH) {
            return Err("query: length is out of range".to_owned());
        }
        Ok(())
    }
}

} // verus!
