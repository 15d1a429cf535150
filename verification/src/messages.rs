//! The wire envelope: every kind of message that travels between the relay
//! and its clients, and its form as a JSON object.
//!
//! An envelope is a JSON object whose `type` field names the kind. Fields that
//! a kind does not know are ignored when reading; an optional field may be
//! absent or null, and is written as null where it is empty.

use crate::json::{
    as_parsed, fields_view, flag_entry, flag_field, flag_of, int_entry, int_field, int_of,
    json_fields_of, json_text_of, list_entry, list_field, list_of, lookup, lookup_from,
    optional_int_entry,
    optional_int_field, optional_int_of, optional_int_value, optional_text_entry,
    optional_text_field, optional_text_of, optional_text_value, parsed_view, read_object,
    text_entry, text_field, text_of, write_object, JsonField, JsonFieldView, JsonValueView,
    ParsedField, ParsedFieldView,
};
use crate::text::{str_eq, texts};
use vstd::prelude::*;

verus! {

/// WebSocket message types (shared between server and client).
#[derive(Debug, Clone, PartialEq, Eq)]
pub enum WsMessage {
    ChatMessage {
        id: String,
        chat_id: String,
        sender_id: String,
        sender_name: String,
        recipient_id: String,
        content: String,
        timestamp: i64,
    },
    Typing { chat_id: String, user_id: String, is_typing: bool },
    Presence { user_id: String, is_online: bool, last_seen: Option<i64> },
    DeliveryReceipt { message_id: String, chat_id: String, sender_id: String, delivered_to: String },
    ReadReceipt { chat_id: String, sender_id: String, user_id: String, message_ids: Vec<String> },
    Connect { user_id: String, token: Option<String> },
    AuthResponse { success: bool, message: String },
    Error { message: String },
    ProfileUpdate {
        user_id: String,
        name: String,
        phone: Option<String>,
        avatar_url: Option<String>,
        about: Option<String>,
        avatar_data: Option<String>,
    },
}

/// What a [`WsMessage`] holds.
pub enum WsMessageView {
    ChatMessage {
        id: Seq<char>,
        chat_id: Seq<char>,
        sender_id: Seq<char>,
        sender_name: Seq<char>,
        recipient_id: Seq<char>,
        content: Seq<char>,
        timestamp: i64,
    },
    Typing { chat_id: Seq<char>, user_id: Seq<char>, is_typing: bool },
    Presence { user_id: Seq<char>, is_online: bool, last_seen: Option<i64> },
    DeliveryReceipt { message_id: Seq<char>, chat_id: Seq<char>, sender_id: Seq<char>, delivered_to: Seq<char> },
    ReadReceipt { chat_id: Seq<char>, sender_id: Seq<char>, user_id: Seq<char>, message_ids: Seq<Seq<char>> },
    Connect { user_id: Seq<char>, token: Option<Seq<char>> },
    AuthResponse { success: bool, message: Seq<char> },
    Error { message: Seq<char> },
    ProfileUpdate {
        user_id: Seq<char>,
        name: Seq<char>,
        phone: Option<Seq<char>>,
        avatar_url: Option<Seq<char>>,
        about: Option<Seq<char>>,
        avatar_data: Option<Seq<char>>,
    },
}

/// What an optional string holds.
pub open spec fn optional_text(text: Option<String>) -> Option<Seq<char>> {
    match text {
        Some(text) => Some(text@),
        None => None,
    }
}

impl View for WsMessage {
    type V = WsMessageView;

    open spec fn view(&self) -> WsMessageView {
        match self {
            WsMessage::ChatMessage { id, chat_id, sender_id, sender_name, recipient_id, content, timestamp } => {
                WsMessageView::ChatMessage {
                    id: id@,
                    chat_id: chat_id@,
                    sender_id: sender_id@,
                    sender_name: sender_name@,
                    recipient_id: recipient_id@,
                    content: content@,
                    timestamp: *timestamp,
                }
            },
            WsMessage::Typing { chat_id, user_id, is_typing } => WsMessageView::Typing {
                chat_id: chat_id@,
                user_id: user_id@,
                is_typing: *is_typing,
            },
            WsMessage::Presence { user_id, is_online, last_seen } => WsMessageView::Presence {
                user_id: user_id@,
                is_online: *is_online,
                last_seen: *last_seen,
            },
            WsMessage::DeliveryReceipt { message_id, chat_id, sender_id, delivered_to } => {
                WsMessageView::DeliveryReceipt {
                    message_id: message_id@,
                    chat_id: chat_id@,
                    sender_id: sender_id@,
                    delivered_to: delivered_to@,
                }
            },
            WsMessage::ReadReceipt { chat_id, sender_id, user_id, message_ids } => WsMessageView::ReadReceipt {
                chat_id: chat_id@,
                sender_id: sender_id@,
                user_id: user_id@,
                message_ids: texts(message_ids@),
            },
            WsMessage::Connect { user_id, token } => WsMessageView::Connect {
                user_id: user_id@,
                token: optional_text(*token),
            },
            WsMessage::AuthResponse { success, message } => WsMessageView::AuthResponse {
                success: *success,
                message: message@,
            },
            WsMessage::Error { message } => WsMessageView::Error { message: message@ },
            WsMessage::ProfileUpdate { user_id, name, phone, avatar_url, about, avatar_data } => {
                WsMessageView::ProfileUpdate {
                    user_id: user_id@,
                    name: name@,
                    phone: optional_text(*phone),
                    avatar_url: optional_text(*avatar_url),
                    about: optional_text(*about),
                    avatar_data: optional_text(*avatar_data),
                }
            },
        }
    }
}

/// Why a text is no envelope.
#[derive(Debug, Clone, Copy, PartialEq, Eq, Structural)]
pub enum ParseError {
    /// The text is not one JSON object.
    Malformed,
    /// The object has no `type` field that holds a string.
    MissingType,
    /// The `type` field names no kind of envelope.
    UnknownType,
    /// A field of the kind is missing, or holds a value of the wrong kind.
    InvalidField,
}

impl ParseError {
    /// A sentence that says what was wrong.
    pub fn describe(&self) -> (sentence: String)
        ensures
            sentence@ == match *self {
                ParseError::Malformed => "text is not a JSON object"@,
                ParseError::MissingType => "object has no `type` string"@,
                ParseError::UnknownType => "unknown message type"@,
                ParseError::InvalidField => "missing or mistyped field"@,
            },
    {
        match self {
            ParseError::Malformed => "text is not a JSON object".to_owned(),
            ParseError::MissingType => "object has no `type` string".to_owned(),
            ParseError::UnknownType => "unknown message type".to_owned(),
            ParseError::InvalidField => "missing or mistyped field".to_owned(),
        }
    }
}

/// A field to be written, by its name and value.
pub open spec fn entry(name: Seq<char>, value: JsonValueView) -> JsonFieldView {
    JsonFieldView { name, value }
}

/// The JSON object of an envelope: its kind first, then its fields.
pub open spec fn encode_spec(message: WsMessageView) -> Seq<JsonFieldView> {
    match message {
        WsMessageView::ChatMessage { id, chat_id, sender_id, sender_name, recipient_id, content, timestamp } => seq![
            entry("type"@, JsonValueView::Text("message"@)),
            entry("id"@, JsonValueView::Text(id)),
            entry("chat_id"@, JsonValueView::Text(chat_id)),
            entry("sender_id"@, JsonValueView::Text(sender_id)),
            entry("sender_name"@, JsonValueView::Text(sender_name)),
            entry("recipient_id"@, JsonValueView::Text(recipient_id)),
            entry("content"@, JsonValueView::Text(content)),
            entry("timestamp"@, JsonValueView::Int(timestamp)),
        ],
        WsMessageView::Typing { chat_id, user_id, is_typing } => seq![
            entry("type"@, JsonValueView::Text("typing"@)),
            entry("chat_id"@, JsonValueView::Text(chat_id)),
            entry("user_id"@, JsonValueView::Text(user_id)),
            entry("is_typing"@, JsonValueView::Bool(is_typing)),
        ],
        WsMessageView::Presence { user_id, is_online, last_seen } => seq![
            entry("type"@, JsonValueView::Text("presence"@)),
            entry("user_id"@, JsonValueView::Text(user_id)),
            entry("is_online"@, JsonValueView::Bool(is_online)),
            entry("last_seen"@, optional_int_value(last_seen)),
        ],
        WsMessageView::DeliveryReceipt { message_id, chat_id, sender_id, delivered_to } => seq![
            entry("type"@, JsonValueView::Text("delivery_receipt"@)),
            entry("message_id"@, JsonValueView::Text(message_id)),
            entry("chat_id"@, JsonValueView::Text(chat_id)),
            entry("sender_id"@, JsonValueView::Text(sender_id)),
            entry("delivered_to"@, JsonValueView::Text(delivered_to)),
        ],
        WsMessageView::ReadReceipt { chat_id, sender_id, user_id, message_ids } => seq![
            entry("type"@, JsonValueView::Text("read_receipt"@)),
            entry("chat_id"@, JsonValueView::Text(chat_id)),
            entry("sender_id"@, JsonValueView::Text(sender_id)),
            entry("user_id"@, JsonValueView::Text(user_id)),
            entry("message_ids"@, JsonValueView::TextList(message_ids)),
        ],
        WsMessageView::Connect { user_id, token } => seq![
            entry("type"@, JsonValueView::Text("connect"@)),
            entry("user_id"@, JsonValueView::Text(user_id)),
            entry("token"@, optional_text_value(token)),
        ],
        WsMessageView::AuthResponse { success, message } => seq![
            entry("type"@, JsonValueView::Text("auth_response"@)),
            entry("success"@, JsonValueView::Bool(success)),
            entry("message"@, JsonValueView::Text(message)),
        ],
        WsMessageView::Error { message } => seq![
            entry("type"@, JsonValueView::Text("error"@)),
            entry("message"@, JsonValueView::Text(message)),
        ],
        WsMessageView::ProfileUpdate { user_id, name, phone, avatar_url, about, avatar_data } => seq![
            entry("type"@, JsonValueView::Text("profile_update"@)),
            entry("user_id"@, JsonValueView::Text(user_id)),
            entry("name"@, JsonValueView::Text(name)),
            entry("phone"@, optional_text_value(phone)),
            entry("avatar_url"@, optional_text_value(avatar_url)),
            entry("about"@, optional_text_value(about)),
            entry("avatar_data"@, optional_text_value(avatar_data)),
        ],
    }
}

/// The chat message that an object's fields make, with every field required.
pub open spec fn decode_chat_message(fields: Seq<ParsedFieldView>) -> Option<WsMessageView> {
    if text_of(fields, "id"@) is Some && text_of(fields, "chat_id"@) is Some && text_of(fields, "sender_id"@)
        is Some && text_of(fields, "sender_name"@) is Some && text_of(fields, "recipient_id"@) is Some
        && text_of(fields, "content"@) is Some && int_of(fields, "timestamp"@) is Some {
        Some(
            WsMessageView::ChatMessage {
                id: text_of(fields, "id"@)->0,
                chat_id: text_of(fields, "chat_id"@)->0,
                sender_id: text_of(fields, "sender_id"@)->0,
                sender_name: text_of(fields, "sender_name"@)->0,
                recipient_id: text_of(fields, "recipient_id"@)->0,
                content: text_of(fields, "content"@)->0,
                timestamp: int_of(fields, "timestamp"@)->0,
            },
        )
    } else {
        None
    }
}

/// The typing indicator that an object's fields make.
pub open spec fn decode_typing(fields: Seq<ParsedFieldView>) -> Option<WsMessageView> {
    if text_of(fields, "chat_id"@) is Some && text_of(fields, "user_id"@) is Some && flag_of(fields, "is_typing"@)
        is Some {
        Some(
            WsMessageView::Typing {
                chat_id: text_of(fields, "chat_id"@)->0,
                user_id: text_of(fields, "user_id"@)->0,
                is_typing: flag_of(fields, "is_typing"@)->0,
            },
        )
    } else {
        None
    }
}

/// The presence notice that an object's fields make; `last_seen` is optional.
pub open spec fn decode_presence(fields: Seq<ParsedFieldView>) -> Option<WsMessageView> {
    if text_of(fields, "user_id"@) is Some && flag_of(fields, "is_online"@) is Some && optional_int_of(
        fields,
        "last_seen"@,
    ) is Some {
        Some(
            WsMessageView::Presence {
                user_id: text_of(fields, "user_id"@)->0,
                is_online: flag_of(fields, "is_online"@)->0,
                last_seen: optional_int_of(fields, "last_seen"@)->0,
            },
        )
    } else {
        None
    }
}

/// The delivery receipt that an object's fields make.
pub open spec fn decode_delivery_receipt(fields: Seq<ParsedFieldView>) -> Option<WsMessageView> {
    if text_of(fields, "message_id"@) is Some && text_of(fields, "chat_id"@) is Some && text_of(
        fields,
        "sender_id"@,
    ) is Some && text_of(fields, "delivered_to"@) is Some {
        Some(
            WsMessageView::DeliveryReceipt {
                message_id: text_of(fields, "message_id"@)->0,
                chat_id: text_of(fields, "chat_id"@)->0,
                sender_id: text_of(fields, "sender_id"@)->0,
                delivered_to: text_of(fields, "delivered_to"@)->0,
            },
        )
    } else {
        None
    }
}

/// The read receipt that an object's fields make.
pub open spec fn decode_read_receipt(fields: Seq<ParsedFieldView>) -> Option<WsMessageView> {
    if text_of(fields, "chat_id"@) is Some && text_of(fields, "sender_id"@) is Some && text_of(fields, "user_id"@)
        is Some && list_of(fields, "message_ids"@) is Some {
        Some(
            WsMessageView::ReadReceipt {
                chat_id: text_of(fields, "chat_id"@)->0,
                sender_id: text_of(fields, "sender_id"@)->0,
                user_id: text_of(fields, "user_id"@)->0,
                message_ids: list_of(fields, "message_ids"@)->0,
            },
        )
    } else {
        None
    }
}

/// The connect request that an object's fields make; `token` is optional.
pub open spec fn decode_connect(fields: Seq<ParsedFieldView>) -> Option<WsMessageView> {
    if text_of(fields, "user_id"@) is Some && optional_text_of(fields, "token"@) is Some {
        Some(
            WsMessageView::Connect {
                user_id: text_of(fields, "user_id"@)->0,
                token: optional_text_of(fields, "token"@)->0,
            },
        )
    } else {
        None
    }
}

/// The answer to a connect request that an object's fields make.
pub open spec fn decode_auth_response(fields: Seq<ParsedFieldView>) -> Option<WsMessageView> {
    if flag_of(fields, "success"@) is Some && text_of(fields, "message"@) is Some {
        Some(
            WsMessageView::AuthResponse {
                success: flag_of(fields, "success"@)->0,
                message: text_of(fields, "message"@)->0,
            },
        )
    } else {
        None
    }
}

/// The error notice that an object's fields make.
pub open spec fn decode_error(fields: Seq<ParsedFieldView>) -> Option<WsMessageView> {
    if text_of(fields, "message"@) is Some {
        Some(WsMessageView::Error { message: text_of(fields, "message"@)->0 })
    } else {
        None
    }
}

/// The profile update that an object's fields make; all but `user_id` and
/// `name` are optional.
pub open spec fn decode_profile_update(fields: Seq<ParsedFieldView>) -> Option<WsMessageView> {
    if text_of(fields, "user_id"@) is Some && text_of(fields, "name"@) is Some && optional_text_of(
        fields,
        "phone"@,
    ) is Some && optional_text_of(fields, "avatar_url"@) is Some && optional_text_of(fields, "about"@) is Some
        && optional_text_of(fields, "avatar_data"@) is Some {
        Some(
            WsMessageView::ProfileUpdate {
                user_id: text_of(fields, "user_id"@)->0,
                name: text_of(fields, "name"@)->0,
                phone: optional_text_of(fields, "phone"@)->0,
                avatar_url: optional_text_of(fields, "avatar_url"@)->0,
                about: optional_text_of(fields, "about"@)->0,
                avatar_data: optional_text_of(fields, "avatar_data"@)->0,
            },
        )
    } else {
        None
    }
}

/// The envelope of the kind that a tag names, or `None` where the kind's fields
/// are not all there; an unknown tag is an error of its own.
pub open spec fn decode_kind(tag: Seq<char>, fields: Seq<ParsedFieldView>) -> Result<
    Option<WsMessageView>,
    ParseError,
> {
    if tag == "message"@ {
        Ok(decode_chat_message(fields))
    } else if tag == "typing"@ {
        Ok(decode_typing(fields))
    } else if tag == "presence"@ {
        Ok(decode_presence(fields))
    } else if tag == "delivery_receipt"@ {
        Ok(decode_delivery_receipt(fields))
    } else if tag == "read_receipt"@ {
        Ok(decode_read_receipt(fields))
    } else if tag == "connect"@ {
        Ok(decode_connect(fields))
    } else if tag == "auth_response"@ {
        Ok(decode_auth_response(fields))
    } else if tag == "error"@ {
        Ok(decode_error(fields))
    } else if tag == "profile_update"@ {
        Ok(decode_profile_update(fields))
    } else {
        Err(ParseError::UnknownType)
    }
}

/// The envelope that a JSON object is, or the reason for which it is none.
pub open spec fn decode_spec(fields: Seq<ParsedFieldView>) -> Result<WsMessageView, ParseError> {
    match text_of(fields, "type"@) {
        None => Err(ParseError::MissingType),
        Some(tag) => match decode_kind(tag, fields) {
            Err(error) => Err(error),
            Ok(None) => Err(ParseError::InvalidField),
            Ok(Some(message)) => Ok(message),
        },
    }
}

/// The envelope that a text is, or the reason for which it is none.
pub open spec fn parse_spec(text: Seq<char>) -> Result<WsMessageView, ParseError> {
    match json_fields_of(text) {
        None => Err(ParseError::Malformed),
        Some(fields) => decode_spec(fields),
    }
}

/// The text that an envelope is written as.
pub open spec fn serialize_spec(message: WsMessageView) -> Seq<char> {
    json_text_of(encode_spec(message))
}

/// Whether an outcome of reading is the one that the rules give.
pub open spec fn reads_as(outcome: Result<WsMessage, ParseError>, expected: Result<WsMessageView, ParseError>) -> bool {
    match outcome {
        Ok(message) => expected == Ok::<WsMessageView, ParseError>(message@),
        Err(error) => expected == Err::<WsMessageView, ParseError>(error),
    }
}

/// Whether an envelope was read, and is the one that the fields make.
pub open spec fn built_as(built: Option<WsMessage>, expected: Option<WsMessageView>) -> bool {
    match built {
        Some(message) => expected == Some(message@),
        None => expected is None,
    }
}

/// Turns an envelope into the fields of its JSON object.
pub fn encode(message: &WsMessage) -> (fields: Vec<JsonField>)
    ensures
        fields_view(fields@) == encode_spec(message@),
{
    let mut fields: Vec<JsonField> = Vec::new();
    match message {
        WsMessage::ChatMessage { id, chat_id, sender_id, sender_name, recipient_id, content, timestamp } => {
            fields.push(text_entry("type", "message"));
            fields.push(text_entry("id", id.as_str()));
            fields.push(text_entry("chat_id", chat_id.as_str()));
            fields.push(text_entry("sender_id", sender_id.as_str()));
            fields.push(text_entry("sender_name", sender_name.as_str()));
            fields.push(text_entry("recipient_id", recipient_id.as_str()));
            fields.push(text_entry("content", content.as_str()));
            fields.push(int_entry("timestamp", *timestamp));
        },
        WsMessage::Typing { chat_id, user_id, is_typing } => {
            fields.push(text_entry("type", "typing"));
            fields.push(text_entry("chat_id", chat_id.as_str()));
            fields.push(text_entry("user_id", user_id.as_str()));
            fields.push(flag_entry("is_typing", *is_typing));
        },
        WsMessage::Presence { user_id, is_online, last_seen } => {
            fields.push(text_entry("type", "presence"));
            fields.push(text_entry("user_id", user_id.as_str()));
            fields.push(flag_entry("is_online", *is_online));
            fields.push(optional_int_entry("last_seen", *last_seen));
        },
        WsMessage::DeliveryReceipt { message_id, chat_id, sender_id, delivered_to } => {
            fields.push(text_entry("type", "delivery_receipt"));
            fields.push(text_entry("message_id", message_id.as_str()));
            fields.push(text_entry("chat_id", chat_id.as_str()));
            fields.push(text_entry("sender_id", sender_id.as_str()));
            fields.push(text_entry("delivered_to", delivered_to.as_str()));
        },
        WsMessage::ReadReceipt { chat_id, sender_id, user_id, message_ids } => {
            fields.push(text_entry("type", "read_receipt"));
            fields.push(text_entry("chat_id", chat_id.as_str()));
            fields.push(text_entry("sender_id", sender_id.as_str()));
            fields.push(text_entry("user_id", user_id.as_str()));
            fields.push(list_entry("message_ids", message_ids));
        },
        WsMessage::Connect { user_id, token } => {
            fields.push(text_entry("type", "connect"));
            fields.push(text_entry("user_id", user_id.as_str()));
            fields.push(optional_text_entry("token", token));
        },
        WsMessage::AuthResponse { success, message } => {
            fields.push(text_entry("type", "auth_response"));
            fields.push(flag_entry("success", *success));
            fields.push(text_entry("message", message.as_str()));
        },
        WsMessage::Error { message } => {
            fields.push(text_entry("type", "error"));
            fields.push(text_entry("message", message.as_str()));
        },
        WsMessage::ProfileUpdate { user_id, name, phone, avatar_url, about, avatar_data } => {
            fields.push(text_entry("type", "profile_update"));
            fields.push(text_entry("user_id", user_id.as_str()));
            fields.push(text_entry("name", name.as_str()));
            fields.push(optional_text_entry("phone", phone));
            fields.push(optional_text_entry("avatar_url", avatar_url));
            fields.push(optional_text_entry("about", about));
            fields.push(optional_text_entry("avatar_data", avatar_data));
        },
    }
    assert(fields_view(fields@) =~= encode_spec(message@));
    fields
}

fn build_chat_message(fields: &Vec<ParsedField>) -> (built: Option<WsMessage>)
    ensures
        built_as(built, decode_chat_message(parsed_view(fields@))),
{
    let id = text_field(fields, "id")?;
    let chat_id = text_field(fields, "chat_id")?;
    let sender_id = text_field(fields, "sender_id")?;
    let sender_name = text_field(fields, "sender_name")?;
    let recipient_id = text_field(fields, "recipient_id")?;
    let content = text_field(fields, "content")?;
    let timestamp = int_field(fields, "timestamp")?;
    Some(WsMessage::ChatMessage { id, chat_id, sender_id, sender_name, recipient_id, content, timestamp })
}

fn build_typing(fields: &Vec<ParsedField>) -> (built: Option<WsMessage>)
    ensures
        built_as(built, decode_typing(parsed_view(fields@))),
{
    let chat_id = text_field(fields, "chat_id")?;
    let user_id = text_field(fields, "user_id")?;
    let is_typing = flag_field(fields, "is_typing")?;
    Some(WsMessage::Typing { chat_id, user_id, is_typing })
}

fn build_presence(fields: &Vec<ParsedField>) -> (built: Option<WsMessage>)
    ensures
        built_as(built, decode_presence(parsed_view(fields@))),
{
    let user_id = text_field(fields, "user_id")?;
    let is_online = flag_field(fields, "is_online")?;
    match optional_int_field(fields, "last_seen") {
        Ok(last_seen) => Some(WsMessage::Presence { user_id, is_online, last_seen }),
        Err(_) => None,
    }
}

fn build_delivery_receipt(fields: &Vec<ParsedField>) -> (built: Option<WsMessage>)
    ensures
        built_as(built, decode_delivery_receipt(parsed_view(fields@))),
{
    let message_id = text_field(fields, "message_id")?;
    let chat_id = text_field(fields, "chat_id")?;
    let sender_id = text_field(fields, "sender_id")?;
    let delivered_to = text_field(fields, "delivered_to")?;
    Some(WsMessage::DeliveryReceipt { message_id, chat_id, sender_id, delivered_to })
}

fn build_read_receipt(fields: &Vec<ParsedField>) -> (built: Option<WsMessage>)
    ensures
        built_as(built, decode_read_receipt(parsed_view(fields@))),
{
    let chat_id = text_field(fields, "chat_id")?;
    let sender_id = text_field(fields, "sender_id")?;
    let user_id = text_field(fields, "user_id")?;
    let message_ids = list_field(fields, "message_ids")?;
    Some(WsMessage::ReadReceipt { chat_id, sender_id, user_id, message_ids })
}

fn build_connect(fields: &Vec<ParsedField>) -> (built: Option<WsMessage>)
    ensures
        built_as(built, decode_connect(parsed_view(fields@))),
{
    let user_id = text_field(fields, "user_id")?;
    match optional_text_field(fields, "token") {
        Ok(token) => Some(WsMessage::Connect { user_id, token }),
        Err(_) => None,
    }
}

fn build_auth_response(fields: &Vec<ParsedField>) -> (built: Option<WsMessage>)
    ensures
        built_as(built, decode_auth_response(parsed_view(fields@))),
{
    let success = flag_field(fields, "success")?;
    let message = text_field(fields, "message")?;
    Some(WsMessage::AuthResponse { success, message })
}

fn build_error(fields: &Vec<ParsedField>) -> (built: Option<WsMessage>)
    ensures
        built_as(built, decode_error(parsed_view(fields@))),
{
    let message = text_field(fields, "message")?;
    Some(WsMessage::Error { message })
}

fn build_profile_update(fields: &Vec<ParsedField>) -> (built: Option<WsMessage>)
    ensures
        built_as(built, decode_profile_update(parsed_view(fields@))),
{
    let user_id = text_field(fields, "user_id")?;
    let name = text_field(fields, "name")?;
    let phone = match optional_text_field(fields, "phone") {
        Ok(phone) => phone,
        Err(_) => { return None; },
    };
    let avatar_url = match optional_text_field(fields, "avatar_url") {
        Ok(avatar_url) => avatar_url,
        Err(_) => { return None; },
    };
    let about = match optional_text_field(fields, "about") {
        Ok(about) => about,
        Err(_) => { return None; },
    };
    let avatar_data = match optional_text_field(fields, "avatar_data") {
        Ok(avatar_data) => avatar_data,
        Err(_) => { return None; },
    };
    Some(WsMessage::ProfileUpdate { user_id, name, phone, avatar_url, about, avatar_data })
}

/// Reads an envelope from the fields of a JSON object.
pub fn decode(fields: &Vec<ParsedField>) -> (outcome: Result<WsMessage, ParseError>)
    ensures
        reads_as(outcome, decode_spec(parsed_view(fields@))),
{
    let tag = match text_field(fields, "type") {
        Some(tag) => tag,
        None => { return Err(ParseError::MissingType); },
    };
    let kind = tag.as_str();
    let built = if str_eq(kind, "message") {
        build_chat_message(fields)
    } else if str_eq(kind, "typing") {
        build_typing(fields)
    } else if str_eq(kind, "presence") {
        build_presence(fields)
    } else if str_eq(kind, "delivery_receipt") {
        build_delivery_receipt(fields)
    } else if str_eq(kind, "read_receipt") {
        build_read_receipt(fields)
    } else if str_eq(kind, "connect") {
        build_connect(fields)
    } else if str_eq(kind, "auth_response") {
        build_auth_response(fields)
    } else if str_eq(kind, "error") {
        build_error(fields)
    } else if str_eq(kind, "profile_update") {
        build_profile_update(fields)
    } else {
        return Err(ParseError::UnknownType);
    };
    match built {
        Some(message) => Ok(message),
        None => Err(ParseError::InvalidField),
    }
}

/// The first field of a name is the one that no earlier field shares its name with.
proof fn lemma_lookup_from(fields: Seq<ParsedFieldView>, name: Seq<char>, start: int, at: int)
    requires
        0 <= start <= at < fields.len(),
        fields[at].name == name,
        forall|earlier: int| start <= earlier < at ==> fields[earlier].name != name,
    ensures
        lookup_from(fields, name, start) == Some(fields[at].value),
    decreases at - start,
{
    if start < at {
        lemma_lookup_from(fields, name, start + 1, at);
    }
}

/// The names of the fields are told apart by their lengths, and those of the
/// same length by one of their characters.
proof fn lemma_field_names_differ()
    ensures
        "id"@.len() == 2,
        "name"@.len() == 4,
        "type"@.len() == 4,
        "about"@.len() == 5,
        "phone"@.len() == 5,
        "token"@.len() == 5,
        "chat_id"@.len() == 7,
        "content"@.len() == 7,
        "message"@.len() == 7,
        "success"@.len() == 7,
        "user_id"@.len() == 7,
        "is_online"@.len() == 9,
        "is_typing"@.len() == 9,
        "last_seen"@.len() == 9,
        "sender_id"@.len() == 9,
        "timestamp"@.len() == 9,
        "avatar_url"@.len() == 10,
        "message_id"@.len() == 10,
        "avatar_data"@.len() == 11,
        "message_ids"@.len() == 11,
        "sender_name"@.len() == 11,
        "delivered_to"@.len() == 12,
        "recipient_id"@.len() == 12,
        "name"@[0] != "type"@[0],
        "about"@[0] != "phone"@[0],
        "about"@[0] != "token"@[0],
        "phone"@[0] != "token"@[0],
        "chat_id"@[1] != "content"@[1],
        "chat_id"@[0] != "message"@[0],
        "chat_id"@[0] != "success"@[0],
        "chat_id"@[0] != "user_id"@[0],
        "content"@[0] != "message"@[0],
        "content"@[0] != "success"@[0],
        "content"@[0] != "user_id"@[0],
        "message"@[0] != "success"@[0],
        "message"@[0] != "user_id"@[0],
        "success"@[0] != "user_id"@[0],
        "is_online"@[3] != "is_typing"@[3],
        "is_online"@[0] != "last_seen"@[0],
        "is_online"@[0] != "sender_id"@[0],
        "is_online"@[0] != "timestamp"@[0],
        "is_typing"@[0] != "last_seen"@[0],
        "is_typing"@[0] != "sender_id"@[0],
        "is_typing"@[0] != "timestamp"@[0],
        "last_seen"@[0] != "sender_id"@[0],
        "last_seen"@[0] != "timestamp"@[0],
        "sender_id"@[0] != "timestamp"@[0],
        "avatar_url"@[0] != "message_id"@[0],
        "avatar_data"@[0] != "message_ids"@[0],
        "avatar_data"@[0] != "sender_name"@[0],
        "message_ids"@[0] != "sender_name"@[0],
        "delivered_to"@[0] != "recipient_id"@[0],
{
    reveal_strlit("id");
    reveal_strlit("name");
    reveal_strlit("type");
    reveal_strlit("about");
    reveal_strlit("phone");
    reveal_strlit("token");
    reveal_strlit("chat_id");
    reveal_strlit("content");
    reveal_strlit("message");
    reveal_strlit("success");
    reveal_strlit("user_id");
    reveal_strlit("is_online");
    reveal_strlit("is_typing");
    reveal_strlit("last_seen");
    reveal_strlit("sender_id");
    reveal_strlit("timestamp");
    reveal_strlit("avatar_url");
    reveal_strlit("message_id");
    reveal_strlit("avatar_data");
    reveal_strlit("message_ids");
    reveal_strlit("sender_name");
    reveal_strlit("delivered_to");
    reveal_strlit("recipient_id");
}

/// The names of the kinds are nine different strings.
proof fn lemma_tags_differ()
    ensures
        "message"@ != "typing"@,
        "message"@ != "presence"@,
        "message"@ != "delivery_receipt"@,
        "message"@ != "read_receipt"@,
        "message"@ != "connect"@,
        "message"@ != "auth_response"@,
        "message"@ != "error"@,
        "message"@ != "profile_update"@,
        "typing"@ != "presence"@,
        "typing"@ != "delivery_receipt"@,
        "typing"@ != "read_receipt"@,
        "typing"@ != "connect"@,
        "typing"@ != "auth_response"@,
        "typing"@ != "error"@,
        "typing"@ != "profile_update"@,
        "presence"@ != "delivery_receipt"@,
        "presence"@ != "read_receipt"@,
        "presence"@ != "connect"@,
        "presence"@ != "auth_response"@,
        "presence"@ != "error"@,
        "presence"@ != "profile_update"@,
        "delivery_receipt"@ != "read_receipt"@,
        "delivery_receipt"@ != "connect"@,
        "delivery_receipt"@ != "auth_response"@,
        "delivery_receipt"@ != "error"@,
        "delivery_receipt"@ != "profile_update"@,
        "read_receipt"@ != "connect"@,
        "read_receipt"@ != "auth_response"@,
        "read_receipt"@ != "error"@,
        "read_receipt"@ != "profile_update"@,
        "connect"@ != "auth_response"@,
        "connect"@ != "error"@,
        "connect"@ != "profile_update"@,
        "auth_response"@ != "error"@,
        "auth_response"@ != "profile_update"@,
        "error"@ != "profile_update"@,
{
    reveal_strlit("message");
    reveal_strlit("typing");
    reveal_strlit("presence");
    reveal_strlit("delivery_receipt");
    reveal_strlit("read_receipt");
    reveal_strlit("connect");
    reveal_strlit("auth_response");
    reveal_strlit("error");
    reveal_strlit("profile_update");
    assert("message"@.len() == 7);
    assert("typing"@.len() == 6);
    assert("presence"@.len() == 8);
    assert("delivery_receipt"@.len() == 16);
    assert("read_receipt"@.len() == 12);
    assert("connect"@.len() == 7);
    assert("auth_response"@.len() == 13);
    assert("error"@.len() == 5);
    assert("profile_update"@.len() == 14);
    assert("message"@[0] != "connect"@[0]);
}

proof fn lemma_round_trip_chat_message(message: WsMessageView)
    requires
        message is ChatMessage,
    ensures
        decode_spec(as_parsed(encode_spec(message))) == Ok::<WsMessageView, ParseError>(message),
{
    let fields = as_parsed(encode_spec(message));
    lemma_field_names_differ();
    lemma_tags_differ();
    lemma_lookup_from(fields, "type"@, 0, 0);
    lemma_lookup_from(fields, "id"@, 0, 1);
    lemma_lookup_from(fields, "chat_id"@, 0, 2);
    lemma_lookup_from(fields, "sender_id"@, 0, 3);
    lemma_lookup_from(fields, "sender_name"@, 0, 4);
    lemma_lookup_from(fields, "recipient_id"@, 0, 5);
    lemma_lookup_from(fields, "content"@, 0, 6);
    lemma_lookup_from(fields, "timestamp"@, 0, 7);
}

proof fn lemma_round_trip_typing(message: WsMessageView)
    requires
        message is Typing,
    ensures
        decode_spec(as_parsed(encode_spec(message))) == Ok::<WsMessageView, ParseError>(message),
{
    let fields = as_parsed(encode_spec(message));
    lemma_field_names_differ();
    lemma_tags_differ();
    lemma_lookup_from(fields, "type"@, 0, 0);
    lemma_lookup_from(fields, "chat_id"@, 0, 1);
    lemma_lookup_from(fields, "user_id"@, 0, 2);
    lemma_lookup_from(fields, "is_typing"@, 0, 3);
}

proof fn lemma_round_trip_presence(message: WsMessageView)
    requires
        message is Presence,
    ensures
        decode_spec(as_parsed(encode_spec(message))) == Ok::<WsMessageView, ParseError>(message),
{
    let fields = as_parsed(encode_spec(message));
    lemma_field_names_differ();
    lemma_tags_differ();
    lemma_lookup_from(fields, "type"@, 0, 0);
    lemma_lookup_from(fields, "user_id"@, 0, 1);
    lemma_lookup_from(fields, "is_online"@, 0, 2);
    lemma_lookup_from(fields, "last_seen"@, 0, 3);
}

proof fn lemma_round_trip_delivery_receipt(message: WsMessageView)
    requires
        message is DeliveryReceipt,
    ensures
        decode_spec(as_parsed(encode_spec(message))) == Ok::<WsMessageView, ParseError>(message),
{
    let fields = as_parsed(encode_spec(message));
    lemma_field_names_differ();
    lemma_tags_differ();
    lemma_lookup_from(fields, "type"@, 0, 0);
    lemma_lookup_from(fields, "message_id"@, 0, 1);
    lemma_lookup_from(fields, "chat_id"@, 0, 2);
    lemma_lookup_from(fields, "sender_id"@, 0, 3);
    lemma_lookup_from(fields, "delivered_to"@, 0, 4);
}

proof fn lemma_round_trip_read_receipt(message: WsMessageView)
    requires
        message is ReadReceipt,
    ensures
        decode_spec(as_parsed(encode_spec(message))) == Ok::<WsMessageView, ParseError>(message),
{
    let fields = as_parsed(encode_spec(message));
    lemma_field_names_differ();
    lemma_tags_differ();
    lemma_lookup_from(fields, "type"@, 0, 0);
    lemma_lookup_from(fields, "chat_id"@, 0, 1);
    lemma_lookup_from(fields, "sender_id"@, 0, 2);
    lemma_lookup_from(fields, "user_id"@, 0, 3);
    lemma_lookup_from(fields, "message_ids"@, 0, 4);
}

proof fn lemma_round_trip_connect(message: WsMessageView)
    requires
        message is Connect,
    ensures
        decode_spec(as_parsed(encode_spec(message))) == Ok::<WsMessageView, ParseError>(message),
{
    let fields = as_parsed(encode_spec(message));
    lemma_field_names_differ();
    lemma_tags_differ();
    lemma_lookup_from(fields, "type"@, 0, 0);
    lemma_lookup_from(fields, "user_id"@, 0, 1);
    lemma_lookup_from(fields, "token"@, 0, 2);
}

proof fn lemma_round_trip_auth_response(message: WsMessageView)
    requires
        message is AuthResponse,
    ensures
        decode_spec(as_parsed(encode_spec(message))) == Ok::<WsMessageView, ParseError>(message),
{
    let fields = as_parsed(encode_spec(message));
    lemma_field_names_differ();
    lemma_tags_differ();
    lemma_lookup_from(fields, "type"@, 0, 0);
    lemma_lookup_from(fields, "success"@, 0, 1);
    lemma_lookup_from(fields, "message"@, 0, 2);
}

proof fn lemma_round_trip_error(message: WsMessageView)
    requires
        message is Error,
    ensures
        decode_spec(as_parsed(encode_spec(message))) == Ok::<WsMessageView, ParseError>(message),
{
    let fields = as_parsed(encode_spec(message));
    lemma_field_names_differ();
    lemma_tags_differ();
    lemma_lookup_from(fields, "type"@, 0, 0);
    lemma_lookup_from(fields, "message"@, 0, 1);
}

proof fn lemma_round_trip_profile_update(message: WsMessageView)
    requires
        message is ProfileUpdate,
    ensures
        decode_spec(as_parsed(encode_spec(message))) == Ok::<WsMessageView, ParseError>(message),
{
    let fields = as_parsed(encode_spec(message));
    lemma_field_names_differ();
    lemma_tags_differ();
    lemma_lookup_from(fields, "type"@, 0, 0);
    lemma_lookup_from(fields, "user_id"@, 0, 1);
    lemma_lookup_from(fields, "name"@, 0, 2);
    lemma_lookup_from(fields, "phone"@, 0, 3);
    lemma_lookup_from(fields, "avatar_url"@, 0, 4);
    lemma_lookup_from(fields, "about"@, 0, 5);
    lemma_lookup_from(fields, "avatar_data"@, 0, 6);
}

/// No two fields of an envelope's object have the same name, so the object
/// is one that JSON can hold without losing a field.
pub proof fn lemma_encoded_names_differ(message: WsMessageView)
    ensures
        forall|i: int, j: int|
            0 <= i < j < encode_spec(message).len() ==> encode_spec(message)[i].name != encode_spec(
                message,
            )[j].name,
{
    lemma_field_names_differ();
}

/// Every field of an envelope's object is found again under its name, with
/// the value that was written.
pub proof fn lemma_encoded_field_is_found(message: WsMessageView, at: int)
    requires
        0 <= at < encode_spec(message).len(),
    ensures
        lookup(as_parsed(encode_spec(message)), encode_spec(message)[at].name) == Some(
            Some(encode_spec(message)[at].value),
        ),
{
    lemma_encoded_names_differ(message);
    lemma_lookup_from(as_parsed(encode_spec(message)), encode_spec(message)[at].name, 0, at);
}

/// An envelope is read from an object by the names of its fields alone: two
/// objects in which every name leads to the same value are the same envelope,
/// in whatever order their fields stand and whatever else they repeat.
pub proof fn lemma_decode_reads_by_name(left: Seq<ParsedFieldView>, right: Seq<ParsedFieldView>)
    requires
        forall|name: Seq<char>| #[trigger] lookup(left, name) == lookup(right, name),
    ensures
        decode_spec(left) == decode_spec(right),
{
    assert(text_of(left, "type"@) == text_of(right, "type"@));
    if text_of(left, "type"@) is Some {
        let tag = text_of(left, "type"@)->0;
        assert(decode_chat_message(left) == decode_chat_message(right));
        assert(decode_typing(left) == decode_typing(right));
        assert(decode_presence(left) == decode_presence(right));
        assert(decode_delivery_receipt(left) == decode_delivery_receipt(right));
        assert(decode_read_receipt(left) == decode_read_receipt(right));
        assert(decode_connect(left) == decode_connect(right));
        assert(decode_auth_response(left) == decode_auth_response(right));
        assert(decode_error(left) == decode_error(right));
        assert(decode_profile_update(left) == decode_profile_update(right));
        assert(decode_kind(tag, left) == decode_kind(tag, right));
    }
}

/// Reading back the object that an envelope is written as gives that envelope:
/// nothing is lost or changed between [`encode_spec`] and [`decode_spec`].
pub proof fn lemma_decode_inverts_encode(message: WsMessageView)
    ensures
        decode_spec(as_parsed(encode_spec(message))) == Ok::<WsMessageView, ParseError>(message),
{
    match message {
        WsMessageView::ChatMessage { .. } => lemma_round_trip_chat_message(message),
        WsMessageView::Typing { .. } => lemma_round_trip_typing(message),
        WsMessageView::Presence { .. } => lemma_round_trip_presence(message),
        WsMessageView::DeliveryReceipt { .. } => lemma_round_trip_delivery_receipt(message),
        WsMessageView::ReadReceipt { .. } => lemma_round_trip_read_receipt(message),
        WsMessageView::Connect { .. } => lemma_round_trip_connect(message),
        WsMessageView::AuthResponse { .. } => lemma_round_trip_auth_response(message),
        WsMessageView::Error { .. } => lemma_round_trip_error(message),
        WsMessageView::ProfileUpdate { .. } => lemma_round_trip_profile_update(message),
    }
}

/// Reads an envelope from its JSON text.
pub fn parse(text: &str) -> (outcome: Result<WsMessage, ParseError>)
    ensures
        reads_as(outcome, parse_spec(text@)),
{
    match read_object(text) {
        Some(fields) => decode(&fields),
        None => Err(ParseError::Malformed),
    }
}

/// Writes an envelope as JSON text.
pub fn serialize(message: &WsMessage) -> (text: String)
    ensures
        text@ == serialize_spec(message@),
{
    let fields = encode(message);
    write_object(&fields)
}

} // verus!
