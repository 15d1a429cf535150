//! The records of the chat client: users, chats, messages, link previews,
//! keys and peers.

use vstd::prelude::*;

verus! {

/// A user, as the client keeps and shows one.
#[derive(Debug, Clone, PartialEq, Eq)]
pub struct User {
    pub id: String,
    /// The name that the user broadcasts.
    pub name: String,
    /// Local alias set by the current user (overrides name in UI).
    pub display_name: Option<String>,
    pub phone: Option<String>,
    pub avatar_url: Option<String>,
    pub about: Option<String>,
    pub last_seen: Option<i64>,
    pub is_online: bool,
    /// Whether to fetch and show link previews.
    pub link_previews_enabled: bool,
}

/// Link previews are shown unless the user turns them off.
pub fn default_link_previews() -> (enabled: bool)
    ensures
        enabled,
{
    true
}

/// A message, as the client keeps and shows one.
#[derive(Debug, Clone, PartialEq, Eq)]
pub struct Message {
    pub id: String,
    pub chat_id: String,
    pub sender_id: String,
    pub sender: Option<User>,
    pub content: Option<String>,
    pub message_type: String,
    pub media_url: Option<String>,
    pub reply_to_id: Option<String>,
    pub status: String,
    pub created_at: i64,
    pub edited_at: Option<i64>,
}

/// A chat, with its latest message and the user on the other side.
#[derive(Debug, Clone, PartialEq, Eq)]
pub struct Chat {
    pub id: String,
    pub chat_type: String,
    pub name: Option<String>,
    pub avatar_url: Option<String>,
    pub created_at: i64,
    pub updated_at: i64,
    pub last_message: Option<Message>,
    pub unread_count: i32,
    pub participant: Option<User>,
}

/// What was found behind a link, and when.
#[derive(Debug, Clone, PartialEq, Eq)]
pub struct UrlPreview {
    pub url: String,
    pub title: Option<String>,
    pub description: Option<String>,
    pub image_url: Option<String>,
    pub site_name: Option<String>,
    pub fetched_at: i64,
}

/// What was found behind a link, as it travels with a message.
#[derive(Debug, Clone, PartialEq, Eq)]
pub struct WsUrlPreview {
    pub url: String,
    pub title: Option<String>,
    pub description: Option<String>,
    pub image_url: Option<String>,
    pub site_name: Option<String>,
}

/// A key pair as bytes, for storage and transport.
#[derive(Debug, Clone, PartialEq, Eq)]
pub struct SerializableKeyPair {
    pub public_key: Vec<u8>,
    pub private_key: Vec<u8>,
}

/// An encrypted message with what the receiver needs to open it.
#[derive(Debug, Clone, PartialEq, Eq)]
pub struct EncryptedMessage {
    pub ciphertext: Vec<u8>,
    pub nonce: Vec<u8>,
    pub sender_public_key: Vec<u8>,
}

/// The identity that was found in, or made for, the persistent storage.
#[derive(Debug, Clone, PartialEq, Eq)]
pub struct IdentityInfo {
    pub user_id: String,
    pub public_key_hex: String,
    pub is_new: bool,
}

/// A peer on the local network.
#[derive(Debug, Clone, PartialEq, Eq)]
pub struct PeerInfo {
    pub ip: String,
    pub port: u16,
    pub connected: bool,
}

/// How the client stands in the local network.
#[derive(Debug, Clone, PartialEq, Eq)]
pub struct NetworkStatus {
    pub is_server: bool,
    pub local_ip: Option<String>,
    pub port: u16,
    pub connected_peers: Vec<PeerInfo>,
}

/// A server that helps two clients find a path to one another for a call.
#[derive(Debug, Clone, PartialEq, Eq)]
pub struct IceServer {
    pub urls: String,
    pub username: Option<String>,
    pub credential: Option<String>,
}

/// The two public STUN servers that are used where no others are configured.
pub fn get_fallback_servers() -> (servers: Vec<IceServer>)
    ensures
        servers@.len() == 2,
        servers@[0].urls@ == "stun:stun.l.google.com:19302"@,
        servers@[1].urls@ == "stun:stun1.l.google.com:19302"@,
        forall|i: int|
            0 <= i < 2 ==> (#[trigger] servers@[i]).username is None && servers@[i].credential is None,
{
    let mut servers: Vec<IceServer> = Vec::new();
    servers.push(IceServer { urls: "stun:stun.l.google.com:19302".to_owned(), username: None, credential: None });
    servers.push(IceServer { urls: "stun:stun1.l.google.com:19302".to_owned(), username: None, credential: None });
    servers
}

/// The file extension of the image format that the first bytes announce:
/// PNG, JPEG or WebP. Fewer than four bytes announce nothing.
pub open spec fn image_format(bytes: Seq<u8>) -> Option<Seq<char>> {
    if bytes.len() < 4 {
        None
    } else if bytes[0] == 0x89 && bytes[1] == 0x50 && bytes[2] == 0x4E && bytes[3] == 0x47 {
        Some("png"@)
    } else if bytes[0] == 0xFF && bytes[1] == 0xD8 && bytes[2] == 0xFF {
        Some("jpg"@)
    } else if bytes.len() >= 12 && bytes[0] == 0x52 && bytes[1] == 0x49 && bytes[2] == 0x46 && bytes[3] == 0x46
        && bytes[8] == 0x57 && bytes[9] == 0x45 && bytes[10] == 0x42 && bytes[11] == 0x50 {
        Some("webp"@)
    } else {
        None
    }
}

/// Tells an image's format by its first bytes.
pub fn detect_image_format(bytes: &[u8]) -> (format: Option<&'static str>)
    ensures
        match format {
            Some(extension) => image_format(bytes@) == Some(extension@),
            None => image_format(bytes@) is None,
        },
{
    if bytes.len() < 4 {
        return None;
    }
    if bytes[0] == 0x89 && bytes[1] == 0x50 && bytes[2] == 0x4E && bytes[3] == 0x47 {
        return Some("png");
    }
    if bytes[0] == 0xFF && bytes[1] == 0xD8 && bytes[2] == 0xFF {
        return Some("jpg");
    }
    if bytes.len() >= 12 && bytes[0] == 0x52 && bytes[1] == 0x49 && bytes[2] == 0x46 && bytes[3] == 0x46
        && bytes[8] == 0x57 && bytes[9] == 0x45 && bytes[10] == 0x42 && bytes[11] == 0x50 {
        return Some("webp");
    }
    None
}

} // verus!
