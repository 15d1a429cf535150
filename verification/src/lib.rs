//! A real-time messaging relay: a directory of connected users, bounded
//! offline queues, and the routing rules that connect them.
//!
//! The relay itself is in [`messages`], [`channel`], [`directory`],
//! [`queue`], [`state`], [`connection`] and [`listener`]. Beside it stand the
//! records of the chat client and the rules that the client holds its input
//! to: [`models`], [`input`], [`validation`], [`helpers`],
//! [`url_preview`] and [`tokens`].

pub mod channel;
pub mod connection;
pub mod directory;
pub mod helpers;
pub mod input;
pub mod json;
pub mod listener;
pub mod messages;
pub mod models;
pub mod queue;
pub mod state;
mod text;
pub mod tokens;
pub mod url_preview;
pub mod validation;
