//! Relays posts of a social platform into a chat platform: finds the
//! thread a post belongs to, resolves each post's text and attachments,
//! and packs the thread into messages within the chat platform's limits.

pub mod analytics;
pub mod budget;
pub mod chunk;
pub mod conversation;
pub mod errors;
pub mod link;
pub mod media;
pub mod numbers;
pub mod post;
pub mod reply;
pub mod route;
pub mod text;
pub mod thread;
