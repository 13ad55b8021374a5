//! The capability-style chat model: senders, message content, keyed
//! message collections and a chat over them, collapsed to one concrete
//! data shape per entity.

pub mod chat;
pub mod colour;
pub mod message;
pub mod messages;
pub mod sender;
