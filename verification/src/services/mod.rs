//! The services behind the commands: AI providers and chat sessions.

pub mod ai;
pub mod chat;

pub use chat::ChatManager;
