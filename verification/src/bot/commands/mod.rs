//! The commands that users send to the bot.
pub mod chat;
pub mod chat_actions;
pub mod chat_laws;
pub mod conversation;
pub mod help;
pub mod message;
pub mod mode;
pub mod subscribe;
