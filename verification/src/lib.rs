//! Decision logic of a small role-management chat bot.
//!
//! The crate turns the text of an incoming message into the actions the bot
//! takes: which command (if any) the message invokes, which replies are sent,
//! and which roles a member is given. Talking to the chat service itself is
//! left to the caller, which performs the returned actions in order.

pub mod arguments;
pub mod bot;
pub mod dispatch;
pub mod handlers;
pub mod render;
pub mod roles;
pub mod router;
pub mod suggest;
pub mod text;
