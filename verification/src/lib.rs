//! Control and broadcast bridge between a text editor and a browser-based
//! live-coding music client.
//!
//! The editor's thread issues commands ([`command`]); the server
//! ([`app`]) answers control requests according to its [`lifecycle`]; each
//! connected client is served by a [`session`] that relays published events
//! as frames ([`message`]). The channels in between are `tokio`'s
//! ([`channel`]).

pub mod app;
pub mod channel;
pub mod command;
pub mod lifecycle;
pub mod message;
pub mod session;
pub mod text;
