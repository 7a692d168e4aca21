//! Telecord: relays chat messages between linked Telegram chats and Discord channels.
//!
//! The library holds the relay's logic: the chat mapping read from configuration, the
//! intermediate messages that travel between the two bots, how an incoming event of either
//! platform becomes such a message, how a message is rendered for the platform it goes to,
//! the checks made before a file is downloaded, and the first-in first-out channel that carries
//! messages from one side to the other.
pub mod text;
pub mod config;


pub mod media;
pub mod tg;
pub mod dc;
pub mod inbound;
pub mod download;
pub mod relay;

pub use config::Config;
