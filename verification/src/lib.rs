//! The channel-activity cache and the infection rules of a chat game in which players
//! catch an infection from the author of the previous message in their channel.

pub mod buffer;
pub mod cache;
pub mod clock;
pub mod commands;
pub mod config;
pub mod handlers;
pub mod models;
pub mod text;
