//! Verified core of a Discord moderation and utility bot: guild
//! configuration, command parsing, XP accounting, AFK tracking, word-list
//! moderation and the routing of incoming events.
pub mod config;
pub mod global_config;
pub mod plugins;
pub mod text;
pub mod number;
pub mod commands;
pub mod handler;
