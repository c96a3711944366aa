pub mod automod;
pub mod xp;
pub mod config;
pub mod afk;
pub mod chat;
pub mod activity;
pub mod logging;
