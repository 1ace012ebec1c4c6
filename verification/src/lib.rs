//! Verified core of an anime news and episode notifier for Discord.

pub mod text;
pub mod template;
pub mod models;
pub mod config;
pub mod layout;
pub mod clock;
pub mod state;
pub mod utils;
pub mod sources;
pub mod anilist;
pub mod json;
pub mod discord;
pub mod api;
