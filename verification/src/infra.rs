//! What stands between the bot and the services it drives.

pub mod browser;
pub mod cache;
