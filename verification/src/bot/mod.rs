//! The bot: group modes, payment gates, per-bot configuration and commands.
pub mod bot_config;
pub mod commands;
pub mod group;
pub mod payments;
pub mod startup;
