//! The registration proxy: accounts of bots, who may change them, and alerts.
pub mod alerts;
pub mod auth;
pub mod error;
pub mod handlers;
pub mod laws;
pub mod middleware;
pub mod registration;
pub mod registry;
