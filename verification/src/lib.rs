//! The core of a Signal bot that answers with a language model.
//!
//! - [`bot`]: group modes, payment gates, the configuration of each bot account, and the commands,
//!   among them the chat itself
//! - [`stripe`]: subscriptions paid through Stripe, their encrypted store and Stripe's webhooks
//! - [`proxy`]: the registration proxy, with tokens, rate limits, accounts and alerts
//! - [`clock`], [`codec`], [`crypto`], [`json`], [`table`], [`text`]: what these are built on
//!
//! Each function states what it returns and changes over mathematical values: texts are sequences
//! of characters, tables are maps. Where work outside of this crate decides how things go on, a
//! state machine takes the decisions; what holds of all its runs is proved beside it.

pub mod bot;
pub mod clock;
pub mod codec;
pub mod crypto;
pub mod json;
pub mod proxy;
pub mod stripe;
pub mod table;
pub mod text;
