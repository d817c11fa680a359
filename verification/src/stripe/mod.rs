//! Subscription billing with Stripe.
//!
//! Users have a free tier with a limited number of messages a day and upgrade through Stripe
//! Checkout; Stripe's webhooks then change the subscription store, and paid users send without a
//! limit.
//!
//! - [`config`]: keys, price identifiers, limits
//! - [`types`]: subscription status, subscription records, daily usage
//! - [`store`]: the subscription store and its encrypted form
//! - [`client`]: requests to Stripe's API, webhook signatures, event data
//! - [`webhooks`]: the effect of webhook events on the store
//! - [`laws`]: what holds of these as a whole
//! - [`error`]: errors

pub mod client;
pub mod config;
pub mod error;
pub mod laws;
pub mod store;
pub mod types;
pub mod webhooks;
