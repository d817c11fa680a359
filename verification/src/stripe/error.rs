//! Errors of the payment system.
use vstd::prelude::*;
use vstd::string::*;

use crate::text::{decimal, decimal_text};

verus! {

/// What can go wrong in the payment system.
#[derive(Debug)]
pub enum StripeError {
    /// The user has used up the messages of the day.
    DailyLimitReached { limit: u32, upgrade_url: String },
    /// The subscription is not active.
    SubscriptionInactive(String),
    /// A call of Stripe's API failed.
    StripeApi(String),
    /// The signature of a webhook is wrong.
    InvalidSignature,
    /// Encryption or decryption failed.
    Encryption(String),
    /// Reading or writing the storage failed.
    Storage(String),
    /// A value could not be written as JSON or read from it.
    Serialization(String),
    /// The configuration is wrong.
    Config(String),
    /// There is no such user.
    UserNotFound(String),
    /// Anything else.
    Internal(String),
}

/// A [`StripeError`] with its texts as character sequences.
pub enum StripeErrorView {
    DailyLimitReached { limit: u32, upgrade_url: Seq<char> },
    SubscriptionInactive(Seq<char>),
    StripeApi(Seq<char>),
    InvalidSignature,
    Encryption(Seq<char>),
    Storage(Seq<char>),
    Serialization(Seq<char>),
    Config(Seq<char>),
    UserNotFound(Seq<char>),
    Internal(Seq<char>),
}

impl View for StripeError {
    type V = StripeErrorView;

    open spec fn view(&self) -> StripeErrorView {
        match *self {
            StripeError::DailyLimitReached { limit, upgrade_url } => {
                StripeErrorView::DailyLimitReached { limit, upgrade_url: upgrade_url@ }
            },
            StripeError::SubscriptionInactive(m) => StripeErrorView::SubscriptionInactive(m@),
            StripeError::StripeApi(m) => StripeErrorView::StripeApi(m@),
            StripeError::InvalidSignature => StripeErrorView::InvalidSignature,
            StripeError::Encryption(m) => StripeErrorView::Encryption(m@),
            StripeError::Storage(m) => StripeErrorView::Storage(m@),
            StripeError::Serialization(m) => StripeErrorView::Serialization(m@),
            StripeError::Config(m) => StripeErrorView::Config(m@),
            StripeError::UserNotFound(m) => StripeErrorView::UserNotFound(m@),
            StripeError::Internal(m) => StripeErrorView::Internal(m@),
        }
    }
}

impl StripeErrorView {
    /// The text that a user or a log sees.
    pub open spec fn text(self) -> Seq<char> {
        match self {
            StripeErrorView::DailyLimitReached { limit, upgrade_url } => {
                "Daily message limit reached ("@ + decimal(limit as nat)
                    + " messages). Upgrade your plan: "@ + upgrade_url
            },
            StripeErrorView::SubscriptionInactive(m) => "Subscription inactive: "@ + m,
            StripeErrorView::StripeApi(m) => "Stripe API error: "@ + m,
            StripeErrorView::InvalidSignature => "Invalid webhook signature"@,
            StripeErrorView::Encryption(m) => "Encryption error: "@ + m,
            StripeErrorView::Storage(m) => "Storage error: "@ + m,
            StripeErrorView::Serialization(m) => "Serialization error: "@ + m,
            StripeErrorView::Config(m) => "Configuration error: "@ + m,
            StripeErrorView::UserNotFound(m) => "User not found: "@ + m,
            StripeErrorView::Internal(m) => "Internal error: "@ + m,
        }
    }
}

fn labelled(label: &str, detail: &str) -> (r: String)
    ensures
        r@ == label@ + detail@,
{
    let mut s = label.to_owned();
    s.append(detail);
    s
}

impl StripeError {
    /// The text that a user or a log sees.
    pub fn message(&self) -> (r: String)
        ensures
            r@ == self@.text(),
    {
        match self {
            StripeError::DailyLimitReached { limit, upgrade_url } => {
                let mut s = "Daily message limit reached (".to_owned();
                s.append(decimal_text(*limit as u64).as_str());
                s.append(" messages). Upgrade your plan: ");
                s.append(upgrade_url.as_str());
                s
            },
            StripeError::SubscriptionInactive(m) => labelled("Subscription inactive: ", m.as_str()),
            StripeError::StripeApi(m) => labelled("Stripe API error: ", m.as_str()),
            StripeError::InvalidSignature => "Invalid webhook signature".to_owned(),
            StripeError::Encryption(m) => labelled("Encryption error: ", m.as_str()),
            StripeError::Storage(m) => labelled("Storage error: ", m.as_str()),
            StripeError::Serialization(m) => labelled("Serialization error: ", m.as_str()),
            StripeError::Config(m) => labelled("Configuration error: ", m.as_str()),
            StripeError::UserNotFound(m) => labelled("User not found: ", m.as_str()),
            StripeError::Internal(m) => labelled("Internal error: ", m.as_str()),
        }
    }
}

/// The outcome of an operation with its texts as character sequences.
pub open spec fn outcome<T: View>(r: Result<T, StripeError>) -> Result<T::V, StripeErrorView> {
    match r {
        Ok(v) => Ok(v@),
        Err(e) => Err(e@),
    }
}

} // verus!
