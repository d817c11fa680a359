//! Errors of the registration proxy.
use vstd::prelude::*;

verus! {

/// Why a request to the proxy failed.
#[derive(Debug)]
pub enum ProxyError {
    /// The text is no phone number.
    InvalidPhoneNumber(String),
    /// The number is registered already.
    AlreadyRegistered(String),
    /// The request does not prove that the number is its sender's.
    OwnershipProofMismatch,
    /// Signal's API failed.
    SignalApi(String),
    /// The number is not registered.
    NotFound(String),
    /// The request is not authenticated.
    Unauthorized(String),
    /// There were too many requests.
    RateLimitExceeded,
    /// Anything else.
    Internal(String),
}

/// A [`ProxyError`] with its texts as character sequences.
pub enum ProxyErrorView {
    InvalidPhoneNumber(Seq<char>),
    AlreadyRegistered(Seq<char>),
    OwnershipProofMismatch,
    SignalApi(Seq<char>),
    NotFound(Seq<char>),
    Unauthorized(Seq<char>),
    RateLimitExceeded,
    Internal(Seq<char>),
}

impl View for ProxyError {
    type V = ProxyErrorView;

    open spec fn view(&self) -> ProxyErrorView {
        match *self {
            ProxyError::InvalidPhoneNumber(m) => ProxyErrorView::InvalidPhoneNumber(m@),
            ProxyError::AlreadyRegistered(m) => ProxyErrorView::AlreadyRegistered(m@),
            ProxyError::OwnershipProofMismatch => ProxyErrorView::OwnershipProofMismatch,
            ProxyError::SignalApi(m) => ProxyErrorView::SignalApi(m@),
            ProxyError::NotFound(m) => ProxyErrorView::NotFound(m@),
            ProxyError::Unauthorized(m) => ProxyErrorView::Unauthorized(m@),
            ProxyError::RateLimitExceeded => ProxyErrorView::RateLimitExceeded,
            ProxyError::Internal(m) => ProxyErrorView::Internal(m@),
        }
    }
}

/// The error of a request that is not authenticated.
pub fn unauthorized(reason: &str) -> (r: ProxyError)
    ensures
        r@ == ProxyErrorView::Unauthorized(reason@),
{
    ProxyError::Unauthorized(reason.to_owned())
}

/// The error of a request for a number that is not registered.
pub fn not_found(number: &str) -> (r: ProxyError)
    ensures
        r@ == ProxyErrorView::NotFound(number@),
{
    ProxyError::NotFound(number.to_owned())
}

} // verus!
