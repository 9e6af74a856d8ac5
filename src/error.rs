//! Errors reported by the library.
use vstd::prelude::*;

verus! {

#[derive(Clone, Debug, PartialEq, Eq)]
pub enum Error {
    /// The signer rejected the key or failed to sign.
    SignatureFailure,
    /// A string that should hold an address does not.
    InvalidAddress,
    /// The account-wide user-events topic already has a subscriber.
    UserEvents,
    /// No subscription has the given id.
    SubscriptionNotFound,
    /// A value could not be encoded or decoded as JSON.
    JsonParse(String),
    /// The streaming connection failed.
    Websocket(String),
    /// A request to the venue failed.
    GenericRequest(String),
}

} // verus!
