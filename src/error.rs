use vstd::prelude::*;

verus! {

/// What can go wrong while resolving a remote, a request or a checkout.
#[derive(Debug, Clone, PartialEq, Eq)]
pub enum ReqError {
    /// No remote of the given name is configured in the repository.
    RemoteNotConfigured,
    /// The remote's URL points at a host of no known provider.
    ProviderNotRecognized,
    /// The provider's API needs a key and none (or a refused one) was given.
    AuthenticationMissingOrInvalid,
    /// The provider needs a project binding and the remote has none.
    ProjectNotConfigured,
    /// The provider's API answered with an unexpected HTTP status.
    ApiError(u16),
    /// No open request carries the given number.
    RequestNotFound,
    /// The configuration store failed for a reason other than "not found".
    ConfigStoreError(String),
    /// The version-control engine refused to switch branches.
    CheckoutFailed(String),
}

} // verus!
