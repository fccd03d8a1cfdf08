//! The provider-independent side of the client contract: the error taxonomy
//! every provider call reports through.

use vstd::prelude::*;

use crate::auth::AuthError;

verus! {

/// Why a provider call failed.
///
/// `Unauthorized` means the provider rejected the bearer token, so the
/// cached token is stale and the next call must refresh. `NotFound` and
/// `MalformedResponse` are surfaced without retry: repeating an identical
/// request cannot change them. `NetworkError` is a transport-level failure
/// (no response was received at all); retrying is the caller's business.
#[derive(Debug, Clone, PartialEq, Eq)]
pub enum ProviderError {
    Unauthorized,
    NotFound,
    MalformedResponse,
    NetworkError(String),
    Auth(AuthError),
}

} // verus!
