//! The ways an operation of the client can fail.

use vstd::prelude::*;

verus! {

/// Why an operation did not succeed.
#[derive(Debug, Clone, Copy, PartialEq, Eq, Structural)]
pub enum ClientError {
    /// The request was not sent, or no response was received.
    NetworkFailure,
    /// The provider rejected the authorization code or the exchange for it.
    AuthFailure,
    /// No access token could be obtained for the stored refresh token.
    TokenFailure,
    /// The resource endpoint rejected the access token.
    TokenExpired,
    /// A response or request matched no recognized shape.
    MalformedResponse,
    /// The authorization callback did not arrive in time.
    Timeout,
}

} // verus!
