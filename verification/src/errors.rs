//! Error taxonomy of the token lifecycle.

use vstd::prelude::*;

verus! {

/// Why a token was not accepted by validation.
///
/// The first two come from signature verification, `Expired` from the
/// embedded expiry, `Revoked` from the revocation store, and
/// `UnknownSubject` from the identity directory re-check. All of them are
/// collapsed into one opaque rejection at the request gate, so callers
/// outside this subsystem never learn which check failed.
#[derive(Clone, Copy, Debug, PartialEq, Eq, Structural)]
pub enum AuthError {
    /// The token could not be parsed as a signed token.
    Malformed,
    /// The token parsed but its signature does not verify under the key.
    InvalidSignature,
    /// The token's embedded expiry is not in the future.
    Expired,
    /// The token string is present in the revocation store.
    Revoked,
    /// The token's subject no longer exists in the identity directory.
    UnknownSubject,
}

/// Token issuance failed while encoding the payload. An infrastructure
/// failure, not attributable to the caller.
#[derive(Clone, Copy, Debug, PartialEq, Eq, Structural)]
pub struct SigningError;

/// The identity directory could not answer an existence query. An
/// infrastructure failure; validation treats it like an absent subject.
#[derive(Clone, Copy, Debug, PartialEq, Eq, Structural)]
pub struct LookupError;

} // verus!
