//! The per-request gate: extracts the bearer credential, has the service
//! validate it, and attaches the resolved identity or rejects with 401.
//!
//! A request moves `NoCredential -> CredentialPresent -> Valid | Rejected`.
//! The two steps here are the decisions of that machine; the surrounding
//! HTTP plumbing performs them in order and turns a rejection into a 401
//! response carrying [`GateRejection::message`].

use vstd::prelude::*;

use crate::auth::Claims;
use crate::errors::AuthError;

verus! {

/// Why a request was turned away; the caller sees 401 either way.
#[derive(Clone, Copy, Debug, PartialEq, Eq, Structural)]
pub enum GateRejection {
    /// The request carried no bearer credential at all.
    MissingCredential,
    /// The credential failed validation, for whatever reason.
    InvalidToken,
}

impl GateRejection {
    /// The response body. All validation failures share one message;
    /// a caller is never told whether a token was malformed, forged,
    /// expired, revoked or orphaned.
    pub fn message(&self) -> (r: String)
        ensures
            *self == GateRejection::MissingCredential ==> r@ == "no bearer token provided"@,
            *self == GateRejection::InvalidToken ==> r@ == "invalid token"@,
    {
        match self {
            GateRejection::MissingCredential => "no bearer token provided".to_owned(),
            GateRejection::InvalidToken => "invalid token".to_owned(),
        }
    }
}

/// First gate step: a request without a bearer credential is rejected
/// before any validation work is attempted.
pub fn gate_credential<'a>(credential: Option<&'a str>) -> (r: Result<&'a str, GateRejection>)
    ensures
        credential matches Some(t) ==> r == Ok::<&'a str, GateRejection>(t),
        credential is None ==> r == Err::<&'a str, GateRejection>(
            GateRejection::MissingCredential,
        ),
{
    match credential {
        Some(token) => Ok(token),
        None => Err(GateRejection::MissingCredential),
    }
}

/// Second gate step: on success the resolved identity passes through to
/// the handler; every failure collapses into the one opaque rejection, so
/// the response leaks nothing about which check failed.
pub fn gate_validation(validation: Result<Claims, AuthError>) -> (r: Result<Claims, GateRejection>)
    ensures
        validation matches Ok(c) ==> r == Ok::<Claims, GateRejection>(c),
        validation is Err ==> r == Err::<Claims, GateRejection>(GateRejection::InvalidToken),
{
    match validation {
        Ok(claims) => Ok(claims),
        Err(_) => Err(GateRejection::InvalidToken),
    }
}

} // verus!
