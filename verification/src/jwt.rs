//! The trusted boundary to the `jsonwebtoken` crate.
//!
//! Tokens use the standard compact representation: three dot-separated
//! base64url segments (header, payload, signature), signed with a symmetric
//! secret. Everything the rest of the library knows about that
//! representation is stated here, over two named results: what signing a
//! payload yields, and what decoding a token string recovers.

use vstd::prelude::*;

use crate::auth::{Claims, ClaimsView};
use crate::errors::{AuthError, SigningError};
use jsonwebtoken::{decode, encode, Algorithm, DecodingKey, EncodingKey, Header, Validation};
use serde_json::Value;

verus! {

/// The token string that signing a payload of subject `sub` and expiry
/// `exp` with `secret` produces. The signing algorithm is deterministic,
/// so the result is a function of these three values alone.
pub uninterp spec fn jwt_token_of(sub: Seq<char>, exp: u64, secret: Seq<u8>) -> Seq<char>;

/// The payload that verifying and decoding `token` under `secret`
/// recovers: `Some` with subject and expiry, or `None` when the token is
/// rejected. Rejection covers a token that does not parse as a signed
/// token, one whose signature does not verify under `secret`, and also a
/// correctly signed one whose payload does not carry a string `sub` and a
/// `u64` `exp`, or names an audience this service never sets. No clock is
/// involved, so the result is a function of these two values alone;
/// expiry is the caller's concern.
pub uninterp spec fn jwt_payload_of(token: Seq<char>, secret: Seq<u8>) -> Option<ClaimsView>;

/// The alphabet of a base64url segment, without padding.
pub open spec fn base64url_char(c: char) -> bool {
    ('A' <= c && c <= 'Z') || ('a' <= c && c <= 'z') || ('0' <= c && c <= '9') || c == '-' || c
        == '_'
}

/// The compact signed-token wire shape: three non-empty dot-separated
/// runs over the base64url alphabet (header, payload, signature). Client
/// code outside this service depends on this representation.
pub open spec fn compact_jws_shape(t: Seq<char>) -> bool {
    exists|i: int, j: int|
        {
            &&& 0 < i
            &&& i + 1 < j
            &&& j + 1 < t.len()
            &&& t[i] == '.'
            &&& t[j] == '.'
            &&& (forall|k: int|
                0 <= k < t.len() && k != i && k != j ==> base64url_char(#[trigger] t[k]))
        }
}

/// Whether a token string still counts for the revocation store at instant
/// `now`: it carries a payload that verifies under `secret`, and that
/// payload's expiry has not yet passed.
pub open spec fn token_live(token: Seq<char>, secret: Seq<u8>, now: u64) -> bool {
    match jwt_payload_of(token, secret) {
        Option::Some(c) => now < c.exp,
        Option::None => false,
    }
}

/// Relies on `jsonwebtoken::encode` with the default header: HMAC-SHA256
/// signing of a fixed payload layout is deterministic, it emits the
/// compact three-segment base64url representation without padding, and
/// `jsonwebtoken::decode` under the same secret recovers exactly the
/// subject and expiry that were signed. For a symmetric key this encode
/// cannot fail — the key family always matches, an HMAC accepts any key
/// length, and serializing the fixed header and the two-entry payload is
/// infallible — so success is promised; the error arm below only converts
/// a path the source shows unreachable.
#[verifier::external_body]
pub(crate) fn encode_token(sub: &str, exp: u64, secret: &[u8]) -> (r: Result<String, SigningError>)
    ensures
        r is Ok,
        r matches Ok(t) ==> t@ == jwt_token_of(sub@, exp, secret@),
        r matches Ok(t) ==> compact_jws_shape(t@),
        r is Ok ==> jwt_payload_of(jwt_token_of(sub@, exp, secret@), secret@) == Some(
            (ClaimsView { sub: sub@, exp }),
        ),
{
    let mut payload = serde_json::Map::new();
    payload.insert("sub".to_string(), Value::String(sub.to_string()));
    payload.insert("exp".to_string(), Value::from(exp));
    match encode(&Header::default(), &Value::Object(payload), &EncodingKey::from_secret(secret)) {
        Ok(token) => Ok(token),
        Err(_) => Err(SigningError),
    }
}

/// Relies on `jsonwebtoken::decode` restricted to HMAC-SHA256, with the
/// expiry check turned off so that no clock is read: the outcome depends
/// on the token and the secret alone. Signature verification never
/// short-circuits over the secret's bytes (the comparison is constant-time
/// inside the crate's HMAC verifier).
#[verifier::external_body]
pub(crate) fn decode_token(token: &str, secret: &[u8]) -> (r: Result<Claims, AuthError>)
    ensures
        r matches Ok(c) ==> jwt_payload_of(token@, secret@) == Some(c@),
        r is Err ==> jwt_payload_of(token@, secret@) is None,
        r matches Err(e) ==> e == AuthError::InvalidSignature || e == AuthError::Malformed,
{
    let mut validation = Validation::new(Algorithm::HS256);
    validation.validate_exp = false;
    let data = match decode::<Value>(token, &DecodingKey::from_secret(secret), &validation) {
        Ok(data) => data.claims,
        Err(e) => return Err(match e.kind() {
            jsonwebtoken::errors::ErrorKind::InvalidSignature => AuthError::InvalidSignature,
            _ => AuthError::Malformed,
        }),
    };
    match (data.get("sub").and_then(Value::as_str), data.get("exp").and_then(Value::as_u64)) {
        (Some(sub), Some(exp)) => Ok(Claims { sub: sub.to_string(), exp }),
        _ => Err(AuthError::Malformed),
    }
}

} // verus!
