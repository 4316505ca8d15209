//! The token lifecycle service: issuance, validation and revocation.
//!
//! [`JwtAuth`] composes the signer/verifier boundary of [`crate::jwt`], an
//! owned [`RevocationStore`], and the caller-supplied answer of the
//! external identity directory into the issue / validate / revoke / sweep
//! operations. The identity directory itself is a collaborator that this
//! subsystem consults on every validation and never caches; since its
//! lookup is a suspension point (it may do I/O), validation is split into
//! [`JwtAuth::validate_token`], which checks revocation, signature and
//! expiry, and [`confirm_subject`], which folds the lookup's answer in.

use vstd::prelude::*;

use crate::errors::{AuthError, LookupError, SigningError};
use crate::jwt::{compact_jws_shape, decode_token, encode_token, jwt_payload_of, jwt_token_of};
use crate::store::{live_subset, RevocationStore};

verus! {

/// Token time-to-live used when the caller does not pick one: one hour.
pub const DEFAULT_TOKEN_TTL_SECS: u64 = 3600;

/// The signed payload inside a token: the authenticated subject and the
/// absolute instant (in seconds) after which the token is invalid.
/// Immutable once issued; it travels embedded in the signed token.
#[derive(Debug, PartialEq, Eq)]
pub struct Claims {
    /// The authenticated identity, e.g. an email address.
    pub sub: String,
    /// Expiry, in seconds since the epoch.
    pub exp: u64,
}

/// The mathematical value of a [`Claims`].
pub struct ClaimsView {
    pub sub: Seq<char>,
    pub exp: u64,
}

impl View for Claims {
    type V = ClaimsView;

    open spec fn view(&self) -> ClaimsView {
        ClaimsView { sub: self.sub@, exp: self.exp }
    }
}

/// The mathematical value of a [`JwtAuth`]: its signing secret and the set
/// of revoked token strings.
pub struct JwtAuthView {
    pub secret: Seq<u8>,
    pub revoked: Set<Seq<char>>,
}

/// What validating a token must come to, step by step: revocation is
/// checked first, then signature and structure, then expiry, then that the
/// subject still exists. The first failing step decides the outcome.
pub enum ValidationSpec {
    /// The token passed every check and carries this payload.
    Accept(ClaimsView),
    /// The token string is in the revocation set, whatever it contains.
    RejectRevoked,
    /// The token does not parse, or its signature does not verify.
    RejectBadToken,
    /// The embedded expiry is not in the future.
    RejectExpired,
    /// The identity directory did not confirm the subject's existence.
    RejectUnknownSubject,
}

/// The outcome of full validation of `token` at instant `now`, against a
/// service in state `v`, when the identity directory answered `lookup`
/// for the token's subject. Any directory error or `false` answer counts
/// as an unknown subject.
pub open spec fn validate_spec(
    v: JwtAuthView,
    token: Seq<char>,
    now: u64,
    lookup: Result<bool, LookupError>,
) -> ValidationSpec {
    if v.revoked.contains(token) {
        ValidationSpec::RejectRevoked
    } else {
        match jwt_payload_of(token, v.secret) {
            Option::None => ValidationSpec::RejectBadToken,
            Option::Some(c) => if c.exp <= now {
                ValidationSpec::RejectExpired
            } else if lookup != Ok::<bool, LookupError>(true) {
                ValidationSpec::RejectUnknownSubject
            } else {
                ValidationSpec::Accept(c)
            },
        }
    }
}

/// The token lifecycle service: signs and verifies tokens with its
/// process-wide secret and keeps the revocation set. Constructed once and
/// shared; both the request gate and the cleanup scheduler work through
/// it.
pub struct JwtAuth {
    secret: Vec<u8>,
    blacklist: RevocationStore,
}

impl View for JwtAuth {
    type V = JwtAuthView;

    closed spec fn view(&self) -> JwtAuthView {
        JwtAuthView { secret: self.secret@, revoked: self.blacklist@ }
    }
}

impl JwtAuth {
    /// A service signing with `secret`, with nothing revoked yet.
    pub fn new(secret: Vec<u8>) -> (r: JwtAuth)
        ensures
            r@.secret == secret@,
            r@.revoked == Set::<Seq<char>>::empty(),
    {
        JwtAuth { secret, blacklist: RevocationStore::new() }
    }

    /// Issues a token for `email` expiring `ttl` seconds after `now`. Does
    /// not itself check that the identity exists: the login/register flow
    /// has already done so. The error variant exists for a catastrophic
    /// encoding failure, but with symmetric signing there is none, so
    /// success is owed and promised.
    ///
    /// The last clause is the issuance half of the lifecycle's first law:
    /// a token fresh from this function, as long as it has not been
    /// revoked, validates at issuance time and yields back exactly the
    /// subject it was issued for.
    pub fn generate_token(&self, email: &str, now: u64, ttl: u64) -> (r: Result<
        String,
        SigningError,
    >)
        requires
            1 <= ttl,
            now + ttl <= u64::MAX,
        ensures
            r is Ok,
            r matches Ok(t) ==> t@ == jwt_token_of(email@, (now + ttl) as u64, self@.secret),
            r matches Ok(t) ==> compact_jws_shape(t@),
            r matches Ok(t) ==> jwt_payload_of(t@, self@.secret) == Some(
                (ClaimsView { sub: email@, exp: (now + ttl) as u64 }),
            ),
            r matches Ok(t) ==> (!self@.revoked.contains(t@) ==> validate_spec(
                self@,
                t@,
                now,
                Ok::<bool, LookupError>(true),
            ) == ValidationSpec::Accept((ClaimsView { sub: email@, exp: (now + ttl) as u64 }))),
    {
        encode_token(email, now + ttl, self.secret.as_slice())
    }

    /// Whether `token` has been revoked.
    pub fn is_blacklisted(&self, token: &str) -> (r: bool)
        ensures
            r == self@.revoked.contains(token@),
    {
        self.blacklist.contains(token)
    }

    /// Revokes `token`: every later validation of the same token string
    /// rejects it. Idempotent, and called on logout and account deletion.
    pub fn blacklist_token(&mut self, token: &str)
        ensures
            final(self)@.revoked == old(self)@.revoked.insert(token@),
            final(self)@.secret == old(self)@.secret,
    {
        self.blacklist.revoke(token);
    }

    /// How many revoked tokens are currently held.
    pub fn blacklist_len(&self) -> (r: usize)
        ensures
            r == self@.revoked.len(),
    {
        self.blacklist.len()
    }

    /// The periodic sweep: drops every revocation entry whose token has
    /// naturally expired by `now` (or no longer verifies at all), and no
    /// other.
    pub fn cleanup_blacklist(&mut self, now: u64)
        ensures
            final(self)@.revoked == live_subset(old(self)@.revoked, old(self)@.secret, now),
            final(self)@.secret == old(self)@.secret,
    {
        self.blacklist.prune(now, self.secret.as_slice());
    }

    /// Validation steps one to three: revocation first, then signature and
    /// structure, then expiry. The subject-existence re-check follows in
    /// [`confirm_subject`] once the caller has asked the identity
    /// directory about the returned subject.
    pub fn validate_token(&self, token: &str, now: u64) -> (r: Result<Claims, AuthError>)
        ensures
            match validate_spec(self@, token@, now, Ok::<bool, LookupError>(true)) {
                ValidationSpec::Accept(c) => r matches Ok(rc) && rc@ == c,
                ValidationSpec::RejectRevoked => r == Err::<Claims, AuthError>(AuthError::Revoked),
                ValidationSpec::RejectBadToken => r == Err::<Claims, AuthError>(
                    AuthError::Malformed,
                ) || r == Err::<Claims, AuthError>(AuthError::InvalidSignature),
                ValidationSpec::RejectExpired => r == Err::<Claims, AuthError>(AuthError::Expired),
                ValidationSpec::RejectUnknownSubject => false,
            },
    {
        if self.blacklist.contains(token) {
            return Err(AuthError::Revoked);
        }
        let claims = match decode_token(token, self.secret.as_slice()) {
            Ok(c) => c,
            Err(e) => return Err(e),
        };
        if claims.exp <= now {
            return Err(AuthError::Expired);
        }
        Ok(claims)
    }
}

/// Validation step four: folds in the identity directory's answer for the
/// subject of `claims`. The directory is authoritative and consulted on
/// every validation, so a deleted identity's still-unexpired tokens are
/// rejected; a lookup error is treated the same as an absent subject.
pub fn confirm_subject(claims: Claims, lookup: Result<bool, LookupError>) -> (r: Result<
    Claims,
    AuthError,
>)
    ensures
        lookup == Ok::<bool, LookupError>(true) ==> r == Ok::<Claims, AuthError>(claims),
        lookup != Ok::<bool, LookupError>(true) ==> r == Err::<Claims, AuthError>(
            AuthError::UnknownSubject,
        ),
{
    match lookup {
        Ok(subject_exists) => if subject_exists {
            Ok(claims)
        } else {
            Err(AuthError::UnknownSubject)
        },
        Err(_) => Err(AuthError::UnknownSubject),
    }
}

/// A token fresh from the signer validates: if `token` carries the payload
/// `(sub, exp)` under the service's secret, is not yet expired and not in
/// the revocation set, and the identity directory confirms its subject,
/// then validation accepts it and returns exactly that payload.
pub proof fn lemma_fresh_token_validates(
    v: JwtAuthView,
    token: Seq<char>,
    sub: Seq<char>,
    exp: u64,
    now: u64,
    lookup: Result<bool, LookupError>,
)
    requires
        jwt_payload_of(token, v.secret) == Some((ClaimsView { sub, exp })),
        now < exp,
        !v.revoked.contains(token),
        lookup == Ok::<bool, LookupError>(true),
    ensures
        validate_spec(v, token, now, lookup) == ValidationSpec::Accept((ClaimsView { sub, exp })),
{
}

/// Once a token string is in the revocation set, validation rejects it,
/// whatever its payload says and however the identity directory answers:
/// in particular a revoked token is rejected even while its embedded
/// expiry has not yet elapsed.
pub proof fn lemma_revoked_token_rejected(
    v: JwtAuthView,
    token: Seq<char>,
    now: u64,
    lookup: Result<bool, LookupError>,
)
    requires
        v.revoked.contains(token),
    ensures
        validate_spec(v, token, now, lookup) == ValidationSpec::RejectRevoked,
{
}

/// A token whose subject the identity directory no longer confirms fails
/// validation even when it is unrevoked, correctly signed and unexpired.
pub proof fn lemma_unknown_subject_rejected(
    v: JwtAuthView,
    token: Seq<char>,
    now: u64,
    lookup: Result<bool, LookupError>,
)
    requires
        validate_spec(v, token, now, Ok::<bool, LookupError>(true)) matches ValidationSpec::Accept(
            _,
        ),
        lookup != Ok::<bool, LookupError>(true),
    ensures
        validate_spec(v, token, now, lookup) == ValidationSpec::RejectUnknownSubject,
{
}

} // verus!
