//! End-to-end exercises of the token lifecycle: issuance, validation,
//! revocation and pruning, with simulated clocks.

use backend_rspass::auth::{confirm_subject, JwtAuth, DEFAULT_TOKEN_TTL_SECS};
use backend_rspass::errors::{AuthError, LookupError};

const NOW: u64 = 1_700_000_000;

fn service() -> JwtAuth {
    JwtAuth::new(b"test_secret".to_vec())
}

#[test]
fn test_valid_token_flow() {
    let auth = service();
    let token = auth.generate_token("test@example.com", NOW, 3600).unwrap();
    let claims = auth.validate_token(&token, NOW).unwrap();
    assert_eq!(claims.sub, "test@example.com");
    assert_eq!(claims.exp, NOW + 3600);
    let claims = confirm_subject(claims, Ok(true)).unwrap();
    assert_eq!(claims.sub, "test@example.com");
}

#[test]
fn test_issue_for_several_subjects() {
    let auth = service();
    for (sub, ttl) in [("a@x.com", 1), ("b@y.org", 60), ("c@z.net", 86400)] {
        let token = auth.generate_token(sub, NOW, ttl).unwrap();
        let claims = auth.validate_token(&token, NOW).unwrap();
        assert_eq!(claims.sub, sub);
        assert_eq!(claims.exp, NOW + ttl);
    }
}

#[test]
fn test_default_ttl_is_one_hour() {
    assert_eq!(DEFAULT_TOKEN_TTL_SECS, 3600);
    let auth = service();
    let token = auth
        .generate_token("test@example.com", NOW, DEFAULT_TOKEN_TTL_SECS)
        .unwrap();
    let claims = auth.validate_token(&token, NOW).unwrap();
    assert_eq!(claims.exp, NOW + 3600);
}

#[test]
fn test_blacklisted_token() {
    let mut auth = service();
    let token = auth.generate_token("test@example.com", NOW, 3600).unwrap();
    assert!(!auth.is_blacklisted(&token));
    auth.blacklist_token(&token);
    assert!(auth.is_blacklisted(&token));
    // Rejected well before its embedded expiry has elapsed.
    assert_eq!(auth.validate_token(&token, NOW), Err(AuthError::Revoked));
    assert_eq!(
        auth.validate_token(&token, NOW + 3599),
        Err(AuthError::Revoked)
    );
}

#[test]
fn test_revoke_is_idempotent() {
    let mut auth = service();
    let token = auth.generate_token("test@example.com", NOW, 3600).unwrap();
    auth.blacklist_token(&token);
    assert_eq!(auth.blacklist_len(), 1);
    auth.blacklist_token(&token);
    assert_eq!(auth.blacklist_len(), 1);
    assert!(auth.is_blacklisted(&token));
}

#[test]
fn test_deleted_account_token() {
    let auth = service();
    let token = auth.generate_token("test@example.com", NOW, 3600).unwrap();
    let claims = auth.validate_token(&token, NOW).unwrap();
    // Signature and expiry are fine, but the directory no longer knows
    // the subject: the token is rejected.
    assert_eq!(
        confirm_subject(claims, Ok(false)),
        Err(AuthError::UnknownSubject)
    );
}

#[test]
fn test_directory_error_counts_as_unknown_subject() {
    let auth = service();
    let token = auth.generate_token("test@example.com", NOW, 3600).unwrap();
    let claims = auth.validate_token(&token, NOW).unwrap();
    assert_eq!(
        confirm_subject(claims, Err(LookupError)),
        Err(AuthError::UnknownSubject)
    );
}

#[test]
fn test_malformed_token() {
    let auth = service();
    assert_eq!(
        auth.validate_token("malformed.token.here", NOW),
        Err(AuthError::Malformed)
    );
    assert_eq!(auth.validate_token("", NOW), Err(AuthError::Malformed));
    // A bare subject string is not a token: issuance really signs.
    assert_eq!(
        auth.validate_token("test@example.com", NOW),
        Err(AuthError::Malformed)
    );
}

#[test]
fn test_invalid_signature() {
    let forger = JwtAuth::new(b"wrong_secret".to_vec());
    let token = forger.generate_token("test@example.com", NOW, 3600).unwrap();
    let auth = service();
    assert_eq!(
        auth.validate_token(&token, NOW),
        Err(AuthError::InvalidSignature)
    );
}

#[test]
fn test_modified_claims() {
    // A token claiming another identity, signed under a different key,
    // is rejected regardless of its claim contents.
    let forger = JwtAuth::new(b"attacker_secret".to_vec());
    let token = forger.generate_token("hacker@evil.com", NOW, 3600).unwrap();
    let auth = service();
    assert_eq!(
        auth.validate_token(&token, NOW),
        Err(AuthError::InvalidSignature)
    );
}

#[test]
fn test_expired_token() {
    let auth = service();
    let token = auth.generate_token("test@example.com", NOW, 3600).unwrap();
    assert_eq!(
        auth.validate_token(&token, NOW + 3600),
        Err(AuthError::Expired)
    );
    assert_eq!(
        auth.validate_token(&token, NOW + 7200),
        Err(AuthError::Expired)
    );
    // One second before expiry it is still accepted.
    assert!(auth.validate_token(&token, NOW + 3599).is_ok());
}

#[test]
fn test_prune_keeps_unexpired_and_drops_expired() {
    let mut auth = service();
    let short = auth.generate_token("a@x.com", NOW, 100).unwrap();
    let long = auth.generate_token("b@y.org", NOW, 10_000).unwrap();
    auth.blacklist_token(&short);
    auth.blacklist_token(&long);
    assert_eq!(auth.blacklist_len(), 2);

    // Before either expiry: nothing may be removed.
    auth.cleanup_blacklist(NOW + 50);
    assert_eq!(auth.blacklist_len(), 2);
    assert!(auth.is_blacklisted(&short));
    assert!(auth.is_blacklisted(&long));

    // After the short token's expiry only that entry goes.
    auth.cleanup_blacklist(NOW + 100);
    assert_eq!(auth.blacklist_len(), 1);
    assert!(!auth.is_blacklisted(&short));
    assert!(auth.is_blacklisted(&long));

    // After both expiries the store is empty again.
    auth.cleanup_blacklist(NOW + 10_000);
    assert_eq!(auth.blacklist_len(), 0);
}

#[test]
fn test_prune_drops_entries_that_do_not_parse() {
    let mut auth = service();
    auth.blacklist_token("not.a.token");
    let live = auth.generate_token("a@x.com", NOW, 3600).unwrap();
    auth.blacklist_token(&live);
    auth.cleanup_blacklist(NOW);
    assert!(!auth.is_blacklisted("not.a.token"));
    assert!(auth.is_blacklisted(&live));
}

#[test]
fn test_token_lifecycle_scenario() {
    // Issue for "a@x.com" with ttl 3600 -> validate succeeds -> revoke ->
    // validate fails -> a second revoke is a no-op -> an immediate sweep
    // does not remove the entry -> a sweep past expiry removes it.
    let mut auth = service();
    let token = auth.generate_token("a@x.com", NOW, 3600).unwrap();

    let claims = auth.validate_token(&token, NOW).unwrap();
    assert_eq!(claims.sub, "a@x.com");

    auth.blacklist_token(&token);
    assert_eq!(auth.validate_token(&token, NOW), Err(AuthError::Revoked));

    auth.blacklist_token(&token);
    assert_eq!(auth.blacklist_len(), 1);

    auth.cleanup_blacklist(NOW);
    assert_eq!(auth.blacklist_len(), 1);
    assert_eq!(auth.validate_token(&token, NOW), Err(AuthError::Revoked));

    auth.cleanup_blacklist(NOW + 7200);
    assert_eq!(auth.blacklist_len(), 0);
    assert!(!auth.is_blacklisted(&token));
}

#[test]
fn test_tokens_are_interoperable_compact_jws() {
    // Three dot-separated base64url segments: header, payload, signature.
    let auth = service();
    let token = auth.generate_token("test@example.com", NOW, 3600).unwrap();
    let parts: Vec<&str> = token.split('.').collect();
    assert_eq!(parts.len(), 3);
    for part in parts {
        assert!(!part.is_empty());
        assert!(part
            .bytes()
            .all(|b| b.is_ascii_alphanumeric() || b == b'-' || b == b'_'));
    }
}

#[test]
fn test_revocation_is_by_literal_string() {
    // Two tokens for the same subject with different expiries are
    // different strings; revoking one leaves the other valid.
    let mut auth = service();
    let first = auth.generate_token("test@example.com", NOW, 3600).unwrap();
    let second = auth.generate_token("test@example.com", NOW, 7200).unwrap();
    assert_ne!(first, second);
    auth.blacklist_token(&first);
    assert_eq!(auth.validate_token(&first, NOW), Err(AuthError::Revoked));
    assert!(auth.validate_token(&second, NOW).is_ok());
}
