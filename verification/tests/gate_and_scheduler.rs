//! The request gate's decisions and the cleanup scheduler's cadence.

use backend_rspass::auth::JwtAuth;
use backend_rspass::errors::AuthError;
use backend_rspass::gate::{gate_credential, gate_validation, GateRejection};
use backend_rspass::sched::{CleanupScheduler, DEFAULT_SWEEP_INTERVAL_SECS};

const NOW: u64 = 1_700_000_000;

#[test]
fn test_missing_credential_is_rejected() {
    let r = gate_credential(None);
    assert_eq!(r, Err(GateRejection::MissingCredential));
    assert_eq!(
        r.unwrap_err().message(),
        "no bearer token provided".to_string()
    );
}

#[test]
fn test_present_credential_passes_through() {
    assert_eq!(gate_credential(Some("abc.def.ghi")), Ok("abc.def.ghi"));
}

#[test]
fn test_valid_token_passes_the_gate() {
    let auth = JwtAuth::new(b"test_secret".to_vec());
    let token = auth.generate_token("test@example.com", NOW, 3600).unwrap();
    let claims = gate_validation(auth.validate_token(&token, NOW)).unwrap();
    assert_eq!(claims.sub, "test@example.com");
}

#[test]
fn test_every_validation_failure_collapses_to_one_rejection() {
    // Callers outside the core cannot tell why a token failed.
    for e in [
        AuthError::Malformed,
        AuthError::InvalidSignature,
        AuthError::Expired,
        AuthError::Revoked,
        AuthError::UnknownSubject,
    ] {
        let r = gate_validation(Err(e));
        assert_eq!(r, Err(GateRejection::InvalidToken));
        assert_eq!(r.unwrap_err().message(), "invalid token".to_string());
    }
}

#[test]
fn test_scheduler_consumes_warmup_tick() {
    let mut sched = CleanupScheduler::new(DEFAULT_SWEEP_INTERVAL_SECS);
    assert_eq!(sched.interval_secs(), 600);
    assert!(!sched.on_tick());
    assert!(sched.on_tick());
    assert!(sched.on_tick());
}

#[test]
fn test_scheduler_interval_is_configurable() {
    let mut sched = CleanupScheduler::new(5);
    assert_eq!(sched.interval_secs(), 5);
    assert!(!sched.on_tick());
    assert!(sched.on_tick());
}
