//! The request and response payloads of the service's boundary, as plain
//! data. Parsing, serialization and field-format validation happen at the
//! HTTP layer outside the library; the library sees only the carried
//! values.

use vstd::prelude::*;

verus! {

/// Asks whether an account with this email exists, before login.
#[derive(Debug)]
pub struct PreLoginRequest {
    pub email: String,
}

/// Credentials presented at login: the email and the client-side password
/// hash. The password itself never reaches this service.
#[derive(Debug)]
pub struct LoginRequest {
    pub email: String,
    pub password_hash: String,
}

/// A successful login or registration: the freshly issued bearer token.
#[derive(Debug)]
pub struct LoginResponse {
    pub token: String,
}

/// Credentials for creating an account.
#[derive(Debug)]
pub struct RegisterRequest {
    pub email: String,
    pub password_hash: String,
}

/// A password change for the authenticated account.
#[derive(Debug)]
pub struct ChangeRequest {
    pub password_hash: String,
}

/// The authenticated account's encrypted vault blob.
#[derive(Debug)]
pub struct DataResponse {
    pub encrypted_data: String,
}

/// A replacement for the authenticated account's encrypted vault blob.
#[derive(Debug)]
pub struct UpdateRequest {
    pub encrypted_data: String,
}

} // verus!
