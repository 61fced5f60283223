use vstd::prelude::*;

verus! {

/// A login attempt: the identifier the account was registered under and the
/// password to check against its stored hash.
#[derive(Clone, Debug)]
pub struct LoginRequest {
    pub email: String,
    pub password: String,
}

/// A password change for the caller's own account: the current password,
/// which must still verify, and its replacement.
#[derive(Clone, Debug)]
pub struct ChangePasswordRequest {
    pub current_password: String,
    pub new_password: String,
}

/// A request to start a password reset for the account behind an email.
#[derive(Clone, Debug)]
pub struct ResetPasswordRequest {
    pub email: String,
}

/// The second half of a password reset: the reset token that was handed out
/// and the password to install.
#[derive(Clone, Debug)]
pub struct ConfirmResetPasswordRequest {
    pub token: String,
    pub new_password: String,
}

/// The decoded payload of a session token: the subject it was issued to, the
/// email bound into it, and the issue and expiry instants as Unix timestamps
/// in seconds. Claims are rebuilt from the token on every request and never
/// stored.
#[derive(Clone, Debug)]
pub struct Claims {
    pub sub: String,
    pub email: String,
    pub exp: i64,
    pub iat: i64,
}

impl Claims {
    /// A claims value is well formed when it expires strictly after it was
    /// issued.
    pub open spec fn wf(&self) -> bool {
        self.iat < self.exp
    }
}

/// The identity summary returned beside a fresh token, so that callers need
/// no second account lookup.
#[derive(Clone, Debug)]
pub struct UserAuthResponse {
    pub id: String,
    pub email: String,
    pub phone: String,
    pub full_name: String,
    pub is_active: bool,
}

/// What a successful login returns: the bearer token, its fixed lifetime in
/// seconds, and a summary of the authenticated user.
#[derive(Clone, Debug)]
pub struct AuthResponse {
    pub access_token: String,
    pub token_type: String,
    pub expires_in: i64,
    pub user: UserAuthResponse,
}

} // verus!
