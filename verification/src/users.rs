use vstd::prelude::*;

use crate::auth_service::{bcrypt_check, AuthService};
use crate::errors::AppError;

verus! {

/// A stored user account. Identifiers and instants are carried as plain
/// values: the id as its canonical text form, the two instants as Unix
/// timestamps in seconds.
#[derive(Clone, Debug)]
pub struct User {
    pub id: String,
    pub email: String,
    pub phone: String,
    pub full_name: String,
    pub password_hash: String,
    pub is_active: bool,
    pub created_at: i64,
    pub updated_at: i64,
}

/// The data needed to register a new account; the password is still plain
/// text here and is hashed before anything is persisted.
#[derive(Clone, Debug)]
pub struct CreateUser {
    pub email: String,
    pub phone: String,
    pub full_name: String,
    pub password: String,
}

/// A partial update of an account: only the fields that are present are
/// changed. The password is not updatable this way.
#[derive(Clone, Debug)]
pub struct UpdateUser {
    pub email: Option<String>,
    pub phone: Option<String>,
    pub full_name: Option<String>,
    pub is_active: Option<bool>,
}

/// A user as shown to callers: every field of the account except the
/// password hash.
#[derive(Clone, Debug)]
pub struct UserResponse {
    pub id: String,
    pub email: String,
    pub phone: String,
    pub full_name: String,
    pub is_active: bool,
    pub created_at: i64,
    pub updated_at: i64,
}

impl User {
    /// Drops the password hash and keeps every public field unchanged.
    pub fn to_response(self) -> (r: UserResponse)
        ensures
            r.id@ == self.id@,
            r.email@ == self.email@,
            r.phone@ == self.phone@,
            r.full_name@ == self.full_name@,
            r.is_active == self.is_active,
            r.created_at == self.created_at,
            r.updated_at == self.updated_at,
    {
        UserResponse {
            id: self.id,
            email: self.email,
            phone: self.phone,
            full_name: self.full_name,
            is_active: self.is_active,
            created_at: self.created_at,
            updated_at: self.updated_at,
        }
    }
}

/// The decision half of registering an account, given whether the store
/// already holds the email or phone: registration is refused with a
/// validation error exactly for a taken identifier, and otherwise answers
/// the hash under which the submitted password is to be persisted — the
/// password itself never is.
pub fn prepare_new_user(identifier_taken: bool, data: &CreateUser) -> (r: Result<String, AppError>)
    ensures
        r matches Err(AppError::ValidationError(_)) <==> identifier_taken,
        r matches Ok(h) ==> !identifier_taken && bcrypt_check(data.password@, h@) == Some(true),
        r matches Err(e) ==> e matches AppError::ValidationError(_) || e matches
            AppError::InternalServerError(_),
{
    if identifier_taken {
        return Err(
            AppError::ValidationError(
                "A user with this email or phone already exists".to_owned(),
            ),
        );
    }
    AuthService::hash_password(data.password.as_str())
}

} // verus!
