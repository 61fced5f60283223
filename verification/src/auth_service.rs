use vstd::prelude::*;
use vstd::string::StrSliceExecFns;

use crate::auth_models::{AuthResponse, Claims, ChangePasswordRequest, LoginRequest, UserAuthResponse};
use crate::errors::AppError;
use crate::users::User;

verus! {

/// What bcrypt's verifier answers for a password held against a stored hash:
/// `Some(true)` when the password matches, `Some(false)` when it does not,
/// and `None` for a hash bcrypt cannot parse. The answer is a function of the
/// two strings alone.
pub uninterp spec fn bcrypt_check(password: Seq<char>, hash: Seq<char>) -> Option<bool>;

/// The compact signed token that the session-token encoder produces for a
/// secret and the four claims bound into it. The encoder is deterministic,
/// so the token is a function of these five values alone.
pub uninterp spec fn token_of(
    secret: Seq<char>,
    sub: Seq<char>,
    email: Seq<char>,
    iat: int,
    exp: int,
) -> Seq<char>;

/// What the session-token decoder recovers from a token held against a
/// secret: the subject, email, issue and expiry claims, or `None` for a
/// token that does not carry a signature valid under that secret together
/// with those four claims. The clock plays no part: expiry is judged by the
/// caller, not by the decoder.
pub uninterp spec fn decoded_of(secret: Seq<char>, token: Seq<char>) -> Option<
    (Seq<char>, Seq<char>, int, int),
>;

/// Relies on bcrypt::hash at bcrypt's default cost: a freshly salted hash of
/// the password, which bcrypt::verify then accepts for that same password.
/// The output is a well-formed sixty-character hash with an in-range cost,
/// so bcrypt::verify re-parses it and answers a boolean, never an error, for
/// any password held against it.
#[verifier::external_body]
fn bcrypt_hash(password: &str) -> (r: Result<String, String>)
    ensures
        r matches Ok(h) ==> bcrypt_check(password@, h@) == Some(true),
        r matches Ok(h) ==> forall|q: Seq<char>| (#[trigger] bcrypt_check(q, h@)) is Some,
{
    bcrypt::hash(password, bcrypt::DEFAULT_COST).map_err(|e| e.to_string())
}

/// Relies on bcrypt::verify: whether the password matches the salted hash,
/// or an error exactly for a hash bcrypt cannot parse; the answer depends on
/// the two strings alone.
#[verifier::external_body]
fn bcrypt_verify(password: &str, hash: &str) -> (r: Result<bool, String>)
    ensures
        r matches Ok(b) ==> bcrypt_check(password@, hash@) == Some(b),
        r is Err ==> bcrypt_check(password@, hash@) is None,
{
    bcrypt::verify(password, hash).map_err(|e| e.to_string())
}

/// Relies on jsonwebtoken::encode under the default HS256 header: a compact
/// token carrying exactly the four claims, which jsonwebtoken::decode under
/// the same secret recovers again. Expiry instants are non-negative, as the
/// decoder demands of the claim. Encoding cannot fail: an HMAC key is
/// accepted at any length, HMAC signing itself never errors, and four plain
/// string and integer claims always serialize.
#[verifier::external_body]
fn jwt_encode(secret: &str, sub: &str, email: &str, iat: i64, exp: i64) -> (r: Result<
    String,
    String,
>)
    requires
        0 <= exp,
    ensures
        r is Ok,
        r matches Ok(t) ==> t@ == token_of(secret@, sub@, email@, iat as int, exp as int),
        r matches Ok(t) ==> decoded_of(secret@, t@) == Some(
            (sub@, email@, iat as int, exp as int),
        ),
{
    let mut payload = serde_json::Map::new();
    payload.insert("sub".to_owned(), serde_json::Value::String(sub.to_owned()));
    payload.insert("email".to_owned(), serde_json::Value::String(email.to_owned()));
    payload.insert("iat".to_owned(), serde_json::Value::from(iat));
    payload.insert("exp".to_owned(), serde_json::Value::from(exp));
    let key = jsonwebtoken::EncodingKey::from_secret(secret.as_bytes());
    jsonwebtoken::encode(&jsonwebtoken::Header::default(), &serde_json::Value::Object(payload), &key)
        .map_err(|e| e.to_string())
}

/// Relies on jsonwebtoken::decode under HS256 with its own expiry check
/// switched off: the subject, email, issue and expiry claims of a token
/// signed with the secret, or an error for one that does not verify against
/// it; the clock plays no part in the outcome.
#[verifier::external_body]
fn jwt_decode(secret: &str, token: &str) -> (r: Result<(String, String, i64, i64), String>)
    ensures
        r matches Ok(c) ==> decoded_of(secret@, token@) == Some(
            (c.0@, c.1@, c.2 as int, c.3 as int),
        ),
        r is Err ==> decoded_of(secret@, token@) is None,
{
    let mut validation = jsonwebtoken::Validation::default();
    validation.validate_exp = false;
    let key = jsonwebtoken::DecodingKey::from_secret(secret.as_bytes());
    let claims = jsonwebtoken::decode::<serde_json::Value>(token, &key, &validation)
        .map_err(|e| e.to_string())?
        .claims;
    match (claims["sub"].as_str(), claims["email"].as_str(), claims["iat"].as_i64(), claims["exp"].as_i64()) {
        (Some(s), Some(e), Some(i), Some(x)) => Ok((s.to_owned(), e.to_owned(), i, x)),
        _ => Err("claim missing".to_owned()),
    }
}

/// What verifying a token at instant `now` yields: the decoded claims while
/// `now` is no later than their expiry, and nothing otherwise.
pub open spec fn token_outcome(secret: Seq<char>, token: Seq<char>, now: int) -> Option<
    (Seq<char>, Seq<char>, int, int),
> {
    match decoded_of(secret, token) {
        Some(c) => if now <= c.3 {
            Some(c)
        } else {
            None
        },
        None => None,
    }
}

/// The authentication core: hashes and verifies passwords, and issues and
/// verifies signed session tokens. It owns the process-wide signing secret
/// and the fixed token lifetime, both set once at construction.
pub struct AuthService {
    secret: String,
    lifetime_seconds: i64,
}

impl AuthService {
    /// The signing secret this service was built with.
    pub closed spec fn spec_secret(&self) -> Seq<char> {
        self.secret@
    }

    /// The token lifetime in seconds this service was built with.
    pub closed spec fn spec_lifetime(&self) -> int {
        self.lifetime_seconds as int
    }

    /// A service is well formed when its lifetime is positive, so that every
    /// token it issues expires strictly after it was issued.
    pub open spec fn wf(&self) -> bool {
        1 <= self.spec_lifetime()
    }

    pub fn new(secret: String, lifetime_seconds: i64) -> (r: AuthService)
        requires
            1 <= lifetime_seconds,
        ensures
            r.wf(),
            r.spec_secret() == secret@,
            r.spec_lifetime() == lifetime_seconds as int,
    {
        AuthService { secret, lifetime_seconds }
    }

    pub fn lifetime_seconds(&self) -> (r: i64)
        ensures
            r as int == self.spec_lifetime(),
    {
        self.lifetime_seconds
    }

    /// Hashes a password with a fresh salt. Failure never depends on the
    /// password's content, only on the hashing primitive itself. A returned
    /// hash is well formed: checking any password against it answers a
    /// boolean, never an error.
    pub fn hash_password(password: &str) -> (r: Result<String, AppError>)
        ensures
            r matches Ok(h) ==> bcrypt_check(password@, h@) == Some(true),
            r matches Ok(h) ==> forall|q: Seq<char>| (#[trigger] bcrypt_check(q, h@)) is Some,
            r matches Err(e) ==> e matches AppError::InternalServerError(_),
    {
        match bcrypt_hash(password) {
            Ok(h) => Ok(h),
            Err(m) => Err(AppError::InternalServerError(m)),
        }
    }

    /// Checks a password against a stored hash. A non-matching password is
    /// answered with `Ok(false)`; only a hash the scheme cannot parse is an
    /// error.
    pub fn verify_password(password: &str, hash: &str) -> (r: Result<bool, AppError>)
        ensures
            r matches Ok(b) ==> bcrypt_check(password@, hash@) == Some(b),
            r is Err <==> bcrypt_check(password@, hash@) is None,
            r matches Err(e) ==> e matches AppError::AuthenticationError(_),
    {
        match bcrypt_verify(password, hash) {
            Ok(b) => Ok(b),
            Err(m) => Err(AppError::AuthenticationError(m)),
        }
    }

    /// Credential round trip: whenever hashing a password succeeds, checking
    /// that password against the fresh hash cannot fail and answers exactly
    /// `true`.
    pub fn hashed_password_verifies(password: &str) -> (r: Result<bool, AppError>)
        ensures
            r matches Ok(b) ==> b,
            r matches Err(e) ==> e matches AppError::InternalServerError(_),
    {
        let hash = Self::hash_password(password)?;
        match Self::verify_password(password, hash.as_str()) {
            Ok(b) => Ok(b),
            Err(e) => {
                assert(false);
                Err(e)
            },
        }
    }

    /// Issues a token for the user at instant `issued_at`, expiring exactly
    /// one configured lifetime later. Issuance has no failure mode: on every
    /// allowed input the token is produced.
    pub fn generate_token(&self, user: &User, issued_at: i64) -> (r: Result<String, AppError>)
        requires
            self.wf(),
            0 <= issued_at,
            issued_at + self.spec_lifetime() <= i64::MAX,
        ensures
            r is Ok,
            r matches Ok(t) ==> t@ == token_of(
                self.spec_secret(),
                user.id@,
                user.email@,
                issued_at as int,
                issued_at + self.spec_lifetime(),
            ),
            r matches Ok(t) ==> decoded_of(self.spec_secret(), t@) == Some(
                (user.id@, user.email@, issued_at as int, issued_at + self.spec_lifetime()),
            ),
    {
        let expiry = issued_at + self.lifetime_seconds;
        match jwt_encode(
            self.secret.as_str(),
            user.id.as_str(),
            user.email.as_str(),
            issued_at,
            expiry,
        ) {
            Ok(t) => Ok(t),
            Err(m) => {
                assert(false);
                Err(AppError::AuthenticationError(m))
            },
        }
    }

    /// Verifies a token at instant `now`: the claims are recovered exactly
    /// when the token verifies against this service's secret and is not yet
    /// expired. Every failure — malformed, tampered or expired — collapses
    /// into one authentication error, so callers learn nothing about which
    /// check refused the token.
    pub fn verify_token(&self, token: &str, now: i64) -> (r: Result<Claims, AppError>)
        ensures
            r matches Ok(c) ==> token_outcome(self.spec_secret(), token@, now as int) == Some(
                (c.sub@, c.email@, c.iat as int, c.exp as int),
            ),
            r matches Ok(c) ==> now <= c.exp,
            r is Err <==> token_outcome(self.spec_secret(), token@, now as int) is None,
            r matches Err(e) ==> e matches AppError::AuthenticationError(_),
    {
        match jwt_decode(self.secret.as_str(), token) {
            Ok(c) => {
                let (sub, email, iat, exp) = c;
                if now <= exp {
                    Ok(Claims { sub, email, exp, iat })
                } else {
                    Err(AppError::AuthenticationError("Invalid or expired token".to_owned()))
                }
            },
            Err(_) => Err(AppError::AuthenticationError("Invalid or expired token".to_owned())),
        }
    }

    /// Token round trip: a token issued at `issued_at` and verified at any
    /// instant no later than its expiry is never rejected, and the claims
    /// handed back carry exactly the subject, email and instants that were
    /// issued.
    pub fn fresh_token_verifies(&self, user: &User, issued_at: i64, now: i64) -> (r: Result<
        Claims,
        AppError,
    >)
        requires
            self.wf(),
            0 <= issued_at,
            issued_at + self.spec_lifetime() <= i64::MAX,
            now <= issued_at + self.spec_lifetime(),
        ensures
            r is Ok,
            r matches Ok(c) ==> c.sub@ == user.id@ && c.email@ == user.email@ && c.iat == issued_at
                && c.exp == issued_at + self.spec_lifetime() && c.wf(),
    {
        let token = self.generate_token(user, issued_at)?;
        match self.verify_token(token.as_str(), now) {
            Ok(c) => Ok(c),
            Err(e) => {
                assert(false);
                Err(e)
            },
        }
    }

    /// Assembles the login response: the bearer token, the configured
    /// lifetime, and a summary of the user, unchanged.
    pub fn create_auth_response(&self, user: &User, token: String) -> (r: AuthResponse)
        ensures
            r.access_token@ == token@,
            r.token_type@ == "Bearer"@,
            r.expires_in as int == self.spec_lifetime(),
            r.user.id@ == user.id@,
            r.user.email@ == user.email@,
            r.user.phone@ == user.phone@,
            r.user.full_name@ == user.full_name@,
            r.user.is_active == user.is_active,
    {
        AuthResponse {
            access_token: token,
            token_type: "Bearer".to_owned(),
            expires_in: self.lifetime_seconds,
            user: UserAuthResponse {
                id: user.id.clone(),
                email: user.email.clone(),
                phone: user.phone.clone(),
                full_name: user.full_name.clone(),
                is_active: user.is_active,
            },
        }
    }

    /// The decision half of a login: given the account the store found for
    /// the submitted email (or nothing), accept exactly an active account
    /// whose stored hash matches the submitted password, and answer with a
    /// fresh token issued at `issued_at`. Success is owed whenever those
    /// three conditions hold, the response's token decodes back to the
    /// account's claims, and why a login was refused is not disclosed.
    pub fn authenticate(
        &self,
        user: Option<&User>,
        request: &LoginRequest,
        issued_at: i64,
    ) -> (r: Result<AuthResponse, AppError>)
        requires
            self.wf(),
            0 <= issued_at,
            issued_at + self.spec_lifetime() <= i64::MAX,
        ensures
            r is Ok <==> (user matches Some(u) && u.is_active && bcrypt_check(
                request.password@,
                u.password_hash@,
            ) == Some(true)),
            r matches Ok(resp) ==> user matches Some(u) && resp.access_token@ == token_of(
                self.spec_secret(),
                u.id@,
                u.email@,
                issued_at as int,
                issued_at + self.spec_lifetime(),
            ) && decoded_of(self.spec_secret(), resp.access_token@) == Some(
                (u.id@, u.email@, issued_at as int, issued_at + self.spec_lifetime()),
            ) && resp.token_type@ == "Bearer"@ && resp.expires_in as int == self.spec_lifetime()
                && resp.user.id@ == u.id@ && resp.user.email@ == u.email@ && resp.user.phone@
                == u.phone@ && resp.user.full_name@ == u.full_name@ && resp.user.is_active,
            r matches Err(e) ==> e matches AppError::AuthenticationError(_),
    {
        let user = match user {
            Some(u) => u,
            None => {
                return Err(
                    AppError::AuthenticationError("Incorrect email or password".to_owned()),
                );
            },
        };
        if !user.is_active {
            return Err(AppError::AuthenticationError("This account is deactivated".to_owned()));
        }
        let valid = Self::verify_password(request.password.as_str(), user.password_hash.as_str())?;
        if !valid {
            return Err(AppError::AuthenticationError("Incorrect email or password".to_owned()));
        }
        let token = self.generate_token(user, issued_at)?;
        Ok(self.create_auth_response(user, token))
    }

    /// The decision half of a token refresh: the caller has already been
    /// authenticated by its current token, so a fresh token is issued for
    /// the same account at `issued_at` and answered as a full login
    /// response. A refresh never fails, and the fresh token decodes back to
    /// the account's claims, so verifying it before its expiry succeeds.
    pub fn refresh_token(&self, user: &User, issued_at: i64) -> (r: Result<AuthResponse, AppError>)
        requires
            self.wf(),
            0 <= issued_at,
            issued_at + self.spec_lifetime() <= i64::MAX,
        ensures
            r is Ok,
            r matches Ok(resp) ==> resp.access_token@ == token_of(
                self.spec_secret(),
                user.id@,
                user.email@,
                issued_at as int,
                issued_at + self.spec_lifetime(),
            ) && decoded_of(self.spec_secret(), resp.access_token@) == Some(
                (user.id@, user.email@, issued_at as int, issued_at + self.spec_lifetime()),
            ) && resp.token_type@ == "Bearer"@ && resp.expires_in as int == self.spec_lifetime()
                && resp.user.id@ == user.id@ && resp.user.email@ == user.email@
                && resp.user.phone@ == user.phone@ && resp.user.full_name@ == user.full_name@
                && resp.user.is_active == user.is_active,
    {
        let token = self.generate_token(user, issued_at)?;
        Ok(self.create_auth_response(user, token))
    }

    /// The decision half of a password change: the submitted current
    /// password must still verify against the stored hash; the replacement
    /// is then hashed, and the new hash handed back for the store to
    /// persist. An authentication error is answered exactly when the current
    /// password does not verify; past that check only the hashing primitive
    /// itself can fail.
    pub fn change_password(stored_hash: &str, request: &ChangePasswordRequest) -> (r: Result<
        String,
        AppError,
    >)
        ensures
            r matches Ok(h) ==> bcrypt_check(request.current_password@, stored_hash@) == Some(true)
                && bcrypt_check(request.new_password@, h@) == Some(true),
            r matches Err(AppError::AuthenticationError(_)) <==> bcrypt_check(
                request.current_password@,
                stored_hash@,
            ) != Some(true),
            r matches Err(e) ==> e matches AppError::AuthenticationError(_) || e matches
                AppError::InternalServerError(_),
    {
        let valid = Self::verify_password(request.current_password.as_str(), stored_hash)?;
        if !valid {
            return Err(AppError::AuthenticationError("Current password is incorrect".to_owned()));
        }
        Self::hash_password(request.new_password.as_str())
    }
}

/// The token-presentation convention: a request hands its token to the
/// service as an `Authorization` header value of the form `Bearer <token>`.
/// This strips the scheme and yields the token itself, exactly when the
/// value starts with it.
pub fn bearer_token(header_value: &str) -> (r: Option<String>)
    ensures
        r matches Some(t) ==> header_value@ == "Bearer "@ + t@,
        r is None <==> !(header_value@.len() >= 7 && header_value@.subrange(0, 7) == "Bearer "@),
{
    let n = header_value.unicode_len();
    if n < 7 {
        return None;
    }
    let head: String = header_value.substring_char(0, 7).to_owned();
    let scheme: String = "Bearer ".to_owned();
    if head == scheme {
        let token = header_value.substring_char(7, n).to_owned();
        proof {
            assert(header_value@ =~= header_value@.subrange(0, 7) + header_value@.subrange(
                7,
                header_value@.len() as int,
            ));
        }
        Some(token)
    } else {
        None
    }
}

/// Expiry is decisive: a token whose decoded expiry lies strictly before
/// `now` has an empty verification outcome at `now`, whatever else it
/// carries.
pub proof fn lemma_expired_token_rejected(secret: Seq<char>, token: Seq<char>, now: int)
    requires
        decoded_of(secret, token) matches Some(c) && now > c.3,
    ensures
        token_outcome(secret, token, now) is None,
{
}

/// Freshness: two tokens signed with one secret for the same subject and
/// email but issued at different instants are textually different, because
/// each decodes back to its own issue time. The premises restate exactly
/// what issuance guarantees of each of the two tokens.
pub proof fn lemma_distinct_issue_times_distinct_tokens(
    secret: Seq<char>,
    sub: Seq<char>,
    email: Seq<char>,
    iat1: int,
    exp1: int,
    iat2: int,
    exp2: int,
)
    requires
        iat1 != iat2,
        decoded_of(secret, token_of(secret, sub, email, iat1, exp1)) == Some(
            (sub, email, iat1, exp1),
        ),
        decoded_of(secret, token_of(secret, sub, email, iat2, exp2)) == Some(
            (sub, email, iat2, exp2),
        ),
    ensures
        token_of(secret, sub, email, iat1, exp1) != token_of(secret, sub, email, iat2, exp2),
{
    if token_of(secret, sub, email, iat1, exp1) == token_of(secret, sub, email, iat2, exp2) {
        assert(decoded_of(secret, token_of(secret, sub, email, iat1, exp1)) == decoded_of(
            secret,
            token_of(secret, sub, email, iat2, exp2),
        ));
        assert(false);
    }
}

} // verus!
