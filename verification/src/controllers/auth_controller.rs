//! The login flow: authenticate a credential pair against the stored
//! record the credential store returned, and issue a signed token on
//! success.
//!
//! The store lookup itself is I/O and happens outside; its outcome is
//! passed in as a value, so the whole decision — including the rule that an
//! unknown email and a wrong password are indistinguishable — is verified.

use crate::models::user::User;
use crate::services::auth_service::{
    bcrypt_verifies, jwt_gen_at, password_verify, spec_expiry, spec_jwt_token,
};
use crate::text::dec_str_signed;
use vstd::prelude::*;

verus! {

/// A login request body.
#[derive(Debug, Clone)]
pub struct LoginData {
    pub email: String,
    pub password: String,
}

/// A successful login response: the signed token and the role's name.
#[derive(Debug, Clone)]
pub struct TokenResponse {
    pub token: String,
    pub role: String,
}

/// An error response body: one message under the key `error`.
#[derive(Debug, Clone)]
pub struct ErrorMessage {
    error: String,
}

impl ErrorMessage {
    /// The message this body carries.
    pub closed spec fn spec_error(self) -> Seq<char> {
        self.error@
    }

    pub fn new(error: String) -> (r: Self)
        ensures
            r.spec_error() == error@,
    {
        Self { error }
    }

    pub fn error(&self) -> (r: &str)
        ensures
            r@ == self.spec_error(),
    {
        self.error.as_str()
    }
}

/// What the credential store returned for an email lookup.
#[derive(Debug, Clone)]
pub enum LookupOutcome {
    /// The record stored under the email.
    Found(User),
    /// No record is stored under the email.
    NotFound,
    /// The store itself failed to answer.
    StoreFailure,
}

/// Why a login was refused.
#[derive(Debug, PartialEq, Eq, Structural, Clone, Copy)]
pub enum LoginError {
    /// Unknown email or wrong password — deliberately one reason, so a
    /// caller cannot probe which emails exist.
    InvalidCredentials,
    /// A fault on the server's side: the store failed, or a stored record
    /// lacks its identifier.
    InternalError,
}

impl LoginError {
    /// The message the client sees.
    pub open spec fn spec_message(self) -> Seq<char> {
        match self {
            LoginError::InvalidCredentials => "Credenciais inválidas"@,
            LoginError::InternalError => "Erro interno no servidor ao tentar login."@,
        }
    }

    pub fn message(&self) -> (r: String)
        ensures
            r@ == self.spec_message(),
    {
        match self {
            LoginError::InvalidCredentials => "Credenciais inválidas".to_owned(),
            LoginError::InternalError => "Erro interno no servidor ao tentar login.".to_owned(),
        }
    }

    /// Bad credentials surface as 401, a server-side fault as 500.
    pub fn status_code(&self) -> (r: u16)
        ensures
            self is InvalidCredentials ==> r == 401,
            self is InternalError ==> r == 500,
    {
        match self {
            LoginError::InvalidCredentials => 401,
            LoginError::InternalError => 500,
        }
    }
}

/// Why a login with this store outcome and password is refused, or nothing
/// when it succeeds: an unknown email and a failed password check are
/// refused for the same reason; a store fault, or a found record without an
/// id, is the server's fault.
pub open spec fn spec_login_denial(lookup: LookupOutcome, password: Seq<char>) -> Option<
    LoginError,
> {
    match lookup {
        LookupOutcome::NotFound => Some(LoginError::InvalidCredentials),
        LookupOutcome::StoreFailure => Some(LoginError::InternalError),
        LookupOutcome::Found(user) => {
            if !bcrypt_verifies(password, user.user_password@) {
                Some(LoginError::InvalidCredentials)
            } else if user.user_id is None {
                Some(LoginError::InternalError)
            } else {
                None
            }
        },
    }
}

/// The login flow, issuing at `now`: succeeds exactly when the store found
/// a record whose password hash the supplied password verifies against and
/// which carries an id; the response then holds the role's name and a
/// token for that id and role expiring the validity window after `now`.
pub fn authenticate(
    lookup: LookupOutcome,
    password: &str,
    secret_key: &str,
    now: usize,
) -> (r: Result<TokenResponse, LoginError>)
    ensures
        r is Err <==> spec_login_denial(lookup, password@) is Some,
        r is Err ==> Some(r->Err_0) == spec_login_denial(lookup, password@),
        r is Ok ==> (lookup matches LookupOutcome::Found(u) && u.user_id matches Some(id)
            && r->Ok_0.role@ == u.user_role.spec_label() && r->Ok_0.token@ == spec_jwt_token(
            dec_str_signed(id as int),
            u.user_role.spec_label(),
            spec_expiry(now as int),
            secret_key@,
        )),
{
    match lookup {
        LookupOutcome::NotFound => Err(LoginError::InvalidCredentials),
        LookupOutcome::StoreFailure => Err(LoginError::InternalError),
        LookupOutcome::Found(user) => {
            if password_verify(password, user.user_password.as_str()) {
                match user.user_id {
                    Some(id) => {
                        let token = jwt_gen_at(secret_key, id, &user.user_role, now);
                        Ok(TokenResponse { token, role: user.user_role.label() })
                    },
                    None => Err(LoginError::InternalError),
                }
            } else {
                Err(LoginError::InvalidCredentials)
            }
        },
    }
}

/// Credential-enumeration resistance: an unknown email and a known email
/// with a wrong password are refused for one and the same reason, so the
/// two cases are indistinguishable to the caller.
pub proof fn lemma_enumeration_resistance(user: User, password: Seq<char>)
    requires
        !bcrypt_verifies(password, user.user_password@),
    ensures
        spec_login_denial(LookupOutcome::NotFound, password) == Some(
            LoginError::InvalidCredentials,
        ),
        spec_login_denial(LookupOutcome::Found(user), password) == Some(
            LoginError::InvalidCredentials,
        ),
        spec_login_denial(LookupOutcome::NotFound, password) == spec_login_denial(
            LookupOutcome::Found(user),
            password,
        ),
{
}

} // verus!
