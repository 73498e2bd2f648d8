//! The request authenticator and the authorization check.
//!
//! Every protected operation runs the same gate before its handler: read
//! the authorization header, require the bearer scheme, decode and validate
//! the token, and hand the claims on.  Administrator-only handlers then
//! compare the role claim against the role they require.

use crate::models::user::UserRole;
use crate::services::auth_service::{jwt_decode_at, now_timestamp, spec_jwt_token, Claims, TokenError};
use crate::text::str_eq;
use vstd::prelude::*;

verus! {

/// An authentication rejection as sent to the client: a JSON body holding
/// one message.
#[derive(Debug, Clone)]
pub struct AuthError {
    message: String,
}

impl AuthError {
    /// The message this error carries.
    pub closed spec fn spec_message(self) -> Seq<char> {
        self.message@
    }

    pub fn new(message: String) -> (r: Self)
        ensures
            r.spec_message() == message@,
    {
        Self { message }
    }

    pub fn message(&self) -> (r: &str)
        ensures
            r@ == self.spec_message(),
    {
        self.message.as_str()
    }
}

/// Why a request was turned away before its handler ran.
#[derive(Debug, PartialEq, Eq, Structural, Clone, Copy)]
pub enum AuthRejection {
    /// The request carries no authorization header.
    MissingToken,
    /// The header's value does not carry the bearer scheme.
    MalformedHeader,
    /// A bearer token was presented but failed validation.
    BadToken(TokenError),
}

impl AuthRejection {
    /// The message the client sees; every rejection surfaces as HTTP 401.
    pub open spec fn spec_message(self) -> Seq<char> {
        match self {
            AuthRejection::MissingToken => "Token de autorização ausente."@,
            AuthRejection::MalformedHeader => "Token de autorização mal formatado (requer prefixo 'Bearer ')."@,
            AuthRejection::BadToken(TokenError::Expired) => "Token expirado."@,
            AuthRejection::BadToken(TokenError::InvalidSignature) => "Assinatura do token inválida."@,
            AuthRejection::BadToken(TokenError::Malformed) => "Token inválido."@,
        }
    }

    pub fn message(&self) -> (r: String)
        ensures
            r@ == self.spec_message(),
    {
        match self {
            AuthRejection::MissingToken => "Token de autorização ausente.".to_owned(),
            AuthRejection::MalformedHeader => "Token de autorização mal formatado (requer prefixo 'Bearer ').".to_owned(),
            AuthRejection::BadToken(TokenError::Expired) => "Token expirado.".to_owned(),
            AuthRejection::BadToken(TokenError::InvalidSignature) => "Assinatura do token inválida.".to_owned(),
            AuthRejection::BadToken(TokenError::Malformed) => "Token inválido.".to_owned(),
        }
    }

    /// Every authentication rejection maps to the same status code.
    pub fn status_code(&self) -> (r: u16)
        ensures
            r == 401,
    {
        401
    }

    /// The response body for this rejection.
    pub fn to_auth_error(&self) -> (r: AuthError)
        ensures
            r.spec_message() == self.spec_message(),
    {
        AuthError { message: self.message() }
    }
}

/// The claims of an authenticated principal, as handed to a handler.
#[derive(Debug, Clone)]
pub struct AuthUser(pub Claims);

/// The header value opens with the bearer scheme.
pub open spec fn has_bearer_prefix(h: Seq<char>) -> bool {
    h.len() >= 7 && h.subrange(0, 7) == "Bearer "@
}

/// The token part of a bearer header value: what follows the scheme.
pub open spec fn bearer_token_of(h: Seq<char>) -> Seq<char> {
    h.skip(7)
}

/// Splits the bearer scheme off a header value.
fn strip_bearer<'a>(h: &'a str) -> (r: Option<&'a str>)
    ensures
        has_bearer_prefix(h@) ==> (r is Some && r->Some_0@ == bearer_token_of(h@)),
        !has_bearer_prefix(h@) ==> r is None,
{
    let len = h.unicode_len();
    if len < 7 {
        return None;
    }
    let prefix = h.substring_char(0, 7);
    if str_eq(prefix, "Bearer ") {
        let token = h.substring_char(7, len);
        proof {
            assert(token@ =~= bearer_token_of(h@));
        }
        Some(token)
    } else {
        None
    }
}

/// The request authenticator, checked against the moment `now`: a missing
/// header or one without the bearer scheme never reaches token validation;
/// a bearer token signed with `secret_key` yields its claims while `now`
/// precedes its expiry and is `Expired` from then on; one signed with any
/// other key is rejected for its signature.
pub fn authenticate_request_at(header: Option<&str>, secret_key: &str, now: usize) -> (r: Result<
    AuthUser,
    AuthRejection,
>)
    ensures
        header is None ==> (r is Err && r->Err_0 is MissingToken),
        header matches Some(h) && !has_bearer_prefix(h@) ==> (r is Err
            && r->Err_0 is MalformedHeader),
        forall|s: Seq<char>, ro: Seq<char>, e: int|
            (header matches Some(h) && has_bearer_prefix(h@) && 0 <= e <= usize::MAX
                && bearer_token_of(h@) == #[trigger] spec_jwt_token(s, ro, e, secret_key@)
                && e <= now) ==> r == Err::<AuthUser, AuthRejection>(
                AuthRejection::BadToken(TokenError::Expired),
            ),
        forall|s: Seq<char>, ro: Seq<char>, e: int|
            (header matches Some(h) && has_bearer_prefix(h@) && 0 <= e <= usize::MAX
                && bearer_token_of(h@) == #[trigger] spec_jwt_token(s, ro, e, secret_key@) && e
                > now) ==> (r is Ok && r->Ok_0.0.sub@ == s && r->Ok_0.0.role@ == ro
                && r->Ok_0.0.exp as int == e),
        forall|s: Seq<char>, ro: Seq<char>, e: int, k: Seq<char>|
            (header matches Some(h) && has_bearer_prefix(h@) && bearer_token_of(h@)
                == #[trigger] spec_jwt_token(s, ro, e, k) && k != secret_key@) ==> r == Err::<
                AuthUser,
                AuthRejection,
            >(AuthRejection::BadToken(TokenError::InvalidSignature)),
        r matches Ok(u) ==> u.0.exp > now,
{
    match header {
        None => Err(AuthRejection::MissingToken),
        Some(h) => match strip_bearer(h) {
            None => Err(AuthRejection::MalformedHeader),
            Some(token) => match jwt_decode_at(secret_key, token, now) {
                Ok(claims) => Ok(AuthUser(claims)),
                Err(te) => Err(AuthRejection::BadToken(te)),
            },
        },
    }
}

/// The request authenticator, checked against the clock.
pub fn authenticate_request(header: Option<&str>, secret_key: &str) -> (r: Result<
    AuthUser,
    AuthRejection,
>)
    ensures
        header is None ==> (r is Err && r->Err_0 is MissingToken),
        header matches Some(h) && !has_bearer_prefix(h@) ==> (r is Err
            && r->Err_0 is MalformedHeader),
        forall|s: Seq<char>, ro: Seq<char>, e: int, k: Seq<char>|
            (header matches Some(h) && has_bearer_prefix(h@) && bearer_token_of(h@)
                == #[trigger] spec_jwt_token(s, ro, e, k) && k != secret_key@) ==> r == Err::<
                AuthUser,
                AuthRejection,
            >(AuthRejection::BadToken(TokenError::InvalidSignature)),
{
    let now = now_timestamp();
    authenticate_request_at(header, secret_key, now)
}

/// Rejection of an authenticated principal whose role does not meet an
/// operation's requirement; surfaces as HTTP 403.
#[derive(Debug, PartialEq, Eq, Structural, Clone, Copy)]
pub struct Forbidden;

impl Forbidden {
    /// A role mismatch maps to one status code.
    pub fn status_code(&self) -> (r: u16)
        ensures
            r == 403,
    {
        403
    }
}

/// The claims' role is exactly the role the operation requires.
pub open spec fn spec_role_matches(claims: Claims, required: UserRole) -> bool {
    claims.role@ == required.spec_label()
}

/// The authorization check run by each privileged handler: exact equality
/// of the role claim with the single role the operation requires, no
/// hierarchy.
pub fn authorize(claims: &Claims, required: UserRole) -> (r: Result<(), Forbidden>)
    ensures
        r is Ok <==> spec_role_matches(*claims, required),
{
    let label = required.label();
    if str_eq(claims.role.as_str(), label.as_str()) {
        Ok(())
    } else {
        Err(Forbidden)
    }
}

/// Role gating: claims naming the client role never pass a check that
/// requires the administrator role, however valid and unexpired the token
/// that carried them.
pub proof fn lemma_client_cannot_reach_admin(claims: Claims)
    requires
        claims.role@ == UserRole::Cliente.spec_label(),
    ensures
        !spec_role_matches(claims, UserRole::Administrador),
{
    reveal_strlit("Cliente");
    reveal_strlit("Administrador");
    assert("Cliente"@.len() != "Administrador"@.len());
}

} // verus!
