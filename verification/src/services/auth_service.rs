//! The token codec and the password primitives.
//!
//! A credential is a signed, self-contained token whose claims name the
//! principal (`sub`), their role, and an absolute expiry time.  Signing and
//! verification use one shared secret key, passed explicitly to every
//! function that needs it.  The cryptographic work is done by outside
//! libraries behind trusted wrappers; everything around those calls —
//! claim construction, expiry arithmetic, the expiry check on decode — is
//! verified.

use crate::models::user::UserRole;
use crate::text::{dec_str_signed, i32_to_dec};
use jsonwebtoken::errors::ErrorKind;
use jsonwebtoken::{decode, encode, Algorithm, DecodingKey, EncodingKey, Header, Validation};
use vstd::prelude::*;

verus! {

/// The payload of a signed credential: the principal's id rendered in
/// decimal, their role's name, and the expiry time in seconds since the
/// epoch.
#[derive(Debug, Clone)]
pub struct Claims {
    pub sub: String,
    pub role: String,
    pub exp: usize,
}

/// Why a presented token was rejected.  The three reasons surface alike at
/// the boundary but stay distinguishable for diagnostics.
#[derive(Debug, PartialEq, Eq, Structural, Clone, Copy)]
pub enum TokenError {
    /// Signature valid, but the expiry time has passed.
    Expired,
    /// The signature does not match the payload under the secret key.
    InvalidSignature,
    /// Structurally invalid: wrong encoding, missing fields, unparseable.
    Malformed,
}

/// Seconds a fresh credential stays valid: 24 hours.
pub const TOKEN_VALIDITY_SECS: usize = 86400;

/// The token produced by signing claims `(sub, role, exp)` with `key`.
/// The signing scheme is deterministic, so the token is a function of the
/// claims and the key alone; nothing else is assumed about its shape.
pub uninterp spec fn spec_jwt_token(
    sub: Seq<char>,
    role: Seq<char>,
    exp: int,
    key: Seq<char>,
) -> Seq<char>;

/// Whether the password check of `password` against the stored hash
/// `hashed_password` succeeds.  The salt and cost ride inside the hash, so
/// the outcome is a function of these two strings alone.
pub uninterp spec fn bcrypt_verifies(password: Seq<char>, hashed_password: Seq<char>) -> bool;

/// Relies on jsonwebtoken::encode with the default (HS256) header and an
/// HMAC key: it serialises the claims, signs them, and cannot fail for a
/// key/algorithm pair of matching family and a payload of plain strings
/// and integers.  The result is deterministic in the claims and the key.
#[verifier::external_body]
fn jwt_encode(claims: &Claims, secret_key: &str) -> (r: String)
    ensures
        r@ == spec_jwt_token(claims.sub@, claims.role@, claims.exp as int, secret_key@),
{
    let mut payload = serde_json::Map::new();
    payload.insert("sub".to_owned(), serde_json::Value::from(claims.sub.clone()));
    payload.insert("role".to_owned(), serde_json::Value::from(claims.role.clone()));
    payload.insert("exp".to_owned(), serde_json::Value::from(claims.exp as u64));
    let key = EncodingKey::from_secret(secret_key.as_bytes());
    encode(&Header::default(), &serde_json::Value::Object(payload), &key)
        .expect("HMAC signing of a plain JSON object does not fail")
}

/// Relies on jsonwebtoken::decode with HS256 and expiry validation turned
/// off, so the outcome is a function of the token and the key: a token
/// signed with this key yields its claims back; one signed with another key
/// fails the signature comparison; anything else is malformed.  The expiry
/// check is done by the verified callers, so this never reports `Expired`.
#[verifier::external_body]
fn jwt_parse(secret_key: &str, token: &str) -> (r: Result<Claims, TokenError>)
    ensures
        forall|s: Seq<char>, ro: Seq<char>, e: int|
            (0 <= e <= usize::MAX && token@ == #[trigger] spec_jwt_token(s, ro, e, secret_key@))
                ==> (r is Ok && r->Ok_0.sub@ == s && r->Ok_0.role@ == ro
                && r->Ok_0.exp as int == e),
        forall|s: Seq<char>, ro: Seq<char>, e: int, k: Seq<char>|
            (token@ == #[trigger] spec_jwt_token(s, ro, e, k) && k != secret_key@)
                ==> (r is Err && r->Err_0 is InvalidSignature),
        r matches Err(te) ==> !(te is Expired),
{
    let mut v = Validation::new(Algorithm::HS256);
    v.validate_exp = false;
    let key = DecodingKey::from_secret(secret_key.as_bytes());
    match decode::<serde_json::Value>(token, &key, &v) {
        Ok(d) => match (d.claims["sub"].as_str(), d.claims["role"].as_str(), d.claims["exp"].as_u64()) {
            (Some(s), Some(ro), Some(e)) if e <= usize::MAX as u64 => Ok(
                Claims { sub: s.to_owned(), role: ro.to_owned(), exp: e as usize },
            ),
            _ => Err(TokenError::Malformed),
        },
        Err(e) => match e.kind() {
            ErrorKind::InvalidSignature => Err(TokenError::InvalidSignature),
            _ => Err(TokenError::Malformed),
        },
    }
}

/// Relies on chrono::Utc::now for the wall clock.  Nothing is assumed of
/// the value: callers must hold for every reading.
#[verifier::external_body]
fn current_timestamp() -> i64 {
    chrono::Utc::now().timestamp()
}

/// Wall-clock seconds since the epoch, clamped into `usize`.
pub fn now_timestamp() -> (r: usize) {
    let t = current_timestamp();
    if t <= 0 {
        0
    } else {
        let tu = t as u64;
        if tu >= usize::MAX as u64 {
            usize::MAX
        } else {
            tu as usize
        }
    }
}

/// Expiry of a credential issued at `now`: the validity window later,
/// saturating at the largest representable time.
pub open spec fn spec_expiry(now: int) -> int {
    if now + TOKEN_VALIDITY_SECS <= usize::MAX {
        now + TOKEN_VALIDITY_SECS
    } else {
        usize::MAX as int
    }
}

/// The expiry time of a credential issued at `now`.
pub fn expiry_at(now: usize) -> (r: usize)
    ensures
        r as int == spec_expiry(now as int),
{
    if now <= usize::MAX - TOKEN_VALIDITY_SECS {
        now + TOKEN_VALIDITY_SECS
    } else {
        usize::MAX
    }
}

/// Claims for the principal `user_id` holding `user_role`, issued at `now`.
pub fn issue_claims(user_id: i32, user_role: &UserRole, now: usize) -> (r: Claims)
    ensures
        r.sub@ == dec_str_signed(user_id as int),
        r.role@ == user_role.spec_label(),
        r.exp as int == spec_expiry(now as int),
{
    Claims { sub: i32_to_dec(user_id), role: user_role.label(), exp: expiry_at(now) }
}

/// Signs a credential for `user_id` holding `user_role`, issued at `now`.
pub fn jwt_gen_at(secret_key: &str, user_id: i32, user_role: &UserRole, now: usize) -> (r: String)
    ensures
        r@ == spec_jwt_token(
            dec_str_signed(user_id as int),
            user_role.spec_label(),
            spec_expiry(now as int),
            secret_key@,
        ),
{
    let claims = issue_claims(user_id, user_role, now);
    jwt_encode(&claims, secret_key)
}

/// Signs a credential for `user_id` holding `user_role`, issued now and
/// expiring the validity window later.
pub fn jwt_gen(secret_key: &str, user_id: i32, user_role: &UserRole) -> (r: String)
    ensures
        exists|now: int|
            #![auto]
            0 <= now <= usize::MAX && r@ == spec_jwt_token(
                dec_str_signed(user_id as int),
                user_role.spec_label(),
                spec_expiry(now),
                secret_key@,
            ),
{
    let now = now_timestamp();
    jwt_gen_at(secret_key, user_id, user_role, now)
}

/// Decodes `token` under `secret_key` and checks its expiry against `now`:
/// a token this key signed comes back as its claims while `now` is before
/// its expiry, and as `Expired` from its expiry on; a token signed with any
/// other key is rejected as `InvalidSignature`.
pub fn jwt_decode_at(secret_key: &str, token: &str, now: usize) -> (r: Result<Claims, TokenError>)
    ensures
        forall|s: Seq<char>, ro: Seq<char>, e: int|
            0 <= e <= usize::MAX && token@ == #[trigger] spec_jwt_token(s, ro, e, secret_key@)
                ==> (if e <= now {
                r == Err::<Claims, TokenError>(TokenError::Expired)
            } else {
                r is Ok && r->Ok_0.sub@ == s && r->Ok_0.role@ == ro && r->Ok_0.exp as int == e
            }),
        forall|s: Seq<char>, ro: Seq<char>, e: int, k: Seq<char>|
            token@ == #[trigger] spec_jwt_token(s, ro, e, k) && k != secret_key@
                ==> r == Err::<Claims, TokenError>(TokenError::InvalidSignature),
        r matches Ok(c) ==> c.exp > now,
{
    match jwt_parse(secret_key, token) {
        Ok(claims) => {
            if claims.exp <= now {
                Err(TokenError::Expired)
            } else {
                Ok(claims)
            }
        },
        Err(e) => Err(e),
    }
}

/// Decodes `token` under `secret_key`, checking expiry against the clock.
pub fn jwt_decode_and_validate(secret_key: &str, token: &str) -> (r: Result<Claims, TokenError>)
    ensures
        forall|s: Seq<char>, ro: Seq<char>, e: int|
            0 <= e <= usize::MAX && token@ == #[trigger] spec_jwt_token(s, ro, e, secret_key@)
                ==> (r == Err::<Claims, TokenError>(TokenError::Expired) || (r is Ok
                && r->Ok_0.sub@ == s && r->Ok_0.role@ == ro && r->Ok_0.exp as int == e)),
        forall|s: Seq<char>, ro: Seq<char>, e: int, k: Seq<char>|
            token@ == #[trigger] spec_jwt_token(s, ro, e, k) && k != secret_key@
                ==> r == Err::<Claims, TokenError>(TokenError::InvalidSignature),
{
    let now = now_timestamp();
    jwt_decode_at(secret_key, token, now)
}

/// Round trip of the codec, checked for every id, role, key and pair of
/// times: a credential issued at `issued_at` and decoded with the same key
/// comes back as exactly the claims that were issued for as long as its
/// expiry lies ahead, and as `Expired` from the expiry moment on.
pub fn issue_then_decode(
    secret_key: &str,
    user_id: i32,
    user_role: &UserRole,
    issued_at: usize,
    checked_at: usize,
) -> (r: Result<Claims, TokenError>)
    ensures
        checked_at < spec_expiry(issued_at as int) ==> (r is Ok && r->Ok_0.sub@ == dec_str_signed(
            user_id as int,
        ) && r->Ok_0.role@ == user_role.spec_label() && r->Ok_0.exp as int == spec_expiry(
            issued_at as int,
        )),
        spec_expiry(issued_at as int) <= checked_at ==> r == Err::<Claims, TokenError>(
            TokenError::Expired,
        ),
{
    let token = jwt_gen_at(secret_key, user_id, user_role, issued_at);
    jwt_decode_at(secret_key, token.as_str(), checked_at)
}

/// Signature enforcement, checked for every id, role and pair of keys: a
/// credential decoded with any key other than the one that signed it fails
/// as `InvalidSignature`, never silently succeeds.
pub fn issue_then_decode_with_other_key(
    signing_key: &str,
    decoding_key: &str,
    user_id: i32,
    user_role: &UserRole,
    issued_at: usize,
    checked_at: usize,
) -> (r: Result<Claims, TokenError>)
    ensures
        signing_key@ != decoding_key@ ==> r == Err::<Claims, TokenError>(
            TokenError::InvalidSignature,
        ),
{
    let token = jwt_gen_at(signing_key, user_id, user_role, issued_at);
    jwt_decode_at(decoding_key, token.as_str(), checked_at)
}

/// Relies on bcrypt::verify: the outcome is a function of the password and
/// the stored hash alone (the salt and cost ride inside the hash).  A hash
/// that cannot be parsed verifies as false, as an unusable stored
/// credential should.
#[verifier::external_body]
pub fn password_verify(password: &str, hashed_password: &str) -> (r: bool)
    ensures
        r == bcrypt_verifies(password@, hashed_password@),
{
    bcrypt::verify(password, hashed_password).unwrap_or(false)
}

/// Relies on bcrypt::hash with the default cost: on success the result is
/// a hash that bcrypt::verify accepts for the same password.  It fails only
/// when the operating system's randomness source does (the salt is drawn
/// from it), reported here as `None`.
#[verifier::external_body]
pub fn password_hash(password: &str) -> (r: Option<String>)
    ensures
        r matches Some(h) ==> bcrypt_verifies(password@, h@),
{
    bcrypt::hash(password, bcrypt::DEFAULT_COST).ok()
}

} // verus!
