//! The token codec end to end, with the real signing library underneath:
//! round trips, expiry, signature rejection, and the decimal helpers.

use helpdesk::models::user::UserRole;
use helpdesk::services::auth_service::{
    issue_then_decode, issue_then_decode_with_other_key, jwt_decode_and_validate, jwt_decode_at,
    jwt_gen, jwt_gen_at, now_timestamp, password_hash, password_verify, TokenError,
    TOKEN_VALIDITY_SECS,
};
use helpdesk::text::{i32_to_dec, parse_i32, str_eq, u64_to_dec};

#[test]
fn round_trip_valid_claims() {
    let token = jwt_gen_at("secret", 42, &UserRole::Cliente, 1000);
    let claims = jwt_decode_at("secret", &token, 1000).expect("fresh token must decode");
    assert_eq!(claims.sub, "42");
    assert_eq!(claims.role, "Cliente");
    assert_eq!(claims.exp, 1000 + TOKEN_VALIDITY_SECS);
}

#[test]
fn round_trip_administrator() {
    let token = jwt_gen_at("secret", 7, &UserRole::Administrador, 5000);
    let claims = jwt_decode_at("secret", &token, 5000).expect("fresh token must decode");
    assert_eq!(claims.sub, "7");
    assert_eq!(claims.role, "Administrador");
    assert_eq!(claims.exp, 5000 + TOKEN_VALIDITY_SECS);
}

#[test]
fn round_trip_against_the_clock() {
    let now = now_timestamp();
    let token = jwt_gen("secret", 42, &UserRole::Cliente);
    let claims = jwt_decode_and_validate("secret", &token).expect("fresh token must decode");
    assert_eq!(claims.sub, "42");
    assert_eq!(claims.role, "Cliente");
    assert!(claims.exp >= now + TOKEN_VALIDITY_SECS);
}

#[test]
fn expired_token_is_rejected() {
    // A token whose expiry is one second in this decoder's past.
    let now = 100_000;
    let token = jwt_gen_at("secret", 42, &UserRole::Cliente, now - TOKEN_VALIDITY_SECS - 1);
    let err = jwt_decode_at("secret", &token, now).expect_err("expired token must fail");
    assert_eq!(err, TokenError::Expired);
}

#[test]
fn expired_token_is_rejected_by_the_clock() {
    let now = now_timestamp();
    let token = jwt_gen_at("secret", 42, &UserRole::Cliente, now - TOKEN_VALIDITY_SECS - 1);
    let err = jwt_decode_and_validate("secret", &token).expect_err("expired token must fail");
    assert_eq!(err, TokenError::Expired);
}

#[test]
fn expiry_boundary_is_exclusive() {
    let token = jwt_gen_at("secret", 42, &UserRole::Cliente, 1000);
    let exp = 1000 + TOKEN_VALIDITY_SECS;
    // Valid strictly before the expiry moment, expired from it on.
    assert!(jwt_decode_at("secret", &token, exp - 1).is_ok());
    assert_eq!(
        jwt_decode_at("secret", &token, exp).expect_err("must expire at the boundary"),
        TokenError::Expired
    );
}

#[test]
fn wrong_key_is_rejected() {
    let token = jwt_gen_at("secret", 42, &UserRole::Cliente, 1000);
    let err = jwt_decode_at("another-secret", &token, 1000).expect_err("wrong key must fail");
    assert_eq!(err, TokenError::InvalidSignature);
}

#[test]
fn tampered_token_is_rejected() {
    let token = jwt_gen_at("secret", 42, &UserRole::Cliente, 1000);
    // Flip the last character of the signature part.
    let mut tampered: Vec<char> = token.chars().collect();
    let last = *tampered.last().unwrap();
    let replacement = if last == 'A' { 'B' } else { 'A' };
    *tampered.last_mut().unwrap() = replacement;
    let tampered: String = tampered.into_iter().collect();
    let err = jwt_decode_at("secret", &tampered, 1000).expect_err("tampered token must fail");
    assert!(err == TokenError::InvalidSignature || err == TokenError::Malformed);
}

#[test]
fn malformed_token_is_rejected() {
    let garbage = ["not-a-token", "", "a.b.c"];
    for t in garbage {
        assert_eq!(
            jwt_decode_at("secret", t, 1000).expect_err("garbage must be rejected"),
            TokenError::Malformed
        );
    }
}

#[test]
fn issue_then_decode_round_trips() {
    let claims = issue_then_decode("key", -3, &UserRole::Administrador, 2000, 2000)
        .expect("decoding before expiry must succeed");
    assert_eq!(claims.sub, "-3");
    assert_eq!(claims.role, "Administrador");
    assert_eq!(claims.exp, 2000 + TOKEN_VALIDITY_SECS);
    let err = issue_then_decode("key", -3, &UserRole::Administrador, 2000, 90_000)
        .expect_err("decoding from expiry on must fail");
    assert_eq!(err, TokenError::Expired);
}

#[test]
fn issue_then_decode_with_other_key_never_succeeds() {
    let err = issue_then_decode_with_other_key("key", "other", 42, &UserRole::Cliente, 2000, 2000)
        .expect_err("a foreign signature must fail");
    assert_eq!(err, TokenError::InvalidSignature);
}

#[test]
fn password_hash_verifies_and_rejects() {
    let hashed = password_hash("secret").expect("hashing must succeed");
    // The hash is not the password handed back.
    assert_ne!(hashed, "secret");
    assert!(password_verify("secret", &hashed));
    assert!(!password_verify("wrongpw", &hashed));
}

#[test]
fn password_verify_rejects_unparseable_hash() {
    // A plaintext in place of a stored hash verifies as false, not a fault.
    assert!(!password_verify("secret", "secret"));
    assert!(!password_verify("secret", ""));
}

#[test]
fn decimal_rendering() {
    assert_eq!(u64_to_dec(0), "0");
    assert_eq!(u64_to_dec(90817), "90817");
    assert_eq!(i32_to_dec(42), "42");
    assert_eq!(i32_to_dec(-42), "-42");
    assert_eq!(i32_to_dec(i32::MAX), "2147483647");
    assert_eq!(i32_to_dec(i32::MIN), "-2147483648");
}

#[test]
fn decimal_parsing() {
    assert_eq!(parse_i32("42"), Some(42));
    assert_eq!(parse_i32("+42"), Some(42));
    assert_eq!(parse_i32("-42"), Some(-42));
    assert_eq!(parse_i32("007"), Some(7));
    assert_eq!(parse_i32("0"), Some(0));
    assert_eq!(parse_i32("2147483647"), Some(i32::MAX));
    assert_eq!(parse_i32("-2147483648"), Some(i32::MIN));
    assert_eq!(parse_i32("2147483648"), None);
    assert_eq!(parse_i32("-2147483649"), None);
    assert_eq!(parse_i32("99999999999999999999"), None);
    assert_eq!(parse_i32(""), None);
    assert_eq!(parse_i32("-"), None);
    assert_eq!(parse_i32("+"), None);
    assert_eq!(parse_i32("12a"), None);
    assert_eq!(parse_i32("abc"), None);
    assert_eq!(parse_i32(" 42"), None);
}

#[test]
fn str_eq_compares_by_characters() {
    assert!(str_eq("Média", "Média"));
    assert!(!str_eq("Media", "Média"));
    assert!(!str_eq("abc", "abcd"));
}
