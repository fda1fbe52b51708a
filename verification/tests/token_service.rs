use jwt_simple::prelude::{HS256Key, JWTClaims, MACLike, NoCustomClaims, UnixTimeStamp};
use microblog::error::{AuthError, ConfigError, TokenError};
use microblog::identity::AuthClaims;
use microblog::token::{
    judge, time_of, unix_now, Authentication, OpenFailure, RawClaims, DEFAULT_TTL_SECS,
    MAX_TIMESTAMP, MIN_SECRET_BYTES,
};
use serde_json::Value;

const SECRET: &str = "a-secret-of-more-than-twelve-bytes";
const OTHER_SECRET: &str = "another-secret-that-is-long-enough";

fn service() -> Authentication {
    Authentication::new(Some(SECRET)).unwrap()
}

fn claims(user_id: i32, username: &str) -> AuthClaims {
    AuthClaims { user_id, username: username.to_string() }
}

fn raw(expires_at: Option<u64>, user_id: Option<i64>, username: Option<&str>) -> RawClaims {
    RawClaims { expires_at, user_id, username: username.map(String::from) }
}

/// A token under `SECRET` whose payload is just what the caller puts in.
fn signed_with<T: serde::Serialize>(custom: T, expires_at: Option<u64>) -> String {
    let claims = JWTClaims {
        issued_at: None,
        expires_at: expires_at.map(UnixTimeStamp::from_secs),
        invalid_before: None,
        issuer: None,
        subject: None,
        audiences: None,
        jwt_id: None,
        nonce: None,
        custom,
    };
    HS256Key::from_bytes(SECRET.as_bytes()).authenticate(claims).unwrap()
}

fn is_base64url(byte: u8) -> bool {
    byte.is_ascii_alphanumeric() || byte == b'-' || byte == b'_'
}

#[test]
fn round_trip_returns_the_identity() {
    let auth = service();
    let token = auth.create_token_at(42, "johndoe", 1_700_000_000, 3_600).unwrap();
    let verified = auth.verify_token_at(&token, 1_700_000_000 + 3_599).unwrap();
    assert_eq!(verified, claims(42, "johndoe"));
}

#[test]
fn round_trip_keeps_every_kind_of_identity() {
    let auth = service();
    for (id, name) in [
        (0, ""),
        (-1, "a"),
        (i32::MAX, "名前 with \"quotes\" and \\ and \n"),
        (i32::MIN, "🦀"),
    ] {
        let token = auth.create_token_at(id, name, 1_000, 1).unwrap();
        assert_eq!(auth.verify_token_at(&token, 1_000), Ok(claims(id, name)));
        assert_eq!(auth.verify_token_at(&token, 1_001), Ok(claims(id, name)));
    }
}

#[test]
fn token_is_valid_through_the_second_of_its_expiry() {
    let auth = service();
    let token = auth.create_token_at(7, "amy", 1_000, 10).unwrap();
    assert_eq!(auth.verify_token_at(&token, 1_010), Ok(claims(7, "amy")));
    assert_eq!(auth.verify_token_at(&token, 1_011), Err(AuthError::Expired));
    assert_eq!(auth.verify_token_at(&token, u64::MAX), Err(AuthError::Expired));
}

#[test]
fn token_verifies_before_it_was_issued() {
    let auth = service();
    let token = auth.create_token_at(7, "amy", 1_000, 10).unwrap();
    assert_eq!(auth.verify_token_at(&token, 0), Ok(claims(7, "amy")));
    assert_eq!(auth.verify_token_at(&token, 999), Ok(claims(7, "amy")));
}

#[test]
fn token_with_no_lifetime_is_valid_at_its_issue_only() {
    let auth = service();
    let token = auth.create_token_at(7, "amy", 5_000, 0).unwrap();
    assert_eq!(auth.verify_token_at(&token, 5_000), Ok(claims(7, "amy")));
    assert_eq!(auth.verify_token_at(&token, 5_001), Err(AuthError::Expired));
}

#[test]
fn default_lifetime_is_seven_days() {
    assert_eq!(DEFAULT_TTL_SECS, 7 * 24 * 60 * 60);
    let auth = service();
    let token = auth.create_token_at(1, "x", 1_700_000_000, DEFAULT_TTL_SECS).unwrap();
    assert!(auth.verify_token_at(&token, 1_700_604_800).is_ok());
    assert_eq!(auth.verify_token_at(&token, 1_700_604_801), Err(AuthError::Expired));
}

#[test]
fn token_by_the_clock_lives_seven_days() {
    let auth = service();
    let before = unix_now();
    let token = auth.create_token(42, "johndoe").unwrap();
    let after = unix_now();
    assert_eq!(auth.verify_token(&token), Ok(claims(42, "johndoe")));
    assert!(auth.verify_token_at(&token, before + DEFAULT_TTL_SECS).is_ok());
    assert_eq!(
        auth.verify_token_at(&token, after + DEFAULT_TTL_SECS + 1),
        Err(AuthError::Expired)
    );
}

#[test]
fn the_token_is_a_function_of_what_went_in() {
    let auth = service();
    let first = auth.create_token_at(42, "johndoe", 1_000, 60).unwrap();
    let again = auth.create_token_at(42, "johndoe", 1_000, 60).unwrap();
    let later = auth.create_token_at(42, "johndoe", 1_001, 60).unwrap();
    assert_eq!(first, again);
    assert_ne!(first, later);
    assert_eq!(auth.verify_token_at(&first, 1_000), Ok(claims(42, "johndoe")));
    assert_eq!(auth.verify_token_at(&later, 1_000), Ok(claims(42, "johndoe")));
}

#[test]
fn the_token_has_three_segments_and_is_not_its_input() {
    let auth = service();
    let token = auth.create_token_at(42, "johndoe", 1_000, 60).unwrap();
    assert_ne!(token, "johndoe");
    assert_eq!(token.split('.').count(), 3);
    assert!(token.split('.').all(|part| !part.is_empty() && part.bytes().all(is_base64url)));
    // The header that every HS256 token of this signer opens with.
    assert!(token.starts_with("eyJhbGciOiJIUzI1NiIsInR5cCI6IkpXVCJ9."));
}

#[test]
fn a_token_under_another_secret_is_a_bad_signature() {
    let auth = service();
    let other = Authentication::new(Some(OTHER_SECRET)).unwrap();
    let token = other.create_token_at(42, "johndoe", 1_000, 60).unwrap();
    assert_eq!(auth.verify_token_at(&token, 1_000), Err(AuthError::BadSignature));
    assert_eq!(other.verify_token_at(&token, 1_000), Ok(claims(42, "johndoe")));
}

#[test]
fn a_bad_signature_is_reported_before_an_expiry() {
    let auth = service();
    let other = Authentication::new(Some(OTHER_SECRET)).unwrap();
    let token = other.create_token_at(42, "johndoe", 1_000, 60).unwrap();
    assert_eq!(auth.verify_token_at(&token, 2_000), Err(AuthError::BadSignature));
}

#[test]
fn no_single_bit_change_of_the_signature_verifies() {
    let auth = service();
    let token = auth.create_token_at(42, "johndoe", 1_000, 60).unwrap();
    let start = token.rfind('.').unwrap() + 1;
    let mut within_alphabet = 0;
    for at in start..token.len() {
        for bit in 0..8 {
            let mut bytes = token.clone().into_bytes();
            bytes[at] ^= 1 << bit;
            let changed = bytes[at];
            let Ok(mutated) = String::from_utf8(bytes) else { continue };
            let verdict = auth.verify_token_at(&mutated, 1_000);
            assert!(verdict.is_err(), "byte {at} bit {bit} verified");
            if is_base64url(changed) && at + 1 < token.len() {
                within_alphabet += 1;
                assert_eq!(verdict, Err(AuthError::BadSignature), "byte {at} bit {bit}");
            } else {
                assert!(
                    verdict == Err(AuthError::BadSignature) || verdict == Err(AuthError::Malformed),
                    "byte {at} bit {bit}"
                );
            }
        }
    }
    assert!(within_alphabet > 100);
}

#[test]
fn a_changed_payload_is_a_bad_signature() {
    let auth = service();
    let token = auth.create_token_at(42, "johndoe", 1_000, 60).unwrap();
    let forged = auth.create_token_at(1, "admin", 1_000, 60).unwrap();
    let mut parts: Vec<&str> = token.split('.').collect();
    let forged_parts: Vec<&str> = forged.split('.').collect();
    parts[1] = forged_parts[1];
    assert_eq!(auth.verify_token_at(&parts.join("."), 1_000), Err(AuthError::BadSignature));
}

#[test]
fn what_is_no_token_is_malformed() {
    let auth = service();
    let token = auth.create_token_at(42, "johndoe", 1_000, 60).unwrap();
    for text in [
        "",
        "not-a-token",
        "a.b",
        "a.b.c",
        "..",
        "a.b.c.d",
        "Bearer abc",
        "eyJhbGciOiJIUzI1NiIsInR5cCI6IkpXVCJ9",
    ] {
        assert_eq!(auth.verify_token_at(text, 1_000), Err(AuthError::Malformed), "{text:?}");
    }
    assert_eq!(auth.verify_token_at(&format!("{token}."), 1_000), Err(AuthError::Malformed));
    assert_eq!(auth.verify_token_at(&format!("{token}.x"), 1_000), Err(AuthError::Malformed));
    assert_eq!(auth.verify_token_at(&format!(" {token}"), 1_000), Err(AuthError::Malformed));
}

#[test]
fn a_token_of_another_algorithm_is_malformed() {
    let auth = service();
    // Header {"alg":"none","typ":"JWT"}, payload {"user_id":1,"username":"x"}.
    let token = "eyJhbGciOiJub25lIiwidHlwIjoiSldUIn0.eyJ1c2VyX2lkIjoxLCJ1c2VybmFtZSI6IngifQ.";
    assert_eq!(auth.verify_token_at(token, 0), Err(AuthError::Malformed));
}

#[test]
fn a_signed_token_without_an_identity_is_malformed() {
    let auth = service();
    let bare = signed_with(NoCustomClaims {}, Some(2_000));
    assert_eq!(auth.verify_token_at(&bare, 1_000), Err(AuthError::Malformed));
    // Malformed comes first: the expiry of such a token is never looked at.
    assert_eq!(auth.verify_token_at(&bare, 3_000), Err(AuthError::Malformed));

    let no_name = signed_with(Value::from_iter([("user_id", Value::from(42))]), Some(2_000));
    assert_eq!(auth.verify_token_at(&no_name, 1_000), Err(AuthError::Malformed));

    let no_id = signed_with(Value::from_iter([("username", Value::from("amy"))]), Some(2_000));
    assert_eq!(auth.verify_token_at(&no_id, 1_000), Err(AuthError::Malformed));

    let text_id = signed_with(
        Value::from_iter([("user_id", Value::from("42")), ("username", Value::from("amy"))]),
        Some(2_000),
    );
    assert_eq!(auth.verify_token_at(&text_id, 1_000), Err(AuthError::Malformed));

    let number_name = signed_with(
        Value::from_iter([("user_id", Value::from(42)), ("username", Value::from(7))]),
        Some(2_000),
    );
    assert_eq!(auth.verify_token_at(&number_name, 1_000), Err(AuthError::Malformed));
}

#[test]
fn a_user_id_beyond_i32_is_malformed() {
    let auth = service();
    for (id, fits) in [
        (i64::from(i32::MAX), true),
        (i64::from(i32::MAX) + 1, false),
        (i64::from(i32::MIN), true),
        (i64::from(i32::MIN) - 1, false),
        (i64::MAX, false),
    ] {
        let token = signed_with(
            Value::from_iter([("user_id", Value::from(id)), ("username", Value::from("amy"))]),
            Some(2_000),
        );
        let verdict = auth.verify_token_at(&token, 1_000);
        if fits {
            assert_eq!(verdict, Ok(claims(id as i32, "amy")));
        } else {
            assert_eq!(verdict, Err(AuthError::Malformed));
        }
    }
}

#[test]
fn a_signed_token_without_an_expiry_never_expires() {
    let auth = service();
    let token = signed_with(
        Value::from_iter([("user_id", Value::from(42)), ("username", Value::from("amy"))]),
        None,
    );
    assert_eq!(auth.verify_token_at(&token, 0), Ok(claims(42, "amy")));
    assert_eq!(auth.verify_token_at(&token, u64::MAX), Ok(claims(42, "amy")));
}

#[test]
fn judge_gives_the_identity_up_to_the_expiry() {
    assert_eq!(judge(Ok(raw(Some(100), Some(42), Some("amy"))), 0), Ok(claims(42, "amy")));
    assert_eq!(judge(Ok(raw(Some(100), Some(42), Some("amy"))), 100), Ok(claims(42, "amy")));
    assert_eq!(judge(Ok(raw(Some(100), Some(42), Some("amy"))), 101), Err(AuthError::Expired));
    assert_eq!(judge(Ok(raw(None, Some(42), Some("amy"))), u64::MAX), Ok(claims(42, "amy")));
    assert_eq!(judge(Ok(raw(Some(0), Some(-5), Some(""))), 0), Ok(claims(-5, "")));
}

#[test]
fn judge_finds_a_missing_identity_before_an_expiry() {
    assert_eq!(judge(Ok(raw(Some(100), None, Some("amy"))), 0), Err(AuthError::Malformed));
    assert_eq!(judge(Ok(raw(Some(100), Some(42), None)), 0), Err(AuthError::Malformed));
    assert_eq!(judge(Ok(raw(Some(100), None, None)), 500), Err(AuthError::Malformed));
    assert_eq!(
        judge(Ok(raw(Some(100), Some(2_147_483_648), Some("amy"))), 500),
        Err(AuthError::Malformed)
    );
    assert_eq!(
        judge(Ok(raw(Some(100), Some(-2_147_483_649), Some("amy"))), 0),
        Err(AuthError::Malformed)
    );
    assert_eq!(
        judge(Ok(raw(Some(100), Some(2_147_483_647), Some("amy"))), 0),
        Ok(claims(i32::MAX, "amy"))
    );
    assert_eq!(
        judge(Ok(raw(Some(100), Some(-2_147_483_648), Some("amy"))), 0),
        Ok(claims(i32::MIN, "amy"))
    );
}

#[test]
fn judge_names_each_failure() {
    assert_eq!(judge(Err(OpenFailure::BadTag), 0), Err(AuthError::BadSignature));
    assert_eq!(judge(Err(OpenFailure::Expired), 0), Err(AuthError::Expired));
    assert_eq!(judge(Err(OpenFailure::Unreadable), 0), Err(AuthError::Malformed));
}

#[test]
fn a_missing_or_short_secret_is_a_config_error() {
    assert_eq!(MIN_SECRET_BYTES, 12);
    assert!(matches!(Authentication::new(None), Err(ConfigError::MissingSecret)));
    assert!(matches!(Authentication::new(Some("")), Err(ConfigError::WeakSecret)));
    assert!(matches!(Authentication::new(Some("elevenbytes")), Err(ConfigError::WeakSecret)));
    assert!(Authentication::new(Some("twelve_bytes")).is_ok());
    // Length is counted in bytes: four characters of three bytes each.
    assert!(Authentication::new(Some("日本語字")).is_ok());
    assert!(matches!(Authentication::new(Some("日本語")), Err(ConfigError::WeakSecret)));
}

#[test]
fn the_shortest_secret_signs_and_verifies() {
    let auth = Authentication::new(Some("twelve_bytes")).unwrap();
    assert_eq!(auth.key_len(), 12);
    assert_eq!(Authentication::new(Some("日本語字")).unwrap().key_len(), 12);
    assert_eq!(service().key_len(), SECRET.len());
    let token = auth.create_token_at(42, "johndoe", 1_000, 60).unwrap();
    assert_eq!(auth.verify_token_at(&token, 1_000), Ok(claims(42, "johndoe")));
}

#[test]
fn an_expiry_beyond_the_timestamp_range_is_refused() {
    assert_eq!(MAX_TIMESTAMP, u64::from(u32::MAX));
    let auth = service();
    assert_eq!(auth.create_token_at(1, "x", MAX_TIMESTAMP, 1), Err(TokenError::TimeOutOfRange));
    assert_eq!(auth.create_token_at(1, "x", 0, MAX_TIMESTAMP + 1), Err(TokenError::TimeOutOfRange));
    assert_eq!(
        auth.create_token_at(1, "x", u64::MAX, DEFAULT_TTL_SECS),
        Err(TokenError::TimeOutOfRange)
    );
    assert_eq!(auth.create_token_at(1, "x", u64::MAX, u64::MAX), Err(TokenError::TimeOutOfRange));
}

#[test]
fn a_token_too_long_to_be_verified_is_not_handed_out() {
    let auth = service();
    // The verifier reads no token of more than a million bytes.
    let long_name = "a".repeat(800_000);
    assert_eq!(auth.create_token_at(1, &long_name, 1_000, 60), Err(TokenError::Unverifiable));
    let name = "a".repeat(700_000);
    let token = auth.create_token_at(1, &name, 1_000, 60).unwrap();
    assert!(token.len() <= 1_000_000);
    assert_eq!(auth.verify_token_at(&token, 1_000), Ok(claims(1, &name)));
}

#[test]
fn the_latest_expiry_is_kept_to_the_second() {
    let auth = service();
    let token = auth.create_token_at(1, "x", MAX_TIMESTAMP - 1, 1).unwrap();
    assert_eq!(auth.verify_token_at(&token, MAX_TIMESTAMP), Ok(claims(1, "x")));
    assert_eq!(auth.verify_token_at(&token, MAX_TIMESTAMP + 1), Err(AuthError::Expired));
    let earlier = auth.create_token_at(1, "x", 0, MAX_TIMESTAMP - 1).unwrap();
    assert_eq!(auth.verify_token_at(&earlier, MAX_TIMESTAMP - 1), Ok(claims(1, "x")));
    assert_eq!(auth.verify_token_at(&earlier, MAX_TIMESTAMP), Err(AuthError::Expired));
}

#[test]
fn a_clock_before_the_epoch_reads_as_the_epoch() {
    assert_eq!(time_of(None), 0);
    assert_eq!(time_of(Some(0)), 0);
    assert_eq!(time_of(Some(1_700_000_000)), 1_700_000_000);
    assert_eq!(time_of(Some(u64::MAX)), u64::MAX);
    // The clock of this machine is set after 2020.
    assert!(unix_now() > 1_577_836_800);
}

#[test]
fn token_errors_have_messages() {
    assert_eq!(TokenError::TimeOutOfRange.message(), "Error creating token: expiry out of range");
    assert_eq!(TokenError::Signing.message(), "Error creating token: signing failed");
    assert_eq!(TokenError::Unverifiable.message(), "Error creating token: token does not verify");
}

#[test]
fn every_auth_error_answers_401() {
    for (error, reason) in [
        (AuthError::MissingHeader, "Authorization header missing"),
        (AuthError::BadFormat, "Invalid authorization format"),
        (AuthError::Malformed, "Invalid or expired token"),
        (AuthError::BadSignature, "Invalid or expired token"),
        (AuthError::Expired, "Invalid or expired token"),
        (AuthError::Invalid, "Invalid or expired token"),
    ] {
        assert_eq!(error.status(), 401);
        assert_eq!(error.reason(), reason);
    }
}

#[test]
fn claims_are_built_and_copied_unchanged() {
    let made = AuthClaims::new(42, "johndoe");
    assert_eq!(made, claims(42, "johndoe"));
    assert_eq!(made.duplicate(), made);
}
