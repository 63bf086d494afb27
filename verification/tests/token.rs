use door_gateway::auth::{
    build_claims, claims_from_payload, generate_token_at, read_token, validate_token_at, Payload,
    TOKEN_LIFETIME,
};

const SECRET: &str = "a-signing-secret";

#[test]
fn issued_token_is_valid_until_its_lifetime_has_passed() {
    let now = 1_700_000_000u64;
    let token = generate_token_at(7, "ana@example.com".to_string(), SECRET, Some(now)).unwrap();
    assert!(validate_token_at(&token, SECRET, now));
    assert!(validate_token_at(&token, SECRET, now + TOKEN_LIFETIME - 1));
    assert!(!validate_token_at(&token, SECRET, now + TOKEN_LIFETIME));
    assert!(!validate_token_at(&token, SECRET, now + TOKEN_LIFETIME + 1));
}

#[test]
fn issued_token_carries_the_claims_it_was_issued_with() {
    let now = 1_700_000_000u64;
    let token = generate_token_at(-3, "ana@example.com".to_string(), SECRET, Some(now)).unwrap();
    let claims = read_token(&token, SECRET).unwrap();
    assert_eq!(claims.user_id, -3);
    assert_eq!(claims.email, "ana@example.com");
    assert_eq!(claims.iat, now);
    assert_eq!(claims.exp, now + 86400);
    assert_eq!(claims, build_claims(-3, "ana@example.com".to_string(), now));
}

#[test]
fn token_signed_with_another_secret_is_refused() {
    let now = 1_700_000_000u64;
    let token = generate_token_at(7, "ana@example.com".to_string(), "another-secret", Some(now)).unwrap();
    assert!(!validate_token_at(&token, SECRET, now));
    assert!(read_token(&token, SECRET).is_none());
}

#[test]
fn truncated_token_is_refused() {
    let now = 1_700_000_000u64;
    let token = generate_token_at(7, "ana@example.com".to_string(), SECRET, Some(now)).unwrap();
    let cut = &token[..token.len() - 5];
    assert!(!validate_token_at(cut, SECRET, now));
    let two_parts = &token[..token.rfind('.').unwrap()];
    assert!(!validate_token_at(two_parts, SECRET, now));
    assert!(!validate_token_at("", SECRET, now));
}

#[test]
fn payload_with_a_missing_or_oversized_field_holds_no_claims() {
    let full = Payload {
        user_id: Some(5),
        email: Some("a@b.c".to_string()),
        iat: Some(1),
        exp: Some(2),
    };
    assert!(claims_from_payload(full.clone()).is_some());
    assert!(claims_from_payload(Payload { email: None, ..full.clone() }).is_none());
    assert!(claims_from_payload(Payload { user_id: Some(1 << 31), ..full.clone() }).is_none());
    assert!(claims_from_payload(Payload { user_id: Some(-(1 << 31)), ..full }).is_some());
}

#[test]
fn token_issued_by_the_clock_is_valid_now() {
    let token = door_gateway::auth::generate_token(11, "bia@example.com".to_string(), SECRET).unwrap();
    assert!(door_gateway::auth::validate_token(token.clone(), SECRET));
    assert!(!door_gateway::auth::validate_token(token.clone(), "another-secret"));
    let claims = read_token(&token, SECRET).unwrap();
    assert_eq!(claims.user_id, 11);
    assert_eq!(claims.email, "bia@example.com");
    assert_eq!(claims.exp, claims.iat + 86400);
}

#[test]
fn token_that_lapsed_long_ago_is_refused_now() {
    let token = generate_token_at(7, "ana@example.com".to_string(), SECRET, Some(1_000)).unwrap();
    assert!(!door_gateway::auth::validate_token(token, SECRET));
}

#[test]
fn issuing_without_a_clock_reading_fails_with_the_internal_error() {
    let err = generate_token_at(7, "ana@example.com".to_string(), SECRET, None).unwrap_err();
    assert_eq!(err.message, "clock before epoch");
    assert_eq!(err.status_code, 500);
}

#[test]
fn issuing_where_the_expiry_overflows_fails_with_the_internal_error() {
    let err =
        generate_token_at(7, "ana@example.com".to_string(), SECRET, Some(u64::MAX - 86399)).unwrap_err();
    assert_eq!(err.message, "clock out of range");
    assert_eq!(err.status_code, 500);
    let err = generate_token_at(7, "ana@example.com".to_string(), SECRET, Some(u64::MAX)).unwrap_err();
    assert_eq!((err.message.as_str(), err.status_code), ("clock out of range", 500));
    assert!(generate_token_at(7, "ana@example.com".to_string(), SECRET, Some(u64::MAX - 86400)).is_ok());
}

#[test]
fn token_is_a_three_part_structure_that_the_default_validation_accepts() {
    let token = door_gateway::auth::generate_token(7, "ana@example.com".to_string(), SECRET).unwrap();
    assert_eq!(token.split('.').count(), 3);
    let data = jsonwebtoken::decode::<serde_json::Value>(
        &token,
        &jsonwebtoken::DecodingKey::from_secret(SECRET.as_bytes()),
        &jsonwebtoken::Validation::default(),
    )
    .unwrap();
    assert_eq!(data.header.alg, jsonwebtoken::Algorithm::HS256);
    assert_eq!(data.claims.get("user_id").and_then(|v| v.as_i64()), Some(7));
    assert_eq!(data.claims.get("email").and_then(|v| v.as_str()), Some("ana@example.com"));
    let iat = data.claims.get("iat").and_then(|v| v.as_u64()).unwrap();
    let exp = data.claims.get("exp").and_then(|v| v.as_u64()).unwrap();
    assert_eq!(exp, iat + 86400);
    assert_eq!(data.claims.as_object().unwrap().len(), 4);
}

#[test]
fn token_made_elsewhere_with_the_same_secret_and_claims_is_read() {
    let mut body = serde_json::Map::new();
    body.insert("user_id".to_string(), serde_json::Value::from(42));
    body.insert("email".to_string(), serde_json::Value::from("eva@example.com"));
    body.insert("iat".to_string(), serde_json::Value::from(10u64));
    body.insert("exp".to_string(), serde_json::Value::from(20u64));
    let key = jsonwebtoken::EncodingKey::from_secret(SECRET.as_bytes());
    let token = jsonwebtoken::encode(&jsonwebtoken::Header::default(), &body, &key).unwrap();
    let claims = read_token(&token, SECRET).unwrap();
    assert_eq!((claims.user_id, claims.iat, claims.exp), (42, 10, 20));
    assert!(validate_token_at(&token, SECRET, 19));
    assert!(!validate_token_at(&token, SECRET, 20));

    body.remove("email");
    let partial = jsonwebtoken::encode(&jsonwebtoken::Header::default(), &body, &key).unwrap();
    assert!(read_token(&partial, SECRET).is_none());
    assert!(!validate_token_at(&partial, SECRET, 19));

    body.insert("email".to_string(), serde_json::Value::from(5));
    let mistyped = jsonwebtoken::encode(&jsonwebtoken::Header::default(), &body, &key).unwrap();
    assert!(read_token(&mistyped, SECRET).is_none());
}

#[test]
fn token_is_judged_by_the_clock_reading_it_is_given() {
    let now = 1_700_000_000u64;
    let token = generate_token_at(7, "ana@example.com".to_string(), SECRET, Some(now)).unwrap();
    let judge = |reading| door_gateway::auth::validate_token_reading(&token, SECRET, reading);
    assert!(judge(Some((now, 0))));
    assert!(judge(Some((now + TOKEN_LIFETIME - 1, 999_999_999))));
    assert!(!judge(Some((now + TOKEN_LIFETIME, 0))));
    assert!(!judge(None));
    assert!(!door_gateway::auth::validate_token_reading(&token, "another-secret", Some((now, 0))));
}

#[test]
fn secrets_that_differ_only_by_trailing_nul_bytes_are_one_key() {
    let now = 1_700_000_000u64;
    let token = generate_token_at(7, "ana@example.com".to_string(), "abc", Some(now)).unwrap();
    assert!(validate_token_at(&token, "abc\0", now));
    assert!(validate_token_at(&token, "abc\0\0", now));
    assert!(!validate_token_at(&token, "abd", now));
    assert!(!validate_token_at(&token, "ab", now));
}
