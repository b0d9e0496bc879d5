use tagblaze::error::ApiError;
use tagblaze::utils::jwt::{
    create_jwt, create_jwt_at, expires_after, expiry_after, extract_claims, extract_claims_at,
    validate_claims, Claims, TOKEN_LIFETIME_SECONDS,
};

const SECRET: &str = "a-secret-for-tests";
const NOW: i64 = 1_700_000_000;

#[test]
fn token_lifetime_is_a_day() {
    assert_eq!(TOKEN_LIFETIME_SECONDS, 24 * 60 * 60);
}

#[test]
fn expiry_is_a_day_after_issuance() {
    assert_eq!(expiry_after(NOW), Some(1_700_086_400));
    assert_eq!(expiry_after(0), Some(86_400));
    assert_eq!(expiry_after(-86_400), Some(0));
    assert_eq!(expiry_after(-86_401), None);
    assert_eq!(expiry_after(i64::MIN), None);
}

#[test]
fn expiry_is_strictly_after_now() {
    assert!(expires_after(10, 9));
    assert!(!expires_after(10, 10));
    assert!(!expires_after(10, 11));
    assert!(expires_after(0, -1));
    assert!(!expires_after(0, 0));
}

#[test]
fn issued_token_validates_to_its_subject() {
    let token = create_jwt_at("a@x.com", SECRET, NOW).unwrap();
    let claims = extract_claims_at(&token, SECRET, NOW).unwrap();
    assert_eq!(claims.sub, "a@x.com");
    assert_eq!(claims.exp, 1_700_086_400);
}

#[test]
fn token_has_three_parts_and_is_not_the_subject() {
    let token = create_jwt_at("a@x.com", SECRET, NOW).unwrap();
    assert_ne!(token, "a@x.com");
    assert_eq!(token.split('.').count(), 3);
    assert!(token.starts_with("eyJ0eXAiOiJKV1QiLCJhbGciOiJIUzI1NiJ9."));
}

#[test]
fn issuance_depends_on_its_arguments_alone() {
    let first = create_jwt_at("a@x.com", SECRET, NOW).unwrap();
    let second = create_jwt_at("a@x.com", SECRET, NOW).unwrap();
    assert_eq!(first, second);
    let later = create_jwt_at("a@x.com", SECRET, NOW + 1).unwrap();
    assert_ne!(first, later);
    let other = create_jwt_at("b@x.com", SECRET, NOW).unwrap();
    assert_ne!(first, other);
}

#[test]
fn token_is_refused_from_its_expiry_on() {
    let token = create_jwt_at("a@x.com", SECRET, NOW).unwrap();
    assert!(extract_claims_at(&token, SECRET, NOW + 86_399).is_ok());
    assert_eq!(
        extract_claims_at(&token, SECRET, NOW + 86_400).unwrap_err(),
        ApiError::Unauthenticated
    );
    assert_eq!(
        extract_claims_at(&token, SECRET, NOW + 86_401).unwrap_err(),
        ApiError::Unauthenticated
    );
    assert_eq!(
        extract_claims_at(&token, SECRET, i64::MAX).unwrap_err(),
        ApiError::Unauthenticated
    );
}

#[test]
fn token_under_another_secret_is_refused() {
    let token = create_jwt_at("a@x.com", SECRET, NOW).unwrap();
    assert_eq!(
        extract_claims_at(&token, "another-secret", NOW).unwrap_err(),
        ApiError::Unauthenticated
    );
}

#[test]
fn tampered_token_is_refused() {
    let token = create_jwt_at("a@x.com", SECRET, NOW).unwrap();
    let forged = create_jwt_at("admin@x.com", "guess", NOW).unwrap();
    let mut mine = token.split('.');
    let mut theirs = forged.split('.');
    let spliced = format!(
        "{}.{}.{}",
        mine.next().unwrap(),
        theirs.nth(1).unwrap(),
        mine.nth(1).unwrap()
    );
    assert_eq!(
        extract_claims_at(&spliced, SECRET, NOW).unwrap_err(),
        ApiError::Unauthenticated
    );
}

#[test]
fn malformed_token_is_refused() {
    for token in ["", "garbage", "a.b", "a.b.c", "..", "a.b.c.d"] {
        assert_eq!(
            extract_claims_at(token, SECRET, NOW).unwrap_err(),
            ApiError::Unauthenticated
        );
    }
}

#[test]
fn issuance_fails_where_the_expiry_cannot_be_written() {
    assert_eq!(
        create_jwt_at("a@x.com", SECRET, -86_401).unwrap_err(),
        ApiError::InternalError
    );
}

#[test]
fn token_issued_now_validates_now() {
    let token = create_jwt("a@x.com", SECRET).unwrap();
    let claims = extract_claims(&token, SECRET).unwrap();
    assert_eq!(claims.sub, "a@x.com");
    let now = chrono::Utc::now().timestamp();
    assert!(claims.exp as i64 >= now + 86_400 - 5);
    assert!(claims.exp as i64 <= now + 86_400);
}

#[test]
fn token_issued_long_ago_is_refused_now() {
    let token = create_jwt_at("a@x.com", SECRET, 1_000_000).unwrap();
    assert_eq!(extract_claims(&token, SECRET).unwrap_err(), ApiError::Unauthenticated);
}

#[test]
fn token_of_another_issuer_with_the_same_secret_validates() {
    let mut payload = serde_json::Map::new();
    payload.insert("sub".to_string(), serde_json::Value::from("c@x.com"));
    payload.insert("exp".to_string(), serde_json::Value::from(2_000_000_000u64));
    payload.insert("extra".to_string(), serde_json::Value::from(true));
    let token = jsonwebtoken::encode(
        &jsonwebtoken::Header::default(),
        &payload,
        &jsonwebtoken::EncodingKey::from_secret(SECRET.as_bytes()),
    )
    .unwrap();
    let claims = extract_claims_at(&token, SECRET, NOW).unwrap();
    assert_eq!(claims.sub, "c@x.com");
    assert_eq!(claims.exp, 2_000_000_000);
}

#[test]
fn token_without_subject_or_expiry_is_refused() {
    let key = jsonwebtoken::EncodingKey::from_secret(SECRET.as_bytes());
    let mut no_sub = serde_json::Map::new();
    no_sub.insert("exp".to_string(), serde_json::Value::from(2_000_000_000u64));
    let token = jsonwebtoken::encode(&jsonwebtoken::Header::default(), &no_sub, &key).unwrap();
    assert_eq!(
        extract_claims_at(&token, SECRET, NOW).unwrap_err(),
        ApiError::Unauthenticated
    );
    let mut no_exp = serde_json::Map::new();
    no_exp.insert("sub".to_string(), serde_json::Value::from("c@x.com"));
    let token = jsonwebtoken::encode(&jsonwebtoken::Header::default(), &no_exp, &key).unwrap();
    assert_eq!(
        extract_claims_at(&token, SECRET, NOW).unwrap_err(),
        ApiError::Unauthenticated
    );
    let mut numeric_sub = serde_json::Map::new();
    numeric_sub.insert("sub".to_string(), serde_json::Value::from(7));
    numeric_sub.insert("exp".to_string(), serde_json::Value::from(2_000_000_000u64));
    let token = jsonwebtoken::encode(&jsonwebtoken::Header::default(), &numeric_sub, &key).unwrap();
    assert_eq!(
        extract_claims_at(&token, SECRET, NOW).unwrap_err(),
        ApiError::Unauthenticated
    );
}

#[test]
fn decoded_claims_stand_until_their_expiry() {
    let claims = |exp: usize| Some(Claims { sub: "a@x.com".to_string(), exp });
    let kept = validate_claims(claims(100), 99).unwrap();
    assert_eq!(kept.sub, "a@x.com");
    assert_eq!(kept.exp, 100);
    assert_eq!(validate_claims(claims(100), 100).unwrap_err(), ApiError::Unauthenticated);
    assert_eq!(validate_claims(claims(100), 101).unwrap_err(), ApiError::Unauthenticated);
    assert_eq!(validate_claims(claims(0), -1).unwrap().exp, 0);
    assert_eq!(validate_claims(None, 0).unwrap_err(), ApiError::Unauthenticated);
}
