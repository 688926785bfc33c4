use deltaup::auth::{create_token, now_unix, verify_token, AuthError};

const SECRET: &[u8] = b"your_secret_key";
const NOW: i64 = 1_700_000_000;

fn bearer(token: &str) -> String {
    format!("Bearer {}", token)
}

#[test]
fn issued_tokens_verify() {
    let token = create_token("42", SECRET, NOW);
    let header = bearer(&token);
    let subject = verify_token(Some(&header), SECRET, NOW).unwrap();
    assert_eq!(subject, "42");
}

#[test]
fn issued_tokens_carry_uuid_like_subjects() {
    let sub = "550e8400-e29b-41d4-a716-446655440000";
    let token = create_token(sub, SECRET, NOW);
    let header = bearer(&token);
    assert_eq!(verify_token(Some(&header), SECRET, NOW).unwrap(), sub);
}

#[test]
fn tokens_expire_after_a_day() {
    let token = create_token("42", SECRET, NOW);
    let header = bearer(&token);
    assert!(verify_token(Some(&header), SECRET, NOW + 86_399).is_ok());
    assert!(matches!(
        verify_token(Some(&header), SECRET, NOW + 86_400),
        Err(AuthError::InvalidOrExpired)
    ));
}

#[test]
fn wrong_secret_is_rejected() {
    let token = create_token("42", SECRET, NOW);
    let header = bearer(&token);
    assert!(matches!(
        verify_token(Some(&header), b"another_secret", NOW),
        Err(AuthError::InvalidOrExpired)
    ));
}

#[test]
fn missing_header_is_missing() {
    assert!(matches!(verify_token(None, SECRET, NOW), Err(AuthError::Missing)));
}

#[test]
fn non_bearer_header_is_malformed() {
    assert!(matches!(
        verify_token(Some("Token abc"), SECRET, NOW),
        Err(AuthError::Malformed)
    ));
    assert!(matches!(verify_token(Some(""), SECRET, NOW), Err(AuthError::Malformed)));
    assert!(matches!(
        verify_token(Some("bearer abc"), SECRET, NOW),
        Err(AuthError::Malformed)
    ));
}

#[test]
fn garbage_tokens_are_invalid() {
    for tok in ["", "abc", "a.b", "a.b.c", "!!!.???.###"] {
        let header = bearer(tok);
        assert!(matches!(
            verify_token(Some(&header), SECRET, NOW),
            Err(AuthError::InvalidOrExpired)
        ));
    }
}

#[test]
fn tampered_tokens_are_rejected() {
    let token = create_token("42", SECRET, NOW);
    let mut tampered = token.clone();
    // flip the last signature character
    let last = tampered.pop().unwrap();
    tampered.push(if last == 'A' { 'B' } else { 'A' });
    let header = bearer(&tampered);
    assert!(matches!(
        verify_token(Some(&header), SECRET, NOW),
        Err(AuthError::InvalidOrExpired)
    ));
}

#[test]
fn foreign_tokens_from_the_jwt_crate_verify() {
    let claims: serde_json::Value =
        serde_json::from_str("{\"sub\":\"alice\",\"exp\":1700086400}").unwrap();
    let token = jsonwebtoken::encode(
        &jsonwebtoken::Header::default(),
        &claims,
        &jsonwebtoken::EncodingKey::from_secret(SECRET),
    )
    .unwrap();
    let header = bearer(&token);
    assert_eq!(verify_token(Some(&header), SECRET, NOW).unwrap(), "alice");
}

#[test]
fn issued_tokens_satisfy_the_jwt_crate() {
    let token = create_token("bob", SECRET, NOW);
    let mut validation = jsonwebtoken::Validation::new(jsonwebtoken::Algorithm::HS256);
    validation.validate_exp = false;
    let data = jsonwebtoken::decode::<serde_json::Value>(
        &token,
        &jsonwebtoken::DecodingKey::from_secret(SECRET),
        &validation,
    )
    .unwrap();
    assert_eq!(data.claims.get("sub").unwrap().as_str().unwrap(), "bob");
    assert_eq!(data.claims.get("exp").unwrap().as_i64().unwrap(), NOW + 86_400);
}

#[test]
fn clock_reads_a_real_time() {
    // the service went live well after 2020
    assert!(now_unix() > 1_577_836_800);
}

#[test]
fn issued_from_the_clock_expires_at_the_returned_time() {
    let (token, exp) = deltaup::auth::issue_token("42", SECRET).unwrap();
    let header = bearer(&token);
    assert_eq!(verify_token(Some(&header), SECRET, exp - 1).unwrap(), "42");
    assert!(matches!(
        verify_token(Some(&header), SECRET, exp),
        Err(AuthError::InvalidOrExpired)
    ));
}
