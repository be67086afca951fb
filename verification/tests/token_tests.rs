use program_station::token::{Claims, Token, TokenError, TOKEN_LIFETIME_SECS};

fn login(email: &str, password: &str) -> Vec<(u32, String, String)> {
    vec![(7, email.to_string(), password.to_string())]
}

#[test]
fn bearer_header_reading() {
    assert_eq!(Token::bearer_token(Some("Bearer abc.def")), Ok("abc.def".to_string()));
    assert_eq!(Token::bearer_token(Some("Bearer Bearer abc")), Ok("abc".to_string()));
    assert_eq!(Token::bearer_token(Some("Bearer ")), Ok("".to_string()));
    assert_eq!(Token::bearer_token(Some("bearer abc")), Err(TokenError::NoBearer));
    assert_eq!(Token::bearer_token(Some("Bearerabc")), Err(TokenError::NoBearer));
    assert_eq!(Token::bearer_token(Some("")), Err(TokenError::NoBearer));
    assert_eq!(Token::bearer_token(None), Err(TokenError::NoBearer));
}

#[test]
fn bearer_roundtrip() {
    for t in ["eyJ0eXAi.x.y", "", "token with spaces"] {
        let header = format!("Bearer {}", t);
        assert_eq!(Token::bearer_token(Some(&header)), Ok(t.to_string()));
    }
}

#[test]
fn claims_expire_after_sixty_minutes() {
    let c = Claims::new_at(7, "a@b.c", "pw", 1_700_000_000);
    assert_eq!(c.get_id(), 7);
    assert_eq!(c.user_email, "a@b.c");
    assert_eq!(c.password, "pw");
    assert_eq!(c.exp, 1_700_000_000 + 3600);
    assert_eq!(TOKEN_LIFETIME_SECS, 3600);
    assert_eq!(c.verify_at(&login("a@b.c", "pw"), 1_700_000_000), Ok(()));
    assert_eq!(c.verify_at(&login("a@b.c", "pw"), 1_700_003_600), Ok(()));
    assert_eq!(c.verify_at(&login("a@b.c", "pw"), 1_700_003_601), Err(TokenError::Rejected));
    assert_eq!(c.verify_at(&login("a@b.c", "other"), 1_700_000_000), Err(TokenError::Rejected));
    assert_eq!(c.verify_at(&login("x@b.c", "pw"), 1_700_000_000), Err(TokenError::Rejected));
}

#[test]
fn claims_made_now() {
    let before = std::time::SystemTime::now().duration_since(std::time::UNIX_EPOCH).unwrap().as_secs() as i64;
    let c = Claims::new(3, "u@v.w", "secret");
    let after = std::time::SystemTime::now().duration_since(std::time::UNIX_EPOCH).unwrap().as_secs() as i64;
    assert!(c.exp >= before + 3600 && c.exp <= after + 3600);
    assert_eq!(c.verify(&vec![(3, "u@v.w".to_string(), "secret".to_string())]), Ok(()));
    assert_eq!(c.verify(&vec![(3, "u@v.w".to_string(), "wrong".to_string())]), Err(TokenError::Rejected));
}

#[test]
fn claims_statements_and_flags() {
    let c = Claims::new_at(12, "e", "p", 0);
    assert_eq!(c.verify_query(), "\n            select user_id, email, password\n            from login \n            where user_id = 12");
    assert_eq!(c.ban_query(), "select is_ban from login where user_id = 12");
    assert_eq!(c.is_ban(&vec![]), Ok(()));
    assert_eq!(c.is_ban(&vec![false]), Ok(()));
    assert_eq!(c.is_ban(&vec![true]), Err(TokenError::Rejected));
    assert_eq!(c.is_admin(&vec![12]), Ok(()));
    assert_eq!(c.is_admin(&vec![]), Err(TokenError::Rejected));
}

fn now_secs() -> i64 {
    std::time::SystemTime::now().duration_since(std::time::UNIX_EPOCH).unwrap().as_secs() as i64
}

#[test]
fn signed_tokens_read_back() {
    let c = Claims::new(9, "u@v.w", "secret");
    let token = Token::get_jwt(&c).unwrap();
    assert_eq!(token.split('.').count(), 3);
    assert_eq!(Token::get_jwt(&c).unwrap(), token);
    let d = Token::token_to_claims(Some(&format!("Bearer {}", token))).unwrap();
    assert_eq!((d.id, d.user_email.as_str(), d.password.as_str(), d.exp), (9, "u@v.w", "secret", c.exp));
    let other = Token::get_jwt(&Claims::new(10, "u@v.w", "secret")).unwrap();
    assert_ne!(other, token);
}

#[test]
fn tokens_are_verified_with_the_service_key() {
    let mut payload = serde_json::Map::new();
    payload.insert("id".to_string(), serde_json::Value::from(3u32));
    payload.insert("user_email".to_string(), serde_json::Value::from("a@b"));
    payload.insert("password".to_string(), serde_json::Value::from("pw"));
    payload.insert("exp".to_string(), serde_json::Value::from(now_secs() + 100));
    let right = jsonwebtoken::encode(
        &jsonwebtoken::Header::default(),
        &payload,
        &jsonwebtoken::EncodingKey::from_secret(b"my name is zyl"),
    )
    .unwrap();
    let c = Token::token_to_claims(Some(&format!("Bearer {}", right))).unwrap();
    assert_eq!((c.id, c.user_email.as_str(), c.password.as_str()), (3, "a@b", "pw"));
    let wrong = jsonwebtoken::encode(
        &jsonwebtoken::Header::default(),
        &payload,
        &jsonwebtoken::EncodingKey::from_secret(b"another key"),
    )
    .unwrap();
    assert_eq!(Token::token_to_claims(Some(&format!("Bearer {}", wrong))).unwrap_err(), TokenError::Rejected);
    assert_eq!(Token::token_to_claims(Some("Bearer not.a.token")).unwrap_err(), TokenError::Rejected);
    assert_eq!(Token::token_to_claims(Some(&right)).unwrap_err(), TokenError::NoBearer);
    assert_eq!(Token::token_to_claims(None).unwrap_err(), TokenError::NoBearer);
}

#[test]
fn expired_or_incomplete_tokens_are_refused() {
    let expired = Token::get_jwt(&Claims::new_at(3, "a@b", "pw", 0)).unwrap();
    assert_eq!(Token::token_to_claims(Some(&format!("Bearer {}", expired))).unwrap_err(), TokenError::Rejected);
    let mut payload = serde_json::Map::new();
    payload.insert("id".to_string(), serde_json::Value::from(3u32));
    payload.insert("exp".to_string(), serde_json::Value::from(now_secs() + 100));
    let partial = jsonwebtoken::encode(
        &jsonwebtoken::Header::default(),
        &payload,
        &jsonwebtoken::EncodingKey::from_secret(b"my name is zyl"),
    )
    .unwrap();
    assert_eq!(Token::token_to_claims(Some(&format!("Bearer {}", partial))).unwrap_err(), TokenError::Rejected);
}

#[test]
fn token_payload_lists_the_claims_in_order() {
    let c = Claims::new_at(9, "u@v.w", "secret", now_secs());
    let token = Token::get_jwt(&c).unwrap();
    assert!(token.starts_with('e'));
    assert!(!token.starts_with("Bearer "));
    let data = jsonwebtoken::decode::<serde_json::Value>(
        &token,
        &jsonwebtoken::DecodingKey::from_secret(b"my name is zyl"),
        &jsonwebtoken::Validation::default(),
    )
    .unwrap();
    assert_eq!(
        data.claims.to_string(),
        format!("{{\"id\":9,\"user_email\":\"u@v.w\",\"password\":\"secret\",\"exp\":{}}}", c.exp)
    );
    assert_eq!(data.header.alg, jsonwebtoken::Algorithm::HS256);
}
