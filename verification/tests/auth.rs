use signal_bot::clock::Timestamp;
use signal_bot::proxy::auth::{
    accept_claims_at, authenticate, extract_bearer_token, Claims, TokenManager,
};
use signal_bot::proxy::error::ProxyError;

fn test_key() -> [u8; 32] {
    [0x42u8; 32]
}

fn read(payload: Vec<u8>) -> Option<Claims> {
    let value: serde_json::Value = serde_json::from_slice(&payload).ok()?;
    Some(Claims {
        sub: value.get("sub")?.as_str()?.to_string(),
        exp: value.get("exp")?.as_i64()?,
        iat: value.get("iat")?.as_i64()?,
    })
}

fn reason<T>(r: Result<T, ProxyError>) -> String {
    match r {
        Err(ProxyError::Unauthorized(m)) => m,
        _ => panic!("not refused"),
    }
}

#[test]
fn test_create_and_verify_token() {
    let tm = TokenManager::new(test_key());
    let token = tm.create_token("+14155551234").unwrap();

    let claims = tm.verify_token(&token, read).unwrap();
    assert_eq!(claims.sub, "+14155551234");
    assert!(claims.exp > Timestamp::now().timestamp());
}

#[test]
fn test_invalid_token() {
    let tm = TokenManager::new(test_key());
    let result = tm.verify_token("invalid.token.here", read);
    assert!(result.is_err());
}

#[test]
fn test_tampered_token() {
    let tm = TokenManager::new(test_key());
    let token = tm.create_token("+14155551234").unwrap();

    // Tamper with the token
    let tampered = format!("{}x", token);
    let result = tm.verify_token(&tampered, read);
    assert!(result.is_err());
}

#[test]
fn test_different_key_rejects() {
    let tm1 = TokenManager::new([0x42u8; 32]);
    let tm2 = TokenManager::new([0x43u8; 32]);

    let token = tm1.create_token("+14155551234").unwrap();
    let result = tm2.verify_token(&token, read);
    assert!(result.is_err());
}

#[test]
fn tokens_hold_the_claims_in_json() {
    let tm = TokenManager::new(test_key());
    let now = Timestamp::from_timestamp(1_700_000_000, 0).unwrap();
    let token = tm.create_token_at("+1\"\\\n\u{1}", now).unwrap();
    let payload = tm.open_token(&token).unwrap();
    assert_eq!(
        String::from_utf8(payload.clone()).unwrap(),
        "{\"sub\":\"+1\\\"\\\\\\n\\u0001\",\"exp\":1700086400,\"iat\":1700000000}"
    );
    assert_eq!(read(payload).unwrap().sub, "+1\"\\\n\u{1}");
    let parts: Vec<&str> = token.split('.').collect();
    assert_eq!(parts[0], "eyJhbGciOiJIUzI1NiIsInR5cCI6IkpXVCJ9");
    // The signature is that of the first two parts.
    let mut mac = <hmac::Hmac<sha2::Sha256> as hmac::Mac>::new_from_slice(&test_key()).unwrap();
    hmac::Mac::update(&mut mac, format!("{}.{}", parts[0], parts[1]).as_bytes());
    let code = hmac::Mac::finalize(mac).into_bytes();
    assert_eq!(
        parts[2],
        base64::Engine::encode(&base64::engine::general_purpose::URL_SAFE_NO_PAD, code)
    );
}

#[test]
fn each_refusal_has_its_reason() {
    let tm = TokenManager::new(test_key());
    assert_eq!(reason(tm.open_token("a.b")), "Invalid token format");
    assert_eq!(reason(tm.open_token("a.b.c.d")), "Invalid token format");
    assert_eq!(reason(tm.open_token("a.b.+")), "Invalid token signature encoding");
    assert_eq!(reason(tm.open_token("a.b.AA")), "Invalid token signature");
    // A valid signature of a payload that is not base64url.
    let mut mac = <hmac::Hmac<sha2::Sha256> as hmac::Mac>::new_from_slice(&test_key()).unwrap();
    hmac::Mac::update(&mut mac, b"a.=");
    let code = hmac::Mac::finalize(mac).into_bytes();
    let code = base64::Engine::encode(&base64::engine::general_purpose::URL_SAFE_NO_PAD, code);
    assert_eq!(reason(tm.open_token(&format!("a.=.{}", code))), "Invalid token payload encoding");
    assert_eq!(
        reason(tm.verify_token(&tm.create_token("+1").unwrap(), |_| None)),
        "Invalid token claims"
    );
    assert_eq!(
        reason(extract_bearer_token("Basic abc", &tm, read)),
        "Invalid Authorization header"
    );
}

#[test]
fn tokens_expire_after_a_day() {
    let tm = TokenManager::new(test_key());
    let issued = Timestamp::from_timestamp(1_000_000, 0).unwrap();
    let claims = read(tm.open_token(&tm.create_token_at("+1", issued).unwrap()).unwrap());
    let last = Timestamp::from_timestamp(1_086_400, 999).unwrap();
    let late = Timestamp::from_timestamp(1_086_401, 0).unwrap();
    assert_eq!(accept_claims_at(claims.clone(), last).unwrap().exp, 1_086_400);
    assert_eq!(reason(accept_claims_at(claims, late)), "Token expired");
    // Long ago for a check against the clock.
    assert_eq!(
        reason(tm.verify_token(&tm.create_token_at("+1", issued).unwrap(), read)),
        "Token expired"
    );
}

#[test]
fn owners_get_a_token() {
    let tm = TokenManager::new(test_key());
    let (token, expires_at) = authenticate("+1", Some(true), &tm).unwrap();
    let claims = extract_bearer_token(&format!("Bearer {}", token), &tm, read).unwrap();
    assert_eq!(claims.sub, "+1");
    assert_eq!(claims.exp, claims.iat + 86_400);
    assert!(expires_at >= claims.exp);
    assert!(matches!(
        authenticate("+1", Some(false), &tm),
        Err(ProxyError::OwnershipProofMismatch)
    ));
    match authenticate("+1", None, &tm) {
        Err(ProxyError::NotFound(number)) => assert_eq!(number, "+1"),
        _ => panic!("not registered"),
    }
}
