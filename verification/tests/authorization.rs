use wartid_client::api::{Authorization, RefreshDecision, TokenResponse};

fn jwt_with_exp(exp: u64) -> String {
    let mut claims = serde_json::Map::new();
    claims.insert("exp".to_owned(), serde_json::Value::from(exp));
    jsonwebtoken::encode(
        &jsonwebtoken::Header::default(),
        &serde_json::Value::Object(claims),
        &jsonwebtoken::EncodingKey::from_secret(b"test-secret"),
    )
    .expect("encoding a test token must work")
}

fn token_response(access: &str, refresh: Option<&str>) -> TokenResponse {
    TokenResponse {
        access_token: access.to_owned(),
        expires_in: 3600,
        token_type: "Bearer".to_owned(),
        refresh_token: refresh.map(|r| r.to_owned()),
    }
}

#[test]
fn new_is_clean_and_keeps_tokens() {
    let a = Authorization::new("A".to_owned(), "R".to_owned());
    assert_eq!(a.access_token(), "A");
    assert_eq!(a.refresh_token(), "R");
    assert!(matches!(a, Authorization::Clean { .. }));
}

#[test]
fn past_expiry_is_expired() {
    let token = jwt_with_exp(1000);
    let a = Authorization::new(token, "R".to_owned());
    assert!(a.expired(2000));
}

#[test]
fn future_expiry_is_not_expired() {
    let token = jwt_with_exp(2000);
    let a = Authorization::new(token, "R".to_owned());
    assert!(!a.expired(1000));
}

#[test]
fn expiry_boundary_is_not_expired() {
    // Expired means the claim lies strictly before now.
    let token = jwt_with_exp(1500);
    let a = Authorization::new(token, "R".to_owned());
    assert!(!a.expired(1500));
    assert!(a.expired(1501));
}

#[test]
fn unreadable_token_counts_as_expired() {
    let a = Authorization::new("not-a-jwt".to_owned(), "R".to_owned());
    assert!(a.expired(0));
}

#[test]
fn refresh_decision_expired_asks_one_exchange() {
    let token = jwt_with_exp(1000);
    let a = Authorization::new(token, "R1".to_owned());
    match a.refresh_decision(2000) {
        RefreshDecision::NeedsRefresh { refresh_token } => assert_eq!(refresh_token, "R1"),
        RefreshDecision::Fresh => panic!("expired token must ask for a refresh"),
    }
}

#[test]
fn refresh_decision_fresh_asks_none() {
    let token = jwt_with_exp(u64::MAX);
    let a = Authorization::new(token, "R1".to_owned());
    assert!(matches!(a.refresh_decision(2000), RefreshDecision::Fresh));
}

#[test]
fn apply_refresh_without_new_refresh_token_keeps_prior() {
    let mut a = Authorization::new("A-old".to_owned(), "R1".to_owned());
    a.apply_refresh(token_response("A2", None));
    assert!(matches!(a, Authorization::Dirty { .. }));
    assert_eq!(a.access_token(), "A2");
    assert_eq!(a.refresh_token(), "R1");
}

#[test]
fn apply_refresh_with_new_refresh_token_rotates_both() {
    let mut a = Authorization::new("A-old".to_owned(), "R1".to_owned());
    a.apply_refresh(token_response("A2", Some("R2")));
    assert!(matches!(a, Authorization::Dirty { .. }));
    assert_eq!(a.access_token(), "A2");
    assert_eq!(a.refresh_token(), "R2");
}
