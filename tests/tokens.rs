use auth_service::error::AuthError;
use auth_service::models::AccessRequest;
use auth_service::role::Role;
use auth_service::token::{
    authorize, authorize_at, check_claims, create_jwt, create_jwt_at, issue_pair, issue_pair_at,
    jwt_from_header, validate_user_access, verify_jwt, verify_jwt_at, Claims, SigningKey,
    ACCESS_TTL, REFRESH_TTL,
};

const T0: i64 = 1_700_000_000;

fn key() -> SigningKey {
    SigningKey::new(b"0123456789abcdefghijABCDEFGHIJkl".to_vec())
}

fn bearer(token: &str) -> String {
    format!("Bearer {}", token)
}

#[test]
fn access_token_round_trip() {
    let k = key();
    let t = create_jwt_at(&k, "7", Role::Access, T0).unwrap();
    assert_eq!(verify_jwt_at(&k, &t, Role::Access, T0), Ok("7".to_string()));
    assert_eq!(verify_jwt_at(&k, &t, Role::Access, T0 + ACCESS_TTL - 1), Ok("7".to_string()));
}

#[test]
fn refresh_token_round_trip() {
    let k = key();
    let t = create_jwt_at(&k, "subject-42", Role::Refresh, T0).unwrap();
    assert_eq!(verify_jwt_at(&k, &t, Role::Refresh, T0 + REFRESH_TTL - 1), Ok("subject-42".to_string()));
}

#[test]
fn round_trip_with_the_clock() {
    let k = SigningKey::generate();
    let t = create_jwt(&k, "9", Role::Access).unwrap();
    assert_eq!(verify_jwt(&k, &t, Role::Access), Ok("9".to_string()));
    let header = bearer(&t);
    assert_eq!(authorize(&k, Some(header.as_str()), Role::Access), Ok("9".to_string()));
}

#[test]
fn access_token_expires_after_thirty_minutes() {
    let k = key();
    let t = create_jwt_at(&k, "7", Role::Access, T0).unwrap();
    assert_eq!(ACCESS_TTL, 30 * 60);
    assert_eq!(verify_jwt_at(&k, &t, Role::Access, T0 + 30 * 60), Err(AuthError::TokenInvalid));
    assert_eq!(verify_jwt_at(&k, &t, Role::Access, T0 + 31 * 60), Err(AuthError::TokenInvalid));
}

#[test]
fn refresh_token_expires_after_fourteen_days() {
    let k = key();
    let t = create_jwt_at(&k, "7", Role::Refresh, T0).unwrap();
    assert_eq!(REFRESH_TTL, 14 * 24 * 60 * 60);
    assert_eq!(verify_jwt_at(&k, &t, Role::Refresh, T0 + 14 * 24 * 60 * 60 - 1), Ok("7".to_string()));
    assert_eq!(verify_jwt_at(&k, &t, Role::Refresh, T0 + 14 * 24 * 60 * 60), Err(AuthError::TokenInvalid));
}

#[test]
fn access_token_refused_where_refresh_required() {
    let k = key();
    let t = create_jwt_at(&k, "7", Role::Access, T0).unwrap();
    assert_eq!(verify_jwt_at(&k, &t, Role::Refresh, T0 + 1), Err(AuthError::InsufficientRole));
}

#[test]
fn refresh_token_refused_where_access_required() {
    let k = key();
    let t = create_jwt_at(&k, "7", Role::Refresh, T0).unwrap();
    assert_eq!(verify_jwt_at(&k, &t, Role::Access, T0 + 1), Err(AuthError::InsufficientRole));
}

#[test]
fn unsigned_token_refused() {
    let k = key();
    let t = create_jwt_at(&k, "7", Role::Access, T0).unwrap();
    let parts: Vec<&str> = t.split('.').collect();
    assert_eq!(parts.len(), 3);
    let none_header = "eyJhbGciOiJub25lIiwidHlwIjoiSldUIn0";
    let stripped = format!("{}.{}.", none_header, parts[1]);
    assert_eq!(verify_jwt_at(&k, &stripped, Role::Access, T0), Err(AuthError::TokenInvalid));
    let kept_signature = format!("{}.{}.{}", none_header, parts[1], parts[2]);
    assert_eq!(verify_jwt_at(&k, &kept_signature, Role::Access, T0), Err(AuthError::TokenInvalid));
}

#[test]
fn other_hmac_algorithm_refused() {
    let k = key();
    let mut claims = serde_json::Map::new();
    claims.insert("sub".to_string(), serde_json::Value::from("7"));
    claims.insert("role".to_string(), serde_json::Value::from("Access"));
    claims.insert("exp".to_string(), serde_json::Value::from(T0 + 100));
    let t = jsonwebtoken::encode(
        &jsonwebtoken::Header::new(jsonwebtoken::Algorithm::HS256),
        &claims,
        &jsonwebtoken::EncodingKey::from_secret(b"0123456789abcdefghijABCDEFGHIJkl"),
    )
    .unwrap();
    assert_eq!(verify_jwt_at(&k, &t, Role::Access, T0), Err(AuthError::TokenInvalid));
}

#[test]
fn token_of_another_key_refused() {
    let t = create_jwt_at(&key(), "7", Role::Access, T0).unwrap();
    let other = SigningKey::new(b"another secret of thirty-two b!!".to_vec());
    assert_eq!(verify_jwt_at(&other, &t, Role::Access, T0), Err(AuthError::TokenInvalid));
}

#[test]
fn tampered_claims_refused() {
    let k = key();
    let t = create_jwt_at(&k, "7", Role::Access, T0).unwrap();
    let r = create_jwt_at(&k, "8", Role::Refresh, T0).unwrap();
    let a: Vec<&str> = t.split('.').collect();
    let b: Vec<&str> = r.split('.').collect();
    let spliced = format!("{}.{}.{}", a[0], b[1], a[2]);
    assert_eq!(verify_jwt_at(&k, &spliced, Role::Refresh, T0), Err(AuthError::TokenInvalid));
    assert_eq!(verify_jwt_at(&k, "not a token", Role::Access, T0), Err(AuthError::TokenInvalid));
}

#[test]
fn token_carries_its_claims() {
    let k = key();
    let t = create_jwt_at(&k, "7", Role::Refresh, T0).unwrap();
    let mut validation = jsonwebtoken::Validation::new(jsonwebtoken::Algorithm::HS512);
    validation.validate_exp = false;
    let data = jsonwebtoken::decode::<serde_json::Map<String, serde_json::Value>>(
        &t,
        &jsonwebtoken::DecodingKey::from_secret(b"0123456789abcdefghijABCDEFGHIJkl"),
        &validation,
    )
    .unwrap();
    assert_eq!(data.claims.get("sub").unwrap().as_str(), Some("7"));
    assert_eq!(data.claims.get("role").unwrap().as_str(), Some("Refresh"));
    assert_eq!(data.claims.get("exp").unwrap().as_i64(), Some(T0 + REFRESH_TTL));
    assert_eq!(data.header.alg, jsonwebtoken::Algorithm::HS512);
}

#[test]
fn expiry_past_the_largest_time_is_a_creation_error() {
    let k = key();
    assert_eq!(create_jwt_at(&k, "7", Role::Access, i64::MAX), Err(AuthError::TokenCreationError));
    assert_eq!(create_jwt_at(&k, "7", Role::Refresh, i64::MAX - 1000), Err(AuthError::TokenCreationError));
    assert!(issue_pair_at(&k, "7", i64::MAX - 1000).is_err());
}

#[test]
fn claims_checked_against_role_and_time() {
    let c = |role: &str, exp: i64| Some(Claims { sub: "5".to_string(), role: role.to_string(), exp });
    assert_eq!(check_claims(None, Role::Access, T0), Err(AuthError::TokenInvalid));
    assert_eq!(check_claims(c("Access", T0 + 1), Role::Access, T0), Ok("5".to_string()));
    assert_eq!(check_claims(c("Access", T0), Role::Access, T0), Err(AuthError::TokenInvalid));
    assert_eq!(check_claims(c("Refresh", T0 + 1), Role::Access, T0), Err(AuthError::InsufficientRole));
    assert_eq!(check_claims(c("Invalid", T0 + 1), Role::Unauth, T0), Err(AuthError::InsufficientRole));
    assert_eq!(check_claims(c("admin", T0 + 1), Role::Refresh, T0), Err(AuthError::InsufficientRole));
}

#[test]
fn bearer_token_taken_from_header() {
    assert_eq!(jwt_from_header(None), Err(AuthError::MissingAuthHeader));
    assert_eq!(jwt_from_header(Some("Basic abc")), Err(AuthError::MalformedAuthHeader));
    assert_eq!(jwt_from_header(Some("bearer abc")), Err(AuthError::MalformedAuthHeader));
    assert_eq!(jwt_from_header(Some("Bearer")), Err(AuthError::MalformedAuthHeader));
    assert_eq!(jwt_from_header(Some("Bearer abc.def")), Ok("abc.def".to_string()));
    assert_eq!(jwt_from_header(Some("Bearer ")), Ok(String::new()));
}

#[test]
fn authorize_goes_through_header_then_token() {
    let k = key();
    let t = create_jwt_at(&k, "7", Role::Refresh, T0).unwrap();
    let h = bearer(&t);
    assert_eq!(authorize_at(&k, Some(h.as_str()), Role::Refresh, T0), Ok("7".to_string()));
    assert_eq!(authorize_at(&k, Some(h.as_str()), Role::Access, T0), Err(AuthError::InsufficientRole));
    assert_eq!(authorize_at(&k, Some(t.as_str()), Role::Refresh, T0), Err(AuthError::MalformedAuthHeader));
    assert_eq!(authorize_at(&k, None, Role::Refresh, T0), Err(AuthError::MissingAuthHeader));
    assert_eq!(authorize_at(&k, Some("Bearer x.y.z"), Role::Refresh, T0), Err(AuthError::TokenInvalid));
}

#[test]
fn pair_holds_one_token_of_each_role() {
    let k = key();
    let p = issue_pair_at(&k, "11", T0).unwrap();
    assert_ne!(p.refresh_token, p.access_token);
    assert_eq!(p.refresh_token, create_jwt_at(&k, "11", Role::Refresh, T0).unwrap());
    assert_eq!(p.access_token, create_jwt_at(&k, "11", Role::Access, T0).unwrap());
    assert_eq!(verify_jwt_at(&k, &p.refresh_token, Role::Refresh, T0), Ok("11".to_string()));
    assert_eq!(verify_jwt_at(&k, &p.access_token, Role::Access, T0), Ok("11".to_string()));
    let q = issue_pair(&k, "12").unwrap();
    assert_eq!(verify_jwt(&k, &q.access_token, Role::Access), Ok("12".to_string()));
}

#[test]
fn resource_access_only_for_its_owner() {
    let own = AccessRequest { uid: "3".to_string() };
    let other = AccessRequest { uid: "4".to_string() };
    assert_eq!(validate_user_access("3", &own), Ok("3".to_string()));
    assert_eq!(validate_user_access("3", &other), Err(AuthError::InsufficientRole));
}

#[test]
fn role_names_read_and_written() {
    assert_eq!(Role::from_str("Refresh"), Role::Refresh);
    assert_eq!(Role::from_str("Access"), Role::Access);
    assert_eq!(Role::from_str("access"), Role::Unauth);
    assert_eq!(Role::from_str(""), Role::Unauth);
    assert_eq!(Role::Access.to_string(), "Access");
    assert_eq!(Role::Refresh.to_string(), "Refresh");
    assert_eq!(Role::Unauth.to_string(), "Invalid");
}

#[test]
fn generated_keys_sign_apart() {
    let a = SigningKey::generate();
    let b = SigningKey::generate();
    let t = create_jwt_at(&a, "1", Role::Access, T0).unwrap();
    assert_eq!(verify_jwt_at(&a, &t, Role::Access, T0), Ok("1".to_string()));
    assert_eq!(verify_jwt_at(&b, &t, Role::Access, T0), Err(AuthError::TokenInvalid));
}
