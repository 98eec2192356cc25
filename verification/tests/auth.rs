use ad_server::auth::{authenticate, grant, Admin, AuthError};
use ad_server::http::{Method, Request};
use ad_server::server::AdServer;

fn token(secret: &str, username: Option<&str>, expires_in: i64) -> String {
    let now = jsonwebtoken::get_current_timestamp() as i64;
    let mut claims = serde_json::Map::new();
    if let Some(name) = username {
        claims.insert("username".to_string(), serde_json::Value::String(name.to_string()));
    }
    claims.insert(
        "exp".to_string(),
        serde_json::Value::Number(serde_json::Number::from(now + expires_in)),
    );
    jsonwebtoken::encode(
        &jsonwebtoken::Header::default(),
        &serde_json::Value::Object(claims),
        &jsonwebtoken::EncodingKey::from_secret(secret.as_bytes()),
    )
    .unwrap()
}

#[test]
fn any_identity_passes() {
    assert_eq!(
        grant(Some("nobody-in-particular".to_string())),
        Ok(Admin { username: "nobody-in-particular".to_string() })
    );
    assert_eq!(grant(Some(String::new())), Ok(Admin { username: String::new() }));
}

#[test]
fn no_identity_is_unauthorized() {
    assert_eq!(grant(None), Err(AuthError::Unauthorized));
    assert_eq!(AuthError::Unauthorized.status().code(), 401);
}

#[test]
fn missing_token_is_unauthorized() {
    assert_eq!(authenticate(None, "secret"), Err(AuthError::Unauthorized));
}

#[test]
fn signed_token_with_arbitrary_identity_is_accepted() {
    let t = token("secret", Some("someone nobody listed"), 3600);
    assert_eq!(
        authenticate(Some(&t), "secret"),
        Ok(Admin { username: "someone nobody listed".to_string() })
    );
}

#[test]
fn identity_comes_from_the_claim_not_from_the_token_text() {
    let t = token("secret", Some("alice"), 3600);
    let admin = authenticate(Some(&t), "secret").unwrap();
    assert_eq!(admin.username, "alice");
    assert_ne!(admin.username, t);
}

#[test]
fn token_signed_with_another_secret_is_unauthorized() {
    let t = token("other", Some("alice"), 3600);
    assert_eq!(authenticate(Some(&t), "secret"), Err(AuthError::Unauthorized));
}

#[test]
fn expired_token_is_unauthorized() {
    let t = token("secret", Some("alice"), -3600);
    assert_eq!(authenticate(Some(&t), "secret"), Err(AuthError::Unauthorized));
}

#[test]
fn token_without_identity_is_unauthorized() {
    let t = token("secret", None, 3600);
    assert_eq!(authenticate(Some(&t), "secret"), Err(AuthError::Unauthorized));
}

#[test]
fn malformed_token_is_unauthorized() {
    assert_eq!(authenticate(Some("not.a.token"), "secret"), Err(AuthError::Unauthorized));
    assert_eq!(authenticate(Some(""), "secret"), Err(AuthError::Unauthorized));
}

#[test]
fn server_holds_the_bearer_token_against_its_secret() {
    let server = AdServer::new("secret".to_string(), "postgres://db".to_string());
    let req = Request {
        method: Method::Post,
        path: "/facebook-ads/login".to_string(),
        query: None,
        languages: None,
        bearer: Some(token("secret", Some("bob"), 3600)),
    };
    assert_eq!(server.auth(&req), Ok(Admin { username: "bob".to_string() }));
    let anonymous = Request { bearer: None, ..req.clone() };
    assert_eq!(server.auth(&anonymous), Err(AuthError::Unauthorized));
    let forged = Request { bearer: Some(token("guess", Some("bob"), 3600)), ..req };
    assert_eq!(server.auth(&forged), Err(AuthError::Unauthorized));
}
