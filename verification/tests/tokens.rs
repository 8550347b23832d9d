use cds_badge::sdk::auth::AuthClaims;
use cds_badge::sdk::client::{goes_under_session, Client, Request};
use cds_badge::sdk::error::{check_response, fails, ApiError, Error};
use chrono::Utc;
use jsonwebtoken::{Algorithm, DecodingKey, EncodingKey, Header, Validation};
use serde_json::Value;

const HOST: &str = "http://127.0.0.1:1234";

const USER_ME: &str = r#"{"username": "me", "fullname": "me", "created": "2019-10-11T10:23:33.207715+02:00", "id": "xxx", "ring": "user"}"#;

fn auth_claims(expires_at: i64) -> AuthClaims {
    AuthClaims {
        id: String::from("3a95edaa-b78f-4d4d-b85d-9ea3f4d71740"),
        expires_at,
        jti: String::from("3a95edaa-b78f-4d4d-b85d-9ea3f4d71740"),
        issued_at: 1580721850,
        issuer: String::from("cds-api"),
        subject: String::from("a0dfd977-b95c-4cbb-b62f-f30f9b65084c"),
        audience: None,
        not_before: None,
    }
}

fn optional<T: Into<Value>>(value: Option<T>) -> Value {
    match value {
        Some(v) => v.into(),
        None => Value::Null,
    }
}

fn encode(claims: &AuthClaims) -> String {
    let mut fields = serde_json::Map::new();
    fields.insert("ID".to_string(), Value::from(claims.id.clone()));
    fields.insert("aud".to_string(), optional(claims.audience.clone()));
    fields.insert("exp".to_string(), Value::from(claims.expires_at));
    fields.insert("jti".to_string(), Value::from(claims.jti.clone()));
    fields.insert("iat".to_string(), Value::from(claims.issued_at));
    fields.insert("iss".to_string(), Value::from(claims.issuer.clone()));
    fields.insert("nbf".to_string(), optional(claims.not_before));
    fields.insert("sub".to_string(), Value::from(claims.subject.clone()));
    jsonwebtoken::encode(
        &Header::default(),
        &Value::Object(fields),
        &EncodingKey::from_secret("secret".as_ref()),
    )
    .unwrap()
}

fn text(claims: &Value, name: &str) -> Result<String, Error> {
    claims[name]
        .as_str()
        .map(String::from)
        .ok_or_else(|| Error::JWTError(format!("missing field `{}`", name)))
}

fn number(claims: &Value, name: &str) -> Result<i64, Error> {
    claims[name].as_i64().ok_or_else(|| Error::JWTError(format!("missing field `{}`", name)))
}

fn decode(token: &str) -> Result<AuthClaims, Error> {
    let mut validation = Validation::new(Algorithm::HS256);
    validation.insecure_disable_signature_validation();
    validation.validate_exp = false;
    validation.validate_aud = false;
    validation.set_required_spec_claims::<&str>(&[]);
    let claims = jsonwebtoken::decode::<Value>(token, &DecodingKey::from_secret(&[]), &validation)
        .map_err(|e| Error::JWTError(e.to_string()))?
        .claims;
    Ok(AuthClaims {
        id: text(&claims, "ID")?,
        audience: claims["aud"].as_str().map(String::from),
        expires_at: number(&claims, "exp")?,
        jti: text(&claims, "jti")?,
        issued_at: number(&claims, "iat")?,
        issuer: text(&claims, "iss")?,
        not_before: claims["nbf"].as_i64(),
        subject: text(&claims, "sub")?,
    })
}

/// What the API answers: the status and the body of the response to a
/// request, given its method, its path and its headers.
type Api<'a> = &'a dyn Fn(&str, &str, &[(String, String)]) -> (u16, String);

fn send(client: &Client, request: &Request, api: Api) -> Result<Value, Error> {
    let uri = client.uri(&request.path);
    let (status, body) = api(&request.method, &request.path, &client.headers(&uri));
    if fails(status) {
        check_response(status, ApiError::new(0, &body))?;
    }
    serde_json::from_str(&body).map_err(|e| Error::JsonError(e.to_string()))
}

fn stream_json(client: &mut Client, request: Request, api: Api) -> Result<Value, Error> {
    let uri = client.uri(&request.path);
    let valid = if goes_under_session(&uri) {
        let now = Utc::now();
        let decoded = decode(&client.session_token);
        client.has_valid_token(decoded, now.timestamp(), now.timestamp_subsec_nanos())?
    } else {
        true
    };
    if client.stream_json(&request, valid).renew {
        let signed_in = send(client, &client.login("builtin"), api)?;
        client.set_session(signed_in["token"].as_str().unwrap_or_default().to_string());
    }
    send(client, &request, api)
}

fn ask_me(client: &mut Client, api: Api) -> Result<Value, Error> {
    let request = client.me();
    stream_json(client, request, api)
}

fn header<'a>(headers: &'a [(String, String)], name: &str) -> Option<&'a str> {
    headers.iter().find(|(n, _)| n == name).map(|(_, v)| v.as_str())
}

fn check_plain_headers(headers: &[(String, String)]) {
    assert_eq!(header(headers, "Content-Type"), Some("application/json"));
    assert_eq!(header(headers, "User-Agent"), Some("CDS/sdk"));
    assert_eq!(header(headers, "X-Requested-With"), Some("X-CDS-SDK"));
}

fn api_with_signin(token: String) -> impl Fn(&str, &str, &[(String, String)]) -> (u16, String) {
    move |method, path, headers| {
        check_plain_headers(headers);
        match (method, path) {
            ("POST", "/auth/consumer/builtin/signin") => {
                assert_eq!(header(headers, "Authorization"), None);
                (200, format!(r#"{{"api_url": "localhost", "token": "{}"}}"#, token))
            }
            ("GET", "/user/me") => {
                assert_eq!(
                    header(headers, "Authorization"),
                    Some(format!("Bearer {}", token).as_str())
                );
                (200, USER_ME.to_string())
            }
            _ => (404, String::from("{}")),
        }
    }
}

#[test]
fn test_new_token() {
    let token = encode(&auth_claims(0));
    let api = api_with_signin(token.clone());

    let mut my_client = Client::new(HOST, "xxx");
    assert!(my_client.stream_json(&my_client.me(), false).renew);

    let me = ask_me(&mut my_client, &api).unwrap();

    assert_eq!(me["username"], String::from("me"));
    assert_eq!(me["fullname"], String::from("me"));
    assert_eq!(me["ring"], String::from("user"));
    assert_eq!(my_client.session_token, token);
    assert_eq!(
        header(&my_client.headers_for(&my_client.uri("/user/me"), Some(false)), "Authorization"),
        Some(format!("Bearer {}", token).as_str())
    );
}

#[test]
fn test_renew_token() {
    let token = encode(&auth_claims(1000));
    let api = api_with_signin(token.clone());

    let mut my_client = Client::new(HOST, "xxx");

    let me = ask_me(&mut my_client, &api).unwrap();

    assert_eq!(me["username"], String::from("me"));
    assert_eq!(me["fullname"], String::from("me"));
    assert_eq!(me["ring"], String::from("user"));
    assert_eq!(my_client.session_token, token);
    let now = Utc::now();
    let expired = my_client
        .has_valid_token(decode(&token), now.timestamp(), now.timestamp_subsec_nanos())
        .unwrap();
    assert!(!expired);
    assert!(my_client.stream_json(&my_client.me(), expired).renew);
    let me = ask_me(&mut my_client, &api).unwrap();
    assert_eq!(me["ring"], String::from("user"));
}

#[test]
fn test_good_token() {
    let token = encode(&auth_claims(0));
    let expected = token.clone();
    let api = move |method: &str, path: &str, headers: &[(String, String)]| {
        check_plain_headers(headers);
        match (method, path) {
            ("GET", "/user/me") => {
                assert_eq!(
                    header(headers, "Authorization"),
                    Some(format!("Bearer {}", expected).as_str())
                );
                (200, USER_ME.to_string())
            }
            _ => panic!("no other request is expected: {} {}", method, path),
        }
    };

    let mut my_client = Client::new(HOST, "xxx");
    my_client.set_session(token.clone());
    let now = Utc::now();
    let valid = my_client
        .has_valid_token(decode(&token), now.timestamp(), now.timestamp_subsec_nanos())
        .unwrap();
    assert!(valid);
    assert!(!my_client.stream_json(&my_client.me(), valid).renew);

    let me = ask_me(&mut my_client, &api).unwrap();

    assert_eq!(me["username"], String::from("me"));
    assert_eq!(me["fullname"], String::from("me"));
    assert_eq!(me["ring"], String::from("user"));
}

#[test]
fn token_that_does_not_decode() {
    let mut my_client = Client::new(HOST, "xxx");
    my_client.set_session("not a token".to_string());
    let api = api_with_signin(String::new());
    assert!(matches!(ask_me(&mut my_client, &api), Err(Error::JWTError(_))));
}

#[test]
fn failure_of_the_api() {
    let api = |_: &str, _: &str, _: &[(String, String)]| (401u16, String::from("denied"));
    let mut my_client = Client::new(HOST, "");
    match ask_me(&mut my_client, &api) {
        Err(Error::ApiError(e)) => {
            assert_eq!(e.status, 401);
            assert_eq!(e.message, "denied");
        }
        other => panic!("unexpected {:?}", other),
    }
    assert!(!fails(400));
    assert!(fails(401));
}
