use axum_extra::headers::authorization::Bearer;
use axum_extra::headers::{Authorization, HeaderMapExt};
use user_service::config::authentication::Keys;
use user_service::controller::auth_controller::{check_credentials, get_info, login, GetUserInfo};
use user_service::middleware::bearer::bearer_token;
use user_service::middleware::{auth_layer, authorize};
use user_service::model::api_response::ApiError;
use user_service::model::auth::claims::JwtClaims;
use user_service::model::auth::login::LoginDto;
use user_service::model::auth_error::AuthError;
use user_service::services::auth_service::{
    AuthBody, AuthService, TokenPayload, ACCESS_EXP_MINUTES, ACCESS_EXP_SECONDS,
};
use user_service::util::{epoch_seconds, now_epoch};

const SECRET: &[u8] = b"a secret for the tests";

fn service() -> AuthService {
    AuthService::new(Keys::new(SECRET.to_vec()))
}

fn header_of(token: &str) -> Vec<u8> {
    format!("Bearer {token}").into_bytes()
}

fn payload_of(token: &str) -> serde_json::Value {
    let key = jsonwebtoken::DecodingKey::from_secret(SECRET);
    let validation = jsonwebtoken::Validation::default();
    jsonwebtoken::decode::<serde_json::Value>(token, &key, &validation).unwrap().claims
}

fn token_with(payload: serde_json::Value) -> String {
    let key = jsonwebtoken::EncodingKey::from_secret(SECRET);
    jsonwebtoken::encode(&jsonwebtoken::Header::default(), &payload, &key).unwrap()
}

fn object(fields: Vec<(&str, serde_json::Value)>) -> serde_json::Value {
    let mut map = serde_json::Map::new();
    for (name, value) in fields {
        map.insert(name.to_string(), value);
    }
    serde_json::Value::Object(map)
}

fn by_headers(value: &[u8]) -> Option<Vec<u8>> {
    let mut map = axum::http::HeaderMap::new();
    let value = axum::http::HeaderValue::from_bytes(value).ok()?;
    map.insert(axum::http::header::AUTHORIZATION, value);
    map.typed_get::<Authorization<Bearer>>().map(|auth| auth.token().as_bytes().to_vec())
}

fn credentials(user_name: &str, password: &str) -> LoginDto {
    LoginDto { user_name: user_name.to_string(), password: password.to_string() }
}

fn failure(code: &str, message: &str) -> ApiError {
    ApiError { code: code.to_string(), message: message.to_string() }
}

#[test]
fn a_token_is_good_for_fifteen_hours() {
    assert_eq!(ACCESS_EXP_MINUTES, 900);
    assert_eq!(ACCESS_EXP_SECONDS, 54_000);
}

#[test]
fn claims_stop_being_good_a_window_after_they_were_made() {
    let claims = AuthService::claims_for("foo", 1_700_000_000).unwrap();

    assert_eq!(claims, JwtClaims { sub: "foo".to_string(), exp: 1_700_054_000 });
    assert_eq!(
        AuthService::claims_for("", 0),
        Some(JwtClaims { sub: String::new(), exp: 54_000 })
    );
}

#[test]
fn claims_are_not_made_past_the_last_second() {
    assert_eq!(AuthService::claims_for("foo", usize::MAX), None);
    assert_eq!(AuthService::claims_for("foo", usize::MAX - 53_999), None);
    assert_eq!(
        AuthService::claims_for("foo", usize::MAX - 54_000),
        Some(JwtClaims { sub: "foo".to_string(), exp: usize::MAX })
    );
}

#[test]
fn a_body_hands_the_token_out_as_a_bearer_token() {
    let body = AuthBody::new("abc".to_string());

    assert_eq!(body.access_token, "abc");
    assert_eq!(body.token_type, "Bearer");
}

#[test]
fn a_signed_token_is_answered_and_a_failure_is_token_creation() {
    let refused = jsonwebtoken::errors::Error::from(jsonwebtoken::errors::ErrorKind::InvalidKeyFormat);

    assert_eq!(
        AuthService::token_response(Ok("abc".to_string())),
        Ok(AuthBody { access_token: "abc".to_string(), token_type: "Bearer".to_string() })
    );
    assert_eq!(AuthService::token_response(Err(refused)), Err(AuthError::TokenCreation));
}

#[test]
fn an_issued_token_carries_the_claims() {
    let body = service().issue_token("foo", 1_900_000_000).unwrap();
    let payload = payload_of(&body.access_token);

    assert_eq!(body.token_type, "Bearer");
    assert_eq!(body.access_token.split('.').count(), 3);
    assert_eq!(payload["sub"], "foo");
    assert_eq!(payload["exp"], 1_900_054_000u64);
    assert_eq!(payload.as_object().unwrap().len(), 2);
}

#[test]
fn a_token_is_not_issued_past_the_last_second() {
    assert_eq!(service().issue_token("foo", usize::MAX), Err(AuthError::TokenCreation));
}

#[test]
fn a_generated_token_reads_back_as_its_claims() {
    let service = service();
    let before = now_epoch();
    let body = service.generate_tokens("foo").unwrap();
    let after = now_epoch();
    let claims = auth_layer(&service, Some(&header_of(&body.access_token))).unwrap();

    assert!(!body.access_token.is_empty());
    assert_eq!(body.token_type, "Bearer");
    assert_eq!(claims.sub, "foo");
    assert!(claims.exp > before);
    assert!(before + 54_000 <= claims.exp && claims.exp <= after + 54_000);
}

#[test]
fn a_reading_of_the_clock_is_counted_in_whole_seconds() {
    assert_eq!(epoch_seconds(Some(0)), 0);
    assert_eq!(epoch_seconds(Some(1)), 1);
    assert_eq!(epoch_seconds(Some(1_700_000_000)), 1_700_000_000);
    assert_eq!(epoch_seconds(Some(u32::MAX as u64)), u32::MAX as usize);
    assert_eq!(epoch_seconds(Some(u64::MAX)), u64::MAX as usize);
}

#[test]
fn a_reading_from_before_1970_counts_as_zero() {
    assert_eq!(epoch_seconds(None), 0);
}

#[test]
fn the_clock_reads_a_time_of_this_century() {
    let now = now_epoch();

    assert!(now > 1_600_000_000);
    assert!(now_epoch() >= now);
}

#[test]
fn a_request_without_the_header_is_missing_credentials() {
    assert_eq!(auth_layer(&service(), None), Err(AuthError::MissingCredentials));
    assert_eq!(authorize(&service(), None, 0), Err(AuthError::MissingCredentials));
}

#[test]
fn a_header_that_carries_no_bearer_token_is_missing_credentials() {
    let service = service();
    let token = service.generate_tokens("foo").unwrap().access_token;

    for value in [
        "".to_string(),
        "Bearer".to_string(),
        format!("Basic {token}"),
        format!("Bearer{token}"),
        format!("Bearer\t{token}"),
        format!(" Bearer {token}"),
        format!("Token {token}"),
        token.clone(),
    ] {
        assert_eq!(
            auth_layer(&service, Some(value.as_bytes())),
            Err(AuthError::MissingCredentials)
        );
    }

    let mut not_text = header_of(&token);
    not_text.push(0xe9);

    assert_eq!(auth_layer(&service, Some(&not_text)), Err(AuthError::MissingCredentials));
}

#[test]
fn the_scheme_is_read_in_any_case_and_blanks_before_the_token_are_dropped() {
    let service = service();
    let token = service.generate_tokens("foo").unwrap().access_token;

    for value in [
        format!("bearer {token}"),
        format!("BEARER {token}"),
        format!("bEaReR {token}"),
        format!("Bearer    {token}"),
        format!("Bearer \t {token}"),
    ] {
        assert_eq!(auth_layer(&service, Some(value.as_bytes())).unwrap().sub, "foo");
        assert_eq!(bearer_token(Some(value.as_bytes())), Ok(token.as_bytes()));
    }
}

#[test]
fn the_token_is_what_follows_the_scheme() {
    assert_eq!(bearer_token(Some(b"Bearer abc")), Ok(&b"abc"[..]));
    assert_eq!(bearer_token(Some(b"Bearer abc def ")), Ok(&b"abc def "[..]));
    assert_eq!(bearer_token(Some(b"Bearer ")), Ok(&b""[..]));
    assert_eq!(bearer_token(Some(b"Bearer   \t")), Ok(&b""[..]));
    assert_eq!(bearer_token(Some(b"Bearer")), Err(AuthError::MissingCredentials));
    assert_eq!(bearer_token(Some(b"Bearer\x7fabc")), Err(AuthError::MissingCredentials));
    assert_eq!(bearer_token(Some(b"Bearer a\x7fbc")), Err(AuthError::MissingCredentials));
    assert_eq!(bearer_token(Some(b"Bearer a\nbc")), Err(AuthError::MissingCredentials));
    assert_eq!(bearer_token(Some(b"Bearer a\x80")), Err(AuthError::MissingCredentials));
    assert_eq!(bearer_token(Some(b"Cearer abc")), Err(AuthError::MissingCredentials));
    assert_eq!(bearer_token(Some(b"@earer abc")), Err(AuthError::MissingCredentials));
    assert_eq!(bearer_token(Some(b"\x62\x65\x61\x72\x65\x52 abc")), Ok(&b"abc"[..]));
    assert_eq!(bearer_token(Some(b"B\x45\x41\x52\x45\x7b abc")), Err(AuthError::MissingCredentials));
    assert_eq!(bearer_token(None), Err(AuthError::MissingCredentials));
}

#[test]
fn the_token_is_read_as_the_headers_crate_reads_it() {
    let values: Vec<&[u8]> = vec![
        b"",
        b"Bearer",
        b"Bearer ",
        b"Bearer  ",
        b"Bearer abc",
        b"bearer abc",
        b"BEARER abc.def.ghi",
        b"Bearer    abc",
        b"Bearer \tabc",
        b"Bearer\tabc",
        b"Bearer abc ",
        b"Bearer a b\tc",
        b"Bearerabc",
        b"Basic abc",
        b"Basic  abc",
        b"Bearer a\x80",
        b"Bearer \xffabc",
        b"Bearer a\x7f",
        b"Bearer a\x01",
        b"Bearer a\n",
        b"Beare abc",
        b"[EARER abc",
        b"bearer~abc",
        b"Bearer ~!#$%&'()*+,-./:;<=>?@[\\]^_`{|}",
    ];

    for value in values {
        assert_eq!(bearer_token(Some(value)).ok().map(<[u8]>::to_vec), by_headers(value));
    }
}

#[test]
fn a_token_that_is_no_token_is_invalid() {
    let service = service();

    for value in ["Bearer abc", "Bearer a.b.c", "Bearer ", "Bearer ..", "bearer   x"] {
        assert_eq!(auth_layer(&service, Some(value.as_bytes())), Err(AuthError::InvalidToken));
    }
}

#[test]
fn a_token_that_was_tampered_with_is_invalid() {
    let service = service();
    let token = service.generate_tokens("foo").unwrap().access_token;
    let parts: Vec<&str> = token.split('.').collect();
    let forged = token_with(object(vec![
        ("sub", serde_json::Value::from("admin")),
        ("exp", serde_json::Value::from(now_epoch() + 54_000)),
    ]));
    let forged_payload = forged.split('.').nth(1).unwrap();
    let swapped = format!("{}.{}.{}", parts[0], forged_payload, parts[2]);
    let mut cut = token.clone();
    cut.pop();

    assert_eq!(auth_layer(&service, Some(&header_of(&token))).unwrap().sub, "foo");
    assert_eq!(auth_layer(&service, Some(&header_of(&swapped))), Err(AuthError::InvalidToken));
    assert_eq!(auth_layer(&service, Some(&header_of(&cut))), Err(AuthError::InvalidToken));
}

#[test]
fn a_token_signed_with_another_secret_is_invalid() {
    let other = AuthService::new(Keys::new(b"another secret".to_vec()));
    let token = other.generate_tokens("foo").unwrap().access_token;

    assert_eq!(auth_layer(&service(), Some(&header_of(&token))), Err(AuthError::InvalidToken));
    assert_eq!(auth_layer(&other, Some(&header_of(&token))).unwrap().sub, "foo");
}

#[test]
fn a_token_signed_with_another_algorithm_is_invalid() {
    let key = jsonwebtoken::EncodingKey::from_secret(SECRET);
    let header = jsonwebtoken::Header::new(jsonwebtoken::Algorithm::HS512);
    let payload = object(vec![
        ("sub", serde_json::Value::from("foo")),
        ("exp", serde_json::Value::from(now_epoch() + 54_000)),
    ]);
    let token = jsonwebtoken::encode(&header, &payload, &key).unwrap();

    assert_eq!(auth_layer(&service(), Some(&header_of(&token))), Err(AuthError::InvalidToken));
}

#[test]
fn an_expired_token_is_invalid() {
    let service = service();
    let old = service.issue_token("foo", 1_000).unwrap().access_token;
    let recent = service.issue_token("foo", now_epoch() - 54_000 - 3_600).unwrap().access_token;

    assert_eq!(auth_layer(&service, Some(&header_of(&old))), Err(AuthError::InvalidToken));
    assert_eq!(auth_layer(&service, Some(&header_of(&recent))), Err(AuthError::InvalidToken));
}

#[test]
fn a_token_is_good_until_the_second_it_names() {
    let service = service();
    let issued = now_epoch();
    let token = service.issue_token("foo", issued).unwrap().access_token;
    let header = header_of(&token);
    let exp = issued + 54_000;

    assert_eq!(
        authorize(&service, Some(&header), issued),
        Ok(JwtClaims { sub: "foo".to_string(), exp })
    );
    assert_eq!(
        authorize(&service, Some(&header), exp - 1),
        Ok(JwtClaims { sub: "foo".to_string(), exp })
    );
    assert_eq!(authorize(&service, Some(&header), exp), Err(AuthError::InvalidToken));
    assert_eq!(authorize(&service, Some(&header), exp + 1), Err(AuthError::InvalidToken));
    assert_eq!(service.read_token(token.as_bytes(), exp), Err(AuthError::InvalidToken));
    assert_eq!(service.read_token(token.as_bytes(), 0).unwrap().exp, exp);
}

#[test]
fn a_token_just_past_its_second_is_invalid() {
    let service = service();
    let token = service.issue_token("foo", now_epoch() - 54_000 - 5).unwrap().access_token;

    assert_eq!(auth_layer(&service, Some(&header_of(&token))), Err(AuthError::InvalidToken));
}

#[test]
fn a_token_without_a_subject_or_an_expiry_is_invalid() {
    let service = service();
    let later = serde_json::Value::from(now_epoch() + 600);

    for payload in [
        object(vec![("exp", later.clone())]),
        object(vec![("sub", serde_json::Value::from(7)), ("exp", later.clone())]),
        object(vec![("sub", serde_json::Value::from("foo"))]),
        object(vec![
            ("sub", serde_json::Value::from("foo")),
            ("exp", serde_json::Value::from("soon")),
        ]),
    ] {
        let token = token_with(payload);

        assert_eq!(auth_layer(&service, Some(&header_of(&token))), Err(AuthError::InvalidToken));
    }

    let whole = token_with(object(vec![
        ("sub", serde_json::Value::from("foo")),
        ("exp", later),
        ("role", serde_json::Value::from("any")),
    ]));

    assert_eq!(auth_layer(&service, Some(&header_of(&whole))).unwrap().sub, "foo");
}

#[test]
fn what_was_checked_decides_the_claims() {
    let refused = jsonwebtoken::errors::Error::from(jsonwebtoken::errors::ErrorKind::InvalidSignature);
    let payload = |sub: Option<&str>, exp: Option<u64>| {
        Ok(TokenPayload { sub: sub.map(str::to_string), exp })
    };

    assert_eq!(
        AuthService::accept(payload(Some("foo"), Some(100)), 99),
        Ok(JwtClaims { sub: "foo".to_string(), exp: 100 })
    );
    assert_eq!(
        AuthService::accept(payload(Some(""), Some(1)), 0),
        Ok(JwtClaims { sub: String::new(), exp: 1 })
    );
    assert_eq!(
        AuthService::accept(payload(Some("foo"), Some(100)), 100),
        Err(AuthError::InvalidToken)
    );
    assert_eq!(
        AuthService::accept(payload(Some("foo"), Some(0)), 0),
        Err(AuthError::InvalidToken)
    );
    assert_eq!(AuthService::accept(payload(None, Some(100)), 0), Err(AuthError::InvalidToken));
    assert_eq!(AuthService::accept(payload(Some("foo"), None), 0), Err(AuthError::InvalidToken));
    assert_eq!(AuthService::accept(payload(None, None), 0), Err(AuthError::InvalidToken));
    assert_eq!(AuthService::accept(Err(refused), 0), Err(AuthError::InvalidToken));
}

#[test]
fn a_handler_that_asks_for_the_claims_is_answered_as_the_guard_answers() {
    let service = service();
    let token = service.generate_tokens("foo").unwrap().access_token;
    let expired = service.issue_token("foo", 1_000).unwrap().access_token;

    assert_eq!(
        JwtClaims::from_request_parts(None, &service),
        Err(AuthError::MissingCredentials)
    );
    assert_eq!(
        JwtClaims::from_request_parts(Some(b"Basic abc"), &service),
        Err(AuthError::MissingCredentials)
    );
    assert_eq!(
        JwtClaims::from_request_parts(Some(b"Bearer"), &service),
        Err(AuthError::MissingCredentials)
    );
    assert_eq!(
        JwtClaims::from_request_parts(Some(&header_of(&expired)), &service),
        Err(AuthError::InvalidToken)
    );
    assert_eq!(
        JwtClaims::from_request_parts(Some(b"Bearer abc"), &service),
        Err(AuthError::InvalidToken)
    );
    assert_eq!(
        JwtClaims::from_request_parts(Some(&header_of(&token)), &service).unwrap().sub,
        "foo"
    );
}

#[test]
fn the_right_credentials_log_in() {
    let service = service();
    let (status, body) = login(&service, &credentials("foo", "bar"));
    let body = body.unwrap();

    assert_eq!(status, 200);
    assert!(!body.access_token.is_empty());
    assert_eq!(body.token_type, "Bearer");
    assert_eq!(auth_layer(&service, Some(&header_of(&body.access_token))).unwrap().sub, "foo");
}

#[test]
fn empty_credentials_are_missing() {
    let missing = (400, Err(failure("MissingCredentials", "Missing credentials")));

    assert_eq!(login(&service(), &credentials("", "bar")), missing);
    assert_eq!(login(&service(), &credentials("foo", "")), missing);
    assert_eq!(login(&service(), &credentials("", "")), missing);
    assert_eq!(login(&service(), &credentials("", "wrong")), missing);
    assert_eq!(check_credentials(&credentials("", "bar")), Err(AuthError::MissingCredentials));
}

#[test]
fn other_credentials_are_wrong() {
    let wrong = (400, Err(failure("WrongCredentials", "Wrong credentials")));

    assert_eq!(login(&service(), &credentials("foo", "baz")), wrong);
    assert_eq!(login(&service(), &credentials("fox", "bar")), wrong);
    assert_eq!(login(&service(), &credentials("bar", "foo")), wrong);
    assert_eq!(login(&service(), &credentials("Foo", "bar")), wrong);
    assert_eq!(login(&service(), &credentials("foo ", "bar")), wrong);
    assert_eq!(check_credentials(&credentials("foo", "baz")), Err(AuthError::WrongCredentials));
    assert_eq!(check_credentials(&credentials("foo", "bar")), Ok(()));
}

#[test]
fn the_bearer_is_told_who_it_is() {
    let claims = JwtClaims { sub: "foo".to_string(), exp: 5 };

    assert_eq!(
        get_info(claims),
        (
            200,
            Ok(GetUserInfo {
                username: "foo".to_string(),
                email: "foo@foo.com".to_string(),
                info: "Hello there!".to_string(),
            })
        )
    );
}
