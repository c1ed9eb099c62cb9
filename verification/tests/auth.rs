use hitsave_api::handlers::login::Claims;
use hitsave_api::middlewares::api_auth::{ApiAuthService, Auth as ApiKeyAuth};
use hitsave_api::middlewares::auth::{Auth, AuthError};
use hitsave_api::middlewares::jwt_auth::{AuthError as JwtAuthError, AuthorizationService};
use jsonwebtoken::errors::{Error as JwtError, ErrorKind};
use uuid::Uuid;

fn accept(token: &str) -> Result<Claims, JwtError> {
    Ok(Claims { sub: Uuid::from_u128(token.len() as u128), exp: 99 })
}

fn refuse(_token: &str) -> Result<Claims, JwtError> {
    Err(JwtError::from(ErrorKind::ExpiredSignature))
}

fn unreachable_verify(token: &str) -> Result<Claims, JwtError> {
    panic!("nothing was to be checked, but {:?} was", token)
}

#[test]
fn header_without_bearer_is_an_api_key() {
    match Auth::from_str("k3y", unreachable_verify).unwrap() {
        Auth::ApiKey(key) => assert_eq!(key, "k3y"),
        other => panic!("expected an API key, got {:?}", other),
    }
    let auth = Auth::from_str("Bearer", unreachable_verify).unwrap();
    assert!(auth.is_api_key());
    assert!(!auth.is_jwt());
    assert_eq!(auth.api_key(), Some("Bearer"));
    assert!(auth.jwt().is_none());
    let auth = Auth::from_str(" Bearer abc", unreachable_verify).unwrap();
    assert_eq!(auth.api_key(), Some(" Bearer abc"));
    let auth = Auth::from_api_key("").unwrap();
    assert_eq!(auth.api_key(), Some(""));
}

#[test]
fn bearer_token_is_cut_out_and_checked() {
    let seen = std::cell::RefCell::new(Vec::new());
    let record = |token: &str| {
        seen.borrow_mut().push(token.to_string());
        accept(token)
    };
    let auth = Auth::from_str("Bearer abc.def", record).unwrap();
    assert!(auth.is_jwt());
    assert!(!auth.is_api_key());
    assert_eq!(auth.jwt().unwrap().sub, Uuid::from_u128(7));
    assert_eq!(auth.jwt().unwrap().exp, 99);
    assert!(auth.api_key().is_none());
    let record = |token: &str| {
        seen.borrow_mut().push(token.to_string());
        accept(token)
    };
    Auth::from_str("Bearer  \t tok \n", record).unwrap();
    let record = |token: &str| {
        seen.borrow_mut().push(token.to_string());
        accept(token)
    };
    Auth::from_str("Bearer one Bearer two", record).unwrap();
    let record = |token: &str| {
        seen.borrow_mut().push(token.to_string());
        accept(token)
    };
    Auth::from_str("Bearer ", record).unwrap();
    let record = |token: &str| {
        seen.borrow_mut().push(token.to_string());
        accept(token)
    };
    Auth::from_jwt("x Bearer\u{a0}t\u{e9}\u{2003}", record).unwrap();
    assert_eq!(*seen.borrow(), vec!["abc.def", "tok", "one", "", "t\u{e9}"]);
}

#[test]
fn refused_token_is_an_invalid_jwt() {
    match Auth::from_str("Bearer abc", refuse) {
        Err(AuthError::InvalidJwt(e)) => assert_eq!(e.kind(), &ErrorKind::ExpiredSignature),
        other => panic!("expected an invalid token, got {:?}", other),
    }
    match Auth::from_verified(Err(JwtError::from(ErrorKind::InvalidSignature))) {
        Err(AuthError::InvalidJwt(e)) => assert_eq!(e.kind(), &ErrorKind::InvalidSignature),
        other => panic!("expected an invalid token, got {:?}", other),
    }
    assert!(Auth::from_verified(accept("abcd")).unwrap().is_jwt());
}

#[test]
fn header_without_the_word_is_malformed_for_a_token() {
    match Auth::from_jwt("bearer abc", unreachable_verify) {
        Err(AuthError::InvalidAuthHeader(m)) => {
            assert_eq!(m, "Header should be of the form `Bearer {token}`")
        }
        other => panic!("expected a malformed header, got {:?}", other),
    }
}

#[test]
fn request_without_header_has_no_credential() {
    assert!(matches!(Auth::from_request(None, unreachable_verify), Err(AuthError::NoAuthHeader)));
    assert!(Auth::from_request(Some("key"), unreachable_verify).unwrap().is_api_key());
    assert!(Auth::from_request(Some("Bearer t"), accept).unwrap().is_jwt());
}

#[test]
fn operations_narrow_to_the_form_they_take() {
    let key = Auth::ApiKey("k".to_string());
    let jwt = Auth::Jwt(Claims { sub: Uuid::from_u128(1), exp: 2 });
    assert_eq!(key.allow_only_api_key().unwrap(), "k");
    assert_eq!(jwt.allow_only_jwt().unwrap().exp, 2);
    let e = key.allow_only_jwt().unwrap_err();
    assert_eq!(
        (e.status, e.message.as_str()),
        (403, "Invalid `Authorization` header. Expected JWT.")
    );
    let e = jwt.allow_only_api_key().unwrap_err();
    assert_eq!(
        (e.status, e.message.as_str()),
        (403, "Invalid `Authorization` header. Expected API key.")
    );
}

#[test]
fn auth_errors_are_shown_to_the_client() {
    let e = AuthError::NoAuthHeader.http_error();
    assert_eq!(
        (e.status, e.message.as_str()),
        (401, "Error: No `Authorization` header present on request.")
    );
    let e = AuthError::InvalidAuthHeader("why".to_string()).http_error();
    assert_eq!((e.status, e.message.as_str()), (401, "Error: Invalid `Authorization` header. why"));
    let e = AuthError::InvalidJwt(JwtError::from(ErrorKind::InvalidToken)).http_error();
    assert_eq!((e.status, e.message.as_str()), (403, "Error: Invalid JWT provided."));
    let e = JwtAuthError::NoAuthHeader.http_error();
    assert_eq!(
        (e.status, e.message.as_str()),
        (401, "no Authorization header included in request")
    );
    let e = JwtAuthError::InvalidToken(JwtError::from(ErrorKind::InvalidToken)).http_error();
    assert_eq!(e.status, 401);
}

#[test]
fn service_takes_claims_only() {
    assert!(matches!(
        AuthorizationService::from_request(None, unreachable_verify),
        Err(JwtAuthError::NoAuthHeader)
    ));
    assert!(matches!(
        AuthorizationService::from_request(Some("an-api-key"), unreachable_verify),
        Err(JwtAuthError::NoAuthHeader)
    ));
    let check = |token: &str| {
        assert_eq!(token, "tok");
        accept(token)
    };
    let service = AuthorizationService::from_request(Some("Bearer tok "), check).unwrap();
    assert_eq!(service.claims.sub, Uuid::from_u128(3));
    assert!(matches!(
        AuthorizationService::from_request(Some("Bearer tok"), refuse),
        Err(JwtAuthError::InvalidToken(_))
    ));
}

#[test]
fn api_key_is_taken_as_it_is() {
    assert_eq!(ApiKeyAuth::from_str(" any text ").key, " any text ");
    assert_eq!(ApiAuthService::from_str("Bearer x").key, "Bearer x");
    assert_eq!(ApiKeyAuth::from_request(Some("k")).unwrap().key, "k");
    assert_eq!(ApiAuthService::from_request(Some("k")).unwrap().key, "k");
    let e = ApiKeyAuth::from_request(None).unwrap_err();
    assert_eq!((e.status, e.message.as_str()), (401, "no Authorization header present"));
    let e = ApiAuthService::from_request(None).unwrap_err();
    assert_eq!((e.status, e.message.as_str()), (401, "no Authorization header present"));
}
