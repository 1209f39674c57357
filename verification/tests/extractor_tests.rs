use nimbus_auth::errors::ErrorBoxed;
use nimbus_auth::extractors::{Authorization, AuthorizationExtractorError, Client, ClientType, Session};
use nimbus_auth::use_cases::{AuthorizationError, AuthorizationResponse, UserClaimsDto};

const NOT_FOUND_MSG: &str = "client type header is not found";

#[test]
fn client_type_header_names_the_client() {
    assert_eq!(Client::detect_client_type(Some(b"Browser"), None), Ok(ClientType::Browser));
    assert_eq!(Client::detect_client_type(Some(b"MOBILE"), None), Ok(ClientType::Mobile));
    assert_eq!(Client::detect_client_type(Some(b"pc"), Some(b"iPhone")), Ok(ClientType::PC));
}

#[test]
fn unknown_client_type_header_is_refused_without_consulting_user_agent() {
    assert_eq!(
        Client::detect_client_type(Some(b"tablet"), Some(b"Mozilla/5.0")),
        Err((400, NOT_FOUND_MSG))
    );
}

#[test]
fn user_agent_decides_without_client_type_header() {
    let iphone = b"Mozilla/5.0 (iPhone; CPU iPhone OS 17_0) Safari/604.1";
    assert_eq!(Client::detect_client_type(None, Some(iphone)), Ok(ClientType::Mobile));
    let desktop = b"Mozilla/5.0 (Windows NT 10.0; Win64; x64) Chrome/120.0";
    assert_eq!(Client::detect_client_type(None, Some(desktop)), Ok(ClientType::Browser));
    assert_eq!(Client::detect_client_type(None, Some(b"curl/8.0 (Linux)")), Ok(ClientType::PC));
    assert_eq!(Client::detect_client_type(None, Some(b"curl/8.0")), Err((400, NOT_FOUND_MSG)));
    assert_eq!(Client::detect_client_type(None, None), Err((400, NOT_FOUND_MSG)));
}

#[test]
fn client_type_header_that_is_not_text_falls_back_to_user_agent() {
    assert_eq!(
        Client::detect_client_type(Some(b"pc\x01"), Some(b"Android app")),
        Ok(ClientType::Mobile)
    );
}

#[test]
fn browser_session_comes_from_cookie() {
    assert_eq!(
        Session::extract_session_id(Client(ClientType::Browser), Some("s-1"), Some(b"ignored")),
        Ok("s-1".to_string())
    );
    assert_eq!(
        Session::extract_session_id(Client(ClientType::Browser), None, Some(b"s-1")),
        Err((400, "session cookie is not found"))
    );
}

#[test]
fn other_clients_session_comes_from_header() {
    assert_eq!(
        Session::extract_session_id(Client(ClientType::Mobile), Some("c"), Some(b"s-2")),
        Ok("s-2".to_string())
    );
    assert_eq!(
        Session::extract_session_id(Client(ClientType::PC), Some("c"), None),
        Err((400, "session header is not found"))
    );
    assert_eq!(
        Session::extract_session_id(Client(ClientType::PC), None, Some(b"s\x00")),
        Err((400, "session header is invalid"))
    );
}

#[test]
fn bearer_token_is_extracted() {
    assert_eq!(Authorization::bearer_token(Some(b"Bearer abc.def")), Ok("abc.def"));
    assert_eq!(Authorization::bearer_token(Some(b"Bearer ")), Ok(""));
}

#[test]
fn bearer_token_refusals() {
    assert_eq!(
        Authorization::bearer_token(None),
        Err((401, "authorization header is not found"))
    );
    assert_eq!(
        Authorization::bearer_token(Some(b"Bearer \xff")),
        Err((400, "authorization header is invalid"))
    );
    assert_eq!(
        Authorization::bearer_token(Some(b"Basic abc")),
        Err((400, "authorization header has wrong schema"))
    );
    assert_eq!(
        Authorization::bearer_token(Some(b"bearer abc")),
        Err((400, "authorization header has wrong schema"))
    );
}

#[test]
fn authorization_failures_are_answered() {
    let e = || ErrorBoxed::from_str("boom");
    assert_eq!(
        Authorization::rejection_for(&AuthorizationError::ExtractKeyId(e())),
        (400, "access token does not contain valid key id")
    );
    assert_eq!(
        Authorization::rejection_for(&AuthorizationError::AccessTokenVerification(e())),
        (400, "access token is invalid")
    );
    for err in [
        AuthorizationError::KeyPairNotFound,
        AuthorizationError::KeyPairExpired,
        AuthorizationError::KeyPairRevoked,
    ] {
        assert_eq!(Authorization::rejection_for(&err), (400, "access token key is invalid"));
    }
    assert_eq!(
        Authorization::rejection_for(&AuthorizationError::Other(e())),
        (500, "server error")
    );
}

#[test]
fn authorized_user_is_kept() {
    let user = UserClaimsDto { id: "u1".to_string(), name: "ann".to_string() };
    let ok = Authorization::from_authorization_result(Ok(AuthorizationResponse { user }));
    let Authorization(claims) = ok.ok().unwrap();
    assert_eq!(claims.id, "u1");
    assert_eq!(claims.name, "ann");
    let refused = Authorization::from_authorization_result(Err(AuthorizationError::KeyPairRevoked));
    assert_eq!(refused.err().unwrap(), (400, "access token key is invalid"));
}

#[test]
fn parse_bearer_tells_why_there_is_no_token() {
    assert!(matches!(Authorization::parse_bearer(None), Err(AuthorizationExtractorError::AuthHeaderIsMissing)));
    assert!(matches!(
        Authorization::parse_bearer(Some(b"Bearer caf\xc3\xa9")),
        Err(AuthorizationExtractorError::AuthHeaderContainsNonAscii)
    ));
    assert!(matches!(
        Authorization::parse_bearer(Some(b"Basic dXNlcjpwYXNz")),
        Err(AuthorizationExtractorError::AuthHeaderWrongSchema)
    ));
    assert!(matches!(
        Authorization::parse_bearer(Some(b"bearer abc")),
        Err(AuthorizationExtractorError::AuthHeaderWrongSchema)
    ));
    assert!(matches!(Authorization::parse_bearer(Some(b"Bearer abc.def")), Ok("abc.def")));
    assert!(matches!(Authorization::parse_bearer(Some(b"Bearer ")), Ok("")));
}

#[test]
fn extractor_errors_are_answered() {
    assert_eq!(
        Authorization::extractor_rejection(&AuthorizationExtractorError::AuthHeaderIsMissing),
        (401, "authorization header is not found")
    );
    assert_eq!(
        Authorization::extractor_rejection(&AuthorizationExtractorError::AuthHeaderContainsNonAscii),
        (400, "authorization header is invalid")
    );
    assert_eq!(
        Authorization::extractor_rejection(&AuthorizationExtractorError::AuthHeaderWrongSchema),
        (400, "authorization header has wrong schema")
    );
    assert_eq!(
        Authorization::extractor_rejection(&AuthorizationExtractorError::Authorization(
            AuthorizationError::KeyPairExpired
        )),
        (400, "access token key is invalid")
    );
    assert_eq!(
        Authorization::extractor_rejection(&AuthorizationExtractorError::Authorization(
            AuthorizationError::Other(ErrorBoxed::from_str("db down"))
        )),
        (500, "server error")
    );
}
