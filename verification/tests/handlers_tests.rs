use nimbus_auth::errors::ErrorBoxed;
use nimbus_auth::extractors::{AuthorizationExtractorError, ClientType};
use nimbus_auth::handlers::{
    convert_access_token_into_proto, convert_user_into_proto, get_public_key_response, refresh_response,
    rotate_keypairs_caller, rotate_keypairs_response, signin_body_rejected, signin_response,
    signup_body_rejected, signup_response, GetPublicKeyErrorCodeProto, GetPublicKeyResult,
    RefreshErrorCodeProto, RefreshResult, RotateKeypairsErrorCodeProto, RotateKeypairsResult,
    SignInErrorCodeProto, SignInResult, SignUpErrorCodeProto, SignUpResult,
};
use nimbus_auth::use_cases::{
    AccessTokenDto, GetPublicKeyError, GetPublicKeyResponse, RefreshError, RefreshResponse,
    RotateKeyPairsError, SessionDto, SignInError, SignInResponse, SignUpError, SignUpResponse,
    UserClaimsDto,
};

fn user() -> UserClaimsDto {
    UserClaimsDto { id: "01HZXUSER".to_string(), name: "alice".to_string() }
}

fn token() -> AccessTokenDto {
    AccessTokenDto {
        signed_access_token: "header.claims.sig".to_string(),
        signed_access_token_expires_at_unix_timestamp: 1700000900,
    }
}

fn session(id: &str) -> SessionDto {
    SessionDto { session_id: id.to_string(), session_expires_at_unix_timestamp: 1702592000 }
}

fn boxed() -> ErrorBoxed {
    ErrorBoxed::from_str("boom")
}

#[test]
fn conversions_keep_every_field() {
    let u = convert_user_into_proto(user());
    assert_eq!(u.id, "01HZXUSER");
    assert_eq!(u.user_name, "alice");
    let t = convert_access_token_into_proto(token());
    assert_eq!(t.token, "header.claims.sig");
    assert_eq!(t.expires_at_unix_timestamp, 1700000900);
}

#[test]
fn signup_success_is_created_with_session_cookies_for_browsers() {
    let ok = SignUpResponse { user: user(), access_token: token(), session: session("s1") };
    let (status, headers, cookies, message) =
        signup_response(ClientType::Browser, Ok(ok)).into_response_parts();
    assert_eq!(status, 201);
    assert_eq!(headers.len(), 1);
    let cookies = cookies.into_vec();
    assert_eq!(cookies.len(), 2);
    assert_eq!(cookies[0].0, "session_id");
    assert_eq!(cookies[0].1.value, "s1");
    assert_eq!(cookies[1].1.value, "1702592000");
    match message.result {
        Some(SignUpResult::Success(auth)) => {
            let u = auth.user.expect("user");
            assert_eq!(u.user_name, "alice");
            let t = auth.access_token.expect("token");
            assert_eq!(t.token, "header.claims.sig");
        },
        _ => panic!("expected success"),
    }
}

#[test]
fn signup_success_for_mobile_carries_session_headers() {
    let ok = SignUpResponse { user: user(), access_token: token(), session: session("s2") };
    let (status, headers, cookies, _) = signup_response(ClientType::Mobile, Ok(ok)).into_response_parts();
    assert_eq!(status, 201);
    assert_eq!(cookies.len(), 0);
    let headers = headers.into_vec();
    assert_eq!(headers[0], ("x-session-id".to_string(), "s2".to_string()));
    assert_eq!(headers[1], ("x-session-exp-timestamp".to_string(), "1702592000".to_string()));
}

#[test]
fn signup_success_with_unusable_session_id_is_a_server_error() {
    let ok = SignUpResponse { user: user(), access_token: token(), session: session("s\n") };
    let (status, _, _, message) = signup_response(ClientType::PC, Ok(ok)).into_response_parts();
    assert_eq!(status, 500);
    assert!(matches!(message.result, Some(SignUpResult::Error(SignUpErrorCodeProto::Undefined))));
}

#[test]
fn signup_failures() {
    let cases: Vec<(SignUpError, u16, fn(&SignUpErrorCodeProto) -> bool)> = vec![
        (SignUpError::InvalidUserName(boxed()), 400, |c| matches!(c, SignUpErrorCodeProto::ValidationError)),
        (SignUpError::InvalidPassword(boxed()), 400, |c| matches!(c, SignUpErrorCodeProto::ValidationError)),
        (SignUpError::UserAlreadyExists, 400, |c| matches!(c, SignUpErrorCodeProto::UserAlreadyExists)),
        (SignUpError::Other(boxed()), 500, |c| matches!(c, SignUpErrorCodeProto::Undefined)),
    ];
    for (err, expected_status, expected_code) in cases {
        let (status, headers, cookies, message) =
            signup_response(ClientType::Browser, Err(err)).into_response_parts();
        assert_eq!(status, expected_status);
        assert_eq!(headers.len(), 1);
        assert_eq!(cookies.len(), 0);
        match message.result {
            Some(SignUpResult::Error(code)) => assert!(expected_code(&code)),
            _ => panic!("expected an error code"),
        }
    }
    let (status, _, _, message) = signup_body_rejected().into_response_parts();
    assert_eq!(status, 400);
    assert!(matches!(message.result, Some(SignUpResult::Error(SignUpErrorCodeProto::WrongBodyFormat))));
}

#[test]
fn signin_success_is_ok_with_session() {
    let ok = SignInResponse { user: user(), access_token: token(), session: session("s3") };
    let (status, headers, _, message) = signin_response(ClientType::PC, Ok(ok)).into_response_parts();
    assert_eq!(status, 200);
    assert_eq!(headers.len(), 3);
    assert!(matches!(message.result, Some(SignInResult::Success(_))));
}

#[test]
fn signin_failures() {
    let cases: Vec<(SignInError, u16, fn(&SignInErrorCodeProto) -> bool)> = vec![
        (SignInError::InvalidUserName(boxed()), 400, |c| matches!(c, SignInErrorCodeProto::ValidationError)),
        (SignInError::InvalidPassword(boxed()), 400, |c| matches!(c, SignInErrorCodeProto::ValidationError)),
        (SignInError::UserIsNotFound, 400, |c| matches!(c, SignInErrorCodeProto::WrongCredentials)),
        (SignInError::PasswordDoesNotMatchWithHash, 400, |c| {
            matches!(c, SignInErrorCodeProto::WrongCredentials)
        }),
        (SignInError::Other(boxed()), 500, |c| matches!(c, SignInErrorCodeProto::Undefined)),
    ];
    for (err, expected_status, expected_code) in cases {
        let (status, _, cookies, message) = signin_response(ClientType::Mobile, Err(err)).into_response_parts();
        assert_eq!(status, expected_status);
        assert_eq!(cookies.len(), 0);
        match message.result {
            Some(SignInResult::Error(code)) => assert!(expected_code(&code)),
            _ => panic!("expected an error code"),
        }
    }
    let (status, _, _, message) = signin_body_rejected().into_response_parts();
    assert_eq!(status, 400);
    assert!(matches!(message.result, Some(SignInResult::Error(SignInErrorCodeProto::WrongBodyFormat))));
}

#[test]
fn refresh_success_and_failures() {
    let ok = RefreshResponse { user: user(), access_token: token(), session: session("s4") };
    let (status, _, cookies, message) = refresh_response(ClientType::Browser, Ok(ok)).into_response_parts();
    assert_eq!(status, 200);
    assert_eq!(cookies.len(), 2);
    assert!(matches!(message.result, Some(RefreshResult::Success(_))));

    let cases: Vec<(RefreshError, u16, fn(&RefreshErrorCodeProto) -> bool)> = vec![
        (RefreshError::IdDecode(boxed()), 400, |c| matches!(c, RefreshErrorCodeProto::ValidationError)),
        (RefreshError::SessionIsNotFound, 400, |c| matches!(c, RefreshErrorCodeProto::SessionNotFound)),
        (RefreshError::UserIsNotFound, 400, |c| matches!(c, RefreshErrorCodeProto::SessionInvalid)),
        (RefreshError::SessionIsExpired, 400, |c| matches!(c, RefreshErrorCodeProto::SessionInvalid)),
        (RefreshError::SessionIsRevoked, 400, |c| matches!(c, RefreshErrorCodeProto::SessionInvalid)),
        (RefreshError::Other(boxed()), 500, |c| matches!(c, RefreshErrorCodeProto::Undefined)),
    ];
    for (err, expected_status, expected_code) in cases {
        let (status, _, _, message) = refresh_response(ClientType::PC, Err(err)).into_response_parts();
        assert_eq!(status, expected_status);
        match message.result {
            Some(RefreshResult::Error(code)) => assert!(expected_code(&code)),
            _ => panic!("expected an error code"),
        }
    }
}

#[test]
fn rotate_keypairs_needs_an_authorized_user() {
    match rotate_keypairs_caller(Ok(user())) {
        Ok(u) => assert_eq!(u.name, "alice"),
        Err(_) => panic!("expected the user"),
    }
    match rotate_keypairs_caller(Err(AuthorizationExtractorError::AuthHeaderIsMissing)) {
        Ok(_) => panic!("expected a refusal"),
        Err(response) => {
            let (status, _, _, message) = response.into_response_parts();
            assert_eq!(status, 401);
            assert!(matches!(
                message.result,
                Some(RotateKeypairsResult::Error(RotateKeypairsErrorCodeProto::Unauthorized))
            ));
        },
    }
}

#[test]
fn rotate_keypairs_outcomes() {
    let (status, _, _, message) = rotate_keypairs_response(Ok(())).into_response_parts();
    assert_eq!(status, 200);
    assert!(matches!(message.result, Some(RotateKeypairsResult::Success)));
    let (status, _, _, message) =
        rotate_keypairs_response(Err(RotateKeyPairsError::Forbidden(boxed()))).into_response_parts();
    assert_eq!(status, 403);
    assert!(matches!(message.result, Some(RotateKeypairsResult::Error(RotateKeypairsErrorCodeProto::Forbidden))));
    let (status, _, _, message) =
        rotate_keypairs_response(Err(RotateKeyPairsError::Other(boxed()))).into_response_parts();
    assert_eq!(status, 400);
    assert!(matches!(message.result, Some(RotateKeypairsResult::Error(RotateKeypairsErrorCodeProto::Undefined))));
}

#[test]
fn public_key_outcomes() {
    let pem = "-----BEGIN PUBLIC KEY-----\nMCow\n-----END PUBLIC KEY-----\n".to_string();
    let (status, _, _, message) =
        get_public_key_response(Ok(GetPublicKeyResponse { public_key_pem: pem.clone() })).into_response_parts();
    assert_eq!(status, 200);
    match message.result {
        Some(GetPublicKeyResult::Success { public_key_pem }) => assert_eq!(public_key_pem, pem),
        _ => panic!("expected the key"),
    }
    let cases: Vec<(GetPublicKeyError, u16, fn(&GetPublicKeyErrorCodeProto) -> bool)> = vec![
        (GetPublicKeyError::KeyPairNotFound, 404, |c| matches!(c, GetPublicKeyErrorCodeProto::KeypairNotFound)),
        (GetPublicKeyError::KeyPairIsExpired, 400, |c| {
            matches!(c, GetPublicKeyErrorCodeProto::InvalidKeypairRequested)
        }),
        (GetPublicKeyError::KeyPairIsRevoked, 400, |c| {
            matches!(c, GetPublicKeyErrorCodeProto::InvalidKeypairRequested)
        }),
        (GetPublicKeyError::Other(boxed()), 500, |c| matches!(c, GetPublicKeyErrorCodeProto::Undefined)),
    ];
    for (err, expected_status, expected_code) in cases {
        let (status, _, _, message) = get_public_key_response(Err(err)).into_response_parts();
        assert_eq!(status, expected_status);
        match message.result {
            Some(GetPublicKeyResult::Error(code)) => assert!(expected_code(&code)),
            _ => panic!("expected an error code"),
        }
    }
}
