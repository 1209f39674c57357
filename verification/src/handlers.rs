//! How each endpoint answers: the status code and protobuf message for
//! every outcome of the use case it calls.

use vstd::prelude::*;

use crate::extractors::{AuthorizationExtractorError, ClientType};
use crate::responses::{is_plain_response, is_session_response, respond_with_session, ProtoResponse};
use crate::use_cases::{
    AccessTokenDto, GetPublicKeyError, GetPublicKeyResponse, RefreshError, RefreshResponse,
    RotateKeyPairsError, SignInError, SignInResponse, SignUpError, SignUpResponse, UserClaimsDto,
};

verus! {

pub const OK: u16 = 200;

pub const CREATED: u16 = 201;

pub const BAD_REQUEST: u16 = 400;

pub const UNAUTHORIZED: u16 = 401;

pub const FORBIDDEN: u16 = 403;

pub const NOT_FOUND: u16 = 404;

pub const INTERNAL_SERVER_ERROR: u16 = 500;

/// A user as the protobuf messages carry it.
pub struct UserProto {
    pub id: String,
    pub user_name: String,
}

/// An access token as the protobuf messages carry it.
pub struct AccessTokenProto {
    pub token: String,
    pub expires_at_unix_timestamp: i64,
}

pub open spec fn user_proto_of(user: UserClaimsDto) -> UserProto {
    UserProto { id: user.id, user_name: user.name }
}

pub open spec fn access_token_proto_of(access_token: AccessTokenDto) -> AccessTokenProto {
    AccessTokenProto {
        token: access_token.signed_access_token,
        expires_at_unix_timestamp: access_token.signed_access_token_expires_at_unix_timestamp,
    }
}

/// A user's claims as a protobuf user.
pub fn convert_user_into_proto(user: UserClaimsDto) -> (res: UserProto)
    ensures
        res == user_proto_of(user),
{
    UserProto { id: user.id, user_name: user.name }
}

/// An access token as a protobuf access token.
pub fn convert_access_token_into_proto(access_token: AccessTokenDto) -> (res: AccessTokenProto)
    ensures
        res == access_token_proto_of(access_token),
{
    AccessTokenProto {
        token: access_token.signed_access_token,
        expires_at_unix_timestamp: access_token.signed_access_token_expires_at_unix_timestamp,
    }
}

/// The body of a successful sign-up, sign-in or refresh.
pub struct AuthenticatedProto {
    pub user: Option<UserProto>,
    pub access_token: Option<AccessTokenProto>,
}

pub open spec fn authenticated_proto_of(
    user: UserClaimsDto,
    access_token: AccessTokenDto,
) -> AuthenticatedProto {
    AuthenticatedProto {
        user: Some(user_proto_of(user)),
        access_token: Some(access_token_proto_of(access_token)),
    }
}

/// The body of a successful sign-up, sign-in or refresh carries the
/// user's claims and the access token unchanged: the user's id as its id,
/// the user's name as its name, the signed token and its expiry time.
pub proof fn lemma_authenticated_proto_carries_claims(user: UserClaimsDto, access_token: AccessTokenDto)
    ensures
        ({
            let body = authenticated_proto_of(user, access_token);
            &&& body.user matches Some(u) && u.id == user.id && u.user_name == user.name
            &&& body.access_token matches Some(t) && t.token == access_token.signed_access_token
                && t.expires_at_unix_timestamp
                == access_token.signed_access_token_expires_at_unix_timestamp
        }),
{
}

fn authenticated_proto(user: UserClaimsDto, access_token: AccessTokenDto) -> (res: AuthenticatedProto)
    ensures
        res == authenticated_proto_of(user, access_token),
{
    AuthenticatedProto {
        user: Some(convert_user_into_proto(user)),
        access_token: Some(convert_access_token_into_proto(access_token)),
    }
}

// ---------------------------------------------------------------- sign up
pub enum SignUpErrorCodeProto {
    Undefined,
    WrongBodyFormat,
    ValidationError,
    UserAlreadyExists,
}

pub enum SignUpResult {
    Success(AuthenticatedProto),
    Error(SignUpErrorCodeProto),
}

pub struct SignUpResponseProto {
    pub result: Option<SignUpResult>,
}

pub open spec fn signup_error(code: SignUpErrorCodeProto) -> SignUpResponseProto {
    SignUpResponseProto { result: Some(SignUpResult::Error(code)) }
}

/// The answer to a sign-up request whose body is not a sign-up message.
pub fn signup_body_rejected() -> (res: ProtoResponse<SignUpResponseProto>)
    ensures
        is_plain_response(res, 400, signup_error(SignUpErrorCodeProto::WrongBodyFormat)),
{
    ProtoResponse::new(
        BAD_REQUEST,
        SignUpResponseProto { result: Some(SignUpResult::Error(SignUpErrorCodeProto::WrongBodyFormat)) },
    )
}

/// The answer to a sign-up: 201 with the new user, token and session, or
/// the refusal that fits the failure.
pub fn signup_response(client_type: ClientType, result: Result<SignUpResponse, SignUpError>) -> (res:
    ProtoResponse<SignUpResponseProto>)
    ensures
        match result {
            Ok(r) => is_session_response(
                res,
                client_type,
                201,
                SignUpResponseProto {
                    result: Some(SignUpResult::Success(authenticated_proto_of(r.user, r.access_token))),
                },
                signup_error(SignUpErrorCodeProto::Undefined),
                r.session,
            ),
            Err(SignUpError::InvalidUserName(_)) | Err(SignUpError::InvalidPassword(_)) =>
                is_plain_response(res, 400, signup_error(SignUpErrorCodeProto::ValidationError)),
            Err(SignUpError::UserAlreadyExists) => is_plain_response(
                res,
                400,
                signup_error(SignUpErrorCodeProto::UserAlreadyExists),
            ),
            Err(SignUpError::Other(_)) => is_plain_response(
                res,
                500,
                signup_error(SignUpErrorCodeProto::Undefined),
            ),
        },
{
    match result {
        Ok(response) => {
            let session = response.session;
            respond_with_session(
                client_type,
                CREATED,
                SignUpResponseProto {
                    result: Some(
                        SignUpResult::Success(authenticated_proto(response.user, response.access_token)),
                    ),
                },
                SignUpResponseProto { result: Some(SignUpResult::Error(SignUpErrorCodeProto::Undefined)) },
                &session,
            )
        },
        Err(SignUpError::InvalidUserName(_)) | Err(SignUpError::InvalidPassword(_)) => ProtoResponse::new(
            BAD_REQUEST,
            SignUpResponseProto { result: Some(SignUpResult::Error(SignUpErrorCodeProto::ValidationError)) },
        ),
        Err(SignUpError::UserAlreadyExists) => ProtoResponse::new(
            BAD_REQUEST,
            SignUpResponseProto {
                result: Some(SignUpResult::Error(SignUpErrorCodeProto::UserAlreadyExists)),
            },
        ),
        Err(SignUpError::Other(_)) => ProtoResponse::new(
            INTERNAL_SERVER_ERROR,
            SignUpResponseProto { result: Some(SignUpResult::Error(SignUpErrorCodeProto::Undefined)) },
        ),
    }
}

// ---------------------------------------------------------------- sign in
pub enum SignInErrorCodeProto {
    Undefined,
    WrongBodyFormat,
    ValidationError,
    WrongCredentials,
}

pub enum SignInResult {
    Success(AuthenticatedProto),
    Error(SignInErrorCodeProto),
}

pub struct SignInResponseProto {
    pub result: Option<SignInResult>,
}

pub open spec fn signin_error(code: SignInErrorCodeProto) -> SignInResponseProto {
    SignInResponseProto { result: Some(SignInResult::Error(code)) }
}

/// The answer to a sign-in request whose body is not a sign-in message.
pub fn signin_body_rejected() -> (res: ProtoResponse<SignInResponseProto>)
    ensures
        is_plain_response(res, 400, signin_error(SignInErrorCodeProto::WrongBodyFormat)),
{
    ProtoResponse::new(
        BAD_REQUEST,
        SignInResponseProto { result: Some(SignInResult::Error(SignInErrorCodeProto::WrongBodyFormat)) },
    )
}

/// The answer to a sign-in: 200 with the user, token and session, or the
/// refusal that fits the failure. An unknown user and a wrong password get
/// the same answer.
pub fn signin_response(client_type: ClientType, result: Result<SignInResponse, SignInError>) -> (res:
    ProtoResponse<SignInResponseProto>)
    ensures
        match result {
            Ok(r) => is_session_response(
                res,
                client_type,
                200,
                SignInResponseProto {
                    result: Some(SignInResult::Success(authenticated_proto_of(r.user, r.access_token))),
                },
                signin_error(SignInErrorCodeProto::Undefined),
                r.session,
            ),
            Err(SignInError::InvalidUserName(_)) | Err(SignInError::InvalidPassword(_)) =>
                is_plain_response(res, 400, signin_error(SignInErrorCodeProto::ValidationError)),
            Err(SignInError::UserIsNotFound) | Err(SignInError::PasswordDoesNotMatchWithHash) =>
                is_plain_response(res, 400, signin_error(SignInErrorCodeProto::WrongCredentials)),
            Err(SignInError::Other(_)) => is_plain_response(
                res,
                500,
                signin_error(SignInErrorCodeProto::Undefined),
            ),
        },
{
    match result {
        Ok(response) => {
            let session = response.session;
            respond_with_session(
                client_type,
                OK,
                SignInResponseProto {
                    result: Some(
                        SignInResult::Success(authenticated_proto(response.user, response.access_token)),
                    ),
                },
                SignInResponseProto { result: Some(SignInResult::Error(SignInErrorCodeProto::Undefined)) },
                &session,
            )
        },
        Err(SignInError::InvalidUserName(_)) | Err(SignInError::InvalidPassword(_)) => ProtoResponse::new(
            BAD_REQUEST,
            SignInResponseProto { result: Some(SignInResult::Error(SignInErrorCodeProto::ValidationError)) },
        ),
        Err(SignInError::UserIsNotFound) | Err(SignInError::PasswordDoesNotMatchWithHash) =>
            ProtoResponse::new(
            BAD_REQUEST,
            SignInResponseProto {
                result: Some(SignInResult::Error(SignInErrorCodeProto::WrongCredentials)),
            },
        ),
        Err(SignInError::Other(_)) => ProtoResponse::new(
            INTERNAL_SERVER_ERROR,
            SignInResponseProto { result: Some(SignInResult::Error(SignInErrorCodeProto::Undefined)) },
        ),
    }
}

// ---------------------------------------------------------------- refresh
pub enum RefreshErrorCodeProto {
    Undefined,
    ValidationError,
    SessionNotFound,
    SessionInvalid,
}

pub enum RefreshResult {
    Success(AuthenticatedProto),
    Error(RefreshErrorCodeProto),
}

pub struct RefreshResponseProto {
    pub result: Option<RefreshResult>,
}

pub open spec fn refresh_error(code: RefreshErrorCodeProto) -> RefreshResponseProto {
    RefreshResponseProto { result: Some(RefreshResult::Error(code)) }
}

/// The answer to a session refresh: 200 with the user, a new token and the
/// session, or the refusal that fits the failure.
pub fn refresh_response(client_type: ClientType, result: Result<RefreshResponse, RefreshError>) -> (res:
    ProtoResponse<RefreshResponseProto>)
    ensures
        match result {
            Ok(r) => is_session_response(
                res,
                client_type,
                200,
                RefreshResponseProto {
                    result: Some(RefreshResult::Success(authenticated_proto_of(r.user, r.access_token))),
                },
                refresh_error(RefreshErrorCodeProto::Undefined),
                r.session,
            ),
            Err(RefreshError::IdDecode(_)) => is_plain_response(
                res,
                400,
                refresh_error(RefreshErrorCodeProto::ValidationError),
            ),
            Err(RefreshError::SessionIsNotFound) => is_plain_response(
                res,
                400,
                refresh_error(RefreshErrorCodeProto::SessionNotFound),
            ),
            Err(RefreshError::UserIsNotFound) | Err(RefreshError::SessionIsExpired) | Err(
                RefreshError::SessionIsRevoked,
            ) => is_plain_response(res, 400, refresh_error(RefreshErrorCodeProto::SessionInvalid)),
            Err(RefreshError::Other(_)) => is_plain_response(
                res,
                500,
                refresh_error(RefreshErrorCodeProto::Undefined),
            ),
        },
{
    match result {
        Ok(response) => {
            let session = response.session;
            respond_with_session(
                client_type,
                OK,
                RefreshResponseProto {
                    result: Some(
                        RefreshResult::Success(authenticated_proto(response.user, response.access_token)),
                    ),
                },
                RefreshResponseProto { result: Some(RefreshResult::Error(RefreshErrorCodeProto::Undefined)) },
                &session,
            )
        },
        Err(RefreshError::IdDecode(_)) => ProtoResponse::new(
            BAD_REQUEST,
            RefreshResponseProto {
                result: Some(RefreshResult::Error(RefreshErrorCodeProto::ValidationError)),
            },
        ),
        Err(RefreshError::SessionIsNotFound) => ProtoResponse::new(
            BAD_REQUEST,
            RefreshResponseProto {
                result: Some(RefreshResult::Error(RefreshErrorCodeProto::SessionNotFound)),
            },
        ),
        Err(RefreshError::UserIsNotFound) | Err(RefreshError::SessionIsExpired) | Err(
            RefreshError::SessionIsRevoked,
        ) => ProtoResponse::new(
            BAD_REQUEST,
            RefreshResponseProto {
                result: Some(RefreshResult::Error(RefreshErrorCodeProto::SessionInvalid)),
            },
        ),
        Err(RefreshError::Other(_)) => ProtoResponse::new(
            INTERNAL_SERVER_ERROR,
            RefreshResponseProto { result: Some(RefreshResult::Error(RefreshErrorCodeProto::Undefined)) },
        ),
    }
}

// ---------------------------------------------------------------- rotate key pairs
pub enum RotateKeypairsErrorCodeProto {
    Undefined,
    Unauthorized,
    Forbidden,
}

pub enum RotateKeypairsResult {
    Success,
    Error(RotateKeypairsErrorCodeProto),
}

pub struct RotateKeypairsResponseProto {
    pub result: Option<RotateKeypairsResult>,
}

pub open spec fn rotate_keypairs_error(code: RotateKeypairsErrorCodeProto) -> RotateKeypairsResponseProto {
    RotateKeypairsResponseProto { result: Some(RotateKeypairsResult::Error(code)) }
}

/// The user a key rotation is requested by, or the answer to a request
/// that carries no authorized user.
pub fn rotate_keypairs_caller(auth_result: Result<UserClaimsDto, AuthorizationExtractorError>) -> (res:
    Result<UserClaimsDto, ProtoResponse<RotateKeypairsResponseProto>>)
    ensures
        match auth_result {
            Ok(u) => res == Ok::<UserClaimsDto, ProtoResponse<RotateKeypairsResponseProto>>(u),
            Err(_) => res matches Err(r) && is_plain_response(
                r,
                401,
                rotate_keypairs_error(RotateKeypairsErrorCodeProto::Unauthorized),
            ),
        },
{
    match auth_result {
        Ok(user) => Ok(user),
        Err(_) => Err(
            ProtoResponse::new(
                UNAUTHORIZED,
                RotateKeypairsResponseProto {
                    result: Some(RotateKeypairsResult::Error(RotateKeypairsErrorCodeProto::Unauthorized)),
                },
            ),
        ),
    }
}

/// The answer to a key rotation: 200 when done, 403 when the user may not
/// rotate keys, 400 otherwise.
pub fn rotate_keypairs_response(result: Result<(), RotateKeyPairsError>) -> (res: ProtoResponse<
    RotateKeypairsResponseProto,
>)
    ensures
        match result {
            Ok(_) => is_plain_response(
                res,
                200,
                RotateKeypairsResponseProto { result: Some(RotateKeypairsResult::Success) },
            ),
            Err(RotateKeyPairsError::Forbidden(_)) => is_plain_response(
                res,
                403,
                rotate_keypairs_error(RotateKeypairsErrorCodeProto::Forbidden),
            ),
            Err(RotateKeyPairsError::Other(_)) => is_plain_response(
                res,
                400,
                rotate_keypairs_error(RotateKeypairsErrorCodeProto::Undefined),
            ),
        },
{
    match result {
        Ok(_) => ProtoResponse::new(
            OK,
            RotateKeypairsResponseProto { result: Some(RotateKeypairsResult::Success) },
        ),
        Err(RotateKeyPairsError::Forbidden(_)) => ProtoResponse::new(
            FORBIDDEN,
            RotateKeypairsResponseProto {
                result: Some(RotateKeypairsResult::Error(RotateKeypairsErrorCodeProto::Forbidden)),
            },
        ),
        Err(RotateKeyPairsError::Other(_)) => ProtoResponse::new(
            BAD_REQUEST,
            RotateKeypairsResponseProto {
                result: Some(RotateKeypairsResult::Error(RotateKeypairsErrorCodeProto::Undefined)),
            },
        ),
    }
}

// ---------------------------------------------------------------- public keys
pub enum GetPublicKeyErrorCodeProto {
    Undefined,
    KeypairNotFound,
    InvalidKeypairRequested,
}

pub enum GetPublicKeyResult {
    Success { public_key_pem: String },
    Error(GetPublicKeyErrorCodeProto),
}

pub struct GetPublicKeyResponseProto {
    pub result: Option<GetPublicKeyResult>,
}

pub open spec fn get_public_key_error(code: GetPublicKeyErrorCodeProto) -> GetPublicKeyResponseProto {
    GetPublicKeyResponseProto { result: Some(GetPublicKeyResult::Error(code)) }
}

/// The answer to a public key request: 200 with the key, 404 when there is
/// no such key pair, 400 when it is expired or revoked, 500 otherwise.
pub fn get_public_key_response(result: Result<GetPublicKeyResponse, GetPublicKeyError>) -> (res:
    ProtoResponse<GetPublicKeyResponseProto>)
    ensures
        match result {
            Ok(r) => is_plain_response(
                res,
                200,
                GetPublicKeyResponseProto {
                    result: Some(GetPublicKeyResult::Success { public_key_pem: r.public_key_pem }),
                },
            ),
            Err(GetPublicKeyError::KeyPairNotFound) => is_plain_response(
                res,
                404,
                get_public_key_error(GetPublicKeyErrorCodeProto::KeypairNotFound),
            ),
            Err(GetPublicKeyError::KeyPairIsExpired) | Err(GetPublicKeyError::KeyPairIsRevoked) =>
                is_plain_response(
                res,
                400,
                get_public_key_error(GetPublicKeyErrorCodeProto::InvalidKeypairRequested),
            ),
            Err(GetPublicKeyError::Other(_)) => is_plain_response(
                res,
                500,
                get_public_key_error(GetPublicKeyErrorCodeProto::Undefined),
            ),
        },
{
    match result {
        Ok(response) => ProtoResponse::new(
            OK,
            GetPublicKeyResponseProto {
                result: Some(GetPublicKeyResult::Success { public_key_pem: response.public_key_pem }),
            },
        ),
        Err(GetPublicKeyError::KeyPairNotFound) => ProtoResponse::new(
            NOT_FOUND,
            GetPublicKeyResponseProto {
                result: Some(GetPublicKeyResult::Error(GetPublicKeyErrorCodeProto::KeypairNotFound)),
            },
        ),
        Err(GetPublicKeyError::KeyPairIsExpired) | Err(GetPublicKeyError::KeyPairIsRevoked) =>
            ProtoResponse::new(
            BAD_REQUEST,
            GetPublicKeyResponseProto {
                result: Some(
                    GetPublicKeyResult::Error(GetPublicKeyErrorCodeProto::InvalidKeypairRequested),
                ),
            },
        ),
        Err(GetPublicKeyError::Other(_)) => ProtoResponse::new(
            INTERNAL_SERVER_ERROR,
            GetPublicKeyResponseProto {
                result: Some(GetPublicKeyResult::Error(GetPublicKeyErrorCodeProto::Undefined)),
            },
        ),
    }
}

} // verus!
