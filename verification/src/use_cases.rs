//! What the service's use cases hand back to the HTTP layer: the data of a
//! successful call and the kinds of failure the layer tells apart.

use vstd::prelude::*;

use crate::errors::ErrorBoxed;

verus! {

/// The claims of an authenticated user.
pub struct UserClaimsDto {
    pub id: String,
    pub name: String,
}

/// A signed access token and the time it expires.
pub struct AccessTokenDto {
    pub signed_access_token: String,
    pub signed_access_token_expires_at_unix_timestamp: i64,
}

/// A session and the time it expires.
pub struct SessionDto {
    pub session_id: String,
    pub session_expires_at_unix_timestamp: i64,
}

pub struct SignUpResponse {
    pub user: UserClaimsDto,
    pub access_token: AccessTokenDto,
    pub session: SessionDto,
}

pub struct SignInResponse {
    pub user: UserClaimsDto,
    pub access_token: AccessTokenDto,
    pub session: SessionDto,
}

pub struct RefreshResponse {
    pub user: UserClaimsDto,
    pub access_token: AccessTokenDto,
    pub session: SessionDto,
}

pub struct GetPublicKeyResponse {
    pub public_key_pem: String,
}

pub struct AuthorizationResponse {
    pub user: UserClaimsDto,
}

pub enum SignUpError {
    InvalidUserName(ErrorBoxed),
    InvalidPassword(ErrorBoxed),
    UserAlreadyExists,
    Other(ErrorBoxed),
}

pub enum SignInError {
    InvalidUserName(ErrorBoxed),
    InvalidPassword(ErrorBoxed),
    UserIsNotFound,
    PasswordDoesNotMatchWithHash,
    Other(ErrorBoxed),
}

pub enum RefreshError {
    IdDecode(ErrorBoxed),
    SessionIsNotFound,
    UserIsNotFound,
    SessionIsExpired,
    SessionIsRevoked,
    Other(ErrorBoxed),
}

pub enum RotateKeyPairsError {
    Forbidden(ErrorBoxed),
    Other(ErrorBoxed),
}

pub enum GetPublicKeyError {
    KeyPairNotFound,
    KeyPairIsExpired,
    KeyPairIsRevoked,
    Other(ErrorBoxed),
}

pub enum AuthorizationError {
    ExtractKeyId(ErrorBoxed),
    AccessTokenVerification(ErrorBoxed),
    KeyPairNotFound,
    KeyPairExpired,
    KeyPairRevoked,
    Other(ErrorBoxed),
}

} // verus!
