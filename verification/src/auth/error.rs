//! Why a request or a configuration is not trusted.
use vstd::prelude::*;

verus! {

/// An authentication configuration that cannot be used.
#[derive(Debug)]
pub enum AuthError {
    UnsupportedMode(String),
    NoTrustedServers,
    InvalidPublicKey(String),
}

/// The mathematical counterpart of `AuthError`.
pub enum AuthErrorView {
    UnsupportedMode(Seq<char>),
    NoTrustedServers,
    InvalidPublicKey(Seq<char>),
}

impl View for AuthError {
    type V = AuthErrorView;

    open spec fn view(&self) -> AuthErrorView {
        match self {
            AuthError::UnsupportedMode(mode) => AuthErrorView::UnsupportedMode(mode@),
            AuthError::NoTrustedServers => AuthErrorView::NoTrustedServers,
            AuthError::InvalidPublicKey(key_id) => AuthErrorView::InvalidPublicKey(key_id@),
        }
    }
}

impl AuthErrorView {
    /// The message that tells a person what went wrong.
    pub open spec fn message(self) -> Seq<char> {
        match self {
            AuthErrorView::UnsupportedMode(mode) => "unsupported auth mode: "@ + mode,
            AuthErrorView::NoTrustedServers => "at least one trusted server key is required"@,
            AuthErrorView::InvalidPublicKey(key_id) => "invalid public key for "@ + key_id,
        }
    }
}

impl AuthError {
    /// The message that tells a person what went wrong.
    pub fn message(&self) -> (r: String)
        ensures
            r@ == self@.message(),
    {
        match self {
            AuthError::UnsupportedMode(mode) => {
                let mut out = "unsupported auth mode: ".to_owned();
                out.append(mode.as_str());
                out
            },
            AuthError::NoTrustedServers => "at least one trusted server key is required".to_owned(),
            AuthError::InvalidPublicKey(key_id) => {
                let mut out = "invalid public key for ".to_owned();
                out.append(key_id.as_str());
                out
            },
        }
    }
}

/// A request that is not trusted.
#[derive(Debug)]
pub enum AuthRejection {
    MissingAuthorization,
    InvalidAuthorizationHeader,
    InvalidKeyId,
    InvalidSignature,
    InvalidTimestamp,
    InvalidNonce,
    Replay,
    ContentShaMismatch,
    RequestTooLarge,
    InvalidBodyLimit,
    MissingPermission { server_name: String, permission: String },
}

/// The mathematical counterpart of `AuthRejection`.
pub enum AuthRejectionView {
    MissingAuthorization,
    InvalidAuthorizationHeader,
    InvalidKeyId,
    InvalidSignature,
    InvalidTimestamp,
    InvalidNonce,
    Replay,
    ContentShaMismatch,
    RequestTooLarge,
    InvalidBodyLimit,
    MissingPermission { server_name: Seq<char>, permission: Seq<char> },
}

impl View for AuthRejection {
    type V = AuthRejectionView;

    open spec fn view(&self) -> AuthRejectionView {
        match self {
            AuthRejection::MissingAuthorization => AuthRejectionView::MissingAuthorization,
            AuthRejection::InvalidAuthorizationHeader => AuthRejectionView::InvalidAuthorizationHeader,
            AuthRejection::InvalidKeyId => AuthRejectionView::InvalidKeyId,
            AuthRejection::InvalidSignature => AuthRejectionView::InvalidSignature,
            AuthRejection::InvalidTimestamp => AuthRejectionView::InvalidTimestamp,
            AuthRejection::InvalidNonce => AuthRejectionView::InvalidNonce,
            AuthRejection::Replay => AuthRejectionView::Replay,
            AuthRejection::ContentShaMismatch => AuthRejectionView::ContentShaMismatch,
            AuthRejection::RequestTooLarge => AuthRejectionView::RequestTooLarge,
            AuthRejection::InvalidBodyLimit => AuthRejectionView::InvalidBodyLimit,
            AuthRejection::MissingPermission { server_name, permission } => AuthRejectionView::MissingPermission { server_name: server_name@, permission: permission@ },
        }
    }
}

impl AuthRejectionView {
    /// The message that tells a person what went wrong.
    pub open spec fn message(self) -> Seq<char> {
        match self {
            AuthRejectionView::MissingAuthorization => "missing signed request authentication"@,
            AuthRejectionView::InvalidAuthorizationHeader => "invalid signed request authentication"@,
            AuthRejectionView::InvalidKeyId => "unknown signing key id"@,
            AuthRejectionView::InvalidSignature => "invalid request signature"@,
            AuthRejectionView::InvalidTimestamp => "invalid or expired request timestamp"@,
            AuthRejectionView::InvalidNonce => "invalid request nonce"@,
            AuthRejectionView::Replay => "request nonce was already used"@,
            AuthRejectionView::ContentShaMismatch => "request body checksum does not match"@,
            AuthRejectionView::RequestTooLarge => "signed request body is too large"@,
            AuthRejectionView::InvalidBodyLimit => "invalid signed request body limit"@,
            AuthRejectionView::MissingPermission { server_name, permission } => "server "@ + server_name + " does not have required permission "@ + permission,
        }
    }

    /// The error's code in protocol texts.
    pub open spec fn code(self) -> Seq<char> {
        match self {
            AuthRejectionView::MissingAuthorization => "auth_missing_authorization"@,
            AuthRejectionView::InvalidAuthorizationHeader => "auth_invalid_authorization_header"@,
            AuthRejectionView::InvalidKeyId => "auth_invalid_key_id"@,
            AuthRejectionView::InvalidSignature => "auth_invalid_signature"@,
            AuthRejectionView::InvalidTimestamp => "auth_invalid_timestamp"@,
            AuthRejectionView::InvalidNonce => "auth_invalid_nonce"@,
            AuthRejectionView::Replay => "auth_replay"@,
            AuthRejectionView::ContentShaMismatch => "auth_content_sha_mismatch"@,
            AuthRejectionView::RequestTooLarge => "auth_request_too_large"@,
            AuthRejectionView::InvalidBodyLimit => "auth_invalid_body_limit"@,
            AuthRejectionView::MissingPermission { .. } => "auth_missing_permission"@,
        }
    }

    /// The HTTP status that answers a rejected request.
    pub open spec fn status_code(self) -> u16 {
        match self {
            AuthRejectionView::MissingPermission { .. } => 403,
            AuthRejectionView::RequestTooLarge => 413,
            _ => 401,
        }
    }
}

impl AuthRejection {
    /// The message that tells a person what went wrong.
    pub fn message(&self) -> (r: String)
        ensures
            r@ == self@.message(),
    {
        match self {
            AuthRejection::MissingAuthorization => "missing signed request authentication".to_owned(),
            AuthRejection::InvalidAuthorizationHeader => "invalid signed request authentication".to_owned(),
            AuthRejection::InvalidKeyId => "unknown signing key id".to_owned(),
            AuthRejection::InvalidSignature => "invalid request signature".to_owned(),
            AuthRejection::InvalidTimestamp => "invalid or expired request timestamp".to_owned(),
            AuthRejection::InvalidNonce => "invalid request nonce".to_owned(),
            AuthRejection::Replay => "request nonce was already used".to_owned(),
            AuthRejection::ContentShaMismatch => "request body checksum does not match".to_owned(),
            AuthRejection::RequestTooLarge => "signed request body is too large".to_owned(),
            AuthRejection::InvalidBodyLimit => "invalid signed request body limit".to_owned(),
            AuthRejection::MissingPermission { server_name, permission } => {
                let mut out = "server ".to_owned();
                out.append(server_name.as_str());
                out.append(" does not have required permission ");
                out.append(permission.as_str());
                out
            },
        }
    }

    /// The error's code in protocol texts.
    pub fn code(&self) -> (r: &'static str)
        ensures
            r@ == self@.code(),
    {
        match self {
            AuthRejection::MissingAuthorization => "auth_missing_authorization",
            AuthRejection::InvalidAuthorizationHeader => "auth_invalid_authorization_header",
            AuthRejection::InvalidKeyId => "auth_invalid_key_id",
            AuthRejection::InvalidSignature => "auth_invalid_signature",
            AuthRejection::InvalidTimestamp => "auth_invalid_timestamp",
            AuthRejection::InvalidNonce => "auth_invalid_nonce",
            AuthRejection::Replay => "auth_replay",
            AuthRejection::ContentShaMismatch => "auth_content_sha_mismatch",
            AuthRejection::RequestTooLarge => "auth_request_too_large",
            AuthRejection::InvalidBodyLimit => "auth_invalid_body_limit",
            AuthRejection::MissingPermission { .. } => "auth_missing_permission",
        }
    }

    /// The HTTP status that answers a rejected request.
    pub fn status_code(&self) -> (r: u16)
        ensures
            r == self@.status_code(),
    {
        match self {
            AuthRejection::MissingPermission { .. } => 403,
            AuthRejection::RequestTooLarge => 413,
            _ => 401,
        }
    }
}

/// What a client is told of a rejection.
#[derive(Debug)]
pub struct AuthErrorResponse {
    pub code: &'static str,
    pub message: String,
}

impl AuthErrorResponse {
    pub fn from_rejection(rejection: &AuthRejection) -> (r: Self)
        ensures
            r.code@ == rejection@.code(),
            r.message@ == rejection@.message(),
    {
        AuthErrorResponse { code: rejection.code(), message: rejection.message() }
    }
}

} // verus!
