//! The request and response shapes of the token-issuing service, and
//! the capability a client of that service offers.

use vstd::prelude::*;
use crate::credentials::Credentials;
use crate::errors::RemoteError;

verus! {

/// A request for a session token.
#[derive(Debug, Clone, PartialEq, Eq)]
pub struct GetSessionTokenRequest {
    /// Identifier of the MFA device the caller authenticates with, if any.
    pub serial_number: Option<String>,
    /// The current one-time code of that device, if any.
    pub token_code: Option<String>,
    /// Requested lifetime of the issued credentials, in seconds.
    pub duration_seconds: Option<i64>,
}

/// A successful answer to [`GetSessionTokenRequest`].
#[derive(Debug, Clone, PartialEq, Eq)]
pub struct GetSessionTokenResponse {
    /// The issued credential record, when the service returned one.
    pub credentials: Option<Credentials>,
}

/// A request to assume a role.
#[derive(Debug, Clone, PartialEq, Eq)]
pub struct AssumeRoleRequest {
    /// The identifier of the role to assume.
    pub role_arn: String,
    /// An identifier for the assumed-role session.
    pub role_session_name: String,
    /// Requested lifetime of the issued credentials, in seconds.
    pub duration_seconds: Option<i64>,
    /// A value that a third party must supply to assume the role, if any.
    pub external_id: Option<String>,
    /// An inline policy that further restricts the session, if any.
    pub policy: Option<String>,
    /// Identifier of the MFA device the caller authenticates with, if any.
    pub serial_number: Option<String>,
    /// The current one-time code of that device, if any.
    pub token_code: Option<String>,
}

/// A successful answer to [`AssumeRoleRequest`].
#[derive(Debug, Clone, PartialEq, Eq)]
pub struct AssumeRoleResponse {
    /// The issued credential record, when the service returned one.
    pub credentials: Option<Credentials>,
}

/// A request to assume a role with a federated web identity.
#[derive(Debug, Clone, PartialEq, Eq)]
pub struct AssumeRoleWithWebIdentityRequest {
    /// The identity token obtained from the identity provider.
    pub web_identity_token: String,
    /// The host of the identity provider, for OAuth access tokens only.
    pub provider_id: Option<String>,
    /// The identifier of the role to assume.
    pub role_arn: String,
    /// An identifier for the assumed-role session.
    pub role_session_name: String,
    /// Requested lifetime of the issued credentials, in seconds.
    pub duration_seconds: Option<i64>,
    /// An inline policy that further restricts the session, if any.
    pub policy: Option<String>,
}

/// A successful answer to [`AssumeRoleWithWebIdentityRequest`].
#[derive(Debug, Clone, PartialEq, Eq)]
pub struct AssumeRoleWithWebIdentityResponse {
    /// The issued credential record, when the service returned one.
    pub credentials: Option<Credentials>,
    /// The subject of the presented identity token, when reported.
    pub subject_from_web_identity_token: Option<String>,
    /// The audience of the presented identity token, when reported.
    pub audience: Option<String>,
    /// The identity provider that issued the token, when reported.
    pub provider: Option<String>,
}

/// A client of the token-issuing service: the capability the providers
/// are constructed over. An implementation performs the remote call;
/// nothing is promised of its outcome, so everything a provider
/// guarantees holds for every implementation.
pub trait Sts {
    /// Requests a session token.
    fn get_session_token(&self, input: GetSessionTokenRequest) -> Result<
        GetSessionTokenResponse,
        RemoteError,
    >;

    /// Requests credentials for an assumed role.
    fn assume_role(&self, input: AssumeRoleRequest) -> Result<AssumeRoleResponse, RemoteError>;

    /// Requests credentials for a role assumed with a web identity.
    fn assume_role_with_web_identity(&self, input: AssumeRoleWithWebIdentityRequest) -> Result<
        AssumeRoleWithWebIdentityResponse,
        RemoteError,
    >;
}

} // verus!
