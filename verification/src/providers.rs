//! The three credential providers.
//!
//! Each provider owns a client of the token-issuing service and its
//! configuration, builds one request per call, hands it to the client,
//! and maps the outcome into an [`AwsCredentials`] value or an error.
//! The request each provider issues, and the mapping of every possible
//! outcome, are stated exactly; what the remote service answers is not
//! constrained, so the contracts hold for every client implementation.

use vstd::prelude::*;
use crate::api::AssumeRoleRequest;
use crate::api::AssumeRoleResponse;
use crate::api::AssumeRoleWithWebIdentityRequest;
use crate::api::AssumeRoleWithWebIdentityResponse;
use crate::api::GetSessionTokenRequest;
use crate::api::GetSessionTokenResponse;
use crate::api::Sts;
use crate::credentials::AwsCredentials;
use crate::credentials::Credentials;
use crate::credentials::convert;
use crate::credentials::parse_instant;
use crate::errors::ConversionError;
use crate::errors::CredentialsError;
use crate::errors::RemoteError;

verus! {

/// Default lifetime, in seconds, of a session token and of a
/// web-identity session.
pub const DEFAULT_DURATION_SECONDS: i64 = 3600;

/// Default lifetime, in seconds, of an assumed-role session.
pub const DEFAULT_ROLE_DURATION_SECONDS: i64 = 900;

/// The session duration a provider is configured with: the requested
/// one, or `fallback` when none was requested.
pub open spec fn duration_or(requested: Option<i64>, fallback: i64) -> i64 {
    match requested {
        Some(seconds) => seconds,
        None => fallback,
    }
}

/// Clones an optional string, preserving its value.
fn clone_opt(s: &Option<String>) -> (r: Option<String>)
    ensures
        r == *s,
{
    match s {
        Some(v) => Some(v.clone()),
        None => None,
    }
}

/// The capability the providers offer their consumers: ask once and
/// receive local credentials, or a descriptive error.
pub trait ProvideAwsCredentials {
    /// Issues one remote call and maps its outcome into a local
    /// credential value. Credentials are never returned without an
    /// expiry.
    fn credentials(&self) -> (r: Result<AwsCredentials, CredentialsError>)
        ensures
            r matches Ok(c) ==> c.expires_at is Some,
    ;
}

/// What mapping a successful response's credential payload yields: a
/// missing payload is the `MissingCredentials` failure, a present one
/// is converted as [`convert`] does, under the unified error type.
pub open spec fn mapped_payload(payload: Option<Credentials>, r: Result<
    AwsCredentials,
    CredentialsError,
>) -> bool {
    match payload {
        None => r == Err::<AwsCredentials, CredentialsError>(CredentialsError::MissingCredentials),
        Some(c) => match parse_instant(c.expiration@) {
            Some(t) => r matches Ok(a) && {
                &&& a.key == c.access_key_id
                &&& a.secret == c.secret_access_key
                &&& a.token == Some(c.session_token)
                &&& a.expires_at == Some(t)
                &&& a.claims_map() == Map::<Seq<char>, Seq<char>>::empty()
            },
            None => r == Err::<AwsCredentials, CredentialsError>(
                CredentialsError::Conversion(ConversionError::InvalidExpiration),
            ),
        },
    }
}

/// Maps a successful response's credential payload into local
/// credentials: fails with `MissingCredentials` when the payload is
/// absent, otherwise converts it. Shared by all three providers.
pub fn credentials_from_payload(payload: Option<Credentials>) -> (r: Result<
    AwsCredentials,
    CredentialsError,
>)
    ensures
        mapped_payload(payload, r),
{
    match payload {
        None => Err(CredentialsError::MissingCredentials),
        Some(record) => match convert(record) {
            Ok(creds) => Ok(creds),
            Err(e) => Err(CredentialsError::Conversion(e)),
        },
    }
}

/// Provider that issues a session token, optionally MFA-verified.
///
/// Holds the MFA device serial it was constructed with and a mutable
/// one-time code; the owner must store a fresh code before each call
/// that needs one — the code is not advanced automatically.
pub struct StsSessionCredentialsProvider<C> {
    /// The client the remote call is delegated to.
    pub sts_client: C,
    /// Lifetime, in seconds, requested for issued tokens.
    pub session_duration_seconds: i64,
    /// Identifier of the MFA device to authenticate with, if any.
    pub mfa_serial: Option<String>,
    /// The current one-time code of that device, if any.
    pub mfa_code: Option<String>,
}

/// How one remote session-token outcome maps to a provider result: a
/// remote error is carried unchanged, a success is mapped through
/// [`mapped_payload`].
pub open spec fn mapped_session_outcome(
    outcome: Result<GetSessionTokenResponse, RemoteError>,
    r: Result<AwsCredentials, CredentialsError>,
) -> bool {
    match outcome {
        Err(e) => r == Err::<AwsCredentials, CredentialsError>(CredentialsError::Remote(e)),
        Ok(response) => mapped_payload(response.credentials, r),
    }
}

/// Maps one remote session-token outcome into a provider result.
pub fn credentials_from_session_outcome(outcome: Result<
    GetSessionTokenResponse,
    RemoteError,
>) -> (r: Result<AwsCredentials, CredentialsError>)
    ensures
        mapped_session_outcome(outcome, r),
{
    match outcome {
        Err(e) => Err(CredentialsError::Remote(e)),
        Ok(response) => credentials_from_payload(response.credentials),
    }
}

impl<C: Sts> StsSessionCredentialsProvider<C> {
    /// Builds a provider over `sts_client` that requests tokens living
    /// `duration_seconds` seconds — one hour when unset — and
    /// authenticates with the MFA device `mfa_serial`, if given. No
    /// MFA code is stored yet.
    pub fn new(sts_client: C, duration_seconds: Option<i64>, mfa_serial: Option<String>) -> (p:
        Self)
        ensures
            p.sts_client == sts_client,
            p.session_duration_seconds == duration_or(duration_seconds, DEFAULT_DURATION_SECONDS),
            p.mfa_serial == mfa_serial,
            p.mfa_code is None,
    {
        StsSessionCredentialsProvider {
            sts_client,
            session_duration_seconds: match duration_seconds {
                Some(seconds) => seconds,
                None => DEFAULT_DURATION_SECONDS,
            },
            mfa_serial,
            mfa_code: None,
        }
    }

    /// Stores the MFA code used by subsequent requests. Immediate and
    /// local: no request is issued.
    pub fn set_mfa_code(&mut self, code: String)
        ensures
            final(self).mfa_code == Some(code),
            final(self).sts_client == old(self).sts_client,
            final(self).session_duration_seconds == old(self).session_duration_seconds,
            final(self).mfa_serial == old(self).mfa_serial,
    {
        self.mfa_code = Some(code);
    }

    /// Removes the stored MFA code. Immediate and local: no request is
    /// issued.
    pub fn clear_mfa_code(&mut self)
        ensures
            final(self).mfa_code is None,
            final(self).sts_client == old(self).sts_client,
            final(self).session_duration_seconds == old(self).session_duration_seconds,
            final(self).mfa_serial == old(self).mfa_serial,
    {
        self.mfa_code = None;
    }

    /// The request one call of `get_session_token` issues: exactly the
    /// configured MFA serial, the currently stored MFA code, and the
    /// configured duration.
    pub fn session_token_request(&self) -> (r: GetSessionTokenRequest)
        ensures
            r.serial_number == self.mfa_serial,
            r.token_code == self.mfa_code,
            r.duration_seconds == Some(self.session_duration_seconds),
    {
        GetSessionTokenRequest {
            serial_number: clone_opt(&self.mfa_serial),
            token_code: clone_opt(&self.mfa_code),
            duration_seconds: Some(self.session_duration_seconds),
        }
    }

    /// Issues one session-token request, built by
    /// [`Self::session_token_request`], and returns the client's
    /// outcome unchanged — a direct passthrough, never retried.
    pub fn get_session_token(&self) -> Result<GetSessionTokenResponse, RemoteError> {
        let request = self.session_token_request();
        self.sts_client.get_session_token(request)
    }
}

impl<C: Sts> ProvideAwsCredentials for StsSessionCredentialsProvider<C> {
    /// Calls `get_session_token` once and maps its outcome: a remote
    /// failure is carried in the `Remote` error, a response without
    /// payload fails with `MissingCredentials`, and a payload is
    /// converted.
    fn credentials(&self) -> (r: Result<AwsCredentials, CredentialsError>)
        ensures
            exists|outcome: Result<GetSessionTokenResponse, RemoteError>|
                mapped_session_outcome(outcome, r),
    {
        let outcome = self.get_session_token();
        let ghost witness = outcome;
        let r = credentials_from_session_outcome(outcome);
        proof {
            assert(mapped_session_outcome(witness, r));
        }
        r
    }
}

/// Provider that assumes a role, optionally MFA-verified.
///
/// Holds the MFA device serial it was constructed with and a mutable
/// one-time code; the owner must store a fresh code before each call
/// that needs one — the code is not advanced automatically.
pub struct StsAssumeRoleSessionCredentialsProvider<C> {
    /// The client the remote call is delegated to.
    pub sts_client: C,
    /// The identifier of the role to assume.
    pub role_arn: String,
    /// An identifier for the assumed-role session.
    pub session_name: String,
    /// A value that a third party must supply to assume the role, if any.
    pub external_id: Option<String>,
    /// Lifetime, in seconds, requested for issued credentials.
    pub session_duration_seconds: i64,
    /// An inline policy that further restricts the session, if any.
    pub scope_down_policy: Option<String>,
    /// Identifier of the MFA device to authenticate with, if any.
    pub mfa_serial: Option<String>,
    /// The current one-time code of that device, if any.
    pub mfa_code: Option<String>,
}

/// How one remote assume-role outcome maps to a provider result: a
/// remote error is carried unchanged, a success is mapped through
/// [`mapped_payload`].
pub open spec fn mapped_assume_role_outcome(
    outcome: Result<AssumeRoleResponse, RemoteError>,
    r: Result<AwsCredentials, CredentialsError>,
) -> bool {
    match outcome {
        Err(e) => r == Err::<AwsCredentials, CredentialsError>(CredentialsError::Remote(e)),
        Ok(response) => mapped_payload(response.credentials, r),
    }
}

/// Maps one remote assume-role outcome into a provider result.
pub fn credentials_from_assume_role_outcome(outcome: Result<AssumeRoleResponse, RemoteError>) -> (r:
    Result<AwsCredentials, CredentialsError>)
    ensures
        mapped_assume_role_outcome(outcome, r),
{
    match outcome {
        Err(e) => Err(CredentialsError::Remote(e)),
        Ok(response) => credentials_from_payload(response.credentials),
    }
}

impl<C: Sts> StsAssumeRoleSessionCredentialsProvider<C> {
    /// Builds a provider over `sts_client` for the role `role_arn` and
    /// the session `session_name`, requesting credentials that live
    /// `session_duration_seconds` seconds — fifteen minutes when unset.
    /// External id, scoping policy and MFA serial are carried when
    /// given; no MFA code is stored yet.
    pub fn new(
        sts_client: C,
        role_arn: String,
        session_name: String,
        external_id: Option<String>,
        session_duration_seconds: Option<i64>,
        scope_down_policy: Option<String>,
        mfa_serial: Option<String>,
    ) -> (p: Self)
        ensures
            p.sts_client == sts_client,
            p.role_arn == role_arn,
            p.session_name == session_name,
            p.external_id == external_id,
            p.session_duration_seconds == duration_or(
                session_duration_seconds,
                DEFAULT_ROLE_DURATION_SECONDS,
            ),
            p.scope_down_policy == scope_down_policy,
            p.mfa_serial == mfa_serial,
            p.mfa_code is None,
    {
        StsAssumeRoleSessionCredentialsProvider {
            sts_client,
            role_arn,
            session_name,
            external_id,
            session_duration_seconds: match session_duration_seconds {
                Some(seconds) => seconds,
                None => DEFAULT_ROLE_DURATION_SECONDS,
            },
            scope_down_policy,
            mfa_serial,
            mfa_code: None,
        }
    }

    /// Stores the MFA code used by subsequent requests. Immediate and
    /// local: no request is issued.
    pub fn set_mfa_code(&mut self, code: String)
        ensures
            final(self).mfa_code == Some(code),
            final(self).sts_client == old(self).sts_client,
            final(self).role_arn == old(self).role_arn,
            final(self).session_name == old(self).session_name,
            final(self).external_id == old(self).external_id,
            final(self).session_duration_seconds == old(self).session_duration_seconds,
            final(self).scope_down_policy == old(self).scope_down_policy,
            final(self).mfa_serial == old(self).mfa_serial,
    {
        self.mfa_code = Some(code);
    }

    /// Removes the stored MFA code. Immediate and local: no request is
    /// issued.
    pub fn clear_mfa_code(&mut self)
        ensures
            final(self).mfa_code is None,
            final(self).sts_client == old(self).sts_client,
            final(self).role_arn == old(self).role_arn,
            final(self).session_name == old(self).session_name,
            final(self).external_id == old(self).external_id,
            final(self).session_duration_seconds == old(self).session_duration_seconds,
            final(self).scope_down_policy == old(self).scope_down_policy,
            final(self).mfa_serial == old(self).mfa_serial,
    {
        self.mfa_code = None;
    }

    /// The request one call of `assume_role` issues: exactly the
    /// configured role, session name, duration, external id, scoping
    /// policy, MFA serial and the currently stored MFA code.
    pub fn assume_role_request(&self) -> (r: AssumeRoleRequest)
        ensures
            r.role_arn == self.role_arn,
            r.role_session_name == self.session_name,
            r.duration_seconds == Some(self.session_duration_seconds),
            r.external_id == self.external_id,
            r.policy == self.scope_down_policy,
            r.serial_number == self.mfa_serial,
            r.token_code == self.mfa_code,
    {
        AssumeRoleRequest {
            role_arn: self.role_arn.clone(),
            role_session_name: self.session_name.clone(),
            duration_seconds: Some(self.session_duration_seconds),
            external_id: clone_opt(&self.external_id),
            policy: clone_opt(&self.scope_down_policy),
            serial_number: clone_opt(&self.mfa_serial),
            token_code: clone_opt(&self.mfa_code),
        }
    }

    /// Issues one assume-role request, built by
    /// [`Self::assume_role_request`], and maps the outcome: a remote
    /// failure is carried in the `Remote` error, a response without
    /// payload fails with `MissingCredentials`, and a payload is
    /// converted. Never retried.
    pub fn assume_role(&self) -> (r: Result<AwsCredentials, CredentialsError>)
        ensures
            exists|outcome: Result<AssumeRoleResponse, RemoteError>|
                mapped_assume_role_outcome(outcome, r),
    {
        let request = self.assume_role_request();
        let outcome = self.sts_client.assume_role(request);
        let ghost witness = outcome;
        let r = credentials_from_assume_role_outcome(outcome);
        proof {
            assert(mapped_assume_role_outcome(witness, r));
        }
        r
    }
}

impl<C: Sts> ProvideAwsCredentials for StsAssumeRoleSessionCredentialsProvider<C> {
    /// Calls `assume_role` once and returns its result.
    fn credentials(&self) -> (r: Result<AwsCredentials, CredentialsError>)
        ensures
            exists|outcome: Result<AssumeRoleResponse, RemoteError>|
                mapped_assume_role_outcome(outcome, r),
    {
        self.assume_role()
    }
}

/// Provider that assumes a role with a federated web identity. MFA
/// does not apply to this flow.
pub struct StsWebIdentityFederationSessionCredentialsProvider<C> {
    /// The client the remote call is delegated to.
    pub sts_client: C,
    /// The identity token obtained from the identity provider.
    pub wif_token: String,
    /// The host of the identity provider, for OAuth access tokens only.
    pub wif_provider: Option<String>,
    /// The identifier of the role to assume.
    pub role_arn: String,
    /// An identifier for the assumed-role session.
    pub session_name: String,
    /// Lifetime, in seconds, requested for issued credentials.
    pub session_duration_seconds: i64,
    /// An inline policy that further restricts the session, if any.
    pub scope_down_policy: Option<String>,
}

/// The claims a web-identity response contributes to the issued
/// credentials: the token's subject under `subject`, its audience
/// under `audience`, and the issuing provider under `issuer` — each
/// when the response carries it, each independently of the others.
pub open spec fn web_identity_claims(resp: AssumeRoleWithWebIdentityResponse) -> Map<
    Seq<char>,
    Seq<char>,
> {
    let with_subject = match resp.subject_from_web_identity_token {
        Some(s) => Map::<Seq<char>, Seq<char>>::empty().insert("subject"@, s@),
        None => Map::<Seq<char>, Seq<char>>::empty(),
    };
    let with_audience = match resp.audience {
        Some(a) => with_subject.insert("audience"@, a@),
        None => with_subject,
    };
    match resp.provider {
        Some(p) => with_audience.insert("issuer"@, p@),
        None => with_audience,
    }
}

/// The claims mapping of a web-identity response holds exactly the
/// claims the response carries: `subject`, `audience` and `issuer` are
/// bound — to the token's subject, its audience and the issuing
/// provider — precisely when the response reports them, each
/// independently of the others, and nothing else is ever bound.
pub proof fn lemma_web_identity_claims_exact(resp: AssumeRoleWithWebIdentityResponse)
    ensures
        web_identity_claims(resp).contains_key("subject"@) <==> resp.subject_from_web_identity_token
            is Some,
        web_identity_claims(resp).contains_key("audience"@) <==> resp.audience is Some,
        web_identity_claims(resp).contains_key("issuer"@) <==> resp.provider is Some,
        resp.subject_from_web_identity_token matches Some(s) ==> web_identity_claims(
            resp,
        )["subject"@] == s@,
        resp.audience matches Some(a) ==> web_identity_claims(resp)["audience"@] == a@,
        resp.provider matches Some(p) ==> web_identity_claims(resp)["issuer"@] == p@,
        forall|name: Seq<char>| #[trigger]
            web_identity_claims(resp).contains_key(name) ==> name == "subject"@ || name
                == "audience"@ || name == "issuer"@,
{
    reveal_strlit("subject");
    reveal_strlit("audience");
    reveal_strlit("issuer");
    assert("subject"@.len() == 7);
    assert("audience"@.len() == 8);
    assert("issuer"@.len() == 6);
}

/// What mapping a successful web-identity response yields: the payload
/// is mapped as [`mapped_payload`] does, and a converted credential
/// additionally carries [`web_identity_claims`].
pub open spec fn mapped_web_identity_response(
    resp: AssumeRoleWithWebIdentityResponse,
    r: Result<AwsCredentials, CredentialsError>,
) -> bool {
    match resp.credentials {
        None => r == Err::<AwsCredentials, CredentialsError>(CredentialsError::MissingCredentials),
        Some(c) => match parse_instant(c.expiration@) {
            Some(t) => r matches Ok(a) && {
                &&& a.key == c.access_key_id
                &&& a.secret == c.secret_access_key
                &&& a.token == Some(c.session_token)
                &&& a.expires_at == Some(t)
                &&& a.claims_map() == web_identity_claims(resp)
            },
            None => r == Err::<AwsCredentials, CredentialsError>(
                CredentialsError::Conversion(ConversionError::InvalidExpiration),
            ),
        },
    }
}

/// Maps a successful web-identity response into a provider result:
/// converts the payload, then binds the claims the response carries.
pub fn credentials_from_web_identity_response(resp: AssumeRoleWithWebIdentityResponse) -> (r:
    Result<AwsCredentials, CredentialsError>)
    ensures
        mapped_web_identity_response(resp, r),
{
    let ghost whole = resp;
    let AssumeRoleWithWebIdentityResponse {
        credentials: payload,
        subject_from_web_identity_token,
        audience,
        provider,
    } = resp;
    match credentials_from_payload(payload) {
        Err(e) => Err(e),
        Ok(mut creds) => {
            if let Some(subject) = subject_from_web_identity_token {
                creds.insert_claim("subject".to_owned(), subject);
            }
            if let Some(audience_value) = audience {
                creds.insert_claim("audience".to_owned(), audience_value);
            }
            if let Some(issuer) = provider {
                creds.insert_claim("issuer".to_owned(), issuer);
            }
            proof {
                assert(creds.claims_map() == web_identity_claims(whole));
            }
            Ok(creds)
        },
    }
}

/// How one remote web-identity outcome maps to a provider result: a
/// remote error is carried unchanged, a success is mapped through
/// [`mapped_web_identity_response`].
pub open spec fn mapped_web_identity_outcome(
    outcome: Result<AssumeRoleWithWebIdentityResponse, RemoteError>,
    r: Result<AwsCredentials, CredentialsError>,
) -> bool {
    match outcome {
        Err(e) => r == Err::<AwsCredentials, CredentialsError>(CredentialsError::Remote(e)),
        Ok(response) => mapped_web_identity_response(response, r),
    }
}

/// Maps one remote web-identity outcome into a provider result.
pub fn credentials_from_web_identity_outcome(outcome: Result<
    AssumeRoleWithWebIdentityResponse,
    RemoteError,
>) -> (r: Result<AwsCredentials, CredentialsError>)
    ensures
        mapped_web_identity_outcome(outcome, r),
{
    match outcome {
        Err(e) => Err(CredentialsError::Remote(e)),
        Ok(response) => credentials_from_web_identity_response(response),
    }
}

impl<C: Sts> StsWebIdentityFederationSessionCredentialsProvider<C> {
    /// Builds a provider over `sts_client` that presents `wif_token` —
    /// issued by the host `wif_provider`, when given — to assume the
    /// role `role_arn` under the session `session_name`, requesting
    /// credentials that live `session_duration_seconds` seconds — one
    /// hour when unset — restricted by `scope_down_policy`, when given.
    pub fn new(
        sts_client: C,
        wif_token: String,
        wif_provider: Option<String>,
        role_arn: String,
        session_name: String,
        session_duration_seconds: Option<i64>,
        scope_down_policy: Option<String>,
    ) -> (p: Self)
        ensures
            p.sts_client == sts_client,
            p.wif_token == wif_token,
            p.wif_provider == wif_provider,
            p.role_arn == role_arn,
            p.session_name == session_name,
            p.session_duration_seconds == duration_or(
                session_duration_seconds,
                DEFAULT_DURATION_SECONDS,
            ),
            p.scope_down_policy == scope_down_policy,
    {
        StsWebIdentityFederationSessionCredentialsProvider {
            sts_client,
            wif_token,
            wif_provider,
            role_arn,
            session_name,
            session_duration_seconds: match session_duration_seconds {
                Some(seconds) => seconds,
                None => DEFAULT_DURATION_SECONDS,
            },
            scope_down_policy,
        }
    }

    /// The request one call of `assume_role_with_web_identity` issues:
    /// exactly the configured token, provider host, role, session
    /// name, duration and scoping policy.
    pub fn web_identity_request(&self) -> (r: AssumeRoleWithWebIdentityRequest)
        ensures
            r.web_identity_token == self.wif_token,
            r.provider_id == self.wif_provider,
            r.role_arn == self.role_arn,
            r.role_session_name == self.session_name,
            r.duration_seconds == Some(self.session_duration_seconds),
            r.policy == self.scope_down_policy,
    {
        AssumeRoleWithWebIdentityRequest {
            web_identity_token: self.wif_token.clone(),
            provider_id: clone_opt(&self.wif_provider),
            role_arn: self.role_arn.clone(),
            role_session_name: self.session_name.clone(),
            duration_seconds: Some(self.session_duration_seconds),
            policy: clone_opt(&self.scope_down_policy),
        }
    }

    /// Issues one web-identity request, built by
    /// [`Self::web_identity_request`], and maps the outcome: a remote
    /// failure is carried in the `Remote` error, a response without
    /// payload fails with `MissingCredentials`, and a payload is
    /// converted and enriched with the claims the response carries.
    /// Never retried.
    pub fn assume_role_with_web_identity(&self) -> (r: Result<AwsCredentials, CredentialsError>)
        ensures
            exists|outcome: Result<AssumeRoleWithWebIdentityResponse, RemoteError>|
                mapped_web_identity_outcome(outcome, r),
    {
        let request = self.web_identity_request();
        let outcome = self.sts_client.assume_role_with_web_identity(request);
        let ghost witness = outcome;
        let r = credentials_from_web_identity_outcome(outcome);
        proof {
            assert(mapped_web_identity_outcome(witness, r));
        }
        r
    }
}

impl<C: Sts> ProvideAwsCredentials for StsWebIdentityFederationSessionCredentialsProvider<C> {
    /// Calls `assume_role_with_web_identity` once and returns its
    /// result.
    fn credentials(&self) -> (r: Result<AwsCredentials, CredentialsError>)
        ensures
            exists|outcome: Result<AssumeRoleWithWebIdentityResponse, RemoteError>|
                mapped_web_identity_outcome(outcome, r),
    {
        self.assume_role_with_web_identity()
    }
}

} // verus!
