//! Credential values and the conversion between the remote and the
//! local shape.
//!
//! An instant is carried as whole seconds since the Unix epoch; the
//! remote service reports expirations as date-time strings, and
//! [`convert`] turns such a record into an [`AwsCredentials`] value,
//! failing when the string does not parse.

use vstd::prelude::*;
use crate::errors::ConversionError;
use crate::errors::CredentialsError;

verus! {

/// A temporary-credential record as the remote service reports it.
#[derive(Debug, Clone, PartialEq, Eq)]
pub struct Credentials {
    /// The access key identifier.
    pub access_key_id: String,
    /// The secret access key.
    pub secret_access_key: String,
    /// The session token that must accompany the key pair.
    pub session_token: String,
    /// When the credentials expire, as a date-time string.
    pub expiration: String,
}

/// The instant, in whole seconds since the Unix epoch, that `s` denotes
/// when read as an absolute date-time, or `None` when `s` does not
/// parse as one.
pub uninterp spec fn parse_instant(s: Seq<char>) -> Option<i64>;

/// Relies on chrono: `str::parse::<DateTime<Utc>>` reads an absolute
/// date-time, and `DateTime::timestamp` yields its whole seconds since
/// the Unix epoch. Whether the string parses, and the instant it
/// denotes, depend on its characters alone.
#[verifier::external_body]
fn parse_expiration(s: &str) -> (r: Option<i64>)
    ensures
        r == parse_instant(s@),
{
    match s.parse::<chrono::DateTime<chrono::Utc>>() {
        Ok(t) => Some(t.timestamp()),
        Err(_) => None,
    }
}

/// The mapping that a sequence of claim entries denotes: each entry
/// binds its name to its value, and a later entry overrides an earlier
/// one of the same name.
pub open spec fn claims_of(entries: Seq<(String, String)>) -> Map<Seq<char>, Seq<char>>
    decreases entries.len(),
{
    if entries.len() == 0 {
        Map::empty()
    } else {
        claims_of(entries.drop_last()).insert(entries.last().0@, entries.last().1@)
    }
}

/// A local credential value: the key material, an optional expiry
/// instant in whole seconds since the Unix epoch, and identity claims.
#[derive(Debug, Clone, PartialEq, Eq)]
pub struct AwsCredentials {
    /// The access key identifier.
    pub key: String,
    /// The secret access key.
    pub secret: String,
    /// The session token, when the credentials are temporary.
    pub token: Option<String>,
    /// When the credentials expire, when known.
    pub expires_at: Option<i64>,
    /// Claim entries in insertion order; [`AwsCredentials::claims_map`]
    /// gives the mapping they denote.
    pub claims: Vec<(String, String)>,
}

impl AwsCredentials {
    /// The claims mapping this credential value carries.
    pub open spec fn claims_map(self) -> Map<Seq<char>, Seq<char>> {
        claims_of(self.claims@)
    }

    /// Builds a credential value with the given key material and
    /// expiry and no claims.
    pub fn new(key: String, secret: String, token: Option<String>, expires_at: Option<i64>) -> (c:
        AwsCredentials)
        ensures
            c.key == key,
            c.secret == secret,
            c.token == token,
            c.expires_at == expires_at,
            c.claims_map() == Map::<Seq<char>, Seq<char>>::empty(),
    {
        AwsCredentials { key, secret, token, expires_at, claims: Vec::new() }
    }

    /// Binds `name` to `value` in the claims mapping; an earlier
    /// binding of the same name is overridden. Everything else is left
    /// unchanged.
    pub fn insert_claim(&mut self, name: String, value: String)
        ensures
            final(self).claims_map() == old(self).claims_map().insert(name@, value@),
            final(self).key == old(self).key,
            final(self).secret == old(self).secret,
            final(self).token == old(self).token,
            final(self).expires_at == old(self).expires_at,
    {
        let ghost entries = self.claims@;
        self.claims.push((name, value));
        proof {
            assert(self.claims@.drop_last() =~= entries);
        }
    }
}

/// What [`convert`] yields for the remote record `remote`: the faithful
/// local value when the expiration parses, the conversion failure when
/// it does not.
pub open spec fn converted(remote: Credentials, r: Result<
    AwsCredentials,
    ConversionError,
>) -> bool {
    match parse_instant(remote.expiration@) {
        Some(t) => r matches Ok(c) && {
            &&& c.key == remote.access_key_id
            &&& c.secret == remote.secret_access_key
            &&& c.token == Some(remote.session_token)
            &&& c.expires_at == Some(t)
            &&& c.claims_map() == Map::<Seq<char>, Seq<char>>::empty()
        },
        None => r == Err::<AwsCredentials, ConversionError>(ConversionError::InvalidExpiration),
    }
}

/// Converts a remote temporary-credential record into a local
/// credential value. The key material and the session token are taken
/// over unchanged, the expiration string must parse as an absolute
/// date-time — a record whose expiration does not parse is rejected,
/// never returned with the expiry left out — and the claims mapping
/// starts empty.
pub fn convert(remote: Credentials) -> (r: Result<AwsCredentials, ConversionError>)
    ensures
        converted(remote, r),
{
    let Credentials { access_key_id, secret_access_key, session_token, expiration } = remote;
    match parse_expiration(expiration.as_str()) {
        Some(t) => Ok(
            AwsCredentials::new(access_key_id, secret_access_key, Some(session_token), Some(t)),
        ),
        None => Err(ConversionError::InvalidExpiration),
    }
}

/// Conversion from a remote temporary-credential record into a local
/// credential value, under the unified error type of the provider
/// contract.
pub trait NewAwsCredsForStsCreds: Sized {
    /// Converts `sts_creds` as [`convert`] does, reporting a parse
    /// failure as a conversion error.
    fn new_for_credentials(sts_creds: Credentials) -> (r: Result<AwsCredentials, CredentialsError>)
        ensures
            match parse_instant(sts_creds.expiration@) {
                Some(t) => r matches Ok(c) && {
                    &&& c.key == sts_creds.access_key_id
                    &&& c.secret == sts_creds.secret_access_key
                    &&& c.token == Some(sts_creds.session_token)
                    &&& c.expires_at == Some(t)
                    &&& c.claims_map() == Map::<Seq<char>, Seq<char>>::empty()
                },
                None => r == Err::<AwsCredentials, CredentialsError>(
                    CredentialsError::Conversion(ConversionError::InvalidExpiration),
                ),
            },
    ;
}

impl NewAwsCredsForStsCreds for AwsCredentials {
    fn new_for_credentials(sts_creds: Credentials) -> (r: Result<
        AwsCredentials,
        CredentialsError,
    >) {
        match convert(sts_creds) {
            Ok(c) => Ok(c),
            Err(e) => Err(CredentialsError::Conversion(e)),
        }
    }
}

} // verus!
