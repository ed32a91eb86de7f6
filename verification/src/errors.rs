//! The error values that the providers surface.

use vstd::prelude::*;

verus! {

/// Error reported by the remote token-issuing call, distinguishing
/// transport failures from service-reported API errors. Never retried
/// at this layer.
#[derive(Debug, Clone, PartialEq, Eq)]
pub enum RemoteError {
    /// The service answered with an API-level error, described by the
    /// carried text.
    Service(String),
    /// The request never completed: the transport failed before a
    /// service answer arrived.
    Transport(String),
}

/// Failure to convert a remote temporary-credential record into a
/// local credential value.
#[derive(Debug, Clone, PartialEq, Eq)]
pub enum ConversionError {
    /// The record's expiration string could not be parsed as an
    /// absolute date-time.
    InvalidExpiration,
}

/// The unified error surfaced to generic callers of
/// [`credentials`](crate::providers::ProvideAwsCredentials::credentials).
#[derive(Debug, Clone, PartialEq, Eq)]
pub enum CredentialsError {
    /// The remote call failed; the cause is carried unchanged.
    Remote(RemoteError),
    /// The remote call succeeded but the response carried no
    /// credential payload.
    MissingCredentials,
    /// The response carried a credential payload that could not be
    /// converted.
    Conversion(ConversionError),
}

} // verus!
