//! Credential providers for a remote token-issuing service.
//!
//! Three providers obtain temporary security credentials: one issues a
//! session token, one assumes a role, and one assumes a role with a
//! federated web identity. Each provider builds one request, hands it to
//! an injected client, and maps the outcome into an [`AwsCredentials`]
//! value or a descriptive error. The conversion of a remote
//! temporary-credential record into a local credential value is shared
//! by all three.

pub mod api;
pub mod credentials;
pub mod errors;
pub mod providers;

pub use credentials::AwsCredentials;
pub use credentials::Credentials;
pub use credentials::NewAwsCredsForStsCreds;
pub use errors::ConversionError;
pub use errors::CredentialsError;
pub use errors::RemoteError;
pub use providers::ProvideAwsCredentials;
pub use providers::StsAssumeRoleSessionCredentialsProvider;
pub use providers::StsSessionCredentialsProvider;
pub use providers::StsWebIdentityFederationSessionCredentialsProvider;
