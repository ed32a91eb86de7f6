use sts_credentials::credentials::convert;
use sts_credentials::AwsCredentials;
use sts_credentials::ConversionError;
use sts_credentials::Credentials;
use sts_credentials::CredentialsError;
use sts_credentials::NewAwsCredsForStsCreds;

fn record(expiration: &str) -> Credentials {
    Credentials {
        access_key_id: "AKID".to_string(),
        secret_access_key: "wJalrXUt-example-secret".to_string(),
        session_token: "TOKEN".to_string(),
        expiration: expiration.to_string(),
    }
}

#[test]
fn convert_valid_expiration() {
    let creds = convert(record("2015-05-15T00:00:00Z")).unwrap();
    assert_eq!(creds.key, "AKID");
    assert_eq!(creds.secret, "wJalrXUt-example-secret");
    assert_eq!(creds.token, Some("TOKEN".to_string()));
    assert_eq!(creds.expires_at, Some(1431648000));
    assert!(creds.claims.is_empty());
}

#[test]
fn convert_space_separated_expiration() {
    let creds = convert(record("2015-05-15 00:00:00+00:00")).unwrap();
    assert_eq!(creds.expires_at, Some(1431648000));
}

#[test]
fn convert_unparseable_expiration() {
    let result = convert(record("not-a-date"));
    assert_eq!(result, Err(ConversionError::InvalidExpiration));
}

#[test]
fn convert_empty_expiration() {
    let result = convert(record(""));
    assert_eq!(result, Err(ConversionError::InvalidExpiration));
}

#[test]
fn new_for_credentials_matches_convert() {
    let creds = AwsCredentials::new_for_credentials(record("2015-05-15T00:00:00Z")).unwrap();
    assert_eq!(creds.key, "AKID");
    assert_eq!(creds.expires_at, Some(1431648000));
    assert!(creds.claims.is_empty());
}

#[test]
fn new_for_credentials_wraps_conversion_error() {
    let result = AwsCredentials::new_for_credentials(record("yesterday-ish"));
    assert_eq!(
        result,
        Err(CredentialsError::Conversion(ConversionError::InvalidExpiration))
    );
}

#[test]
fn insert_claim_overrides_earlier_binding() {
    let mut creds = AwsCredentials::new(
        "AKID".to_string(),
        "wJalrXUt-example-secret".to_string(),
        None,
        None,
    );
    creds.insert_claim("subject".to_string(), "first".to_string());
    creds.insert_claim("subject".to_string(), "second".to_string());
    let last = creds
        .claims
        .iter()
        .rev()
        .find(|(name, _)| name == "subject")
        .map(|(_, value)| value.clone());
    assert_eq!(last, Some("second".to_string()));
}
