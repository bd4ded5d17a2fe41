//! The part of the AWS Secrets Manager backend that computes: the choice of
//! credentials and of the payload of a secret.
use vstd::prelude::*;

verus! {

/// Why the AWS backend cannot be used.
#[derive(Debug, Clone, PartialEq, Eq)]
pub enum AwsError {
    /// An access key id was given without its secret access key.
    MissingSecretAccessKey,
    /// The secret holds neither a string nor binary data.
    EmptySecret,
}

/// The payload of a secret value, to be read as a JSON document.
#[derive(Debug, PartialEq, Eq)]
pub enum SecretPayload {
    Text(String),
    Binary(Vec<u8>),
}

/// The static credentials to use: an access key id with its secret, or none
/// (the default credential chain) when no key id is given.
pub fn static_credentials(access_key_id: Option<String>, secret_access_key: Option<String>) -> (r:
    Result<Option<(String, String)>, AwsError>)
    ensures
        access_key_id is None ==> r == Ok::<Option<(String, String)>, AwsError>(None),
        access_key_id is Some && secret_access_key is Some ==> r == Ok::<
            Option<(String, String)>,
            AwsError,
        >(Some((access_key_id->Some_0, secret_access_key->Some_0))),
        access_key_id is Some && secret_access_key is None ==> r == Err::<
            Option<(String, String)>,
            AwsError,
        >(AwsError::MissingSecretAccessKey),
{
    match (access_key_id, secret_access_key) {
        (None, _) => Ok(None),
        (Some(id), Some(secret)) => Ok(Some((id, secret))),
        (Some(_), None) => Err(AwsError::MissingSecretAccessKey),
    }
}

/// The payload of a secret value: its string when it has one, else its
/// binary data.
pub fn secret_payload(secret_string: Option<String>, secret_binary: Option<Vec<u8>>) -> (r: Result<
    SecretPayload,
    AwsError,
>)
    ensures
        secret_string is Some ==> r == Ok::<SecretPayload, AwsError>(
            SecretPayload::Text(secret_string->Some_0),
        ),
        secret_string is None && secret_binary is Some ==> r == Ok::<SecretPayload, AwsError>(
            SecretPayload::Binary(secret_binary->Some_0),
        ),
        secret_string is None && secret_binary is None ==> r == Err::<SecretPayload, AwsError>(
            AwsError::EmptySecret,
        ),
{
    match (secret_string, secret_binary) {
        (Some(s), _) => Ok(SecretPayload::Text(s)),
        (None, Some(b)) => Ok(SecretPayload::Binary(b)),
        (None, None) => Err(AwsError::EmptySecret),
    }
}

} // verus!
