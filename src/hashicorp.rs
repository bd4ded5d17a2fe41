//! The part of the Hashicorp Vault backend that computes: its configuration,
//! request addresses, the reading of response status codes, and the check of
//! a secret's names.
use vstd::prelude::*;

use crate::names::{is_valid_env_name, is_valid_name};

verus! {

/// Why a secret could not be read from Hashicorp Vault.
#[derive(Debug, Clone, PartialEq, Eq)]
pub enum HashicorpVaultError {
    /// The secret does not exist.
    SecretNotFound(String),
    /// The token was refused.
    UnauthorizedError,
    /// The token does not grant access to the secret.
    ForbiddenError(String),
    /// The request did not complete.
    HttpError(String),
    /// The Vault answered with another status than 200.
    HttpStatusCodeError(u16),
    /// The response could not be read.
    DeserializeError(String),
    /// A key of the secret is not a valid variable name.
    InvalidEnv,
    /// The configuration does not allow a request.
    ConfigurationError(String),
}

/// How Hashicorp Vault is reached.
#[derive(Debug)]
pub struct HashicorpVaultConfig {
    pub enabled: bool,
    pub vault_address: Option<String>,
    pub vault_token: Option<String>,
    pub vault_cacert: Option<String>,
}

/// A Hashicorp Vault to read secrets from.
#[derive(Debug)]
pub struct HashicorpVault {
    pub address: String,
    pub token: String,
    pub cacert: Option<String>,
}

/// The status codes that the Vault's answer is read by.
pub const STATUS_OK: u16 = 200;
pub const STATUS_UNAUTHORIZED: u16 = 401;
pub const STATUS_FORBIDDEN: u16 = 403;
pub const STATUS_NOT_FOUND: u16 = 404;

/// Reads the status of the Vault's answer to a request about `secret_name`:
/// 200 lets the answer through, 404, 401 and 403 say that the secret is
/// missing, the token refused, or access denied; any other code fails too.
pub fn handle_common_errors(secret_name: &str, status: u16) -> (r: Result<(), HashicorpVaultError>)
    ensures
        status == STATUS_OK ==> r is Ok,
        status == STATUS_NOT_FOUND ==> (r matches Err(HashicorpVaultError::SecretNotFound(s))
            && s@ == secret_name@),
        status == STATUS_UNAUTHORIZED ==> r == Err::<(), HashicorpVaultError>(
            HashicorpVaultError::UnauthorizedError,
        ),
        status == STATUS_FORBIDDEN ==> (r matches Err(HashicorpVaultError::ForbiddenError(s))
            && s@ == secret_name@),
        status != STATUS_OK && status != STATUS_NOT_FOUND && status != STATUS_UNAUTHORIZED
            && status != STATUS_FORBIDDEN ==> r == Err::<(), HashicorpVaultError>(
            HashicorpVaultError::HttpStatusCodeError(status),
        ),
{
    if status == STATUS_OK {
        Ok(())
    } else if status == STATUS_NOT_FOUND {
        Err(HashicorpVaultError::SecretNotFound(String::from_str(secret_name)))
    } else if status == STATUS_UNAUTHORIZED {
        Err(HashicorpVaultError::UnauthorizedError)
    } else if status == STATUS_FORBIDDEN {
        Err(HashicorpVaultError::ForbiddenError(String::from_str(secret_name)))
    } else {
        Err(HashicorpVaultError::HttpStatusCodeError(status))
    }
}

/// Every key of a secret's data is a valid variable name.
pub open spec fn keys_valid(data: Seq<(String, String)>) -> bool {
    forall|i: int| 0 <= i < data.len() ==> #[trigger] is_valid_env_name(data[i].0@)
}

impl HashicorpVaultConfig {
    /// Whether this backend was chosen.
    pub fn is_enabled(&self) -> (r: bool)
        ensures
            r == self.enabled,
    {
        self.enabled
    }

    /// The Vault to read from: an address and a token are required.
    pub fn into_vault(self) -> (r: Result<HashicorpVault, HashicorpVaultError>)
        ensures
            (self.vault_address is Some && self.vault_token is Some) ==> r == Ok::<
                HashicorpVault,
                HashicorpVaultError,
            >(
                HashicorpVault {
                    address: self.vault_address->Some_0,
                    token: self.vault_token->Some_0,
                    cacert: self.vault_cacert,
                },
            ),
            !(self.vault_address is Some && self.vault_token is Some) ==> (r matches Err(
                HashicorpVaultError::ConfigurationError(_),
            )),
    {
        match (self.vault_address, self.vault_token) {
            (Some(address), Some(token)) => Ok(
                HashicorpVault { address, token, cacert: self.vault_cacert },
            ),
            _ => Err(
                HashicorpVaultError::ConfigurationError(
                    String::from_str("a Vault address and a token are required"),
                ),
            ),
        }
    }
}

impl HashicorpVault {
    /// The address of the secret named `secret_name` in the key-value engine.
    pub fn secret_url(&self, secret_name: &str) -> (r: String)
        ensures
            r@ == self.address@ + "/v1/secret/data/"@ + secret_name@,
    {
        self.address.clone().concat("/v1/secret/data/").concat(secret_name)
    }

    /// The address that lists the secrets of the key-value engine.
    pub fn list_url(&self) -> (r: String)
        ensures
            r@ == self.address@ + "/v1/secret/metadata?list=true"@,
    {
        self.address.clone().concat("/v1/secret/metadata?list=true")
    }

    /// The entries of a secret's data, kept as they are when every key is a
    /// valid variable name; one invalid key fails the secret.
    pub fn parse_secrets(data: Vec<(String, String)>) -> (r: Result<
        Vec<(String, String)>,
        HashicorpVaultError,
    >)
        ensures
            keys_valid(data@) ==> r == Ok::<Vec<(String, String)>, HashicorpVaultError>(data),
            !keys_valid(data@) ==> r == Err::<Vec<(String, String)>, HashicorpVaultError>(
                HashicorpVaultError::InvalidEnv,
            ),
    {
        let mut i: usize = 0;
        while i < data.len()
            invariant
                i <= data@.len(),
                forall|j: int| 0 <= j < i ==> #[trigger] is_valid_env_name(data@[j].0@),
            decreases data@.len() - i,
        {
            if !is_valid_name(data[i].0.as_str()) {
                return Err(HashicorpVaultError::InvalidEnv);
            }
            i = i + 1;
        }
        Ok(data)
    }
}

} // verus!
