//! Errors of environment resolution.
use vstd::prelude::*;

verus! {

/// What went wrong in a secret backend, as reported by its adapter.
#[derive(Debug, Clone, PartialEq, Eq)]
pub enum BackendError {
    /// The secret does not exist.
    NotFound(String),
    /// The credentials were refused.
    Unauthorized,
    /// The credentials do not grant access to the secret.
    Forbidden(String),
    /// The request did not complete.
    Transport(String),
    /// The payload could not be decoded.
    Decode(String),
    /// The backend reported no secrets at all.
    NoSecrets,
}

/// Why an environment could not be resolved.
#[derive(Debug, Clone, PartialEq, Eq)]
pub enum EnvLoadError {
    /// The resolution parameters are inconsistent.
    ConfigurationError(String),
    /// The backend failed to hand over a secret.
    CannotLoadSecret(BackendError),
    /// A name or a value of a secret does not have the required form.
    InvalidSecretFormat,
}

} // verus!
