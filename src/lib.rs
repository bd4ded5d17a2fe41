//! Resolution of secrets from a secret backend into a process environment,
//! merged with the OS environment under a masking policy, and the decisions
//! around launching a child process in it.
pub mod aws;
pub mod azure;
pub mod cache;
pub mod error;
pub mod google;
pub mod hashicorp;
pub mod json;
pub mod launch;
pub mod names;
pub mod pairs;
pub mod process_env;
pub mod resolve;

pub use azure::{get_kv_address, AzureConfig, AzureCredential};
pub use cache::{OutputFileConfig, OutputTarget};
pub use error::{BackendError, EnvLoadError};
pub use google::GoogleConfig;
pub use hashicorp::{HashicorpVault, HashicorpVaultConfig, HashicorpVaultError};
pub use json::{decode_env_from_json, value_as_string, JsonValue};
pub use launch::{ChildExit, LaunchError, LaunchPlan, RunInError, RunWith};
pub use names::{as_valid_env_name, convert_env_name};
pub use process_env::{CachedEnv, OsEnv, ProcessEnv};
pub use resolve::{download_env, DataConfig, PrefixedSecret, SecretSource, Vault, VaultConfig};
