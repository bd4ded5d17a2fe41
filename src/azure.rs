//! The part of the Azure Key Vault backend that computes: the vault's
//! address and the check of the service principal's credentials.
use vstd::prelude::*;

verus! {

/// Why the Azure backend cannot be used.
#[derive(Debug, Clone, PartialEq, Eq)]
pub enum AzureError {
    /// The configuration is inconsistent.
    ConfigurationError(String),
}

/// The credentials of a service principal, all three or none.
#[derive(Debug, Default)]
pub struct AzureCredential {
    pub azure_tenant_id: Option<String>,
    pub azure_client_id: Option<String>,
    pub azure_client_secret: Option<String>,
}

/// Where the secrets live in Azure Key Vault.
#[derive(Debug)]
pub struct AzureConfig {
    pub enabled: bool,
    pub credential: AzureCredential,
    pub azure_keyvault_name: Option<String>,
    pub azure_keyvault_url: Option<String>,
}

/// The address of the vault named `name` in the public cloud.
pub open spec fn kv_address_of(name: Seq<char>) -> Seq<char> {
    "https://"@ + name + ".vault.azure.net"@
}

/// The address of the vault named `name` in the public cloud,
/// `https://<name>.vault.azure.net`.
pub fn get_kv_address(name: &str) -> (r: String)
    ensures
        r@ == kv_address_of(name@),
{
    String::from_str("https://").concat(name).concat(".vault.azure.net")
}

impl AzureCredential {
    /// All three parts of the credentials are given.
    pub open spec fn complete(&self) -> bool {
        self.azure_tenant_id is Some && self.azure_client_id is Some
            && self.azure_client_secret is Some
    }

    /// Some part of the credentials is given.
    pub open spec fn any_given(&self) -> bool {
        self.azure_tenant_id is Some || self.azure_client_id is Some
            || self.azure_client_secret is Some
    }

    /// Whether all three parts of the credentials are given.
    pub fn is_valid(&self) -> (r: bool)
        ensures
            r == self.complete(),
    {
        self.azure_tenant_id.is_some() && self.azure_client_id.is_some()
            && self.azure_client_secret.is_some()
    }

    /// The credentials are either complete or absent; a part of them alone is
    /// refused.
    pub fn validate(&self) -> (r: Result<(), AzureError>)
        ensures
            r is Ok <==> (self.complete() || !self.any_given()),
            r is Err ==> (r matches Err(AzureError::ConfigurationError(_))),
    {
        let has_some = self.azure_tenant_id.is_some() || self.azure_client_id.is_some()
            || self.azure_client_secret.is_some();
        if has_some && !self.is_valid() {
            Err(
                AzureError::ConfigurationError(
                    String::from_str(
                        "if you want to use CLI-passed credentials, all need to be specified",
                    ),
                ),
            )
        } else {
            Ok(())
        }
    }
}

impl AzureConfig {
    /// Whether this backend was chosen.
    pub fn is_enabled(&self) -> (r: bool)
        ensures
            r == self.enabled,
    {
        self.enabled
    }

    /// The vault's address: the URL when one is given, else the address of the
    /// named vault in the public cloud.
    pub fn get_kv_address(&self) -> (r: Result<String, AzureError>)
        ensures
            self.azure_keyvault_url is Some ==> r == Ok::<String, AzureError>(
                self.azure_keyvault_url->Some_0,
            ),
            self.azure_keyvault_url is None && self.azure_keyvault_name is Some ==> (r matches Ok(
                s,
            ) && s@ == kv_address_of(self.azure_keyvault_name->Some_0@)),
            self.azure_keyvault_url is None && self.azure_keyvault_name is None ==> (r matches Err(
                AzureError::ConfigurationError(_),
            )),
    {
        if let Some(url) = &self.azure_keyvault_url {
            Ok(url.clone())
        } else if let Some(name) = &self.azure_keyvault_name {
            Ok(get_kv_address(name.as_str()))
        } else {
            Err(
                AzureError::ConfigurationError(
                    String::from_str("either a Key Vault name or a Key Vault URL is required"),
                ),
            )
        }
    }
}

} // verus!
