//! The part of the Google Secret Manager backend that computes: resource
//! names, the matching of secrets to a prefix, and the decoding of a payload.
use vstd::prelude::*;
use vstd::utf8::{decode_utf8, valid_utf8};

use crate::names::{has_prefix, leaf_of, starts_with, strip_leaf_prefix, strip_path};

verus! {

/// What base64's standard engine decodes from `input`, or `None` where it
/// refuses the input.
pub uninterp spec fn base64_decoded(input: Seq<u8>) -> Option<Seq<u8>>;

/// base64's `DecodeError`, carried as it is: only whether decoding failed is
/// read.
#[verifier::external_type_specification]
#[verifier::external_body]
pub struct ExDecodeError(base64::DecodeError);

/// Relies on `Engine::decode` of base64's `general_purpose::STANDARD` engine,
/// whose outcome depends on the input bytes alone.
#[verifier::external_body]
fn decode_standard_base64(input: &Vec<u8>) -> (r: Result<Vec<u8>, base64::DecodeError>)
    ensures
        match r {
            Ok(v) => base64_decoded(input@) == Some(v@),
            Err(_) => base64_decoded(input@) is None,
        },
{
    base64::Engine::decode(&base64::engine::general_purpose::STANDARD, input)
}

/// Relies on `String::from_utf8`: it accepts exactly valid UTF-8, and the
/// string holds the characters that the bytes encode.
#[verifier::external_body]
fn string_from_utf8(bytes: Vec<u8>) -> (r: Option<String>)
    ensures
        r is Some <==> valid_utf8(bytes@),
        r matches Some(s) ==> s@ == decode_utf8(bytes@),
{
    String::from_utf8(bytes).ok()
}

/// Why a secret could not be read from Google Secret Manager.
#[derive(Debug, Clone, PartialEq, Eq)]
pub enum GoogleError {
    /// The configuration does not allow a request.
    ConfigurationError(String),
    /// The secret version holds no data.
    EmptySecret,
    /// The data is not base64 text of UTF-8 text.
    WrongEncoding,
}

/// The text of a secret payload whose base64 decoding gave `decoded`.
pub open spec fn payload_text_of(decoded: Option<Seq<u8>>) -> Result<Seq<char>, GoogleError> {
    match decoded {
        None => Err(GoogleError::WrongEncoding),
        Some(b) => if valid_utf8(b) {
            Ok(decode_utf8(b))
        } else {
            Err(GoogleError::WrongEncoding)
        },
    }
}

/// The credentials to authenticate with.
#[derive(Debug, PartialEq, Eq)]
pub enum GoogleCredentials {
    /// A service account key in this file.
    File(String),
    /// This service account key.
    Json(String),
    /// The application default credentials.
    ApplicationDefault,
}

/// Where the secrets come from in Google Secret Manager.
#[derive(Debug)]
pub struct GoogleConfig {
    pub enabled: bool,
    pub google_credentials_file: Option<String>,
    pub google_credentials_json: Option<String>,
    pub google_project: Option<String>,
}

/// The text of a secret payload, from what base64 decoding gave: the bytes
/// must be UTF-8.
pub fn payload_text(decoded: Option<Vec<u8>>) -> (r: Result<String, GoogleError>)
    ensures
        match payload_text_of(
            match decoded {
                Some(b) => Some(b@),
                None => None,
            },
        ) {
            Ok(t) => r matches Ok(s) && s@ == t,
            Err(e) => r == Err::<String, GoogleError>(e),
        },
{
    match decoded {
        None => Err(GoogleError::WrongEncoding),
        Some(bytes) => match string_from_utf8(bytes) {
            Some(s) => Ok(s),
            None => Err(GoogleError::WrongEncoding),
        },
    }
}

/// The text of a secret version's payload: its data, base64 decoded, as UTF-8
/// text. A version without data is an empty secret.
pub fn decode_payload(data: Option<Vec<u8>>) -> (r: Result<String, GoogleError>)
    ensures
        match data {
            None => r == Err::<String, GoogleError>(GoogleError::EmptySecret),
            Some(d) => match payload_text_of(base64_decoded(d@)) {
                Ok(t) => r matches Ok(s) && s@ == t,
                Err(e) => r == Err::<String, GoogleError>(e),
            },
        },
{
    match data {
        None => Err(GoogleError::EmptySecret),
        Some(d) => {
            let decoded = match decode_standard_base64(&d) {
                Ok(v) => Some(v),
                Err(_) => None,
            };
            payload_text(decoded)
        },
    }
}

impl GoogleConfig {
    /// Whether this backend was chosen.
    pub fn is_enabled(&self) -> (r: bool)
        ensures
            r == self.enabled,
    {
        self.enabled
    }

    /// The credentials to use: a key file when given, else a key given as
    /// JSON, else the application default credentials.
    pub fn credentials(&self) -> (r: GoogleCredentials)
        ensures
            self.google_credentials_file is Some ==> r == GoogleCredentials::File(
                self.google_credentials_file->Some_0,
            ),
            self.google_credentials_file is None && self.google_credentials_json is Some ==> r
                == GoogleCredentials::Json(self.google_credentials_json->Some_0),
            self.google_credentials_file is None && self.google_credentials_json is None ==> r
                == GoogleCredentials::ApplicationDefault,
    {
        match (&self.google_credentials_file, &self.google_credentials_json) {
            (Some(path), _) => GoogleCredentials::File(path.clone()),
            (None, Some(json)) => GoogleCredentials::Json(json.clone()),
            (None, None) => GoogleCredentials::ApplicationDefault,
        }
    }

    /// The secret's own name: what follows the last `/` of its resource name.
    pub fn strip_project<'a>(&self, name: &'a str) -> (r: &'a str)
        ensures
            r@ == leaf_of(name@),
    {
        strip_path(name)
    }

    /// Whether the secret's own name starts with `prefix`.
    pub fn secret_matches(&self, prefix: &str, name: &str) -> (r: bool)
        ensures
            r == starts_with(leaf_of(name@), prefix@),
    {
        has_prefix(self.strip_project(name), prefix)
    }

    /// The secret's own name without its first characters, as many as
    /// `prefix` has; callers select the secrets that match `prefix`.
    pub fn strip_prefix<'a>(&self, prefix: &str, name: &'a str) -> (r: &'a str)
        requires
            prefix@.len() <= leaf_of(name@).len(),
        ensures
            r@ == leaf_of(name@).subrange(prefix@.len() as int, leaf_of(name@).len() as int),
    {
        strip_leaf_prefix(prefix, name)
    }

    /// The resource name of the project, `projects/<project>`.
    pub fn project_path(&self) -> (r: Result<String, GoogleError>)
        ensures
            match self.google_project {
                Some(p) => r matches Ok(s) && s@ == "projects/"@ + p@,
                None => r matches Err(GoogleError::ConfigurationError(_)),
            },
    {
        match &self.google_project {
            Some(p) => Ok(String::from_str("projects/").concat(p.as_str())),
            None => Err(GoogleError::ConfigurationError(String::from_str("no Google project given"))),
        }
    }

    /// The resource name of a secret of the project,
    /// `projects/<project>/secrets/<secret_name>`.
    pub fn secret_path(&self, secret_name: &str) -> (r: Result<String, GoogleError>)
        ensures
            match self.google_project {
                Some(p) => r matches Ok(s) && s@ == "projects/"@ + p@ + "/secrets/"@
                    + secret_name@,
                None => r matches Err(GoogleError::ConfigurationError(_)),
            },
    {
        let project = self.project_path()?;
        Ok(project.concat("/secrets/").concat(secret_name))
    }
}

/// The resource name of the latest version of the secret named `name`.
pub fn latest_version_path(name: &str) -> (r: String)
    ensures
        r@ == name@ + "/versions/latest"@,
{
    String::from_str(name).concat("/versions/latest")
}

} // verus!
