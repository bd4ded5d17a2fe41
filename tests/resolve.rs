use kvenv::resolve::{
    join_documents, join_prefixed, plan_prefixed, resolve_document, select_backend,
    select_prefixed, BackendKind,
};
use kvenv::{download_env, BackendError, DataConfig, EnvLoadError, JsonValue, OsEnv, SecretSource, Vault};

fn strings(v: &[&str]) -> Vec<String> {
    v.iter().map(|s| s.to_string()).collect()
}

fn pair(a: &str, b: &str) -> (String, String) {
    (a.to_string(), b.to_string())
}

fn config(name: Option<&str>, prefix: Option<&str>) -> DataConfig {
    DataConfig {
        secret_name: name.map(str::to_string),
        secret_prefix: prefix.map(str::to_string),
        snapshot_env: false,
        mask: vec![],
    }
}

#[test]
fn source_needs_exactly_one_of_name_and_prefix() {
    assert_eq!(SecretSource::Single("s".to_string()), config(Some("s"), None).source().unwrap());
    assert_eq!(SecretSource::Prefixed("p".to_string()), config(None, Some("p")).source().unwrap());
    assert!(matches!(config(Some("s"), Some("p")).source(), Err(EnvLoadError::ConfigurationError(_))));
    assert!(matches!(config(None, None).source(), Err(EnvLoadError::ConfigurationError(_))));
}

#[test]
fn plan_selects_by_leaf_in_listing_order() {
    let listing = strings(&[
        "https://kv/secrets/prefixed-B",
        "https://kv/secrets/other-X",
        "https://kv/secrets/prefixed-A-1",
        "prefixed-C",
    ]);
    let plan = plan_prefixed("prefixed-", &listing).unwrap();
    let got: Vec<(String, String)> = plan.into_iter().map(|p| (p.id, p.env_name)).collect();
    assert_eq!(
        vec![
            pair("https://kv/secrets/prefixed-B", "B"),
            pair("https://kv/secrets/prefixed-A-1", "A_1"),
            pair("prefixed-C", "C"),
        ],
        got
    );
}

#[test]
fn plan_fails_on_one_invalid_name() {
    let listing = strings(&["p-GOOD", "p-1bad", "p-ALSO_GOOD"]);
    assert!(matches!(plan_prefixed("p-", &listing), Err(EnvLoadError::InvalidSecretFormat)));
    let listing = strings(&["p-GOOD", "p-"]);
    assert!(matches!(plan_prefixed("p-", &listing), Err(EnvLoadError::InvalidSecretFormat)));
}

#[test]
fn plan_with_nothing_matching_is_empty() {
    assert!(plan_prefixed("zzz", &strings(&["a", "b/c"])).unwrap().is_empty());
}

#[test]
fn prefixed_two_of_three_fetches_fail_the_whole_resolution() {
    let plan = plan_prefixed("p-", &strings(&["p-A", "p-B", "p-C"])).unwrap();
    let values = vec![
        Ok("1".to_string()),
        Err(BackendError::Forbidden("p-B".to_string())),
        Ok("3".to_string()),
    ];
    assert_eq!(
        Err(EnvLoadError::CannotLoadSecret(BackendError::Forbidden("p-B".to_string()))),
        join_prefixed(plan, values)
    );
}

#[test]
fn prefixed_reports_the_first_failure_in_listing_order() {
    let plan = plan_prefixed("p-", &strings(&["p-A", "p-B", "p-C"])).unwrap();
    let values = vec![
        Ok("1".to_string()),
        Err(BackendError::NotFound("p-B".to_string())),
        Err(BackendError::Unauthorized),
    ];
    assert_eq!(
        Err(EnvLoadError::CannotLoadSecret(BackendError::NotFound("p-B".to_string()))),
        join_prefixed(plan, values)
    );
}

#[test]
fn prefixed_all_fetched_pairs_names_and_values() {
    let plan = plan_prefixed("p-", &strings(&["p-A", "p-B", "p-C"])).unwrap();
    let values = vec![Ok("1".to_string()), Ok("2".to_string()), Ok("3".to_string())];
    assert_eq!(
        Ok(vec![pair("A", "1"), pair("B", "2"), pair("C", "3")]),
        join_prefixed(plan, values)
    );
}

#[test]
fn select_prefixed_matches_whole_identifiers() {
    let ids = strings(&["kvenv-tests/prefixed-1", "kvenv-tests/other", "prefixed-2", "kvenv-tests/prefixed-3"]);
    assert_eq!(
        strings(&["kvenv-tests/prefixed-1", "kvenv-tests/prefixed-3"]),
        select_prefixed("kvenv-tests/prefixed-", &ids)
    );
}

#[test]
fn join_documents_concatenates_or_fails() {
    let docs: Vec<Result<Vec<(String, String)>, EnvLoadError>> =
        vec![Ok(vec![pair("A", "1"), pair("B", "2")]), Ok(vec![]), Ok(vec![pair("C", "3")])];
    assert_eq!(Ok(vec![pair("A", "1"), pair("B", "2"), pair("C", "3")]), join_documents(docs));
    let docs: Vec<Result<Vec<(String, String)>, EnvLoadError>> = vec![
        Ok(vec![pair("A", "1")]),
        Err(EnvLoadError::InvalidSecretFormat),
        Err(EnvLoadError::CannotLoadSecret(BackendError::NoSecrets)),
    ];
    assert_eq!(Err(EnvLoadError::InvalidSecretFormat), join_documents(docs));
}

#[test]
fn resolve_document_decodes_or_passes_the_error_on() {
    let doc = JsonValue::Object(vec![("A".to_string(), JsonValue::Bool(true))]);
    assert_eq!(Ok(vec![pair("A", "true")]), resolve_document(Ok(doc)));
    assert_eq!(
        Err(EnvLoadError::CannotLoadSecret(BackendError::Transport("timeout".to_string()))),
        resolve_document(Err(BackendError::Transport("timeout".to_string())))
    );
    assert_eq!(Err(EnvLoadError::InvalidSecretFormat), resolve_document(Ok(JsonValue::Null)));
}

#[test]
fn backend_selection_takes_the_first_enabled() {
    assert_eq!(Ok(BackendKind::Aws), select_backend(true, true, true, true));
    assert_eq!(Ok(BackendKind::Azure), select_backend(false, true, true, false));
    assert_eq!(Ok(BackendKind::Google), select_backend(false, false, true, true));
    assert_eq!(Ok(BackendKind::Hashicorp), select_backend(false, false, false, true));
    assert!(matches!(select_backend(false, false, false, false), Err(EnvLoadError::ConfigurationError(_))));
}

struct FixedVault;

impl Vault for FixedVault {
    fn download_prefixed(&self, prefix: &str) -> Result<Vec<(String, String)>, EnvLoadError> {
        Ok(vec![(format!("{}A", prefix), "p".to_string())])
    }

    fn download_json(&self, secret_name: &str) -> Result<Vec<(String, String)>, EnvLoadError> {
        if secret_name == "missing" {
            Err(EnvLoadError::CannotLoadSecret(BackendError::NotFound(secret_name.to_string())))
        } else {
            Ok(vec![pair("S", secret_name)])
        }
    }
}

#[test]
fn download_env_builds_the_environment() {
    let cfg = DataConfig {
        secret_name: Some("doc".to_string()),
        secret_prefix: None,
        snapshot_env: true,
        mask: vec!["M".to_string()],
    };
    let env = download_env(&FixedVault, cfg, vec![pair("OS", "1")]).unwrap();
    assert_eq!(vec![pair("S", "doc")], env.from_kv);
    assert_eq!(vec!["M".to_string()], env.masked);
    assert!(matches!(env.from_env, OsEnv::Persisted(ref v) if *v == vec![pair("OS", "1")]));

    let env = download_env(&FixedVault, config(None, Some("X_")), vec![]).unwrap();
    assert_eq!(vec![pair("X_A", "p")], env.from_kv);
    assert!(matches!(env.from_env, OsEnv::Fresh(_)));

    assert_eq!(
        EnvLoadError::CannotLoadSecret(BackendError::NotFound("missing".to_string())),
        download_env(&FixedVault, config(Some("missing"), None), vec![]).unwrap_err()
    );
    assert!(matches!(
        download_env(&FixedVault, config(None, None), vec![]),
        Err(EnvLoadError::ConfigurationError(_))
    ));
}
