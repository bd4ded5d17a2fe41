//! Resolution of the secrets of a backend into environment entries: the choice
//! of mode, the selection of identifiers in prefix mode, and the joining of
//! the outcomes of the fetches, all or nothing.
use vstd::prelude::*;

use crate::error::{BackendError, EnvLoadError};
use crate::json::{decode_env_from_json, document_decodes, document_entries, JsonValue};
use crate::names::{
    convert_env_name, derived_name, has_prefix, is_valid_env_name, leaf_matches, leaf_of,
    starts_with,
};
use crate::pairs::pairs_view;
use crate::process_env::{OsEnv, ProcessEnv};

verus! {

/// The identifiers of `ids` that `keep` accepts, in order.
pub open spec fn select(ids: Seq<String>, keep: spec_fn(Seq<char>) -> bool) -> Seq<String>
    decreases ids.len(),
{
    if ids.len() == 0 {
        Seq::empty()
    } else if keep(ids.last()@) {
        select(ids.drop_last(), keep).push(ids.last())
    } else {
        select(ids.drop_last(), keep)
    }
}

/// Identifiers whose leaf starts with `prefix`.
pub open spec fn leaf_has_prefix(prefix: Seq<char>) -> spec_fn(Seq<char>) -> bool {
    |id: Seq<char>| starts_with(leaf_of(id), prefix)
}

/// Identifiers that start with `prefix`.
pub open spec fn id_has_prefix(prefix: Seq<char>) -> spec_fn(Seq<char>) -> bool {
    |id: Seq<char>| starts_with(id, prefix)
}

/// What is selected from the first `i` identifiers begins what is selected
/// from all of them.
proof fn lemma_select_prefix(ids: Seq<String>, keep: spec_fn(Seq<char>) -> bool, i: int)
    requires
        0 <= i <= ids.len(),
    ensures
        select(ids.subrange(0, i), keep).len() <= select(ids, keep).len(),
        select(ids.subrange(0, i), keep) == select(ids, keep).subrange(
            0,
            select(ids.subrange(0, i), keep).len() as int,
        ),
    decreases ids.len(),
{
    if i == ids.len() {
        assert(ids.subrange(0, i) =~= ids);
        assert(select(ids, keep).subrange(0, select(ids, keep).len() as int) =~= select(ids, keep));
    } else {
        assert(ids.drop_last().subrange(0, i) =~= ids.subrange(0, i));
        lemma_select_prefix(ids.drop_last(), keep, i);
        let a = select(ids.subrange(0, i), keep);
        let b = select(ids.drop_last(), keep);
        assert(select(ids, keep).subrange(0, a.len() as int) =~= b.subrange(0, a.len() as int));
    }
}

/// One step of a selection over the first `i + 1` identifiers.
proof fn lemma_select_step(ids: Seq<String>, keep: spec_fn(Seq<char>) -> bool, i: int)
    requires
        0 <= i < ids.len(),
    ensures
        select(ids.subrange(0, i + 1), keep) == if keep(ids[i]@) {
            select(ids.subrange(0, i), keep).push(ids[i])
        } else {
            select(ids.subrange(0, i), keep)
        },
{
    let s = ids.subrange(0, i + 1);
    assert(s.drop_last() =~= ids.subrange(0, i));
    assert(s.last() == ids[i]);
}

/// A secret to fetch in prefix mode, with the name it will have.
#[derive(Debug)]
pub struct PrefixedSecret {
    pub id: String,
    pub env_name: String,
}

/// Where the secrets of an environment come from.
#[derive(Debug, PartialEq, Eq)]
pub enum SecretSource {
    /// One secret, a document of names and values.
    Single(String),
    /// Every secret whose name starts with the prefix, one variable each.
    Prefixed(String),
}

/// What to resolve, and how to build the environment from it.
#[derive(Debug)]
pub struct DataConfig {
    pub secret_name: Option<String>,
    pub secret_prefix: Option<String>,
    pub snapshot_env: bool,
    pub mask: Vec<String>,
}

impl DataConfig {
    /// The source of the secrets: exactly one of a secret name and a prefix
    /// must be given.
    pub fn source(&self) -> (r: Result<SecretSource, EnvLoadError>)
        ensures
            (self.secret_name is Some && self.secret_prefix is None) ==> r == Ok::<
                SecretSource,
                EnvLoadError,
            >(SecretSource::Single(self.secret_name->Some_0)),
            (self.secret_name is None && self.secret_prefix is Some) ==> r == Ok::<
                SecretSource,
                EnvLoadError,
            >(SecretSource::Prefixed(self.secret_prefix->Some_0)),
            (self.secret_name is Some) == (self.secret_prefix is Some) ==> (r matches Err(
                EnvLoadError::ConfigurationError(_),
            )),
    {
        match (&self.secret_name, &self.secret_prefix) {
            (Some(n), None) => Ok(SecretSource::Single(n.clone())),
            (None, Some(p)) => Ok(SecretSource::Prefixed(p.clone())),
            (Some(_), Some(_)) => Err(
                EnvLoadError::ConfigurationError(
                    String::from_str("a secret name and a secret prefix cannot both be given"),
                ),
            ),
            (None, None) => Err(
                EnvLoadError::ConfigurationError(
                    String::from_str("either a secret name or a secret prefix is required"),
                ),
            ),
        }
    }

    /// The environment built from the resolved entries; `os_vars` are the OS
    /// variables at resolution time.
    pub fn into_process_env(self, from_kv: Vec<(String, String)>, os_vars: Vec<(String, String)>) -> (r:
        ProcessEnv)
        ensures
            r.from_env == (if self.snapshot_env {
                OsEnv::Persisted(os_vars)
            } else {
                OsEnv::Fresh(os_vars)
            }),
            r.from_kv == from_kv,
            r.masked == self.mask,
    {
        ProcessEnv::new(from_kv, self.mask, self.snapshot_env, os_vars)
    }
}

/// Single mode: the entries of the fetched secret document. A failed fetch or
/// a document that does not decode fails the resolution.
pub fn resolve_document(document: Result<JsonValue, BackendError>) -> (r: Result<
    Vec<(String, String)>,
    EnvLoadError,
>)
    ensures
        match document {
            Err(e) => r == Err::<Vec<(String, String)>, EnvLoadError>(
                EnvLoadError::CannotLoadSecret(e),
            ),
            Ok(d) => if d is Object && document_decodes(d->Object_0@) {
                r matches Ok(v) && pairs_view(v@) == document_entries(d->Object_0@)
            } else {
                r == Err::<Vec<(String, String)>, EnvLoadError>(EnvLoadError::InvalidSecretFormat)
            },
        },
{
    match document {
        Ok(d) => decode_env_from_json(d),
        Err(e) => Err(EnvLoadError::CannotLoadSecret(e)),
    }
}

/// Prefix mode, before any fetch: the identifiers of `listing` whose leaf
/// starts with `prefix`, in listing order, each with the name derived from it.
/// One identifier whose derived name is invalid fails the whole resolution.
pub fn plan_prefixed(prefix: &str, listing: &Vec<String>) -> (r: Result<
    Vec<PrefixedSecret>,
    EnvLoadError,
>)
    ensures
        ({
            let matched = select(listing@, leaf_has_prefix(prefix@));
            if forall|i: int|
                0 <= i < matched.len() ==> #[trigger] is_valid_env_name(
                    derived_name(prefix@, matched[i]@),
                ) {
                r matches Ok(plan) && plan@.len() == matched.len() && forall|i: int|
                    0 <= i < matched.len() ==> #[trigger] plan@[i].id@ == matched[i]@
                        && plan@[i].env_name@ == derived_name(prefix@, matched[i]@)
            } else {
                r == Err::<Vec<PrefixedSecret>, EnvLoadError>(EnvLoadError::InvalidSecretFormat)
            }
        }),
{
    let ghost keep = leaf_has_prefix(prefix@);
    let ghost matched = select(listing@, keep);
    let mut plan: Vec<PrefixedSecret> = Vec::new();
    let mut i: usize = 0;
    while i < listing.len()
        invariant
            i <= listing@.len(),
            keep == leaf_has_prefix(prefix@),
            matched == select(listing@, keep),
            plan@.len() == select(listing@.subrange(0, i as int), keep).len(),
            forall|j: int|
                #![trigger plan@[j]]
                0 <= j < plan@.len() ==> plan@[j].id@ == select(
                    listing@.subrange(0, i as int),
                    keep,
                )[j]@ && plan@[j].env_name@ == derived_name(
                    prefix@,
                    select(listing@.subrange(0, i as int), keep)[j]@,
                ) && is_valid_env_name(plan@[j].env_name@),
        decreases listing@.len() - i,
    {
        let ghost prev = select(listing@.subrange(0, i as int), keep);
        let ghost next = select(listing@.subrange(0, i + 1), keep);
        proof {
            lemma_select_step(listing@, keep, i as int);
            lemma_select_prefix(listing@, keep, i as int + 1);
        }
        let id = &listing[i];
        if leaf_matches(prefix, id.as_str()) {
            assert(next == prev.push(listing@[i as int]));
            match convert_env_name(prefix, id.as_str()) {
                Ok(env_name) => {
                    let ghost before = plan@;
                    plan.push(PrefixedSecret { id: id.clone(), env_name });
                    proof {
                        assert forall|j: int|
                            #![trigger plan@[j]]
                            0 <= j < plan@.len() implies plan@[j].id@ == next[j]@
                                && plan@[j].env_name@ == derived_name(prefix@, next[j]@)
                                && is_valid_env_name(plan@[j].env_name@) by {
                            if j < before.len() {
                                assert(plan@[j] == before[j]);
                                assert(next[j] == prev[j]);
                            }
                        }
                    }
                },
                Err(e) => {
                    proof {
                        let k = plan@.len() as int;
                        assert(next[k] == listing@[i as int]);
                        assert(matched.subrange(0, next.len() as int)[k] == matched[k]);
                        assert(matched[k] == listing@[i as int]);
                        assert(!is_valid_env_name(derived_name(prefix@, matched[k]@)));
                    }
                    return Err(e);
                },
            }
        } else {
            assert(next == prev);
        }
        i = i + 1;
    }
    proof {
        assert(listing@.subrange(0, i as int) =~= listing@);
        assert forall|j: int| 0 <= j < matched.len() implies #[trigger] is_valid_env_name(
            derived_name(prefix@, matched[j]@),
        ) by {
            assert(plan@[j].env_name@ == derived_name(prefix@, matched[j]@));
        }
    }
    Ok(plan)
}

/// The identifiers of `ids` that start with `prefix`, in order.
pub fn select_prefixed(prefix: &str, ids: &Vec<String>) -> (r: Vec<String>)
    ensures
        r@ == select(ids@, id_has_prefix(prefix@)),
{
    let ghost keep = id_has_prefix(prefix@);
    let mut out: Vec<String> = Vec::new();
    let mut i: usize = 0;
    while i < ids.len()
        invariant
            i <= ids@.len(),
            keep == id_has_prefix(prefix@),
            out@ == select(ids@.subrange(0, i as int), keep),
        decreases ids@.len() - i,
    {
        proof {
            lemma_select_step(ids@, keep, i as int);
        }
        if has_prefix(ids[i].as_str(), prefix) {
            out.push(ids[i].clone());
        }
        i = i + 1;
    }
    assert(ids@.subrange(0, i as int) =~= ids@);
    out
}

/// Every outcome succeeded.
pub open spec fn all_ok<T, E>(s: Seq<Result<T, E>>) -> bool {
    forall|i: int| 0 <= i < s.len() ==> #[trigger] s[i] is Ok
}

/// Outcome `i` is the first that failed.
pub open spec fn first_failure<T, E>(s: Seq<Result<T, E>>, i: int) -> bool {
    &&& 0 <= i < s.len()
    &&& s[i] is Err
    &&& forall|j: int| 0 <= j < i ==> #[trigger] s[j] is Ok
}

/// Prefix mode, after the fetches: `values[i]` is the outcome of fetching
/// `plan[i]`. When all succeeded, the entries pair each derived name with its
/// value, in plan order; otherwise the resolution fails with the first failure
/// in plan order, and no entry is returned.
pub fn join_prefixed(plan: Vec<PrefixedSecret>, values: Vec<Result<String, BackendError>>) -> (r:
    Result<Vec<(String, String)>, EnvLoadError>)
    requires
        plan@.len() == values@.len(),
    ensures
        all_ok(values@) ==> (r matches Ok(v) && v@.len() == plan@.len() && forall|i: int|
            0 <= i < plan@.len() ==> #[trigger] pairs_view(v@)[i] == (
                plan@[i].env_name@,
                values@[i]->Ok_0@,
            )),
        !all_ok(values@) ==> exists|i: int|
            first_failure(values@, i) && r == Err::<Vec<(String, String)>, EnvLoadError>(
                EnvLoadError::CannotLoadSecret(#[trigger] values@[i]->Err_0),
            ),
{
    let ghost plan0 = plan@;
    let ghost values0 = values@;
    let n = plan.len();
    let mut rest_plan = plan;
    let mut rest_values = values;
    let mut out: Vec<(String, String)> = Vec::new();
    let mut i: usize = 0;
    while i < n
        invariant
            n == plan0.len(),
            n == values0.len(),
            plan0 == plan@,
            values0 == values@,
            i <= n,
            rest_plan@ == plan0.subrange(i as int, n as int),
            rest_values@ == values0.subrange(i as int, n as int),
            out@.len() == i,
            forall|j: int| 0 <= j < i ==> #[trigger] values0[j] is Ok,
            forall|j: int|
                0 <= j < i ==> #[trigger] pairs_view(out@)[j] == (
                    plan0[j].env_name@,
                    values0[j]->Ok_0@,
                ),
        decreases n - i,
    {
        let secret = rest_plan.remove(0);
        let value = rest_values.remove(0);
        assert(secret == plan0[i as int]);
        assert(value == values0[i as int]);
        match value {
            Ok(v) => {
                let ghost before = out@;
                out.push((secret.env_name, v));
                proof {
                    assert forall|j: int| 0 <= j < i + 1 implies #[trigger] pairs_view(out@)[j] == (
                        plan0[j].env_name@,
                        values0[j]->Ok_0@,
                    ) by {
                        if j < i {
                            assert(out@[j] == before[j]);
                            assert(pairs_view(before)[j] == (plan0[j].env_name@, values0[j]->Ok_0@));
                        }
                    }
                }
            },
            Err(e) => {
                assert(first_failure(values0, i as int));
                return Err(EnvLoadError::CannotLoadSecret(e));
            },
        }
        proof {
            assert(rest_plan@ =~= plan0.subrange(i + 1, n as int));
            assert(rest_values@ =~= values0.subrange(i + 1, n as int));
        }
        i = i + 1;
    }
    Ok(out)
}

/// The entries of successfully decoded documents, one document after another.
pub open spec fn concat_entries<E>(docs: Seq<Result<Vec<(String, String)>, E>>) -> Seq<
    (Seq<char>, Seq<char>),
>
    decreases docs.len(),
{
    if docs.len() == 0 {
        Seq::empty()
    } else {
        concat_entries(docs.drop_last()) + pairs_view(docs.last()->Ok_0@)
    }
}

/// Prefix mode where each secret is a document of its own: the entries of all
/// documents in order when each was fetched and decoded; otherwise the first
/// failure in order, and no entry.
pub fn join_documents<E>(docs: Vec<Result<Vec<(String, String)>, E>>) -> (r: Result<
    Vec<(String, String)>,
    E,
>)
    ensures
        all_ok(docs@) ==> (r matches Ok(v) && pairs_view(v@) == concat_entries(docs@)),
        !all_ok(docs@) ==> exists|i: int|
            first_failure(docs@, i) && r == Err::<Vec<(String, String)>, E>(
                #[trigger] docs@[i]->Err_0,
            ),
{
    let ghost docs0 = docs@;
    let n = docs.len();
    let mut rest = docs;
    let mut out: Vec<(String, String)> = Vec::new();
    let mut i: usize = 0;
    while i < n
        invariant
            n == docs0.len(),
            docs0 == docs@,
            i <= n,
            rest@ == docs0.subrange(i as int, n as int),
            forall|j: int| 0 <= j < i ==> #[trigger] docs0[j] is Ok,
            pairs_view(out@) == concat_entries(docs0.subrange(0, i as int)),
        decreases n - i,
    {
        let doc = rest.remove(0);
        assert(doc == docs0[i as int]);
        match doc {
            Ok(mut entries) => {
                let ghost before = out@;
                let ghost added = entries@;
                out.append(&mut entries);
                proof {
                    let done = docs0.subrange(0, i + 1);
                    assert(done.drop_last() =~= docs0.subrange(0, i as int));
                    assert(pairs_view(out@) =~= pairs_view(before) + pairs_view(added));
                }
            },
            Err(e) => {
                assert(first_failure(docs0, i as int));
                return Err(e);
            },
        }
        proof {
            assert(rest@ =~= docs0.subrange(i + 1, n as int));
        }
        i = i + 1;
    }
    assert(docs0.subrange(0, i as int) =~= docs0);
    Ok(out)
}

/// A secret backend: reads the entries of one secret document, or of every
/// secret whose name starts with a prefix.
pub trait Vault {
    fn download_prefixed(&self, prefix: &str) -> Result<Vec<(String, String)>, EnvLoadError>;

    fn download_json(&self, secret_name: &str) -> Result<Vec<(String, String)>, EnvLoadError>;
}

/// The configuration of a secret backend, which makes the backend when chosen.
pub trait VaultConfig {
    type Vault: Vault;

    fn is_enabled(&self) -> bool;

    fn into_vault(self) -> Result<Self::Vault, EnvLoadError>;
}

/// Resolves the environment that `cfg` describes from `vault`: the entries of
/// the named secret, or of the secrets with the prefix. `os_vars` are the OS
/// variables at this moment. What the backend reports is passed on; the
/// environment holds the backend's entries and `cfg`'s masked names.
pub fn download_env<V: Vault>(vault: &V, cfg: DataConfig, os_vars: Vec<(String, String)>) -> (r:
    Result<ProcessEnv, EnvLoadError>)
    ensures
        (cfg.secret_name is Some) == (cfg.secret_prefix is Some) ==> (r matches Err(
            EnvLoadError::ConfigurationError(_),
        )),
        r matches Ok(env) ==> env.masked == cfg.mask && env.from_env == (if cfg.snapshot_env {
            OsEnv::Persisted(os_vars)
        } else {
            OsEnv::Fresh(os_vars)
        }),
{
    let from_kv = match cfg.source()? {
        SecretSource::Single(name) => vault.download_json(name.as_str())?,
        SecretSource::Prefixed(prefix) => vault.download_prefixed(prefix.as_str())?,
    };
    Ok(cfg.into_process_env(from_kv, os_vars))
}

/// The secret backends, in the order in which they are considered.
#[derive(Debug, Clone, Copy, PartialEq, Eq)]
pub enum BackendKind {
    Aws,
    Azure,
    Google,
    Hashicorp,
}

/// The backend to use: the first enabled one of AWS, Azure, Google and
/// Hashicorp Vault, in that order; with none enabled there is none to use.
pub fn select_backend(aws: bool, azure: bool, google: bool, hashicorp: bool) -> (r: Result<
    BackendKind,
    EnvLoadError,
>)
    ensures
        aws ==> r == Ok::<BackendKind, EnvLoadError>(BackendKind::Aws),
        !aws && azure ==> r == Ok::<BackendKind, EnvLoadError>(BackendKind::Azure),
        !aws && !azure && google ==> r == Ok::<BackendKind, EnvLoadError>(BackendKind::Google),
        !aws && !azure && !google && hashicorp ==> r == Ok::<BackendKind, EnvLoadError>(
            BackendKind::Hashicorp,
        ),
        !aws && !azure && !google && !hashicorp ==> (r matches Err(
            EnvLoadError::ConfigurationError(_),
        )),
{
    if aws {
        Ok(BackendKind::Aws)
    } else if azure {
        Ok(BackendKind::Azure)
    } else if google {
        Ok(BackendKind::Google)
    } else if hashicorp {
        Ok(BackendKind::Hashicorp)
    } else {
        Err(EnvLoadError::ConfigurationError(String::from_str("no secret backend is enabled")))
    }
}

} // verus!
