//! The process environment: OS variables, variables from the secret backend,
//! and the names to mask, merged into one flat list of variables.
use vstd::prelude::*;

use crate::pairs::{
    keys_unique, lookup, names_contain, pairs_view, remove_names, set_entries,
};

verus! {

/// Where the OS variables of an environment come from.
#[derive(Debug)]
pub enum OsEnv {
    /// Captured when the environment was resolved, and carried with it.
    Persisted(Vec<(String, String)>),
    /// Read by the process that uses the environment; never stored.
    Fresh(Vec<(String, String)>),
}

impl OsEnv {
    /// The OS variables, whichever the mode.
    pub open spec fn vars(self) -> Seq<(String, String)> {
        match self {
            OsEnv::Persisted(v) => v@,
            OsEnv::Fresh(v) => v@,
        }
    }

    /// Whether the OS variables stay out of a stored environment.
    pub fn should_not_persist(&self) -> (r: bool)
        ensures
            r == (*self is Fresh),
    {
        match self {
            OsEnv::Persisted(_) => false,
            OsEnv::Fresh(_) => true,
        }
    }

    /// The OS variables, whichever the mode.
    pub fn into_vars(self) -> (r: Vec<(String, String)>)
        ensures
            r@ == self.vars(),
    {
        match self {
            OsEnv::Persisted(v) => v,
            OsEnv::Fresh(v) => v,
        }
    }
}

/// The value of variable `k` in the merged environment: none when `k` is
/// masked; otherwise that of the last backend entry named `k`, or failing that
/// of the last OS variable named `k`.
pub open spec fn merged_value(
    os: Seq<(Seq<char>, Seq<char>)>,
    kv: Seq<(Seq<char>, Seq<char>)>,
    masked: Seq<String>,
    k: Seq<char>,
) -> Option<Seq<char>> {
    if names_contain(masked, k) {
        None
    } else {
        match lookup(kv, k) {
            Some(v) => Some(v),
            None => lookup(os, k),
        }
    }
}

/// An environment resolved from a secret backend, ready to be merged into the
/// variables of a child process.
#[derive(Debug)]
pub struct ProcessEnv {
    pub from_env: OsEnv,
    pub from_kv: Vec<(String, String)>,
    pub masked: Vec<String>,
}

/// What a cache artifact holds of an environment: the OS variables only when
/// they were captured, then the backend entries and the masked names.
#[derive(Debug)]
pub struct CachedEnv {
    pub from_env: Option<Vec<(String, String)>>,
    pub from_kv: Vec<(String, String)>,
    pub masked: Vec<String>,
}

impl ProcessEnv {
    /// The value of variable `k` once the environment is merged.
    pub open spec fn env_value(self, k: Seq<char>) -> Option<Seq<char>> {
        merged_value(pairs_view(self.from_env.vars()), pairs_view(self.from_kv@), self.masked@, k)
    }

    /// What the cache artifact of this environment holds.
    pub open spec fn cached(self) -> CachedEnv {
        CachedEnv {
            from_env: match self.from_env {
                OsEnv::Persisted(v) => Some(v),
                OsEnv::Fresh(_) => None,
            },
            from_kv: self.from_kv,
            masked: self.masked,
        }
    }

    /// The environment read back from artifact `c` by a process whose OS
    /// variables are `os_vars`.
    pub open spec fn restored(c: CachedEnv, os_vars: Vec<(String, String)>) -> ProcessEnv {
        ProcessEnv {
            from_env: match c.from_env {
                Some(v) => OsEnv::Persisted(v),
                None => OsEnv::Fresh(os_vars),
            },
            from_kv: c.from_kv,
            masked: c.masked,
        }
    }

    /// A freshly resolved environment. `os_vars` are the OS variables at this
    /// moment; they are kept for later only when `snapshot_env` is set.
    pub fn new(
        from_kv: Vec<(String, String)>,
        masked: Vec<String>,
        snapshot_env: bool,
        os_vars: Vec<(String, String)>,
    ) -> (r: ProcessEnv)
        ensures
            r.from_env == (if snapshot_env {
                OsEnv::Persisted(os_vars)
            } else {
                OsEnv::Fresh(os_vars)
            }),
            r.from_kv == from_kv,
            r.masked == masked,
    {
        let from_env = if snapshot_env {
            OsEnv::Persisted(os_vars)
        } else {
            OsEnv::Fresh(os_vars)
        };
        ProcessEnv { from_env, from_kv, masked }
    }

    /// An environment whose OS variables `from_env` were read by this process.
    pub fn fresh(
        from_env: Vec<(String, String)>,
        from_kv: Vec<(String, String)>,
        masked: Vec<String>,
    ) -> (r: ProcessEnv)
        ensures
            r.from_env == OsEnv::Fresh(from_env),
            r.from_kv == from_kv,
            r.masked == masked,
    {
        ProcessEnv { from_env: OsEnv::Fresh(from_env), from_kv, masked }
    }

    /// An environment whose OS variables `from_env` were captured at resolution.
    pub fn persisted(
        from_env: Vec<(String, String)>,
        from_kv: Vec<(String, String)>,
        masked: Vec<String>,
    ) -> (r: ProcessEnv)
        ensures
            r.from_env == OsEnv::Persisted(from_env),
            r.from_kv == from_kv,
            r.masked == masked,
    {
        ProcessEnv { from_env: OsEnv::Persisted(from_env), from_kv, masked }
    }

    /// Merges the environment into one list of variables, each name once: the
    /// OS variables, overridden by the backend entries in their order, without
    /// any masked name, whichever side it came from.
    pub fn into_env(self) -> (r: Vec<(String, String)>)
        ensures
            keys_unique(pairs_view(r@)),
            forall|k: Seq<char>| #[trigger] lookup(pairs_view(r@), k) == self.env_value(k),
    {
        let ghost this = self;
        let ProcessEnv { from_env, from_kv, masked } = self;
        let mut map: Vec<(String, String)> = Vec::new();
        proof {
            assert(pairs_view(map@) =~= Seq::empty());
        }
        set_entries(&mut map, from_env.into_vars());
        set_entries(&mut map, from_kv);
        proof {
            assert forall|k: Seq<char>| #[trigger] lookup(pairs_view(Seq::empty()), k) is None by {}
        }
        let r = remove_names(map, &masked);
        proof {
            assert forall|k: Seq<char>| #[trigger]
                lookup(pairs_view(r@), k) == this.env_value(k) by {}
        }
        r
    }

    /// The environment as it is to be merged now: OS variables read by the
    /// process that uses the environment become `current`, the OS variables of
    /// this process at this moment; captured ones stay.
    pub fn with_current_os(self, current: Vec<(String, String)>) -> (r: ProcessEnv)
        ensures
            self.from_env is Persisted ==> r.from_env == self.from_env,
            self.from_env is Fresh ==> r.from_env == OsEnv::Fresh(current),
            r.from_kv == self.from_kv,
            r.masked == self.masked,
    {
        let ProcessEnv { from_env, from_kv, masked } = self;
        let from_env = match from_env {
            OsEnv::Persisted(v) => OsEnv::Persisted(v),
            OsEnv::Fresh(_) => OsEnv::Fresh(current),
        };
        ProcessEnv { from_env, from_kv, masked }
    }

    /// What the cache artifact of this environment holds: the OS variables are
    /// written only when they were captured.
    pub fn into_cached(self) -> (r: CachedEnv)
        ensures
            r == self.cached(),
    {
        let ProcessEnv { from_env, from_kv, masked } = self;
        let from_env = match from_env {
            OsEnv::Persisted(v) => Some(v),
            OsEnv::Fresh(_) => None,
        };
        CachedEnv { from_env, from_kv, masked }
    }

    /// The environment read back from a cache artifact; `os_vars` are the OS
    /// variables of this process, used when the artifact holds none.
    pub fn from_cached(c: CachedEnv, os_vars: Vec<(String, String)>) -> (r: ProcessEnv)
        ensures
            r == ProcessEnv::restored(c, os_vars),
    {
        let CachedEnv { from_env, from_kv, masked } = c;
        let from_env = match from_env {
            Some(v) => OsEnv::Persisted(v),
            None => OsEnv::Fresh(os_vars),
        };
        ProcessEnv { from_env, from_kv, masked }
    }
}

/// Storing an environment with captured OS variables and reading it back, in
/// any process, gives the same environment, and so the same merged variables.
pub proof fn lemma_persisted_round_trip(e: ProcessEnv, os_vars: Vec<(String, String)>)
    requires
        e.from_env is Persisted,
    ensures
        ProcessEnv::restored(e.cached(), os_vars) == e,
        forall|k: Seq<char>| #[trigger]
            ProcessEnv::restored(e.cached(), os_vars).env_value(k) == e.env_value(k),
{
}

/// An environment stored without its OS variables reads back with the OS
/// variables of the process that reads it, and the same backend entries and
/// masked names.
pub proof fn lemma_fresh_round_trip(e: ProcessEnv, os_vars: Vec<(String, String)>)
    requires
        e.from_env is Fresh,
    ensures
        ProcessEnv::restored(e.cached(), os_vars) == (ProcessEnv {
            from_env: OsEnv::Fresh(os_vars),
            from_kv: e.from_kv,
            masked: e.masked,
        }),
{
}

} // verus!
