//! Environment variable names: validation, and derivation of a name from a
//! backend-side secret identifier.
use vstd::prelude::*;

use crate::error::EnvLoadError;

verus! {

/// An ASCII letter.
pub open spec fn is_ascii_letter(c: char) -> bool {
    ('a' <= c && c <= 'z') || ('A' <= c && c <= 'Z')
}

/// A character allowed anywhere in a name: ASCII letter, digit or underscore.
pub open spec fn is_name_char(c: char) -> bool {
    is_ascii_letter(c) || ('0' <= c && c <= '9') || c == '_'
}

/// A valid environment variable name: non-empty, starts with an ASCII letter,
/// and holds only ASCII letters, digits and underscores.
pub open spec fn is_valid_env_name(s: Seq<char>) -> bool {
    &&& s.len() > 0
    &&& is_ascii_letter(s[0])
    &&& forall|i: int| 0 <= i < s.len() ==> #[trigger] is_name_char(s[i])
}

/// Index of the last `/` in `s`, or -1 when there is none.
pub open spec fn last_slash(s: Seq<char>) -> int
    decreases s.len(),
{
    if s.len() == 0 {
        -1
    } else if s.last() == '/' {
        s.len() - 1
    } else {
        last_slash(s.drop_last())
    }
}

/// The leaf of a secret identifier: what follows its last `/` (all of it when
/// there is no `/`).
pub open spec fn leaf_of(id: Seq<char>) -> Seq<char> {
    id.subrange(last_slash(id) + 1, id.len() as int)
}

/// `p` is a prefix of `s`.
pub open spec fn starts_with(s: Seq<char>, p: Seq<char>) -> bool {
    p.len() <= s.len() && s.subrange(0, p.len() as int) == p
}

/// Every `-` replaced by `_`.
pub open spec fn dashes_to_underscores(s: Seq<char>) -> Seq<char> {
    s.map_values(|c: char| if c == '-' { '_' } else { c })
}

/// The name derived from a secret identifier whose leaf starts with `prefix`:
/// the leaf without as many characters as `prefix` has, with every `-`
/// replaced by `_`.
pub open spec fn derived_name(prefix: Seq<char>, id: Seq<char>) -> Seq<char> {
    dashes_to_underscores(leaf_of(id).subrange(prefix.len() as int, leaf_of(id).len() as int))
}

/// With no `/` at or after `i`, the last `/` of `s` is the last one of its first `i`
/// characters.
proof fn lemma_last_slash_prefix(s: Seq<char>, i: int)
    requires
        0 <= i <= s.len(),
        forall|j: int| i <= j < s.len() ==> s[j] != '/',
    ensures
        last_slash(s) == last_slash(s.subrange(0, i)),
    decreases s.len() - i,
{
    if i < s.len() {
        assert(s.drop_last() =~= s.subrange(0, s.len() - 1));
        lemma_last_slash_prefix(s.drop_last(), i);
        assert(s.drop_last().subrange(0, i) =~= s.subrange(0, i));
    } else {
        assert(s.subrange(0, i) =~= s);
    }
}

fn is_letter(c: char) -> (r: bool)
    ensures
        r == is_ascii_letter(c),
{
    ('a' <= c && c <= 'z') || ('A' <= c && c <= 'Z')
}

fn is_allowed(c: char) -> (r: bool)
    ensures
        r == is_name_char(c),
{
    is_letter(c) || ('0' <= c && c <= '9') || c == '_'
}

/// Whether `s` is a valid environment variable name.
pub fn is_valid_name(s: &str) -> (r: bool)
    ensures
        r == is_valid_env_name(s@),
{
    let n = s.unicode_len();
    if n == 0 || !is_letter(s.get_char(0)) {
        return false;
    }
    let mut i: usize = 0;
    while i < n
        invariant
            n == s@.len(),
            i <= n,
            forall|j: int| 0 <= j < i ==> #[trigger] is_name_char(s@[j]),
        decreases n - i,
    {
        if !is_allowed(s.get_char(i)) {
            return false;
        }
        i = i + 1;
    }
    true
}

/// Accepts `name` unchanged when it is a valid environment variable name, and
/// rejects it otherwise; an invalid name is never repaired.
pub fn as_valid_env_name(name: String) -> (r: Result<String, EnvLoadError>)
    ensures
        is_valid_env_name(name@) ==> r == Ok::<String, EnvLoadError>(name),
        !is_valid_env_name(name@) ==> r == Err::<String, EnvLoadError>(
            EnvLoadError::InvalidSecretFormat,
        ),
{
    if is_valid_name(name.as_str()) {
        Ok(name)
    } else {
        Err(EnvLoadError::InvalidSecretFormat)
    }
}

/// The leaf of a secret identifier: everything after its last `/`.
pub fn strip_path(id: &str) -> (r: &str)
    ensures
        r@ == leaf_of(id@),
{
    let n = id.unicode_len();
    let mut i: usize = n;
    while i > 0 && id.get_char(i - 1) != '/'
        invariant
            n == id@.len(),
            i <= n,
            forall|j: int| i <= j < n ==> id@[j] != '/',
        decreases i,
    {
        i = i - 1;
    }
    proof {
        lemma_last_slash_prefix(id@, i as int);
        if i > 0 {
            assert(id@.subrange(0, i as int).last() == '/');
        } else {
            assert(id@.subrange(0, 0).len() == 0);
        }
    }
    id.substring_char(i, n)
}

/// Whether `s` starts with `p`, compared character by character.
pub fn has_prefix(s: &str, p: &str) -> (r: bool)
    ensures
        r == starts_with(s@, p@),
{
    let n = s.unicode_len();
    let m = p.unicode_len();
    if m > n {
        return false;
    }
    let mut i: usize = 0;
    while i < m
        invariant
            n == s@.len(),
            m == p@.len(),
            m <= n,
            i <= m,
            forall|j: int| 0 <= j < i ==> s@[j] == p@[j],
        decreases m - i,
    {
        if s.get_char(i) != p.get_char(i) {
            assert(s@.subrange(0, m as int)[i as int] != p@[i as int]);
            return false;
        }
        i = i + 1;
    }
    assert(s@.subrange(0, m as int) =~= p@);
    true
}

/// Whether the leaf of secret identifier `id` starts with `prefix`.
pub fn leaf_matches(prefix: &str, id: &str) -> (r: bool)
    ensures
        r == starts_with(leaf_of(id@), prefix@),
{
    has_prefix(strip_path(id), prefix)
}

/// Relies on `str::replace` with the one-character pattern `-` and the
/// replacement `_`: each `-` becomes `_`, every other character stays.
#[verifier::external_body]
fn replace_dashes(s: &str) -> (r: String)
    ensures
        r@ == dashes_to_underscores(s@),
{
    s.replace('-', "_")
}

/// The leaf of `id` without its first characters, as many as `prefix` has;
/// callers select identifiers whose leaf starts with `prefix`.
pub fn strip_leaf_prefix<'a>(prefix: &str, id: &'a str) -> (r: &'a str)
    requires
        prefix@.len() <= leaf_of(id@).len(),
    ensures
        r@ == leaf_of(id@).subrange(prefix@.len() as int, leaf_of(id@).len() as int),
{
    let leaf = strip_path(id);
    leaf.substring_char(prefix.unicode_len(), leaf.unicode_len())
}

/// Derives an environment variable name from a secret identifier whose leaf
/// starts with `prefix`: the leaf without the prefix, with each `-` turned into
/// `_`, which must then be a valid name. Only the prefix's length is used: the
/// caller selects the identifiers that start with it.
pub fn convert_env_name(prefix: &str, name: &str) -> (r: Result<String, EnvLoadError>)
    requires
        prefix@.len() <= leaf_of(name@).len(),
    ensures
        is_valid_env_name(derived_name(prefix@, name@)) ==> (r matches Ok(s) && s@ == derived_name(
            prefix@,
            name@,
        )),
        !is_valid_env_name(derived_name(prefix@, name@)) ==> r == Err::<String, EnvLoadError>(
            EnvLoadError::InvalidSecretFormat,
        ),
{
    let rest = strip_leaf_prefix(prefix, name);
    as_valid_env_name(replace_dashes(rest))
}

} // verus!
