//! Lists of (name, value) pairs read as maps: a later pair overrides an
//! earlier one with the same name.
use vstd::prelude::*;

verus! {

/// A list of string pairs as character sequences.
pub open spec fn pairs_view(v: Seq<(String, String)>) -> Seq<(Seq<char>, Seq<char>)> {
    v.map_values(|p: (String, String)| (p.0@, p.1@))
}

/// The value that `s` gives `k`: that of the last pair named `k`.
pub open spec fn lookup(s: Seq<(Seq<char>, Seq<char>)>, k: Seq<char>) -> Option<Seq<char>>
    decreases s.len(),
{
    if s.len() == 0 {
        None
    } else if s.last().0 == k {
        Some(s.last().1)
    } else {
        lookup(s.drop_last(), k)
    }
}

/// No two pairs of `s` share a name.
pub open spec fn keys_unique(s: Seq<(Seq<char>, Seq<char>)>) -> bool {
    forall|i: int, j: int| 0 <= i < s.len() && 0 <= j < s.len() && i != j ==> s[i].0 != s[j].0
}

/// Whether `names` holds `k`.
pub open spec fn names_contain(names: Seq<String>, k: Seq<char>) -> bool {
    exists|i: int| 0 <= i < names.len() && names[i]@ == k
}

/// In a list without repeated names, each pair gives its name its value.
pub proof fn lemma_lookup_at(s: Seq<(Seq<char>, Seq<char>)>, i: int)
    requires
        keys_unique(s),
        0 <= i < s.len(),
    ensures
        lookup(s, s[i].0) == Some(s[i].1),
    decreases s.len(),
{
    if i < s.len() - 1 {
        assert(s.last() == s[s.len() - 1]);
        assert(s.drop_last()[i] == s[i]);
        lemma_lookup_at(s.drop_last(), i);
    }
}

/// A name that no pair holds has no value.
pub proof fn lemma_lookup_absent(s: Seq<(Seq<char>, Seq<char>)>, k: Seq<char>)
    requires
        forall|i: int| 0 <= i < s.len() ==> s[i].0 != k,
    ensures
        lookup(s, k) is None,
    decreases s.len(),
{
    if s.len() > 0 {
        assert(s.last() == s[s.len() - 1]);
        lemma_lookup_absent(s.drop_last(), k);
    }
}

/// The index of the pair named `k`, if any.
pub fn find_name(v: &Vec<(String, String)>, k: &String) -> (r: Option<usize>)
    ensures
        match r {
            Some(j) => j < v@.len() && v@[j as int].0@ == k@,
            None => forall|i: int| 0 <= i < v@.len() ==> v@[i].0@ != k@,
        },
{
    let mut i: usize = 0;
    while i < v.len()
        invariant
            i <= v@.len(),
            forall|j: int| 0 <= j < i ==> v@[j].0@ != k@,
        decreases v@.len() - i,
    {
        if v[i].0 == *k {
            return Some(i);
        }
        i = i + 1;
    }
    None
}

/// Whether `names` holds `k`.
pub fn contains_name(names: &Vec<String>, k: &String) -> (r: bool)
    ensures
        r == names_contain(names@, k@),
{
    let mut i: usize = 0;
    while i < names.len()
        invariant
            i <= names@.len(),
            forall|j: int| 0 <= j < i ==> names@[j]@ != k@,
        decreases names@.len() - i,
    {
        if names[i] == *k {
            return true;
        }
        i = i + 1;
    }
    false
}

/// Gives `k` the value `val`, replacing the pair named `k` if there is one.
pub fn set_entry(v: &mut Vec<(String, String)>, k: String, val: String)
    requires
        keys_unique(pairs_view(old(v)@)),
    ensures
        keys_unique(pairs_view(final(v)@)),
        forall|x: Seq<char>|
            #[trigger] lookup(pairs_view(final(v)@), x) == if x == k@ {
                Some(val@)
            } else {
                lookup(pairs_view(old(v)@), x)
            },
{
    let ghost before = pairs_view(v@);
    let ghost key = k@;
    let ghost value = val@;
    match find_name(v, &k) {
        Some(j) => {
            v.set(j, (k, val));
            proof {
                let after = pairs_view(v@);
                assert(after =~= before.update(j as int, (key, value)));
                assert forall|a: int| 0 <= a < after.len() implies #[trigger] after[a].0
                    == before[a].0 by {}
                assert(keys_unique(after));
                assert forall|x: Seq<char>| #[trigger]
                    lookup(after, x) == if x == key {
                        Some(value)
                    } else {
                        lookup(before, x)
                    } by {
                    if x == key {
                        lemma_lookup_at(after, j as int);
                    } else if exists|i: int| 0 <= i < before.len() && before[i].0 == x {
                        let i = choose|i: int| 0 <= i < before.len() && before[i].0 == x;
                        lemma_lookup_at(before, i);
                        lemma_lookup_at(after, i);
                    } else {
                        lemma_lookup_absent(before, x);
                        lemma_lookup_absent(after, x);
                    }
                }
            }
        },
        None => {
            v.push((k, val));
            proof {
                let after = pairs_view(v@);
                assert(after =~= before.push((key, value)));
                assert(after.drop_last() =~= before);
                assert forall|x: Seq<char>| #[trigger]
                    lookup(after, x) == if x == key {
                        Some(value)
                    } else {
                        lookup(before, x)
                    } by {}
            }
        },
    }
}

/// Gives each name of `entries` its value in `v`, in order, so that a later
/// entry overrides an earlier one with the same name.
pub fn set_entries(v: &mut Vec<(String, String)>, entries: Vec<(String, String)>)
    requires
        keys_unique(pairs_view(old(v)@)),
    ensures
        keys_unique(pairs_view(final(v)@)),
        forall|x: Seq<char>|
            #[trigger] lookup(pairs_view(final(v)@), x) == match lookup(pairs_view(entries@), x) {
                Some(y) => Some(y),
                None => lookup(pairs_view(old(v)@), x),
            },
{
    let ghost start = pairs_view(v@);
    let ghost all = pairs_view(entries@);
    let mut i: usize = 0;
    while i < entries.len()
        invariant
            i <= entries@.len(),
            all == pairs_view(entries@),
            keys_unique(pairs_view(v@)),
            forall|x: Seq<char>|
                #[trigger] lookup(pairs_view(v@), x) == match lookup(all.subrange(0, i as int), x) {
                    Some(y) => Some(y),
                    None => lookup(start, x),
                },
        decreases entries@.len() - i,
    {
        let k = entries[i].0.clone();
        let val = entries[i].1.clone();
        set_entry(v, k, val);
        proof {
            let done = all.subrange(0, i + 1);
            assert(done.drop_last() =~= all.subrange(0, i as int));
            assert forall|x: Seq<char>| #[trigger]
                lookup(pairs_view(v@), x) == match lookup(done, x) {
                    Some(y) => Some(y),
                    None => lookup(start, x),
                } by {}
        }
        i = i + 1;
    }
    assert(all.subrange(0, i as int) =~= all);
}

/// Drops every pair whose name `names` holds, keeping the others in order.
pub fn remove_names(v: Vec<(String, String)>, names: &Vec<String>) -> (r: Vec<(String, String)>)
    requires
        keys_unique(pairs_view(v@)),
    ensures
        keys_unique(pairs_view(r@)),
        forall|x: Seq<char>|
            #[trigger] lookup(pairs_view(r@), x) == if names_contain(names@, x) {
                None
            } else {
                lookup(pairs_view(v@), x)
            },
{
    let ghost all = pairs_view(v@);
    let mut out: Vec<(String, String)> = Vec::new();
    let mut i: usize = 0;
    while i < v.len()
        invariant
            i <= v@.len(),
            all == pairs_view(v@),
            keys_unique(all),
            keys_unique(pairs_view(out@)),
            forall|x: Seq<char>|
                #[trigger] lookup(pairs_view(out@), x) == if names_contain(names@, x) {
                    None
                } else {
                    lookup(all.subrange(0, i as int), x)
                },
        decreases v@.len() - i,
    {
        let ghost before = pairs_view(out@);
        let ghost done = all.subrange(0, i as int);
        let ghost key = all[i as int].0;
        proof {
            assert forall|j: int| 0 <= j < done.len() implies done[j].0 != key by {
                assert(done[j] == all[j]);
            }
            lemma_lookup_absent(done, key);
        }
        let ghost next = all.subrange(0, i + 1);
        proof {
            assert(next.drop_last() =~= done);
            assert(next.last() == all[i as int]);
        }
        if !contains_name(names, &v[i].0) {
            let k = v[i].0.clone();
            let val = v[i].1.clone();
            out.push((k, val));
            proof {
                let after = pairs_view(out@);
                assert(after.drop_last() =~= before);
                assert(after.last() == all[i as int]);
                assert forall|j: int| 0 <= j < before.len() implies before[j].0 != key by {
                    lemma_lookup_at(before, j);
                }
                assert forall|a: int| 0 <= a < before.len() implies after[a] == before[a] by {}
                assert(keys_unique(after));
                assert(key == v@[i as int].0@);
                assert(!names_contain(names@, key));
                assert forall|x: Seq<char>| #[trigger]
                    lookup(pairs_view(out@), x) == if names_contain(names@, x) {
                        None
                    } else {
                        lookup(next, x)
                    } by {
                    if x != key {
                        assert(lookup(after, x) == lookup(before, x));
                    }
                }
            }
        } else {
            proof {
                assert forall|x: Seq<char>| #[trigger]
                    lookup(pairs_view(out@), x) == if names_contain(names@, x) {
                        None
                    } else {
                        lookup(next, x)
                    } by {}
            }
        }
        i = i + 1;
    }
    assert(all.subrange(0, i as int) =~= all);
    out
}

} // verus!
