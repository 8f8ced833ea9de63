//! Name-keyed tables.
//!
//! Attribute layouts, program variable tables, and material properties are
//! all keyed by a name.  They are stored as vectors of `(String, value)`
//! pairs in insertion order and reasoned about through a view that replaces
//! each `String` with its character sequence, so specifications never hold
//! `String` values.  Names are unique within one table; writing a name that
//! is already present overwrites its value in place (last write wins).

use vstd::prelude::*;

use crate::assoc::{
    keyed_get, keyed_idx, keyed_put, lemma_keyed_put_absent, lemma_keyed_put_at_idx,
};

verus! {

/// The specification-level view of a name-keyed table: each key as its
/// character sequence.
pub open spec fn names_view<V>(s: Seq<(String, V)>) -> Seq<(Seq<char>, V)> {
    s.map_values(|p: (String, V)| (p.0@, p.1))
}

/// Character-by-character string equality.
pub fn str_eq(a: &str, b: &str) -> (r: bool)
    ensures
        r == (a@ == b@),
{
    let na = a.unicode_len();
    let nb = b.unicode_len();
    if na != nb {
        proof {
            assert(a@ != b@);
        }
        return false;
    }
    let mut i: usize = 0;
    while i < na
        invariant
            na == a@.len(),
            na == b@.len(),
            i <= na,
            forall|j: int| 0 <= j < i ==> a@[j] == b@[j],
        decreases na - i,
    {
        if a.get_char(i) != b.get_char(i) {
            return false;
        }
        i += 1;
    }
    proof {
        assert(a@ =~= b@);
    }
    true
}

/// The position of `name` in a name-keyed vector, if present.
pub fn find_name_index<V>(entries: &Vec<(String, V)>, name: &str) -> (r: Option<usize>)
    ensures
        match r {
            Some(i) => {
                &&& i < entries@.len()
                &&& i == keyed_idx(names_view(entries@), name@)
                &&& entries@[i as int].0@ == name@
                &&& keyed_get(names_view(entries@), name@) == Some(
                    names_view(entries@)[i as int].1,
                )
            },
            None => keyed_get(names_view(entries@), name@) is None,
        },
{
    let ghost v = names_view(entries@);
    let n = entries.len();
    let mut i: usize = 0;
    proof {
        assert(v.skip(0) =~= v);
    }
    while i < n
        invariant
            v == names_view(entries@),
            n == entries@.len(),
            v.len() == n,
            i <= n,
            keyed_get(v, name@) == keyed_get(v.skip(i as int), name@),
            keyed_get(v.skip(i as int), name@) is Some ==> keyed_idx(v, name@) == i + keyed_idx(
                v.skip(i as int),
                name@,
            ),
        decreases n - i,
    {
        proof {
            assert(v.skip(i as int)[0] == v[i as int]);
            assert(v.skip(i as int).skip(1) =~= v.skip(i + 1));
        }
        if str_eq(entries[i].0.as_str(), name) {
            return Some(i);
        }
        i += 1;
    }
    proof {
        assert(v.skip(n as int) =~= Seq::<(Seq<char>, V)>::empty());
    }
    None
}

/// A read-only lookup by name.
pub fn named_lookup<'a, V>(entries: &'a Vec<(String, V)>, name: &str) -> (r: Option<&'a V>)
    ensures
        match r {
            Some(value) => keyed_get(names_view(entries@), name@) == Some(*value),
            None => keyed_get(names_view(entries@), name@) is None,
        },
{
    match find_name_index(entries, name) {
        Some(i) => Some(&entries[i].1),
        None => None,
    }
}

/// Writes `value` under `name`: overwrites in place if the name is present,
/// appends otherwise.
pub fn named_insert<V>(entries: &mut Vec<(String, V)>, name: &str, value: V)
    ensures
        names_view(final(entries)@) == keyed_put(names_view(old(entries)@), name@, value),
{
    let ghost v0 = names_view(old(entries)@);
    match find_name_index(entries, name) {
        Some(i) => {
            let slot = &mut entries[i];
            *slot = (String::from_str(name), value);
            proof {
                lemma_keyed_put_at_idx(v0, name@, value);
                assert(names_view(entries@) =~= v0.update(keyed_idx(v0, name@), (name@, value)));
            }
        },
        None => {
            entries.push((String::from_str(name), value));
            proof {
                lemma_keyed_put_absent(v0, name@, value);
                assert(names_view(entries@) =~= v0.push((name@, value)));
            }
        },
    }
}

} // verus!
