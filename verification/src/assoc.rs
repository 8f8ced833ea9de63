//! Association sequences: the common specification vocabulary for every
//! keyed table in the crate (id registries, name-keyed layout and variable
//! tables, location-keyed uniform maps).
//!
//! A table is a sequence of `(key, value)` pairs in insertion order with
//! unique keys; lookups search from the front, and writing an existing key
//! overwrites its value in place (last write wins).

use vstd::prelude::*;

verus! {

/// The value under `key`, searching from the front.
pub open spec fn keyed_get<K, V>(s: Seq<(K, V)>, key: K) -> Option<V>
    decreases s.len(),
{
    if s.len() == 0 {
        None
    } else if s[0].0 == key {
        Some(s[0].1)
    } else {
        keyed_get(s.skip(1), key)
    }
}

/// The position of `key`, searching from the front.  Meaningful only when
/// `keyed_get(s, key)` is `Some(_)`.
pub open spec fn keyed_idx<K, V>(s: Seq<(K, V)>, key: K) -> int
    decreases s.len(),
{
    if s.len() == 0 {
        0
    } else if s[0].0 == key {
        0
    } else {
        1 + keyed_idx(s.skip(1), key)
    }
}

/// The sequence after writing `value` under `key`: overwrites in place if
/// the key is present, appends otherwise.
pub open spec fn keyed_put<K, V>(s: Seq<(K, V)>, key: K, value: V) -> Seq<(K, V)>
    decreases s.len(),
{
    if s.len() == 0 {
        seq![(key, value)]
    } else if s[0].0 == key {
        seq![(key, value)] + s.skip(1)
    } else {
        seq![s[0]] + keyed_put(s.skip(1), key, value)
    }
}

/// A hit lands inside the sequence on the key looked up; a miss means no
/// pair holds the key.
pub proof fn lemma_keyed_get_idx<K, V>(s: Seq<(K, V)>, key: K)
    ensures
        keyed_get(s, key) is Some ==> {
            &&& 0 <= keyed_idx(s, key) < s.len()
            &&& s[keyed_idx(s, key)].0 == key
            &&& s[keyed_idx(s, key)].1 == keyed_get(s, key)->Some_0
        },
        keyed_get(s, key) is None ==> forall|i: int| 0 <= i < s.len() ==> s[i].0 != key,
    decreases s.len(),
{
    if s.len() > 0 && s[0].0 != key {
        lemma_keyed_get_idx(s.skip(1), key);
        if keyed_get(s, key) is None {
            assert forall|i: int| 0 <= i < s.len() implies s[i].0 != key by {
                if i > 0 {
                    assert(s[i] == s.skip(1)[i - 1]);
                }
            }
        }
    }
}

/// Reading back the key just written yields the value just written.
pub proof fn lemma_keyed_put_get<K, V>(s: Seq<(K, V)>, key: K, value: V)
    ensures
        keyed_get(keyed_put(s, key, value), key) == Some(value),
    decreases s.len(),
{
    let p = keyed_put(s, key, value);
    if s.len() == 0 {
        assert(p[0] == (key, value));
    } else if s[0].0 == key {
        assert(p[0] == (key, value));
    } else {
        lemma_keyed_put_get(s.skip(1), key, value);
        assert(p[0] == s[0]);
        assert(p.skip(1) =~= keyed_put(s.skip(1), key, value));
    }
}

/// Writing one key leaves every other key's value unchanged.
pub proof fn lemma_keyed_put_other<K, V>(s: Seq<(K, V)>, key: K, value: V, other: K)
    requires
        other != key,
    ensures
        keyed_get(keyed_put(s, key, value), other) == keyed_get(s, other),
    decreases s.len(),
{
    let p = keyed_put(s, key, value);
    if s.len() == 0 {
        assert(p[0] == (key, value));
        assert(p.skip(1) =~= Seq::<(K, V)>::empty());
        assert(keyed_get(p, other) == keyed_get(p.skip(1), other));
        assert(keyed_get(p, other) == keyed_get(s, other));
    } else if s[0].0 == key {
        assert(p[0] == (key, value));
        assert(p.skip(1) =~= s.skip(1));
        assert(keyed_get(p, other) == keyed_get(p.skip(1), other));
        assert(keyed_get(s, other) == keyed_get(s.skip(1), other));
    } else {
        lemma_keyed_put_other(s.skip(1), key, value, other);
        assert(p[0] == s[0]);
        assert(p.skip(1) =~= keyed_put(s.skip(1), key, value));
        if s[0].0 == other {
            assert(keyed_get(p, other) == Some(p[0].1));
            assert(keyed_get(s, other) == Some(s[0].1));
        } else {
            assert(keyed_get(p, other) == keyed_get(p.skip(1), other));
            assert(keyed_get(s, other) == keyed_get(s.skip(1), other));
        }
    }
}

/// When the key is present, `keyed_put` is an in-place update at its
/// position.
pub proof fn lemma_keyed_put_at_idx<K, V>(s: Seq<(K, V)>, key: K, value: V)
    requires
        keyed_get(s, key) is Some,
    ensures
        keyed_put(s, key, value) =~= s.update(keyed_idx(s, key), (key, value)),
        0 <= keyed_idx(s, key) < s.len(),
        s[keyed_idx(s, key)].0 == key,
    decreases s.len(),
{
    if s.len() > 0 && s[0].0 != key {
        lemma_keyed_put_at_idx(s.skip(1), key, value);
        assert(keyed_put(s, key, value)[0] == s[0]);
        assert(keyed_put(s, key, value).skip(1) =~= keyed_put(s.skip(1), key, value));
        assert(s.update(1 + keyed_idx(s.skip(1), key), (key, value)).skip(1) =~= s.skip(1).update(
            keyed_idx(s.skip(1), key),
            (key, value),
        ));
    }
}

/// When the key is absent, `keyed_put` appends.
pub proof fn lemma_keyed_put_absent<K, V>(s: Seq<(K, V)>, key: K, value: V)
    requires
        keyed_get(s, key) is None,
    ensures
        keyed_put(s, key, value) =~= s.push((key, value)),
    decreases s.len(),
{
    if s.len() > 0 {
        lemma_keyed_put_absent(s.skip(1), key, value);
        assert(keyed_put(s, key, value)[0] == s[0]);
        assert(keyed_put(s, key, value).skip(1) =~= keyed_put(s.skip(1), key, value));
        assert(s.push((key, value)).skip(1) =~= s.skip(1).push((key, value)));
    }
}

/// Writing one key grows the sequence by at most one pair.
pub proof fn lemma_keyed_put_len<K, V>(s: Seq<(K, V)>, key: K, value: V)
    ensures
        s.len() <= keyed_put(s, key, value).len() <= s.len() + 1,
    decreases s.len(),
{
    if s.len() > 0 && s[0].0 != key {
        lemma_keyed_put_len(s.skip(1), key, value);
    }
}

/// The position of `key` in a u32-keyed vector, if present.
pub fn find_key_index_u32<V>(entries: &Vec<(u32, V)>, key: u32) -> (r: Option<usize>)
    ensures
        match r {
            Some(i) => {
                &&& i < entries@.len()
                &&& i == keyed_idx(entries@, key)
                &&& entries@[i as int].0 == key
                &&& keyed_get(entries@, key) == Some(entries@[i as int].1)
            },
            None => keyed_get(entries@, key) is None,
        },
{
    let n = entries.len();
    let mut i: usize = 0;
    proof {
        assert(entries@.skip(0) =~= entries@);
    }
    while i < n
        invariant
            n == entries@.len(),
            i <= n,
            keyed_get(entries@, key) == keyed_get(entries@.skip(i as int), key),
            keyed_get(entries@.skip(i as int), key) is Some ==> keyed_idx(entries@, key) == i
                + keyed_idx(entries@.skip(i as int), key),
        decreases n - i,
    {
        proof {
            assert(entries@.skip(i as int)[0] == entries@[i as int]);
            assert(entries@.skip(i as int).skip(1) =~= entries@.skip(i + 1));
        }
        if entries[i].0 == key {
            return Some(i);
        }
        i += 1;
    }
    proof {
        assert(entries@.skip(n as int) =~= Seq::<(u32, V)>::empty());
    }
    None
}

/// Writes `value` under `key` in a u32-keyed vector: overwrites in place if
/// the key is present, appends otherwise.
pub fn keyed_insert_u32<V>(entries: &mut Vec<(u32, V)>, key: u32, value: V)
    ensures
        final(entries)@ == keyed_put(old(entries)@, key, value),
{
    match find_key_index_u32(entries, key) {
        Some(i) => {
            let slot = &mut entries[i];
            *slot = (key, value);
            proof {
                lemma_keyed_put_at_idx(old(entries)@, key, value);
                assert(entries@ =~= keyed_put(old(entries)@, key, value));
            }
        },
        None => {
            entries.push((key, value));
            proof {
                lemma_keyed_put_absent(old(entries)@, key, value);
                assert(entries@ =~= keyed_put(old(entries)@, key, value));
            }
        },
    }
}

} // verus!
